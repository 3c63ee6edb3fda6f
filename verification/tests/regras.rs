use rust_runner::animacao::{quadro_seguinte, PRIMEIRO_QUADRO_CORRIDA, QUADRO_PARADO};
use rust_runner::decimal::anexar_decimal;
use rust_runner::estado::{alternar_visibilidade, comando_de_inicio, piscar, proximo_estado, EstadoJogo, Visibilidade};
use rust_runner::jogador::{
    direcao_joystick, ComandoJogador, ControleJogador, Direcao, EntradaControle, VELOCIDADE_CORRIDA,
};
use rust_runner::progresso::Progresso;

#[test]
fn jogo_comeca_no_menu() {
    assert_eq!(EstadoJogo::default(), EstadoJogo::Menu);
}

#[test]
fn qualquer_entrada_de_inicio_comeca_o_jogo() {
    assert!(comando_de_inicio(true, false, false));
    assert!(comando_de_inicio(false, true, false));
    assert!(comando_de_inicio(false, false, true));
    assert!(!comando_de_inicio(false, false, false));
    assert_eq!(proximo_estado(EstadoJogo::Menu, true), EstadoJogo::Jogando);
    assert_eq!(proximo_estado(EstadoJogo::Menu, false), EstadoJogo::Menu);
    assert_eq!(proximo_estado(EstadoJogo::Jogando, false), EstadoJogo::Jogando);
}

#[test]
fn texto_do_menu_pisca() {
    assert_eq!(alternar_visibilidade(Visibilidade::Visivel), Visibilidade::Oculta);
    assert_eq!(alternar_visibilidade(Visibilidade::Oculta), Visibilidade::Visivel);
    assert_eq!(alternar_visibilidade(Visibilidade::Herdada), Visibilidade::Visivel);
    assert_eq!(piscar(Visibilidade::Visivel, false), Visibilidade::Visivel);
    assert_eq!(piscar(Visibilidade::Visivel, true), Visibilidade::Oculta);
    let duas_vezes = piscar(piscar(Visibilidade::Oculta, true), true);
    assert_eq!(duas_vezes, Visibilidade::Oculta);
}

#[test]
fn progresso_inicial() {
    let p = Progresso::new();
    assert_eq!((p.xp, p.nivel, p.pontuacao), (0, 1, 0));
}

#[test]
fn coleta_soma_pontos_e_experiencia() {
    let mut p = Progresso::new();
    let subiu = p.coletar();
    assert!(!subiu);
    assert_eq!((p.xp, p.nivel, p.pontuacao), (20, 1, 100));
}

#[test]
fn cinco_cristais_sobem_um_nivel() {
    let mut p = Progresso::new();
    for _ in 0..4 {
        assert!(!p.coletar());
    }
    assert_eq!(p.xp, 80);
    assert!(p.coletar());
    assert_eq!((p.xp, p.nivel, p.pontuacao), (0, 2, 500));
}

#[test]
fn experiencia_total_cresce_vinte_por_cristal() {
    let mut p = Progresso { xp: 80, nivel: 3, pontuacao: 1400 };
    let antes = p.nivel * 100 + p.xp;
    p.coletar();
    assert_eq!(p.nivel * 100 + p.xp, antes + 20);
}

#[test]
fn queda_zera_pontos_e_experiencia_mas_mantem_nivel() {
    let mut p = Progresso { xp: 60, nivel: 4, pontuacao: 2300 };
    p.reiniciar_rodada();
    assert_eq!((p.xp, p.nivel, p.pontuacao), (0, 4, 0));
}

#[test]
fn limite_de_coleta() {
    assert!(Progresso::new().cabe_coleta());
    assert!(!Progresso { xp: 0, nivel: 1, pontuacao: u32::MAX - 99 }.cabe_coleta());
    assert!(Progresso { xp: 0, nivel: u32::MAX, pontuacao: 0 }.cabe_coleta());
    assert!(!Progresso { xp: 80, nivel: u32::MAX, pontuacao: 0 }.cabe_coleta());
}

#[test]
fn texto_do_hud() {
    let p = Progresso { xp: 40, nivel: 12, pontuacao: 3700 };
    assert_eq!(p.texto_hud(), "🎖️ NÍVEL: 12  |  XP: 40/100\n💰 PONTOS: 3700");
    assert_eq!(Progresso::new().texto_hud(), "🎖️ NÍVEL: 1  |  XP: 0/100\n💰 PONTOS: 0");
}

#[test]
fn numeros_em_decimal() {
    for n in [0u32, 7, 10, 99, 100, 1234567, u32::MAX] {
        let mut s = String::from("x");
        anexar_decimal(&mut s, n);
        assert_eq!(s, format!("x{}", n));
    }
}

#[test]
fn joystick_le_a_direcao_dentro_da_base() {
    assert_eq!(direcao_joystick(true, true, false), Direcao::Direita);
    assert_eq!(direcao_joystick(true, false, true), Direcao::Esquerda);
    assert_eq!(direcao_joystick(true, false, false), Direcao::Parada);
    assert_eq!(direcao_joystick(false, true, false), Direcao::Parada);
    assert_eq!(Direcao::Direita.deslocamento_manete(), 25);
    assert_eq!(Direcao::Esquerda.deslocamento_manete(), -25);
    assert_eq!(Direcao::Parada.deslocamento_manete(), 0);
}

#[test]
fn teclado_prevalece_sobre_joystick() {
    let e = EntradaControle {
        joystick: Direcao::Esquerda,
        tecla_esquerda: true,
        tecla_direita: true,
        tecla_pulo: false,
        botao_pulo: false,
    };
    assert_eq!(e.interpretar(), ComandoJogador { direcao: Direcao::Direita, tentou_pular: false });
    let e = EntradaControle { tecla_direita: false, ..e };
    assert_eq!(e.interpretar().direcao, Direcao::Esquerda);
    let e = EntradaControle { joystick: Direcao::Direita, tecla_esquerda: false, botao_pulo: true, ..e };
    assert_eq!(e.interpretar(), ComandoJogador { direcao: Direcao::Direita, tentou_pular: true });
}

#[test]
fn velocidade_horizontal() {
    assert_eq!(Direcao::Direita.velocidade_horizontal(), VELOCIDADE_CORRIDA);
    assert_eq!(Direcao::Esquerda.velocidade_horizontal(), -240);
    assert_eq!(Direcao::Parada.velocidade_horizontal(), 0);
}

#[test]
fn sem_pulo_duplo() {
    let mut c = ControleJogador::new();
    let pular = ComandoJogador { direcao: Direcao::Parada, tentou_pular: true };
    assert!(!c.aplicar_comando(pular));
    c.registrar_pouso(true);
    assert!(c.aplicar_comando(pular));
    assert!(!c.esta_no_chao);
    assert!(!c.aplicar_comando(pular));
    c.registrar_pouso(false);
    assert!(!c.aplicar_comando(pular));
    c.registrar_pouso(true);
    assert!(c.aplicar_comando(pular));
}

#[test]
fn reinicio_do_jogador() {
    let mut c = ControleJogador { direcao: Direcao::Direita, esta_no_chao: true };
    c.reiniciar();
    assert_eq!(c, ControleJogador::new());
    assert!(!c.esta_correndo());
}

#[test]
fn sprite_olha_para_onde_corre() {
    let mut c = ControleJogador::new();
    assert!(c.sprite_virado(true));
    assert!(!c.sprite_virado(false));
    c.aplicar_comando(ComandoJogador { direcao: Direcao::Esquerda, tentou_pular: false });
    assert!(c.esta_correndo());
    assert!(c.sprite_virado(false));
    c.aplicar_comando(ComandoJogador { direcao: Direcao::Direita, tentou_pular: false });
    assert!(!c.sprite_virado(true));
}

#[test]
fn animacao_de_corrida() {
    assert_eq!(quadro_seguinte(0, true, true), PRIMEIRO_QUADRO_CORRIDA);
    assert_eq!(quadro_seguinte(4, true, true), 5);
    assert_eq!(quadro_seguinte(7, true, true), 4);
    assert_eq!(quadro_seguinte(9, true, true), 4);
    assert_eq!(quadro_seguinte(6, true, false), 6);
    assert_eq!(quadro_seguinte(6, false, true), QUADRO_PARADO);
    let mut i = 5;
    for _ in 0..4 {
        i = quadro_seguinte(i, true, true);
    }
    assert_eq!(i, 5);
}
