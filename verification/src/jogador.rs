//! The player's controls: which way it runs, when it may jump, and which way
//! its sprite faces.

use vstd::prelude::*;

verus! {

/// Horizontal speed of the running player, in world units per second.
pub const VELOCIDADE_CORRIDA: i32 = 240;

/// Upward speed given by a jump, in world units per second.
pub const VELOCIDADE_PULO: i32 = 550;

/// How far the joystick knob moves from the centre of its base while it is
/// pushed to a side.
pub const DESLOCAMENTO_MANETE: i32 = 25;

/// Which way the player runs.
#[derive(Clone, Copy, Debug, PartialEq, Eq, Hash, Structural)]
pub enum Direcao {
    Esquerda,
    Parada,
    Direita,
}

/// The horizontal speed of a player running in direction `d`.
pub open spec fn velocidade_de(d: Direcao) -> int {
    match d {
        Direcao::Esquerda => -(VELOCIDADE_CORRIDA as int),
        Direcao::Parada => 0,
        Direcao::Direita => VELOCIDADE_CORRIDA as int,
    }
}

/// Where the joystick knob sits for a direction read from the joystick.
pub open spec fn deslocamento_de(d: Direcao) -> int {
    match d {
        Direcao::Esquerda => -(DESLOCAMENTO_MANETE as int),
        Direcao::Parada => 0,
        Direcao::Direita => DESLOCAMENTO_MANETE as int,
    }
}

impl Direcao {
    /// The horizontal speed of a player running this way.
    pub fn velocidade_horizontal(&self) -> (r: i32)
        ensures
            r == velocidade_de(*self),
            *self == Direcao::Esquerda ==> r == -240,
            *self == Direcao::Parada ==> r == 0,
            *self == Direcao::Direita ==> r == 240,
    {
        match self {
            Direcao::Esquerda => -VELOCIDADE_CORRIDA,
            Direcao::Parada => 0,
            Direcao::Direita => VELOCIDADE_CORRIDA,
        }
    }

    /// The horizontal offset of the joystick knob for this direction.
    pub fn deslocamento_manete(&self) -> (r: i32)
        ensures
            r == deslocamento_de(*self),
            *self == Direcao::Esquerda ==> r == -25,
            *self == Direcao::Parada ==> r == 0,
            *self == Direcao::Direita ==> r == 25,
    {
        match self {
            Direcao::Esquerda => -DESLOCAMENTO_MANETE,
            Direcao::Parada => 0,
            Direcao::Direita => DESLOCAMENTO_MANETE,
        }
    }
}

/// The direction read from the on-screen joystick: only a press inside the
/// joystick's base counts, and then it points right when the press is past
/// the right dead zone, left when it is past the left one, and nowhere
/// otherwise.
pub open spec fn direcao_joystick_spec(
    dentro_da_base: bool,
    alem_da_direita: bool,
    alem_da_esquerda: bool,
) -> Direcao {
    if dentro_da_base && alem_da_direita {
        Direcao::Direita
    } else if dentro_da_base && alem_da_esquerda {
        Direcao::Esquerda
    } else {
        Direcao::Parada
    }
}

/// The direction read from the on-screen joystick (see
/// `direcao_joystick_spec`).
pub fn direcao_joystick(dentro_da_base: bool, alem_da_direita: bool, alem_da_esquerda: bool) -> (r:
    Direcao)
    ensures
        r == direcao_joystick_spec(dentro_da_base, alem_da_direita, alem_da_esquerda),
        !dentro_da_base ==> r == Direcao::Parada,
        dentro_da_base && alem_da_direita ==> r == Direcao::Direita,
        dentro_da_base && !alem_da_direita && alem_da_esquerda ==> r == Direcao::Esquerda,
        dentro_da_base && !alem_da_direita && !alem_da_esquerda ==> r == Direcao::Parada,
{
    let mut direcao = Direcao::Parada;
    if dentro_da_base {
        if alem_da_direita {
            direcao = Direcao::Direita;
        } else if alem_da_esquerda {
            direcao = Direcao::Esquerda;
        }
    }
    direcao
}

/// The controls read in one frame.
#[derive(Clone, Copy, Debug, PartialEq, Eq, Structural)]
pub struct EntradaControle {
    /// The direction the on-screen joystick points.
    pub joystick: Direcao,
    /// A left key (A or the left arrow) is held.
    pub tecla_esquerda: bool,
    /// A right key (D or the right arrow) is held.
    pub tecla_direita: bool,
    /// A jump key (space, W or the up arrow) was just pressed.
    pub tecla_pulo: bool,
    /// The on-screen jump button was just pressed.
    pub botao_pulo: bool,
}

/// What the player is asked to do in one frame.
#[derive(Clone, Copy, Debug, PartialEq, Eq, Structural)]
pub struct ComandoJogador {
    pub direcao: Direcao,
    pub tentou_pular: bool,
}

/// The command given by the controls: a held right key wins over everything,
/// then a held left key, then the joystick; a jump is asked for by a jump key
/// or by the jump button.
pub open spec fn comando_de(e: EntradaControle) -> ComandoJogador {
    ComandoJogador {
        direcao: if e.tecla_direita {
            Direcao::Direita
        } else if e.tecla_esquerda {
            Direcao::Esquerda
        } else {
            e.joystick
        },
        tentou_pular: e.tecla_pulo || e.botao_pulo,
    }
}

impl EntradaControle {
    /// The command given by these controls (see `comando_de`).
    pub fn interpretar(&self) -> (r: ComandoJogador)
        ensures
            r == comando_de(*self),
            r.tentou_pular == (self.tecla_pulo || self.botao_pulo),
            self.tecla_direita ==> r.direcao == Direcao::Direita,
            !self.tecla_direita && self.tecla_esquerda ==> r.direcao == Direcao::Esquerda,
            !self.tecla_direita && !self.tecla_esquerda ==> r.direcao == self.joystick,
    {
        let mut direcao = self.joystick;
        if self.tecla_esquerda {
            direcao = Direcao::Esquerda;
        }
        if self.tecla_direita {
            direcao = Direcao::Direita;
        }
        let tentou_pular = self.botao_pulo || self.tecla_pulo;
        ComandoJogador { direcao, tentou_pular }
    }
}

/// The part of the player's state that the controls decide.
#[derive(Clone, Copy, Debug, PartialEq, Eq, Structural)]
pub struct ControleJogador {
    /// Which way the player runs.
    pub direcao: Direcao,
    /// Whether the player stands on a platform.
    pub esta_no_chao: bool,
}

/// Whether a command makes the player jump: only a player standing on a
/// platform can jump.
pub open spec fn pula(c: ControleJogador, cmd: ComandoJogador) -> bool {
    cmd.tentou_pular && c.esta_no_chao
}

/// The controls' state after a command: the player runs the commanded way,
/// and leaves the ground when it jumps.
pub open spec fn apos_comando(c: ControleJogador, cmd: ComandoJogador) -> ControleJogador {
    ControleJogador {
        direcao: cmd.direcao,
        esta_no_chao: c.esta_no_chao && !pula(c, cmd),
    }
}

/// Whether the sprite is drawn mirrored after a frame: it faces right while
/// the player runs right, left while it runs left, and keeps its last facing
/// while the player stands still.
pub open spec fn virado_apos(d: Direcao, virado: bool) -> bool {
    match d {
        Direcao::Direita => false,
        Direcao::Esquerda => true,
        Direcao::Parada => virado,
    }
}

impl ControleJogador {
    /// The player as it enters the game, or falls back to the start: still,
    /// and in the air.
    pub fn new() -> (r: ControleJogador)
        ensures
            r.direcao == Direcao::Parada,
            !r.esta_no_chao,
    {
        ControleJogador { direcao: Direcao::Parada, esta_no_chao: false }
    }

    /// Applies a command. Returns whether the player jumps, in which case it
    /// gets the upward speed `VELOCIDADE_PULO`.
    pub fn aplicar_comando(&mut self, cmd: ComandoJogador) -> (pulou: bool)
        ensures
            pulou == pula(*old(self), cmd),
            *final(self) == apos_comando(*old(self), cmd),
            pulou == (cmd.tentou_pular && old(self).esta_no_chao),
            final(self).direcao == cmd.direcao,
            final(self).esta_no_chao == (old(self).esta_no_chao && !cmd.tentou_pular),
            !cmd.tentou_pular ==> !pulou && final(self).esta_no_chao == old(self).esta_no_chao,
    {
        self.direcao = cmd.direcao;
        if cmd.tentou_pular && self.esta_no_chao {
            self.esta_no_chao = false;
            true
        } else {
            false
        }
    }

    /// Records the outcome of the fall of this frame: the player stands on
    /// the ground exactly when it has landed on a platform.
    pub fn registrar_pouso(&mut self, pousou: bool)
        ensures
            final(self).esta_no_chao == pousou,
            final(self).direcao == old(self).direcao,
    {
        self.esta_no_chao = pousou;
    }

    /// Puts the player back at the start of a round: still, and in the air.
    pub fn reiniciar(&mut self)
        ensures
            final(self).direcao == Direcao::Parada,
            !final(self).esta_no_chao,
    {
        self.direcao = Direcao::Parada;
        self.esta_no_chao = false;
    }

    /// Whether the player is running.
    pub fn esta_correndo(&self) -> (r: bool)
        ensures
            r == (self.direcao != Direcao::Parada),
            r == (velocidade_de(self.direcao) != 0),
    {
        match self.direcao {
            Direcao::Parada => false,
            _ => true,
        }
    }

    /// Whether the sprite is drawn mirrored after this frame, given whether it
    /// was before (see `virado_apos`).
    pub fn sprite_virado(&self, virado: bool) -> (r: bool)
        ensures
            r == virado_apos(self.direcao, virado),
            self.direcao == Direcao::Direita ==> !r,
            self.direcao == Direcao::Esquerda ==> r,
            self.direcao == Direcao::Parada ==> r == virado,
    {
        match self.direcao {
            Direcao::Direita => false,
            Direcao::Esquerda => true,
            Direcao::Parada => virado,
        }
    }
}

/// No double jump: once the player has jumped, no later command makes it
/// jump again until it lands.
pub proof fn lei_sem_pulo_duplo(c: ControleJogador, cmd1: ComandoJogador, cmd2: ComandoJogador)
    requires
        pula(c, cmd1),
    ensures
        !apos_comando(c, cmd1).esta_no_chao,
        !pula(apos_comando(c, cmd1), cmd2),
        !pula(apos_comando(apos_comando(c, cmd1), cmd2), cmd2),
{
}

/// A player on the ground always jumps when asked to, and a landing gives the
/// jump back.
pub proof fn lei_pouso_permite_pulo(c: ControleJogador, cmd: ComandoJogador)
    requires
        cmd.tentou_pular,
    ensures
        c.esta_no_chao ==> pula(c, cmd),
        pula(ControleJogador { esta_no_chao: true, ..c }, cmd),
{
}

/// The keyboard wins over the joystick, and the right key over the left one;
/// the joystick steers only while no side key is held.
pub proof fn lei_prioridade_teclado(e: EntradaControle)
    ensures
        e.tecla_direita ==> comando_de(e).direcao == Direcao::Direita,
        !e.tecla_direita && e.tecla_esquerda ==> comando_de(e).direcao == Direcao::Esquerda,
        !e.tecla_direita && !e.tecla_esquerda ==> comando_de(e).direcao == e.joystick,
{
}

/// The sprite faces the way the player runs, whatever it faced before.
pub proof fn lei_sprite_segue_direcao(d: Direcao, virado: bool)
    ensures
        velocidade_de(d) > 0 ==> !virado_apos(d, virado),
        velocidade_de(d) < 0 ==> virado_apos(d, virado),
        velocidade_de(d) == 0 ==> virado_apos(d, virado) == virado,
{
}

/// A jump is asked for exactly when a jump key or the jump button was just
/// pressed; a jump key alone is enough.
pub proof fn lei_pedido_de_pulo(e: EntradaControle)
    ensures
        comando_de(e).tentou_pular <==> (e.tecla_pulo || e.botao_pulo),
        e.tecla_pulo ==> comando_de(e).tentou_pular,
        e.botao_pulo ==> comando_de(e).tentou_pular,
        !e.tecla_pulo && !e.botao_pulo ==> !comando_de(e).tentou_pular,
{
}

/// The player jumps only when asked to and standing on the ground: a command
/// that does not ask for a jump never makes it jump and leaves its ground
/// state as it was, and the command always sets the running direction.
pub proof fn lei_pulo_so_quando_pedido(c: ControleJogador, cmd: ComandoJogador)
    ensures
        pula(c, cmd) <==> (cmd.tentou_pular && c.esta_no_chao),
        !cmd.tentou_pular ==> !pula(c, cmd),
        !cmd.tentou_pular ==> apos_comando(c, cmd).esta_no_chao == c.esta_no_chao,
        !c.esta_no_chao ==> !pula(c, cmd),
        apos_comando(c, cmd).esta_no_chao == (c.esta_no_chao && !cmd.tentou_pular),
        apos_comando(c, cmd).direcao == cmd.direcao,
{
}

/// The joystick steers only from inside its base: a press outside it is
/// ignored whatever side it is on, and inside it the right dead zone wins over
/// the left one.
pub proof fn lei_joystick_so_na_base(dentro: bool, direita: bool, esquerda: bool)
    ensures
        !dentro ==> direcao_joystick_spec(dentro, direita, esquerda) == Direcao::Parada,
        dentro && direita ==> direcao_joystick_spec(dentro, direita, esquerda) == Direcao::Direita,
        dentro && !direita && esquerda ==> direcao_joystick_spec(dentro, direita, esquerda)
            == Direcao::Esquerda,
        !direita && !esquerda ==> direcao_joystick_spec(dentro, direita, esquerda)
            == Direcao::Parada,
{
}

/// Running speeds are the fixed running speed to the right, its opposite to
/// the left, and zero when still; the knob moves the same way.
pub proof fn lei_velocidades(d: Direcao)
    ensures
        d == Direcao::Direita ==> velocidade_de(d) == 240 && deslocamento_de(d) == 25,
        d == Direcao::Esquerda ==> velocidade_de(d) == -240 && deslocamento_de(d) == -25,
        d == Direcao::Parada ==> velocidade_de(d) == 0 && deslocamento_de(d) == 0,
{
}

} // verus!
