//! The player's progress: score, experience and level, and the head-up
//! display that shows them.

use vstd::prelude::*;
use vstd::string::StringExecFns;
use crate::decimal::{anexar_decimal, decimal, lei_decimal, valor_decimal};

verus! {

/// Points scored for each crystal collected.
pub const PONTOS_POR_CRISTAL: u32 = 100;

/// Experience gained for each crystal collected.
pub const XP_POR_CRISTAL: u32 = 20;

/// Experience that makes up one level.
pub const XP_POR_NIVEL: u32 = 100;

/// Score, experience toward the next level, and level.
#[derive(Clone, Copy, Debug, PartialEq, Eq, Structural)]
pub struct Progresso {
    pub xp: u32,
    pub nivel: u32,
    pub pontuacao: u32,
}

/// What every progress reached in play satisfies: the experience is below
/// one level and a whole number of crystals, and the level is at least one.
pub open spec fn bem_formado(p: Progresso) -> bool {
    &&& p.xp < XP_POR_NIVEL
    &&& p.xp % XP_POR_CRISTAL == 0
    &&& p.nivel >= 1
}

/// Whether collecting a crystal keeps every counter within `u32`.
pub open spec fn pode_coletar(p: Progresso) -> bool {
    &&& p.pontuacao + PONTOS_POR_CRISTAL <= u32::MAX
    &&& p.xp + XP_POR_CRISTAL <= u32::MAX
    &&& p.xp + XP_POR_CRISTAL >= XP_POR_NIVEL ==> p.nivel + 1 <= u32::MAX
}

/// Whether collecting a crystal completes a level.
pub open spec fn sobe_de_nivel(p: Progresso) -> bool {
    p.xp + XP_POR_CRISTAL >= XP_POR_NIVEL
}

/// The progress after collecting one crystal: the score and the experience
/// grow, and an experience that reaches a full level turns into one more
/// level.
pub open spec fn apos_coleta(p: Progresso) -> Progresso {
    if sobe_de_nivel(p) {
        Progresso {
            xp: (p.xp + XP_POR_CRISTAL - XP_POR_NIVEL) as u32,
            nivel: (p.nivel + 1) as u32,
            pontuacao: (p.pontuacao + PONTOS_POR_CRISTAL) as u32,
        }
    } else {
        Progresso {
            xp: (p.xp + XP_POR_CRISTAL) as u32,
            nivel: p.nivel,
            pontuacao: (p.pontuacao + PONTOS_POR_CRISTAL) as u32,
        }
    }
}

/// All the experience earned, counting each level as a full level's worth.
pub open spec fn experiencia_total(p: Progresso) -> int {
    p.nivel * XP_POR_NIVEL + p.xp
}

/// The head-up display text of a progress.
pub open spec fn texto_hud_spec(p: Progresso) -> Seq<char> {
    "🎖️ NÍVEL: "@ + decimal(p.nivel as nat) + "  |  XP: "@ + decimal(p.xp as nat)
        + "/100\n💰 PONTOS: "@ + decimal(p.pontuacao as nat)
}

impl Progresso {
    /// The progress at the start of the game: level one, nothing scored.
    pub fn new() -> (r: Progresso)
        ensures
            r.xp == 0,
            r.nivel == 1,
            r.pontuacao == 0,
            bem_formado(r),
    {
        Progresso { xp: 0, nivel: 1, pontuacao: 0 }
    }

    /// Whether a crystal can be collected without a counter overflowing.
    pub fn cabe_coleta(&self) -> (r: bool)
        ensures
            r == pode_coletar(*self),
            r == (self.pontuacao + 100 <= u32::MAX && self.xp + 20 <= u32::MAX && (self.xp + 20
                >= 100 ==> self.nivel + 1 <= u32::MAX)),
    {
        self.pontuacao <= u32::MAX - PONTOS_POR_CRISTAL
            && self.xp <= u32::MAX - XP_POR_CRISTAL
            && (self.xp + XP_POR_CRISTAL < XP_POR_NIVEL || self.nivel < u32::MAX)
    }

    /// Collects a crystal: adds its points and experience, and turns a full
    /// level of experience into one more level. Returns whether the level
    /// went up.
    pub fn coletar(&mut self) -> (subiu: bool)
        requires
            pode_coletar(*old(self)),
        ensures
            *final(self) == apos_coleta(*old(self)),
            subiu == sobe_de_nivel(*old(self)),
            subiu == (old(self).xp + 20 >= 100),
            final(self).pontuacao == old(self).pontuacao + PONTOS_POR_CRISTAL,
            subiu ==> final(self).xp == old(self).xp + XP_POR_CRISTAL - XP_POR_NIVEL
                && final(self).nivel == old(self).nivel + 1,
            !subiu ==> final(self).xp == old(self).xp + XP_POR_CRISTAL
                && final(self).nivel == old(self).nivel,
    {
        self.pontuacao = self.pontuacao + PONTOS_POR_CRISTAL;
        self.xp = self.xp + XP_POR_CRISTAL;
        if self.xp >= XP_POR_NIVEL {
            self.xp = self.xp - XP_POR_NIVEL;
            self.nivel = self.nivel + 1;
            true
        } else {
            false
        }
    }

    /// Starts a new round after a fall: the score and the experience toward
    /// the next level are lost, the level is kept.
    pub fn reiniciar_rodada(&mut self)
        ensures
            final(self).pontuacao == 0,
            final(self).xp == 0,
            final(self).nivel == old(self).nivel,
            bem_formado(*old(self)) ==> bem_formado(*final(self)),
    {
        self.pontuacao = 0;
        self.xp = 0;
    }

    /// The head-up display text: the level, the experience out of 100 and the
    /// score, each in decimal.
    pub fn texto_hud(&self) -> (r: String)
        ensures
            r@ == texto_hud_spec(*self),
            r@ == "🎖️ NÍVEL: "@ + decimal(self.nivel as nat) + "  |  XP: "@ + decimal(
                self.xp as nat,
            ) + "/100\n💰 PONTOS: "@ + decimal(self.pontuacao as nat),
    {
        let mut s = String::from_str("🎖️ NÍVEL: ");
        anexar_decimal(&mut s, self.nivel);
        s.append("  |  XP: ");
        anexar_decimal(&mut s, self.xp);
        s.append("/100\n💰 PONTOS: ");
        anexar_decimal(&mut s, self.pontuacao);
        s
    }
}

/// Collecting keeps a progress reached in play well formed: the experience
/// stays below one level and a multiple of a crystal's worth.
pub proof fn lei_coleta_preserva_invariante(p: Progresso)
    requires
        bem_formado(p),
        pode_coletar(p),
    ensures
        bem_formado(apos_coleta(p)),
{
}

/// Each crystal adds exactly one crystal's worth to the total experience and
/// to the score, and the level never goes down.
pub proof fn lei_experiencia_total(p: Progresso)
    requires
        pode_coletar(p),
    ensures
        experiencia_total(apos_coleta(p)) == experiencia_total(p) + XP_POR_CRISTAL,
        apos_coleta(p).pontuacao == p.pontuacao + PONTOS_POR_CRISTAL,
        apos_coleta(p).nivel >= p.nivel,
{
}

/// In play, the level goes up exactly on the crystal that brings the
/// experience from 80 to a full level.
pub proof fn lei_subida_de_nivel(p: Progresso)
    requires
        bem_formado(p),
    ensures
        sobe_de_nivel(p) <==> p.xp == XP_POR_NIVEL - XP_POR_CRISTAL,
{
}

/// From the start of a level, five crystals give exactly one level: the
/// first four do not raise it, the fifth does, and the experience is back at
/// zero with 500 more points.
pub proof fn lei_cinco_cristais_um_nivel(p: Progresso)
    requires
        bem_formado(p),
        p.xp == 0,
        p.pontuacao + 5 * PONTOS_POR_CRISTAL <= u32::MAX,
        p.nivel + 1 <= u32::MAX,
    ensures
        !sobe_de_nivel(p),
        !sobe_de_nivel(apos_coleta(p)),
        !sobe_de_nivel(apos_coleta(apos_coleta(p))),
        !sobe_de_nivel(apos_coleta(apos_coleta(apos_coleta(p)))),
        sobe_de_nivel(apos_coleta(apos_coleta(apos_coleta(apos_coleta(p))))),
        apos_coleta(apos_coleta(apos_coleta(apos_coleta(apos_coleta(p))))) == (Progresso {
            xp: 0,
            nivel: (p.nivel + 1) as u32,
            pontuacao: (p.pontuacao + 5 * PONTOS_POR_CRISTAL) as u32,
        }),
{
}

/// Collecting is allowed exactly when no counter can overflow; in particular
/// a progress reached in play with room in its score and level can always
/// collect, also the crystal that completes a level.
pub proof fn lei_pode_coletar(p: Progresso)
    ensures
        pode_coletar(p) <==> (p.pontuacao + 100 <= u32::MAX && p.xp + 20 <= u32::MAX && (p.xp + 20
            >= 100 ==> p.nivel + 1 <= u32::MAX)),
        bem_formado(p) && p.pontuacao + 100 <= u32::MAX && p.nivel < u32::MAX ==> pode_coletar(p),
        sobe_de_nivel(p) <==> p.xp + 20 >= 100,
{
}

/// The HUD text is made of the progress's own numbers: after the level label
/// comes the level in decimal, after the experience label the experience, and
/// after the score label the score; each piece reads back as that number.
pub proof fn lei_texto_hud(p: Progresso)
    ensures
        texto_hud_spec(p) == "🎖️ NÍVEL: "@ + decimal(p.nivel as nat) + "  |  XP: "@ + decimal(
            p.xp as nat,
        ) + "/100\n💰 PONTOS: "@ + decimal(p.pontuacao as nat),
        ({
            let a: int = "🎖️ NÍVEL: "@.len() as int;
            let b: int = a + decimal(p.nivel as nat).len() + "  |  XP: "@.len();
            let c: int = b + decimal(p.xp as nat).len() + "/100\n💰 PONTOS: "@.len();
            &&& valor_decimal(texto_hud_spec(p).subrange(a, a + decimal(p.nivel as nat).len()))
                == p.nivel
            &&& valor_decimal(texto_hud_spec(p).subrange(b, b + decimal(p.xp as nat).len()))
                == p.xp
            &&& valor_decimal(texto_hud_spec(p).subrange(c, texto_hud_spec(p).len() as int))
                == p.pontuacao
        }),
{
    lei_decimal(p.nivel as nat);
    lei_decimal(p.xp as nat);
    lei_decimal(p.pontuacao as nat);
    let t = texto_hud_spec(p);
    let a: int = "🎖️ NÍVEL: "@.len() as int;
    let b: int = a + decimal(p.nivel as nat).len() + "  |  XP: "@.len();
    let c: int = b + decimal(p.xp as nat).len() + "/100\n💰 PONTOS: "@.len();
    assert(t.subrange(a, a + decimal(p.nivel as nat).len()) =~= decimal(p.nivel as nat));
    assert(t.subrange(b, b + decimal(p.xp as nat).len()) =~= decimal(p.xp as nat));
    assert(t.subrange(c, t.len() as int) =~= decimal(p.pontuacao as nat));
}

} // verus!
