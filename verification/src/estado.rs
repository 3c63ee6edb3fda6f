//! Game screens and the blinking of the menu text.

use vstd::prelude::*;

verus! {

/// The screens of the game: it starts in the menu.
#[derive(Clone, Copy, Debug, PartialEq, Eq, Hash, Structural)]
pub enum EstadoJogo {
    Menu,
    Jogando,
}

impl Default for EstadoJogo {
    fn default() -> (r: EstadoJogo)
        ensures
            r == EstadoJogo::Menu,
    {
        EstadoJogo::Menu
    }
}

/// Whether the inputs of this frame ask to start the game: the space key,
/// the left mouse button or a touch on the screen, each just pressed.
pub fn comando_de_inicio(espaco: bool, clique_esquerdo: bool, toque: bool) -> (r: bool)
    ensures
        r == (espaco || clique_esquerdo || toque),
{
    let mut comando = false;
    if espaco {
        comando = true;
    }
    if clique_esquerdo {
        comando = true;
    }
    if toque {
        comando = true;
    }
    comando
}

/// The screen for the next frame: a start command switches to the game,
/// otherwise the screen stays as it is.
pub fn proximo_estado(estado: EstadoJogo, comando: bool) -> (r: EstadoJogo)
    ensures
        comando ==> r == EstadoJogo::Jogando,
        !comando ==> r == estado,
{
    if comando {
        EstadoJogo::Jogando
    } else {
        estado
    }
}

/// Visibility of a piece of the interface.
#[derive(Clone, Copy, Debug, PartialEq, Eq, Hash, Structural)]
pub enum Visibilidade {
    /// Follows the parent's visibility.
    Herdada,
    Oculta,
    Visivel,
}

/// Flips a blinking text: a visible text is hidden, any other is shown.
pub open spec fn visibilidade_alternada(v: Visibilidade) -> Visibilidade {
    match v {
        Visibilidade::Visivel => Visibilidade::Oculta,
        _ => Visibilidade::Visivel,
    }
}

/// Flips a blinking text: a visible text is hidden, any other is shown.
pub fn alternar_visibilidade(v: Visibilidade) -> (r: Visibilidade)
    ensures
        r == visibilidade_alternada(v),
        v == Visibilidade::Visivel ==> r == Visibilidade::Oculta,
        v != Visibilidade::Visivel ==> r == Visibilidade::Visivel,
{
    match v {
        Visibilidade::Visivel => Visibilidade::Oculta,
        _ => Visibilidade::Visivel,
    }
}

/// The visibility of the blinking menu text after a frame: it flips when the
/// blink timer has just completed a period, and is unchanged otherwise.
pub fn piscar(v: Visibilidade, periodo_concluido: bool) -> (r: Visibilidade)
    ensures
        periodo_concluido ==> r == visibilidade_alternada(v),
        !periodo_concluido ==> r == v,
        periodo_concluido && v == Visibilidade::Visivel ==> r == Visibilidade::Oculta,
        periodo_concluido && v != Visibilidade::Visivel ==> r == Visibilidade::Visivel,
{
    if periodo_concluido {
        alternar_visibilidade(v)
    } else {
        v
    }
}

/// Blinking alternates: flipping twice gives back a shown or hidden text, and
/// a flipped text is always either shown or hidden.
pub proof fn lei_piscar_alterna(v: Visibilidade)
    ensures
        v != Visibilidade::Herdada ==> visibilidade_alternada(visibilidade_alternada(v)) == v,
        visibilidade_alternada(v) != Visibilidade::Herdada,
        visibilidade_alternada(v) != v,
        v == Visibilidade::Visivel ==> visibilidade_alternada(v) == Visibilidade::Oculta,
        v == Visibilidade::Oculta ==> visibilidade_alternada(v) == Visibilidade::Visivel,
        v == Visibilidade::Herdada ==> visibilidade_alternada(v) == Visibilidade::Visivel,
{
}

} // verus!
