//! The player's sprite animation over the frames of its sprite sheet.

use vstd::prelude::*;

verus! {

/// The frame shown while the player stands still.
pub const QUADRO_PARADO: usize = 0;

/// The first frame of the running cycle.
pub const PRIMEIRO_QUADRO_CORRIDA: usize = 4;

/// The number of frames in the running cycle.
pub const QUADROS_CORRIDA: usize = 4;

/// Whether `i` is a frame of the running cycle (4 to 7).
pub open spec fn eh_quadro_corrida(i: int) -> bool {
    PRIMEIRO_QUADRO_CORRIDA <= i < PRIMEIRO_QUADRO_CORRIDA + QUADROS_CORRIDA
}

/// The next frame of the running cycle: the frame after `i` in the cycle,
/// wrapping from the last back to the first; a frame outside the cycle is
/// followed by its first frame.
pub open spec fn proximo_quadro_corrida(i: int) -> int {
    if !eh_quadro_corrida(i) {
        PRIMEIRO_QUADRO_CORRIDA as int
    } else {
        PRIMEIRO_QUADRO_CORRIDA + ((i - PRIMEIRO_QUADRO_CORRIDA + 1) % (QUADROS_CORRIDA as int))
    }
}

/// The frame shown after one frame of the game: a still player shows the
/// still frame; a running player moves on in the cycle each time the
/// animation timer completes a period, and keeps its frame otherwise.
pub open spec fn quadro_apos(i: int, correndo: bool, periodo_concluido: bool) -> int {
    if !correndo {
        QUADRO_PARADO as int
    } else if periodo_concluido {
        proximo_quadro_corrida(i)
    } else {
        i
    }
}

/// The frame shown after one frame of the game (see `quadro_apos`).
pub fn quadro_seguinte(indice: usize, correndo: bool, periodo_concluido: bool) -> (r: usize)
    ensures
        r == quadro_apos(indice as int, correndo, periodo_concluido),
        !correndo ==> r == 0,
        correndo && !periodo_concluido ==> r == indice,
        correndo && periodo_concluido ==> 4 <= r <= 7,
        correndo && periodo_concluido && 4 <= indice < 7 ==> r == indice + 1,
        correndo && periodo_concluido && (indice == 7 || indice < 4 || indice > 7) ==> r == 4,
{
    if correndo {
        if periodo_concluido {
            if indice < PRIMEIRO_QUADRO_CORRIDA || indice > PRIMEIRO_QUADRO_CORRIDA + QUADROS_CORRIDA
                - 1 {
                PRIMEIRO_QUADRO_CORRIDA
            } else {
                PRIMEIRO_QUADRO_CORRIDA + ((indice - PRIMEIRO_QUADRO_CORRIDA + 1) % QUADROS_CORRIDA)
            }
        } else {
            indice
        }
    } else {
        QUADRO_PARADO
    }
}

/// The running animation stays in its cycle: every next frame is a running
/// frame, and from inside the cycle the frames follow one another 4, 5, 6, 7,
/// 4, so that four steps lead back to the same frame and fewer do not.
pub proof fn lei_ciclo_corrida(i: int)
    ensures
        eh_quadro_corrida(proximo_quadro_corrida(i)),
        eh_quadro_corrida(i) ==> proximo_quadro_corrida(i) == if i == 7 {
            4
        } else {
            i + 1
        },
        eh_quadro_corrida(i) ==> proximo_quadro_corrida(
            proximo_quadro_corrida(proximo_quadro_corrida(proximo_quadro_corrida(i))),
        ) == i,
        eh_quadro_corrida(i) ==> proximo_quadro_corrida(i) != i,
        eh_quadro_corrida(i) ==> proximo_quadro_corrida(proximo_quadro_corrida(i)) != i,
        eh_quadro_corrida(i) ==> proximo_quadro_corrida(
            proximo_quadro_corrida(proximo_quadro_corrida(i)),
        ) != i,
{
}

/// A still player shows the still frame, and a running player shows a frame
/// of the running cycle as soon as its timer has completed a period.
pub proof fn lei_quadro_conforme_movimento(i: int, periodo_concluido: bool)
    ensures
        quadro_apos(i, false, periodo_concluido) == QUADRO_PARADO,
        eh_quadro_corrida(quadro_apos(i, true, true)),
        quadro_apos(i, true, false) == i,
{
    lei_ciclo_corrida(i);
}

} // verus!
