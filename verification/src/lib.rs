//! Rules of a 2D endless platform runner: the game screens, the player's
//! controls, the crystal score and levels, the head-up display text and the
//! sprite animation.

pub mod animacao;
pub mod decimal;
pub mod estado;
pub mod jogador;
pub mod progresso;
