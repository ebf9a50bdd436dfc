//! A turn-based economic micro-game: the player manages money, cheese that
//! matures over turns, recurring-dividend assets, and a croissant market.
//! The engine validates each action against the configuration and the
//! current state, applies its effects, and advances the turn clock.

pub mod config;
pub mod errors;
pub mod game;
pub mod money;

pub use config::CroissantGameConfig;
pub use errors::{ActionResult, InvalidActionError, InvalidActionErrorCause};
pub use game::{process_action, CroissantGame};
pub use money::format_money;
