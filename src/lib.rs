//! Debounced push-buttons with press counters kept in flash.
//!
//! `button` turns polled line levels into one-shot press and release edges,
//! `store` lays out and initializes the counters' flash region, and `poll`
//! decides, tick by tick, what the two buttons' edges call for. `snake` is a
//! small grid game that consumes the same edges as turns.
pub mod button;
pub mod poll;
pub mod snake;
pub mod store;

pub use button::{Button, ButtonState};
pub use poll::{poll, Action};
pub use snake::{Direction, DirectionChange, Game, Point};
pub use store::{
    check_memory, FlashWrite, StoreError, LEFT_COUNTER, MAGIC, REGION_SIZE, RIGHT_COUNTER,
};
