//! The decision logic of a small elevator game: an elevator that shuttles
//! between two points, buttons that call it, the cursor grab toggle and the
//! main menu. Geometry, physics and rendering live with the engine; this
//! crate holds the rules that decide what happens, with their contracts.

pub mod app_state;
pub mod cursor;
pub mod interactable;
pub mod moveable;
pub mod ui;
