//! A small library that describes a three-dimensional demo scene — a
//! fly-controlled camera, a tessellated sphere, a point light and a
//! subdivided ground plane — as plain data, and decides how window input
//! toggles the cursor. A thin front end hands the description to a game
//! engine and feeds events back in.

pub mod cursor;
pub mod scene;
