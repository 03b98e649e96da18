//! Navigation and command logic of a two-view terminal field guide: a grid of
//! colour-coded guide sections with their entries, and a sanctuary of programs with
//! their records, switched between with Tab or a `:` command palette.
//!
//! - `models`: the data of the two views.
//! - `state`: selection, filtering and scrolling in each view, and the whole app.
//! - `input`: which change each key makes, and the palette's commands.
//! - `display`: colours, marks and layout decisions for the screen.
//! - `text`: string comparison, trimming, lower-casing and editing.
//! - `laws`: properties that span several operations.
pub mod text;
pub mod models;
pub mod state;
pub mod input;
pub mod display;
pub mod laws;
