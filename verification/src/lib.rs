//! Core of a terminal search front-end: a Unicode-aware single-line input
//! buffer with a character-granular cursor, a two-mode interaction state
//! machine (navigation vs. text entry), and the key-event dispatch that
//! drives them. Terminal I/O and rendering live outside this crate; the
//! library exposes the state, its transitions, and the pure layout
//! arithmetic the renderer needs (centering, cursor placement).

pub mod editor;
pub mod event;
pub mod laws;
pub mod model;
pub mod render;
