//! State and decisions of a small text editor: the document buffer, the
//! directory browser, the appearance settings and the syntax-highlight
//! decoration of the buffer. All file-system work and all drawing is left to
//! the caller, which hands in what it read and carries out what comes back.

pub mod appearance;
pub mod directory;
pub mod document;
pub mod editor;
pub mod grammar;
pub mod highlight;
pub mod text;
