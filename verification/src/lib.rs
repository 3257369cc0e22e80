//! Core engine of a small terminal text editor: a line buffer with
//! width-aware rendering, a cursor-to-viewport mapping, and the
//! keypress-driven navigation state machine.

pub mod document;
pub mod editor;
pub mod position;
pub mod row;
pub mod text;

pub use document::Document;
pub use editor::Editor;
pub use editor::KeyEvent;
pub use editor::ScreenLine;
pub use editor::StatusMessage;
pub use position::Position;
pub use position::Size;
pub use row::Row;
