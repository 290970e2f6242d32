//! A small terminal text editor core: a document of rows, a cursor in a
//! bounded viewport, a key-event dispatcher, and a renderer that turns
//! editor state into an explicit sequence of terminal operations.

pub mod document;
pub mod editor;
pub mod row;
pub mod terminal;

pub use document::Document;
pub use editor::Cursor;
pub use editor::Editor;
pub use row::Row;
pub use terminal::Size;
pub use terminal::Terminal;
