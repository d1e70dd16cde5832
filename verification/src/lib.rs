//! Entry feed engine of a log viewer: placeholder expansion and attachment
//! markup, day grouping, the pagination state machine with its entry store,
//! and scroll anchoring.
//!
//! The logic is verified. The calls into chrono, html-escape and
//! pulldown-cmark stand behind small private functions whose contracts are
//! stated and trusted; each says so in its documentation. Rendering,
//! transport and timers live with the caller.

pub mod feed;
pub mod models;
pub mod render;
pub mod scroll;
pub mod text;
pub mod timeline;
