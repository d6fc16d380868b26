//! A small message board: form submissions are cleaned of markup, stored,
//! and listed back newest first, one page at a time, as an HTML document.

pub mod stamp;
pub mod clean;
pub mod message;
pub mod page;
pub mod render;
