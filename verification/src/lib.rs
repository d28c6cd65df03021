//! Policy engine that decides which Unicode code points are allowed in which
//! kind of source code.

pub mod builtin;
pub mod config;
pub mod dispatch;
pub mod patterns;
pub mod rules;
pub mod scan;
pub mod syntax;
pub mod text;
pub mod unicode_blocks;
pub mod unicode_notation;
