//! Shared helpers: string order, decimal text and file-system paths.

pub mod order;
pub mod path;
pub mod text;
