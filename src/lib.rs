//! A typed, copy-on-write environment of named style values, and the
//! default theme that fills one.

pub mod value;
pub mod env;
pub mod theme;
