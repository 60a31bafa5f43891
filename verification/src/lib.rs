//! Decisions and text of a launcher that cross-compiles an AVR sketch and
//! tells the linker where the resulting library lies.

pub mod directive;
pub mod invocation;
pub mod launcher;
pub mod path;
