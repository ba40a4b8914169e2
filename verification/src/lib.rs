//! Runtime support for a tagged heap in a 32-bit address space.
//!
//! A flat word arena holds variable-length objects, each starting with a tag
//! word that fixes its shape. References are "skewed" addresses, biased so
//! that they never collide with packed scalar words. On top of that sit a
//! size registry for sequential scanning, a generic walker that discovers
//! every reference reachable from a value, a closure table handing out
//! stable handles, and a diagnostic formatter that renders objects into a
//! fixed-capacity byte sink.

pub mod dump;
pub mod error;
pub mod format;
pub mod heap;
pub mod roots;
pub mod scan;
pub mod sink;
pub mod tag;
pub mod value;
pub mod walker;
