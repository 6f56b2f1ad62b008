//! Decoding of a cartridge ROM image's header into the byte ranges of its
//! program and graphics regions, and the arrangement of the graphics
//! region's tiles into rows on a canvas.
pub mod buffer;
pub mod error;
pub mod header;
pub mod layout;
