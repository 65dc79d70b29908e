//! Build-time font-asset compiler: resolves a character selection to a
//! canonical code-point set, derives the argument lists for the two external
//! conversion stages (outline rasterizer and bitmap packer), and drives the
//! whole pipeline as a verified state machine whose I/O is performed by an
//! unverified shell around the library.

pub mod charset;
pub mod format;
pub mod paths;
pub mod pipeline;
