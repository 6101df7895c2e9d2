//! Runtime core for running legacy 68k application binaries against a
//! software CPU core: an address-space router, memory handlers, a lazy
//! code-segment loader and a trap dispatcher, together with the readers for
//! the on-disk structures they consume.

pub mod peripheral;
pub mod prefix;
pub mod btree;
pub mod bus;
pub mod catalog;
pub mod cpu;
pub mod hfs;
pub mod icon;
pub mod mem;
pub mod range;
pub mod rsrc;
pub mod segment_loader;
pub mod serialization;
pub mod toolbox;
pub mod traps;
pub mod types;
pub mod volume;
