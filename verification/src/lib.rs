//! Typed access to kernel-resident key/value maps.
//!
//! A map is met twice: as an [`OpenMap`] while it is only declared and can still be
//! configured, and as a [`LiveMap`] once the kernel has created it and its entries
//! can be read, written and removed. Keys and values are byte records of the
//! lengths fixed at creation; what they hold is the caller's affair.
//!
//! The library makes no system call of its own. Each operation takes the call as
//! an argument, decides whether it is made, fixes what it is handed and says what
//! its answer means.

pub mod decimal;
pub mod error;
pub mod flags;
pub mod live_map;
pub mod map_type;
pub mod open_map;
pub mod path;
pub mod reply;
pub mod table;

pub use crate::error::Error;
pub use crate::flags::MapFlags;
pub use crate::live_map::LiveMap;
pub use crate::map_type::MapType;
pub use crate::open_map::OpenMap;
