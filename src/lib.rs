//! Decoding of the 128-byte base block that a display reports about itself:
//! vendor and product identity, physical parameters, and four descriptor slots.

pub mod cp437;
pub mod cursor;
pub mod descriptor;
pub mod edid;
pub mod error;
pub mod header;
pub mod text;
pub mod timing;

pub use descriptor::Descriptor;
pub use edid::{parse, EDID};
pub use error::ParseError;
pub use header::{parse_vendor, Display, Header};
pub use timing::DetailedTiming;
