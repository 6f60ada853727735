//! Verified core of a raw link-layer socket library.
//!
//! The library models the logic of a packet capture/injection channel:
//! address value types with their textual forms, the error taxonomy,
//! interface resolution over enumerated adapters, marshaling of the
//! fixed OS byte layouts, and the decision functions that interpret
//! the results of the platform calls.  The platform calls themselves
//! (socket, ioctl, send, receive, capture) are performed by an
//! unverified shell around this crate, which hands their results back
//! as plain values.

pub mod addr;
pub mod cstr;
pub mod error;
pub mod marshal;
pub mod resolve;
pub mod socket;
pub mod text;

pub use addr::Ipv4;
pub use addr::Mac;
pub use error::CursedError;
pub use error::CursedErrorHandle;
pub use socket::Socket;
