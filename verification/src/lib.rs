//! Typed access to the Linux kernel's key-management facility.
//!
//! The crate shapes requests for the kernel's key service and interprets its
//! replies. It performs no system call itself: every operation is split into a
//! function that builds the request and one that reads the reply, and the
//! caller performs the request in between.
//!
//! ```ignore
//! let keyring = Keyring::attach_reply(perform(&Keyring::attach_or_create_request(
//!     SpecialKeyring::Session,
//! )))?;
//! let request = keyring.add_key_request::<User>(None, "wibble", b"stuff")?;
//! let key = Keyring::key_reply::<User>(perform(&request))?;
//! let payload = Key::<User>::read_reply(fetch(&key.read_request()))?;
//! ```
//!
//! A request is refused before it is built where the rules of the key type
//! show that the kernel would refuse it. Such an error names the caller as
//! its source; an error that the kernel reported names the kernel.

pub mod description;
pub mod environment;
pub mod error;
pub mod hex;
pub mod key;
pub mod keyring;
pub mod keytype;
pub mod keytypes;
pub mod laws;
pub mod request;
pub mod rules;
pub mod serial;
pub mod text;

pub use crate::description::KeyDescription;
pub use crate::environment::{Environment, KernelVersion, KeyQuota};
pub use crate::error::{Error, ErrorKind, ErrorSource};
pub use crate::hex::ByteBuf;
pub use crate::key::Key;
pub use crate::keyring::Keyring;
pub use crate::keytype::{KeyKind, KeyType, ReadableKeyType, UpdatableKeyType, UpdateShape};
pub use crate::request::{BufferStep, Request};
pub use crate::serial::{KeySerial, SpecialKeyring};
