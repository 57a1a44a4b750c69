//! The key types, one module each.

pub mod asymmetric;
pub mod big_key;
pub mod blacklist;
pub mod dns_resolver;
pub mod encrypted;
pub mod keyring;
pub mod logon;
pub mod rxrpc;
pub mod rxrpc_s;
pub mod trusted;
pub mod user;

pub use self::asymmetric::Asymmetric;
pub use self::asymmetric::AsymmetricRestriction;
pub use self::big_key::BigKey;
pub use self::blacklist::Blacklist;
pub use self::dns_resolver::DnsResolver;
pub use self::encrypted::Encrypted;
pub use self::keyring::Keyring;
pub use self::logon::Logon;
pub use self::rxrpc::RxRpc;
pub use self::rxrpc_s::RxRpcServer;
pub use self::trusted::Trusted;
pub use self::user::User;
