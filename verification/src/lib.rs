//! Classification primitives for numeric protocol identifiers found in
//! network packet headers (link-layer EtherType codes, IP protocol numbers,
//! ICMP message types), together with two presentation helpers: a
//! colon-separated hexadecimal renderer that writes into a caller-supplied
//! buffer, and a dotted-decimal formatter for 4-byte IPv4 addresses.

pub mod classify;
pub mod hex;
pub mod ipv4;

pub use classify::EtherType;
pub use classify::IcmpType;
pub use classify::IpProtocol;
pub use hex::to_hex_string;
pub use ipv4::IpFormatter;
