use crate::text::same_text;
use vstd::prelude::*;

verus! {

pub const PROTOCOL: &'static str = "uvd://";
pub const PORT: u16 = 7789;
pub const MAX_PACKET_SIZE: usize = 1024;
pub const MAX_RETRIES: u8 = 3;

/// Whether `port` is the hub's port.
pub fn validate_port(port: u16) -> (r: bool)
    ensures
        r == (port == PORT),
{
    port == PORT
}

/// Whether `protocol` is the hub's protocol prefix.
pub fn validate_protocol(protocol: &str) -> (r: bool)
    ensures
        r == (protocol@ == PROTOCOL@),
{
    same_text(protocol, PROTOCOL)
}

/// Whether a packet of `size` bytes is within the limit.
pub fn validate_packet_size(size: usize) -> (r: bool)
    ensures
        r == (size <= MAX_PACKET_SIZE),
{
    size <= MAX_PACKET_SIZE
}

/// Whether `retries` is within the limit.
pub fn validate_retries(retries: u8) -> (r: bool)
    ensures
        r == (retries <= MAX_RETRIES),
{
    retries <= MAX_RETRIES
}

} // verus!
