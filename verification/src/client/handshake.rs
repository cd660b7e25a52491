use crate::client::error::ConnectionError;
use crate::wire::{be32, from_be32, read_be32, write_be32};
use vstd::prelude::*;

verus! {

/// The four bytes that open every handshake.
pub const PREAMBLE: [u8; 4] = [0x60, 0x60, 0xB0, 0x17];

/// What the client sends first: the preamble, then the four versions it
/// prefers, each in four bytes, most significant first. A zero pads the list.
pub open spec fn handshake_bytes(versions: Seq<u32>) -> Seq<u8> {
    seq![0x60u8, 0x60u8, 0xB0u8, 0x17u8] + be32(versions[0] as int) + be32(versions[1] as int)
        + be32(versions[2] as int) + be32(versions[3] as int)
}

/// The version that the server chose, if its reply names one of the versions
/// that were offered and is not zero.
pub open spec fn chosen_version(offered: Seq<u32>, reply: Seq<u8>) -> Option<u32> {
    let v = from_be32(reply, 0);
    if v != 0 && (v == offered[0] || v == offered[1] || v == offered[2] || v == offered[3]) {
        Some(v as u32)
    } else {
        None
    }
}

/// The twenty bytes that the client sends first.
pub fn handshake_request(versions: &[u32; 4]) -> (bytes: Vec<u8>)
    ensures
        bytes@ == handshake_bytes(versions@),
        bytes@.len() == 20,
{
    let mut out: Vec<u8> = Vec::new();
    out.push(0x60);
    out.push(0x60);
    out.push(0xB0);
    out.push(0x17);
    assert(out@ =~= seq![0x60u8, 0x60u8, 0xB0u8, 0x17u8]);
    write_be32(versions[0], &mut out);
    write_be32(versions[1], &mut out);
    write_be32(versions[2], &mut out);
    write_be32(versions[3], &mut out);
    out
}

/// Reads the four bytes of the server's reply. The handshake fails where the
/// server names no version or one that was not offered.
pub fn handshake_response(offered: &[u32; 4], reply: &[u8; 4]) -> (r: Result<u32, ConnectionError>)
    ensures
        match chosen_version(offered@, reply@) {
            Some(v) => r matches Ok(version) && version == v,
            None => r matches Err(ConnectionError::HandshakeFailed(versions)) && versions
                == *offered,
        },
{
    let chosen: u32 = read_be32(reply.as_slice(), 0);
    if chosen != 0 && (chosen == offered[0] || chosen == offered[1] || chosen == offered[2]
        || chosen == offered[3]) {
        Ok(chosen)
    } else {
        Err(ConnectionError::HandshakeFailed(*offered))
    }
}

} // verus!
