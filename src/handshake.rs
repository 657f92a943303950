use vstd::prelude::*;

use crate::clock::{epoch_offset_millis, handshake_seconds, spec_handshake_seconds, system_now};

verus! {

/// Protocol version announced in the first byte of the server's reply.
pub const PROTOCOL_VERSION: u8 = 3;

/// Size of the client's opening block: one version byte and one 1536-byte block.
pub const CLIENT_HELLO_SIZE: usize = 1537;

/// Size of one handshake block (the client's confirmation has this size).
pub const BLOCK_SIZE: usize = 1536;

/// Bytes of the server block that follow version, time and the reserved word.
pub const PAYLOAD_SIZE: usize = 1527;

/// Offset of the payload inside a block that starts with the version byte.
pub const PAYLOAD_OFFSET: usize = 9;

/// Size of the server's reply to a well-formed opening block.
pub const SERVER_REPLY_SIZE: usize = 3073;

/// Why a handshake could not be completed.
#[derive(Debug, Clone, Copy, PartialEq, Eq, Structural)]
pub enum HandshakeError {
    /// The peer closed the connection before a whole phase arrived.
    ShortRead,
    /// The wall clock reads an instant before the Unix epoch.
    ClockBeforeEpoch,
}

/// The four bytes of `t`, most significant first.
pub open spec fn be_bytes(t: u32) -> Seq<u8> {
    seq![(t >> 24u32) as u8, (t >> 16u32) as u8, (t >> 8u32) as u8, t as u8]
}

/// The payload of the server block: the client's bytes at the same positions
/// when the client sent a whole block, zeros otherwise.
pub open spec fn mirrored_payload(client: Seq<u8>) -> Seq<u8> {
    if client.len() >= BLOCK_SIZE {
        client.subrange(PAYLOAD_OFFSET as int, BLOCK_SIZE as int)
    } else {
        Seq::new(PAYLOAD_SIZE as nat, |i: int| 0u8)
    }
}

/// The server's reply: version, time, four reserved zero bytes, the mirrored
/// payload, then the client's opening block echoed verbatim.
pub open spec fn server_reply(client: Seq<u8>, time: u32) -> Seq<u8> {
    seq![PROTOCOL_VERSION] + be_bytes(time) + seq![0u8, 0u8, 0u8, 0u8] + mirrored_payload(client)
        + client
}

/// Builds the server's reply to `client` for the given time stamp.
pub fn build_server_handshake(client: &[u8], time: u32) -> (r: Vec<u8>)
    requires
        client@.len() + BLOCK_SIZE <= usize::MAX,
    ensures
        r@ == server_reply(client@, time),
{
    let mut out: Vec<u8> = Vec::with_capacity(BLOCK_SIZE + client.len());
    out.push(PROTOCOL_VERSION);
    out.push((time >> 24u32) as u8);
    out.push((time >> 16u32) as u8);
    out.push((time >> 8u32) as u8);
    out.push(time as u8);
    let mut z: usize = 0;
    while z < 4
        invariant
            0 <= z <= 4,
            out@ == seq![PROTOCOL_VERSION] + be_bytes(time) + Seq::new(z as nat, |i: int| 0u8),
        decreases 4 - z,
    {
        out.push(0u8);
        z = z + 1;
        assert(out@ =~= seq![PROTOCOL_VERSION] + be_bytes(time) + Seq::new(z as nat, |i: int| 0u8));
    }
    assert(Seq::new(4, |i: int| 0u8) =~= seq![0u8, 0u8, 0u8, 0u8]);
    let ghost head = out@;
    let whole = client.len() >= BLOCK_SIZE;
    let mut k: usize = 0;
    while k < PAYLOAD_SIZE
        invariant
            0 <= k <= PAYLOAD_SIZE,
            whole == (client@.len() >= BLOCK_SIZE),
            out@ == head + mirrored_payload(client@).subrange(0, k as int),
        decreases PAYLOAD_SIZE - k,
    {
        if whole {
            out.push(client[PAYLOAD_OFFSET + k]);
        } else {
            out.push(0u8);
        }
        k = k + 1;
        assert(out@ =~= head + mirrored_payload(client@).subrange(0, k as int));
    }
    assert(mirrored_payload(client@).subrange(0, PAYLOAD_SIZE as int) =~= mirrored_payload(client@));
    let ghost mid = out@;
    let mut j: usize = 0;
    while j < client.len()
        invariant
            0 <= j <= client@.len(),
            out@ == mid + client@.subrange(0, j as int),
        decreases client@.len() - j,
    {
        out.push(client[j]);
        j = j + 1;
        assert(out@ =~= mid + client@.subrange(0, j as int));
    }
    assert(client@.subrange(0, client@.len() as int) =~= client@);
    out
}

/// Builds the server's reply to `client`, stamped with the current wall-clock
/// time. Fails only when the clock reads an instant before the Unix epoch.
pub fn create_server_handshake(client: &[u8]) -> (r: Result<Vec<u8>, HandshakeError>)
    requires
        client@.len() + BLOCK_SIZE <= usize::MAX,
    ensures
        match r {
            Ok(reply) => exists|offset: Result<u128, u128>|
                #![trigger spec_handshake_seconds(offset)]
                spec_handshake_seconds(offset) matches Some(t) && reply@ == server_reply(
                    client@,
                    t,
                ),
            Err(e) => e == HandshakeError::ClockBeforeEpoch,
        },
{
    let offset = epoch_offset_millis(&system_now());
    match handshake_seconds(offset) {
        Some(secs) => {
            let reply = build_server_handshake(client, secs);
            assert(spec_handshake_seconds(offset) == Some(secs));
            Ok(reply)
        },
        None => Err(HandshakeError::ClockBeforeEpoch),
    }
}

/// Of every well-formed opening block and every time stamp: the reply is
/// 3073 bytes long, starts with the protocol version and ends with the
/// opening block verbatim.
pub proof fn lemma_server_reply_shape(client: Seq<u8>, time: u32)
    requires
        client.len() == CLIENT_HELLO_SIZE,
    ensures
        server_reply(client, time).len() == SERVER_REPLY_SIZE,
        server_reply(client, time)[0] == PROTOCOL_VERSION,
        server_reply(client, time).subrange(
            (SERVER_REPLY_SIZE - CLIENT_HELLO_SIZE) as int,
            SERVER_REPLY_SIZE as int,
        ) == client,
{
    let r = server_reply(client, time);
    assert(r.subrange(1536, 3073) =~= client);
}

} // verus!
