//! The frame checksum: the 8-bit wrapping sum (mod 256) of all bytes that
//! precede it in a frame. The same checksum is appended to every outbound
//! frame and validated on every inbound frame.

use vstd::prelude::*;

verus! {

/// The exact sum of a byte sequence, before any modular reduction.
pub open spec fn byte_sum(s: Seq<u8>) -> int
    decreases s.len(),
{
    if s.len() == 0 {
        0
    } else {
        byte_sum(s.drop_last()) + s.last()
    }
}

/// The checksum of a byte sequence: its sum reduced mod 256.
pub open spec fn checksum_spec(s: Seq<u8>) -> u8 {
    (byte_sum(s) % 256) as u8
}

/// A complete frame is well-formed when its trailing byte is the checksum of
/// everything before it.
pub open spec fn frame_checksum_ok(frame: Seq<u8>) -> bool {
    frame.len() > 0 && frame.last() == checksum_spec(frame.drop_last())
}

proof fn lemma_byte_sum_nonneg(s: Seq<u8>)
    ensures
        0 <= byte_sum(s),
    decreases s.len(),
{
    if s.len() > 0 {
        lemma_byte_sum_nonneg(s.drop_last());
    }
}

proof fn lemma_byte_sum_push(s: Seq<u8>, b: u8)
    ensures
        byte_sum(s.push(b)) == byte_sum(s) + b,
{
    assert(s.push(b).drop_last() =~= s);
}

proof fn lemma_byte_sum_concat(a: Seq<u8>, b: Seq<u8>)
    ensures
        byte_sum(a + b) == byte_sum(a) + byte_sum(b),
    decreases b.len(),
{
    if b.len() == 0 {
        assert(a + b =~= a);
    } else {
        assert((a + b).drop_last() =~= a + b.drop_last());
        assert((a + b).last() == b.last());
        lemma_byte_sum_concat(a, b.drop_last());
    }
}

/// Law: the checksum is order-independent across concatenation, as a
/// sum-based scheme must be: the two halves of a frame contribute the same
/// checksum in either order.
pub proof fn lemma_checksum_order_independent(a: Seq<u8>, b: Seq<u8>)
    ensures
        checksum_spec(a + b) == checksum_spec(b + a),
{
    lemma_byte_sum_concat(a, b);
    lemma_byte_sum_concat(b, a);
}

/// Law: appending a frame's own checksum always yields a well-formed frame,
/// so a frame built by the encoder always passes checksum validation.
pub proof fn lemma_checksum_round_trip(frame: Seq<u8>)
    ensures
        frame_checksum_ok(frame.push(checksum_spec(frame))),
{
    let full = frame.push(checksum_spec(frame));
    assert(full.drop_last() =~= frame);
}

/// The 8-bit wrapping sum of the given bytes, used identically for outbound
/// and inbound frames.
pub fn checksum(command: &Vec<u8>) -> (c: u8)
    ensures
        c == checksum_spec(command@),
{
    let mut total: u8 = 0;
    let mut i: usize = 0;
    while i < command.len()
        invariant
            i <= command@.len(),
            total == checksum_spec(command@.take(i as int)),
        decreases command@.len() - i,
    {
        proof {
            let prefix = command@.take(i as int);
            lemma_byte_sum_nonneg(prefix);
            lemma_byte_sum_push(prefix, command@[i as int]);
            assert(command@.take(i + 1).drop_last() =~= prefix);
        }
        total = ((total as u16 + command[i] as u16) % 256) as u8;
        i = i + 1;
    }
    proof {
        assert(command@.take(command@.len() as int) =~= command@);
    }
    total
}

/// Appends the checksum of `frame` to a copy of it, producing the complete
/// byte sequence that goes on the wire.
pub fn frame_with_checksum(frame: &Vec<u8>) -> (full: Vec<u8>)
    ensures
        full@ == frame@.push(checksum_spec(frame@)),
        frame_checksum_ok(full@),
{
    let c = checksum(frame);
    let mut full = frame.clone();
    full.push(c);
    proof {
        lemma_checksum_round_trip(frame@);
    }
    full
}

/// Whether a complete frame ends in the correct checksum of all its
/// preceding bytes.
pub fn verify_frame(frame: &Vec<u8>) -> (ok: bool)
    ensures
        ok == frame_checksum_ok(frame@),
{
    if frame.len() == 0 {
        return false;
    }
    let mut body = frame.clone();
    let last = body.pop().unwrap();
    let c = checksum(&body);
    last == c
}

} // verus!
