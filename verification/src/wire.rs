//! The canonical wire codec of the pipe transport.
//!
//! One frame is encoded as `[flags][id0][id1][id2][id3][dlc][payload...]`:
//! a flags byte packing the three kind flags, the identifier in four
//! little-endian bytes, the data-length-code, then exactly `dlc` payload
//! bytes. On the wire each encoded frame travels inside a record
//! `[length][encoded frame][newline]`, where the one-byte length prefix
//! is the exact byte length of the encoded frame.

use vstd::arithmetic::div_mod::{
    lemma_basic_div, lemma_div_denominator, lemma_fundamental_div_mod,
    lemma_fundamental_div_mod_converse,
};
use vstd::prelude::*;

use crate::errors::CanError;
use crate::frame::{CanFrame, FrameView, MAX_DLC, MAX_EXTENDED_ID, MAX_STANDARD_ID};

verus! {

/// The newline byte that closes every wire record.
pub const RECORD_DELIMITER: u8 = 10;

/// The first encoded byte: bit 0 the extended flag, bit 1 the
/// remote-request flag, bit 2 the error flag.
pub open spec fn flags_byte(f: FrameView) -> u8 {
    ((if f.extended {
        1int
    } else {
        0int
    }) + (if f.rtr {
        2int
    } else {
        0int
    }) + (if f.error {
        4int
    } else {
        0int
    })) as u8
}

/// The four little-endian bytes of a frame identifier.
pub open spec fn id_bytes(id: u32) -> Seq<u8> {
    seq![
        (id % 256) as u8,
        ((id / 256) % 256) as u8,
        ((id / 65536) % 256) as u8,
        ((id / 16777216) % 256) as u8,
    ]
}

/// The identifier carried by four little-endian bytes.
pub open spec fn id_of_bytes(b0: u8, b1: u8, b2: u8, b3: u8) -> u32 {
    (b0 + 256 * b1 + 65536 * b2 + 16777216 * b3) as u32
}

/// The canonical binary encoding of one frame. The timestamp is not part
/// of the wire encoding; it is attached by the receiving transport.
pub open spec fn encode_spec(f: FrameView) -> Seq<u8> {
    seq![flags_byte(f)] + id_bytes(f.id) + seq![f.data.len() as u8] + f.data
}

/// What a byte string decodes to: `Some` exactly when it is the encoding
/// of a well-formed frame, with stray flag bits, a length prefix that
/// disagrees with the payload, and any invariant violation all rejected.
pub open spec fn decode_spec(b: Seq<u8>) -> Option<FrameView> {
    if b.len() < 6 || b[0] >= 8 || b.len() != 6 + b[5] {
        None
    } else {
        let f = FrameView {
            id: id_of_bytes(b[1], b[2], b[3], b[4]),
            data: b.subrange(6, b.len() as int),
            extended: b[0] % 2 == 1,
            rtr: (b[0] / 2) % 2 == 1,
            error: (b[0] / 4) % 2 == 1,
            timestamp: None,
        };
        if f.wf() {
            Some(f)
        } else {
            None
        }
    }
}

/// One full wire record: length prefix, encoded frame, newline delimiter.
pub open spec fn wire_record_spec(f: FrameView) -> Seq<u8> {
    seq![encode_spec(f).len() as u8] + encode_spec(f) + seq![RECORD_DELIMITER]
}

/// Splitting an identifier into four little-endian bytes loses nothing.
proof fn lemma_id_round_trip(id: u32)
    ensures
        id_of_bytes(
            (id % 256) as u8,
            ((id / 256) % 256) as u8,
            ((id / 65536) % 256) as u8,
            ((id / 16777216) % 256) as u8,
        ) == id,
{
    let x = id as int;
    lemma_fundamental_div_mod(x, 256);
    lemma_fundamental_div_mod(x / 256, 256);
    lemma_fundamental_div_mod(x / 65536, 256);
    lemma_div_denominator(x, 256, 256);
    lemma_div_denominator(x, 65536, 256);
    lemma_div_denominator(x, 16777216, 256);
    lemma_basic_div(x / 16777216, 256);
    assert(x / 16777216 < 256) by {
        lemma_basic_div(x, 4294967296);
        assert((x / 16777216) / 256 == x / 4294967296);
    }
    assert(x % 256 + 256 * ((x / 256) % 256) + 65536 * ((x / 65536) % 256) + 16777216 * ((x
        / 16777216) % 256) == x);
}

/// Encoding then decoding reproduces the frame, except the timestamp,
/// which the wire never carries.
pub proof fn lemma_wire_round_trip(f: FrameView)
    requires
        f.wf(),
    ensures
        decode_spec(encode_spec(f)) == Some(f.wire_view()),
{
    let b = encode_spec(f);
    assert(b.len() == 6 + f.data.len());
    assert(b[0] == flags_byte(f));
    assert(b[5] == f.data.len() as u8);
    assert(b[1] == id_bytes(f.id)[0] && b[2] == id_bytes(f.id)[1] && b[3] == id_bytes(f.id)[2]
        && b[4] == id_bytes(f.id)[3]);
    lemma_id_round_trip(f.id);
    assert(b.subrange(6, b.len() as int) =~= f.data);
    let d = FrameView {
        id: id_of_bytes(b[1], b[2], b[3], b[4]),
        data: b.subrange(6, b.len() as int),
        extended: b[0] % 2 == 1,
        rtr: (b[0] / 2) % 2 == 1,
        error: (b[0] / 4) % 2 == 1,
        timestamp: None,
    };
    assert(d.extended == f.extended && d.rtr == f.rtr && d.error == f.error);
    assert(d =~= f.wire_view());
}

/// Reassembling an identifier from four little-endian bytes and
/// splitting it again reproduces the bytes.
proof fn lemma_id_bytes_of_raw(b0: u8, b1: u8, b2: u8, b3: u8)
    ensures
        id_bytes(id_of_bytes(b0, b1, b2, b3)) =~= seq![b0, b1, b2, b3],
{
    let x = b0 + 256 * (b1 as int) + 65536 * (b2 as int) + 16777216 * (b3 as int);
    assert(id_of_bytes(b0, b1, b2, b3) == x);
    let x1 = b1 + 256 * (b2 as int) + 65536 * (b3 as int);
    let x2 = b2 + 256 * (b3 as int);
    let x3 = b3 as int;
    lemma_fundamental_div_mod_converse(x, 256, x1, b0 as int);
    lemma_fundamental_div_mod_converse(x1, 256, x2, b1 as int);
    lemma_fundamental_div_mod_converse(x2, 256, x3, b2 as int);
    lemma_fundamental_div_mod_converse(x3, 256, 0, b3 as int);
    lemma_div_denominator(x, 256, 256);
    lemma_div_denominator(x, 65536, 256);
}

/// A byte string that decodes is the canonical encoding of the decoded
/// frame: together with the round trip, the codec is a bijection
/// between well-formed frames and the byte strings it accepts.
pub proof fn lemma_decode_canonical(b: Seq<u8>, f: FrameView)
    requires
        decode_spec(b) == Some(f),
    ensures
        encode_spec(f) == b,
        f.wf(),
        f.timestamp is None,
{
    assert(b.len() >= 6 && b[0] < 8 && b.len() == 6 + b[5]);
    let b0 = b[0];
    assert(b0 == (if b0 % 2 == 1 {
        1int
    } else {
        0int
    }) + 2 * (if (b0 / 2) % 2 == 1 {
        1int
    } else {
        0int
    }) + 4 * (if (b0 / 4) % 2 == 1 {
        1int
    } else {
        0int
    })) by {
        lemma_fundamental_div_mod(b0 as int, 2);
        lemma_fundamental_div_mod(b0 as int / 2, 2);
        lemma_div_denominator(b0 as int, 2, 2);
        lemma_basic_div(b0 as int / 4, 2);
    }
    assert(flags_byte(f) == b0);
    lemma_id_bytes_of_raw(b[1], b[2], b[3], b[4]);
    assert(encode_spec(f) =~= b);
}

/// The encoding is injective: two well-formed frames with the same
/// encoding agree on everything the wire carries.
pub proof fn lemma_encoding_injective(f: FrameView, g: FrameView)
    requires
        f.wf(),
        g.wf(),
        encode_spec(f) == encode_spec(g),
    ensures
        f.wire_view() == g.wire_view(),
{
    lemma_wire_round_trip(f);
    lemma_wire_round_trip(g);
}

/// A full wire record round-trips: its first byte is the exact length
/// of the encoded frame between prefix and delimiter, and decoding
/// those bytes reproduces the frame, except the timestamp.
pub proof fn lemma_record_round_trip(f: FrameView)
    requires
        f.wf(),
    ensures
        wire_record_spec(f).len() == encode_spec(f).len() + 2,
        wire_record_spec(f)[0] == encode_spec(f).len() as u8,
        wire_record_spec(f).last() == RECORD_DELIMITER,
        decode_spec(
            wire_record_spec(f).subrange(1, wire_record_spec(f).len() - 1),
        ) == Some(f.wire_view()),
{
    assert(wire_record_spec(f).subrange(1, wire_record_spec(f).len() - 1) =~= encode_spec(f));
    lemma_wire_round_trip(f);
}

/// Encodes one frame in the canonical binary encoding.
pub fn encode_frame(frame: &CanFrame) -> (r: Vec<u8>)
    requires
        frame.wf(),
    ensures
        r@ == encode_spec(frame@),
        r@.len() == 6 + frame@.data.len(),
        r@.len() <= 14,
{
    let mut out: Vec<u8> = Vec::new();
    let flags: u8 = (if frame.is_extended() {
        1u8
    } else {
        0u8
    }) + (if frame.is_rtr() {
        2u8
    } else {
        0u8
    }) + (if frame.is_error() {
        4u8
    } else {
        0u8
    });
    out.push(flags);
    let id = frame.id();
    out.push((id % 256) as u8);
    out.push(((id / 256) % 256) as u8);
    out.push(((id / 65536) % 256) as u8);
    out.push(((id / 16777216) % 256) as u8);
    out.push(frame.dlc() as u8);
    let data = frame.data();
    let mut i: usize = 0;
    while i < data.len()
        invariant
            i <= data.len(),
            data@ == frame@.data,
            frame@.data.len() <= MAX_DLC,
            out@ =~= encode_spec(frame@).subrange(0, 6 + i),
        decreases data.len() - i,
    {
        out.push(*vstd::slice::slice_index_get(data, i));
        i = i + 1;
    }
    proof {
        assert(out@ =~= encode_spec(frame@));
    }
    out
}

/// Decodes one frame from the canonical binary encoding; any byte string
/// that is not the encoding of a well-formed frame is a `ProtocolError`.
pub fn decode_frame(bytes: &[u8]) -> (r: Result<CanFrame, CanError>)
    ensures
        r matches Ok(f) ==> decode_spec(bytes@) == Some(f@) && f.wf() && f@.timestamp is None,
        r is Err ==> r == Err::<CanFrame, CanError>(CanError::ProtocolError) && decode_spec(
            bytes@,
        ) is None,
{
    if bytes.len() < 6 {
        return Err(CanError::ProtocolError);
    }
    let flags = *vstd::slice::slice_index_get(bytes, 0);
    if flags >= 8 {
        return Err(CanError::ProtocolError);
    }
    let dlc = *vstd::slice::slice_index_get(bytes, 5);
    if bytes.len() != 6 + dlc as usize {
        return Err(CanError::ProtocolError);
    }
    let b1 = *vstd::slice::slice_index_get(bytes, 1);
    let b2 = *vstd::slice::slice_index_get(bytes, 2);
    let b3 = *vstd::slice::slice_index_get(bytes, 3);
    let b4 = *vstd::slice::slice_index_get(bytes, 4);
    let id: u32 = b1 as u32 + 256 * (b2 as u32) + 65536 * (b3 as u32) + 16777216 * (b4 as u32);
    let extended = flags % 2 == 1;
    let rtr = (flags / 2) % 2 == 1;
    let error = (flags / 4) % 2 == 1;
    let payload = vstd::slice::slice_subrange(bytes, 6, bytes.len());
    let ghost decoded = FrameView {
        id,
        data: bytes@.subrange(6, bytes@.len() as int),
        extended,
        rtr,
        error,
        timestamp: None,
    };
    if dlc as usize > MAX_DLC {
        return Err(CanError::ProtocolError);
    }
    if rtr && error {
        return Err(CanError::ProtocolError);
    }
    if error {
        if extended || dlc != 0 || id > MAX_EXTENDED_ID {
            return Err(CanError::ProtocolError);
        }
        let f = CanFrame {
            id,
            data: Vec::new(),
            is_extended: false,
            is_rtr: false,
            is_error: true,
            timestamp: None,
        };
        proof {
            assert(f@ =~= decoded);
        }
        return Ok(f);
    }
    if extended {
        if id > MAX_EXTENDED_ID {
            return Err(CanError::ProtocolError);
        }
    } else {
        if id > MAX_STANDARD_ID {
            return Err(CanError::ProtocolError);
        }
    }
    if rtr {
        let mut i: usize = 0;
        while i < payload.len()
            invariant
                6 <= bytes@.len(),
                i <= payload.len(),
                payload@ == bytes@.subrange(6, bytes@.len() as int),
                decoded == (FrameView {
                    id: id_of_bytes(bytes@[1], bytes@[2], bytes@[3], bytes@[4]),
                    data: bytes@.subrange(6, bytes@.len() as int),
                    extended: bytes@[0] % 2 == 1,
                    rtr: (bytes@[0] / 2) % 2 == 1,
                    error: (bytes@[0] / 4) % 2 == 1,
                    timestamp: None,
                }),
                decoded.rtr,
                bytes@[0] < 8,
                bytes@.len() == 6 + bytes@[5],
                forall|j: int| 0 <= j < i ==> payload@[j] == 0,
            decreases payload.len() - i,
        {
            if *vstd::slice::slice_index_get(payload, i) != 0 {
                proof {
                    assert(decoded.data[i as int] != 0);
                    assert(!decoded.wf());
                    assert(decode_spec(bytes@) is None);
                }
                return Err(CanError::ProtocolError);
            }
            i = i + 1;
        }
    }
    let f = CanFrame {
        id,
        data: vstd::slice::slice_to_vec(payload),
        is_extended: extended,
        is_rtr: rtr,
        is_error: false,
        timestamp: None,
    };
    proof {
        assert(f@ =~= decoded);
    }
    Ok(f)
}

/// Builds the full wire record for one frame: the one-byte length prefix,
/// the encoded frame, then the newline delimiter.
pub fn encode_wire_record(frame: &CanFrame) -> (r: Vec<u8>)
    requires
        frame.wf(),
    ensures
        r@ == wire_record_spec(frame@),
        r@.len() == encode_spec(frame@).len() + 2,
        r@[0] == encode_spec(frame@).len() as u8,
        r@.subrange(1, r@.len() - 1) == encode_spec(frame@),
        r@[r@.len() - 1] == RECORD_DELIMITER,
{
    let enc = encode_frame(frame);
    let mut out: Vec<u8> = Vec::new();
    out.push(enc.len() as u8);
    let mut i: usize = 0;
    while i < enc.len()
        invariant
            i <= enc.len(),
            enc@ == encode_spec(frame@),
            enc@.len() <= 14,
            out@ =~= seq![enc@.len() as u8] + enc@.subrange(0, i as int),
        decreases enc.len() - i,
    {
        out.push(enc[i]);
        i = i + 1;
    }
    out.push(RECORD_DELIMITER);
    proof {
        assert(out@ =~= wire_record_spec(frame@));
        assert(out@.subrange(1, out@.len() - 1) =~= encode_spec(frame@));
    }
    out
}

} // verus!
