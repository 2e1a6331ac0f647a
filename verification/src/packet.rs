//! The tunnel frame and its 64-byte wire form.

use crate::checksum::{
    checksum_of, flip_bit, fold_carries, lemma_checksum_detects_bit_flip,
    lemma_ones_complement_congruent, lemma_word_sum_bounds, word_sum,
};
use crate::endian::{be16, high_byte, lemma_be16_of_bytes, low_byte, read_u16, write_u16};
use vstd::prelude::*;
use vstd::slice::slice_subrange;

verus! {

/// Length of a frame on the wire.
pub const FRAME_LEN: usize = 64;

/// Length of the header that precedes the payload.
pub const HEADER_LEN: usize = 8;

/// Greatest number of payload bytes that one frame carries.
pub const MAX_PAYLOAD: usize = 56;

/// Greatest number of bytes that one run of frames carries: 65536 sequence
/// numbers, with `MAX_PAYLOAD` bytes under each.
pub const MAX_RUN: usize = 3_670_016;

/// What a frame says: the connection it belongs to, its place in the run of
/// fragments, and the bytes it carries (at most `MAX_PAYLOAD`).
pub struct FrameView {
    pub connection_id: u16,
    pub sequence: u16,
    pub payload: Seq<u8>,
}

/// Why a datagram is not a frame.
#[derive(Clone, Copy, Debug, PartialEq, Eq, Structural)]
pub enum DecodeError {
    /// The datagram is not exactly `FRAME_LEN` bytes long.
    WrongLength,
    /// The checksum field does not hold the checksum of the rest.
    BadChecksum,
}

/// The 64 bytes of a frame while its checksum field is still zero: type and
/// code are zero, the connection id stands at bytes 4 and 5, the sequence
/// number at bytes 6 and 7, both big-endian, and the payload follows from
/// byte 8, with zeros after its last byte.
pub open spec fn frame_body(id: u16, seq: u16, payload: Seq<u8>) -> Seq<u8> {
    Seq::new(
        64,
        |i: int|
            if i == 4 {
                high_byte(id)
            } else if i == 5 {
                low_byte(id)
            } else if i == 6 {
                high_byte(seq)
            } else if i == 7 {
                low_byte(seq)
            } else if 8 <= i < 8 + payload.len() {
                payload[i - 8]
            } else {
                0u8
            },
    )
}

/// The checksum that a frame carries: that of its bytes with the checksum
/// field zero.
pub open spec fn frame_checksum(id: u16, seq: u16, payload: Seq<u8>) -> u16 {
    checksum_of(frame_body(id, seq, payload)) as u16
}

/// The 64 bytes of a frame on the wire: its body with the checksum stored
/// big-endian at bytes 2 and 3.
pub open spec fn frame_bytes(id: u16, seq: u16, payload: Seq<u8>) -> Seq<u8> {
    let sum = frame_checksum(id, seq, payload);
    frame_body(id, seq, payload).update(2, high_byte(sum)).update(3, low_byte(sum))
}

/// A datagram with its checksum field set to zero.
pub open spec fn clear_checksum(raw: Seq<u8>) -> Seq<u8> {
    raw.update(2, 0u8).update(3, 0u8)
}

/// What a datagram decodes to. A datagram of another length than
/// `FRAME_LEN` is refused, and so is one whose checksum field differs from
/// the checksum of its other bytes. Of any other, the connection id, the
/// sequence number and the 56 payload bytes are read from their places.
pub open spec fn decode_spec(raw: Seq<u8>) -> Result<FrameView, DecodeError> {
    if raw.len() != 64 {
        Err(DecodeError::WrongLength)
    } else if be16(raw[2], raw[3]) != checksum_of(clear_checksum(raw)) {
        Err(DecodeError::BadChecksum)
    } else {
        Ok(
            FrameView {
                connection_id: be16(raw[4], raw[5]) as u16,
                sequence: be16(raw[6], raw[7]) as u16,
                payload: raw.subrange(8, 64),
            },
        )
    }
}

/// One frame of the tunnel, held in its wire form together with the number
/// of payload bytes that are meant.
#[derive(Clone, Copy, Debug)]
pub struct TunnelPacket {
    id: u16,
    seq: u16,
    len: usize,
    raw_pack: [u8; 64],
}

impl View for TunnelPacket {
    type V = FrameView;

    closed spec fn view(&self) -> FrameView {
        FrameView {
            connection_id: self.id,
            sequence: self.seq,
            payload: self.raw_pack@.subrange(8, 8 + self.len),
        }
    }
}

impl TunnelPacket {
    #[verifier::type_invariant]
    spec fn well_formed(&self) -> bool {
        &&& self.len <= 56
        &&& self.raw_pack@ == frame_bytes(
            self.id,
            self.seq,
            self.raw_pack@.subrange(8, 8 + self.len),
        )
    }

    /// The bytes that go on the wire for this frame.
    pub open spec fn wire(&self) -> Seq<u8> {
        frame_bytes(self@.connection_id, self@.sequence, self@.payload)
    }

    /// Builds the frame that carries all 56 bytes of `payload`.
    pub fn new(id: u16, seq: u16, payload: [u8; 56]) -> (pack: TunnelPacket)
        ensures
            pack@ == (FrameView { connection_id: id, sequence: seq, payload: payload@ }),
    {
        let mut raw: [u8; 64] = [0u8; 64];
        write_u16(&mut raw, 4, id);
        write_u16(&mut raw, 6, seq);
        let mut i: usize = 0;
        while i < 56
            invariant
                i <= 56,
                raw@ == frame_body(id, seq, payload@.subrange(0, i as int)),
            decreases 56 - i,
        {
            raw[i + 8] = payload[i];
            i = i + 1;
        }
        assert(payload@.subrange(0, 56) == payload@);
        let sum = Self::calculate_checksum(&raw);
        write_u16(&mut raw, 2, sum);
        assert(raw@.subrange(8, 64) == payload@);
        TunnelPacket { id, seq, len: 56, raw_pack: raw }
    }

    /// Builds the frame that carries `payload`, which the wire form pads
    /// with zeros to 56 bytes. There is no such frame for more than
    /// `MAX_PAYLOAD` bytes.
    pub fn with_payload(id: u16, seq: u16, payload: &[u8]) -> (res: Option<TunnelPacket>)
        ensures
            res is Some <==> payload@.len() <= MAX_PAYLOAD,
            res matches Some(pack) ==> pack@ == (FrameView {
                connection_id: id,
                sequence: seq,
                payload: payload@,
            }),
    {
        if payload.len() > MAX_PAYLOAD {
            return None;
        }
        let mut padded: [u8; 56] = [0u8; 56];
        let mut i: usize = 0;
        while i < payload.len()
            invariant
                i <= payload@.len() <= 56,
                forall|j: int| 0 <= j < i ==> padded@[j] == payload@[j],
                forall|j: int| i <= j < 56 ==> padded@[j] == 0u8,
            decreases payload@.len() - i,
        {
            padded[i] = payload[i];
            i = i + 1;
        }
        let full = TunnelPacket::new(id, seq, padded);
        proof {
            use_type_invariant(&full);
            assert(full.raw_pack@.subrange(8, 64) == padded@);
            assert(frame_body(id, seq, padded@) == frame_body(id, seq, payload@));
            assert(full.raw_pack@.subrange(8, 8 + payload@.len() as int) == payload@);
        }
        Some(TunnelPacket { id, seq, len: payload.len(), raw_pack: full.raw_pack })
    }

    /// Computes the checksum of `pack`, whose length must be even: the
    /// big-endian words are added in a 32-bit accumulator that wraps around,
    /// and the carries are folded back into the low 16 bits.
    pub fn calculate_checksum(pack: &[u8]) -> (res: u16)
        requires
            pack@.len() % 2 == 0,
        ensures
            res == checksum_of(pack@),
    {
        let mut sum: u32 = 0;
        let mut i: usize = 0;
        while i < pack.len()
            invariant
                pack@.len() % 2 == 0,
                i % 2 == 0,
                i <= pack@.len(),
                sum == word_sum(pack@, (i / 2) as nat) % 0x1_0000_0000,
            decreases pack@.len() - i,
        {
            let word: u32 = (pack[i] as u32) * 256 + (pack[i + 1] as u32);
            assert(word == be16(pack@[i as int], pack@[i + 1]));
            assert(word_sum(pack@, (i / 2 + 1) as nat) == word_sum(pack@, (i / 2) as nat) + word);
            sum = sum.wrapping_add(word);
            i = i + 2;
        }
        fold_carries(sum)
    }

    /// Reads a frame from a received datagram.
    pub fn decode(raw: &[u8]) -> (res: Result<TunnelPacket, DecodeError>)
        ensures
            match decode_spec(raw@) {
                Ok(frame) => res matches Ok(pack) && pack@ == frame,
                Err(e) => res matches Err(f) && f == e,
            },
    {
        if raw.len() != FRAME_LEN {
            return Err(DecodeError::WrongLength);
        }
        let mut body: [u8; 64] = [0u8; 64];
        let mut i: usize = 0;
        while i < 64
            invariant
                i <= 64,
                raw@.len() == 64,
                forall|j: int| 0 <= j < i ==> body@[j] == clear_checksum(raw@)[j],
                forall|j: int| i <= j < 64 ==> body@[j] == 0u8,
            decreases 64 - i,
        {
            if i != 2 && i != 3 {
                body[i] = raw[i];
            }
            i = i + 1;
        }
        assert(body@ == clear_checksum(raw@));
        let expected = Self::calculate_checksum(&body);
        let stored = read_u16(raw, 2);
        if stored != expected {
            return Err(DecodeError::BadChecksum);
        }
        let id = read_u16(raw, 4);
        let seq = read_u16(raw, 6);
        let mut payload: [u8; 56] = [0u8; 56];
        let mut k: usize = 0;
        while k < 56
            invariant
                k <= 56,
                raw@.len() == 64,
                forall|j: int| 0 <= j < k ==> payload@[j] == raw@[j + 8],
            decreases 56 - k,
        {
            payload[k] = raw[k + 8];
            k = k + 1;
        }
        assert(payload@ == raw@.subrange(8, 64));
        Ok(TunnelPacket::new(id, seq, payload))
    }

    /// The connection that the frame belongs to.
    pub fn id(&self) -> (id: u16)
        ensures
            id == self@.connection_id,
    {
        self.id
    }

    /// The frame's place in its run of fragments.
    pub fn seq(&self) -> (seq: u16)
        ensures
            seq == self@.sequence,
    {
        self.seq
    }

    /// The number of payload bytes that are meant.
    pub fn payload_len(&self) -> (len: usize)
        ensures
            len == self@.payload.len(),
            len <= MAX_PAYLOAD,
    {
        proof {
            use_type_invariant(self);
        }
        self.len
    }

    /// The checksum stored in the frame.
    pub fn checksum(&self) -> (sum: u16)
        ensures
            sum == frame_checksum(self@.connection_id, self@.sequence, self@.payload),
    {
        proof {
            use_type_invariant(self);
        }
        read_u16(&self.raw_pack, 2)
    }

    /// The whole frame as it goes on the wire, `FRAME_LEN` bytes.
    pub fn packet(&self) -> (bytes: &[u8])
        ensures
            bytes@ == self.wire(),
    {
        proof {
            use_type_invariant(self);
        }
        self.raw_pack.as_slice()
    }

    /// The payload field as it goes on the wire: the payload followed by
    /// zeros, 56 bytes in all.
    pub fn payload(&self) -> (bytes: &[u8])
        ensures
            bytes@ == self.wire().subrange(8, 64),
    {
        proof {
            use_type_invariant(self);
        }
        slice_subrange(self.raw_pack.as_slice(), HEADER_LEN, FRAME_LEN)
    }

    /// The payload bytes that are meant, without the padding.
    pub fn data(&self) -> (bytes: &[u8])
        ensures
            bytes@ == self@.payload,
    {
        proof {
            use_type_invariant(self);
        }
        slice_subrange(self.raw_pack.as_slice(), HEADER_LEN, HEADER_LEN + self.len)
    }
}

/// Number of frames that a run of `len` bytes is split into.
pub open spec fn fragment_count(len: nat) -> nat {
    (len + 55) / 56
}

/// The `i`-th frame of the run `bytes` sent on connection `id`: it carries
/// the bytes from `56 * i` up to the next multiple of 56, or to the end of
/// the run where that comes first, under the sequence number `i`.
pub open spec fn fragment(id: u16, bytes: Seq<u8>, i: int) -> FrameView {
    FrameView {
        connection_id: id,
        sequence: i as u16,
        payload: bytes.subrange(
            56 * i,
            if 56 * i + 56 <= bytes.len() {
                56 * i + 56
            } else {
                bytes.len() as int
            },
        ),
    }
}

/// The frames that the run `bytes` is split into, in order.
pub open spec fn fragments(id: u16, bytes: Seq<u8>) -> Seq<FrameView> {
    Seq::new(fragment_count(bytes.len()), |i: int| fragment(id, bytes, i))
}

/// The payloads of `frames`, one after the other.
pub open spec fn reassemble(frames: Seq<FrameView>) -> Seq<u8>
    decreases frames.len(),
{
    if frames.len() == 0 {
        Seq::empty()
    } else {
        reassemble(frames.drop_last()) + frames.last().payload
    }
}

/// A payload followed by zeros up to 56 bytes, as the wire shows it.
pub open spec fn padded(payload: Seq<u8>) -> Seq<u8> {
    Seq::new(
        56,
        |i: int|
            if i < payload.len() {
                payload[i]
            } else {
                0u8
            },
    )
}

/// Splits `payload` into frames of at most `MAX_PAYLOAD` bytes for
/// connection `id`, numbered from 0 in the order of the bytes. The run may
/// not need more frames than there are sequence numbers.
pub fn encode_packs(id: u16, payload: Vec<u8>) -> (packs: Vec<TunnelPacket>)
    requires
        payload@.len() <= MAX_RUN,
    ensures
        packs@.len() == fragment_count(payload@.len()),
        forall|i: int| 0 <= i < packs@.len() ==> (#[trigger] packs@[i])@ == fragment(id, payload@, i),
{
    let mut packs: Vec<TunnelPacket> = Vec::new();
    let total: usize = payload.len();
    let mut start: usize = 0;
    while start < total
        invariant
            total == payload@.len(),
            total <= MAX_RUN,
            start <= total,
            start < total ==> start == 56 * packs@.len(),
            packs@.len() == fragment_count(start as nat),
            forall|i: int|
                0 <= i < packs@.len() ==> (#[trigger] packs@[i])@ == fragment(id, payload@, i),
        decreases total - start,
    {
        let end: usize = if total - start > MAX_PAYLOAD {
            start + MAX_PAYLOAD
        } else {
            total
        };
        let chunk = slice_subrange(payload.as_slice(), start, end);
        let seq: u16 = packs.len() as u16;
        match TunnelPacket::with_payload(id, seq, chunk) {
            Some(pack) => {
                packs.push(pack);
            },
            None => {},
        }
        start = end;
    }
    packs
}

/// Decoding the wire form of a frame gives back its connection id, its
/// sequence number and its payload, the payload followed by the zeros that
/// pad it to 56 bytes.
pub proof fn lemma_decode_inverts_encode(id: u16, seq: u16, payload: Seq<u8>)
    requires
        payload.len() <= 56,
    ensures
        decode_spec(frame_bytes(id, seq, payload)) == Ok::<FrameView, DecodeError>(
            FrameView { connection_id: id, sequence: seq, payload: padded(payload) },
        ),
        padded(payload).subrange(0, payload.len() as int) == payload,
{
    let raw = frame_bytes(id, seq, payload);
    let body = frame_body(id, seq, payload);
    assert(clear_checksum(raw) == body);
    lemma_word_sum_bounds(body, 32);
    lemma_ones_complement_congruent(word_sum(body, 32) % 0x1_0000_0000);
    lemma_be16_of_bytes(frame_checksum(id, seq, payload));
    lemma_be16_of_bytes(id);
    lemma_be16_of_bytes(seq);
    assert(raw.subrange(8, 64) == padded(payload));
}

/// Splitting a run of bytes and putting the payloads together again gives
/// the run. There are as many frames as 56 goes into the length, rounded
/// up; every frame but the last carries 56 bytes and the last carries the
/// rest; all carry the connection id, and the sequence numbers count up from
/// 0 as far as 16 bits reach.
pub proof fn lemma_fragments_reassemble(id: u16, bytes: Seq<u8>)
    ensures
        reassemble(fragments(id, bytes)) == bytes,
        56 * (fragments(id, bytes).len() - 1) < bytes.len() <= 56 * fragments(id, bytes).len()
            || bytes.len() == 0 && fragments(id, bytes).len() == 0,
        forall|i: int|
            0 <= i < fragments(id, bytes).len() - 1 ==> (#[trigger] fragments(
                id,
                bytes,
            )[i]).payload.len() == 56,
        fragments(id, bytes).len() > 0 ==> fragments(id, bytes).last().payload.len()
            == bytes.len() - 56 * (fragments(id, bytes).len() - 1),
        forall|i: int|
            0 <= i < fragments(id, bytes).len() ==> (#[trigger] fragments(
                id,
                bytes,
            )[i]).connection_id == id,
        forall|i: int|
            0 <= i < fragments(id, bytes).len() && i <= 0xffff ==> (#[trigger] fragments(
                id,
                bytes,
            )[i]).sequence == i,
{
    lemma_reassemble_prefix(id, bytes, fragment_count(bytes.len()));
    assert(fragments(id, bytes).subrange(0, fragment_count(bytes.len()) as int) == fragments(
        id,
        bytes,
    ));
    assert(bytes.subrange(0, bytes.len() as int) == bytes);
}

/// The payloads of the first `k` frames of a run are its first `56 * k`
/// bytes, or all of it where it is shorter.
proof fn lemma_reassemble_prefix(id: u16, bytes: Seq<u8>, k: nat)
    requires
        k <= fragment_count(bytes.len()),
    ensures
        reassemble(fragments(id, bytes).subrange(0, k as int)) == bytes.subrange(
            0,
            if 56 * k <= bytes.len() {
                (56 * k) as int
            } else {
                bytes.len() as int
            },
        ),
    decreases k,
{
    let all = fragments(id, bytes);
    let head = all.subrange(0, k as int);
    if k == 0 {
        assert(reassemble(head) == Seq::<u8>::empty());
    } else {
        lemma_reassemble_prefix(id, bytes, (k - 1) as nat);
        assert(head.drop_last() == all.subrange(0, k - 1));
        assert(head.last() == fragment(id, bytes, k - 1));
        assert(reassemble(head) == reassemble(head.drop_last()) + head.last().payload);
    }
}

/// Inverting one bit of a datagram outside its checksum field changes the
/// checksum that is computed of it. So a datagram that decodes no longer
/// does after such a change: its checksum field gives the change away.
pub proof fn lemma_bit_flip_is_detected(raw: Seq<u8>, at: int, bit: u8)
    requires
        raw.len() == 64,
        0 <= at < 64,
        at != 2,
        at != 3,
        bit < 8,
    ensures
        checksum_of(clear_checksum(raw.update(at, flip_bit(raw[at], bit)))) != checksum_of(
            clear_checksum(raw),
        ),
        decode_spec(raw) is Ok ==> decode_spec(raw.update(at, flip_bit(raw[at], bit))) == Err::<
            FrameView,
            DecodeError,
        >(DecodeError::BadChecksum),
{
    let body = clear_checksum(raw);
    let changed = raw.update(at, flip_bit(raw[at], bit));
    assert(clear_checksum(changed) == body.update(at, flip_bit(body[at], bit)));
    lemma_checksum_detects_bit_flip(body, at, bit);
}

} // verus!
