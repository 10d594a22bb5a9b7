//! MAVLink v1/v2 framing: an incremental, zero-copy decoder that extracts
//! complete frames from a byte stream. The decoder is content-agnostic: it
//! neither computes nor verifies checksums, and it preserves the frame bytes
//! exactly, so extended or vendor-specific message sets pass through intact.

use crate::buf::{bytes_as_slice, bytes_copy_from_slice, bytes_get, bytes_len, bytes_view};
use bytes::Bytes;
use vstd::prelude::*;
use vstd::slice::slice_subrange;

verus! {

/// Start byte selecting MAVLink version 1 framing.
pub const STX_V1: u8 = 0xFE;

/// Start byte selecting MAVLink version 2 framing.
pub const STX_V2: u8 = 0xFD;

/// Fixed header length of a v1 frame: STX, LEN, SEQ, SYSID, COMPID, MSGID.
pub const V1_HEADER_LEN: usize = 6;

/// Fixed header length of a v2 frame: STX, LEN, INCOMPAT, COMPAT, SEQ,
/// SYSID, COMPID, and a three-byte MSGID.
pub const V2_HEADER_LEN: usize = 10;

/// Trailing checksum length, common to both versions.
pub const CHECKSUM_LEN: usize = 2;

/// Length of the optional v2 signature trailer.
pub const SIGNATURE_LEN: usize = 13;

/// Bit of the v2 incompatibility flags that marks a signed frame.
pub const IFLAG_SIGNED: u8 = 0x01;

/// MAVLink protocol version.
#[derive(Debug, Clone, Copy, PartialEq, Eq, Structural)]
pub enum MavVersion {
    V1,
    V2,
}

/// Why a buffer did not yield a frame.
#[derive(Debug, Clone, Copy, PartialEq, Eq, Structural)]
pub enum ParseError {
    /// The first byte is neither start byte; the caller should skip one byte
    /// and retry.
    InvalidMagic(u8),
    /// The buffer holds a frame prefix: `Incomplete(need, have)` asks the
    /// caller to retry once at least `need` bytes are available.
    Incomplete(usize, usize),
    /// A checksum mismatch. The decoder itself never reports this: checksums
    /// are forwarded as opaque bytes so unknown dialects pass through.
    InvalidCrc { expected: u16, got: u16 },
    /// A transport failure, reported by the surrounding stream code.
    Io,
}

/// Is `b` one of the two start bytes?
pub open spec fn valid_stx(b: u8) -> bool {
    b == STX_V1 || b == STX_V2
}

/// The version selected by a start byte.
pub open spec fn spec_version_of(b: u8) -> MavVersion {
    if b == STX_V1 {
        MavVersion::V1
    } else {
        MavVersion::V2
    }
}

/// The fixed header length of each version.
pub open spec fn spec_header_len(v: MavVersion) -> int {
    match v {
        MavVersion::V1 => V1_HEADER_LEN as int,
        MavVersion::V2 => V2_HEADER_LEN as int,
    }
}

/// Does a v2 incompatibility-flags byte mark the frame as signed?
pub open spec fn spec_signed(flags: u8) -> bool {
    flags & IFLAG_SIGNED != 0
}

/// The whole length of the frame starting at `s`, readable once the fixed
/// header is present: header, payload, checksum, and (for a signed v2 frame)
/// the signature trailer.
pub open spec fn spec_total_len(s: Seq<u8>) -> int
    recommends
        s.len() >= spec_header_len(spec_version_of(s[0])),
        valid_stx(s[0]),
{
    if s[0] == STX_V1 {
        V1_HEADER_LEN + s[1] + CHECKSUM_LEN
    } else {
        V2_HEADER_LEN + s[1] + CHECKSUM_LEN + if spec_signed(s[2]) {
            SIGNATURE_LEN as int
        } else {
            0
        }
    }
}

/// How an attempt to decode the front of `s` ends.
#[derive(Debug, Clone, Copy, PartialEq, Eq, Structural)]
pub enum ParseStatus {
    /// A complete frame starts at `s`.
    GotFrame,
    /// `s` is a proper prefix of a frame (or empty); more bytes are needed.
    NeedMore,
    /// `s` starts with a byte that is no start byte.
    BadMagic,
}

/// The outcome of decoding the front of `s`.
pub open spec fn spec_status(s: Seq<u8>) -> ParseStatus {
    if s.len() == 0 {
        ParseStatus::NeedMore
    } else if !valid_stx(s[0]) {
        ParseStatus::BadMagic
    } else if s.len() < spec_header_len(spec_version_of(s[0])) {
        ParseStatus::NeedMore
    } else if s.len() < spec_total_len(s) {
        ParseStatus::NeedMore
    } else {
        ParseStatus::GotFrame
    }
}

/// How many bytes a decode of `s` asks for when it reports `NeedMore`:
/// first the fixed header, then the whole frame.
pub open spec fn spec_need(s: Seq<u8>) -> int
    recommends
        spec_status(s) is NeedMore,
{
    if s.len() == 0 {
        1
    } else if s.len() < spec_header_len(spec_version_of(s[0])) {
        spec_header_len(spec_version_of(s[0]))
    } else {
        spec_total_len(s)
    }
}

/// `f` is exactly one complete frame.
pub open spec fn complete_frame(f: Seq<u8>) -> bool {
    f.len() >= 1 && valid_stx(f[0]) && f.len() >= spec_header_len(spec_version_of(f[0]))
        && f.len() == spec_total_len(f)
}

/// The declared payload length of a frame.
pub open spec fn spec_payload_len(f: Seq<u8>) -> int
    recommends
        f.len() >= 2,
{
    f[1] as int
}

/// The system id of a frame.
pub open spec fn spec_sys_id(f: Seq<u8>) -> u8
    recommends
        complete_frame(f),
{
    if f[0] == STX_V1 {
        f[3]
    } else {
        f[5]
    }
}

/// The component id of a frame.
pub open spec fn spec_comp_id(f: Seq<u8>) -> u8
    recommends
        complete_frame(f),
{
    if f[0] == STX_V1 {
        f[4]
    } else {
        f[6]
    }
}

/// The sequence number of a frame.
pub open spec fn spec_sequence(f: Seq<u8>) -> u8
    recommends
        complete_frame(f),
{
    if f[0] == STX_V1 {
        f[2]
    } else {
        f[4]
    }
}

/// The message id of a frame: one byte for v1, three little-endian bytes
/// for v2.
pub open spec fn spec_msg_id(f: Seq<u8>) -> u32
    recommends
        complete_frame(f),
{
    if f[0] == STX_V1 {
        f[5] as u32
    } else {
        (f[7] as u32) | ((f[8] as u32) << 8) | ((f[9] as u32) << 16)
    }
}

/// The payload bytes of a frame.
pub open spec fn spec_payload(f: Seq<u8>) -> Seq<u8>
    recommends
        complete_frame(f),
{
    f.subrange(
        spec_header_len(spec_version_of(f[0])),
        spec_header_len(spec_version_of(f[0])) + spec_payload_len(f),
    )
}

/// Every byte of `g` is rejected as a start byte.
pub open spec fn garbage(g: Seq<u8>) -> bool {
    forall|i: int| 0 <= i < g.len() ==> !valid_stx(g[i])
}

/// Law: a buffer that is exactly one complete frame decodes as a frame,
/// consumes the whole buffer, and the decoded bytes are the input unchanged.
pub proof fn lemma_parse_round_trip(f: Seq<u8>)
    requires
        complete_frame(f),
    ensures
        spec_status(f) is GotFrame,
        spec_total_len(f) == f.len(),
        f.take(spec_total_len(f)) == f,
{
    assert(f.take(f.len() as int) =~= f);
}

/// Law: every proper prefix of a complete frame asks for more bytes; it is
/// neither decoded nor rejected, so the caller keeps it and retries.
pub proof fn lemma_parse_incremental(f: Seq<u8>, k: int)
    requires
        complete_frame(f),
        0 <= k < f.len(),
    ensures
        spec_status(f.take(k)) is NeedMore,
{
    let p = f.take(k);
    if k > 0 {
        assert(p[0] == f[0]);
        if p.len() >= spec_header_len(spec_version_of(p[0])) {
            assert(p[1] == f[1]);
            if p[0] == STX_V2 {
                assert(p[2] == f[2]);
            }
            assert(spec_total_len(p) == spec_total_len(f));
        }
    }
}

/// Law: on a stream made of a run of garbage followed by a complete frame,
/// each decode attempt inside the garbage reports a bad start byte, so
/// advancing one byte at a time reaches the frame after exactly the length
/// of the garbage run, where it decodes whole.
pub proof fn lemma_parser_resync(g: Seq<u8>, f: Seq<u8>)
    requires
        garbage(g),
        complete_frame(f),
    ensures
        forall|i: int| 0 <= i < g.len() ==> spec_status(#[trigger] (g + f).skip(i)) is BadMagic,
        (g + f).skip(g.len() as int) == f,
        spec_status((g + f).skip(g.len() as int)) is GotFrame,
{
    let s = g + f;
    assert forall|i: int| 0 <= i < g.len() implies spec_status(#[trigger] s.skip(i)) is BadMagic by {
        assert(s.skip(i)[0] == g[i]);
    }
    assert(s.skip(g.len() as int) =~= f);
    lemma_parse_round_trip(f);
}

/// One complete MAVLink frame: a shared, immutable byte buffer holding the
/// start byte, header, payload, checksum, and (v2-only, optional) signature,
/// never mutated after construction. Its view is exactly those bytes.
#[derive(Debug)]
pub struct MavFrame {
    data: Bytes,
    version: MavVersion,
    payload_offset: usize,
    payload_len: usize,
}

impl View for MavFrame {
    type V = Seq<u8>;

    closed spec fn view(&self) -> Seq<u8> {
        bytes_view(self.data)
    }
}

impl MavFrame {
    /// The cached fields agree with the held bytes, and the held bytes are
    /// exactly one complete frame.
    #[verifier::type_invariant]
    pub closed spec fn wf(self) -> bool {
        complete_frame(self@) && self.version == spec_version_of(self@[0])
            && self.payload_offset == spec_header_len(self.version) && self.payload_len
            == spec_payload_len(self@)
    }

    /// Decode one frame from the front of `buf`. On success, the returned
    /// count says how many bytes were consumed, and the frame holds exactly
    /// those bytes. On `Incomplete` nothing is consumed and the caller should
    /// retry with more bytes; on `InvalidMagic` the caller should skip one
    /// byte and retry.
    pub fn parse(buf: &[u8]) -> (r: Result<(MavFrame, usize), ParseError>)
        ensures
            spec_status(buf@) is GotFrame ==> (r matches Ok((frame, consumed))
                && consumed == spec_total_len(buf@) && frame@ == buf@.take(spec_total_len(buf@))),
            spec_status(buf@) is NeedMore ==> r == Err::<(MavFrame, usize), ParseError>(
                ParseError::Incomplete(spec_need(buf@) as usize, buf@.len() as usize),
            ),
            spec_status(buf@) is BadMagic ==> r == Err::<(MavFrame, usize), ParseError>(
                ParseError::InvalidMagic(buf@[0]),
            ),
    {
        if buf.len() == 0 {
            return Err(ParseError::Incomplete(1, 0));
        }
        let stx = buf[0];
        if stx == STX_V1 {
            Self::parse_v1(buf)
        } else if stx == STX_V2 {
            Self::parse_v2(buf)
        } else {
            Err(ParseError::InvalidMagic(stx))
        }
    }

    fn parse_v1(buf: &[u8]) -> (r: Result<(MavFrame, usize), ParseError>)
        requires
            buf@.len() >= 1,
            buf@[0] == STX_V1,
        ensures
            spec_status(buf@) is GotFrame ==> (r matches Ok((frame, consumed))
                && consumed == spec_total_len(buf@) && frame@ == buf@.take(spec_total_len(buf@))),
            spec_status(buf@) is NeedMore ==> r == Err::<(MavFrame, usize), ParseError>(
                ParseError::Incomplete(spec_need(buf@) as usize, buf@.len() as usize),
            ),
    {
        if buf.len() < V1_HEADER_LEN {
            return Err(ParseError::Incomplete(V1_HEADER_LEN, buf.len()));
        }
        let payload_len = buf[1] as usize;
        let total_len = V1_HEADER_LEN + payload_len + CHECKSUM_LEN;
        if buf.len() < total_len {
            return Err(ParseError::Incomplete(total_len, buf.len()));
        }
        let data = bytes_copy_from_slice(slice_subrange(buf, 0, total_len));
        let frame = MavFrame {
            data,
            version: MavVersion::V1,
            payload_offset: V1_HEADER_LEN,
            payload_len,
        };
        Ok((frame, total_len))
    }

    fn parse_v2(buf: &[u8]) -> (r: Result<(MavFrame, usize), ParseError>)
        requires
            buf@.len() >= 1,
            buf@[0] == STX_V2,
        ensures
            spec_status(buf@) is GotFrame ==> (r matches Ok((frame, consumed))
                && consumed == spec_total_len(buf@) && frame@ == buf@.take(spec_total_len(buf@))),
            spec_status(buf@) is NeedMore ==> r == Err::<(MavFrame, usize), ParseError>(
                ParseError::Incomplete(spec_need(buf@) as usize, buf@.len() as usize),
            ),
    {
        if buf.len() < V2_HEADER_LEN {
            return Err(ParseError::Incomplete(V2_HEADER_LEN, buf.len()));
        }
        let payload_len = buf[1] as usize;
        let incompat_flags = buf[2];
        let signed = (incompat_flags & IFLAG_SIGNED) != 0;
        let signature_len: usize = if signed {
            SIGNATURE_LEN
        } else {
            0
        };
        let total_len = V2_HEADER_LEN + payload_len + CHECKSUM_LEN + signature_len;
        if buf.len() < total_len {
            return Err(ParseError::Incomplete(total_len, buf.len()));
        }
        let data = bytes_copy_from_slice(slice_subrange(buf, 0, total_len));
        let frame = MavFrame {
            data,
            version: MavVersion::V2,
            payload_offset: V2_HEADER_LEN,
            payload_len,
        };
        Ok((frame, total_len))
    }

    /// The protocol version of this frame.
    pub fn version(&self) -> (r: MavVersion)
        ensures
            r == spec_version_of(self@[0]),
    {
        proof {
            use_type_invariant(&*self);
        }
        self.version
    }

    /// The system id, read at its fixed offset.
    pub fn sys_id(&self) -> (r: u8)
        ensures
            r == spec_sys_id(self@),
    {
        proof {
            use_type_invariant(&*self);
        }
        match self.version {
            MavVersion::V1 => bytes_get(&self.data, 3),
            MavVersion::V2 => bytes_get(&self.data, 5),
        }
    }

    /// The component id, read at its fixed offset.
    pub fn comp_id(&self) -> (r: u8)
        ensures
            r == spec_comp_id(self@),
    {
        proof {
            use_type_invariant(&*self);
        }
        match self.version {
            MavVersion::V1 => bytes_get(&self.data, 4),
            MavVersion::V2 => bytes_get(&self.data, 6),
        }
    }

    /// The message id: one byte for v1, three little-endian bytes for v2.
    pub fn msg_id(&self) -> (r: u32)
        ensures
            r == spec_msg_id(self@),
    {
        proof {
            use_type_invariant(&*self);
        }
        match self.version {
            MavVersion::V1 => bytes_get(&self.data, 5) as u32,
            MavVersion::V2 => {
                let b0 = bytes_get(&self.data, 7) as u32;
                let b1 = bytes_get(&self.data, 8) as u32;
                let b2 = bytes_get(&self.data, 9) as u32;
                b0 | (b1 << 8) | (b2 << 16)
            },
        }
    }

    /// The sequence number, read at its fixed offset.
    pub fn sequence(&self) -> (r: u8)
        ensures
            r == spec_sequence(self@),
    {
        proof {
            use_type_invariant(&*self);
        }
        match self.version {
            MavVersion::V1 => bytes_get(&self.data, 2),
            MavVersion::V2 => bytes_get(&self.data, 4),
        }
    }

    /// The payload bytes, borrowed at their fixed offset, never copied.
    pub fn payload(&self) -> (r: &[u8])
        ensures
            r@ == spec_payload(self@),
    {
        proof {
            use_type_invariant(&*self);
        }
        let sl = bytes_as_slice(&self.data);
        slice_subrange(sl, self.payload_offset, self.payload_offset + self.payload_len)
    }

    /// The complete frame bytes, exactly as consumed from the input stream.
    pub fn as_bytes(&self) -> (r: &[u8])
        ensures
            r@ == self@,
    {
        bytes_as_slice(&self.data)
    }

    /// The whole frame length in bytes.
    pub fn len(&self) -> (r: usize)
        ensures
            r == self@.len(),
    {
        bytes_len(&self.data)
    }

    /// A shared handle on the frame bytes: a reference-count bump, not a
    /// byte copy.
    pub fn share_bytes(&self) -> (r: Bytes)
        ensures
            bytes_view(r) == self@,
    {
        crate::buf::bytes_clone(&self.data)
    }
}

} // verus!
