//! Draining a growing byte stream: repeatedly decode frames from the front
//! of a read buffer, skipping one byte on a bad start byte and stopping when
//! only a frame prefix is left. Every ingest loop — TCP socket, serial port,
//! and the discovery sniffer — advances its buffer this way.

use crate::mavlink::{spec_status, spec_total_len, MavFrame, ParseError};
use vstd::prelude::*;
use vstd::slice::slice_subrange;

verus! {

/// What draining `s` yields: the decoded frames in stream order, and how
/// many leading bytes are consumed. Garbage bytes are consumed one at a
/// time; a trailing frame prefix is left unconsumed for the next read.
pub open spec fn spec_drain(s: Seq<u8>) -> (Seq<Seq<u8>>, int)
    decreases s.len(),
{
    if s.len() == 0 {
        (Seq::<Seq<u8>>::empty(), 0)
    } else if spec_status(s) is BadMagic {
        let r = spec_drain(s.skip(1));
        (r.0, r.1 + 1)
    } else if spec_status(s) is NeedMore {
        (Seq::<Seq<u8>>::empty(), 0)
    } else {
        let t = spec_total_len(s);
        let r = spec_drain(s.skip(t));
        (seq![s.take(t)] + r.0, r.1 + t)
    }
}

/// Whether sniffing `s` detects MAVLink traffic, and how many leading
/// garbage bytes are consumed before the answer: detection stops at the
/// first complete frame; a frame prefix means the answer is not yet known.
pub open spec fn spec_sniff(s: Seq<u8>) -> (bool, int)
    decreases s.len(),
{
    if s.len() == 0 {
        (false, 0)
    } else if spec_status(s) is BadMagic {
        let r = spec_sniff(s.skip(1));
        (r.0, r.1 + 1)
    } else if spec_status(s) is NeedMore {
        (false, 0)
    } else {
        (true, 0)
    }
}

/// Law: draining a stream that starts with a complete frame yields that
/// frame first, byte-identical, and then whatever the rest yields.
pub proof fn lemma_drain_frame_prefix(f: Seq<u8>, rest: Seq<u8>)
    requires
        crate::mavlink::complete_frame(f),
    ensures
        spec_drain(f + rest).0 == seq![f] + spec_drain(rest).0,
        spec_drain(f + rest).1 == f.len() + spec_drain(rest).1,
{
    let s = f + rest;
    assert(s[0] == f[0]);
    assert(s[1] == f[1]);
    if f[0] == crate::mavlink::STX_V2 {
        assert(s[2] == f[2]);
    }
    assert(spec_total_len(s) == spec_total_len(f));
    assert(spec_status(s) is GotFrame);
    assert(s.take(f.len() as int) =~= f);
    assert(s.skip(f.len() as int) =~= rest);
    assert(spec_drain(s).0 =~= seq![f] + spec_drain(rest).0);
}

/// Law: a run of garbage in front of a stream changes nothing but the
/// consumed count — every frame behind it still comes out, in order.
pub proof fn lemma_drain_garbage_prefix(g: Seq<u8>, rest: Seq<u8>)
    requires
        crate::mavlink::garbage(g),
    ensures
        spec_drain(g + rest).0 == spec_drain(rest).0,
        spec_drain(g + rest).1 == g.len() + spec_drain(rest).1,
    decreases g.len(),
{
    if g.len() == 0 {
        assert(g + rest =~= rest);
    } else {
        let s = g + rest;
        assert(s[0] == g[0]);
        assert(spec_status(s) is BadMagic);
        assert(s.skip(1) =~= g.skip(1) + rest);
        assert forall|i: int|
            0 <= i < g.skip(1).len() implies !crate::mavlink::valid_stx(
            #[trigger] g.skip(1)[i],
        ) by {
            assert(g.skip(1)[i] == g[i + 1]);
        }
        lemma_drain_garbage_prefix(g.skip(1), rest);
    }
}

/// Law: a sniffer fed a run of garbage followed by a complete frame reports
/// detection, after discarding exactly the garbage run.
pub proof fn lemma_sniff_detects(g: Seq<u8>, f: Seq<u8>)
    requires
        crate::mavlink::garbage(g),
        crate::mavlink::complete_frame(f),
    ensures
        spec_sniff(g + f).0 == true,
        spec_sniff(g + f).1 == g.len(),
    decreases g.len(),
{
    let s = g + f;
    if g.len() == 0 {
        assert(s =~= f);
        crate::mavlink::lemma_parse_round_trip(f);
    } else {
        assert(s[0] == g[0]);
        assert(spec_status(s) is BadMagic);
        assert(s.skip(1) =~= g.skip(1) + f);
        lemma_sniff_detects(g.skip(1), f);
    }
}

/// Decode every complete frame at the front of `buf`, in stream order.
/// Returns the frames and the number of bytes consumed; the caller advances
/// its buffer by that count and retries after the next read.
pub fn extract_frames(buf: &[u8]) -> (r: (Vec<MavFrame>, usize))
    ensures
        r.1 == spec_drain(buf@).1,
        r.0@.len() == spec_drain(buf@).0.len(),
        forall|i: int| 0 <= i < r.0@.len() ==> #[trigger] r.0@[i]@ == spec_drain(buf@).0[i],
{
    let ghost whole = spec_drain(buf@);
    let mut frames: Vec<MavFrame> = Vec::new();
    let mut pos: usize = 0;
    proof {
        assert(buf@.skip(0) =~= buf@);
    }
    loop
        invariant
            pos <= buf@.len(),
            whole == spec_drain(buf@),
            whole.1 == pos + spec_drain(buf@.skip(pos as int)).1,
            frames@.len() + spec_drain(buf@.skip(pos as int)).0.len() == whole.0.len(),
            forall|i: int| 0 <= i < frames@.len() ==> #[trigger] frames@[i]@ == whole.0[i],
            forall|i: int|
                0 <= i < spec_drain(buf@.skip(pos as int)).0.len() ==> #[trigger] spec_drain(
                    buf@.skip(pos as int),
                ).0[i] == whole.0[frames@.len() + i],
        ensures
            pos <= buf@.len(),
            frames@.len() == whole.0.len(),
            forall|i: int| 0 <= i < frames@.len() ==> #[trigger] frames@[i]@ == whole.0[i],
            pos == whole.1,
        decreases buf@.len() - pos,
    {
        let ghost rest = buf@.skip(pos as int);
        if pos == buf.len() {
            proof {
                assert(rest =~= Seq::<u8>::empty());
                assert(spec_drain(rest).1 == 0);
            }
            break ;
        }
        let tail = slice_subrange(buf, pos, buf.len());
        assert(tail@ == rest);
        match MavFrame::parse(tail) {
            Ok((frame, consumed)) => {
                proof {
                    let t = spec_total_len(rest);
                    assert(spec_drain(rest).0 == seq![rest.take(t)] + spec_drain(rest.skip(t)).0);
                    assert(spec_drain(rest).0[0] == rest.take(t));
                    assert(forall|i: int|
                        0 <= i < spec_drain(rest.skip(t)).0.len() ==> #[trigger] spec_drain(
                            rest.skip(t),
                        ).0[i] == spec_drain(rest).0[i + 1]);
                    assert(rest.skip(t) =~= buf@.skip(pos + t));
                }
                frames.push(frame);
                pos = pos + consumed;
            },
            Err(ParseError::Incomplete(_, _)) => {
                proof {
                    assert(spec_status(rest) is NeedMore);
                    assert(spec_drain(rest).1 == 0);
                }
                break ;
            },
            Err(_) => {
                proof {
                    assert(rest.skip(1) =~= buf@.skip(pos + 1));
                }
                pos = pos + 1;
            },
        }
    }
    (frames, pos)
}

/// Sniff `buf` for MAVLink traffic: report detection as soon as one
/// complete frame decodes, else how many leading garbage bytes to discard
/// before waiting for more data.
pub fn detect_frame(buf: &[u8]) -> (r: (bool, usize))
    ensures
        r.0 == spec_sniff(buf@).0,
        r.1 == spec_sniff(buf@).1,
{
    let mut pos: usize = 0;
    proof {
        assert(buf@.skip(0) =~= buf@);
    }
    loop
        invariant
            pos <= buf@.len(),
            spec_sniff(buf@).0 == spec_sniff(buf@.skip(pos as int)).0,
            spec_sniff(buf@).1 == pos + spec_sniff(buf@.skip(pos as int)).1,
        decreases buf@.len() - pos,
    {
        let ghost rest = buf@.skip(pos as int);
        if pos == buf.len() {
            return (false, pos);
        }
        let tail = slice_subrange(buf, pos, buf.len());
        assert(tail@ == rest);
        match MavFrame::parse(tail) {
            Ok(_) => {
                return (true, pos);
            },
            Err(ParseError::Incomplete(_, _)) => {
                return (false, pos);
            },
            Err(_) => {
                proof {
                    assert(rest.skip(1) =~= buf@.skip(pos + 1));
                }
                pos = pos + 1;
            },
        }
    }
}

} // verus!
