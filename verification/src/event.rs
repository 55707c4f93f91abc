//! Decoding of the kernel's packed inotify event records.
//!
//! A read from an inotify instance delivers one or more records back to
//! back: a fixed 16-byte header — watch identifier, event mask, rename
//! cookie, name length, each a little-endian 32-bit value — followed by
//! `name length` bytes holding the file name padded with trailing NUL
//! bytes. The decoder walks the buffer record by record, validates every
//! declared length against the bytes actually present, and strips the NUL
//! padding from each name, so no decoded event ever reaches past its
//! buffer.

use vstd::prelude::*;
use crate::errors::Error;
use crate::flags::IN_ALL_KNOWN;
use crate::flags::InotifyEventMask;
use crate::inotify::WatchFd;

verus! {

broadcast use vstd::std_specs::vec::axiom_spec_len;

/// Mathematical model of one decoded event record.
pub ghost struct EventSpec {
    /// The raw identifier of the watch that produced the event.
    pub wd: i32,
    /// The raw event-type bits.
    pub mask: u32,
    /// The cookie correlating the two halves of a rename.
    pub cookie: u32,
    /// The name bytes, trailing NUL padding stripped.
    pub name: Seq<u8>,
}

/// The little-endian 32-bit value whose four bytes sit at offset `i` of `b`.
pub open spec fn le_u32_at(b: Seq<u8>, i: int) -> u32
    recommends
        0 <= i,
        i + 4 <= b.len(),
{
    (b[i] + b[i + 1] * 0x100 + b[i + 2] * 0x10000 + b[i + 3] * 0x1000000) as u32
}

/// `s` with its trailing NUL bytes removed.
pub open spec fn strip_nul(s: Seq<u8>) -> Seq<u8>
    decreases s.len(),
{
    if s.len() > 0 && s[s.len() - 1] == 0 {
        strip_nul(s.drop_last())
    } else {
        s
    }
}

/// The event described by the record at the head of `b`.
pub open spec fn head_event(b: Seq<u8>) -> EventSpec
    recommends
        16 + le_u32_at(b, 12) <= b.len(),
{
    EventSpec {
        wd: le_u32_at(b, 0) as i32,
        mask: le_u32_at(b, 4),
        cookie: le_u32_at(b, 8),
        name: strip_nul(b.subrange(16, 16 + le_u32_at(b, 12) as int)),
    }
}

/// Parses a buffer of back-to-back event records into the events it holds,
/// in buffer order. `None` where the buffer is inconsistent: a trailing
/// fragment shorter than one header, or a declared name length that exceeds
/// the bytes actually present.
pub open spec fn parse_events(b: Seq<u8>) -> Option<Seq<EventSpec>>
    decreases b.len(),
{
    if b.len() == 0 {
        Some(Seq::empty())
    } else if b.len() < 16 {
        None
    } else if 16 + le_u32_at(b, 12) > b.len() {
        None
    } else {
        match parse_events(b.skip(16 + le_u32_at(b, 12) as int)) {
            Some(tail) => Some(seq![head_event(b)] + tail),
            None => None,
        }
    }
}

/// The models of a sequence of decoded events.
pub open spec fn views_of(v: Seq<InotifyEvent>) -> Seq<EventSpec> {
    v.map_values(|e: InotifyEvent| e@)
}

/// One decoded inotify event. It owns its name bytes: nothing in it borrows
/// the buffer it was decoded from.
#[derive(Debug)]
pub struct InotifyEvent {
    wd: i32,
    mask: u32,
    cookie: u32,
    name: Vec<u8>,
}

impl View for InotifyEvent {
    type V = EventSpec;

    closed spec fn view(&self) -> EventSpec {
        EventSpec { wd: self.wd, mask: self.mask, cookie: self.cookie, name: self.name@ }
    }
}

impl InotifyEvent {
    /// The identifier of the watch that produced the event.
    pub fn wd(&self) -> (r: WatchFd)
        ensures
            r.0 == self@.wd,
    {
        WatchFd(self.wd)
    }

    /// The event-type set, unknown bits dropped.
    pub fn mask(&self) -> (r: InotifyEventMask)
        ensures
            r@ == self@.mask & IN_ALL_KNOWN,
    {
        InotifyEventMask::from_bits_truncate(self.mask)
    }

    /// The raw event-type bits, kept as the kernel sent them.
    pub fn raw_mask(&self) -> (r: u32)
        ensures
            r == self@.mask,
    {
        self.mask
    }

    /// The cookie correlating the two halves of a rename; zero elsewhere.
    pub fn cookie(&self) -> (r: u32)
        ensures
            r == self@.cookie,
    {
        self.cookie
    }

    /// The file name the event concerns, trailing NUL padding stripped;
    /// empty for events on the watched path itself.
    pub fn filename(&self) -> (r: &Vec<u8>)
        ensures
            r@ == self@.name,
    {
        &self.name
    }
}

fn read_le_u32(buf: &Vec<u8>, i: usize) -> (r: u32)
    requires
        i + 4 <= buf@.len(),
    ensures
        r == le_u32_at(buf@, i as int),
{
    assert(i + 4 <= buf.len());
    let b0: u32 = buf[i] as u32;
    let b1: u32 = buf[i + 1] as u32;
    let b2: u32 = buf[i + 2] as u32;
    let b3: u32 = buf[i + 3] as u32;
    b0 + b1 * 0x100 + b2 * 0x10000 + b3 * 0x1000000
}

proof fn lemma_strip_nul_take(s: Seq<u8>, e: int)
    requires
        0 <= e <= s.len(),
        forall|k: int| e <= k < s.len() ==> s[k] == 0,
        e == 0 || s[e - 1] != 0,
    ensures
        strip_nul(s) == s.take(e),
    decreases s.len(),
{
    if e == s.len() {
        assert(s.take(e) =~= s);
    } else {
        assert(s[s.len() - 1] == 0);
        lemma_strip_nul_take(s.drop_last(), e);
        assert(s.drop_last().take(e) =~= s.take(e));
    }
}

/// Law: stripping NUL padding never lengthens the name.
pub proof fn lemma_strip_nul_len(s: Seq<u8>)
    ensures
        strip_nul(s).len() <= s.len(),
    decreases s.len(),
{
    if s.len() > 0 && s[s.len() - 1] == 0 {
        lemma_strip_nul_len(s.drop_last());
    }
}

/// Law: a buffer holding exactly one record — a header and its declared
/// name bytes, nothing more — decodes to a sequence of length one holding
/// that record's event.
pub proof fn lemma_parse_single_record(b: Seq<u8>)
    requires
        b.len() >= 16,
        16 + le_u32_at(b, 12) == b.len(),
    ensures
        parse_events(b) == Some(seq![head_event(b)]),
{
    let nlen = le_u32_at(b, 12) as int;
    assert(b.skip(16 + nlen) =~= Seq::<u8>::empty());
    assert(parse_events(b.skip(16 + nlen)) == Some(Seq::<EventSpec>::empty()));
    assert(seq![head_event(b)] + Seq::<EventSpec>::empty() =~= seq![head_event(b)]);
}

/// Law: a buffer holding exactly one record whose declared name length is
/// zero decodes to a sequence of length one, whose event carries the
/// header's fields and an empty name.
pub proof fn lemma_parse_single_header(b: Seq<u8>)
    requires
        b.len() == 16,
        le_u32_at(b, 12) == 0,
    ensures
        parse_events(b) == Some(seq![head_event(b)]),
        head_event(b).name == Seq::<u8>::empty(),
{
    lemma_parse_single_record(b);
    assert(b.subrange(16, 16) =~= Seq::<u8>::empty());
}

/// Law: decoding is compositional. Where two buffers each decode, their
/// concatenation decodes to the two event sequences in file order — so a
/// buffer of several records yields each record's event, in order.
pub proof fn lemma_parse_concat(a: Seq<u8>, b: Seq<u8>)
    requires
        parse_events(a) is Some,
        parse_events(b) is Some,
    ensures
        parse_events(a + b) == Some(parse_events(a)->Some_0 + parse_events(b)->Some_0),
    decreases a.len(),
{
    if a.len() == 0 {
        assert(a + b =~= b);
        assert(parse_events(a)->Some_0 + parse_events(b)->Some_0 =~= parse_events(b)->Some_0);
    } else {
        let nlen = le_u32_at(a, 12) as int;
        let c = a + b;
        assert(le_u32_at(c, 0) == le_u32_at(a, 0));
        assert(le_u32_at(c, 4) == le_u32_at(a, 4));
        assert(le_u32_at(c, 8) == le_u32_at(a, 8));
        assert(le_u32_at(c, 12) == le_u32_at(a, 12));
        assert(c.subrange(16, 16 + nlen) =~= a.subrange(16, 16 + nlen));
        assert(head_event(c) == head_event(a));
        assert(c.skip(16 + nlen) =~= a.skip(16 + nlen) + b);
        lemma_parse_concat(a.skip(16 + nlen), b);
        let ta = parse_events(a.skip(16 + nlen))->Some_0;
        let tb = parse_events(b)->Some_0;
        assert(seq![head_event(a)] + (ta + tb) =~= (seq![head_event(a)] + ta) + tb);
    }
}

/// Law: decoded name bounds never exceed the buffer. Every event of a
/// decoded buffer has a name strictly shorter than the buffer, with room
/// for its own header.
pub proof fn lemma_parse_name_bounds(b: Seq<u8>)
    requires
        parse_events(b) is Some,
    ensures
        forall|i: int|
            0 <= i < parse_events(b)->Some_0.len() ==> (#[trigger] parse_events(
                b,
            )->Some_0[i]).name.len() + 16 <= b.len(),
    decreases b.len(),
{
    if b.len() == 0 {
    } else {
        let nlen = le_u32_at(b, 12) as int;
        let rest = b.skip(16 + nlen);
        lemma_parse_name_bounds(rest);
        lemma_strip_nul_len(b.subrange(16, 16 + nlen));
        let s = parse_events(b)->Some_0;
        let tail = parse_events(rest)->Some_0;
        assert(s == seq![head_event(b)] + tail);
        assert forall|i: int| 0 <= i < s.len() implies (#[trigger] s[i]).name.len() + 16
            <= b.len() by {
            if i == 0 {
                assert(s[0] == head_event(b));
            } else {
                assert(s[i] == tail[i - 1]);
            }
        }
    }
}

/// Decodes a buffer of back-to-back event records, in buffer order. The
/// result is exactly what [`parse_events`] says of the buffer's bytes:
/// every event and every sliced name bound comes from a validated header,
/// and an inconsistent buffer yields `Decoding` rather than a truncated
/// read past the bytes present.
#[verifier::loop_isolation(false)]
#[verifier::rlimit(60)]
pub fn decode_events(buf: &Vec<u8>) -> (r: Result<Vec<InotifyEvent>, Error>)
    ensures
        r matches Ok(v) ==> parse_events(buf@) == Some(views_of(v@)),
        r matches Err(e) ==> parse_events(buf@) is None && e == Error::Decoding,
{
    let blen: usize = buf.len();
    let mut off: usize = 0;
    let mut out: Vec<InotifyEvent> = Vec::new();
    proof {
        assert(buf@.skip(0) =~= buf@);
        assert(views_of(out@) =~= Seq::<EventSpec>::empty());
        if parse_events(buf@) is Some {
            assert(views_of(out@) + parse_events(buf@)->Some_0 =~= parse_events(buf@)->Some_0);
        }
    }
    while off < blen
        invariant
            off <= buf@.len(),
            parse_events(buf@) == (match parse_events(buf@.skip(off as int)) {
                Some(tail) => Some(views_of(out@) + tail),
                None => None::<Seq<EventSpec>>,
            }),
        decreases buf@.len() - off,
    {
        let ghost s: Seq<u8> = buf@.skip(off as int);
        proof {
            assert(s.len() == buf@.len() - off);
        }
        let remaining: usize = blen - off;
        if remaining < 16 {
            return Err(Error::Decoding);
        }
        let wd_u: u32 = read_le_u32(buf, off);
        let mask: u32 = read_le_u32(buf, off + 4);
        let cookie: u32 = read_le_u32(buf, off + 8);
        let nlen_u: u32 = read_le_u32(buf, off + 12);
        proof {
            assert(le_u32_at(s, 0) == le_u32_at(buf@, off as int));
            assert(le_u32_at(s, 4) == le_u32_at(buf@, off as int + 4));
            assert(le_u32_at(s, 8) == le_u32_at(buf@, off as int + 8));
            assert(le_u32_at(s, 12) == le_u32_at(buf@, off as int + 12));
        }
        if nlen_u as usize > remaining - 16 {
            proof {
                assert(16 + le_u32_at(s, 12) > s.len());
                assert(parse_events(s) is None);
            }
            return Err(Error::Decoding);
        }
        let nlen: usize = nlen_u as usize;
        let mut end: usize = nlen;
        while end > 0 && buf[off + 16 + end - 1] == 0
            invariant
                end <= nlen,
                off + 16 + nlen <= buf@.len(),
                forall|k: int| end <= k < nlen ==> #[trigger] buf@[off + 16 + k] == 0,
            decreases end,
        {
            end = end - 1;
        }
        let mut name: Vec<u8> = Vec::new();
        let mut j: usize = 0;
        while j < end
            invariant
                j <= end,
                end <= nlen,
                off + 16 + nlen <= buf@.len(),
                name@ == buf@.subrange(off as int + 16, off as int + 16 + j as int),
            decreases end - j,
        {
            name.push(buf[off + 16 + j]);
            j = j + 1;
            proof {
                assert(name@ =~= buf@.subrange(off as int + 16, off as int + 16 + j as int));
            }
        }
        let ev = InotifyEvent {
            wd: #[verifier::truncate] (wd_u as i32),
            mask: mask,
            cookie: cookie,
            name: name,
        };
        proof {
            let nseq = buf@.subrange(off as int + 16, off as int + 16 + nlen as int);
            assert(nseq =~= s.subrange(16, 16 + nlen as int));
            assert forall|k: int| end <= k < nseq.len() implies nseq[k] == 0 by {
                assert(nseq[k] == buf@[off + 16 + k]);
            }
            if end > 0 {
                assert(nseq[end - 1] == buf@[off + 16 + (end - 1)]);
            }
            lemma_strip_nul_take(nseq, end as int);
            assert(name@ =~= nseq.take(end as int));
            assert(ev@.name == strip_nul(nseq));
            assert(ev@ == head_event(s));
        }
        let ghost out_before: Seq<InotifyEvent> = out@;
        out.push(ev);
        let new_off: usize = off + 16 + nlen;
        proof {
            let s2 = buf@.skip(new_off as int);
            assert(s2 =~= s.skip(16 + nlen as int));
            assert(parse_events(s) == (match parse_events(s2) {
                Some(tail) => Some(seq![head_event(s)] + tail),
                None => None::<Seq<EventSpec>>,
            }));
            assert(views_of(out@) =~= views_of(out_before).push(ev@));
            if parse_events(s2) is Some {
                let tail = parse_events(s2)->Some_0;
                assert(views_of(out_before) + (seq![head_event(s)] + tail) =~= views_of(
                    out@,
                ) + tail);
            }
        }
        off = new_off;
    }
    proof {
        assert(buf@.skip(off as int) =~= Seq::<u8>::empty());
        assert(parse_events(Seq::<u8>::empty()) == Some(Seq::<EventSpec>::empty()));
        assert(views_of(out@) + Seq::<EventSpec>::empty() =~= views_of(out@));
    }
    Ok(out)
}

} // verus!

