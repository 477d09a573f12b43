//! Append-only causal log stored as consecutive framed JSON values, and its
//! replay from the start of the stored bytes.
use crate::codec::{frame_scan, Codec, Scan};
use vstd::prelude::*;

verus! {

/// The outcome of reading a log's bytes from the start.
pub struct Replay {
    /// The JSON text of each complete entry, in append order.
    pub entries: Vec<Vec<u8>>,
    /// The offset just after the last complete entry.
    pub end: usize,
    /// Whether the bytes at `end` are corrupt rather than merely incomplete.
    pub corrupt: bool,
}

/// The entries, end offset and corruption flag of replaying `b` from `start`.
pub open spec fn replay_from(b: Seq<u8>, start: int) -> (Seq<Seq<u8>>, int, bool)
    decreases b.len() - start,
{
    if start < 0 || start > b.len() {
        (Seq::empty(), start, true)
    } else {
        match frame_scan(b.subrange(start, b.len() as int)) {
            Scan::Complete(n) => if 0 < n && start + n <= b.len() {
                let rest = replay_from(b, start + n);
                (seq![b.subrange(start, start + n)] + rest.0, rest.1, rest.2)
            } else {
                (Seq::empty(), start, true)
            },
            Scan::Incomplete => (Seq::empty(), start, false),
            Scan::Malformed => (Seq::empty(), start, true),
        }
    }
}

/// The views of a sequence of byte vectors.
pub open spec fn views(v: Seq<Vec<u8>>) -> Seq<Seq<u8>> {
    v.map_values(|x: Vec<u8>| x@)
}

impl Replay {
    /// Whether this is the outcome of replaying `b`.
    pub open spec fn replays(&self, b: Seq<u8>) -> bool {
        let r = replay_from(b, 0);
        &&& views(self.entries@) == r.0
        &&& self.end as int == r.1
        &&& self.corrupt == r.2
    }
}

/// The bytes of `parts` laid end to end.
pub open spec fn concat(parts: Seq<Seq<u8>>) -> Seq<u8>
    decreases parts.len(),
{
    if parts.len() == 0 {
        Seq::empty()
    } else {
        parts[0] + concat(parts.drop_first())
    }
}

proof fn lemma_replay_from_spells(b: Seq<u8>, start: int)
    requires
        0 <= start <= b.len(),
    ensures
        start <= replay_from(b, start).1 <= b.len(),
        concat(replay_from(b, start).0) == b.subrange(start, replay_from(b, start).1),
    decreases b.len() - start,
{
    let r = replay_from(b, start);
    match frame_scan(b.subrange(start, b.len() as int)) {
        Scan::Complete(n) => {
            if 0 < n && start + n <= b.len() {
                lemma_replay_from_spells(b, start + n);
                let rest = replay_from(b, start + n);
                let parts = seq![b.subrange(start, start + n)] + rest.0;
                assert(parts.drop_first() == rest.0);
                assert(b.subrange(start, start + n) + b.subrange(start + n, rest.1) =~= b.subrange(
                    start,
                    rest.1,
                ));
            } else {
                assert(b.subrange(start, start) =~= Seq::<u8>::empty());
            }
        },
        _ => {
            assert(b.subrange(start, start) =~= Seq::<u8>::empty());
        },
    }
}

/// Replay neither skips nor reorders bytes: its entries, laid end to end in
/// append order, are exactly the log's bytes up to the end offset it reports.
pub proof fn lemma_replay_spells_prefix(log: Seq<u8>, r: Replay)
    requires
        r.replays(log),
    ensures
        r.end <= log.len(),
        concat(views(r.entries@)) == log.subrange(0, r.end as int),
{
    lemma_replay_from_spells(log, 0);
}

/// Decodes `log` from offset 0, one value at a time, until the data ends or a
/// corrupt value is met.
pub fn replay(log: &[u8]) -> (r: Replay)
    ensures
        r.replays(log@),
{
    let mut codec: Codec<()> = Codec::new();
    let mut rest: Vec<u8> = Vec::new();
    rest.extend_from_slice(log);
    let mut entries: Vec<Vec<u8>> = Vec::new();
    let mut end: usize = 0;
    let ghost b = log@;
    assert(rest@ =~= b.subrange(0, b.len() as int));
    loop
        invariant
            b == log@,
            end <= b.len(),
            rest@ == b.subrange(end as int, b.len() as int),
            replay_from(b, 0).0 == views(entries@) + replay_from(b, end as int).0,
            replay_from(b, 0).1 == replay_from(b, end as int).1,
            replay_from(b, 0).2 == replay_from(b, end as int).2,
        decreases b.len() - end,
    {
        let ghost before = rest@;
        let ghost scanned = frame_scan(before);
        let step = codec.decode(&mut rest);
        match step {
            Ok(Some(entry)) => {
                proof {
                    let n = before.len() - rest@.len();
                    assert(scanned == Scan::Complete(n as usize));
                    assert(entry@ =~= b.subrange(end as int, end + n));
                    let tail = replay_from(b, end + n);
                    assert(rest@ =~= b.subrange(end + n, b.len() as int));
                    assert(views(entries@.push(entry)) == views(entries@).push(entry@));
                    assert(views(entries@).push(entry@) + tail.0 == views(entries@) + (seq![
                        entry@] + tail.0));
                }
                entries.push(entry);
                end = log.len() - rest.len();
            },
            Ok(None) => {
                assert(before == b.subrange(end as int, b.len() as int));
                assert(replay_from(b, end as int).0 == Seq::<Seq<u8>>::empty());
                assert(views(entries@) + Seq::empty() == views(entries@));
                return Replay { entries, end, corrupt: false };
            },
            Err(_) => {
                assert(before == b.subrange(end as int, b.len() as int));
                assert(replay_from(b, end as int).0 == Seq::<Seq<u8>>::empty());
                assert(views(entries@) + Seq::empty() == views(entries@));
                return Replay { entries, end, corrupt: true };
            },
        }
    }
}

} // verus!
