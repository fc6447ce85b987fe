//! The sparse byte buffer of one resource: a slot per offset, empty until the
//! byte at that offset has been downloaded.

use vstd::prelude::*;

verus! {

/// Every slot of the buffer holds a byte.
pub open spec fn all_set(buf: Seq<Option<u8>>) -> bool {
    forall|i: int| 0 <= i < buf.len() ==> (#[trigger] buf[i]) is Some
}

/// The slot at `pos` exists and holds a byte.
pub open spec fn is_set(buf: Seq<Option<u8>>, pos: int) -> bool {
    0 <= pos < buf.len() && buf[pos] is Some
}

/// `run` is the longest stretch of populated slots that starts at `pos`,
/// cut off at `limit` bytes.
pub open spec fn is_populated_run(buf: Seq<Option<u8>>, pos: int, limit: int, run: Seq<u8>) -> bool {
    &&& run.len() <= limit
    &&& forall|i: int|
        0 <= i < run.len() ==> pos + i < buf.len() && buf[pos + i] == Some(#[trigger] run[i])
    &&& (run.len() == limit || !is_set(buf, pos + run.len()))
}

/// The buffer after `data` has arrived for the offsets from `pos` on: it grows
/// to hold them, empty slots in that range take the new bytes, and a slot that
/// already held a byte keeps it.
pub open spec fn written(buf: Seq<Option<u8>>, pos: int, data: Seq<u8>) -> Seq<Option<u8>> {
    let len = if data.len() > 0 && pos + data.len() > buf.len() {
        pos + data.len()
    } else {
        buf.len() as int
    };
    Seq::new(
        len as nat,
        |i: int|
            if i < buf.len() && buf[i] is Some {
                buf[i]
            } else if pos <= i < pos + data.len() {
                Some(data[i - pos])
            } else {
                None
            },
    )
}

/// Some offset that `data` covers, placed at `pos`, already held a byte.
pub open spec fn overlaps(buf: Seq<Option<u8>>, pos: int, data: Seq<u8>) -> bool {
    exists|j: int| pos <= j < pos + data.len() && #[trigger] is_set(buf, j)
}

/// The bytes of the populated slots, in order of offset.
pub open spec fn populated(buf: Seq<Option<u8>>) -> Seq<u8>
    decreases buf.len(),
{
    if buf.len() == 0 {
        Seq::empty()
    } else {
        let head = populated(buf.drop_last());
        match buf.last() {
            Some(b) => head.push(b),
            None => head,
        }
    }
}

/// A buffer of `n` empty slots.
pub open spec fn blank(n: nat) -> Seq<Option<u8>> {
    Seq::new(n, |i: int| None)
}

/// A buffer that holds exactly `data`.
pub open spec fn filled(data: Seq<u8>) -> Seq<Option<u8>> {
    Seq::new(data.len(), |i: int| Some(data[i]))
}

/// Of a fully populated buffer, `populated` is the buffer's bytes one for one.
pub proof fn lemma_populated_of_complete(buf: Seq<Option<u8>>)
    requires
        all_set(buf),
    ensures
        populated(buf).len() == buf.len(),
        forall|i: int| 0 <= i < buf.len() ==> buf[i] == Some(#[trigger] populated(buf)[i]),
    decreases buf.len(),
{
    if buf.len() > 0 {
        lemma_populated_of_complete(buf.drop_last());
    }
}

/// A buffer made from `data` is complete and gives `data` back.
pub proof fn lemma_filled_round_trip(data: Seq<u8>)
    ensures
        all_set(filled(data)),
        populated(filled(data)) == data,
{
    lemma_populated_of_complete(filled(data));
}

/// Writing never empties or changes a populated slot, and never shrinks the
/// buffer.
pub proof fn lemma_written_keeps(buf: Seq<Option<u8>>, pos: int, data: Seq<u8>)
    requires
        0 <= pos,
    ensures
        written(buf, pos, data).len() >= buf.len(),
        data.len() > 0 ==> written(buf, pos, data).len() >= pos + data.len(),
        forall|i: int| is_set(buf, i) ==> written(buf, pos, data)[i] == #[trigger] buf[i],
        forall|i: int| pos <= i < pos + data.len() ==> #[trigger] is_set(written(buf, pos, data), i),
{
}

/// A buffer of `n` empty slots.
pub fn make_blank(n: usize) -> (buf: Vec<Option<u8>>)
    ensures
        buf@ == blank(n as nat),
{
    let mut buf: Vec<Option<u8>> = Vec::new();
    let mut i: usize = 0;
    while i < n
        invariant
            i <= n,
            buf@ == blank(i as nat),
        decreases n - i,
    {
        buf.push(None);
        i += 1;
    }
    buf
}

/// A buffer that holds exactly `data`.
pub fn make_filled(data: &Vec<u8>) -> (buf: Vec<Option<u8>>)
    ensures
        buf@ == filled(data@),
{
    let mut buf: Vec<Option<u8>> = Vec::new();
    let mut i: usize = 0;
    while i < data.len()
        invariant
            i <= data.len(),
            buf@ == filled(data@.take(i as int)),
        decreases data.len() - i,
    {
        buf.push(Some(data[i]));
        i += 1;
    }
    buf
}

/// Whether every slot holds a byte.
pub fn check_all_set(buf: &Vec<Option<u8>>) -> (complete: bool)
    ensures
        complete == all_set(buf@),
{
    let mut i: usize = 0;
    while i < buf.len()
        invariant
            i <= buf.len(),
            forall|j: int| 0 <= j < i ==> (#[trigger] buf@[j]) is Some,
        decreases buf.len() - i,
    {
        if buf[i].is_none() {
            return false;
        }
        i += 1;
    }
    true
}

/// The bytes of the populated slots, in order of offset.
pub fn collect_populated(buf: &Vec<Option<u8>>) -> (bytes: Vec<u8>)
    ensures
        bytes@ == populated(buf@),
{
    let mut bytes: Vec<u8> = Vec::new();
    let mut i: usize = 0;
    while i < buf.len()
        invariant
            i <= buf.len(),
            bytes@ == populated(buf@.take(i as int)),
        decreases buf.len() - i,
    {
        assert(buf@.take(i + 1).drop_last() =~= buf@.take(i as int));
        if let Some(b) = buf[i] {
            bytes.push(b);
        }
        i += 1;
    }
    assert(buf@.take(i as int) =~= buf@);
    bytes
}

/// The longest populated run from `pos`, at most `limit` bytes long.
pub fn read_run(buf: &Vec<Option<u8>>, pos: usize, limit: usize) -> (run: Vec<u8>)
    ensures
        is_populated_run(buf@, pos as int, limit as int, run@),
{
    let mut run: Vec<u8> = Vec::new();
    if pos >= buf.len() {
        return run;
    }
    let mut i: usize = pos;
    while i < buf.len() && run.len() < limit
        invariant
            pos <= i <= buf.len(),
            run.len() == i - pos,
            run.len() <= limit,
            forall|k: int| 0 <= k < run.len() ==> buf@[pos + k] == Some(#[trigger] run@[k]),
        decreases buf.len() - i,
    {
        match buf[i] {
            Some(b) => {
                run.push(b);
            },
            None => {
                return run;
            },
        }
        i += 1;
    }
    run
}

/// Stores `data` at the offsets from `pos` on, and says whether any of them
/// already held a byte.
pub fn write_at(buf: &mut Vec<Option<u8>>, pos: usize, data: &Vec<u8>) -> (overlap: bool)
    requires
        pos + data.len() <= usize::MAX,
    ensures
        final(buf)@ == written(old(buf)@, pos as int, data@),
        overlap == overlaps(old(buf)@, pos as int, data@),
{
    if data.len() == 0 {
        return false;
    }
    let end: usize = pos + data.len();
    while buf.len() < end
        invariant
            buf.len() >= old(buf).len(),
            buf.len() <= end || buf.len() == old(buf).len(),
            forall|j: int| 0 <= j < old(buf).len() ==> buf@[j] == old(buf)@[j],
            forall|j: int| old(buf).len() <= j < buf.len() ==> (#[trigger] buf@[j]) is None,
        decreases end - buf.len(),
    {
        buf.push(None);
    }
    let mut overlap = false;
    let mut i: usize = 0;
    while i < data.len()
        invariant
            i <= data.len(),
            end == pos + data.len(),
            buf.len() == written(old(buf)@, pos as int, data@).len(),
            buf.len() >= end,
            forall|j: int| 0 <= j < pos + i ==> buf@[j] == written(old(buf)@, pos as int, data@)[j],
            forall|j: int| pos + i <= j < buf.len() ==> buf@[j] == (if j < old(buf).len() {
                old(buf)@[j]
            } else {
                None
            }),
            overlap == overlaps(old(buf)@, pos as int, data@.take(i as int)),
        decreases data.len() - i,
    {
        let ghost seen = data@.take(i as int);
        let ghost next = data@.take(i + 1);
        if buf[pos + i].is_some() {
            assert(is_set(old(buf)@, pos + i));
            overlap = true;
        } else {
            buf.set(pos + i, Some(data[i]));
            assert forall|j: int| pos <= j < pos + next.len() && is_set(old(buf)@, j) implies pos
                <= j < pos + seen.len() by {}
        }
        i += 1;
    }
    overlap
}

} // verus!
