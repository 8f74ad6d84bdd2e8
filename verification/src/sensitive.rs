//! Zeroizing storage for short-lived sensitive responses.
//!
//! The buffer owns its UTF-8 bytes in a `zeroize::Zeroizing` guard, so they
//! are zeroized when it is dropped, and every allocation it supersedes
//! (on replacement, clearing or an explicit discard) is zeroized and reported
//! to its [`WipeObserver`] before it is released.

use crate::outside::{guard_new, guard_replace, guard_slice, guarded_bytes, utf8_str, zeroize_bytes, GuardedBytes};
use crate::text::lemma_prefix_is_char_boundary;
use crate::text::lemma_encode_utf8_concat;
use std::ops::Range;
use vstd::prelude::*;
use vstd::string::StringSliceAdditionalSpecFns;
use vstd::utf8::*;

verus! {

/// What a wipe observed: the length of the superseded buffer and whether
/// every byte left in it afterwards is zero.
#[derive(Clone, Copy, Debug, PartialEq, Eq, Structural)]
pub struct WipeRecord {
    pub len: usize,
    pub all_zero: bool,
}

/// Receives a record of every wipe a sensitive buffer performs.
pub trait WipeObserver {
    fn observe_wipe(&self, record: WipeRecord);
}

/// The observer that ignores every wipe.
impl WipeObserver for () {
    fn observe_wipe(&self, record: WipeRecord) {
    }
}

/// The record of wiping `bytes`: their length, and every byte left zero.
pub open spec fn wiped(bytes: Seq<u8>) -> WipeRecord {
    WipeRecord { len: bytes.len() as usize, all_zero: true }
}

/// Zeroizes `bytes`, reports the wipe to `observer`, appends its record to
/// `log` and returns the record.
fn wipe<O: WipeObserver>(bytes: &mut Vec<u8>, observer: &O, log: &mut Ghost<Seq<WipeRecord>>) -> (record:
    WipeRecord)
    ensures
        final(bytes)@ == Seq::<u8>::empty(),
        record == wiped(old(bytes)@),
        final(log)@ == old(log)@.push(record),
{
    let len = bytes.len();
    zeroize_bytes(bytes);
    let mut all_zero = true;
    let mut i: usize = 0;
    while i < bytes.len()
        invariant
            bytes@.len() == 0,
            i <= bytes@.len(),
            all_zero == (forall|j: int| 0 <= j < i ==> bytes@[j] == 0),
        decreases bytes.len() - i,
    {
        if bytes[i] != 0 {
            all_zero = false;
        }
        i = i + 1;
    }
    let record = WipeRecord { len, all_zero };
    observer.observe_wipe(record);
    proof {
        log@ = log@.push(record);
    }
    record
}

/// The two halves of valid UTF-8 around a character boundary, and the
/// boundary left between two valid UTF-8 pieces once they are joined.
proof fn lemma_join_valid_utf8(a: Seq<u8>, b: Seq<u8>)
    requires
        valid_utf8(a),
        valid_utf8(b),
    ensures
        valid_utf8(a + b),
        is_char_boundary(a + b, a.len() as int),
{
    broadcast use encode_utf8_valid_utf8, decode_utf8_encode_utf8, valid_utf8_concat;

    let ca = decode_utf8(a);
    let cb = decode_utf8(b);
    lemma_encode_utf8_concat(ca, cb);
    assert((ca + cb).take(ca.len() as int) =~= ca);
    lemma_prefix_is_char_boundary(ca + cb, ca.len() as int);
}

/// The bytes of `bytes` with the half-open span from `start` to `end` replaced
/// by `text` (when `end < start` the bytes between them appear twice).
pub open spec fn spliced(bytes: Seq<u8>, start: int, end: int, text: Seq<u8>) -> Seq<u8> {
    bytes.take(start) + text + bytes.skip(end)
}

/// Builds the spliced bytes in a fresh vector.
fn splice_bytes(current: &[u8], start: usize, end: usize, text: &[u8]) -> (successor: Vec<u8>)
    requires
        start <= current@.len(),
        end <= current@.len(),
        start + text@.len() + (current@.len() - end) <= usize::MAX,
    ensures
        successor@ == spliced(current@, start as int, end as int, text@),
{
    let removed: usize = if end >= start {
        end - start
    } else {
        0
    };
    let mut successor: Vec<u8> = Vec::with_capacity(current.len() - removed + text.len());
    successor.extend_from_slice(&current[0..start]);
    successor.extend_from_slice(text);
    successor.extend_from_slice(&current[end..current.len()]);
    assert(successor@ =~= spliced(current@, start as int, end as int, text@));
    successor
}

/// An owned, zeroizing UTF-8 buffer.
pub struct SensitiveBuffer<O: WipeObserver> {
    bytes: GuardedBytes,
    observer: O,
    wipes: Ghost<Seq<WipeRecord>>,
}

/// An owned sensitive value moved out of a [`SensitiveBuffer`].
///
/// Its bytes are zeroized when it is dropped; [`SensitiveValue::into_bytes`]
/// hands them to another owner without creating a `String`.
pub struct SensitiveValue<O: WipeObserver> {
    bytes: GuardedBytes,
    observer: O,
    wipes: Ghost<Seq<WipeRecord>>,
}

impl Default for SensitiveBuffer<()> {
    fn default() -> (buffer: Self)
        ensures
            buffer.wf(),
            buffer.view_bytes() == Seq::<u8>::empty(),
            buffer.wipes() == Seq::<WipeRecord>::empty(),
    {
        SensitiveBuffer { bytes: guard_new(Vec::new()), observer: (), wipes: Ghost(Seq::empty()) }
    }
}

impl<O: WipeObserver> SensitiveBuffer<O> {
    /// The held bytes are valid UTF-8.
    pub open spec fn wf(&self) -> bool {
        valid_utf8(self.view_bytes())
    }

    /// The held bytes.
    pub closed spec fn view_bytes(&self) -> Seq<u8> {
        guarded_bytes(self.bytes)
    }

    /// The observer the buffer reports its wipes to.
    pub closed spec fn observer_view(&self) -> O {
        self.observer
    }

    /// The records of the wipes this buffer has performed and reported to
    /// its observer, oldest first.
    pub closed spec fn wipes(&self) -> Seq<WipeRecord> {
        self.wipes@
    }

    /// A buffer holding a copy of `initial` that reports its wipes to `observer`.
    pub fn with_wipe_observer(initial: &[u8], observer: O) -> (buffer: Self)
        requires
            valid_utf8(initial@),
        ensures
            buffer.wf(),
            buffer.view_bytes() == initial@,
            buffer.observer_view() == observer,
            buffer.wipes() == Seq::<WipeRecord>::empty(),
    {
        let mut bytes: Vec<u8> = Vec::new();
        bytes.extend_from_slice(initial);
        assert(bytes@ =~= initial@);
        SensitiveBuffer { bytes: guard_new(bytes), observer, wipes: Ghost(Seq::empty()) }
    }

    /// The held text.
    pub fn expose(&self) -> (text: &str)
        requires
            self.wf(),
        ensures
            text.spec_bytes() == self.view_bytes(),
    {
        let bytes = guard_slice(&self.bytes);
        match utf8_str(bytes) {
            Some(text) => text,
            None => {
                proof {
                    assert(false);
                }
                ""
            },
        }
    }

    /// Number of held bytes.
    pub fn len(&self) -> (n: usize)
        ensures
            n == self.view_bytes().len(),
    {
        guard_slice(&self.bytes).len()
    }

    /// Whether no byte is held.
    pub fn is_empty(&self) -> (empty: bool)
        ensures
            empty == (self.view_bytes().len() == 0),
    {
        guard_slice(&self.bytes).len() == 0
    }

    /// Replaces the bytes from `start` to `end` by `text`, wiping the
    /// superseded allocation.
    pub(crate) fn replace_bytes(&mut self, start: usize, end: usize, text: &[u8])
        requires
            old(self).wf(),
            start <= old(self).view_bytes().len(),
            end <= old(self).view_bytes().len(),
            is_char_boundary(old(self).view_bytes(), start as int),
            is_char_boundary(old(self).view_bytes(), end as int),
            valid_utf8(text@),
            start + text@.len() + (old(self).view_bytes().len() - end) <= usize::MAX,
        ensures
            final(self).wf(),
            final(self).view_bytes() == spliced(old(self).view_bytes(), start as int, end as int, text@),
            is_char_boundary(final(self).view_bytes(), start as int),
            is_char_boundary(final(self).view_bytes(), start + text@.len()),
            final(self).observer_view() == old(self).observer_view(),
            final(self).wipes() == old(self).wipes().push(wiped(old(self).view_bytes())),
    {
        let ghost before = self.view_bytes();
        let successor = splice_bytes(guard_slice(&self.bytes), start, end, text);
        proof {
            broadcast use valid_utf8_split;

            let head = before.subrange(0, start as int);
            let tail = before.subrange(end as int, before.len() as int);
            assert(head =~= before.take(start as int));
            assert(tail =~= before.skip(end as int));
            lemma_join_valid_utf8(head, text@);
            lemma_join_valid_utf8(head + text@, tail);
            lemma_join_valid_utf8(text@, tail);
            lemma_join_valid_utf8(head, text@ + tail);
            assert(successor@ =~= (head + text@) + tail);
            assert(successor@ =~= head + (text@ + tail));
        }
        let mut superseded = guard_replace(&mut self.bytes, successor);
        let _ = wipe(&mut superseded, &self.observer, &mut self.wipes);
    }

    /// Replaces the bytes in `range` by the bytes of `text`, wiping the
    /// superseded allocation.
    pub fn replace(&mut self, range: Range<usize>, text: &str)
        requires
            old(self).wf(),
            range.start <= old(self).view_bytes().len(),
            range.end <= old(self).view_bytes().len(),
            is_char_boundary(old(self).view_bytes(), range.start as int),
            is_char_boundary(old(self).view_bytes(), range.end as int),
            range.start + text.spec_bytes().len() + (old(self).view_bytes().len() - range.end)
                <= usize::MAX,
        ensures
            final(self).wf(),
            final(self).view_bytes() == spliced(
                old(self).view_bytes(),
                range.start as int,
                range.end as int,
                text.spec_bytes(),
            ),
            final(self).observer_view() == old(self).observer_view(),
            final(self).wipes() == old(self).wipes().push(wiped(old(self).view_bytes())),
    {
        proof {
            broadcast use encode_utf8_valid_utf8;

        }
        self.replace_bytes(range.start, range.end, text.as_bytes());
    }

    /// Empties the buffer, wiping the superseded allocation.
    pub fn clear(&mut self)
        ensures
            final(self).wf(),
            final(self).view_bytes() == Seq::<u8>::empty(),
            final(self).observer_view() == old(self).observer_view(),
            final(self).wipes() == old(self).wipes().push(wiped(old(self).view_bytes())),
    {
        let mut superseded = guard_replace(&mut self.bytes, Vec::new());
        let _ = wipe(&mut superseded, &self.observer, &mut self.wipes);
    }

    /// Moves the held bytes out into a [`SensitiveValue`] that reports its
    /// wipes to a clone of this buffer's observer, leaving the buffer empty.
    /// The bytes move: nothing is copied and nothing is wiped.
    pub fn take(&mut self) -> (value: SensitiveValue<O>) where O: Clone
        requires
            old(self).wf(),
        ensures
            final(self).wf(),
            final(self).view_bytes() == Seq::<u8>::empty(),
            final(self).observer_view() == old(self).observer_view(),
            final(self).wipes() == old(self).wipes(),
            value.wf(),
            value.view_bytes() == old(self).view_bytes(),
            value.wipes() == Seq::<WipeRecord>::empty(),
    {
        let bytes = guard_replace(&mut self.bytes, Vec::new());
        SensitiveValue { bytes: guard_new(bytes), observer: self.observer.clone(), wipes: Ghost(Seq::empty()) }
    }

    /// Wipes the held bytes, reporting the wipe, and drops the buffer;
    /// returns the record of that wipe.
    pub fn discard(self) -> (record: WipeRecord)
        ensures
            record == wiped(self.view_bytes()),
    {
        let mut buffer = self;
        let mut remaining = guard_replace(&mut buffer.bytes, Vec::new());
        wipe(&mut remaining, &buffer.observer, &mut buffer.wipes)
    }
}

impl<O: WipeObserver> SensitiveValue<O> {
    /// The held bytes are valid UTF-8.
    pub open spec fn wf(&self) -> bool {
        valid_utf8(self.view_bytes())
    }

    /// The held bytes.
    pub closed spec fn view_bytes(&self) -> Seq<u8> {
        guarded_bytes(self.bytes)
    }

    /// The records of the wipes this value has performed and reported to
    /// its observer, oldest first.
    pub closed spec fn wipes(&self) -> Seq<WipeRecord> {
        self.wipes@
    }

    /// Transfers ownership of the UTF-8 bytes to another zeroizing owner.
    pub fn into_bytes(self) -> (bytes: Vec<u8>)
        ensures
            bytes@ == self.view_bytes(),
    {
        let mut value = self;
        guard_replace(&mut value.bytes, Vec::new())
    }

    /// The held text.
    pub fn expose(&self) -> (text: &str)
        requires
            self.wf(),
        ensures
            text.spec_bytes() == self.view_bytes(),
    {
        let bytes = guard_slice(&self.bytes);
        match utf8_str(bytes) {
            Some(text) => text,
            None => {
                proof {
                    assert(false);
                }
                ""
            },
        }
    }

    /// Wipes the held bytes, reporting the wipe, and drops the value;
    /// returns the record of that wipe.
    pub fn discard(self) -> (record: WipeRecord)
        ensures
            record == wiped(self.view_bytes()),
    {
        let mut value = self;
        let mut remaining = guard_replace(&mut value.bytes, Vec::new());
        wipe(&mut remaining, &value.observer, &mut value.wipes)
    }
}

} // verus!
