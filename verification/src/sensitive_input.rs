//! The editing state of a single-line input for short-lived sensitive
//! responses: a zeroizing buffer, a byte selection, an input-method marked
//! range and the display settings, with the editing operations that a text
//! input handler and its key bindings perform on them.
//!
//! Byte offsets are UTF-8 offsets into the buffer; the platform input method
//! speaks in UTF-16 offsets, which are converted here.

use crate::outside::{grapheme_offsets, grapheme_starts};
use crate::sensitive::{spliced, wiped, SensitiveBuffer, SensitiveValue, WipeRecord};
use crate::text::{
    lemma_boundary_in_prefix, lemma_increasing_len, lemma_offset_utf16_roundtrip,
    lemma_utf16_to_utf8_offset_boundary, line_break_bytes_to_spaces, line_breaks_to_spaces_bytes,
    utf16_len, utf16_len_of, utf16_to_utf8_offset, utf8_offset_from_utf16,
};
use std::ops::Range;
use vstd::prelude::*;
use vstd::string::StringSliceAdditionalSpecFns;
use vstd::string::StringExecFns;
use vstd::utf8::*;

verus! {

broadcast use vstd::string::group_string_axioms;

/// Events a sensitive input reports to its listeners.
#[derive(Debug, Clone, Copy, PartialEq, Eq, Structural)]
pub enum SensitiveInputEvent {
    Change,
    Submit,
    Cancel,
}

/// What an editing operation asks its host to do next.
#[derive(Debug, Clone, Copy, PartialEq, Eq, Structural)]
pub enum EditOutcome {
    /// Nothing could be deleted: ring the system bell.
    Bell,
    /// The input is disabled and its text was left as it was.
    Ignored,
    /// The text changed: report [`SensitiveInputEvent::Change`].
    Changed,
}

/// The range from `start` to `end`.
pub open spec fn span(start: int, end: int) -> Range<usize> {
    Range { start: start as usize, end: end as usize }
}

/// `r` lies within `bytes` and both of its ends are character boundaries.
pub open spec fn range_ok(bytes: Seq<u8>, r: Range<usize>) -> bool {
    &&& r.start <= r.end <= bytes.len()
    &&& is_char_boundary(bytes, r.start as int)
    &&& is_char_boundary(bytes, r.end as int)
}

/// Both ends of `r` lie within `bytes` on character boundaries (in either order).
pub open spec fn ends_ok(bytes: Seq<u8>, r: Range<usize>) -> bool {
    &&& r.start <= bytes.len()
    &&& r.end <= bytes.len()
    &&& is_char_boundary(bytes, r.start as int)
    &&& is_char_boundary(bytes, r.end as int)
}

/// The last grapheme start before `offset`, or 0.
pub open spec fn last_start_before(starts: Seq<usize>, offset: int) -> int
    decreases starts.len(),
{
    if starts.len() == 0 {
        0
    } else if (starts.last() as int) < offset {
        starts.last() as int
    } else {
        last_start_before(starts.drop_last(), offset)
    }
}

/// The first grapheme start after `offset`, or `end`.
pub open spec fn first_start_after(starts: Seq<usize>, offset: int, end: int) -> int
    decreases starts.len(),
{
    if starts.len() == 0 {
        end
    } else if (starts[0] as int) > offset {
        starts[0] as int
    } else {
        first_start_after(starts.drop_first(), offset, end)
    }
}

/// The selection after extending `selection` (whose moving end is its start
/// when `reversed`) to `offset`, swapping its ends when they cross.
pub open spec fn selected_to(selection: Range<usize>, reversed: bool, offset: usize) -> (Range<usize>, bool) {
    let start = if reversed {
        offset
    } else {
        selection.start
    };
    let end = if reversed {
        selection.end
    } else {
        offset
    };
    if end < start {
        (span(end as int, start as int), !reversed)
    } else {
        (span(start as int, end as int), reversed)
    }
}

/// State for a non-retaining, single-line sensitive input.
pub struct SensitiveInputState {
    value: SensitiveBuffer<()>,
    placeholder: String,
    selected_range: Range<usize>,
    selection_reversed: bool,
    marked_range: Option<Range<usize>>,
    masked: bool,
    disabled: bool,
}

impl SensitiveInputState {
    /// The bytes of the current value.
    pub closed spec fn bytes_view(&self) -> Seq<u8> {
        self.value.view_bytes()
    }

    /// The selected byte range.
    pub closed spec fn selection_view(&self) -> Range<usize> {
        self.selected_range
    }

    /// Whether the moving end of the selection is its start.
    pub closed spec fn reversed_view(&self) -> bool {
        self.selection_reversed
    }

    /// The byte range the input method has marked, if any.
    pub closed spec fn marked_view(&self) -> Option<Range<usize>> {
        self.marked_range
    }

    /// Whether the value is shown masked.
    pub closed spec fn masked_view(&self) -> bool {
        self.masked
    }

    /// Whether editing is disabled.
    pub closed spec fn disabled_view(&self) -> bool {
        self.disabled
    }

    /// The text shown while the value is empty.
    pub closed spec fn placeholder_view(&self) -> Seq<char> {
        self.placeholder@
    }

    /// The records of the wipes of superseded values, oldest first.
    pub closed spec fn wipes_view(&self) -> Seq<WipeRecord> {
        self.value.wipes()
    }

    /// The value holds valid UTF-8.
    pub closed spec fn inv(&self) -> bool {
        self.value.wf()
    }

    /// The value holds valid UTF-8, and the selection and the marked range
    /// lie within it on character boundaries.
    pub open spec fn wf(&self) -> bool {
        &&& self.inv()
        &&& range_ok(self.bytes_view(), self.selection_view())
        &&& (self.marked_view() matches Some(m) ==> range_ok(self.bytes_view(), m))
    }

    /// The characters of the current value.
    pub open spec fn text(&self) -> Seq<char> {
        decode_utf8(self.bytes_view())
    }

    /// The end of the selection that moves.
    pub open spec fn cursor(&self) -> usize {
        if self.reversed_view() {
            self.selection_view().start
        } else {
            self.selection_view().end
        }
    }

    /// The selection is empty.
    pub open spec fn selection_is_empty(&self) -> bool {
        self.selection_view().start >= self.selection_view().end
    }

    /// The grapheme boundary before `offset`.
    pub open spec fn previous_boundary_spec(&self, offset: int) -> int {
        last_start_before(grapheme_starts(self.text()), offset)
    }

    /// The grapheme boundary after `offset`.
    pub open spec fn next_boundary_spec(&self, offset: int) -> int {
        first_start_after(grapheme_starts(self.text()), offset, self.bytes_view().len() as int)
    }

    /// The byte offset for the UTF-16 offset `offset`.
    pub open spec fn from_utf16(&self, offset: int) -> int {
        utf16_to_utf8_offset(self.text(), offset) as int
    }

    /// The UTF-16 offset for the byte offset `offset`.
    pub open spec fn to_utf16(&self, offset: int) -> int {
        utf16_len(decode_utf8(self.bytes_view().take(offset))) as int
    }

    /// The byte range an edit of `range_utf16` applies to: the converted
    /// range when one is given, else the marked range, else the selection.
    pub open spec fn target_range(&self, range_utf16: Option<Range<usize>>) -> Range<usize> {
        match range_utf16 {
            Some(r) => span(self.from_utf16(r.start as int), self.from_utf16(r.end as int)),
            None => match self.marked_view() {
                Some(m) => m,
                None => self.selection_view(),
            },
        }
    }

    /// `next` has the same display settings as `self`.
    pub open spec fn same_settings(&self, next: &Self) -> bool {
        &&& next.masked_view() == self.masked_view()
        &&& next.disabled_view() == self.disabled_view()
        &&& next.placeholder_view() == self.placeholder_view()
    }

    /// The selection a deletion works on: when nothing is selected, the
    /// selection extended from the cursor to `boundary`.
    pub open spec fn deletion_selection(&self, boundary: int) -> (Range<usize>, bool) {
        if self.selection_is_empty() {
            selected_to(self.selection_view(), self.reversed_view(), boundary as usize)
        } else {
            (self.selection_view(), self.reversed_view())
        }
    }

    /// Replacing the target of an edit by `inserted` bytes fits in memory.
    pub open spec fn fits(&self, target: Range<usize>, inserted: nat) -> bool {
        target.start + inserted + (self.bytes_view().len() - target.end) <= usize::MAX
    }

    /// `next` is `self` with its value and selection unchanged and the
    /// selection set to `selection` (moving end at its start when `reversed`).
    pub open spec fn selects(&self, next: &Self, selection: Range<usize>, reversed: bool) -> bool {
        &&& self.same_settings(next)
        &&& next.bytes_view() == self.bytes_view()
        &&& next.wipes_view() == self.wipes_view()
        &&& next.marked_view() == self.marked_view()
        &&& next.selection_view() == selection
        &&& next.reversed_view() == reversed
    }

    /// `next` and `outcome` are what replacing the target of `range_utf16`
    /// by `text` gives, once the selection of `self` has been set to
    /// `selection` / `reversed`: a disabled input is left as it is; otherwise
    /// the target is replaced by `text` with line breaks turned into spaces,
    /// the cursor follows the inserted text, nothing stays marked and the
    /// superseded value is wiped.
    pub open spec fn replaces(
        &self,
        next: &Self,
        selection: Range<usize>,
        reversed: bool,
        range_utf16: Option<Range<usize>>,
        text: Seq<u8>,
        outcome: EditOutcome,
    ) -> bool {
        let target = match range_utf16 {
            Some(r) => span(self.from_utf16(r.start as int), self.from_utf16(r.end as int)),
            None => match self.marked_view() {
                Some(m) => m,
                None => selection,
            },
        };
        let inserted = line_break_bytes_to_spaces(text);
        let cursor = target.start + inserted.len();
        &&& self.same_settings(next)
        &&& next.reversed_view() == reversed
        &&& if self.disabled_view() {
            &&& outcome == EditOutcome::Ignored
            &&& next.bytes_view() == self.bytes_view()
            &&& next.wipes_view() == self.wipes_view()
            &&& next.selection_view() == selection
            &&& next.marked_view() == self.marked_view()
        } else {
            &&& outcome == EditOutcome::Changed
            &&& next.wipes_view() == self.wipes_view().push(wiped(self.bytes_view()))
            &&& next.bytes_view() == spliced(
                self.bytes_view(),
                target.start as int,
                target.end as int,
                inserted,
            )
            &&& next.selection_view() == span(cursor, cursor)
            &&& next.marked_view() is None
        }
    }

    /// An empty, masked, enabled input with an empty placeholder.
    pub fn new() -> (state: Self)
        ensures
            state.wf(),
            state.bytes_view() == Seq::<u8>::empty(),
            state.selection_view() == span(0, 0),
            !state.reversed_view(),
            state.marked_view() is None,
            state.masked_view(),
            !state.disabled_view(),
            state.placeholder_view() == Seq::<char>::empty(),
            state.wipes_view() == Seq::<WipeRecord>::empty(),
    {
        proof {
            broadcast use is_char_boundary_start_end_of_seq;

        }
        SensitiveInputState {
            value: SensitiveBuffer::default(),
            placeholder: String::new(),
            selected_range: 0..0,
            selection_reversed: false,
            marked_range: None,
            masked: true,
            disabled: false,
        }
    }

    /// This input with the placeholder `placeholder`.
    pub fn placeholder(self, placeholder: String) -> (state: Self)
        ensures
            state.placeholder_view() == placeholder@,
            state.bytes_view() == self.bytes_view(),
            state.selection_view() == self.selection_view(),
            state.reversed_view() == self.reversed_view(),
            state.marked_view() == self.marked_view(),
            state.masked_view() == self.masked_view(),
            state.disabled_view() == self.disabled_view(),
            state.inv() == self.inv(),
            state.wipes_view() == self.wipes_view(),
    {
        let mut state = self;
        state.placeholder = placeholder;
        state
    }

    /// This input with masking set to `masked`.
    pub fn masked(self, masked: bool) -> (state: Self)
        ensures
            state.masked_view() == masked,
            state.placeholder_view() == self.placeholder_view(),
            state.bytes_view() == self.bytes_view(),
            state.selection_view() == self.selection_view(),
            state.reversed_view() == self.reversed_view(),
            state.marked_view() == self.marked_view(),
            state.disabled_view() == self.disabled_view(),
            state.inv() == self.inv(),
            state.wipes_view() == self.wipes_view(),
    {
        let mut state = self;
        state.masked = masked;
        state
    }

    /// Sets whether the value is shown masked.
    pub fn set_masked(&mut self, masked: bool)
        ensures
            final(self).masked_view() == masked,
            final(self).placeholder_view() == old(self).placeholder_view(),
            final(self).disabled_view() == old(self).disabled_view(),
            final(self).bytes_view() == old(self).bytes_view(),
            final(self).selection_view() == old(self).selection_view(),
            final(self).reversed_view() == old(self).reversed_view(),
            final(self).marked_view() == old(self).marked_view(),
            final(self).inv() == old(self).inv(),
            final(self).wipes_view() == old(self).wipes_view(),
    {
        self.masked = masked;
    }

    /// Sets the text shown while the value is empty.
    pub fn set_placeholder(&mut self, placeholder: String)
        ensures
            final(self).placeholder_view() == placeholder@,
            final(self).masked_view() == old(self).masked_view(),
            final(self).disabled_view() == old(self).disabled_view(),
            final(self).bytes_view() == old(self).bytes_view(),
            final(self).selection_view() == old(self).selection_view(),
            final(self).reversed_view() == old(self).reversed_view(),
            final(self).marked_view() == old(self).marked_view(),
            final(self).inv() == old(self).inv(),
            final(self).wipes_view() == old(self).wipes_view(),
    {
        self.placeholder = placeholder;
    }

    /// Sets whether editing is disabled.
    pub fn set_disabled(&mut self, disabled: bool)
        ensures
            final(self).disabled_view() == disabled,
            final(self).masked_view() == old(self).masked_view(),
            final(self).placeholder_view() == old(self).placeholder_view(),
            final(self).bytes_view() == old(self).bytes_view(),
            final(self).selection_view() == old(self).selection_view(),
            final(self).reversed_view() == old(self).reversed_view(),
            final(self).marked_view() == old(self).marked_view(),
            final(self).inv() == old(self).inv(),
            final(self).wipes_view() == old(self).wipes_view(),
    {
        self.disabled = disabled;
    }

    /// Whether the value is empty.
    pub fn is_empty(&self) -> (empty: bool)
        ensures
            empty == (self.bytes_view().len() == 0),
    {
        self.value.is_empty()
    }

    /// Number of bytes of the value.
    pub fn len(&self) -> (n: usize)
        ensures
            n == self.bytes_view().len(),
    {
        self.value.len()
    }

    /// Whether the value is shown masked.
    pub fn is_masked(&self) -> (masked: bool)
        ensures
            masked == self.masked_view(),
    {
        self.masked
    }

    /// The selected byte range.
    pub fn selection(&self) -> (selection: Range<usize>)
        ensures
            selection == self.selection_view(),
    {
        self.selected_range.start..self.selected_range.end
    }

    /// Whether the selection and the marked range lie within the value on
    /// character boundaries.
    pub fn ranges_valid(&self) -> (valid: bool)
        requires
            self.inv(),
        ensures
            valid == self.wf(),
    {
        let text = self.value.expose();
        let len = self.value.len();
        let selection_valid = self.selected_range.start <= self.selected_range.end
            && self.selected_range.end <= len && text.is_char_boundary(self.selected_range.start)
            && text.is_char_boundary(self.selected_range.end);
        let marked_valid = match &self.marked_range {
            Some(m) => m.start <= m.end && m.end <= len && text.is_char_boundary(m.start)
                && text.is_char_boundary(m.end),
            None => true,
        };
        selection_valid && marked_valid
    }

    /// Whether `offset` lies within the value on a character boundary.
    pub fn is_boundary(&self, offset: usize) -> (boundary: bool)
        requires
            self.inv(),
        ensures
            boundary == (offset <= self.bytes_view().len() && is_char_boundary(
                self.bytes_view(),
                offset as int,
            )),
    {
        let text = self.value.expose();
        offset <= self.value.len() && text.is_char_boundary(offset)
    }

    /// Zeroizes the value and resets all ephemeral edit state.
    pub fn clear(&mut self)
        ensures
            final(self).wf(),
            old(self).same_settings(&*final(self)),
            final(self).bytes_view() == Seq::<u8>::empty(),
            final(self).wipes_view() == old(self).wipes_view().push(wiped(old(self).bytes_view())),
            final(self).selection_view() == span(0, 0),
            !final(self).reversed_view(),
            final(self).marked_view() is None,
    {
        self.value.clear();
        self.reset_edit_state();
        proof {
            broadcast use is_char_boundary_start_end_of_seq;

        }
    }

    /// Cancels input, zeroizing the value; returns the event to report.
    pub fn cancel(&mut self) -> (event: SensitiveInputEvent)
        ensures
            event == SensitiveInputEvent::Cancel,
            final(self).wf(),
            old(self).same_settings(&*final(self)),
            final(self).bytes_view() == Seq::<u8>::empty(),
            final(self).wipes_view() == old(self).wipes_view().push(wiped(old(self).bytes_view())),
            final(self).selection_view() == span(0, 0),
            !final(self).reversed_view(),
            final(self).marked_view() is None,
    {
        self.clear();
        SensitiveInputEvent::Cancel
    }

    /// Moves the value out for submission, leaving the input empty. No
    /// ordinary `String` is created, and nothing is wiped: the bytes move.
    pub fn take(&mut self) -> (value: SensitiveValue<()>)
        requires
            old(self).inv(),
        ensures
            value.wf(),
            value.view_bytes() == old(self).bytes_view(),
            value.wipes() == Seq::<WipeRecord>::empty(),
            final(self).wipes_view() == old(self).wipes_view(),
            final(self).wf(),
            old(self).same_settings(&*final(self)),
            final(self).bytes_view() == Seq::<u8>::empty(),
            final(self).selection_view() == span(0, 0),
            !final(self).reversed_view(),
            final(self).marked_view() is None,
    {
        let value = self.value.take();
        self.reset_edit_state();
        proof {
            broadcast use is_char_boundary_start_end_of_seq;

        }
        value
    }

    fn reset_edit_state(&mut self)
        ensures
            old(self).same_settings(&*final(self)),
            final(self).bytes_view() == old(self).bytes_view(),
            final(self).wipes_view() == old(self).wipes_view(),
            final(self).inv() == old(self).inv(),
            final(self).selection_view() == span(0, 0),
            !final(self).reversed_view(),
            final(self).marked_view() is None,
    {
        self.selected_range = 0..0;
        self.selection_reversed = false;
        self.marked_range = None;
    }

    /// The end of the selection that moves.
    pub fn cursor_offset(&self) -> (offset: usize)
        ensures
            offset == self.cursor(),
    {
        if self.selection_reversed {
            self.selected_range.start
        } else {
            self.selected_range.end
        }
    }

    fn move_to(&mut self, offset: usize)
        ensures
            old(self).selects(&*final(self), span(offset as int, offset as int), false),
            final(self).inv() == old(self).inv(),
    {
        self.selected_range = offset..offset;
        self.selection_reversed = false;
    }

    fn select_to(&mut self, offset: usize)
        ensures
            old(self).selects(
                &*final(self),
                selected_to(old(self).selection_view(), old(self).reversed_view(), offset).0,
                selected_to(old(self).selection_view(), old(self).reversed_view(), offset).1,
            ),
            final(self).inv() == old(self).inv(),
    {
        if self.selection_reversed {
            self.selected_range.start = offset;
        } else {
            self.selected_range.end = offset;
        }
        if self.selected_range.end < self.selected_range.start {
            self.selection_reversed = !self.selection_reversed;
            self.selected_range = self.selected_range.end..self.selected_range.start;
        }
    }

    /// The grapheme boundary before `offset`, or 0.
    pub fn previous_boundary(&self, offset: usize) -> (boundary: usize)
        requires
            self.inv(),
        ensures
            boundary == self.previous_boundary_spec(offset as int),
            boundary <= self.bytes_view().len(),
            is_char_boundary(self.bytes_view(), boundary as int),
    {
        proof {
            broadcast use is_char_boundary_start_end_of_seq;

        }
        let text = self.value.expose();
        let starts = grapheme_offsets(text);
        let ghost all = starts@;
        let mut i = starts.len();
        proof {
            broadcast use encode_utf8_decode_utf8;

            assert(all.take(all.len() as int) =~= all);
            assert(all == grapheme_starts(self.text()));
        }
        while i > 0
            invariant
                starts@ == all,
                all == grapheme_starts(self.text()),
                i <= all.len(),
                forall|k: int|
                    0 <= k < all.len() ==> all[k] < self.bytes_view().len() && is_char_boundary(
                        self.bytes_view(),
                        all[k] as int,
                    ),
                last_start_before(all, offset as int) == last_start_before(all.take(i as int), offset as int),
            decreases i,
        {
            assert(all.take(i as int).drop_last() =~= all.take(i - 1));
            assert(all.take(i as int).last() == all[i - 1]);
            if starts[i - 1] < offset {
                return starts[i - 1];
            }
            i = i - 1;
        }
        assert(all.take(0) =~= Seq::<usize>::empty());
        0
    }

    /// The grapheme boundary after `offset`, or the end of the value.
    pub fn next_boundary(&self, offset: usize) -> (boundary: usize)
        requires
            self.inv(),
        ensures
            boundary == self.next_boundary_spec(offset as int),
            boundary <= self.bytes_view().len(),
            is_char_boundary(self.bytes_view(), boundary as int),
    {
        proof {
            broadcast use is_char_boundary_start_end_of_seq;

        }
        let text = self.value.expose();
        let starts = grapheme_offsets(text);
        let len = self.value.len();
        let ghost all = starts@;
        let mut i: usize = 0;
        proof {
            broadcast use encode_utf8_decode_utf8;

            assert(all.skip(0) =~= all);
            assert(all == grapheme_starts(self.text()));
        }
        while i < starts.len()
            invariant
                starts@ == all,
                all == grapheme_starts(self.text()),
                i <= all.len(),
                len == self.bytes_view().len(),
                forall|k: int|
                    0 <= k < all.len() ==> all[k] < self.bytes_view().len() && is_char_boundary(
                        self.bytes_view(),
                        all[k] as int,
                    ),
                first_start_after(all, offset as int, len as int) == first_start_after(
                    all.skip(i as int),
                    offset as int,
                    len as int,
                ),
            decreases all.len() - i,
        {
            assert(all.skip(i as int).drop_first() =~= all.skip(i + 1));
            assert(all.skip(i as int)[0] == all[i as int]);
            if starts[i] > offset {
                return starts[i];
            }
            i = i + 1;
        }
        assert(all.skip(i as int) =~= Seq::<usize>::empty());
        len
    }

    /// The byte offset for the UTF-16 offset `offset`, clamped to the value.
    pub fn offset_from_utf16(&self, offset: usize) -> (bytes: usize)
        requires
            self.inv(),
        ensures
            bytes == self.from_utf16(offset as int),
            bytes <= self.bytes_view().len(),
            is_char_boundary(self.bytes_view(), bytes as int),
    {
        let text = self.value.expose();
        proof {
            broadcast use encode_utf8_decode_utf8;

            lemma_utf16_to_utf8_offset_boundary(text@, offset as int);
        }
        utf8_offset_from_utf16(text, offset)
    }

    /// The UTF-16 offset for the byte offset `offset`.
    pub fn offset_to_utf16(&self, offset: usize) -> (units: usize)
        requires
            self.inv(),
            offset <= self.bytes_view().len(),
            is_char_boundary(self.bytes_view(), offset as int),
        ensures
            units == self.to_utf16(offset as int),
    {
        proof {
            broadcast use encode_utf8_decode_utf8;

        }
        let text = self.value.expose();
        let (prefix, _) = text.split_at(offset);
        proof {
            assert(prefix.spec_bytes() =~= self.bytes_view().take(offset as int));
        }
        utf16_len_of(prefix)
    }

    /// The UTF-16 range for the byte range `range`.
    pub fn range_to_utf16(&self, range: &Range<usize>) -> (units: Range<usize>)
        requires
            self.inv(),
            ends_ok(self.bytes_view(), *range),
        ensures
            units == span(self.to_utf16(range.start as int), self.to_utf16(range.end as int)),
            units.start == self.to_utf16(range.start as int),
            units.end == self.to_utf16(range.end as int),
    {
        self.offset_to_utf16(range.start)..self.offset_to_utf16(range.end)
    }

    /// The byte range for the UTF-16 range `range`.
    pub fn range_from_utf16(&self, range: &Range<usize>) -> (bytes: Range<usize>)
        requires
            self.inv(),
        ensures
            bytes == span(self.from_utf16(range.start as int), self.from_utf16(range.end as int)),
            bytes.start == self.from_utf16(range.start as int),
            bytes.end == self.from_utf16(range.end as int),
            ends_ok(self.bytes_view(), bytes),
    {
        self.offset_from_utf16(range.start)..self.offset_from_utf16(range.end)
    }
}

impl SensitiveInputState {
    /// Replaces the target of `range_utf16` (the converted range, else the
    /// marked range, else the selection) by `new_text` with its line breaks
    /// turned into spaces, places the cursor after it and clears the marked
    /// range. A disabled input is left as it is.
    pub fn replace_text_in_range(&mut self, range_utf16: Option<Range<usize>>, new_text: &str) -> (outcome: EditOutcome)
        requires
            old(self).inv(),
            range_utf16 is None ==> ends_ok(old(self).bytes_view(), old(self).target_range(range_utf16)),
            old(self).fits(old(self).target_range(range_utf16), new_text.spec_bytes().len()),
        ensures
            final(self).inv(),
            old(self).replaces(
                &*final(self),
                old(self).selection_view(),
                old(self).reversed_view(),
                range_utf16,
                new_text.spec_bytes(),
                outcome,
            ),
            !old(self).disabled_view() || old(self).wf() ==> final(self).wf(),
            !old(self).disabled_view() ==> is_char_boundary(
                final(self).bytes_view(),
                old(self).target_range(range_utf16).start as int,
            ),
    {
        if self.disabled {
            return EditOutcome::Ignored;
        }
        let range = match range_utf16 {
            Some(r) => self.range_from_utf16(&r),
            None => match &self.marked_range {
                Some(m) => m.start..m.end,
                None => self.selected_range.start..self.selected_range.end,
            },
        };
        let normalized = line_breaks_to_spaces_bytes(new_text);
        let inserted = normalized.len();
        self.value.replace_bytes(range.start, range.end, normalized.as_slice());
        let cursor = range.start + inserted;
        self.selected_range = cursor..cursor;
        self.marked_range = None;
        EditOutcome::Changed
    }

    /// Deletes the grapheme before the cursor, or the selection (or marked
    /// text) when there is one; rings the bell when there is nothing before
    /// the cursor.
    pub fn backspace(&mut self) -> (outcome: EditOutcome)
        requires
            old(self).wf(),
        ensures
            final(self).wf(),
            (outcome == EditOutcome::Bell) == (old(self).selection_is_empty()
                && old(self).previous_boundary_spec(old(self).cursor() as int) == old(self).cursor()),
            outcome == EditOutcome::Bell ==> *final(self) == *old(self),
            outcome != EditOutcome::Bell ==> old(self).replaces(
                &*final(self),
                old(self).deletion_selection(old(self).previous_boundary_spec(old(self).cursor() as int)).0,
                old(self).deletion_selection(old(self).previous_boundary_spec(old(self).cursor() as int)).1,
                None,
                Seq::<u8>::empty(),
                outcome,
            ),
    {
        let ghost before = *self;
        if self.selected_range.start >= self.selected_range.end {
            let cursor = self.cursor_offset();
            let previous = self.previous_boundary(cursor);
            if previous == cursor {
                return EditOutcome::Bell;
            }
            self.select_to(previous);
        }
        self.delete_selection(Ghost(before))
    }

    /// Deletes the grapheme after the cursor, or the selection (or marked
    /// text) when there is one; rings the bell when there is nothing after
    /// the cursor.
    pub fn delete(&mut self) -> (outcome: EditOutcome)
        requires
            old(self).wf(),
        ensures
            final(self).wf(),
            (outcome == EditOutcome::Bell) == (old(self).selection_is_empty()
                && old(self).next_boundary_spec(old(self).cursor() as int) == old(self).cursor()),
            outcome == EditOutcome::Bell ==> *final(self) == *old(self),
            outcome != EditOutcome::Bell ==> old(self).replaces(
                &*final(self),
                old(self).deletion_selection(old(self).next_boundary_spec(old(self).cursor() as int)).0,
                old(self).deletion_selection(old(self).next_boundary_spec(old(self).cursor() as int)).1,
                None,
                Seq::<u8>::empty(),
                outcome,
            ),
    {
        let ghost before = *self;
        if self.selected_range.start >= self.selected_range.end {
            let cursor = self.cursor_offset();
            let next = self.next_boundary(cursor);
            if next == cursor {
                return EditOutcome::Bell;
            }
            self.select_to(next);
        }
        self.delete_selection(Ghost(before))
    }

    fn delete_selection(&mut self, before: Ghost<Self>) -> (outcome: EditOutcome)
        requires
            old(self).wf(),
            before@.same_settings(&*old(self)),
            before@.bytes_view() == old(self).bytes_view(),
            before@.wipes_view() == old(self).wipes_view(),
            before@.marked_view() == old(self).marked_view(),
        ensures
            final(self).wf(),
            outcome != EditOutcome::Bell,
            before@.replaces(
                &*final(self),
                old(self).selection_view(),
                old(self).reversed_view(),
                None,
                Seq::<u8>::empty(),
                outcome,
            ),
    {
        // The value's length is a `usize`, so removing the selection fits.
        let len = self.value.len();
        assert(self.fits(self.target_range(None), 0) && len == self.bytes_view().len());
        proof {
            reveal_strlit("");
            assert(line_break_bytes_to_spaces(Seq::<u8>::empty()) =~= Seq::<u8>::empty());
        }
        self.replace_text_in_range(None, "")
    }

    /// Moves the cursor to the grapheme boundary before it, or collapses the
    /// selection to its start.
    pub fn left(&mut self)
        requires
            old(self).wf(),
        ensures
            final(self).wf(),
            old(self).selects(
                &*final(self),
                if old(self).selection_is_empty() {
                    span(
                        old(self).previous_boundary_spec(old(self).cursor() as int),
                        old(self).previous_boundary_spec(old(self).cursor() as int),
                    )
                } else {
                    span(old(self).selection_view().start as int, old(self).selection_view().start as int)
                },
                false,
            ),
    {
        let offset = if self.selected_range.start >= self.selected_range.end {
            self.previous_boundary(self.cursor_offset())
        } else {
            self.selected_range.start
        };
        self.move_to(offset);
    }

    /// Moves the cursor to the grapheme boundary after it, or collapses the
    /// selection to its end.
    pub fn right(&mut self)
        requires
            old(self).wf(),
        ensures
            final(self).wf(),
            old(self).selects(
                &*final(self),
                if old(self).selection_is_empty() {
                    span(
                        old(self).next_boundary_spec(old(self).cursor() as int),
                        old(self).next_boundary_spec(old(self).cursor() as int),
                    )
                } else {
                    span(old(self).selection_view().end as int, old(self).selection_view().end as int)
                },
                false,
            ),
    {
        let offset = if self.selected_range.start >= self.selected_range.end {
            self.next_boundary(self.cursor_offset())
        } else {
            self.selected_range.end
        };
        self.move_to(offset);
    }

    /// Extends the selection to the grapheme boundary before the cursor.
    pub fn select_left(&mut self)
        requires
            old(self).wf(),
        ensures
            final(self).wf(),
            old(self).selects(
                &*final(self),
                selected_to(
                    old(self).selection_view(),
                    old(self).reversed_view(),
                    old(self).previous_boundary_spec(old(self).cursor() as int) as usize,
                ).0,
                selected_to(
                    old(self).selection_view(),
                    old(self).reversed_view(),
                    old(self).previous_boundary_spec(old(self).cursor() as int) as usize,
                ).1,
            ),
    {
        let offset = self.previous_boundary(self.cursor_offset());
        self.select_to(offset);
    }

    /// Extends the selection to the grapheme boundary after the cursor.
    pub fn select_right(&mut self)
        requires
            old(self).wf(),
        ensures
            final(self).wf(),
            old(self).selects(
                &*final(self),
                selected_to(
                    old(self).selection_view(),
                    old(self).reversed_view(),
                    old(self).next_boundary_spec(old(self).cursor() as int) as usize,
                ).0,
                selected_to(
                    old(self).selection_view(),
                    old(self).reversed_view(),
                    old(self).next_boundary_spec(old(self).cursor() as int) as usize,
                ).1,
            ),
    {
        let offset = self.next_boundary(self.cursor_offset());
        self.select_to(offset);
    }

    /// Selects the whole value.
    pub fn select_all(&mut self)
        requires
            old(self).wf(),
        ensures
            final(self).wf(),
            old(self).selects(&*final(self), span(0, old(self).bytes_view().len() as int), false),
    {
        proof {
            broadcast use is_char_boundary_start_end_of_seq;

        }
        self.selected_range = 0..self.value.len();
        self.selection_reversed = false;
    }

    /// Moves the cursor to the start of the value.
    pub fn home(&mut self)
        requires
            old(self).wf(),
        ensures
            final(self).wf(),
            old(self).selects(&*final(self), span(0, 0), false),
    {
        proof {
            broadcast use is_char_boundary_start_end_of_seq;

        }
        self.move_to(0);
    }

    /// Moves the cursor to the end of the value.
    pub fn end(&mut self)
        requires
            old(self).wf(),
        ensures
            final(self).wf(),
            old(self).selects(
                &*final(self),
                span(old(self).bytes_view().len() as int, old(self).bytes_view().len() as int),
                false,
            ),
    {
        proof {
            broadcast use is_char_boundary_start_end_of_seq;

        }
        let len = self.value.len();
        self.move_to(len);
    }

    /// A press of the mouse puts the cursor at the end of the value.
    pub fn mouse_down(&mut self)
        requires
            old(self).wf(),
        ensures
            final(self).wf(),
            old(self).selects(
                &*final(self),
                span(old(self).bytes_view().len() as int, old(self).bytes_view().len() as int),
                false,
            ),
    {
        self.end();
    }

    /// Inserts pasted text in place of the marked range or the selection,
    /// with its line breaks turned into spaces.
    pub fn paste(&mut self, text: &str) -> (outcome: EditOutcome)
        requires
            old(self).wf(),
            old(self).fits(old(self).target_range(None), text.spec_bytes().len()),
        ensures
            final(self).wf(),
            old(self).replaces(
                &*final(self),
                old(self).selection_view(),
                old(self).reversed_view(),
                None,
                text.spec_bytes(),
                outcome,
            ),
    {
        self.replace_text_in_range(None, text)
    }

    /// The event a press of Enter reports: a submission for the primary
    /// Enter action, nothing otherwise.
    pub fn enter(&self, primary: bool) -> (event: Option<SensitiveInputEvent>)
        ensures
            event == (if primary { Some(SensitiveInputEvent::Submit) } else { None::<SensitiveInputEvent> }),
    {
        if primary {
            Some(SensitiveInputEvent::Submit)
        } else {
            None
        }
    }

    /// Escape cancels the input.
    pub fn escape(&mut self) -> (event: SensitiveInputEvent)
        ensures
            event == SensitiveInputEvent::Cancel,
            final(self).wf(),
            old(self).same_settings(&*final(self)),
            final(self).bytes_view() == Seq::<u8>::empty(),
            final(self).wipes_view() == old(self).wipes_view().push(wiped(old(self).bytes_view())),
            final(self).selection_view() == span(0, 0),
            !final(self).reversed_view(),
            final(self).marked_view() is None,
    {
        self.cancel()
    }
}

impl SensitiveInputState {
    /// Replaces the target of `range_utf16` like
    /// [`Self::replace_text_in_range`], then marks the inserted text (when
    /// there is any) and, when `new_selected_range_utf16` is given, selects
    /// its conversion offset by the start of the target.
    pub fn replace_and_mark_text_in_range(
        &mut self,
        range_utf16: Option<Range<usize>>,
        new_text: &str,
        new_selected_range_utf16: Option<Range<usize>>,
    ) -> (outcome: EditOutcome)
        requires
            old(self).inv(),
            range_utf16 is None ==> ends_ok(old(self).bytes_view(), old(self).target_range(range_utf16)),
            3 * old(self).bytes_view().len() + new_text.spec_bytes().len() <= usize::MAX,
        ensures
            final(self).inv(),
            old(self).same_settings(&*final(self)),
            final(self).reversed_view() == old(self).reversed_view(),
            ({
                let target = old(self).target_range(range_utf16);
                let inserted = line_break_bytes_to_spaces(new_text.spec_bytes());
                let replaced = if old(self).disabled_view() {
                    old(self).bytes_view()
                } else {
                    spliced(old(self).bytes_view(), target.start as int, target.end as int, inserted)
                };
                &&& outcome == (if old(self).disabled_view() {
                    EditOutcome::Ignored
                } else {
                    EditOutcome::Changed
                })
                &&& final(self).bytes_view() == replaced
                &&& final(self).wipes_view() == (if old(self).disabled_view() {
                    old(self).wipes_view()
                } else {
                    old(self).wipes_view().push(wiped(old(self).bytes_view()))
                })
                &&& final(self).marked_view() == (if new_text.spec_bytes().len() > 0 {
                    Some(span(target.start as int, target.start + new_text.spec_bytes().len()))
                } else if old(self).disabled_view() {
                    old(self).marked_view()
                } else {
                    None::<Range<usize>>
                })
                &&& final(self).selection_view() == (match new_selected_range_utf16 {
                    Some(r) => span(
                        target.start + utf16_to_utf8_offset(decode_utf8(replaced), r.start as int),
                        target.start + utf16_to_utf8_offset(decode_utf8(replaced), r.end as int),
                    ),
                    None => if old(self).disabled_view() {
                        old(self).selection_view()
                    } else {
                        span(target.start + inserted.len(), target.start + inserted.len())
                    },
                })
            }),
            !old(self).disabled_view() && new_selected_range_utf16 is None ==> final(self).wf(),
    {
        let range = match range_utf16 {
            Some(r) => self.range_from_utf16(&r),
            None => match &self.marked_range {
                Some(m) => m.start..m.end,
                None => self.selected_range.start..self.selected_range.end,
            },
        };
        let range16 = self.range_to_utf16(&range);
        proof {
            lemma_offset_utf16_roundtrip(self.bytes_view(), range.start as int);
            lemma_offset_utf16_roundtrip(self.bytes_view(), range.end as int);
        }
        assert(self.from_utf16(range16.start as int) == range.start);
        assert(self.from_utf16(range16.end as int) == range.end);
        let ghost before = *self;
        let outcome = self.replace_text_in_range(Some(range16), new_text);
        let text_len = new_text.as_bytes().len();
        assert(line_break_bytes_to_spaces(new_text.spec_bytes()).len() == text_len);
        assert(self.bytes_view().len() <= 2 * before.bytes_view().len() + text_len);
        if text_len > 0 {
            self.marked_range = Some(range.start..range.start + text_len);
        }
        if let Some(selected) = new_selected_range_utf16 {
            let bytes = self.range_from_utf16(&selected);
            self.selected_range = range.start + bytes.start..range.start + bytes.end;
        }
        outcome
    }

    /// The text in the UTF-16 range `range_utf16` and that range as it is
    /// adjusted to character boundaries.
    pub fn text_for_range(&self, range_utf16: Range<usize>) -> (result: (String, Range<usize>))
        requires
            self.inv(),
            self.from_utf16(range_utf16.start as int) <= self.from_utf16(range_utf16.end as int),
        ensures
            result.0@ == decode_utf8(
                self.bytes_view().subrange(
                    self.from_utf16(range_utf16.start as int),
                    self.from_utf16(range_utf16.end as int),
                ),
            ),
            result.1 == span(
                self.to_utf16(self.from_utf16(range_utf16.start as int)),
                self.to_utf16(self.from_utf16(range_utf16.end as int)),
            ),
    {
        let range = self.range_from_utf16(&range_utf16);
        let adjusted = self.range_to_utf16(&range);
        let text = self.value.expose();
        proof {
            lemma_boundary_in_prefix(self.bytes_view(), range.start as int, range.end as int);
        }
        let (prefix, _) = text.split_at(range.end);
        proof {
            assert(prefix.spec_bytes() =~= self.bytes_view().take(range.end as int));
        }
        let (_, middle) = prefix.split_at(range.start);
        proof {
            broadcast use encode_utf8_decode_utf8;

            assert(middle.spec_bytes() =~= self.bytes_view().subrange(range.start as int, range.end as int));
        }
        (middle.to_owned(), adjusted)
    }

    /// The selection in UTF-16 offsets and whether it is reversed.
    pub fn selected_text_range(&self) -> (result: (Range<usize>, bool))
        requires
            self.wf(),
        ensures
            result.0 == span(
                self.to_utf16(self.selection_view().start as int),
                self.to_utf16(self.selection_view().end as int),
            ),
            result.1 == self.reversed_view(),
    {
        (self.range_to_utf16(&self.selected_range), self.selection_reversed)
    }

    /// The marked range in UTF-16 offsets, if any.
    pub fn marked_text_range(&self) -> (result: Option<Range<usize>>)
        requires
            self.wf(),
        ensures
            result == (match self.marked_view() {
                Some(m) => Some(span(self.to_utf16(m.start as int), self.to_utf16(m.end as int))),
                None => None::<Range<usize>>,
            }),
    {
        match &self.marked_range {
            Some(m) => Some(self.range_to_utf16(m)),
            None => None,
        }
    }

    /// Forgets the marked range.
    pub fn unmark_text(&mut self)
        ensures
            old(self).same_settings(&*final(self)),
            final(self).bytes_view() == old(self).bytes_view(),
            final(self).selection_view() == old(self).selection_view(),
            final(self).reversed_view() == old(self).reversed_view(),
            final(self).marked_view() is None,
            final(self).wipes_view() == old(self).wipes_view(),
            final(self).inv() == old(self).inv(),
            old(self).wf() ==> final(self).wf(),
    {
        self.marked_range = None;
    }

    /// Where the byte offset `offset` falls in the displayed text: a masked,
    /// non-empty value shows one three-byte bullet per grapheme.
    pub fn display_offset(&self, offset: usize) -> (shown: usize)
        requires
            self.inv(),
            offset <= self.bytes_view().len(),
            is_char_boundary(self.bytes_view(), offset as int),
            3 * self.bytes_view().len() <= usize::MAX,
        ensures
            shown == (if self.masked_view() && self.bytes_view().len() > 0 {
                3 * grapheme_starts(decode_utf8(self.bytes_view().take(offset as int))).len()
            } else {
                offset as nat
            }),
    {
        if self.masked && !self.value.is_empty() {
            let text = self.value.expose();
            let (prefix, _) = text.split_at(offset);
            let starts = grapheme_offsets(prefix);
            proof {
                broadcast use encode_utf8_decode_utf8;

                assert(prefix.spec_bytes() =~= self.bytes_view().take(offset as int));
                lemma_increasing_len(starts@, offset as int);
            }
            starts.len() * 3
        } else {
            offset
        }
    }

    /// The text to display: the placeholder while the value is empty, one
    /// bullet per grapheme while it is masked, else the value itself.
    pub fn display_text(&self) -> (shown: String)
        requires
            self.inv(),
        ensures
            shown@ == (if self.bytes_view().len() == 0 {
                self.placeholder_view()
            } else if self.masked_view() {
                Seq::new(grapheme_starts(self.text()).len(), |i: int| '•')
            } else {
                self.text()
            }),
    {
        proof {
            broadcast use encode_utf8_decode_utf8;

        }
        if self.value.is_empty() {
            self.placeholder.clone()
        } else if self.masked {
            let starts = grapheme_offsets(self.value.expose());
            let count = starts.len();
            let mut shown = String::new();
            let bullet = "•";
            proof {
                reveal_strlit("•");
            }
            let mut i: usize = 0;
            while i < count
                invariant
                    i <= count,
                    bullet@ == seq!['•'],
                    shown@ == Seq::new(i as nat, |j: int| '•'),
                decreases count - i,
            {
                shown.append(bullet);
                assert(shown@ =~= Seq::new((i + 1) as nat, |j: int| '•'));
                i = i + 1;
            }
            shown
        } else {
            self.value.expose().to_owned()
        }
    }
}

/// Converting a byte offset on a character boundary of the value to UTF-16
/// and back gives the same offset.
pub proof fn law_utf16_offset_roundtrip(state: SensitiveInputState, offset: int)
    requires
        state.inv(),
        0 <= offset <= state.bytes_view().len(),
        is_char_boundary(state.bytes_view(), offset),
    ensures
        state.from_utf16(state.to_utf16(offset)) == offset,
{
    lemma_offset_utf16_roundtrip(state.bytes_view(), offset);
}

/// Text written into an empty, enabled input is what the input then holds,
/// with its line breaks turned into spaces; taking the value hands exactly
/// these bytes over.
pub proof fn law_empty_input_holds_written_text(
    before: SensitiveInputState,
    after: SensitiveInputState,
    text: Seq<u8>,
    outcome: EditOutcome,
)
    requires
        before.wf(),
        before.bytes_view().len() == 0,
        !before.disabled_view(),
        before.replaces(&after, before.selection_view(), before.reversed_view(), None, text, outcome),
    ensures
        outcome == EditOutcome::Changed,
        after.bytes_view() == line_break_bytes_to_spaces(text),
        after.selection_view() == span(text.len() as int, text.len() as int),
{
    let target = match before.marked_view() {
        Some(m) => m,
        None => before.selection_view(),
    };
    assert(target.start == 0 && target.end == 0);
    assert(spliced(before.bytes_view(), 0, 0, line_break_bytes_to_spaces(text)) =~= line_break_bytes_to_spaces(
        text,
    ));
}

/// A disabled input keeps its value through every edit.
pub proof fn law_disabled_input_keeps_value(
    before: SensitiveInputState,
    after: SensitiveInputState,
    selection: Range<usize>,
    reversed: bool,
    range_utf16: Option<Range<usize>>,
    text: Seq<u8>,
    outcome: EditOutcome,
)
    requires
        before.disabled_view(),
        before.replaces(&after, selection, reversed, range_utf16, text, outcome),
    ensures
        outcome == EditOutcome::Ignored,
        after.bytes_view() == before.bytes_view(),
        after.disabled_view(),
{
}

/// The starts are strictly increasing.
pub open spec fn increasing(starts: Seq<usize>) -> bool {
    forall|i: int, j: int| 0 <= i < j < starts.len() ==> starts[i] < starts[j]
}

/// Over increasing starts, the boundary before `x` is the last start below it.
proof fn lemma_last_start_before(starts: Seq<usize>, x: int, k: int)
    requires
        increasing(starts),
        0 <= k < starts.len(),
        starts[k] < x,
        k + 1 == starts.len() || starts[k + 1] >= x,
    ensures
        last_start_before(starts, x) == starts[k],
    decreases starts.len(),
{
    if (starts.last() as int) >= x {
        assert(k + 1 < starts.len());
        lemma_last_start_before(starts.drop_last(), x, k);
    }
}

/// Over increasing starts, the boundary after `x` is the first start above it.
proof fn lemma_first_start_after(starts: Seq<usize>, x: int, end: int, k: int)
    requires
        increasing(starts),
        0 <= k < starts.len(),
        starts[k] > x,
        k == 0 || starts[k - 1] <= x,
    ensures
        first_start_after(starts, x, end) == starts[k],
    decreases starts.len(),
{
    if (starts[0] as int) <= x {
        assert(k > 0);
        lemma_first_start_after(starts.drop_first(), x, end, k - 1);
    }
}

/// Over increasing starts none of which lies above `x`, there is no
/// boundary after `x` but the end.
proof fn lemma_no_start_after(starts: Seq<usize>, x: int, end: int)
    requires
        forall|i: int| 0 <= i < starts.len() ==> starts[i] <= x,
    ensures
        first_start_after(starts, x, end) == end,
    decreases starts.len(),
{
    if starts.len() > 0 {
        lemma_no_start_after(starts.drop_first(), x, end);
    }
}

/// Moving the cursor by grapheme undoes itself: from a grapheme start, the
/// boundary before the next boundary is that start again; and from a start
/// after the first one, or from the end, the boundary after the previous
/// boundary is where the cursor was. (The grapheme starts of a value are
/// increasing, lie before its end and begin at 0.)
pub proof fn law_grapheme_steps_undo_each_other(starts: Seq<usize>, b: int, end: int)
    requires
        increasing(starts),
        forall|i: int| 0 <= i < starts.len() ==> starts[i] < end,
        starts.len() > 0 ==> starts[0] == 0,
    ensures
        (exists|k: int| 0 <= k < starts.len() && starts[k] == b) ==> last_start_before(
            starts,
            first_start_after(starts, b, end),
        ) == b,
        ((exists|k: int| 0 <= k < starts.len() && starts[k] == b && b > 0) || (b == end && end > 0))
            ==> first_start_after(starts, last_start_before(starts, b), end) == b,
{
    if exists|k: int| 0 <= k < starts.len() && starts[k] == b {
        let k = choose|k: int| 0 <= k < starts.len() && starts[k] == b;
        if k + 1 < starts.len() {
            lemma_first_start_after(starts, b, end, k + 1);
            lemma_last_start_before(starts, starts[k + 1] as int, k);
        } else {
            lemma_no_start_after(starts, b, end);
            lemma_last_start_before(starts, end, k);
        }
        if b > 0 {
            assert(k > 0);
            lemma_last_start_before(starts, b, k - 1);
            lemma_first_start_after(starts, starts[k - 1] as int, end, k);
        }
    }
    if b == end && end > 0 {
        if starts.len() > 0 {
            let last = starts.len() - 1;
            lemma_last_start_before(starts, end, last);
            lemma_no_start_after(starts, starts[last] as int, end);
        } else {
            lemma_no_start_after(starts, 0, end);
        }
    }
}

/// Over increasing starts with one above `x`, the boundary after `x` is a
/// start above `x`, and no start above `x` comes before it.
proof fn lemma_first_start_after_is_least(starts: Seq<usize>, x: int, end: int)
    requires
        increasing(starts),
        exists|k: int| 0 <= k < starts.len() && starts[k] > x,
    ensures
        exists|k: int| 0 <= k < starts.len() && starts[k] == first_start_after(starts, x, end),
        first_start_after(starts, x, end) > x,
        forall|j: int| 0 <= j < starts.len() && starts[j] > x ==> starts[j] >= first_start_after(starts, x, end),
    decreases starts.len(),
{
    if (starts[0] as int) <= x {
        let rest = starts.drop_first();
        let k = choose|k: int| 0 <= k < starts.len() && starts[k] > x;
        assert(rest[k - 1] > x);
        lemma_first_start_after_is_least(rest, x, end);
        let k2 = choose|k2: int| 0 <= k2 < rest.len() && rest[k2] == first_start_after(rest, x, end);
        assert(starts[k2 + 1] == first_start_after(starts, x, end));
        assert forall|j: int| 0 <= j < starts.len() && starts[j] > x implies starts[j] >= first_start_after(
            starts,
            x,
            end,
        ) by {
            assert(j > 0);
            assert(starts[j] == rest[j - 1]);
        }
    } else {
        assert(starts[0] == first_start_after(starts, x, end));
    }
}

/// Over starts none of which lies below `x`, there is no boundary before
/// `x` but the start of the value.
proof fn lemma_no_start_before(starts: Seq<usize>, x: int)
    requires
        forall|i: int| 0 <= i < starts.len() ==> starts[i] >= x,
    ensures
        last_start_before(starts, x) == 0,
    decreases starts.len(),
{
    if starts.len() > 0 {
        lemma_no_start_before(starts.drop_last(), x);
    }
}

/// When no grapheme of the value starts after `offset`, the boundary after
/// it is the end of the value, so Delete before the last grapheme removes
/// it and Right moves onto the end; when no grapheme starts before
/// `offset`, the boundary before it is the start of the value.
pub proof fn law_boundaries_at_the_ends(state: SensitiveInputState, offset: int)
    ensures
        (forall|k: int|
            0 <= k < grapheme_starts(state.text()).len() ==> grapheme_starts(state.text())[k] <= offset)
            ==> state.next_boundary_spec(offset) == state.bytes_view().len(),
        (forall|k: int|
            0 <= k < grapheme_starts(state.text()).len() ==> grapheme_starts(state.text())[k] >= offset)
            ==> state.previous_boundary_spec(offset) == 0,
{
    let starts = grapheme_starts(state.text());
    if forall|k: int| 0 <= k < starts.len() ==> starts[k] <= offset {
        lemma_no_start_after(starts, offset, state.bytes_view().len() as int);
    }
    if forall|k: int| 0 <= k < starts.len() ==> starts[k] >= offset {
        lemma_no_start_before(starts, offset);
    }
}

/// Over increasing grapheme starts (as the segmentation yields them), the
/// boundary after `offset`, when some grapheme starts after it, is the
/// nearest such start: a grapheme start, after `offset`, with no grapheme
/// start between the two.
pub proof fn law_next_boundary_is_nearest_start(state: SensitiveInputState, offset: int)
    requires
        increasing(grapheme_starts(state.text())),
        exists|k: int|
            0 <= k < grapheme_starts(state.text()).len() && grapheme_starts(state.text())[k] > offset,
    ensures
        state.next_boundary_spec(offset) > offset,
        exists|k: int|
            0 <= k < grapheme_starts(state.text()).len() && grapheme_starts(state.text())[k]
                == state.next_boundary_spec(offset),
        forall|j: int|
            0 <= j < grapheme_starts(state.text()).len() && grapheme_starts(state.text())[j] > offset
                ==> grapheme_starts(state.text())[j] >= state.next_boundary_spec(offset),
{
    lemma_first_start_after_is_least(grapheme_starts(state.text()), offset, state.bytes_view().len() as int);
}

} // verus!
