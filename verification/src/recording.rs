//! The decisions of the recording source picker: which event a selection,
//! a cancellation or a key press reports, and whether the window closes.

use crate::color::{ascii_lower, to_ascii_lowercase};
use crate::strings::str_eq;
use vstd::prelude::*;

verus! {

broadcast use vstd::string::group_string_axioms;

/// One screen or window offered by the recording source picker.
#[derive(Clone, Debug, PartialEq, Eq)]
pub struct RecordingSourceOption {
    pub label: String,
    pub description: String,
}

impl RecordingSourceOption {
    /// The option with the given label and description.
    pub fn new(label: String, description: String) -> (option: Self)
        ensures
            option.label == label,
            option.description == description,
    {
        Self { label, description }
    }
}

/// User actions reported by the recording source picker.
#[derive(Clone, Copy, Debug, PartialEq, Eq, Structural)]
pub enum RecordingSourcePickerEvent {
    Selected(usize),
    Cancelled,
}

/// What the picker does in answer to an action: the event it reports and
/// whether it closes its window.
#[derive(Clone, Copy, Debug, PartialEq, Eq, Structural)]
pub struct PickerResponse {
    pub event: RecordingSourcePickerEvent,
    pub close_window: bool,
}

/// The state of the picker that its decisions depend on: the offered
/// sources and whether it closes its window once the user has chosen.
pub struct RecordingSourcePicker {
    pub options: Vec<RecordingSourceOption>,
    pub dismiss_window: bool,
}

impl RecordingSourcePicker {
    /// A picker offering `options` that leaves its window open.
    pub fn new(options: Vec<RecordingSourceOption>) -> (picker: Self)
        ensures
            picker.options@ == options@,
            !picker.dismiss_window,
    {
        Self { options, dismiss_window: false }
    }

    /// This picker, closing its window after a selection or cancellation.
    pub fn dismiss_window(self) -> (picker: Self)
        ensures
            picker.options@ == self.options@,
            picker.dismiss_window,
    {
        let mut picker = self;
        picker.dismiss_window = true;
        picker
    }

    /// The answer to choosing the option at `index`.
    pub fn select(&self, index: usize) -> (response: PickerResponse)
        ensures
            response == (PickerResponse {
                event: RecordingSourcePickerEvent::Selected(index),
                close_window: self.dismiss_window,
            }),
    {
        PickerResponse { event: RecordingSourcePickerEvent::Selected(index), close_window: self.dismiss_window }
    }

    /// The answer to a cancellation (a press on the backdrop or Escape).
    pub fn cancel(&self) -> (response: PickerResponse)
        ensures
            response == (PickerResponse {
                event: RecordingSourcePickerEvent::Cancelled,
                close_window: self.dismiss_window,
            }),
    {
        PickerResponse { event: RecordingSourcePickerEvent::Cancelled, close_window: self.dismiss_window }
    }

    /// The answer to a key press: Escape, in any ASCII case, cancels; any
    /// other key is ignored.
    pub fn key_down(&self, key: &str) -> (response: Option<PickerResponse>)
        ensures
            response == (if key@.map_values(|c: char| ascii_lower(c)) == "escape"@ {
                Some(
                    PickerResponse {
                        event: RecordingSourcePickerEvent::Cancelled,
                        close_window: self.dismiss_window,
                    },
                )
            } else {
                None::<PickerResponse>
            }),
    {
        let lower = to_ascii_lowercase(key);
        if str_eq(lower.as_str(), "escape") {
            Some(self.cancel())
        } else {
            None
        }
    }

    /// Whether the picker shows the note that nothing can be recorded.
    pub fn shows_empty_note(&self) -> (empty: bool)
        ensures
            empty == (self.options@.len() == 0),
    {
        self.options.len() == 0
    }
}

} // verus!
