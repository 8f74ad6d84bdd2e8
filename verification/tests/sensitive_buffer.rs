use std::cell::RefCell;
use std::rc::Rc;

use shilpo_m3e::sensitive::{SensitiveBuffer, SensitiveValue, WipeObserver, WipeRecord};

/// An observer that keeps every wipe it is told of.
#[derive(Clone, Default)]
struct Records(Rc<RefCell<Vec<WipeRecord>>>);

impl WipeObserver for Records {
    fn observe_wipe(&self, record: WipeRecord) {
        self.0.borrow_mut().push(record);
    }
}

fn observed(initial: &[u8]) -> (SensitiveBuffer<Records>, Records) {
    let records = Records::default();
    let buffer = SensitiveBuffer::with_wipe_observer(initial, records.clone());
    (buffer, records)
}

#[test]
fn replacement_wipes_superseded_allocation() {
    let (mut buffer, wipes) = observed(b"old-secret");
    buffer.replace(4..10, "response");

    assert_eq!(buffer.expose(), "old-response");
    assert_eq!(
        wipes.0.borrow().as_slice(),
        &[WipeRecord {
            len: b"old-secret".len(),
            all_zero: true,
        }]
    );
}

#[test]
fn clear_take_and_drop_are_observable_and_leave_no_recoverable_history() {
    let (mut buffer, wipes) = observed(b"first");
    buffer.clear();
    buffer.replace(0..0, "second");
    let taken = buffer.take();
    assert_eq!(taken.expose(), "second");
    taken.discard();
    buffer.discard();

    assert_eq!(
        wipes.0.borrow().as_slice(),
        &[
            WipeRecord {
                len: 5,
                all_zero: true
            },
            WipeRecord {
                len: 0,
                all_zero: true
            },
            WipeRecord {
                len: 6,
                all_zero: true
            },
            WipeRecord {
                len: 0,
                all_zero: true
            },
        ]
    );
}

#[test]
fn default_buffer_is_empty() {
    let buffer: SensitiveBuffer<()> = SensitiveBuffer::default();
    assert!(buffer.is_empty());
    assert_eq!(buffer.len(), 0);
    assert_eq!(buffer.expose(), "");
}

#[test]
fn replace_keeps_multibyte_text_intact() {
    let (mut buffer, wipes) = observed("pässwörd".as_bytes());
    // "pä" is three bytes; replace "ss" (bytes 3..5) by "ß".
    buffer.replace(3..5, "ß");
    assert_eq!(buffer.expose(), "päßwörd");
    assert_eq!(buffer.len(), "päßwörd".len());
    assert!(!buffer.is_empty());
    assert_eq!(wipes.0.borrow().len(), 1);
    assert_eq!(wipes.0.borrow()[0].len, "pässwörd".len());
}

#[test]
fn replace_inserts_at_end_and_front() {
    let (mut buffer, _) = observed(b"mid");
    buffer.replace(3..3, "-end");
    buffer.replace(0..0, "start-");
    assert_eq!(buffer.expose(), "start-mid-end");
}

#[test]
fn take_moves_value_and_empties_buffer() {
    let (mut buffer, wipes) = observed(b"token");
    let value: SensitiveValue<Records> = buffer.take();
    assert!(buffer.is_empty());
    assert_eq!(value.expose(), "token");
    // Taking wipes nothing: the bytes moved.
    assert!(wipes.0.borrow().is_empty());
    let bytes = value.into_bytes();
    assert_eq!(bytes, b"token".to_vec());
}

#[test]
fn clear_reports_length_of_cleared_text() {
    let (mut buffer, wipes) = observed(b"abc");
    buffer.clear();
    assert!(buffer.is_empty());
    assert_eq!(
        wipes.0.borrow().as_slice(),
        &[WipeRecord {
            len: 3,
            all_zero: true
        }]
    );
}

#[test]
fn discard_returns_the_record_it_reports() {
    let (buffer, wipes) = observed(b"pin-1234");
    let record = buffer.discard();
    assert_eq!(
        record,
        WipeRecord {
            len: 8,
            all_zero: true
        }
    );
    assert_eq!(wipes.0.borrow().as_slice(), &[record]);
}

#[test]
fn every_replacement_reports_one_wipe_of_the_old_length() {
    let (mut buffer, wipes) = observed(b"ab");
    buffer.replace(2..2, "c");
    buffer.replace(0..1, "");
    buffer.clear();
    let lens: Vec<usize> = wipes.0.borrow().iter().map(|r| r.len).collect();
    assert_eq!(lens, vec![2, 3, 2]);
    assert!(wipes.0.borrow().iter().all(|r| r.all_zero));
}
