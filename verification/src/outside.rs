//! The calls this library makes into `zeroize`, `unicode-segmentation` and
//! the parts of `std` that vstd leaves unspecified, each with the contract
//! that the rest of the crate relies on.

use unicode_segmentation::UnicodeSegmentation;
use vstd::prelude::*;
use vstd::utf8::*;
use vstd::string::StringSliceAdditionalSpecFns;
use zeroize::{Zeroize, Zeroizing};

verus! {

/// `<Vec<u8> as zeroize::Zeroize>::zeroize`: overwrites the spare capacity
/// and every element with zero, then clears the vector, so afterwards it is
/// empty. The contract states only the emptiness, which is what Verus can see.
#[verifier::external_body]
pub(crate) fn zeroize_bytes(bytes: &mut Vec<u8>)
    ensures
        final(bytes)@ == Seq::<u8>::empty(),
{
    bytes.zeroize();
}

/// `std::str::from_utf8`: succeeds exactly when the bytes are valid UTF-8,
/// and then yields a string slice whose bytes are the input.
#[verifier::external_body]
pub(crate) fn utf8_str(bytes: &[u8]) -> (res: Option<&str>)
    ensures
        res is Some <==> valid_utf8(bytes@),
        res matches Some(s) ==> s.spec_bytes() == bytes@,
{
    std::str::from_utf8(bytes).ok()
}

/// A `zeroize::Zeroizing<Vec<u8>>`, which zeroizes the vector it holds when
/// it is dropped. Verus refuses a declaration of the generic `Zeroizing`
/// (its `Zeroize` bound), so it is held here, opaque, in a private field.
#[verifier::external_body]
pub struct GuardedBytes {
    inner: Zeroizing<Vec<u8>>,
}

/// The bytes held by a guard.
pub uninterp spec fn guarded_bytes(guard: GuardedBytes) -> Seq<u8>;

/// `Zeroizing::new`: moves the vector into a guard that holds exactly its bytes.
#[verifier::external_body]
pub(crate) fn guard_new(bytes: Vec<u8>) -> (guard: GuardedBytes)
    ensures
        guarded_bytes(guard) == bytes@,
{
    GuardedBytes { inner: Zeroizing::new(bytes) }
}

/// `<Zeroizing<Vec<u8>> as Deref>::deref`, then `Vec::as_slice`: borrows the guarded bytes.
#[verifier::external_body]
pub(crate) fn guard_slice(guard: &GuardedBytes) -> (bytes: &[u8])
    ensures
        bytes@ == guarded_bytes(*guard),
{
    guard.inner.as_slice()
}

/// `std::mem::replace` through `<Zeroizing<Vec<u8>> as DerefMut>::deref_mut`:
/// the guard now holds `bytes` and the vector it held before is handed back.
#[verifier::external_body]
pub(crate) fn guard_replace(guard: &mut GuardedBytes, bytes: Vec<u8>) -> (previous: Vec<u8>)
    ensures
        guarded_bytes(*final(guard)) == bytes@,
        previous@ == guarded_bytes(*old(guard)),
{
    std::mem::replace(&mut *guard.inner, bytes)
}

/// The byte offsets at which `unicode_segmentation` starts the extended
/// grapheme clusters of a string, in order.
pub uninterp spec fn grapheme_starts(s: Seq<char>) -> Seq<usize>;

/// `UnicodeSegmentation::grapheme_indices(s, true)`, keeping each cluster's
/// byte offset. The clusters are non-empty and partition the string in order,
/// so the offsets strictly increase, each is a character boundary before the
/// end of the string, and the first is 0 when the string is not empty.
#[verifier::external_body]
pub(crate) fn grapheme_offsets(s: &str) -> (offsets: Vec<usize>)
    ensures
        offsets@ == grapheme_starts(s@),
        forall|i: int, j: int| 0 <= i < j < offsets@.len() ==> offsets@[i] < offsets@[j],
        forall|i: int|
            0 <= i < offsets@.len() ==> offsets@[i] < s.spec_bytes().len() && is_char_boundary(
                s.spec_bytes(),
                offsets@[i] as int,
            ),
        s@.len() > 0 ==> offsets@.len() > 0 && offsets@[0] == 0,
{
    s.grapheme_indices(true).map(|(index, _)| index).collect()
}

/// `String::push`: appends `c` to the end of the string.
#[verifier::external_body]
pub(crate) fn push_char(s: &mut String, c: char)
    ensures
        final(s)@ == old(s)@.push(c),
{
    s.push(c);
}

/// How `str::to_lowercase` lowercases a string (Unicode's full lowercase
/// mapping, which does not depend on the locale).
pub uninterp spec fn lowercase(s: Seq<char>) -> Seq<char>;

/// `str::to_lowercase`.
#[verifier::external_body]
pub(crate) fn to_lowercase(s: &str) -> (lower: String)
    ensures
        lower@ == lowercase(s@),
{
    s.to_lowercase()
}

} // verus!
