//! Texts as sequences of characters, and the standard-library conversions the
//! request pipeline relies on.

use vstd::prelude::*;

verus! {

/// The lowercase form of a text, as `str::to_lowercase` computes it.
///
/// Lowercasing follows Unicode's case tables, which are far too large to write
/// down here, so the result is only named: equal texts have equal lowercase
/// forms, and nothing else is known of it.
pub uninterp spec fn lowercase(text: Seq<char>) -> Seq<char>;

/// `str::to_lowercase` is trusted to return the lowercase form of its argument,
/// a value that depends on the characters of the argument alone.
pub assume_specification[ str::to_lowercase ](text: &str) -> (lowered: String)
    ensures
        lowered@ == lowercase(text@),
;

/// `String::from(&str)` is trusted to return an owned string holding the same
/// characters as the slice it is given.
pub assume_specification<'a>[ <String as From<&str>>::from ](text: &str) -> (owned: String)
    ensures
        owned@ == text@,
;

/// The reflexive `From::from`, which `Into::into` reaches when an owned
/// string is handed over where anything convertible into a `String` is taken,
/// is trusted to return its argument unchanged.
pub assume_specification<T>[ <T as From<T>>::from ](value: T) -> (same: T)
    ensures
        same == value,
;

/// Whether `text` is a text that converting `value` into a `String` may yield.
///
/// The conversion belongs to the type of `value`; for a string slice and for
/// an owned string it yields the characters of `value` and nothing else, as
/// [`lemma_str_converts_to_itself`] and [`lemma_string_converts_to_itself`]
/// show.
pub open spec fn converts_to<S: Into<String>>(value: S, text: Seq<char>) -> bool {
    exists|converted: String| #[trigger]
        call_ensures(<S as Into<String>>::into, (value,), converted) && converted@ == text
}

/// A string slice converts to its own characters only.
pub proof fn lemma_str_converts_to_itself(value: &str, text: Seq<char>)
    requires
        converts_to(value, text),
    ensures
        text == value@,
{
}

/// An owned string converts to its own characters only.
pub proof fn lemma_string_converts_to_itself(value: String, text: Seq<char>)
    requires
        converts_to(value, text),
    ensures
        text == value@,
{
}

} // verus!
