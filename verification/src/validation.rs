//! The rules that a dictionary type and a dictionary item must meet.
use vstd::prelude::*;
use crate::error::DictionaryError;
use crate::text::{law_trim_idempotent, lemma_trimmed_shape, all_code_chars, byte_len, byte_len_within, char_count, chars_of, is_code_char, trim, trimmed};

verus! {

/// Lowest sort order an item may have.
pub const MIN_SORT_ORDER: i32 = -1_000_000;

/// Highest sort order an item may have.
pub const MAX_SORT_ORDER: i32 = 1_000_000;

/// Outcome of checking a type's code, name and description, in this order:
/// the trimmed code must be 2 to 64 bytes long and consist of code characters,
/// the trimmed name 1 to 80 characters long, and the untrimmed description at
/// most 500 characters long.
pub open spec fn type_check(code: Seq<char>, name: Seq<char>, description: Seq<char>) -> Result<
    (),
    DictionaryError,
> {
    let code = trimmed(code);
    let name = trimmed(name);
    if !(2 <= byte_len(code) <= 64) {
        Err(DictionaryError::TypeCodeLength)
    } else if !(forall|k: int| 0 <= k < code.len() ==> is_code_char(#[trigger] code[k])) {
        Err(DictionaryError::TypeCodeCharacters)
    } else if name.len() == 0 || name.len() > 80 {
        Err(DictionaryError::TypeNameLength)
    } else if description.len() > 500 {
        Err(DictionaryError::TypeDescriptionTooLong)
    } else {
        Ok(())
    }
}

/// Outcome of checking an item's value, label and sort order, in this order:
/// the trimmed value must be 1 to 255 characters long, the trimmed label 1 to
/// 120 characters long, and the sort order within `MIN_SORT_ORDER..=MAX_SORT_ORDER`.
pub open spec fn item_check(value: Seq<char>, label: Seq<char>, sort_order: i32) -> Result<
    (),
    DictionaryError,
> {
    let value = trimmed(value);
    let label = trimmed(label);
    if value.len() == 0 || value.len() > 255 {
        Err(DictionaryError::ItemValueLength)
    } else if label.len() == 0 || label.len() > 120 {
        Err(DictionaryError::ItemLabelLength)
    } else if !(MIN_SORT_ORDER <= sort_order <= MAX_SORT_ORDER) {
        Err(DictionaryError::SortOrderOutOfRange)
    } else {
        Ok(())
    }
}

/// A type stored from a valid request is valid again as it is stored: its
/// trimmed code, name and description pass the same check, and trimming them
/// once more changes nothing. Submitting a stored type unchanged is accepted.
pub proof fn law_stored_type_revalidates(code: Seq<char>, name: Seq<char>, description: Seq<char>)
    requires
        type_check(code, name, description) is Ok,
    ensures
        type_check(trimmed(code), trimmed(name), trimmed(description)) is Ok,
        trimmed(trimmed(code)) == trimmed(code),
        trimmed(trimmed(name)) == trimmed(name),
        trimmed(trimmed(description)) == trimmed(description),
{
    law_trim_idempotent(code);
    law_trim_idempotent(name);
    law_trim_idempotent(description);
    lemma_trimmed_shape(description);
}

/// An item stored from a valid request is valid again as it is stored, and
/// trimming its value and label once more changes nothing.
pub proof fn law_stored_item_revalidates(value: Seq<char>, label: Seq<char>, sort_order: i32)
    requires
        item_check(value, label, sort_order) is Ok,
    ensures
        item_check(trimmed(value), trimmed(label), sort_order) is Ok,
        trimmed(trimmed(value)) == trimmed(value),
        trimmed(trimmed(label)) == trimmed(label),
{
    law_trim_idempotent(value);
    law_trim_idempotent(label);
}

/// Checks the fields of a dictionary type before it is stored.
pub fn validate_type(code: &str, name: &str, description: &str) -> (r: Result<(), DictionaryError>)
    ensures
        r == type_check(code@, name@, description@),
{
    let code_chars = chars_of(trim(code));
    if !byte_len_within(&code_chars, 2, 64) {
        return Err(DictionaryError::TypeCodeLength);
    }
    if !all_code_chars(&code_chars) {
        return Err(DictionaryError::TypeCodeCharacters);
    }
    let name_len = char_count(trim(name));
    if name_len == 0 || name_len > 80 {
        return Err(DictionaryError::TypeNameLength);
    }
    if char_count(description) > 500 {
        return Err(DictionaryError::TypeDescriptionTooLong);
    }
    Ok(())
}

/// Checks the fields of a dictionary item before it is stored.
pub fn validate_item(value: &str, label: &str, sort_order: i32) -> (r: Result<(), DictionaryError>)
    ensures
        r == item_check(value@, label@, sort_order),
{
    let value_len = char_count(trim(value));
    if value_len == 0 || value_len > 255 {
        return Err(DictionaryError::ItemValueLength);
    }
    let label_len = char_count(trim(label));
    if label_len == 0 || label_len > 120 {
        return Err(DictionaryError::ItemLabelLength);
    }
    if !(MIN_SORT_ORDER <= sort_order && sort_order <= MAX_SORT_ORDER) {
        return Err(DictionaryError::SortOrderOutOfRange);
    }
    Ok(())
}

} // verus!
