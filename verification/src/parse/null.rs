//! NUL-terminated fields.

use vstd::prelude::*;
use crate::text::find_from;
use crate::text::lemma_find_from_bounds;
use crate::text::slice_to_string;
use crate::text::spec_find_from;
use crate::text::to_chars;

verus! {

/// A field of one or more characters that ends at the next NUL.
///
/// `Ok` holds the field and the position after its NUL. `Err` holds the position
/// where the grammar broke: `pos` for an empty field, the end of the input when
/// no NUL follows.
pub open spec fn spec_till_null(s: Seq<char>, pos: int) -> Result<(Seq<char>, int), int> {
    let end = spec_find_from(s, pos, '\0');
    if end == pos || pos < 0 || pos > s.len() {
        Err(pos)
    } else if end >= s.len() {
        Err(s.len() as int)
    } else {
        Ok((s.subrange(pos, end), end + 1))
    }
}

/// A parsed field lies inside the input, is not empty and holds no NUL.
pub proof fn lemma_till_null(s: Seq<char>, pos: int)
    requires
        0 <= pos <= s.len(),
    ensures
        match spec_till_null(s, pos) {
            Ok((field, next)) => {
                &&& field.len() > 0
                &&& next == pos + field.len() + 1
                &&& next <= s.len()
                &&& s[next - 1] == '\0'
                &&& forall|k: int| 0 <= k < field.len() ==> field[k] != '\0'
            },
            Err(offset) => pos <= offset <= s.len(),
        },
{
    lemma_find_from_bounds(s, pos, '\0');
}

/// A field that is written with its NUL is read back: after `before`, the field
/// `field` and a NUL, whatever follows.
pub proof fn lemma_till_null_reads_field(before: Seq<char>, field: Seq<char>, after: Seq<char>)
    requires
        field.len() > 0,
        forall|k: int| 0 <= k < field.len() ==> field[k] != '\0',
    ensures
        spec_till_null(before + field + seq!['\0'] + after, before.len() as int) == Ok::<_, int>(
            (field, (before.len() + field.len() + 1) as int),
        ),
{
    let s = before + field + seq!['\0'] + after;
    let pos = before.len() as int;
    let end = pos + field.len();
    lemma_find_from_bounds(s, pos, '\0');
    assert(s[end] == '\0');
    assert forall|k: int| pos <= k < end implies s[k] != '\0' by {
        assert(s[k] == field[k - pos]);
    }
    assert(spec_find_from(s, pos, '\0') == end);
    assert(s.subrange(pos, end) =~= field);
}

/// Reads the NUL-terminated field that starts at the position `pos` of `input`.
pub fn till_null(input: &str, pos: usize) -> (field: Result<(String, usize), usize>)
    ensures
        match field {
            Ok((text, next)) => spec_till_null(input@, pos as int) == Ok::<_, int>((text@, next as int)),
            Err(offset) => spec_till_null(input@, pos as int) == Err::<(Seq<char>, int), _>(offset as int),
        },
{
    let chars = to_chars(input);
    if pos > chars.len() {
        Err(pos)
    } else {
        till_null_at(input, &chars, pos)
    }
}

/// Reads the NUL-terminated field that starts at `pos`; `chars` are the characters
/// of `input`.
pub(crate) fn till_null_at(
    input: &str,
    chars: &Vec<char>,
    pos: usize,
) -> (field: Result<(String, usize), usize>) requires chars@ == input@, pos <= chars@.len(),
    ensures
        match field {
            Ok((text, next)) => spec_till_null(input@, pos as int) == Ok::<_, int>((text@, next as int)),
            Err(offset) => spec_till_null(input@, pos as int) == Err::<(Seq<char>, int), _>(offset as int),
        },
{
    let end = find_from(chars, pos, '\0');
    if end == pos {
        Err(pos)
    } else if end >= chars.len() {
        Err(chars.len())
    } else {
        Ok((slice_to_string(input, pos, end), end + 1))
    }
}

} // verus!
