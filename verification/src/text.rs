//! Small operations on text that the rest of the crate is built from.

use vstd::prelude::*;
use vstd::string::StringSliceAdditionalSpecFns;
use vstd::utf8::encode_utf8_decode_utf8;

verus! {

/// The texts of a sequence of strings.
pub open spec fn texts(strings: Seq<String>) -> Seq<Seq<char>> {
    strings.map_values(|string: String| string@)
}

/// The texts of a sequence of string slices.
pub open spec fn slice_texts(slices: Seq<&str>) -> Seq<Seq<char>> {
    slices.map_values(|slice: &str| slice@)
}

/// A text between backticks, as messages show what the user wrote or may
/// write.
pub open spec fn quoted(text: Seq<char>) -> Seq<char> {
    "`"@ + text + "`"@
}

/// Whether two string slices hold the same characters.
pub fn str_eq(left: &str, right: &str) -> (equal: bool)
    ensures
        equal == (left@ == right@),
{
    let a = left.as_bytes();
    let b = right.as_bytes();
    proof {
        encode_utf8_decode_utf8(left@);
        encode_utf8_decode_utf8(right@);
    }
    if a.len() != b.len() {
        return false;
    }
    let mut i: usize = 0;
    while i < a.len()
        invariant
            a@ == left.spec_bytes(),
            b@ == right.spec_bytes(),
            a@.len() == b@.len(),
            i <= a@.len(),
            forall|j: int| 0 <= j < i ==> a@[j] == b@[j],
        decreases a@.len() - i,
    {
        if a[i] != b[i] {
            return false;
        }
        i += 1;
    }
    assert(a@ =~= b@);
    true
}

/// `String::push`: the character is appended to the text.
#[verifier::external_body]
pub(crate) fn push_char(text: &mut String, c: char)
    ensures
        final(text)@ == old(text)@.push(c),
{
    text.push(c)
}

/// A copy of a list of strings.
pub fn clone_strings(strings: &Vec<String>) -> (copies: Vec<String>)
    ensures
        copies@ == strings@,
{
    let mut copies: Vec<String> = Vec::new();
    let mut index: usize = 0;
    while index < strings.len()
        invariant
            index <= strings@.len(),
            copies@ == strings@.take(index as int),
        decreases strings@.len() - index,
    {
        copies.push(strings[index].clone());
        index += 1;
    }
    copies
}

/// The items in their order, with the separator between each two of them.
pub open spec fn joined(items: Seq<Seq<char>>, separator: Seq<char>) -> Seq<char>
    decreases items.len(),
{
    if items.len() == 0 {
        Seq::empty()
    } else if items.len() == 1 {
        items[0]
    } else {
        joined(items.drop_last(), separator) + separator + items.last()
    }
}

/// `joinery::JoinableIterator::join_with`, written out as a `String`: the
/// first item, then for every further item the separator and the item.
#[verifier::external_body]
pub(crate) fn join_with(items: &Vec<String>, separator: &str) -> (text: String)
    ensures
        text@ == joined(texts(items@), separator@),
{
    joinery::JoinableIterator::join_with(items.iter(), separator).to_string()
}

/// Whether a text occurs in another as a run of consecutive characters.
pub open spec fn occurs_in(part: Seq<char>, whole: Seq<char>) -> bool {
    exists|before: Seq<char>, after: Seq<char>| whole == #[trigger] (before + part + after)
}

/// Every item occurs in the text that the items are joined to.
pub proof fn lemma_joined_holds_items(items: Seq<Seq<char>>, separator: Seq<char>, index: int)
    requires
        0 <= index < items.len(),
    ensures
        occurs_in(items[index], joined(items, separator)),
    decreases items.len(),
{
    let whole = joined(items, separator);
    let nothing = Seq::<char>::empty();
    if items.len() == 1 {
        assert(whole =~= nothing + items[index] + nothing);
    } else if index == items.len() - 1 {
        let before = joined(items.drop_last(), separator) + separator;
        assert(whole =~= before + items[index] + nothing);
    } else {
        lemma_joined_holds_items(items.drop_last(), separator, index);
        let (before, after) = choose|before: Seq<char>, after: Seq<char>|
            joined(items.drop_last(), separator) == #[trigger] (before + items[index] + after);
        assert(whole =~= before + items[index] + (after + separator + items.last()));
    }
}

} // verus!
