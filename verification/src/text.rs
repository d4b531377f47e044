//! Small operations on text that the rest of the library shares.

use vstd::prelude::*;
use vstd::string::*;

verus! {

/// Takes `prefix` off the front of `text`.
///
/// Returns the remainder when `text` begins with `prefix`, and `None` when it
/// does not.
pub fn strip_prefix<'a>(text: &'a str, prefix: &str) -> (rest: Option<&'a str>)
    ensures
        match rest {
            Some(tail) => prefix@.is_prefix_of(text@) && tail@ == text@.skip(prefix@.len() as int),
            None => !prefix@.is_prefix_of(text@),
        },
{
    let text_len: usize = text.unicode_len();
    let prefix_len: usize = prefix.unicode_len();
    if prefix_len > text_len {
        return None;
    }
    let mut i: usize = 0;
    while i < prefix_len
        invariant
            i <= prefix_len <= text_len,
            text_len == text@.len(),
            prefix_len == prefix@.len(),
            forall|j: int| 0 <= j < i ==> text@[j] == prefix@[j],
        decreases prefix_len - i,
    {
        if text.get_char(i) != prefix.get_char(i) {
            assert(text@.subrange(0, prefix_len as int)[i as int] != prefix@[i as int]);
            return None;
        }
        i += 1;
    }
    assert(prefix@ =~= text@.subrange(0, prefix_len as int));
    Some(text.substring_char(prefix_len, text_len))
}

/// Copies a list of strings.
pub fn clone_all(items: &Vec<String>) -> (copy: Vec<String>)
    ensures
        copy.deep_view() == items.deep_view(),
{
    let mut copy: Vec<String> = Vec::new();
    let mut i: usize = 0;
    while i < items.len()
        invariant
            i <= items.len(),
            copy.len() == i,
            forall|j: int| 0 <= j < i ==> copy@[j]@ == items@[j]@,
        decreases items.len() - i,
    {
        copy.push(items[i].clone());
        i += 1;
    }
    assert(copy.deep_view() =~= items.deep_view());
    copy
}

/// The list that holds `first` alone.
pub fn single(first: &str) -> (list: Vec<String>)
    ensures
        list.deep_view() == seq![first@],
{
    let mut list: Vec<String> = Vec::new();
    list.push(String::from_str(first));
    assert(list.deep_view() =~= seq![first@]);
    list
}

/// The list of `first` and `second`.
pub fn pair(first: &str, second: &str) -> (list: Vec<String>)
    ensures
        list.deep_view() == seq![first@, second@],
{
    let mut list: Vec<String> = Vec::new();
    list.push(String::from_str(first));
    list.push(String::from_str(second));
    assert(list.deep_view() =~= seq![first@, second@]);
    list
}

/// The list of `first`, `second` and `third`.
pub fn triple(first: &str, second: &str, third: &str) -> (list: Vec<String>)
    ensures
        list.deep_view() == seq![first@, second@, third@],
{
    let mut list: Vec<String> = Vec::new();
    list.push(String::from_str(first));
    list.push(String::from_str(second));
    list.push(String::from_str(third));
    assert(list.deep_view() =~= seq![first@, second@, third@]);
    list
}

/// A copy of `list` with `last` added at its end.
pub fn extended(list: &Vec<String>, last: &str) -> (longer: Vec<String>)
    ensures
        longer.deep_view() == list.deep_view().push(last@),
{
    let mut longer = clone_all(list);
    longer.push(String::from_str(last));
    assert(longer.deep_view() =~= list.deep_view().push(last@));
    longer
}

} // verus!
