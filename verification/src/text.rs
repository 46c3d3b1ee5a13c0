//! Small operations on texts that the rest of the library shares.

use vstd::prelude::*;

verus! {

/// The text, or the empty text where there is none.
pub open spec fn text_or_empty(text: Option<&str>) -> Seq<char> {
    match text {
        Some(t) => t@,
        None => Seq::empty(),
    }
}

/// Whether two texts are the same.
pub fn same_text(a: &str, b: &str) -> (same: bool)
    ensures
        same == (a@ == b@),
{
    a.to_owned() == b.to_owned()
}

/// The text, or the empty text where there is none.
pub fn or_empty<'a>(text: Option<&'a str>) -> (out: &'a str)
    ensures
        out@ == text_or_empty(text),
{
    match text {
        Some(t) => t,
        None => {
            proof {
                reveal_strlit("");
            }
            ""
        },
    }
}

/// A copy of a text.
pub fn copy_text(text: &String) -> (copy: String)
    ensures
        copy == *text,
{
    text.clone()
}

/// A copy of a text that may be absent.
pub fn copy_optional_text(text: &Option<String>) -> (copy: Option<String>)
    ensures
        copy == *text,
{
    match text {
        Some(text) => Some(copy_text(text)),
        None => None,
    }
}

/// A copy of a run of texts.
pub fn copy_texts(texts: &Vec<String>) -> (copy: Vec<String>)
    ensures
        copy@ == texts@,
{
    let n: usize = texts.len();
    let mut copy: Vec<String> = Vec::new();
    let mut i: usize = 0;
    while i < n
        invariant
            n == texts@.len(),
            i <= n,
            copy@ == texts@.take(i as int),
        decreases n - i,
    {
        copy.push(copy_text(&texts[i]));
        assert(copy@ =~= texts@.take(i + 1));
        i = i + 1;
    }
    assert(texts@.take(n as int) =~= texts@);
    copy
}

} // verus!
