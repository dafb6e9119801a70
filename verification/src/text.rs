//! The two operations on text that reading a range literal needs.

use vstd::prelude::*;
use vstd::string::*;

verus! {

/// `text` with every double quote left out.
pub open spec fn unquoted(text: Seq<char>) -> Seq<char> {
    text.filter(|c: char| c != '"')
}

/// `i` is the place of the first comma of `text`.
pub open spec fn is_first_comma(text: Seq<char>, i: int) -> bool {
    &&& 0 <= i < text.len()
    &&& text[i] == ','
    &&& forall|j: int| 0 <= j < i ==> text[j] != ','
}

/// What stands before and after the first comma of `text`, where it has one.
pub open spec fn comma_split(text: Seq<char>) -> Option<(Seq<char>, Seq<char>)> {
    if exists|i: int| is_first_comma(text, i) {
        let i = choose|i: int| is_first_comma(text, i);
        Some((text.take(i), text.skip(i + 1)))
    } else {
        None
    }
}

/// How `unquoted` treats the last character of a text.
pub proof fn lemma_unquoted_step(text: Seq<char>)
    requires
        text.len() > 0,
    ensures
        unquoted(text) == if text.last() != '"' {
            unquoted(text.drop_last()).push(text.last())
        } else {
            unquoted(text.drop_last())
        },
{
    reveal(Seq::filter);
}

/// A text has at most one first comma.
pub proof fn lemma_first_comma_unique(text: Seq<char>, i: int, j: int)
    requires
        is_first_comma(text, i),
        is_first_comma(text, j),
    ensures
        i == j,
{
    if i < j {
        assert(text[i] != ',');
    } else if j < i {
        assert(text[j] != ',');
    }
}

/// Copies `text` without its double quotes.
pub fn without_quotes(text: &str) -> (bare: String)
    ensures
        bare@ == unquoted(text@),
{
    let n = text.unicode_len();
    let mut bare = String::new();
    let mut i: usize = 0;
    while i < n
        invariant
            n == text@.len(),
            i <= n,
            bare@ == unquoted(text@.take(i as int)),
        decreases n - i,
    {
        let c = text.get_char(i);
        if c != '"' {
            bare.append(text.substring_char(i, i + 1));
            assert(text@.subrange(i as int, i + 1) == seq![c]);
        }
        proof {
            lemma_unquoted_step(text@.take(i + 1));
            assert(text@.take(i + 1).drop_last() == text@.take(i as int));
        }
        i = i + 1;
    }
    proof {
        assert(text@.take(n as int) == text@);
    }
    bare
}

/// Splits `text` at its first comma; `None` where it holds no comma.
pub fn split_at_comma(text: &str) -> (halves: Option<(&str, &str)>)
    ensures
        halves.deep_view() == comma_split(text@),
{
    let n = text.unicode_len();
    let mut i: usize = 0;
    while i < n
        invariant
            n == text@.len(),
            i <= n,
            forall|j: int| 0 <= j < i ==> text@[j] != ',',
        decreases n - i,
    {
        if text.get_char(i) == ',' {
            proof {
                assert(is_first_comma(text@, i as int));
                let k = choose|k: int| is_first_comma(text@, k);
                lemma_first_comma_unique(text@, i as int, k);
            }
            return Some((text.substring_char(0, i), text.substring_char(i + 1, n)));
        }
        i = i + 1;
    }
    None
}

/// Whether two texts are the same.
pub fn same_text(a: &str, b: &str) -> (same: bool)
    ensures
        same == (a@ == b@),
{
    a.to_owned() == b.to_owned()
}

} // verus!
