//! Splitting a document into its metadata block and its body.
//!
//! A metadata block opens with a line that holds exactly `---` at the very start
//! of the text and closes with the next line that holds exactly `---`.

use vstd::prelude::*;
use vstd::std_specs::iter::IteratorSpec;
use vstd::string::*;

verus! {

/// A line that consists solely of the marker `---` starts at position `i`.
pub open spec fn marker_at(t: Seq<char>, i: int) -> bool {
    &&& 0 <= i
    &&& i + 3 <= t.len()
    &&& (i == 0 || t[i - 1] == '\n')
    &&& t[i] == '-'
    &&& t[i + 1] == '-'
    &&& t[i + 2] == '-'
    &&& (i + 3 == t.len() || t[i + 3] == '\n')
}

/// The text begins with a marker line that is followed by a line break.
pub open spec fn opens_block(t: Seq<char>) -> bool {
    marker_at(t, 0) && 3 < t.len()
}

/// The block opened at the start of the text is closed by the marker line at `j`,
/// the first marker line after the opening one.
pub open spec fn closes_at(t: Seq<char>, j: int) -> bool {
    &&& opens_block(t)
    &&& 4 <= j
    &&& marker_at(t, j)
    &&& forall|k: int| 4 <= k < j ==> !marker_at(t, k)
}

/// The text holds a well-formed metadata block.
pub open spec fn has_block(t: Seq<char>) -> bool {
    exists|j: int| closes_at(t, j)
}

/// Where the closing marker line of the block starts.
pub open spec fn close_of(t: Seq<char>) -> int {
    choose|j: int| closes_at(t, j)
}

/// The raw text between the two marker lines, if there is a block.
pub open spec fn front_of(t: Seq<char>) -> Option<Seq<char>> {
    if has_block(t) {
        Some(t.subrange(4, close_of(t)))
    } else {
        None
    }
}

/// The text without its metadata block; the whole text where there is none.
pub open spec fn body_of(t: Seq<char>) -> Seq<char> {
    if has_block(t) {
        if close_of(t) + 4 <= t.len() {
            t.subrange(close_of(t) + 4, t.len() as int)
        } else {
            Seq::empty()
        }
    } else {
        t
    }
}

/// A block has only one closing line.
pub proof fn lemma_close_unique(t: Seq<char>, j: int)
    requires
        closes_at(t, j),
    ensures
        has_block(t),
        close_of(t) == j,
{
    let k = close_of(t);
    assert(closes_at(t, k));
    if k < j {
        assert(!marker_at(t, k));
    }
    if j < k {
        assert(!marker_at(t, j));
    }
}

/// The characters of a string, in order.
pub fn chars_of(text: &str) -> (v: Vec<char>)
    ensures
        v@ == text@,
{
    broadcast use group_string_axioms;

    let mut it = text.chars();
    let mut v: Vec<char> = Vec::new();
    loop
        invariant
            v@ + it.remaining() == text@,
            it.decrease() is Some,
        decreases it.decrease()->0,
    {
        match it.next() {
            Some(c) => {
                v.push(c);
                assert(v@ + it.remaining() =~= text@);
            },
            None => {
                assert(v@ =~= text@);
                return v;
            },
        }
    }
}

/// Finds the closing marker line of the block that opens the text.
pub fn find_close(v: &Vec<char>) -> (r: Option<usize>)
    ensures
        match r {
            Some(j) => closes_at(v@, j as int),
            None => !has_block(v@),
        },
{
    let n: usize = v.len();
    if n < 4 || v[0] != '-' || v[1] != '-' || v[2] != '-' || v[3] != '\n' {
        return None;
    }
    let mut j: usize = 4;
    while n - j >= 3
        invariant
            n == v@.len(),
            4 <= j <= n,
            opens_block(v@),
            forall|k: int| 4 <= k < j ==> !marker_at(v@, k),
        decreases n - j,
    {
        if v[j - 1] == '\n' && v[j] == '-' && v[j + 1] == '-' && v[j + 2] == '-' && (n - j == 3
            || v[j + 3] == '\n') {
            return Some(j);
        }
        j += 1;
    }
    assert forall|k: int| !closes_at(v@, k) by {
        if 4 <= k && k < j {
            assert(!marker_at(v@, k));
        }
    }
    None
}

/// Splits a document into the raw text of its metadata block and its body.
///
/// Returns `None` where the text holds no well-formed block: no opening marker
/// line at its start, or no closing marker line after it.
pub fn split_matter(text: &str) -> (r: Option<(String, String)>)
    ensures
        r is Some <==> has_block(text@),
        r matches Some(p) ==> Some(p.0@) == front_of(text@) && p.1@ == body_of(text@),
{
    let v = chars_of(text);
    match find_close(&v) {
        None => None,
        Some(j) => {
            proof {
                lemma_close_unique(text@, j as int);
            }
            let n: usize = v.len();
            let front = String::from_str(text.substring_char(4, j));
            let body = if n - j >= 4 {
                String::from_str(text.substring_char(j + 4, n))
            } else {
                proof {
                    reveal_strlit("");
                }
                String::from_str("")
            };
            assert(body@ =~= body_of(text@));
            Some((front, body))
        },
    }
}

} // verus!
