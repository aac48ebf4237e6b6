//! Character-level helpers on strings.
use vstd::prelude::*;

verus! {

/// Whether `needle` stands in `hay` at position `at`.
pub open spec fn occurs_at(needle: Seq<char>, hay: Seq<char>, at: int) -> bool {
    &&& 0 <= at
    &&& at + needle.len() <= hay.len()
    &&& hay.subrange(at, at + needle.len()) == needle
}

/// Whether `needle` occurs somewhere in `hay` as a contiguous run of characters.
pub open spec fn occurs_in(needle: Seq<char>, hay: Seq<char>) -> bool {
    exists|at: int| occurs_at(needle, hay, at)
}

/// Whether the text holds no escape character, the one that begins a
/// terminal's control codes.
pub open spec fn plain_text(text: Seq<char>) -> bool {
    forall|i: int| 0 <= i < text.len() ==> text[i] != '\u{1b}'
}

/// The empty text occurs in every text.
pub proof fn lemma_empty_occurs_everywhere(hay: Seq<char>)
    ensures
        occurs_in(Seq::<char>::empty(), hay),
{
    assert(hay.subrange(0, 0) == Seq::<char>::empty());
    assert(occurs_at(Seq::<char>::empty(), hay, 0));
}

/// A text that holds `needle` is at least as long as `needle`.
pub proof fn lemma_occurrence_fits(needle: Seq<char>, hay: Seq<char>)
    requires
        occurs_in(needle, hay),
    ensures
        needle.len() <= hay.len(),
{
    let at = choose|at: int| occurs_at(needle, hay, at);
    assert(occurs_at(needle, hay, at));
}

/// The characters of `s`, in order.
pub fn chars_of(s: &str) -> (v: Vec<char>)
    ensures
        v@ == s@,
{
    let mut v: Vec<char> = Vec::new();
    let chars = s.chars();
    for c in it: chars
        invariant
            v@ == it.seq().take(it.index()),
            it.seq() == s@,
    {
        v.push(c);
    }
    v
}

/// Whether two strings hold the same characters.
pub fn same_text(a: &str, b: &str) -> (r: bool)
    ensures
        r == (a@ == b@),
{
    let x = a.to_owned();
    let y = b.to_owned();
    x == y
}

/// Whether `needle` stands in `hay` at position `at`.
fn matches_at(hay: &Vec<char>, needle: &Vec<char>, at: usize) -> (r: bool)
    requires
        at + needle@.len() <= hay@.len(),
    ensures
        r == occurs_at(needle@, hay@, at as int),
{
    let width: usize = hay.len();
    let mut k: usize = 0;
    while k < needle.len()
        invariant
            k <= needle@.len(),
            at + needle@.len() <= hay@.len(),
            hay@.len() == width,
            forall|j: int| 0 <= j < k ==> hay@[at + j] == needle@[j],
        decreases needle@.len() - k,
    {
        if hay[at + k] != needle[k] {
            proof {
                let window = hay@.subrange(at as int, at + needle@.len());
                assert(window[k as int] == hay@[at + k]);
            }
            return false;
        }
        k += 1;
    }
    assert(hay@.subrange(at as int, at + needle@.len()) =~= needle@);
    true
}

/// Whether `needle` occurs in `hay`. The empty text occurs in every text.
pub fn contains_text(hay: &str, needle: &str) -> (r: bool)
    ensures
        r == occurs_in(needle@, hay@),
{
    let h = chars_of(hay);
    let n = chars_of(needle);
    if n.len() > h.len() {
        proof {
            if occurs_in(n@, h@) {
                lemma_occurrence_fits(n@, h@);
            }
        }
        return false;
    }
    let last: usize = h.len() - n.len();
    let mut at: usize = 0;
    while at < last
        invariant
            at <= last,
            last + n@.len() == h@.len(),
            h@ == hay@,
            n@ == needle@,
            forall|k: int| 0 <= k < at ==> !occurs_at(n@, h@, k),
        decreases last - at,
    {
        if matches_at(&h, &n, at) {
            assert(occurs_at(needle@, hay@, at as int));
            return true;
        }
        at += 1;
    }
    let found = matches_at(&h, &n, last);
    proof {
        if found {
            assert(occurs_at(needle@, hay@, last as int));
        } else {
            assert forall|k: int| !occurs_at(n@, h@, k) by {
                if 0 <= k && k + n@.len() <= h@.len() {
                    assert(k <= last);
                }
            }
        }
    }
    found
}

/// Whether `a` comes before `b` in the order of strings, given that the two
/// agree up to position `at`: at the first position where they differ `a`
/// has the lesser character, or `a` ends there and `b` goes on.
pub open spec fn precedes_from(a: Seq<char>, b: Seq<char>, at: int) -> bool
    decreases a.len() - at,
{
    if at >= b.len() {
        false
    } else if at >= a.len() {
        true
    } else if a[at] != b[at] {
        a[at] < b[at]
    } else {
        precedes_from(a, b, at + 1)
    }
}

/// Whether `a` comes before `b` in the order of strings, which compares
/// them character by character.
pub open spec fn text_precedes(a: Seq<char>, b: Seq<char>) -> bool {
    precedes_from(a, b, 0)
}

/// No text comes before itself.
pub proof fn lemma_not_before_itself(a: Seq<char>, at: int)
    requires
        0 <= at,
    ensures
        !precedes_from(a, a, at),
    decreases a.len() - at,
{
    if at < a.len() {
        lemma_not_before_itself(a, at + 1);
    }
}

/// What comes before a text comes before all that the text comes before.
pub proof fn lemma_precedes_in_turn(a: Seq<char>, b: Seq<char>, c: Seq<char>, at: int)
    requires
        0 <= at,
        precedes_from(a, b, at),
        precedes_from(b, c, at),
    ensures
        precedes_from(a, c, at),
    decreases a.len() - at,
{
    if at < a.len() && a[at] == b[at] && b[at] == c[at] {
        lemma_precedes_in_turn(a, b, c, at + 1);
    }
}

/// Whether `a` comes before `b` in the order of strings.
pub fn comes_before(a: &str, b: &str) -> (r: bool)
    ensures
        r == text_precedes(a@, b@),
{
    let x = chars_of(a);
    let y = chars_of(b);
    let mut at: usize = 0;
    while at < x.len() && at < y.len()
        invariant
            at <= x@.len(),
            at <= y@.len(),
            x@ == a@,
            y@ == b@,
            text_precedes(a@, b@) == precedes_from(a@, b@, at as int),
        decreases x@.len() - at,
    {
        if x[at] != y[at] {
            return x[at] < y[at];
        }
        at += 1;
    }
    at < y.len()
}

/// The pieces of `text` between occurrences of `sep`: one more piece than
/// there are separators, empty pieces included. Each further character either
/// opens a new piece, when it is the separator, or extends the last piece.
pub open spec fn pieces(text: Seq<char>, sep: char) -> Seq<Seq<char>>
    decreases text.len(),
{
    if text.len() == 0 {
        seq![Seq::<char>::empty()]
    } else {
        let before = pieces(text.drop_last(), sep);
        if text.last() == sep {
            before.push(Seq::<char>::empty())
        } else {
            before.drop_last().push(before.last().push(text.last()))
        }
    }
}

/// The views of the strings of `v`, in order.
pub open spec fn texts(v: Seq<String>) -> Seq<Seq<char>> {
    v.map_values(|s: String| s@)
}

/// The view of an optional string.
pub open spec fn opt_text(found: Option<String>) -> Option<Seq<char>> {
    match found {
        Some(s) => Some(s@),
        None => None,
    }
}

/// Splits `text` at every `sep`, keeping empty pieces.
pub fn split_text(text: &str, sep: char) -> (r: Vec<String>)
    ensures
        texts(r@) == pieces(text@, sep),
{
    let chars = chars_of(text);
    let mut out: Vec<String> = Vec::new();
    let mut start: usize = 0;
    let mut at: usize = 0;
    proof {
        assert(text@.take(0).len() == 0);
        assert(text@.subrange(0, 0) =~= Seq::<char>::empty());
        assert(texts(out@).push(text@.subrange(0, 0)) =~= seq![Seq::<char>::empty()]);
    }
    while at < chars.len()
        invariant
            chars@ == text@,
            start <= at <= chars@.len(),
            pieces(text@.take(at as int), sep) == texts(out@).push(
                text@.subrange(start as int, at as int),
            ),
        decreases chars@.len() - at,
    {
        proof {
            let longer = text@.take(at + 1);
            assert(longer.drop_last() =~= text@.take(at as int));
            assert(longer.last() == text@[at as int]);
            assert(text@.subrange(start as int, at as int).push(text@[at as int])
                =~= text@.subrange(start as int, at + 1));
            assert(texts(out@).push(text@.subrange(start as int, at as int)).drop_last()
                =~= texts(out@));
        }
        if chars[at] == sep {
            let piece = text.substring_char(start, at).to_owned();
            proof {
                assert(texts(out@.push(piece)) =~= texts(out@).push(piece@));
                assert(text@.subrange(at + 1, at + 1) =~= Seq::<char>::empty());
            }
            out.push(piece);
            start = at + 1;
        }
        at += 1;
    }
    let piece = text.substring_char(start, at).to_owned();
    proof {
        assert(texts(out@.push(piece)) =~= texts(out@).push(piece@));
        assert(text@.take(at as int) =~= text@);
    }
    out.push(piece);
    out
}

} // verus!
