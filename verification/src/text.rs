//! Whitespace in free text: what counts as blank, and trimming.

use vstd::prelude::*;

verus! {

/// Whether `c` is one of the code points that Unicode gives the property
/// `White_Space`.
pub open spec fn is_white_space(c: char) -> bool {
    let n = c as u32;
    ||| 0x0009 <= n <= 0x000D
    ||| n == 0x0020
    ||| n == 0x0085
    ||| n == 0x00A0
    ||| n == 0x1680
    ||| 0x2000 <= n <= 0x200A
    ||| n == 0x2028
    ||| n == 0x2029
    ||| n == 0x202F
    ||| n == 0x205F
    ||| n == 0x3000
}

/// The view of a text that may be absent.
pub open spec fn text_view(text: Option<String>) -> Option<Seq<char>> {
    match text {
        Some(t) => Some(t@),
        None => None,
    }
}

/// A text is blank when it holds nothing but white space; the empty text is
/// blank.
pub open spec fn blank(s: Seq<char>) -> bool {
    forall|i: int| 0 <= i < s.len() ==> is_white_space(#[trigger] s[i])
}

/// Number of white-space characters at the front of `s`, up to the first
/// character that is none.
pub open spec fn leading_blanks(s: Seq<char>) -> nat
    decreases s.len(),
{
    if s.len() > 0 && is_white_space(s.first()) {
        1 + leading_blanks(s.drop_first())
    } else {
        0
    }
}

/// Number of white-space characters at the back of `s`, down to the last
/// character that is none.
pub open spec fn trailing_blanks(s: Seq<char>) -> nat
    decreases s.len(),
{
    if s.len() > 0 && is_white_space(s.last()) {
        1 + trailing_blanks(s.drop_last())
    } else {
        0
    }
}

/// `s` without the white space at its front.
pub open spec fn trim_start(s: Seq<char>) -> Seq<char> {
    s.skip(leading_blanks(s) as int)
}

/// `s` without the white space at its back.
pub open spec fn trim_end(s: Seq<char>) -> Seq<char> {
    s.take(s.len() - trailing_blanks(s))
}

/// `s` without the white space at either end. White space between other
/// characters stays.
pub open spec fn trimmed(s: Seq<char>) -> Seq<char> {
    trim_end(trim_start(s))
}

/// The positions `from` and `to` bound the core of `s`: everything before
/// `from` and from `to` on is white space, and the characters at the two
/// ends of what lies between are not.
pub open spec fn is_core_of(s: Seq<char>, from: int, to: int) -> bool {
    &&& 0 <= from <= to <= s.len()
    &&& forall|i: int| 0 <= i < from ==> is_white_space(#[trigger] s[i])
    &&& forall|i: int| to <= i < s.len() ==> is_white_space(#[trigger] s[i])
    &&& from < to ==> !is_white_space(s[from]) && !is_white_space(s[to - 1])
}

proof fn lemma_leading_blanks(s: Seq<char>)
    ensures
        leading_blanks(s) <= s.len(),
        forall|i: int| 0 <= i < leading_blanks(s) ==> is_white_space(#[trigger] s[i]),
        leading_blanks(s) < s.len() ==> !is_white_space(s[leading_blanks(s) as int]),
    decreases s.len(),
{
    if s.len() > 0 && is_white_space(s.first()) {
        let rest = s.drop_first();
        lemma_leading_blanks(rest);
        assert forall|i: int| 0 <= i < leading_blanks(s) implies is_white_space(
            #[trigger] s[i],
        ) by {
            if i > 0 {
                assert(s[i] == rest[i - 1]);
            }
        }
        if leading_blanks(s) < s.len() {
            assert(s[leading_blanks(s) as int] == rest[leading_blanks(rest) as int]);
        }
    }
}

proof fn lemma_trailing_blanks(s: Seq<char>)
    ensures
        trailing_blanks(s) <= s.len(),
        forall|i: int|
            s.len() - trailing_blanks(s) <= i < s.len() ==> is_white_space(#[trigger] s[i]),
        trailing_blanks(s) < s.len() ==> !is_white_space(s[s.len() - trailing_blanks(s) - 1]),
    decreases s.len(),
{
    if s.len() > 0 && is_white_space(s.last()) {
        let rest = s.drop_last();
        lemma_trailing_blanks(rest);
        assert forall|i: int| s.len() - trailing_blanks(s) <= i < s.len() implies is_white_space(
            #[trigger] s[i],
        ) by {
            if i < s.len() - 1 {
                assert(s[i] == rest[i]);
            }
        }
        if trailing_blanks(s) < s.len() {
            assert(s[s.len() - trailing_blanks(s) - 1] == rest[rest.len() - trailing_blanks(rest)
                - 1]);
        }
    }
}

/// Trimming cuts out the core: given the two positions that bound it, the
/// trimmed text is the text between them.
pub proof fn law_trimmed_is_core(s: Seq<char>, from: int, to: int)
    requires
        is_core_of(s, from, to),
    ensures
        from < to ==> trimmed(s) == s.subrange(from, to),
        from == to ==> trimmed(s) == Seq::<char>::empty(),
{
    lemma_leading_blanks(s);
    let tail = trim_start(s);
    lemma_trailing_blanks(tail);
    if from < to {
        assert(leading_blanks(s) == from);
        assert(forall|i: int| 0 <= i < tail.len() ==> tail[i] == s[i + from]);
        let kept = tail.len() - trailing_blanks(tail);
        assert(tail[to - from - 1] == s[to - 1]);
        if kept > to - from {
            assert(tail[kept - 1] == s[kept - 1 + from]);
        }
        assert(kept == to - from);
        assert(tail.take(to - from) =~= s.subrange(from, to));
    } else {
        assert(leading_blanks(s) == s.len());
        assert(trimmed(s) =~= Seq::<char>::empty());
    }
}

/// Every text has a core, and trimming yields it.
pub proof fn law_core_exists(s: Seq<char>) -> (bounds: (int, int))
    ensures
        is_core_of(s, bounds.0, bounds.1),
        trimmed(s) == s.subrange(bounds.0, bounds.1),
{
    lemma_leading_blanks(s);
    let tail = trim_start(s);
    lemma_trailing_blanks(tail);
    let from = leading_blanks(s) as int;
    let to = from + tail.len() - trailing_blanks(tail);
    assert(forall|i: int| 0 <= i < tail.len() ==> tail[i] == s[i + from]);
    assert forall|i: int| to <= i < s.len() implies is_white_space(#[trigger] s[i]) by {
        assert(s[i] == tail[i - from]);
    }
    if from < to {
        assert(s[to - 1] == tail[to - from - 1]);
    }
    assert(tail.take(to - from) =~= s.subrange(from, to));
    (from, to)
}

/// A text trims to nothing exactly when it is blank.
pub proof fn law_blank_trims_to_nothing(s: Seq<char>)
    ensures
        trimmed(s).len() == 0 <==> blank(s),
{
    let (from, to) = law_core_exists(s);
    if blank(s) {
        if from < to {
            assert(is_white_space(s[from]));
        }
    } else {
        let i = choose|i: int| 0 <= i < s.len() && !is_white_space(#[trigger] s[i]);
        assert(from <= i < to);
    }
}

/// What trimming leaves has no white space at either end, so trimming it
/// again changes nothing.
pub proof fn law_trimmed_is_clean(s: Seq<char>)
    ensures
        trimmed(s).len() > 0 ==> !is_white_space(trimmed(s).first()) && !is_white_space(
            trimmed(s).last(),
        ),
        trimmed(trimmed(s)) == trimmed(s),
{
    let (from, to) = law_core_exists(s);
    let t = trimmed(s);
    if from < to {
        assert(t.first() == s[from]);
        assert(t.last() == s[to - 1]);
    }
    assert(is_core_of(t, 0, t.len() as int));
    law_trimmed_is_core(t, 0, t.len() as int);
    assert(t.subrange(0, t.len() as int) =~= t);
}

/// Tests a character for the Unicode property `White_Space`.
pub fn is_whitespace_char(c: char) -> (white: bool)
    ensures
        white == is_white_space(c),
{
    let n: u32 = c as u32;
    (0x0009 <= n && n <= 0x000D) || n == 0x0020 || n == 0x0085 || n == 0x00A0 || n == 0x1680 || (
    0x2000 <= n && n <= 0x200A) || n == 0x2028 || n == 0x2029 || n == 0x202F || n == 0x205F || n
        == 0x3000
}

/// Cuts the white space off both ends of `s`, in one pass over its
/// characters.
pub fn trim(s: &str) -> (core: &str)
    ensures
        core@ == trimmed(s@),
{
    let len = s.unicode_len();
    let mut from: usize = 0;
    let mut to: usize = 0;
    let mut i: usize = 0;
    for c in it: s.chars()
        invariant
            it.seq() == s@,
            s@.len() == len,
            i == it.index(),
            from <= to <= i,
            from == to ==> from == 0,
            from == to ==> forall|k: int| 0 <= k < i ==> is_white_space(#[trigger] s@[k]),
            from < to ==> !is_white_space(s@[from as int]) && !is_white_space(s@[to - 1]),
            from < to ==> forall|k: int| 0 <= k < from ==> is_white_space(#[trigger] s@[k]),
            from < to ==> forall|k: int| to <= k < i ==> is_white_space(#[trigger] s@[k]),
    {
        assert(c == s@[i as int]);
        if !is_whitespace_char(c) {
            if from == to {
                from = i;
            }
            to = i + 1;
        }
        i = i + 1;
    }
    proof {
        if from == to {
            assert(is_core_of(s@, s@.len() as int, s@.len() as int));
            law_trimmed_is_core(s@, s@.len() as int, s@.len() as int);
            assert(s@.subrange(0, 0) =~= Seq::<char>::empty());
        } else {
            assert(is_core_of(s@, from as int, to as int));
            law_trimmed_is_core(s@, from as int, to as int);
        }
    }
    s.substring_char(from, to)
}

/// Whether `s` holds nothing but white space.
pub fn is_blank(s: &str) -> (b: bool)
    ensures
        b == blank(s@),
{
    proof {
        law_blank_trims_to_nothing(s@);
    }
    trim(s).is_empty()
}

} // verus!
