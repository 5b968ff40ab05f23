//! Text helpers: Unicode white space and trimming.

use vstd::prelude::*;

verus! {

/// Whether `c` carries the Unicode `White_Space` property.
pub open spec fn is_white_space(c: char) -> bool {
    let n = c as u32;
    ||| 0x09 <= n <= 0x0D
    ||| n == 0x20
    ||| n == 0x85
    ||| n == 0xA0
    ||| n == 0x1680
    ||| 0x2000 <= n <= 0x200A
    ||| n == 0x2028
    ||| n == 0x2029
    ||| n == 0x202F
    ||| n == 0x205F
    ||| n == 0x3000
}

/// Executable test for [`is_white_space`].
pub fn white_space(c: char) -> (r: bool)
    ensures
        r == is_white_space(c),
{
    let n: u32 = c as u32;
    (0x09 <= n && n <= 0x0D) || n == 0x20 || n == 0x85 || n == 0xA0 || n == 0x1680 || (0x2000 <= n
        && n <= 0x200A) || n == 0x2028 || n == 0x2029 || n == 0x202F || n == 0x205F || n == 0x3000
}

/// `s` without its leading white space.
pub open spec fn trim_start(s: Seq<char>) -> Seq<char>
    decreases s.len(),
{
    if s.len() > 0 && is_white_space(s.first()) {
        trim_start(s.drop_first())
    } else {
        s
    }
}

/// `s` without its trailing white space.
pub open spec fn trim_end(s: Seq<char>) -> Seq<char>
    decreases s.len(),
{
    if s.len() > 0 && is_white_space(s.last()) {
        trim_end(s.drop_last())
    } else {
        s
    }
}

/// `s` without leading and trailing white space.
pub open spec fn trimmed(s: Seq<char>) -> Seq<char> {
    trim_end(trim_start(s))
}

/// Leading white space is dropped up to the first character that is kept.
proof fn lemma_trim_start_skips(s: Seq<char>, start: int)
    requires
        0 <= start <= s.len(),
        forall|k: int| 0 <= k < start ==> is_white_space(s[k]),
        start < s.len() ==> !is_white_space(s[start]),
    ensures
        trim_start(s) == s.skip(start),
    decreases start,
{
    if start == 0 {
        assert(s.skip(0) =~= s);
    } else {
        let rest = s.drop_first();
        assert forall|k: int| 0 <= k < start - 1 implies is_white_space(rest[k]) by {
            assert(rest[k] == s[k + 1]);
        }
        lemma_trim_start_skips(rest, start - 1);
        assert(rest.skip(start - 1) =~= s.skip(start));
    }
}

/// Trailing white space is dropped down to the last character that is kept.
proof fn lemma_trim_end_takes(s: Seq<char>, end: int)
    requires
        0 <= end <= s.len(),
        forall|k: int| end <= k < s.len() ==> is_white_space(s[k]),
        0 < end ==> !is_white_space(s[end - 1]),
    ensures
        trim_end(s) == s.take(end),
    decreases s.len() - end,
{
    if end == s.len() {
        assert(s.take(end) =~= s);
    } else {
        let rest = s.drop_last();
        lemma_trim_end_takes(rest, end);
        assert(rest.take(end) =~= s.take(end));
    }
}

/// What trimming keeps. The trimmed text is the part of `s` from `start` to
/// `end`, the two numbers returned; all that lies before and behind it is
/// white space, and where it is not empty it neither begins nor ends with
/// white space.
pub proof fn lemma_trimmed_is_the_core(s: Seq<char>) -> (bounds: (int, int))
    ensures
        0 <= bounds.0 <= bounds.1 <= s.len(),
        trimmed(s) == s.subrange(bounds.0, bounds.1),
        forall|k: int| 0 <= k < bounds.0 ==> is_white_space(s[k]),
        forall|k: int| bounds.1 <= k < s.len() ==> is_white_space(s[k]),
        bounds.0 < bounds.1 ==> !is_white_space(s[bounds.0]) && !is_white_space(s[bounds.1 - 1]),
{
    let start = lemma_trim_start_bound(s);
    let kept = s.skip(start);
    let length = lemma_trim_end_bound(kept);
    assert(kept.take(length) =~= s.subrange(start, start + length));
    assert forall|k: int| start + length <= k < s.len() implies is_white_space(s[k]) by {
        assert(kept[k - start] == s[k]);
    }
    if length > 0 {
        assert(kept[length - 1] == s[start + length - 1]);
    }
    (start, start + length)
}

/// How much leading white space `s` has.
proof fn lemma_trim_start_bound(s: Seq<char>) -> (start: int)
    ensures
        0 <= start <= s.len(),
        trim_start(s) == s.skip(start),
        forall|k: int| 0 <= k < start ==> is_white_space(s[k]),
        start < s.len() ==> !is_white_space(s[start]),
    decreases s.len(),
{
    if s.len() > 0 && is_white_space(s.first()) {
        let rest = s.drop_first();
        let inner = lemma_trim_start_bound(rest);
        assert(rest.skip(inner) =~= s.skip(inner + 1));
        assert forall|k: int| 0 <= k < inner + 1 implies is_white_space(s[k]) by {
            if k > 0 {
                assert(rest[k - 1] == s[k]);
            }
        }
        if inner + 1 < s.len() {
            assert(rest[inner] == s[inner + 1]);
        }
        inner + 1
    } else {
        assert(s.skip(0) =~= s);
        0
    }
}

/// How much of `s` comes before its trailing white space.
proof fn lemma_trim_end_bound(s: Seq<char>) -> (end: int)
    ensures
        0 <= end <= s.len(),
        trim_end(s) == s.take(end),
        forall|k: int| end <= k < s.len() ==> is_white_space(s[k]),
        0 < end ==> !is_white_space(s[end - 1]),
    decreases s.len(),
{
    if s.len() > 0 && is_white_space(s.last()) {
        let rest = s.drop_last();
        let inner = lemma_trim_end_bound(rest);
        assert(rest.take(inner) =~= s.take(inner));
        assert forall|k: int| inner <= k < s.len() implies is_white_space(s[k]) by {
            if k < rest.len() {
                assert(rest[k] == s[k]);
            }
        }
        if inner > 0 {
            assert(rest[inner - 1] == s[inner - 1]);
        }
        inner
    } else {
        assert(s.take(s.len() as int) =~= s);
        s.len() as int
    }
}

/// The characters of `s` without leading and trailing white space, as an
/// owned string.
pub fn trim(s: &str) -> (r: String)
    ensures
        r@ == trimmed(s@),
{
    let n: usize = s.unicode_len();
    let mut start: usize = 0;
    let mut end: usize = 0;
    let mut found: bool = false;
    let mut i: usize = 0;
    for c in it: s.chars()
        invariant
            i == it.index(),
            it.seq() == s@,
            n == s@.len(),
            !found ==> start == 0 && end == 0,
            !found ==> forall|k: int| 0 <= k < i ==> is_white_space(s@[k]),
            found ==> start < end <= i,
            found ==> forall|k: int| 0 <= k < start ==> is_white_space(s@[k]),
            found ==> !is_white_space(s@[start as int]),
            found ==> !is_white_space(s@[end - 1]),
            found ==> forall|k: int| end <= k < i ==> is_white_space(s@[k]),
    {
        if !white_space(c) {
            if !found {
                start = i;
                found = true;
            }
            end = i + 1;
        }
        i = i + 1;
    }
    if !found {
        start = n;
        end = n;
    }
    proof {
        let kept = s@.skip(start as int);
        lemma_trim_start_skips(s@, start as int);
        assert forall|k: int| end - start <= k < kept.len() implies is_white_space(kept[k]) by {
            assert(kept[k] == s@[k + start]);
        }
        lemma_trim_end_takes(kept, end - start);
        assert(kept.take(end - start) =~= s@.subrange(start as int, end as int));
    }
    s.substring_char(start, end).to_owned()
}

} // verus!
