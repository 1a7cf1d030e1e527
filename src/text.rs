//! Character-level helpers on `str` and `String` shared by the parsers and
//! the key builders.
use vstd::prelude::*;
use vstd::string::*;

verus! {

/// Whether two strings hold the same characters.
pub fn str_eq(a: &str, b: &str) -> (r: bool)
    ensures
        r == (a@ == b@),
{
    let n = a.unicode_len();
    if n != b.unicode_len() {
        return false;
    }
    let mut i: usize = 0;
    while i < n
        invariant
            n == a@.len(),
            n == b@.len(),
            0 <= i <= n,
            a@.subrange(0, i as int) == b@.subrange(0, i as int),
        decreases n - i,
    {
        if a.get_char(i) != b.get_char(i) {
            return false;
        }
        proof {
            assert(a@.subrange(0, i + 1) == a@.subrange(0, i as int).push(a@[i as int]));
            assert(b@.subrange(0, i + 1) == b@.subrange(0, i as int).push(b@[i as int]));
        }
        i = i + 1;
    }
    proof {
        assert(a@ == a@.subrange(0, n as int));
        assert(b@ == b@.subrange(0, n as int));
    }
    true
}

/// Joins two pieces of text into a new `String`.
pub(crate) fn join2(a: &str, b: &str) -> (r: String)
    ensures
        r@ == a@ + b@,
{
    let s = String::from_str(a);
    s.concat(b)
}

/// Joins three pieces of text into a new `String`.
pub(crate) fn join3(a: &str, b: &str, c: &str) -> (r: String)
    ensures
        r@ == a@ + b@ + c@,
{
    let s = String::from_str(a);
    let s = s.concat(b);
    s.concat(c)
}

/// `needle` occurs in `hay` at position `i`.
pub open spec fn occurs_at(hay: Seq<char>, needle: Seq<char>, i: int) -> bool {
    0 <= i && i + needle.len() <= hay.len() && hay.subrange(i, i + needle.len()) == needle
}

/// `needle` occurs somewhere in `hay`.
pub open spec fn spec_contains(hay: Seq<char>, needle: Seq<char>) -> bool {
    exists|i: int| occurs_at(hay, needle, i)
}

fn occurs_at_exec(hay: &str, needle: &str, i: usize) -> (r: bool)
    requires
        hay@.len() <= usize::MAX,
        i + needle@.len() <= hay@.len(),
    ensures
        r == occurs_at(hay@, needle@, i as int),
{
    let m = needle.unicode_len();
    let mut j: usize = 0;
    while j < m
        invariant
            m == needle@.len(),
            i + m <= hay@.len(),
            hay@.len() <= usize::MAX,
            0 <= j <= m,
            hay@.subrange(i as int, i + j) == needle@.subrange(0, j as int),
        decreases m - j,
    {
        if hay.get_char(i + j) != needle.get_char(j) {
            proof {
                if hay@.subrange(i as int, i + m) == needle@ {
                    assert(hay@.subrange(i as int, i + m)[j as int] == hay@[i + j]);
                }
            }
            return false;
        }
        proof {
            assert(hay@.subrange(i as int, i + j + 1) == hay@.subrange(i as int, i + j).push(hay@[i + j]));
            assert(needle@.subrange(0, j + 1) == needle@.subrange(0, j as int).push(needle@[j as int]));
        }
        j = j + 1;
    }
    proof {
        assert(needle@.subrange(0, m as int) == needle@);
    }
    true
}

/// Whether `needle` occurs in `hay`.
pub fn contains(hay: &str, needle: &str) -> (r: bool)
    ensures
        r == spec_contains(hay@, needle@),
{
    let n = hay.unicode_len();
    let m = needle.unicode_len();
    if m > n {
        proof {
            assert forall|i: int| !occurs_at(hay@, needle@, i) by {}
        }
        return false;
    }
    if m == 0 {
        proof {
            assert(hay@.subrange(0, 0) =~= needle@);
            assert(occurs_at(hay@, needle@, 0));
        }
        return true;
    }
    let mut i: usize = 0;
    while i <= n - m
        invariant
            n == hay@.len(),
            m == needle@.len(),
            1 <= m <= n,
            0 <= i <= n - m + 1,
            forall|k: int| 0 <= k < i ==> !occurs_at(hay@, needle@, k),
        decreases n - m + 1 - i,
    {
        if occurs_at_exec(hay, needle, i) {
            return true;
        }
        i = i + 1;
    }
    proof {
        assert forall|k: int| !occurs_at(hay@, needle@, k) by {
            if 0 <= k < i {
            }
        }
    }
    false
}

/// The parts joined back together, with `sep` between each two.
pub open spec fn spec_join(parts: Seq<Seq<char>>, sep: char) -> Seq<char>
    decreases parts.len(),
{
    if parts.len() == 0 {
        Seq::empty()
    } else if parts.len() == 1 {
        parts[0]
    } else {
        spec_join(parts.drop_last(), sep) + seq![sep] + parts.last()
    }
}

/// Splits `s` at every `sep`. The parts hold no `sep` and, joined back
/// with `sep`, give `s`; there is always at least one part.
pub fn split_at_char(s: &str, sep: char) -> (r: Vec<String>)
    ensures
        r@.len() >= 1,
        forall|k: int| 0 <= k < r@.len() ==> !r@[k]@.contains(sep),
        spec_join(r@.map_values(|p: String| p@), sep) == s@,
{
    let n = s.unicode_len();
    let mut parts: Vec<String> = Vec::new();
    let mut start: usize = 0;
    let mut i: usize = 0;
    while i < n
        invariant
            n == s@.len(),
            0 <= start <= i <= n,
            forall|k: int| 0 <= k < parts@.len() ==> !parts@[k]@.contains(sep),
            !s@.subrange(start as int, i as int).contains(sep),
            spec_join(parts@.map_values(|p: String| p@).push(s@.subrange(start as int, i as int)), sep)
                == s@.subrange(0, i as int),
        decreases n - i,
    {
        let ghost done = parts@.map_values(|p: String| p@);
        let ghost cur = s@.subrange(start as int, i as int);
        let c = s.get_char(i);
        if c == sep {
            let piece = String::from_str(s.substring_char(start, i));
            parts.push(piece);
            start = i + 1;
            proof {
                let now = parts@.map_values(|p: String| p@);
                assert(now =~= done.push(cur));
                let next = now.push(s@.subrange(start as int, i + 1));
                assert(s@.subrange(start as int, i + 1) =~= Seq::<char>::empty());
                assert(next.drop_last() =~= now);
                assert(spec_join(next, sep) == spec_join(now, sep) + seq![sep] + Seq::<char>::empty());
                assert(s@.subrange(0, i + 1) =~= s@.subrange(0, i as int) + seq![sep]);
                assert(spec_join(next, sep) =~= s@.subrange(0, i + 1));
                assert forall|k: int| 0 <= k < parts@.len() implies !parts@[k]@.contains(sep) by {
                    if k == parts@.len() - 1 {
                        assert(parts@[k]@ == cur);
                    }
                }
            }
        } else {
            proof {
                let cur2 = s@.subrange(start as int, i + 1);
                assert(cur2 =~= cur.push(c));
                assert(!cur2.contains(sep)) by {
                    if cur2.contains(sep) {
                        let k = choose|k: int| 0 <= k < cur2.len() && cur2[k] == sep;
                        if k < cur.len() {
                            assert(cur[k] == sep);
                        }
                    }
                }
                let before = done.push(cur);
                let after = done.push(cur2);
                if done.len() == 0 {
                    assert(spec_join(before, sep) == cur);
                    assert(spec_join(after, sep) == cur2);
                } else {
                    assert(before.drop_last() =~= done);
                    assert(after.drop_last() =~= done);
                    assert(spec_join(after, sep) == spec_join(done, sep) + seq![sep] + cur2);
                    assert(spec_join(before, sep) == spec_join(done, sep) + seq![sep] + cur);
                }
                assert(s@.subrange(0, i + 1) =~= s@.subrange(0, i as int).push(c));
                assert(spec_join(after, sep) =~= s@.subrange(0, i + 1));
            }
        }
        i = i + 1;
    }
    let ghost done = parts@.map_values(|p: String| p@);
    let last = String::from_str(s.substring_char(start, n));
    parts.push(last);
    proof {
        let fin = parts@.map_values(|p: String| p@);
        assert(fin =~= done.push(s@.subrange(start as int, n as int)));
        assert(s@.subrange(0, n as int) =~= s@);
        assert forall|k: int| 0 <= k < parts@.len() implies !parts@[k]@.contains(sep) by {
            if k == parts@.len() - 1 {
                assert(parts@[k]@ == s@.subrange(start as int, n as int));
            }
        }
    }
    parts
}

/// Whether `c` is white space in the sense of Unicode's `White_Space`
/// property: tab to carriage return (U+0009 to U+000D), space, next line
/// (U+0085), no-break space (U+00A0), ogham space mark (U+1680), the spaces
/// U+2000 to U+200A, the line and paragraph separators (U+2028, U+2029),
/// narrow no-break space (U+202F), medium mathematical space (U+205F) and
/// ideographic space (U+3000). These are the characters that
/// `char::is_whitespace` and `str::trim` treat as white space.
pub open spec fn is_white_space(c: char) -> bool {
    let u = c as u32;
    ||| 0x9 <= u <= 0xD
    ||| u == 0x20
    ||| u == 0x85
    ||| u == 0xA0
    ||| u == 0x1680
    ||| 0x2000 <= u <= 0x200A
    ||| u == 0x2028
    ||| u == 0x2029
    ||| u == 0x202F
    ||| u == 0x205F
    ||| u == 0x3000
}

/// Whether `c` is white space.
pub fn is_white_space_char(c: char) -> (r: bool)
    ensures
        r == is_white_space(c),
{
    let u = c as u32;
    (0x9 <= u && u <= 0xD) || u == 0x20 || u == 0x85 || u == 0xA0 || u == 0x1680
        || (0x2000 <= u && u <= 0x200A) || u == 0x2028 || u == 0x2029 || u == 0x202F
        || u == 0x205F || u == 0x3000
}

/// Every character of `s` is white space, so that trimming leaves nothing.
pub open spec fn spec_is_blank(s: Seq<char>) -> bool {
    forall|i: int| 0 <= i < s.len() ==> is_white_space(#[trigger] s[i])
}

/// Whether `s` holds nothing but white space.
pub fn is_blank(s: &str) -> (r: bool)
    ensures
        r == spec_is_blank(s@),
{
    let n = s.unicode_len();
    let mut i: usize = 0;
    while i < n
        invariant
            n == s@.len(),
            0 <= i <= n,
            forall|k: int| 0 <= k < i ==> is_white_space(#[trigger] s@[k]),
        decreases n - i,
    {
        if !is_white_space_char(s.get_char(i)) {
            return false;
        }
        i = i + 1;
    }
    true
}

/// `s` with every letter in lower case, as Unicode defines it.
pub uninterp spec fn lower_of(s: Seq<char>) -> Seq<char>;

/// Relies on `str::to_lowercase`: the lower-case form of a text, which
/// depends on its characters alone; an empty text stays empty.
#[verifier::external_body]
pub(crate) fn lowercase(s: &str) -> (r: String)
    ensures
        r@ == lower_of(s@),
        s@.len() == 0 ==> r@.len() == 0,
{
    s.to_lowercase()
}

} // verus!
