//! Text helpers over characters: Unicode whitespace trimming and prefix
//! tests that ignore ASCII case.
use vstd::prelude::*;
use vstd::string::*;

verus! {

/// The characters with the Unicode `White_Space` property.
pub open spec fn is_white_space(c: char) -> bool {
    let u = c as u32;
    (0x09 <= u && u <= 0x0d) || u == 0x20 || u == 0x85 || u == 0xa0 || u == 0x1680 || (0x2000 <= u
        && u <= 0x200a) || u == 0x2028 || u == 0x2029 || u == 0x202f || u == 0x205f || u == 0x3000
}

/// Whether `c` has the Unicode `White_Space` property.
pub fn white_space(c: char) -> (r: bool)
    ensures
        r == is_white_space(c),
{
    let u = c as u32;
    (0x09 <= u && u <= 0x0d) || u == 0x20 || u == 0x85 || u == 0xa0 || u == 0x1680 || (0x2000 <= u
        && u <= 0x200a) || u == 0x2028 || u == 0x2029 || u == 0x202f || u == 0x205f || u == 0x3000
}

/// `s` without its leading whitespace.
pub open spec fn trim_start_spec(s: Seq<char>) -> Seq<char>
    decreases s.len(),
{
    if s.len() > 0 && is_white_space(s[0]) {
        trim_start_spec(s.drop_first())
    } else {
        s
    }
}

/// `s` without its trailing whitespace.
pub open spec fn trim_end_spec(s: Seq<char>) -> Seq<char>
    decreases s.len(),
{
    if s.len() > 0 && is_white_space(s.last()) {
        trim_end_spec(s.drop_last())
    } else {
        s
    }
}

/// `s` without leading and trailing whitespace.
pub open spec fn trim_spec(s: Seq<char>) -> Seq<char> {
    trim_end_spec(trim_start_spec(s))
}

/// The text without leading and trailing whitespace.
pub fn trim(s: &str) -> (r: &str)
    ensures
        r@ == trim_spec(s@),
{
    let n = s.unicode_len();
    let mut i: usize = 0;
    proof {
        assert(s@.subrange(0, n as int) =~= s@);
    }
    while i < n && white_space(s.get_char(i))
        invariant
            n == s@.len(),
            i <= n,
            trim_start_spec(s@) == trim_start_spec(s@.subrange(i as int, n as int)),
        decreases n - i,
    {
        proof {
            assert(s@.subrange(i as int, n as int).drop_first() =~= s@.subrange(
                i + 1,
                n as int,
            ));
        }
        i = i + 1;
    }
    proof {
        assert(trim_start_spec(s@.subrange(i as int, n as int)) == s@.subrange(i as int, n as int));
    }
    let mut j: usize = n;
    while j > i && white_space(s.get_char(j - 1))
        invariant
            n == s@.len(),
            i <= j <= n,
            trim_spec(s@) == trim_end_spec(s@.subrange(i as int, j as int)),
        decreases j,
    {
        proof {
            assert(s@.subrange(i as int, j as int).drop_last() =~= s@.subrange(
                i as int,
                j - 1,
            ));
        }
        j = j - 1;
    }
    s.substring_char(i, j)
}

/// The lower-case form of an ASCII letter; other characters are kept.
pub open spec fn ascii_lower(c: char) -> char {
    if 'A' <= c && c <= 'Z' {
        (((c as u8) + 32) as u8) as char
    } else {
        c
    }
}

/// Whether `s` begins with `prefix` when ASCII letters in `s` are lowered.
pub open spec fn starts_with_lowered(s: Seq<char>, prefix: Seq<char>) -> bool {
    prefix.len() <= s.len() && forall|i: int| 0 <= i < prefix.len() ==> ascii_lower(s[i]) == prefix[i]
}

/// Whether `s` begins with `prefix`, ignoring the case of ASCII letters in `s`.
pub fn starts_with_ignore_ascii_case(s: &str, prefix: &str) -> (r: bool)
    ensures
        r == starts_with_lowered(s@, prefix@),
{
    let n = s.unicode_len();
    let m = prefix.unicode_len();
    if m > n {
        return false;
    }
    let mut i: usize = 0;
    while i < m
        invariant
            m <= n,
            n == s@.len(),
            m == prefix@.len(),
            i <= m,
            forall|j: int| 0 <= j < i ==> ascii_lower(s@[j]) == prefix@[j],
        decreases m - i,
    {
        let c = s.get_char(i);
        let lc = if 'A' <= c && c <= 'Z' {
            ((c as u8) + 32) as char
        } else {
            c
        };
        if lc != prefix.get_char(i) {
            return false;
        }
        i = i + 1;
    }
    true
}

/// Whether two texts are equal once ASCII letters are lowered.
pub open spec fn eq_lowered(a: Seq<char>, b: Seq<char>) -> bool {
    a.len() == b.len() && forall|i: int| 0 <= i < a.len() ==> ascii_lower(a[i]) == ascii_lower(b[i])
}

/// Whether two texts are equal, ignoring the case of ASCII letters.
pub fn eq_ignore_ascii_case(a: &str, b: &str) -> (r: bool)
    ensures
        r == eq_lowered(a@, b@),
{
    let n = a.unicode_len();
    if n != b.unicode_len() {
        return false;
    }
    let mut i: usize = 0;
    while i < n
        invariant
            n == a@.len(),
            n == b@.len(),
            i <= n,
            forall|j: int| 0 <= j < i ==> ascii_lower(a@[j]) == ascii_lower(b@[j]),
        decreases n - i,
    {
        let x = a.get_char(i);
        let y = b.get_char(i);
        let lx = if 'A' <= x && x <= 'Z' {
            ((x as u8) + 32) as char
        } else {
            x
        };
        let ly = if 'A' <= y && y <= 'Z' {
            ((y as u8) + 32) as char
        } else {
            y
        };
        if lx != ly {
            return false;
        }
        i = i + 1;
    }
    true
}

} // verus!
