//! Character-level string utilities.
//!
//! Exec code in this crate manipulates text as `Vec<char>`, whose view is the
//! same `Seq<char>` as the view of the `String` it came from, so contracts can
//! be stated uniformly over character sequences.

use vstd::prelude::*;

verus! {

use vstd::std_specs::iter::IteratorSpec;

broadcast use vstd::string::group_string_axioms;

/// Relies on std's String::push: appends the given char to the end of the string.
pub assume_specification[ String::push ](s: &mut String, c: char)
    ensures
        final(s)@ == old(s)@.push(c),
;

/// Collects the characters of a string slice into a vector.
pub fn str_chars(s: &str) -> (r: Vec<char>)
    ensures
        r@ == s@,
{
    let mut it = s.chars();
    let mut out: Vec<char> = Vec::new();
    loop
        invariant
            it.obeys_prophetic_iter_laws(),
            it.decrease() is Some,
            out@ + it.remaining() == s@,
        decreases it.decrease()->0,
    {
        match it.next() {
            Some(c) => {
                out.push(c);
            },
            None => {
                proof {
                    assert(it.remaining().len() == 0);
                    assert(out@ =~= s@);
                }
                return out;
            },
        }
    }
}

/// Builds a String from a vector of characters.
pub fn chars_to_string(v: &Vec<char>) -> (r: String)
    ensures
        r@ == v@,
{
    let mut s = String::new();
    let mut i: usize = 0;
    while i < v.len()
        invariant
            i <= v.len(),
            s@ == v@.subrange(0, i as int),
        decreases v.len() - i,
    {
        s.push(v[i]);
        proof {
            assert(s@ =~= v@.subrange(0, i + 1 as int));
        }
        i = i + 1;
    }
    proof {
        assert(s@ =~= v@);
    }
    s
}

/// True when `v` begins with the characters of `p`.
pub fn has_prefix(v: &Vec<char>, p: &str) -> (r: bool)
    ensures
        r == (v@.len() >= p@.len() && v@.subrange(0, p@.len() as int) == p@),
{
    let pc = str_chars(p);
    if pc.len() > v.len() {
        proof {
            assert(!(v@.len() >= p@.len()));
        }
        return false;
    }
    let mut i: usize = 0;
    while i < pc.len()
        invariant
            i <= pc.len(),
            pc.len() <= v.len(),
            pc@ == p@,
            forall|j: int| 0 <= j < i ==> v@[j] == pc@[j],
        decreases pc.len() - i,
    {
        if v[i] != pc[i] {
            proof {
                assert(v@.subrange(0, p@.len() as int)[i as int] != p@[i as int]);
            }
            return false;
        }
        i = i + 1;
    }
    proof {
        assert(v@.subrange(0, p@.len() as int) =~= p@);
    }
    true
}

/// True when the character sequences of `v` and `p` are equal.
pub fn chars_eq_str(v: &Vec<char>, p: &str) -> (r: bool)
    ensures
        r == (v@ == p@),
{
    let pc = str_chars(p);
    if pc.len() != v.len() {
        proof {
            assert(v@.len() != p@.len());
        }
        return false;
    }
    let mut i: usize = 0;
    while i < pc.len()
        invariant
            i <= pc.len(),
            pc.len() == v.len(),
            pc@ == p@,
            forall|j: int| 0 <= j < i ==> v@[j] == pc@[j],
        decreases pc.len() - i,
    {
        if v[i] != pc[i] {
            return false;
        }
        i = i + 1;
    }
    proof {
        assert(v@ =~= p@);
    }
    true
}

/// True when the two strings hold the same characters.
pub fn string_eq(a: &String, b: &String) -> (r: bool)
    ensures
        r == (a@ == b@),
{
    a.eq(b)
}

/// True when the two string slices hold the same characters.
pub fn str_eq(a: &str, b: &str) -> (r: bool)
    ensures
        r == (a@ == b@),
{
    let ac = str_chars(a);
    chars_eq_str(&ac, b)
}


/// ASCII whitespace, as trimmed from pause signatures and titles.
pub open spec fn is_space(c: char) -> bool {
    c == ' ' || c == '\t' || c == '\n' || c == '\r'
}

/// `s` without leading ASCII whitespace.
pub open spec fn trim_start(s: Seq<char>) -> Seq<char>
    decreases s.len(),
{
    if s.len() > 0 && is_space(s[0]) {
        trim_start(s.drop_first())
    } else {
        s
    }
}

/// `s` without trailing ASCII whitespace.
pub open spec fn trim_end(s: Seq<char>) -> Seq<char>
    decreases s.len(),
{
    if s.len() > 0 && is_space(s.last()) {
        trim_end(s.drop_last())
    } else {
        s
    }
}

/// `s` without leading and trailing ASCII whitespace.
pub open spec fn trim(s: Seq<char>) -> Seq<char> {
    trim_end(trim_start(s))
}

/// The first position at or after `i` where `c` occurs in `s`.
pub open spec fn find_char_from(s: Seq<char>, i: int, c: char) -> Option<int>
    decreases s.len() - i,
{
    if !(0 <= i < s.len()) {
        None
    } else if s[i] == c {
        Some(i)
    } else {
        find_char_from(s, i + 1, c)
    }
}

/// Copies the characters `v[from..to]` into a fresh vector.
pub fn sub_chars(v: &Vec<char>, from: usize, to: usize) -> (r: Vec<char>)
    requires
        from <= to <= v@.len(),
    ensures
        r@ == v@.subrange(from as int, to as int),
{
    let mut r: Vec<char> = Vec::new();
    let mut i: usize = from;
    while i < to
        invariant
            from <= i <= to <= v@.len(),
            r@.len() == i - from,
            forall|j: int| 0 <= j < r@.len() ==> r@[j] == v@[from + j],
        decreases to - i,
    {
        r.push(v[i]);
        i = i + 1;
    }
    proof {
        assert(r@ =~= v@.subrange(from as int, to as int));
    }
    r
}

fn is_space_exec(c: char) -> (r: bool)
    ensures
        r == is_space(c),
{
    c == ' ' || c == '\t' || c == '\n' || c == '\r'
}

/// Copies `v` without leading and trailing ASCII whitespace.
pub fn trim_chars(v: &Vec<char>) -> (r: Vec<char>)
    ensures
        r@ == trim(v@),
{
    let mut a: usize = 0;
    proof {
        assert(v@.subrange(0, v@.len() as int) =~= v@);
    }
    while a < v.len() && is_space_exec(v[a])
        invariant
            a <= v@.len(),
            trim_start(v@) == trim_start(v@.subrange(a as int, v@.len() as int)),
        decreases v@.len() - a,
    {
        proof {
            assert(v@.subrange(a as int, v@.len() as int).drop_first() =~= v@.subrange(
                a + 1 as int,
                v@.len() as int,
            ));
        }
        a = a + 1;
    }
    let ghost st = v@.subrange(a as int, v@.len() as int);
    proof {
        assert(trim_start(v@) == st);
    }
    let mut b: usize = v.len();
    proof {
        assert(v@.subrange(a as int, b as int) =~= st);
    }
    while b > a && is_space_exec(v[b - 1])
        invariant
            a <= b <= v@.len(),
            trim_end(st) == trim_end(v@.subrange(a as int, b as int)),
        decreases b,
    {
        proof {
            assert(v@.subrange(a as int, b as int).drop_last() =~= v@.subrange(
                a as int,
                b - 1 as int,
            ));
            assert(v@.subrange(a as int, b as int).last() == v@[b - 1]);
        }
        b = b - 1;
    }
    proof {
        assert(trim_end(v@.subrange(a as int, b as int)) == v@.subrange(a as int, b as int));
    }
    sub_chars(v, a, b)
}

/// A found position is in range, holds `c`, and is at or after `from`.
pub proof fn lemma_find_char_bounds(s: Seq<char>, from: int, c: char, i: int)
    requires
        find_char_from(s, from, c) == Some(i),
    ensures
        from <= i < s.len() && s[i] == c,
    decreases s.len() - from,
{
    if 0 <= from && from < s.len() {
        if s[from] == c {
        } else {
            lemma_find_char_bounds(s, from + 1, c, i);
        }
    }
}

/// Finds the first occurrence of `c` in `v` at or after `from`.
pub fn find_char(v: &Vec<char>, from: usize, c: char) -> (r: Option<usize>)
    ensures
        match r {
            Some(i) => find_char_from(v@, from as int, c) == Some(i as int),
            None => find_char_from(v@, from as int, c) is None,
        },
{
    let mut i: usize = from;
    while i < v.len()
        invariant
            from <= i,
            find_char_from(v@, from as int, c) == find_char_from(v@, i as int, c),
        decreases v@.len() - i,
    {
        if v[i] == c {
            return Some(i);
        }
        i = i + 1;
    }
    None
}


/// `needle` occurs in `s` as a contiguous substring.
pub open spec fn has_substring(s: Seq<char>, needle: Seq<char>) -> bool {
    exists|i: int| 0 <= i <= s.len() - needle.len() && #[trigger] s.subrange(i, i + needle.len()) == needle
}

fn match_at(v: &Vec<char>, needle: &Vec<char>, i: usize) -> (r: bool)
    requires
        i + needle@.len() <= v@.len(),
    ensures
        r == (v@.subrange(i as int, i + needle@.len()) == needle@),
{
    let mut k: usize = 0;
    let vlen = v.len();
    while k < needle.len()
        invariant
            i + needle@.len() <= v@.len(),
            vlen == v@.len(),
            k <= needle@.len(),
            forall|m: int| 0 <= m < k ==> v@[i + m] == needle@[m],
        decreases needle@.len() - k,
    {
        proof {
            assert(i + k < vlen);
        }
        if v[i + k] != needle[k] {
            proof {
                assert(v@.subrange(i as int, i + needle@.len())[k as int] == v@[i + k as int]);
            }
            return false;
        }
        k = k + 1;
    }
    proof {
        assert(v@.subrange(i as int, i + needle@.len()) =~= needle@);
    }
    true
}

/// Whether the characters of `v` contain those of `needle` contiguously.
pub fn contains_substring(v: &Vec<char>, needle: &Vec<char>) -> (r: bool)
    ensures
        r == has_substring(v@, needle@),
{
    if needle.len() > v.len() {
        proof {
            assert(!has_substring(v@, needle@));
        }
        return false;
    }
    if needle.len() == 0 {
        proof {
            assert(v@.subrange(0, 0 + needle@.len() as int) =~= needle@);
            assert(has_substring(v@, needle@));
        }
        return true;
    }
    let mut i: usize = 0;
    while i <= v.len() - needle.len()
        invariant
            1 <= needle@.len() <= v@.len(),
            i <= v@.len() - needle@.len() + 1,
            forall|j: int|
                0 <= j < i ==> #[trigger] v@.subrange(j, j + needle@.len()) != needle@,
        decreases v@.len() + 1 - i,
    {
        if match_at(v, needle, i) {
            return true;
        }
        i = i + 1;
    }
    proof {
        if has_substring(v@, needle@) {
            let w = choose|j: int|
                0 <= j <= v@.len() - needle@.len() && #[trigger] v@.subrange(j, j + needle@.len())
                    == needle@;
            assert(v@.subrange(w, w + needle@.len()) == needle@);
        }
    }
    false
}

/// A character mapped to lower case, for the ASCII letters only.
pub open spec fn ascii_lower(c: char) -> char {
    if 'A' <= c && c <= 'Z' {
        ((c as u8) + 32) as char
    } else {
        c
    }
}

/// `s` with its ASCII letters lowered.
pub open spec fn ascii_lower_seq(s: Seq<char>) -> Seq<char> {
    s.map_values(|c: char| ascii_lower(c))
}

/// Lowercases the ASCII letters of `v`.
pub fn to_ascii_lower(v: &Vec<char>) -> (r: Vec<char>)
    ensures
        r@ == ascii_lower_seq(v@),
{
    let mut r: Vec<char> = Vec::new();
    let mut i: usize = 0;
    while i < v.len()
        invariant
            i <= v@.len(),
            r@.len() == i,
            forall|j: int| 0 <= j < i ==> r@[j] == ascii_lower(v@[j]),
        decreases v@.len() - i,
    {
        let c = v[i];
        if 'A' <= c && c <= 'Z' {
            let lowered: char = ((c as u8) + 32) as char;
            r.push(lowered);
        } else {
            r.push(c);
        }
        i = i + 1;
    }
    proof {
        assert(r@ =~= ascii_lower_seq(v@));
    }
    r
}


/// The first position at or after `i` where `needle` occurs in `s`.
pub open spec fn find_sub_from(s: Seq<char>, needle: Seq<char>, i: int) -> Option<int>
    decreases s.len() + 1 - i,
{
    if !(0 <= i && i + needle.len() <= s.len()) {
        None
    } else if s.subrange(i, i + needle.len()) == needle {
        Some(i)
    } else {
        find_sub_from(s, needle, i + 1)
    }
}

/// A found position is in range and holds the needle.
pub proof fn lemma_find_sub_bounds(s: Seq<char>, needle: Seq<char>, from: int, i: int)
    requires
        find_sub_from(s, needle, from) == Some(i),
    ensures
        from <= i && i + needle.len() <= s.len() && s.subrange(i, i + needle.len()) == needle,
    decreases s.len() + 1 - from,
{
    if 0 <= from && from + needle.len() <= s.len() {
        if s.subrange(from, from + needle.len()) == needle {
        } else {
            lemma_find_sub_bounds(s, needle, from + 1, i);
        }
    }
}

/// Finds the first occurrence of `needle` in `v` at or after `from`.
pub fn find_substring(v: &Vec<char>, needle: &Vec<char>, from: usize) -> (r: Option<usize>)
    ensures
        match r {
            Some(i) => find_sub_from(v@, needle@, from as int) == Some(i as int),
            None => find_sub_from(v@, needle@, from as int) is None,
        },
{
    if needle.len() == 0 {
        if from <= v.len() {
            proof {
                assert(v@.subrange(from as int, from + needle@.len() as int) =~= needle@);
            }
            return Some(from);
        } else {
            return None;
        }
    }
    if needle.len() > v.len() {
        return None;
    }
    let mut i: usize = from;
    while i <= v.len() - needle.len()
        invariant
            from <= i,
            1 <= needle@.len() <= v@.len(),
            find_sub_from(v@, needle@, from as int) == find_sub_from(v@, needle@, i as int),
        decreases v@.len() + 1 - i,
    {
        if match_at(v, needle, i) {
            return Some(i);
        }
        i = i + 1;
    }
    proof {
        assert(find_sub_from(v@, needle@, i as int) is None);
    }
    None
}

} // verus!
