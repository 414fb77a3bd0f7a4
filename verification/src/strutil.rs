//! String utilities with exact specifications: splitting on a separator
//! character, joining with a separator, and trimming whitespace.

use vstd::prelude::*;

verus! {

/// The index of the first occurrence of `sep` in `s`, or `s.len()` if there
/// is none.
pub open spec fn first_occ(s: Seq<char>, sep: char) -> nat
    decreases s.len(),
{
    if s.len() == 0 {
        0
    } else if s[0] == sep {
        0
    } else {
        1 + first_occ(s.subrange(1, s.len() as int), sep)
    }
}

pub proof fn lemma_first_occ_unique(s: Seq<char>, sep: char, m: int)
    requires
        0 <= m <= s.len(),
        m < s.len() ==> s[m] == sep,
        forall|k: int| 0 <= k < m ==> s[k] != sep,
    ensures
        first_occ(s, sep) == m,
    decreases s.len(),
{
    if s.len() == 0 {
    } else if s[0] == sep {
        assert(m == 0);
    } else {
        assert(m >= 1);
        let t = s.subrange(1, s.len() as int);
        assert(forall|k: int| 0 <= k < m - 1 ==> t[k] == s[k + 1] && s[k + 1] != sep);
        lemma_first_occ_unique(t, sep, m - 1);
    }
}

/// The segments of `s` between occurrences of `sep`, as Rust's `str::split`
/// yields them: `n` separators give `n + 1` segments, empty ones included.
pub open spec fn spec_split(s: Seq<char>, sep: char) -> Seq<Seq<char>>
    decreases s.len(),
{
    let i = first_occ(s, sep);
    if i < s.len() {
        seq![s.subrange(0, i as int)] + spec_split(
            s.subrange(i + 1 as int, s.len() as int),
            sep,
        )
    } else {
        seq![s]
    }
}

/// Splitting at the first separator: a separator-free prefix, the
/// separator, then the rest.
pub proof fn lemma_split_at_first(a: Seq<char>, b: Seq<char>, sep: char)
    requires
        forall|k: int| 0 <= k < a.len() ==> a[k] != sep,
    ensures
        spec_split(a + seq![sep] + b, sep) == seq![a] + spec_split(b, sep),
{
    let s = a + seq![sep] + b;
    assert(s.len() == a.len() + 1 + b.len());
    assert(s[a.len() as int] == sep);
    assert(forall|k: int| 0 <= k < a.len() ==> s[k] == a[k]);
    lemma_first_occ_unique(s, sep, a.len() as int);
    assert(s.subrange(0, a.len() as int) =~= a);
    assert(s.subrange(a.len() as int + 1, s.len() as int) =~= b);
}

/// Splitting a separator-free string yields that one segment.
pub proof fn lemma_split_whole(s: Seq<char>, sep: char)
    requires
        forall|k: int| 0 <= k < s.len() ==> s[k] != sep,
    ensures
        spec_split(s, sep) == seq![s],
{
    lemma_first_occ_unique(s, sep, s.len() as int);
}

/// Splits `s` at every occurrence of `sep`.
pub fn split_char(s: &str, sep: char) -> (r: Vec<String>)
    ensures
        r@.map_values(|p: String| p@) == spec_split(s@, sep),
{
    let n = s.unicode_len();
    let mut parts: Vec<String> = Vec::new();
    let mut start: usize = 0;
    proof {
        assert(s@.subrange(0, n as int) == s@);
        assert(parts@.map_values(|p: String| p@) + spec_split(s@, sep) =~= spec_split(s@, sep));
    }
    loop
        invariant
            start <= n,
            n == s@.len(),
            spec_split(s@, sep) == parts@.map_values(|p: String| p@) + spec_split(
                s@.subrange(start as int, n as int),
                sep,
            ),
        decreases n - start,
    {
        // Find the next separator at or after `start`.
        let mut j: usize = start;
        while j < n && !(s.get_char(j) == sep)
            invariant
                start <= j <= n,
                n == s@.len(),
                forall|k: int| start <= k < j ==> s@[k] != sep,
            decreases n - j,
        {
            j += 1;
        }
        let ghost rest = s@.subrange(start as int, n as int);
        proof {
            assert(forall|k: int| 0 <= k < j - start ==> rest[k] == s@[start + k]);
            lemma_first_occ_unique(rest, sep, j - start);
        }
        let part = s.substring_char(start, j).to_owned();
        proof {
            assert(rest.subrange(0, (j - start) as int) == s@.subrange(start as int, j as int));
        }
        parts.push(part);
        if j == n {
            proof {
                assert(first_occ(rest, sep) == rest.len());
                assert(spec_split(rest, sep) == seq![rest]);
                assert(rest == s@.subrange(start as int, j as int));
                assert(parts@.map_values(|p: String| p@) == parts@.drop_last().map_values(
                    |p: String| p@,
                ).push(rest));
            }
            return parts;
        }
        proof {
            assert(spec_split(rest, sep) == seq![rest.subrange(0, (j - start) as int)]
                + spec_split(rest.subrange((j - start + 1) as int, rest.len() as int), sep));
            assert(rest.subrange((j - start + 1) as int, rest.len() as int) == s@.subrange(
                j + 1,
                n as int,
            ));
            assert(parts@.map_values(|p: String| p@) == parts@.drop_last().map_values(
                |p: String| p@,
            ).push(s@.subrange(start as int, j as int)));
        }
        start = j + 1;
    }
}

/// The concatenation of `parts` with `sep` between consecutive elements.
pub open spec fn spec_join(parts: Seq<Seq<char>>, sep: char) -> Seq<char>
    decreases parts.len(),
{
    if parts.len() == 0 {
        Seq::empty()
    } else if parts.len() == 1 {
        parts[0]
    } else {
        spec_join(parts.drop_last(), sep).push(sep) + parts.last()
    }
}

/// Joins `parts` with `sep` between consecutive elements.
pub fn join_char(parts: &Vec<String>, sep_str: &str, sep: char) -> (r: String)
    requires
        sep_str@ == seq![sep],
    ensures
        r@ == spec_join(parts@.map_values(|p: String| p@), sep),
{
    let mut out = String::new();
    let mut i: usize = 0;
    while i < parts.len()
        invariant
            i <= parts@.len(),
            sep_str@ == seq![sep],
            out@ == spec_join(parts@.subrange(0, i as int).map_values(|p: String| p@), sep),
        decreases parts@.len() - i,
    {
        if i > 0 {
            out.append(sep_str);
        }
        out.append(parts[i].as_str());
        proof {
            let full = parts@.subrange(0, i + 1).map_values(|p: String| p@);
            assert(full.drop_last() == parts@.subrange(0, i as int).map_values(|p: String| p@));
            assert(full.last() == parts@[i as int]@);
        }
        i += 1;
    }
    proof {
        assert(parts@.subrange(0, parts@.len() as int) == parts@);
    }
    out
}

/// The characters Rust's `char::is_whitespace` accepts: those with the
/// Unicode `White_Space` property.
pub open spec fn is_space_char(c: char) -> bool {
    c == ' ' || c == '\t' || c == '\n' || c == '\u{b}' || c == '\u{c}' || c == '\r' || c
        == '\u{85}' || c == '\u{a0}' || c == '\u{1680}' || ('\u{2000}' <= c && c <= '\u{200a}') || c
        == '\u{2028}' || c == '\u{2029}' || c == '\u{202f}' || c == '\u{205f}' || c == '\u{3000}'
}

/// Checks whether `c` has the Unicode `White_Space` property.
pub fn is_space(c: char) -> (r: bool)
    ensures
        r == is_space_char(c),
{
    c == ' ' || c == '\t' || c == '\n' || c == '\u{b}' || c == '\u{c}' || c == '\r' || c
        == '\u{85}' || c == '\u{a0}' || c == '\u{1680}' || ('\u{2000}' <= c && c <= '\u{200a}') || c
        == '\u{2028}' || c == '\u{2029}' || c == '\u{202f}' || c == '\u{205f}' || c == '\u{3000}'
}

/// The number of leading whitespace characters of `s`.
pub open spec fn lead_spaces(s: Seq<char>) -> nat
    decreases s.len(),
{
    if s.len() == 0 {
        0
    } else if !is_space_char(s[0]) {
        0
    } else {
        1 + lead_spaces(s.subrange(1, s.len() as int))
    }
}

/// The number of trailing whitespace characters of `s`.
pub open spec fn trail_spaces(s: Seq<char>) -> nat
    decreases s.len(),
{
    if s.len() == 0 {
        0
    } else if !is_space_char(s.last()) {
        0
    } else {
        1 + trail_spaces(s.drop_last())
    }
}

/// `s` with leading and trailing whitespace removed, as Rust's `str::trim`.
pub open spec fn spec_trim(s: Seq<char>) -> Seq<char> {
    if lead_spaces(s) == s.len() {
        Seq::empty()
    } else {
        s.subrange(lead_spaces(s) as int, s.len() - trail_spaces(s))
    }
}

proof fn lemma_lead_spaces_unique(s: Seq<char>, m: int)
    requires
        0 <= m <= s.len(),
        m < s.len() ==> !is_space_char(s[m]),
        forall|k: int| 0 <= k < m ==> is_space_char(s[k]),
    ensures
        lead_spaces(s) == m,
    decreases s.len(),
{
    if s.len() == 0 {
    } else if !is_space_char(s[0]) {
        assert(m == 0);
    } else {
        assert(m >= 1);
        let t = s.subrange(1, s.len() as int);
        assert(forall|k: int| 0 <= k < m - 1 ==> t[k] == s[k + 1] && is_space_char(s[k + 1]));
        lemma_lead_spaces_unique(t, m - 1);
    }
}

proof fn lemma_trail_spaces_unique(s: Seq<char>, m: int)
    requires
        0 <= m <= s.len(),
        m < s.len() ==> !is_space_char(s[s.len() - 1 - m]),
        forall|k: int| s.len() - m <= k < s.len() ==> is_space_char(s[k]),
    ensures
        trail_spaces(s) == m,
    decreases s.len(),
{
    if s.len() == 0 {
    } else if !is_space_char(s.last()) {
        assert(m == 0);
    } else {
        assert(m >= 1);
        let t = s.drop_last();
        assert(forall|k: int| t.len() - (m - 1) <= k < t.len() ==> t[k] == s[k] && is_space_char(
            s[k],
        ));
        lemma_trail_spaces_unique(t, m - 1);
    }
}

/// Removes leading and trailing whitespace, as Rust's `str::trim` does.
pub fn trim(s: &str) -> (r: String)
    ensures
        r@ == spec_trim(s@),
{
    let n = s.unicode_len();
    let mut a: usize = 0;
    while a < n && is_space(s.get_char(a))
        invariant
            a <= n,
            n == s@.len(),
            forall|k: int| 0 <= k < a ==> is_space_char(s@[k]),
        decreases n - a,
    {
        a += 1;
    }
    if a == n {
        proof {
            lemma_lead_spaces_unique(s@, n as int);
        }
        return String::new();
    }
    proof {
        lemma_lead_spaces_unique(s@, a as int);
    }
    let mut b: usize = n;
    while b > a && is_space(s.get_char(b - 1))
        invariant
            a <= b <= n,
            n == s@.len(),
            a < n,
            !is_space_char(s@[a as int]),
            forall|k: int| b <= k < n ==> is_space_char(s@[k]),
        decreases b,
    {
        b -= 1;
    }
    proof {
        assert(b > a);
        lemma_trail_spaces_unique(s@, n - b);
    }
    s.substring_char(a, b).to_owned()
}

} // verus!
