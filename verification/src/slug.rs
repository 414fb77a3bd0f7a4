//! Slug strings: four non-empty words separated by single dashes
//! (e.g. `this-is-a-slug`), used to identify resources such as pastes.

use vstd::prelude::*;

verus! {

/// The number of dash characters in `s`.
pub open spec fn dash_count(s: Seq<char>) -> nat
    decreases s.len(),
{
    if s.len() == 0 {
        0
    } else {
        dash_count(s.drop_last()) + if s.last() == '-' {
            1nat
        } else {
            0nat
        }
    }
}

/// `s` consists of exactly four non-empty words separated by single dashes:
/// it is non-empty, neither starts nor ends with a dash, has no two adjacent
/// dashes, and contains exactly three dashes.
pub open spec fn is_valid_slug(s: Seq<char>) -> bool {
    &&& s.len() > 0
    &&& s[0] != '-'
    &&& s[s.len() - 1] != '-'
    &&& forall|i: int| 0 <= i < s.len() - 1 ==> !(#[trigger] s[i] == '-' && s[i + 1] == '-')
    &&& dash_count(s) == 3
}

/// A slug string, consisting of 4 words separated by dashes (e.g.
/// `this-is-a-slug`), used to identify a resource like a paste or a file.
#[derive(Debug, Clone)]
pub struct SlugString(String);

impl View for SlugString {
    type V = Seq<char>;

    closed spec fn view(&self) -> Seq<char> {
        self.0@
    }
}

/// The error returned when a string does not have the slug format; it carries
/// the offending input.
#[derive(Debug)]
pub enum SlugError {
    InvalidFormat(String),
}

impl SlugString {
    /// Creates a new slug from the given string, rejecting any input that is
    /// not four non-empty dash-separated words.
    pub fn new(input: &str) -> (r: Result<SlugString, SlugError>)
        ensures
            r is Ok <==> is_valid_slug(input@),
            r matches Ok(s) ==> s@ == input@,
            r matches Err(SlugError::InvalidFormat(t)) ==> t@ == input@,
    {
        if SlugString::is_valid(input) {
            Ok(SlugString(input.to_owned()))
        } else {
            Err(SlugError::InvalidFormat(input.to_owned()))
        }
    }

    /// Checks if the given string is a valid slug.
    /// A valid slug is 4 words separated by dashes (e.g. `this-is-a-slug`).
    pub fn is_valid(input: &str) -> (r: bool)
        ensures
            r == is_valid_slug(input@),
    {
        let n = input.unicode_len();
        if n == 0 {
            return false;
        }
        let mut dashes: u64 = 0;
        let mut i: usize = 0;
        let mut prev_dash = false;
        while i < n
            invariant
                0 < n == input@.len(),
                i <= n,
                dashes == dash_count(input@.subrange(0, i as int)),
                dashes <= i,
                prev_dash == (i > 0 && input@[i - 1] == '-'),
                i > 0 ==> input@[0] != '-',
                i == n ==> input@[n - 1] != '-',
                forall|j: int| 0 <= j < i - 1 ==> !(#[trigger] input@[j] == '-' && input@[j + 1] == '-'),
            decreases n - i,
        {
            let c = input.get_char(i);
            proof {
                assert(input@.subrange(0, i + 1).drop_last() == input@.subrange(0, i as int));
                assert(input@.subrange(0, i + 1).last() == input@[i as int]);
            }
            if c == '-' {
                if i == 0 || prev_dash || i == n - 1 {
                    return false;
                }
                dashes += 1;
                prev_dash = true;
            } else {
                prev_dash = false;
            }
            i += 1;
        }
        assert(input@.subrange(0, n as int) == input@);
        dashes == 3
    }
}

impl From<String> for SlugString {
    /// Wraps an already-validated string, as when reading a stored slug back
    /// from persistent storage.
    fn from(s: String) -> (r: SlugString) {
        SlugString(s)
    }
}

impl vstd::std_specs::convert::FromSpecImpl<String> for SlugString {
    open spec fn obeys_from_spec() -> bool {
        true
    }

    closed spec fn from_spec(s: String) -> SlugString {
        SlugString(s)
    }
}

/// A slug record pointing at a stored resource such as a paste or a file.
/// Timestamps are seconds since an epoch chosen by the caller.
#[derive(Debug, Clone)]
pub struct Slug {
    pub id: i32,
    pub file_id: Option<i32>,
    pub paste_id: Option<i32>,
    pub slug: SlugString,
    pub enabled: Option<u64>,
    pub created_at: u64,
}

} // verus!
