//! Headers of the tus resumable-upload protocol: semantic versions, the
//! extension list, and the numeric upload headers, each with an exact
//! decode/encode specification over plain header-value strings.

use vstd::prelude::*;

use crate::num::{
    dec_digits, is_u32_numeral, is_u64_numeral, lemma_dec_digits_shape, lemma_dec_digits_value,
    numeral_body, parse_u32, parse_u64, u32_numeral_value, u32_to_string, u64_numeral_value,
    u64_to_string,
};
use crate::strutil::{
    join_char, lemma_split_at_first, lemma_split_whole, spec_join, spec_split, spec_trim,
    split_char, trim,
};

verus! {

/// A header value that does not fit the grammar the header requires.
#[derive(Debug, PartialEq, Eq, Structural)]
pub struct HeaderError;

/// A semantic version of the form `major.minor.patch`.
#[derive(Debug, Clone, Copy, PartialEq, Eq, Structural)]
pub struct Version {
    pub major: u32,
    pub minor: u32,
    pub patch: u32,
}

/// `s` has the form `a.b.c` with three `u32` numerals.
pub open spec fn is_version_string(s: Seq<char>) -> bool {
    let p = spec_split(s, '.');
    &&& p.len() == 3
    &&& is_u32_numeral(p[0])
    &&& is_u32_numeral(p[1])
    &&& is_u32_numeral(p[2])
}

/// The version a well-formed version string denotes.
pub open spec fn version_of(s: Seq<char>) -> Version {
    let p = spec_split(s, '.');
    Version {
        major: u32_numeral_value(p[0]) as u32,
        minor: u32_numeral_value(p[1]) as u32,
        patch: u32_numeral_value(p[2]) as u32,
    }
}

/// The canonical rendering `major.minor.patch` of a version.
pub open spec fn version_display(v: Version) -> Seq<char> {
    dec_digits(v.major as nat) + seq!['.'] + dec_digits(v.minor as nat) + seq!['.'] + dec_digits(
        v.patch as nat,
    )
}

impl Version {
    /// Parses a `major.minor.patch` string: exactly two dots, each segment a
    /// decimal `u32` numeral.
    pub fn new(s: &str) -> (r: Result<Self, &'static str>)
        ensures
            r is Ok <==> is_version_string(s@),
            r matches Ok(v) ==> v == version_of(s@),
            r matches Err(e) ==> ({
                let p = spec_split(s@, '.');
                if p.len() != 3 {
                    e@ == "Invalid version string format"@
                } else if !is_u32_numeral(p[0]) {
                    e@ == "Invalid major version"@
                } else if !is_u32_numeral(p[1]) {
                    e@ == "Invalid minor version"@
                } else {
                    e@ == "Invalid patch version"@
                }
            }),
    {
        let parts = split_char(s, '.');
        let ghost p = spec_split(s@, '.');
        if parts.len() == 3 {
            proof {
                assert(p[0] == parts@.map_values(|q: String| q@)[0]);
                assert(p[1] == parts@.map_values(|q: String| q@)[1]);
                assert(p[2] == parts@.map_values(|q: String| q@)[2]);
            }
            let major = match parse_u32(parts[0].as_str()) {
                Some(v) => v,
                None => {
                    return Err("Invalid major version");
                },
            };
            let minor = match parse_u32(parts[1].as_str()) {
                Some(v) => v,
                None => {
                    return Err("Invalid minor version");
                },
            };
            let patch = match parse_u32(parts[2].as_str()) {
                Some(v) => v,
                None => {
                    return Err("Invalid patch version");
                },
            };
            Ok(Version { major, minor, patch })
        } else {
            Err("Invalid version string format")
        }
    }

    /// Renders the version as `major.minor.patch`.
    pub fn display_string(&self) -> (r: String)
        ensures
            r@ == version_display(*self),
    {
        proof {
            reveal_strlit(".");
        }
        let mut out = u32_to_string(self.major);
        out.append(".");
        let minor = u32_to_string(self.minor);
        out.append(minor.as_str());
        out.append(".");
        let patch = u32_to_string(self.patch);
        out.append(patch.as_str());
        out
    }
}

/// Rendering a version and parsing the rendering back yields the version:
/// `display_string` and `new` are inverse on every version value.
pub proof fn lemma_version_display_round_trip(v: Version)
    ensures
        is_version_string(version_display(v)),
        version_of(version_display(v)) == v,
{
    let d1 = dec_digits(v.major as nat);
    let d2 = dec_digits(v.minor as nat);
    let d3 = dec_digits(v.patch as nat);
    lemma_dec_digits_shape(v.major as nat);
    lemma_dec_digits_shape(v.minor as nat);
    lemma_dec_digits_shape(v.patch as nat);
    lemma_dec_digits_value(v.major as nat);
    lemma_dec_digits_value(v.minor as nat);
    lemma_dec_digits_value(v.patch as nat);
    // A digit character is never the separator or a sign.
    assert(forall|k: int| 0 <= k < d1.len() ==> d1[k] != '.');
    assert(forall|k: int| 0 <= k < d2.len() ==> d2[k] != '.');
    assert(forall|k: int| 0 <= k < d3.len() ==> d3[k] != '.');
    let rest = d2 + seq!['.'] + d3;
    let s = version_display(v);
    assert(s =~= d1 + seq!['.'] + rest);
    lemma_split_at_first(d1, rest, '.');
    lemma_split_at_first(d2, d3, '.');
    lemma_split_whole(d3, '.');
    let p = spec_split(s, '.');
    assert(p == seq![d1] + (seq![d2] + seq![d3]));
    assert(p =~= seq![d1, d2, d3]);
    assert(p[0] == d1 && p[1] == d2 && p[2] == d3);
    assert(numeral_body(d1) == d1);
    assert(numeral_body(d2) == d2);
    assert(numeral_body(d3) == d3);
    assert(is_u32_numeral(d1) && u32_numeral_value(d1) == v.major as nat);
    assert(is_u32_numeral(d2) && u32_numeral_value(d2) == v.minor as nat);
    assert(is_u32_numeral(d3) && u32_numeral_value(d3) == v.patch as nat);
}

/// The extensions of the tus protocol a server can announce.
#[derive(Debug, Clone, Copy, PartialEq, Eq, Structural)]
pub enum Extension {
    Creation,
    CreationWithUpload,
    Expiration,
    Checksum,
    Termination,
    Concatenation,
}

/// The label under which an extension is announced.
pub open spec fn extension_label(e: Extension) -> Seq<char> {
    match e {
        Extension::Creation => "creation"@,
        Extension::CreationWithUpload => "creation-with-upload"@,
        Extension::Expiration => "expiration"@,
        Extension::Checksum => "checksum"@,
        Extension::Termination => "termination"@,
        Extension::Concatenation => "concatenation"@,
    }
}

impl Extension {
    /// The label under which this extension is announced.
    pub fn label(&self) -> (r: &'static str)
        ensures
            r@ == extension_label(*self),
    {
        match self {
            Extension::Creation => "creation",
            Extension::CreationWithUpload => "creation-with-upload",
            Extension::Expiration => "expiration",
            Extension::Checksum => "checksum",
            Extension::Termination => "termination",
            Extension::Concatenation => "concatenation",
        }
    }
}

/// A prefix of the value list contributes a prefix of the segments.
proof fn lemma_all_segments_prefix(values: Seq<Seq<char>>, sep: char, m: int)
    requires
        0 <= m <= values.len(),
    ensures
        all_segments(values.subrange(0, m), sep).is_prefix_of(all_segments(values, sep)),
    decreases values.len() - m,
{
    if m == values.len() {
        assert(values.subrange(0, m) == values);
    } else {
        assert(values.subrange(0, m + 1).drop_last() == values.subrange(0, m));
        assert(values.subrange(0, m + 1).last() == values[m]);
        lemma_all_segments_prefix(values, sep, m + 1);
    }
}

/// All comma-separated segments of a list of header values, in order.
pub open spec fn all_segments(values: Seq<Seq<char>>, sep: char) -> Seq<Seq<char>>
    decreases values.len(),
{
    if values.len() == 0 {
        Seq::empty()
    } else {
        all_segments(values.drop_last(), sep) + spec_split(values.last(), sep)
    }
}

/// # Tus-Extension
/// The response header listing the extensions the server supports, as a
/// comma-separated list. If no extensions are supported the header is omitted.
#[derive(Debug)]
pub struct TusExtensionHeader(pub Vec<Extension>);

/// `creation` is the only extension label this decoder recognises.
pub open spec fn segment_is_creation(s: Seq<char>) -> bool {
    spec_trim(s) == "creation"@
}

impl TusExtensionHeader {
    /// The lower-case name of this header.
    pub fn name() -> (r: &'static str)
        ensures
            r@ == "tus-extension"@,
    {
        "tus-extension"
    }

    /// Decodes the comma-separated segments of the given header values;
    /// every segment must read `creation` after trimming.
    pub fn decode(values: &Vec<String>) -> (r: Result<TusExtensionHeader, HeaderError>)
        ensures
            ({
                let segs = all_segments(values@.map_values(|v: String| v@), ',');
                match r {
                    Ok(h) => {
                        &&& forall|k: int| 0 <= k < segs.len() ==> segment_is_creation(#[trigger] segs[k])
                        &&& h.0@.len() == segs.len()
                        &&& forall|k: int|
                            0 <= k < segs.len() ==> #[trigger] h.0@[k] == Extension::Creation
                    },
                    Err(_) => !(forall|k: int|
                        0 <= k < segs.len() ==> segment_is_creation(#[trigger] segs[k])),
                }
            }),
    {
        let mut extensions: Vec<Extension> = Vec::new();
        let ghost views = values@.map_values(|v: String| v@);
        let mut vi: usize = 0;
        while vi < values.len()
            invariant
                vi <= values@.len(),
                views == values@.map_values(|v: String| v@),
                forall|k: int|
                    0 <= k < all_segments(views.subrange(0, vi as int), ',').len()
                        ==> segment_is_creation(
                        #[trigger] all_segments(views.subrange(0, vi as int), ',')[k],
                    ),
                extensions@.len() == all_segments(views.subrange(0, vi as int), ',').len(),
                forall|k: int|
                    0 <= k < extensions@.len() ==> #[trigger] extensions@[k]
                        == Extension::Creation,
            decreases values@.len() - vi,
        {
            let parts = split_char(values[vi].as_str(), ',');
            let ghost done = all_segments(views.subrange(0, vi as int), ',');
            let ghost here = spec_split(views[vi as int], ',');
            proof {
                assert(views.subrange(0, vi + 1).drop_last() == views.subrange(0, vi as int));
                assert(views.subrange(0, vi + 1).last() == views[vi as int]);
                assert(all_segments(views.subrange(0, vi + 1), ',') == done + here);
            }
            let creation: String = "creation".to_owned();
            let mut pi: usize = 0;
            while pi < parts.len()
                invariant
                    vi < values@.len(),
                    views == values@.map_values(|v: String| v@),
                    done == all_segments(views.subrange(0, vi as int), ','),
                    here == spec_split(views[vi as int], ','),
                    done + here == all_segments(views.subrange(0, vi + 1), ','),
                    creation@ == "creation"@,
                    pi <= parts@.len(),
                    parts@.map_values(|q: String| q@) == here,
                    forall|k: int| 0 <= k < pi ==> segment_is_creation(#[trigger] here[k]),
                    extensions@.len() == done.len() + pi,
                    forall|k: int|
                        0 <= k < extensions@.len() ==> #[trigger] extensions@[k]
                            == Extension::Creation,
                decreases parts@.len() - pi,
            {
                let trimmed = trim(parts[pi].as_str());
                proof {
                    assert(parts@.map_values(|q: String| q@)[pi as int] == parts@[pi as int]@);
                }
                if trimmed == creation {
                    extensions.push(Extension::Creation);
                } else {
                    proof {
                        assert(!segment_is_creation(here[pi as int]));
                        lemma_all_segments_prefix(views, ',', vi + 1);
                        let segs = all_segments(views, ',');
                        let pre = done + here;
                        assert(pre == segs.subrange(0, pre.len() as int));
                        assert(pre[done.len() + pi] == here[pi as int]);
                        assert(segs[done.len() + pi] == here[pi as int]);
                    }
                    return Err(HeaderError);
                }
                pi += 1;
            }
            vi += 1;
        }
        proof {
            assert(views.subrange(0, views.len() as int) == views);
        }
        Ok(TusExtensionHeader(extensions))
    }

    /// Encodes the extension list as a comma-separated string of labels.
    pub fn encode(&self) -> (r: String)
        ensures
            r@ == spec_join(self.0@.map_values(|e: Extension| extension_label(e)), ','),
    {
        let mut labels: Vec<String> = Vec::new();
        let mut i: usize = 0;
        while i < self.0.len()
            invariant
                i <= self.0@.len(),
                labels@.map_values(|p: String| p@) =~= self.0@.subrange(0, i as int).map_values(
                    |e: Extension| extension_label(e),
                ),
            decreases self.0@.len() - i,
        {
            let ghost before = labels@;
            labels.push(self.0[i].label().to_owned());
            proof {
                let new_map = labels@.map_values(|p: String| p@);
                let target = self.0@.subrange(0, i + 1).map_values(
                    |e: Extension| extension_label(e),
                );
                assert(before.map_values(|p: String| p@).len() == before.len());
                assert(self.0@.subrange(0, i as int).map_values(
                    |e: Extension| extension_label(e),
                ).len() == i);
                assert(before.len() == i);
                assert(labels@ == before.push(labels@[i as int]));
                assert(new_map.len() == i + 1);
                assert(target.len() == i + 1);
                assert forall|k: int| 0 <= k < new_map.len() implies new_map[k] == target[k] by {
                    assert(new_map[k] == labels@[k]@);
                    assert(target[k] == extension_label(self.0@.subrange(0, i + 1)[k]));
                    if k < i {
                        assert(labels@[k] == before[k]);
                        assert(before.map_values(|p: String| p@)[k] == before[k]@);
                        assert(self.0@.subrange(0, i as int).map_values(
                            |e: Extension| extension_label(e),
                        )[k] == extension_label(self.0@.subrange(0, i as int)[k]));
                    }
                }
                assert(new_map =~= target);
            }
            i += 1;
        }
        proof {
            reveal_strlit(",");
            assert(","@ =~= seq![',']);
            assert(self.0@.subrange(0, self.0@.len() as int) == self.0@);
        }
        join_char(&labels, ",", ',')
    }
}

/// # Tus-Resumable
/// The header naming the protocol version in use, included in every request
/// and response except `OPTIONS`.
#[derive(Debug)]
pub struct TusResumableHeader(pub Version);

impl TusResumableHeader {
    /// The lower-case name of this header.
    pub fn name() -> (r: &'static str)
        ensures
            r@ == "tus-resumable"@,
    {
        "tus-resumable"
    }

    /// Decodes the first header value as a `major.minor.patch` version;
    /// further values are ignored.
    pub fn decode(values: &Vec<String>) -> (r: Result<TusResumableHeader, HeaderError>)
        ensures
            values@.len() == 0 ==> r is Err,
            values@.len() > 0 ==> (r is Ok <==> is_version_string(values@[0]@)),
            r matches Ok(h) ==> values@.len() > 0 && h.0 == version_of(values@[0]@),
    {
        if values.len() == 0 {
            return Err(HeaderError);
        }
        match Version::new(values[0].as_str()) {
            Ok(v) => Ok(TusResumableHeader(v)),
            Err(_) => Err(HeaderError),
        }
    }

    /// Encodes the version as `major.minor.patch`.
    pub fn encode(&self) -> (r: String)
        ensures
            r@ == version_display(self.0),
    {
        self.0.display_string()
    }
}

/// A comma-separated segment that parses as a version after trimming.
pub open spec fn segment_is_version(s: Seq<char>) -> bool {
    is_version_string(spec_trim(s))
}

/// # Tus-Version
/// The response header listing the protocol versions the server supports,
/// most preferred first.
#[derive(Debug)]
pub struct TusVersionHeader(pub Vec<Version>);

impl TusVersionHeader {
    /// The lower-case name of this header.
    pub fn name() -> (r: &'static str)
        ensures
            r@ == "tus-version"@,
    {
        "tus-version"
    }

    /// Decodes the comma-separated segments of the given header values;
    /// every segment must be a `major.minor.patch` version after trimming.
    pub fn decode(values: &Vec<String>) -> (r: Result<TusVersionHeader, HeaderError>)
        ensures
            ({
                let segs = all_segments(values@.map_values(|v: String| v@), ',');
                match r {
                    Ok(h) => {
                        &&& forall|k: int| 0 <= k < segs.len() ==> segment_is_version(#[trigger] segs[k])
                        &&& h.0@.len() == segs.len()
                        &&& forall|k: int|
                            0 <= k < segs.len() ==> #[trigger] h.0@[k] == version_of(
                                spec_trim(segs[k]),
                            )
                    },
                    Err(_) => !(forall|k: int|
                        0 <= k < segs.len() ==> segment_is_version(#[trigger] segs[k])),
                }
            }),
    {
        let mut versions: Vec<Version> = Vec::new();
        let ghost views = values@.map_values(|v: String| v@);
        let mut vi: usize = 0;
        while vi < values.len()
            invariant
                vi <= values@.len(),
                views == values@.map_values(|v: String| v@),
                forall|k: int|
                    0 <= k < all_segments(views.subrange(0, vi as int), ',').len()
                        ==> segment_is_version(
                        #[trigger] all_segments(views.subrange(0, vi as int), ',')[k],
                    ),
                versions@.len() == all_segments(views.subrange(0, vi as int), ',').len(),
                forall|k: int|
                    0 <= k < versions@.len() ==> #[trigger] versions@[k] == version_of(
                        spec_trim(all_segments(views.subrange(0, vi as int), ',')[k]),
                    ),
            decreases values@.len() - vi,
        {
            let parts = split_char(values[vi].as_str(), ',');
            let ghost done = all_segments(views.subrange(0, vi as int), ',');
            let ghost here = spec_split(views[vi as int], ',');
            proof {
                assert(views.subrange(0, vi + 1).drop_last() == views.subrange(0, vi as int));
                assert(views.subrange(0, vi + 1).last() == views[vi as int]);
                assert(all_segments(views.subrange(0, vi + 1), ',') == done + here);
            }
            let mut pi: usize = 0;
            while pi < parts.len()
                invariant
                    vi < values@.len(),
                    views == values@.map_values(|v: String| v@),
                    done == all_segments(views.subrange(0, vi as int), ','),
                    here == spec_split(views[vi as int], ','),
                    done + here == all_segments(views.subrange(0, vi + 1), ','),
                    pi <= parts@.len(),
                    parts@.map_values(|q: String| q@) == here,
                    forall|k: int| 0 <= k < pi ==> segment_is_version(#[trigger] here[k]),
                    versions@.len() == done.len() + pi,
                    forall|k: int|
                        0 <= k < versions@.len() ==> #[trigger] versions@[k] == version_of(
                            spec_trim((done + here)[k]),
                        ),
                decreases parts@.len() - pi,
            {
                let trimmed = trim(parts[pi].as_str());
                proof {
                    assert(parts@.map_values(|q: String| q@)[pi as int] == parts@[pi as int]@);
                }
                match Version::new(trimmed.as_str()) {
                    Ok(v) => {
                        versions.push(v);
                        proof {
                            assert((done + here)[done.len() + pi] == here[pi as int]);
                        }
                    },
                    Err(_) => {
                        proof {
                            assert(!segment_is_version(here[pi as int]));
                            lemma_all_segments_prefix(views, ',', vi + 1);
                            let segs = all_segments(views, ',');
                            let pre = done + here;
                            assert(pre == segs.subrange(0, pre.len() as int));
                            assert(pre[done.len() + pi] == here[pi as int]);
                            assert(segs[done.len() + pi] == here[pi as int]);
                        }
                        return Err(HeaderError);
                    },
                }
                pi += 1;
            }
            vi += 1;
        }
        proof {
            assert(views.subrange(0, views.len() as int) == views);
        }
        Ok(TusVersionHeader(versions))
    }

    /// Encodes the version list as a comma-separated string of
    /// `major.minor.patch` renderings.
    pub fn encode(&self) -> (r: String)
        ensures
            r@ == spec_join(self.0@.map_values(|v: Version| version_display(v)), ','),
    {
        let mut rendered: Vec<String> = Vec::new();
        let mut i: usize = 0;
        while i < self.0.len()
            invariant
                i <= self.0@.len(),
                rendered@.map_values(|p: String| p@) =~= self.0@.subrange(0, i as int).map_values(
                    |v: Version| version_display(v),
                ),
            decreases self.0@.len() - i,
        {
            let ghost before = rendered@;
            rendered.push(self.0[i].display_string());
            proof {
                let new_map = rendered@.map_values(|p: String| p@);
                let target = self.0@.subrange(0, i + 1).map_values(
                    |v: Version| version_display(v),
                );
                assert(before.map_values(|p: String| p@).len() == before.len());
                assert(self.0@.subrange(0, i as int).map_values(
                    |v: Version| version_display(v),
                ).len() == i);
                assert(before.len() == i);
                assert(rendered@ == before.push(rendered@[i as int]));
                assert(new_map.len() == i + 1);
                assert(target.len() == i + 1);
                assert forall|k: int| 0 <= k < new_map.len() implies new_map[k] == target[k] by {
                    assert(new_map[k] == rendered@[k]@);
                    assert(target[k] == version_display(self.0@.subrange(0, i + 1)[k]));
                    if k < i {
                        assert(rendered@[k] == before[k]);
                        assert(before.map_values(|p: String| p@)[k] == before[k]@);
                        assert(self.0@.subrange(0, i as int).map_values(
                            |v: Version| version_display(v),
                        )[k] == version_display(self.0@.subrange(0, i as int)[k]));
                    }
                }
                assert(new_map =~= target);
            }
            i += 1;
        }
        proof {
            reveal_strlit(",");
            assert(","@ =~= seq![',']);
            assert(self.0@.subrange(0, self.0@.len() as int) == self.0@);
        }
        join_char(&rendered, ",", ',')
    }
}

/// # Upload-Length
/// The request and response header indicating the size of the entire upload
/// in bytes; the value is a non-negative integer.
#[derive(Debug)]
pub struct UploadLengthHeader(pub u64);

impl UploadLengthHeader {
    /// The lower-case name of this header.
    pub fn name() -> (r: &'static str)
        ensures
            r@ == "upload-length"@,
    {
        "upload-length"
    }

    /// Decodes the first header value as a decimal `u64`; further values are
    /// ignored.
    pub fn decode(values: &Vec<String>) -> (r: Result<UploadLengthHeader, HeaderError>)
        ensures
            values@.len() == 0 ==> r is Err,
            values@.len() > 0 ==> (r is Ok <==> is_u64_numeral(values@[0]@)),
            r matches Ok(h) ==> values@.len() > 0 && h.0 == u64_numeral_value(values@[0]@),
    {
        if values.len() == 0 {
            return Err(HeaderError);
        }
        match parse_u64(values[0].as_str()) {
            Some(v) => Ok(UploadLengthHeader(v)),
            None => Err(HeaderError),
        }
    }

    /// Encodes the length as its decimal numeral.
    pub fn encode(&self) -> (r: String)
        ensures
            r@ == dec_digits(self.0 as nat),
    {
        u64_to_string(self.0)
    }
}

/// # Upload-Offset
/// The request and response header indicating a byte offset within a
/// resource; the value is a non-negative integer.
#[derive(Debug)]
pub struct UploadOffsetHeader(pub u64);

impl UploadOffsetHeader {
    /// The lower-case name of this header.
    pub fn name() -> (r: &'static str)
        ensures
            r@ == "upload-offset"@,
    {
        "upload-offset"
    }

    /// Decodes the first header value as a decimal `u64`; further values are
    /// ignored.
    pub fn decode(values: &Vec<String>) -> (r: Result<UploadOffsetHeader, HeaderError>)
        ensures
            values@.len() == 0 ==> r is Err,
            values@.len() > 0 ==> (r is Ok <==> is_u64_numeral(values@[0]@)),
            r matches Ok(h) ==> values@.len() > 0 && h.0 == u64_numeral_value(values@[0]@),
    {
        if values.len() == 0 {
            return Err(HeaderError);
        }
        match parse_u64(values[0].as_str()) {
            Some(v) => Ok(UploadOffsetHeader(v)),
            None => Err(HeaderError),
        }
    }

    /// Encodes the offset as its decimal numeral.
    pub fn encode(&self) -> (r: String)
        ensures
            r@ == dec_digits(self.0 as nat),
    {
        u64_to_string(self.0)
    }
}

} // verus!
