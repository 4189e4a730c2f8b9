//! Resolving a repository URL into the host, owner and project it names.

use crate::text::{
    first_match, lemma_first_match_is_least, lemma_without_first_cuts_suffix, occurs_at,
    remove_first, texts, without_first,
};
use vstd::prelude::*;

verus! {

/// Why a text could not be resolved into a repository location.
#[derive(Debug, Clone, Copy, PartialEq, Eq, Structural)]
pub enum ParseError {
    /// The text is not a URL.
    MalformedUrl,
    /// The URL names no host.
    MissingHost,
    /// The URL's path names no owner, or an owner and no project.
    MissingPathSegment,
}

/// What a parsed URL says of where a repository lives: its host, where it has
/// one, and the segments of its path, where the path is made of segments.
#[derive(Debug, Clone, PartialEq, Eq)]
pub struct ParsedUrl {
    pub host: Option<String>,
    pub segments: Option<Vec<String>>,
}

/// The mathematical content of a [`ParsedUrl`].
pub struct UrlParts {
    pub host: Option<Seq<char>>,
    pub segments: Option<Seq<Seq<char>>>,
}

impl UrlParts {
    /// No segment of a path holds the character that separates segments.
    pub open spec fn well_formed(self) -> bool {
        self.segments matches Some(segments) ==> forall|i: int|
            0 <= i < segments.len() ==> !(#[trigger] segments[i]).contains('/')
    }
}

impl View for ParsedUrl {
    type V = UrlParts;

    open spec fn view(&self) -> UrlParts {
        UrlParts {
            host: match self.host {
                Some(h) => Some(h@),
                None => None,
            },
            segments: match self.segments {
                Some(v) => Some(texts(v@)),
                None => None,
            },
        }
    }
}

/// Where a repository lives: the host that serves it, the account that owns it
/// and the name of the project.
#[derive(Debug, Clone, PartialEq, Eq)]
pub struct RepositoryLocation {
    pub host: String,
    pub owner: String,
    pub project: String,
}

/// The mathematical content of a [`RepositoryLocation`].
pub struct LocationModel {
    pub host: Seq<char>,
    pub owner: Seq<char>,
    pub project: Seq<char>,
}

impl LocationModel {
    /// Host and owner are not empty, and neither owner nor project holds a `/`.
    pub open spec fn well_formed(self) -> bool {
        &&& self.host.len() > 0
        &&& self.owner.len() > 0
        &&& !self.owner.contains('/')
        &&& !self.project.contains('/')
    }
}

impl View for RepositoryLocation {
    type V = LocationModel;

    open spec fn view(&self) -> LocationModel {
        LocationModel { host: self.host@, owner: self.owner@, project: self.project@ }
    }
}

/// The marker that is cut out of a project's name.
pub open spec fn git_marker() -> Seq<char> {
    seq!['.', 'g', 'i', 't']
}

/// The index of the first segment at or after `i` that is not empty, or the
/// number of segments where all of them are.
pub open spec fn first_filled_from(segments: Seq<Seq<char>>, i: int) -> int
    decreases segments.len() - i,
{
    if i < 0 || i >= segments.len() {
        segments.len() as int
    } else if segments[i].len() > 0 {
        i
    } else {
        first_filled_from(segments, i + 1)
    }
}

/// The location that a parsed URL names, where `None` stands for a text that
/// is no URL.
///
/// A host that is empty counts as missing.
/// Empty segments before the first filled one and after the last filled one do
/// not count. Of what is left the first segment is the owner and the second,
/// with the first `.git` cut out of it, the project; further segments are
/// ignored.
pub open spec fn resolution(parsed: Option<UrlParts>) -> Result<LocationModel, ParseError> {
    match parsed {
        None => Err(ParseError::MalformedUrl),
        Some(parts) => match parts.host {
            None => Err(ParseError::MissingHost),
            Some(host) => if host.len() == 0 {
                Err(ParseError::MissingHost)
            } else {
                match parts.segments {
                    None => Err(ParseError::MissingPathSegment),
                    Some(segments) => {
                        let i = first_filled_from(segments, 0);
                        if i < segments.len() && first_filled_from(segments, i + 1)
                            < segments.len() {
                            Ok(
                                LocationModel {
                                    host,
                                    owner: segments[i],
                                    project: without_first(segments[i + 1], git_marker()),
                                },
                            )
                        } else {
                            Err(ParseError::MissingPathSegment)
                        }
                    },
                }
            },
        },
    }
}

/// What the URL parser makes of a text: the parts of the URL it reads, or
/// `None` where it reads none.
pub uninterp spec fn url_parts(raw: Seq<char>) -> Option<UrlParts>;

/// Parses `raw` with `url::Url::parse` and reads the host (`Url::host_str`)
/// and the path's segments (`Url::path_segments`) off the result.
///
/// Trusted: the outcome is a function of the text alone, named [`url_parts`];
/// and no segment holds a `/`, because the segments come from splitting the
/// path at each `/`.
#[verifier::external_body]
fn parse_url(raw: &str) -> (r: Option<ParsedUrl>)
    ensures
        r.is_some() == url_parts(raw@).is_some(),
        r matches Some(p) ==> url_parts(raw@) == Some(p@) && p@.well_formed(),
{
    match url::Url::parse(raw) {
        Ok(u) => Some(
            ParsedUrl {
                host: u.host_str().map(|h| h.to_string()),
                segments: u.path_segments().map(|it| it.map(|s| s.to_string()).collect()),
            },
        ),
        Err(_) => None,
    }
}

fn first_filled(segments: &Vec<String>, from: usize) -> (r: usize)
    requires
        from <= segments.len(),
    ensures
        r == first_filled_from(texts(segments@), from as int),
        from <= r <= segments.len(),
        r < segments.len() ==> segments[r as int]@.len() > 0,
{
    let mut i: usize = from;
    while i < segments.len()
        invariant
            from <= i <= segments.len(),
            first_filled_from(texts(segments@), from as int) == first_filled_from(
                texts(segments@),
                i as int,
            ),
        decreases segments.len() - i,
    {
        assert(texts(segments@)[i as int] == segments[i as int]@);
        if !segments[i].as_str().is_empty() {
            return i;
        }
        i += 1;
    }
    i
}

/// Names the location that a parsed URL stands for; `None` stands for a text
/// that is no URL.
pub fn resolve_parsed(parsed: Option<ParsedUrl>) -> (r: Result<RepositoryLocation, ParseError>)
    ensures
        match r {
            Ok(location) => resolution(model_of(parsed)) == Ok::<LocationModel, ParseError>(
                location@,
            ),
            Err(e) => resolution(model_of(parsed)) == Err::<LocationModel, ParseError>(e),
        },
{
    let parts = match parsed {
        Some(parts) => parts,
        None => { return Err(ParseError::MalformedUrl); },
    };
    let host = match parts.host {
        Some(host) => host,
        None => { return Err(ParseError::MissingHost); },
    };
    if host.as_str().is_empty() {
        return Err(ParseError::MissingHost);
    }
    let segments = match parts.segments {
        Some(segments) => segments,
        None => { return Err(ParseError::MissingPathSegment); },
    };
    let i: usize = first_filled(&segments, 0);
    if i >= segments.len() {
        return Err(ParseError::MissingPathSegment);
    }
    let j: usize = first_filled(&segments, i + 1);
    if j >= segments.len() {
        return Err(ParseError::MissingPathSegment);
    }
    assert(texts(segments@)[i as int] == segments[i as int]@);
    assert(texts(segments@)[i + 1] == segments[i + 1]@);
    proof {
        reveal_strlit(".git");
    }
    assert(".git"@ =~= git_marker());
    let owner = segments[i].clone();
    let project = remove_first(segments[i + 1].as_str(), ".git");
    Ok(RepositoryLocation { host, owner, project })
}

/// The mathematical content of an optional [`ParsedUrl`].
pub open spec fn model_of(parsed: Option<ParsedUrl>) -> Option<UrlParts> {
    match parsed {
        Some(p) => Some(p@),
        None => None,
    }
}

/// Resolves the text of a repository URL into the location it names.
///
/// The text is rejected as malformed exactly where the URL parser reads no URL
/// in it; otherwise the outcome is the [`resolution`] of what the parser read.
pub fn resolve(raw_url: &str) -> (r: Result<RepositoryLocation, ParseError>)
    ensures
        match r {
            Ok(location) => resolution(url_parts(raw_url@)) == Ok::<LocationModel, ParseError>(
                location@,
            ) && location@.well_formed(),
            Err(e) => resolution(url_parts(raw_url@)) == Err::<LocationModel, ParseError>(e),
        },
{
    let parsed = parse_url(raw_url);
    proof {
        if let Some(parts) = url_parts(raw_url@) {
            lemma_resolution_well_formed(parts);
        }
    }
    resolve_parsed(parsed)
}

/// Cutting a stretch out of a text brings no new character into it.
pub proof fn lemma_without_first_keeps_absent(s: Seq<char>, pat: Seq<char>, c: char)
    requires
        !s.contains(c),
    ensures
        !without_first(s, pat).contains(c),
{
    lemma_first_match_is_least(s, pat, 0);
    let out = without_first(s, pat);
    if out.contains(c) {
        let k = choose|k: int| 0 <= k < out.len() && out[k] == c;
        match first_match(s, pat) {
            Some(i) => {
                if k < i {
                    assert(s[k] == c);
                } else {
                    assert(s[k + pat.len()] == c);
                }
            },
            None => {},
        }
    }
}

/// The first filled segment at or after `i`, where there is one, is filled and
/// lies at or after `i`; the segments between are empty.
pub proof fn lemma_first_filled(segments: Seq<Seq<char>>, i: int)
    requires
        0 <= i <= segments.len(),
    ensures
        i <= first_filled_from(segments, i) <= segments.len(),
        first_filled_from(segments, i) < segments.len() ==> segments[first_filled_from(
            segments,
            i,
        )].len() > 0,
        forall|j: int| i <= j < first_filled_from(segments, i) ==> segments[j].len() == 0,
    decreases segments.len() - i,
{
    if i < segments.len() && segments[i].len() == 0 {
        lemma_first_filled(segments, i + 1);
    }
}

/// Every location that is resolved from well-formed parts is well formed.
pub proof fn lemma_resolution_well_formed(parts: UrlParts)
    requires
        parts.well_formed(),
    ensures
        resolution(Some(parts)) matches Ok(location) ==> location.well_formed(),
{
    if let Ok(location) = resolution(Some(parts)) {
        let segments = parts.segments.unwrap();
        let i = first_filled_from(segments, 0);
        lemma_first_filled(segments, 0);
        assert(!segments[i].contains('/'));
        assert(!segments[i + 1].contains('/'));
        lemma_without_first_keeps_absent(segments[i + 1], git_marker(), '/');
    }
}

/// A URL whose path is an owner and a project followed by `.git`, where `.git`
/// does not occur in the project's name before that, resolves into its host,
/// the owner and the project without the `.git`.
pub proof fn lemma_resolution_cuts_trailing_marker(
    host: Seq<char>,
    owner: Seq<char>,
    project: Seq<char>,
)
    requires
        host.len() > 0,
        owner.len() > 0,
        forall|j: int|
            0 <= j < project.len() ==> !occurs_at(project + git_marker(), git_marker(), j),
    ensures
        resolution(
            Some(
                UrlParts { host: Some(host), segments: Some(seq![owner, project + git_marker()]) },
            ),
        ) == Ok::<LocationModel, ParseError>(LocationModel { host, owner, project }),
{
    let named = project + git_marker();
    let segments = seq![owner, named];
    lemma_without_first_cuts_suffix(project, git_marker());
    assert(named.len() > 0);
    assert(first_filled_from(segments, 0) == 0);
    assert(first_filled_from(segments, 1) == 1);
}

/// A URL whose path is an owner and a project in whose name `.git` does not
/// occur resolves into its host, the owner and the project as it is written.
pub proof fn lemma_resolution_keeps_plain_project(
    host: Seq<char>,
    owner: Seq<char>,
    project: Seq<char>,
)
    requires
        host.len() > 0,
        owner.len() > 0,
        project.len() > 0,
        forall|j: int| !occurs_at(project, git_marker(), j),
    ensures
        resolution(Some(UrlParts { host: Some(host), segments: Some(seq![owner, project]) }))
            == Ok::<LocationModel, ParseError>(LocationModel { host, owner, project }),
{
    let segments = seq![owner, project];
    lemma_first_match_is_least(project, git_marker(), 0);
    assert(first_filled_from(segments, 0) == 0);
    assert(first_filled_from(segments, 1) == 1);
}

/// A URL with a host in whose path no two segments are filled names no
/// repository: an owner alone is not enough.
pub proof fn lemma_lone_segment_is_rejected(host: Seq<char>, segments: Seq<Seq<char>>)
    requires
        host.len() > 0,
        forall|i: int, j: int|
            0 <= i < j < segments.len() ==> segments[i].len() == 0 || segments[j].len() == 0,
    ensures
        resolution(Some(UrlParts { host: Some(host), segments: Some(segments) })) == Err::<
            LocationModel,
            ParseError,
        >(ParseError::MissingPathSegment),
{
    let i = first_filled_from(segments, 0);
    lemma_first_filled(segments, 0);
    if i < segments.len() {
        lemma_first_filled(segments, i + 1);
    }
}

} // verus!
