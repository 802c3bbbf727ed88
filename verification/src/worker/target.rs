use url::ParseError;
use url::Url;
use vstd::prelude::*;

verus! {

/// The error that `url::Url::parse` returns. Nothing of its inside is visible
/// to the proofs: it is handed on as it came.
#[verifier::external_type_specification]
#[verifier::external_body]
pub struct ExParseError(url::ParseError);

/// A parsed absolute URL: its serialization and the number of its path
/// segments (`None` for a URL that cannot be a base, which has no segments).
#[derive(Debug, PartialEq, Eq)]
pub struct TargetUrl {
    text: String,
    segments: Option<usize>,
}

/// Mathematical value of a [`TargetUrl`].
pub struct TargetUrlView {
    pub text: Seq<char>,
    pub segments: Option<nat>,
}

impl View for TargetUrl {
    type V = TargetUrlView;

    closed spec fn view(&self) -> TargetUrlView {
        TargetUrlView {
            text: self.text@,
            segments: match self.segments {
                Some(n) => Some(n as nat),
                None => None,
            },
        }
    }
}

/// What the parser gives for a URL: its serialization and its path segments.
struct ParsedUrl {
    text: String,
    segments: Option<Vec<String>>,
}

/// Mathematical value of what the parser gives for a URL.
pub struct ParsedUrlView {
    pub text: Seq<char>,
    pub segments: Option<Seq<Seq<char>>>,
}

impl View for ParsedUrl {
    type V = ParsedUrlView;

    closed spec fn view(&self) -> ParsedUrlView {
        ParsedUrlView {
            text: self.text@,
            segments: match self.segments {
                Some(list) => Some(list@.map_values(|segment: String| segment@)),
                None => None,
            },
        }
    }
}

/// What `url::Url::parse` makes of an input: `None` where it reports an
/// error, else the serialization of the URL and its path segments.
pub uninterp spec fn parsed_url(input: Seq<char>) -> Option<ParsedUrlView>;

/// The target that a parsed URL gives: its serialization, and its path
/// segments counted.
pub open spec fn target_of(url: ParsedUrlView) -> TargetUrlView {
    TargetUrlView {
        text: url.text,
        segments: match url.segments {
            Some(list) => Some(list.len()),
            None => None,
        },
    }
}

/// The target that an input stands for: the URL that the parser makes of it,
/// with its path segments counted; `None` where the input does not parse.
pub open spec fn url_parse(input: Seq<char>) -> Option<TargetUrlView> {
    match parsed_url(input) {
        Some(url) => Some(target_of(url)),
        None => None,
    }
}

/// Calls `url::Url::parse` and copies out of the parsed URL its
/// serialization (`Url::as_str`) and its path segments (`Url::path_segments`).
/// Trusted: the outcome is the one that `parsed_url` names for this input, an
/// error exactly where `parsed_url` is `None`.
#[verifier::external_body]
fn parse_url(input: &str) -> (r: Result<ParsedUrl, ParseError>)
    ensures
        match r {
            Ok(url) => parsed_url(input@) == Some(url@),
            Err(_) => parsed_url(input@) is None,
        },
{
    let url = Url::parse(input)?;
    Ok(
        ParsedUrl {
            text: String::from(url.as_str()),
            segments: url.path_segments().map(|list| list.map(String::from).collect()),
        },
    )
}

impl TargetUrl {
    /// Parses an absolute URL.
    pub fn parse(input: &str) -> (r: Result<TargetUrl, ParseError>)
        ensures
            match r {
                Ok(u) => url_parse(input@) == Some(u@),
                Err(_) => url_parse(input@) is None,
            },
    {
        match parse_url(input) {
            Ok(url) => Ok(TargetUrl::from_parts(url.text, url.segments)),
            Err(e) => Err(e),
        }
    }

    /// The target with this serialization and these path segments; `None`
    /// stands for a URL that cannot be a base.
    pub fn from_parts(text: String, segments: Option<Vec<String>>) -> (url: TargetUrl)
        ensures
            url@ == (TargetUrlView {
                text: text@,
                segments: match segments {
                    Some(list) => Some(list@.len()),
                    None => None,
                },
            }),
    {
        let count: Option<usize> = match &segments {
            Some(list) => Some(list.len()),
            None => None,
        };
        TargetUrl { text, segments: count }
    }

    /// The serialization of the URL.
    pub fn as_str(&self) -> (s: &str)
        ensures
            s@ == self@.text,
    {
        self.text.as_str()
    }

    /// The number of path segments, `None` for a URL that cannot be a base.
    pub fn segments(&self) -> (n: Option<usize>)
        ensures
            match n {
                Some(k) => self@.segments == Some(k as nat),
                None => self@.segments is None,
            },
    {
        self.segments
    }

}

impl Clone for TargetUrl {
    fn clone(&self) -> (url: TargetUrl)
        ensures
            url@ == self@,
    {
        TargetUrl { text: self.text.clone(), segments: self.segments }
    }
}

} // verus!
