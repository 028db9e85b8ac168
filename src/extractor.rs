//! Routing of a page address to the site profile that extracts it.
use crate::text::same_text;
use vstd::prelude::*;

verus! {

/// Whether `haystack` holds a match of the regular expression `pattern`, or
/// `None` when `pattern` is not a valid one.
pub uninterp spec fn regex_finds(pattern: Seq<char>, haystack: Seq<char>) -> Option<bool>;

/// The text of capture group `group` in the first match of `pattern` in
/// `haystack`; `None` when `pattern` is not valid, nothing matches, or the group
/// took no part in the match.
pub uninterp spec fn regex_group(pattern: Seq<char>, haystack: Seq<char>, group: nat) -> Option<
    Seq<char>,
>;

/// Relies on regex::Regex::new (compiles the pattern, an error when it is not
/// valid) and regex::Regex::is_match (whether a match exists anywhere in the
/// haystack); the answer depends on the two strings alone.
#[verifier::external_body]
fn find_pattern(pattern: &str, haystack: &str) -> (r: Option<bool>)
    ensures
        r == regex_finds(pattern@, haystack@),
{
    regex::Regex::new(pattern).ok().map(|re| re.is_match(haystack))
}

/// Relies on regex::Regex::new and regex::Regex::captures (the groups of the
/// leftmost-first match), then Captures::get (the group's span, if it took part)
/// and Match::as_str; the answer depends on the arguments alone.
#[verifier::external_body]
fn capture_group(pattern: &str, haystack: &str, group: usize) -> (r: Option<String>)
    ensures
        match r {
            Some(s) => regex_group(pattern@, haystack@, group as nat) == Some(s@),
            None => regex_group(pattern@, haystack@, group as nat) is None,
        },
{
    let re = regex::Regex::new(pattern).ok()?;
    let caps = re.captures(haystack)?;
    caps.get(group).map(|m| m.as_str().to_string())
}

/// Addresses of the video site.
pub open spec fn youtube_pattern() -> Seq<char> {
    "https?://(www\\.)?(youtube\\.com|youtu\\.be)/.+"@
}

/// Addresses of the photo site; group 2 is the kind of content.
pub open spec fn instagram_pattern() -> Seq<char> {
    "https?://(www\\.)?instagram\\.com/(p|reel|stories)/[A-Za-z0-9_.-]+(/[\\w-]+)?/?"@
}

fn youtube_regex() -> (r: &'static str)
    ensures
        r@ == youtube_pattern(),
{
    "https?://(www\\.)?(youtube\\.com|youtu\\.be)/.+"
}

fn instagram_regex() -> (r: &'static str)
    ensures
        r@ == instagram_pattern(),
{
    "https?://(www\\.)?instagram\\.com/(p|reel|stories)/[A-Za-z0-9_.-]+(/[\\w-]+)?/?"
}

/// The kind of a photo-site address.
#[derive(Clone, Copy, Debug, PartialEq, Eq, Structural)]
pub enum InstagramContentType {
    Story,
    Post,
    Reel,
}

/// The site profile of an address.
#[derive(Clone, Copy, Debug, PartialEq, Eq, Structural)]
pub enum Extractor {
    Instagram(InstagramContentType),
    Youtube,
}

/// The content kind that a path segment names: `p`, `reel` or `stories`.
pub open spec fn content_type_of(kind: Option<Seq<char>>) -> Option<InstagramContentType> {
    match kind {
        Some(k) => if k == "p"@ {
            Some(InstagramContentType::Post)
        } else if k == "reel"@ {
            Some(InstagramContentType::Reel)
        } else if k == "stories"@ {
            Some(InstagramContentType::Story)
        } else {
            None
        },
        None => None,
    }
}

/// The profile for an address: the video site when its pattern matches, else the
/// photo site with the content kind when that pattern matches and names one.
pub open spec fn extractor_of(
    youtube: Option<bool>,
    instagram: Option<bool>,
    kind: Option<Seq<char>>,
) -> Option<Extractor> {
    if youtube == Some(true) {
        Some(Extractor::Youtube)
    } else if instagram == Some(true) {
        match content_type_of(kind) {
            Some(c) => Some(Extractor::Instagram(c)),
            None => None,
        }
    } else {
        None
    }
}

/// Reads the content kind from the captured path segment.
pub fn content_type_from_kind(kind: Option<&str>) -> (r: Option<InstagramContentType>)
    ensures
        r == content_type_of(
            match kind {
                Some(k) => Some(k@),
                None => None,
            },
        ),
{
    proof {
        reveal_strlit("p");
        reveal_strlit("reel");
        reveal_strlit("stories");
    }
    match kind {
        Some(k) => if same_text(k, "p") {
            Some(InstagramContentType::Post)
        } else if same_text(k, "reel") {
            Some(InstagramContentType::Reel)
        } else if same_text(k, "stories") {
            Some(InstagramContentType::Story)
        } else {
            None
        },
        None => None,
    }
}

/// Picks the profile from what the two patterns found in an address.
pub fn extractor_from_matches(youtube: Option<bool>, instagram: Option<bool>, kind: Option<&str>) -> (r:
    Option<Extractor>)
    ensures
        r == extractor_of(
            youtube,
            instagram,
            match kind {
                Some(k) => Some(k@),
                None => None,
            },
        ),
{
    if youtube == Some(true) {
        Some(Extractor::Youtube)
    } else if instagram == Some(true) {
        match content_type_from_kind(kind) {
            Some(c) => Some(Extractor::Instagram(c)),
            None => None,
        }
    } else {
        None
    }
}

/// The content kind of a photo-site address, if it is one.
pub fn get_instagram_content_type(url: &str) -> (r: Option<InstagramContentType>)
    ensures
        r == content_type_of(regex_group(instagram_pattern(), url@, 2)),
{
    let kind = capture_group(instagram_regex(), url, 2);
    match kind {
        Some(k) => content_type_from_kind(Some(k.as_str())),
        None => content_type_from_kind(None),
    }
}

/// The site profile of an address, if it has one.
pub fn get_extractor(url: &str) -> (r: Option<Extractor>)
    ensures
        r == extractor_of(
            regex_finds(youtube_pattern(), url@),
            regex_finds(instagram_pattern(), url@),
            regex_group(instagram_pattern(), url@, 2),
        ),
{
    let youtube = find_pattern(youtube_regex(), url);
    if youtube == Some(true) {
        return Some(Extractor::Youtube);
    }
    let instagram = find_pattern(instagram_regex(), url);
    let kind = capture_group(instagram_regex(), url, 2);
    match kind {
        Some(k) => extractor_from_matches(youtube, instagram, Some(k.as_str())),
        None => extractor_from_matches(youtube, instagram, None),
    }
}

} // verus!
