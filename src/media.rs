//! Content-type resolution: which MIME type the upload declares.
use vstd::prelude::*;
use vstd::string::*;
use crate::text::opt_view;

verus! {

/// A resolved MIME type, lower case as the parser leaves it: the top-level type, the
/// subtype without any `+suffix`, and the essence (`type/subtype[+suffix]`, no parameters).
pub struct ContentType {
    pub top: String,
    pub sub: String,
    pub essence: String,
}

impl View for ContentType {
    type V = (Seq<char>, Seq<char>, Seq<char>);

    open spec fn view(&self) -> Self::V {
        (self.top@, self.sub@, self.essence@)
    }
}

/// Why a content type could not be settled.
#[derive(Debug, Clone, Copy, PartialEq, Eq, Structural)]
pub enum ContentTypeError {
    /// The content type given on the command line is not a well-formed MIME type.
    InvalidExplicit,
    /// The configured default content type is not a well-formed MIME type.
    InvalidConfigured,
}

/// What `mime::Mime`'s parser makes of a string: `(type, subtype, essence)`, or `None`
/// where the string is not a well-formed `type/subtype[;params]`.
pub uninterp spec fn mime_parse(s: Seq<char>) -> Option<(Seq<char>, Seq<char>, Seq<char>)>;

/// The first MIME type that `mime_guess` associates with a path's extension.
pub uninterp spec fn mime_guess_first(path: Seq<char>) -> Option<(Seq<char>, Seq<char>, Seq<char>)>;

pub open spec fn text_plain() -> (Seq<char>, Seq<char>, Seq<char>) {
    ("text"@, "plain"@, "text/plain"@)
}

/// `name` is a path whose last component is a non-empty stem, a dot and `ext`. The path
/// holds no backslash or colon and does not start with `//`, so that it has no drive, share or
/// other prefix on any target, and `/` is its only separator.
pub open spec fn has_extension(name: Seq<char>, ext: Seq<char>) -> bool {
    let stem_end = name.len() - ext.len() - 1;
    &&& stem_end > 0
    &&& name.subrange(stem_end, name.len() as int) == seq!['.'] + ext
    &&& name[stem_end - 1] != '/'
    &&& forall|i: int| 0 <= i < name.len() ==> name[i] != '\\' && name[i] != ':'
    &&& !(name.len() >= 2 && name[0] == '/' && name[1] == '/')
}

/// The conventional MIME type of a few common extensions.
pub open spec fn conventional_type(name: Seq<char>) -> Option<(Seq<char>, Seq<char>, Seq<char>)> {
    if has_extension(name, "txt"@) {
        Some(text_plain())
    } else if has_extension(name, "png"@) {
        Some(("image"@, "png"@, "image/png"@))
    } else if has_extension(name, "json"@) {
        Some(("application"@, "json"@, "application/json"@))
    } else {
        None
    }
}

/// The configured default content type, `text/plain` where none is configured.
pub open spec fn configured_or_plain(configured: Option<Seq<char>>) -> Seq<char> {
    match configured {
        Some(c) => c,
        None => "text/plain"@,
    }
}

/// The content type the upload declares, by the first rule that applies: an explicit type
/// is parsed; input without a name is `text/plain`; a name's extension is looked up; else
/// the configured default is parsed.
pub open spec fn resolved_type(
    explicit: Option<Seq<char>>,
    source_name: Option<Seq<char>>,
    configured: Option<Seq<char>>,
) -> Result<(Seq<char>, Seq<char>, Seq<char>), ContentTypeError> {
    match explicit {
        Some(e) => match mime_parse(e) {
            Some(m) => Ok(m),
            None => Err(ContentTypeError::InvalidExplicit),
        },
        None => match source_name {
            None => Ok(text_plain()),
            Some(n) => match mime_guess_first(n) {
                Some(g) => Ok(g),
                None => match mime_parse(configured_or_plain(configured)) {
                    Some(m) => Ok(m),
                    None => Err(ContentTypeError::InvalidConfigured),
                },
            },
        },
    }
}

/// An explicit content type decides alone: the source's name and the configured default
/// change nothing, and the result is what the parser makes of the explicit string.
pub proof fn lemma_explicit_type_wins(
    explicit: Seq<char>,
    name1: Option<Seq<char>>,
    configured1: Option<Seq<char>>,
    name2: Option<Seq<char>>,
    configured2: Option<Seq<char>>,
)
    ensures
        resolved_type(Some(explicit), name1, configured1) == resolved_type(
            Some(explicit),
            name2,
            configured2,
        ),
        mime_parse(explicit) matches Some(m) ==> resolved_type(Some(explicit), name1, configured1)
            == Ok::<(Seq<char>, Seq<char>, Seq<char>), ContentTypeError>(m),
        mime_parse(explicit) is None ==> resolved_type(Some(explicit), name1, configured1) == Err::<
            (Seq<char>, Seq<char>, Seq<char>),
            ContentTypeError,
        >(ContentTypeError::InvalidExplicit),
{
}

/// Relies on `<mime::Mime as FromStr>::from_str`, with `Mime::type_`, `Mime::subtype` and
/// `Mime::essence_str` read off the parsed value.
#[verifier::external_body]
fn parse_mime(s: &str) -> (r: Option<ContentType>)
    ensures
        r is Some <==> mime_parse(s@) is Some,
        r matches Some(c) ==> c@ == mime_parse(s@)->0,
{
    match s.parse::<mime::Mime>() {
        Ok(m) => Some(ContentType {
            top: m.type_().as_str().to_string(),
            sub: m.subtype().as_str().to_string(),
            essence: m.essence_str().to_string(),
        }),
        Err(_) => None,
    }
}

/// Relies on `mime_guess::from_path(..).first()`: the first type registered for the path's
/// extension (`Path::extension`, looked up case-insensitively). Its table maps `txt` to
/// `text/plain`, `png` to `image/png` and `json` to `application/json`, each alone.
#[verifier::external_body]
fn guess_from_path(path: &str) -> (r: Option<ContentType>)
    ensures
        r is Some <==> mime_guess_first(path@) is Some,
        r matches Some(c) ==> c@ == mime_guess_first(path@)->0,
        conventional_type(path@) is Some ==> r is Some,
        conventional_type(path@) is Some ==> r->0@ == conventional_type(path@)->0,
{
    match mime_guess::from_path(path).first() {
        Some(m) => Some(ContentType {
            top: m.type_().as_str().to_string(),
            sub: m.subtype().as_str().to_string(),
            essence: m.essence_str().to_string(),
        }),
        None => None,
    }
}

impl ContentType {
    /// `text/plain`.
    pub fn text_plain() -> (r: ContentType)
        ensures
            r@ == text_plain(),
    {
        ContentType {
            top: String::from_str("text"),
            sub: String::from_str("plain"),
            essence: String::from_str("text/plain"),
        }
    }
}

/// Settles the content type of an upload from an explicit type, the source's file name
/// (absent for standard input) and the configured default.
pub fn resolve_content_type(
    explicit: Option<&str>,
    source_name: Option<&str>,
    configured: Option<&str>,
) -> (r: Result<ContentType, ContentTypeError>)
    ensures
        match resolved_type(
opt_view(explicit), opt_view(source_name), opt_view(configured)) {
            Ok(m) => r matches Ok(c) && c@ == m,
            Err(e) => r == Err::<ContentType, ContentTypeError>(e),
        },
        explicit is None && source_name is Some && conventional_type(source_name->0@) is Some ==> (
        r matches Ok(c) && c@ == conventional_type(source_name->0@)->0),
{
    match explicit {
        Some(e) => match parse_mime(e) {
            Some(c) => Ok(c),
            None => Err(ContentTypeError::InvalidExplicit),
        },
        None => match source_name {
            None => Ok(ContentType::text_plain()),
            Some(n) => match guess_from_path(n) {
                Some(g) => Ok(g),
                None => {
                    let fallback: &str = match configured {
                        Some(c) => c,
                        None => "text/plain",
                    };
                    match parse_mime(fallback) {
                        Some(c) => Ok(c),
                        None => Err(ContentTypeError::InvalidConfigured),
                    }
                },
            },
        },
    }
}

} // verus!
