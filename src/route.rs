//! Destination routing: which of the two services receives the upload.
use vstd::prelude::*;
use crate::media::ContentType;
use crate::text::str_eq;

verus! {

/// A paste service, or `Unset` where the command line forced none.
#[derive(Debug, Clone, Copy, PartialEq, Eq, Structural)]
pub enum Service {
    Bytebin,
    Pastes,
    Unset,
}

/// The options gathered from the command line.
pub struct Cli {
    /// The file to read; standard input where absent.
    pub file: Option<String>,
    /// Force the upload to bytebin.
    pub bytebin: bool,
    /// Force the upload to pastes.
    pub pastes: bool,
    /// The content type to declare instead of guessing one.
    pub content_type: Option<String>,
    /// The user agent, overriding the configured one.
    pub user_agent: Option<String>,
    /// The configuration file to read.
    pub config: Option<String>,
    /// Print diagnostics.
    pub verbose: bool,
    /// Print the result as JSON.
    pub json: bool,
}

/// Why the command-line options were refused.
#[derive(Debug, Clone, Copy, PartialEq, Eq, Structural)]
pub enum CliError {
    /// Both `--bytebin` and `--pastes` were given.
    ConflictingDestinations,
}

/// The destination that the two flags force, `Unset` where neither does.
pub open spec fn forced(bytebin: bool, pastes: bool) -> Service {
    if bytebin {
        Service::Bytebin
    } else if pastes {
        Service::Pastes
    } else {
        Service::Unset
    }
}

impl Cli {
    /// Accepts the gathered options, unless both destination flags are set.
    pub fn try_parse(self) -> (r: Result<Cli, CliError>)
        ensures
            self.bytebin && self.pastes ==> r == Err::<Cli, CliError>(CliError::ConflictingDestinations),
            !(self.bytebin && self.pastes) ==> (r matches Ok(c) && c == self),
    {
        if self.bytebin && self.pastes {
            Err(CliError::ConflictingDestinations)
        } else {
            Ok(self)
        }
    }

    /// The destination forced on the command line, if any.
    pub fn dest(&self) -> (r: Service)
        requires
            !(self.bytebin && self.pastes),
        ensures
            r == forced(self.bytebin, self.pastes),
    {
        match (self.bytebin, self.pastes) {
            (true, false) => Service::Bytebin,
            (false, true) => Service::Pastes,
            _ => Service::Unset,
        }
    }
}

/// Text, JavaScript and JSON go to the paste service.
pub open spec fn is_paste_type(ct: (Seq<char>, Seq<char>, Seq<char>)) -> bool {
    ||| ct.0 == "text"@
    ||| ct.0 == "application"@ && (ct.1 == "javascript"@ || ct.1 == "json"@)
}

/// A forced destination wins; otherwise the content type decides.
pub open spec fn routed(dest: Service, ct: (Seq<char>, Seq<char>, Seq<char>)) -> Service {
    match dest {
        Service::Unset => if is_paste_type(ct) {
            Service::Pastes
        } else {
            Service::Bytebin
        },
        _ => dest,
    }
}

/// Picks the service that receives an upload of content type `ct`.
pub fn route(dest: Service, ct: &ContentType) -> (r: Service)
    ensures
        r == routed(dest, ct@),
        r != Service::Unset,
        dest != Service::Unset ==> r == dest,
        dest == Service::Unset ==> (r == Service::Pastes <==> is_paste_type(ct@)),
{
    match dest {
        Service::Unset => {
            if str_eq(ct.top.as_str(), "text") {
                Service::Pastes
            } else if str_eq(ct.top.as_str(), "application") && (str_eq(ct.sub.as_str(), "javascript")
                || str_eq(ct.sub.as_str(), "json")) {
                Service::Pastes
            } else {
                Service::Bytebin
            }
        },
        _ => dest,
    }
}

/// The upload endpoint of a service.
pub open spec fn post_url_of(s: Service) -> Seq<char> {
    match s {
        Service::Bytebin => "https://bytebin.lucko.me/post"@,
        _ => "https://api.pastes.dev/post"@,
    }
}

/// The prefix that, followed by a key, links to an upload in the service's web view.
pub open spec fn view_prefix_of(s: Service) -> Seq<char> {
    match s {
        Service::Bytebin => "https://bytebin.lucko.me/"@,
        _ => "https://pastes.dev/"@,
    }
}

impl Service {
    /// The upload endpoint.
    pub fn post_url(&self) -> (r: &'static str)
        requires
            *self != Service::Unset,
        ensures
            r@ == post_url_of(*self),
    {
        match self {
            Service::Bytebin => "https://bytebin.lucko.me/post",
            _ => "https://api.pastes.dev/post",
        }
    }

    /// The prefix of the web view's links.
    pub fn view_prefix(&self) -> (r: &'static str)
        requires
            *self != Service::Unset,
        ensures
            r@ == view_prefix_of(*self),
    {
        match self {
            Service::Bytebin => "https://bytebin.lucko.me/",
            _ => "https://pastes.dev/",
        }
    }
}

} // verus!
