//! Assembly of the outbound upload request.
use vstd::prelude::*;
use vstd::string::*;
use crate::compress::CompressionOutcome;
use crate::media::ContentType;
use crate::route::{post_url_of, Service};
use crate::text::{eq_ignore_ascii_case, str_eq_ignore_ascii_case};

verus! {

/// The user agent sent where neither the command line nor the configuration gives one.
pub const DEFAULT_USERAGENT: &'static str = "pastes by funnyboy_roks <funnyboyroks@github.com>";

/// The settings read from the configuration file.
pub struct Config {
    /// The content type to declare where none is given and none can be guessed.
    pub content_type: Option<String>,
    /// The user agent to send unless the command line gives one.
    pub user_agent: String,
    /// Extra headers to send, in order, as (name, value).
    pub headers: Option<Vec<(String, String)>>,
}

/// A ready-to-send POST request.
pub struct UploadRequest {
    pub url: String,
    pub body: Vec<u8>,
    /// The headers in the order they are sent, as (name, value).
    pub headers: Vec<(String, String)>,
}

/// Headers as (name, value) character sequences.
pub open spec fn headers_view(hs: Seq<(String, String)>) -> Seq<(Seq<char>, Seq<char>)> {
    hs.map_values(|h: (String, String)| (h.0@, h.1@))
}

/// The three header names that the pipeline alone sets, compared without regard to case.
pub open spec fn is_reserved(name: Seq<char>) -> bool {
    ||| eq_ignore_ascii_case(name, "content-type"@)
    ||| eq_ignore_ascii_case(name, "user-agent"@)
    ||| eq_ignore_ascii_case(name, "content-encoding"@)
}

/// The configured headers that survive: those whose name is not reserved, in order.
pub open spec fn allowed_extras(extras: Seq<(Seq<char>, Seq<char>)>) -> Seq<(Seq<char>, Seq<char>)>
    decreases extras.len(),
{
    if extras.len() == 0 {
        seq![]
    } else {
        let rest = allowed_extras(extras.drop_last());
        if is_reserved(extras.last().0) {
            rest
        } else {
            rest.push(extras.last())
        }
    }
}

/// The headers that the pipeline sets itself: the content type's essence, the user agent,
/// and `content-encoding: gzip` exactly when the payload is compressed.
pub open spec fn pipeline_headers(
    essence: Seq<char>,
    user_agent: Seq<char>,
    zipped: bool,
) -> Seq<(Seq<char>, Seq<char>)> {
    let base = seq![("content-type"@, essence), ("user-agent"@, user_agent)];
    if zipped {
        base.push(("content-encoding"@, "gzip"@))
    } else {
        base
    }
}

/// No configured header that survives the filter has a reserved name.
pub proof fn lemma_allowed_extras_unreserved(extras: Seq<(Seq<char>, Seq<char>)>)
    ensures
        forall|i: int|
            0 <= i < allowed_extras(extras).len() ==> !is_reserved(
                #[trigger] allowed_extras(extras)[i].0,
            ),
    decreases extras.len(),
{
    if extras.len() > 0 {
        let rest = extras.drop_last();
        lemma_allowed_extras_unreserved(rest);
        assert forall|i: int|
            0 <= i < allowed_extras(extras).len() implies !is_reserved(
                #[trigger] allowed_extras(extras)[i].0,
            ) by {
            if i < allowed_extras(rest).len() {
                assert(allowed_extras(extras)[i] == allowed_extras(rest)[i]);
            }
        }
    }
}

/// Whether a header name is one of the reserved three.
pub fn is_reserved_header(name: &str) -> (r: bool)
    ensures
        r == is_reserved(name@),
{
    str_eq_ignore_ascii_case(name, "content-type") || str_eq_ignore_ascii_case(name, "user-agent")
        || str_eq_ignore_ascii_case(name, "content-encoding")
}

/// The user agent to send: the command line's where given, else the configured one.
pub fn resolve_user_agent(explicit: &Option<String>, configured: &String) -> (r: String)
    ensures
        r@ == (match explicit {
            Some(u) => u@,
            None => configured@,
        }),
{
    match explicit {
        Some(u) => u.clone(),
        None => configured.clone(),
    }
}

/// Assembles the POST request: the service's endpoint, the payload as body, the pipeline's
/// own headers, then the configured ones whose name is not reserved.
pub fn build_request(
    service: Service,
    ct: &ContentType,
    outcome: CompressionOutcome,
    user_agent: &str,
    extras: &Vec<(String, String)>,
) -> (r: UploadRequest)
    requires
        service != Service::Unset,
    ensures
        r.url@ == post_url_of(service),
        r.body@ == outcome.payload@,
        headers_view(r.headers@) == pipeline_headers(ct.essence@, user_agent@, outcome.was_compressed)
            + allowed_extras(headers_view(extras@)),
        forall|i: int|
            pipeline_headers(ct.essence@, user_agent@, outcome.was_compressed).len() <= i
                < r.headers@.len() ==> !is_reserved(#[trigger] r.headers@[i].0@),
{
    let mut headers: Vec<(String, String)> = Vec::new();
    headers.push((String::from_str("content-type"), ct.essence.clone()));
    headers.push((String::from_str("user-agent"), String::from_str(user_agent)));
    if outcome.was_compressed {
        headers.push((String::from_str("content-encoding"), String::from_str("gzip")));
    }
    let ghost base = pipeline_headers(ct.essence@, user_agent@, outcome.was_compressed);
    assert(headers_view(headers@) =~= base);
    let ghost ev = headers_view(extras@);
    let mut i: usize = 0;
    while i < extras.len()
        invariant
            i <= extras@.len(),
            ev == headers_view(extras@),
            headers_view(headers@) == base + allowed_extras(ev.subrange(0, i as int)),
        decreases extras@.len() - i,
    {
        let name = &extras[i].0;
        let value = &extras[i].1;
        let ghost prev = headers@;
        assert(ev.subrange(0, i + 1).drop_last() =~= ev.subrange(0, i as int));
        assert(ev[i as int] == (name@, value@));
        assert(ev.subrange(0, i + 1).last() == ev[i as int]);
        if !is_reserved_header(name.as_str()) {
            headers.push((name.clone(), value.clone()));
            assert(headers_view(headers@) =~= headers_view(prev).push((name@, value@)));
        }
        i = i + 1;
    }
    assert(ev.subrange(0, extras@.len() as int) =~= ev);
    proof {
        lemma_allowed_extras_unreserved(ev);
        assert forall|j: int| base.len() <= j < headers@.len() implies !is_reserved(
            #[trigger] headers@[j].0@,
        ) by {
            assert(headers_view(headers@) == base + allowed_extras(ev));
            assert(headers_view(headers@).len() == headers@.len());
            assert(headers_view(headers@)[j].0 == headers@[j].0@);
            assert(headers_view(headers@)[j] == (base + allowed_extras(ev))[j]);
            assert(headers_view(headers@)[j] == allowed_extras(ev)[j - base.len()]);
        }
    }
    UploadRequest {
        url: String::from_str(service.post_url()),
        body: outcome.payload,
        headers,
    }
}

} // verus!
