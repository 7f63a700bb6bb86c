//! The whole decision pipeline, from input bytes and options to a ready request.
use vstd::prelude::*;
use crate::compress::{compress, gzip_of};
use crate::media::{resolve_content_type, resolved_type, ContentType, ContentTypeError};
use crate::request::{
    allowed_extras, build_request, headers_view, pipeline_headers, resolve_user_agent, Config,
    UploadRequest,
};
use crate::route::{forced, post_url_of, route, routed, Cli, Service};

verus! {

/// The characters of an optional owned string.
pub open spec fn opt_string_view(o: Option<String>) -> Option<Seq<char>> {
    match o {
        Some(s) => Some(s@),
        None => None,
    }
}

/// The configured extra headers, none where the configuration has none.
pub open spec fn configured_headers(config: Config) -> Seq<(Seq<char>, Seq<char>)> {
    match config.headers {
        Some(h) => headers_view(h@),
        None => seq![],
    }
}

/// The user agent the pipeline sends.
pub open spec fn chosen_user_agent(cli: Cli, config: Config) -> Seq<char> {
    match cli.user_agent {
        Some(u) => u@,
        None => config.user_agent@,
    }
}

/// Every decision taken for one upload, and the request that carries them.
pub struct PreparedUpload {
    pub content_type: ContentType,
    pub service: Service,
    pub zipped: bool,
    pub request: UploadRequest,
}

fn as_str_opt(o: &Option<String>) -> (r: Option<&str>)
    ensures
        crate::text::opt_view(r) == opt_string_view(*o),
{
    match o {
        Some(s) => Some(s.as_str()),
        None => None,
    }
}

/// Resolves the content type, picks the service, compresses where it pays, and assembles the
/// request for `data`, read from the command line's file or from standard input.
pub fn prepare_upload(cli: &Cli, config: &Config, data: Vec<u8>) -> (r: Result<
    PreparedUpload,
    ContentTypeError,
>)
    requires
        !(cli.bytebin && cli.pastes),
    ensures
        match resolved_type(
            opt_string_view(cli.content_type),
            opt_string_view(cli.file),
            opt_string_view(config.content_type),
        ) {
            Err(e) => r == Err::<PreparedUpload, ContentTypeError>(e),
            Ok(m) => r matches Ok(p) && {
                &&& p.content_type@ == m
                &&& p.service == routed(forced(cli.bytebin, cli.pastes), m)
                &&& p.request.url@ == post_url_of(p.service)
                &&& p.zipped ==> p.request.body@ == gzip_of(data@) && p.request.body@.len()
                    < data@.len()
                &&& !p.zipped ==> p.request.body@ == data@
                &&& gzip_of(data@).len() >= data@.len() ==> !p.zipped
                &&& gzip_of(data@).len() < data@.len() ==> p.zipped
                &&& headers_view(p.request.headers@) == pipeline_headers(
                    m.2,
                    chosen_user_agent(*cli, *config),
                    p.zipped,
                ) + allowed_extras(configured_headers(*config))
            },
        },
{
    let ct = match resolve_content_type(
        as_str_opt(&cli.content_type),
        as_str_opt(&cli.file),
        as_str_opt(&config.content_type),
    ) {
        Ok(c) => c,
        Err(e) => return Err(e),
    };
    let service = route(cli.dest(), &ct);
    let outcome = compress(data);
    let zipped = outcome.was_compressed;
    let user_agent = resolve_user_agent(&cli.user_agent, &config.user_agent);
    let none: Vec<(String, String)> = Vec::new();
    let extras = match &config.headers {
        Some(h) => h,
        None => &none,
    };
    proof {
        assert(headers_view(none@) =~= seq![]);
    }
    let request = build_request(service, &ct, outcome, user_agent.as_str(), extras);
    Ok(PreparedUpload { content_type: ct, service, zipped, request })
}

} // verus!
