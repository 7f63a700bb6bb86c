use std::io::Read;

use pastes::text::{str_eq, str_eq_ignore_ascii_case};
use pastes::{
    build_request, choose_payload, compress, interpret_key, interpret_response,
    is_reserved_header, prepare_upload, resolve_content_type, resolve_user_agent, route, Cli,
    CliError, CompressionOutcome, Config, ContentType, ContentTypeError, ResponseError, Service,
    DEFAULT_USERAGENT,
};

fn cli(file: Option<&str>) -> Cli {
    Cli {
        file: file.map(|f| f.to_string()),
        bytebin: false,
        pastes: false,
        content_type: None,
        user_agent: None,
        config: None,
        verbose: false,
        json: false,
    }
}

fn config() -> Config {
    Config {
        content_type: None,
        user_agent: DEFAULT_USERAGENT.to_string(),
        headers: None,
    }
}

fn pairs(h: &[(String, String)]) -> Vec<(&str, &str)> {
    h.iter().map(|(k, v)| (k.as_str(), v.as_str())).collect()
}

fn ct(explicit: Option<&str>, name: Option<&str>, configured: Option<&str>) -> ContentType {
    resolve_content_type(explicit, name, configured).unwrap()
}

#[test]
fn small_stdin_text_is_sent_plain_to_pastes() {
    let data = b"hello\nhell".to_vec();
    assert_eq!(data.len(), 10);
    let p = prepare_upload(&cli(None), &config(), data.clone()).unwrap();
    assert_eq!(p.content_type.essence, "text/plain");
    assert_eq!(p.service, Service::Pastes);
    assert!(!p.zipped);
    assert_eq!(p.request.body, data);
    assert_eq!(p.request.url, "https://api.pastes.dev/post");
    assert_eq!(
        pairs(&p.request.headers),
        vec![("content-type", "text/plain"), ("user-agent", DEFAULT_USERAGENT)]
    );
}

#[test]
fn large_text_file_is_gzipped_to_pastes() {
    let mut data = Vec::new();
    while data.len() < 50 * 1024 {
        data.extend_from_slice(b"2024-01-01 INFO request handled in 3ms\n");
    }
    let p = prepare_upload(&cli(Some("log.txt")), &config(), data.clone()).unwrap();
    assert_eq!(p.content_type.essence, "text/plain");
    assert_eq!(p.service, Service::Pastes);
    assert!(p.zipped);
    assert!(p.request.body.len() < data.len());
    assert!(pairs(&p.request.headers).contains(&("content-encoding", "gzip")));
    let mut back = Vec::new();
    flate2::read::GzDecoder::new(p.request.body.as_slice())
        .read_to_end(&mut back)
        .unwrap();
    assert_eq!(back, data);
}

#[test]
fn pastes_reply_gives_view_link() {
    let r = interpret_response(br#"{"key":"abcXYZ"}"#, Service::Pastes, false).unwrap();
    assert_eq!(r.key, "abcXYZ");
    assert_eq!(r.url, "https://pastes.dev/abcXYZ");
    assert_eq!(r.service, Service::Pastes);
    assert!(!r.zipped);
    assert_eq!(r.render_plain(), "File uploaded to https://pastes.dev/abcXYZ");
}

#[test]
fn bytebin_reply_with_extra_fields() {
    let r = interpret_response(br#"{"ok":true,"key":"k1"}"#, Service::Bytebin, true).unwrap();
    assert_eq!(r.url, "https://bytebin.lucko.me/k1");
    assert!(r.zipped);
}

#[test]
fn reply_that_is_not_json_fails() {
    assert!(matches!(
        interpret_response(b"not json", Service::Pastes, false),
        Err(ResponseError::MalformedReply)
    ));
}

#[test]
fn reply_without_string_key_fails() {
    assert!(interpret_response(br#"{"key":5}"#, Service::Pastes, false).is_err());
    assert!(interpret_response(br#"{"id":"x"}"#, Service::Pastes, false).is_err());
}

#[test]
fn interpret_key_builds_link() {
    let r = interpret_key(Some("zz".to_string()), Service::Bytebin, false).unwrap();
    assert_eq!(r.url, "https://bytebin.lucko.me/zz");
    assert!(matches!(
        interpret_key(None, Service::Bytebin, false),
        Err(ResponseError::MalformedReply)
    ));
}

#[test]
fn explicit_type_wins_over_name_and_config() {
    let a = ct(Some("application/x-custom; charset=utf-8"), Some("a.png"), Some("text/html"));
    assert_eq!(a.essence, "application/x-custom");
    assert_eq!(a.top, "application");
    assert_eq!(a.sub, "x-custom");
    let b = ct(Some("application/x-custom; charset=utf-8"), None, None);
    assert_eq!(b.essence, a.essence);
}

#[test]
fn explicit_type_is_lowercased_by_parser() {
    let a = ct(Some("TEXT/Plain"), None, None);
    assert_eq!(a.essence, "text/plain");
    assert_eq!(a.top, "text");
}

#[test]
fn suffix_stays_in_essence_not_subtype() {
    let a = ct(Some("image/svg+xml"), None, None);
    assert_eq!(a.sub, "svg");
    assert_eq!(a.essence, "image/svg+xml");
}

#[test]
fn malformed_explicit_type_is_refused() {
    assert_eq!(
        resolve_content_type(Some("not a mime"), Some("a.txt"), None).err(),
        Some(ContentTypeError::InvalidExplicit)
    );
}

#[test]
fn stdin_defaults_to_text_plain_even_with_config() {
    let a = ct(None, None, Some("application/octet-stream"));
    assert_eq!(a.essence, "text/plain");
}

#[test]
fn known_extensions_are_guessed() {
    assert_eq!(ct(None, Some("notes.txt"), None).essence, "text/plain");
    assert_eq!(ct(None, Some("shot.png"), None).essence, "image/png");
    assert_eq!(ct(None, Some("data.json"), Some("text/html")).essence, "application/json");
    assert_eq!(ct(None, Some("dir/SHOT.PNG"), None).essence, "image/png");
}

#[test]
fn unknown_extension_uses_configured_default() {
    let a = ct(None, Some("blob.zzzunknown"), Some("application/octet-stream"));
    assert_eq!(a.essence, "application/octet-stream");
    assert_eq!(ct(None, Some("blob.zzzunknown"), None).essence, "text/plain");
    assert_eq!(ct(None, Some("README"), None).essence, "text/plain");
    assert_eq!(
        resolve_content_type(None, Some("blob.zzzunknown"), Some("garbage")).err(),
        Some(ContentTypeError::InvalidConfigured)
    );
}

#[test]
fn routing_by_content_type() {
    let t = ct(Some("text/html"), None, None);
    assert_eq!(route(Service::Unset, &t), Service::Pastes);
    let j = ct(Some("application/json"), None, None);
    assert_eq!(route(Service::Unset, &j), Service::Pastes);
    let js = ct(Some("application/javascript"), None, None);
    assert_eq!(route(Service::Unset, &js), Service::Pastes);
    let x = ct(Some("application/xml"), None, None);
    assert_eq!(route(Service::Unset, &x), Service::Bytebin);
    let p = ct(None, Some("a.png"), None);
    assert_eq!(route(Service::Unset, &p), Service::Bytebin);
}

#[test]
fn forced_destination_wins() {
    let p = ct(None, Some("a.png"), None);
    assert_eq!(route(Service::Pastes, &p), Service::Pastes);
    let t = ct(None, Some("a.txt"), None);
    assert_eq!(route(Service::Bytebin, &t), Service::Bytebin);
    let mut c = cli(Some("a.png"));
    c.pastes = true;
    let up = prepare_upload(&c, &config(), vec![1, 2, 3]).unwrap();
    assert_eq!(up.service, Service::Pastes);
    assert_eq!(up.content_type.essence, "image/png");
}

#[test]
fn cli_flags() {
    let mut c = cli(None);
    assert_eq!(c.dest(), Service::Unset);
    c.bytebin = true;
    assert_eq!(c.dest(), Service::Bytebin);
    c.bytebin = false;
    c.pastes = true;
    assert_eq!(c.dest(), Service::Pastes);
    assert!(c.try_parse().is_ok());
    let mut d = cli(None);
    d.bytebin = true;
    d.pastes = true;
    assert!(matches!(d.try_parse(), Err(CliError::ConflictingDestinations)));
}

#[test]
fn reserved_headers_from_config_are_dropped() {
    let extras: Vec<(String, String)> = vec![
        ("Content-Type".to_string(), "x".to_string()),
        ("X-Custom".to_string(), "1".to_string()),
        ("USER-AGENT".to_string(), "y".to_string()),
        ("content-encoding".to_string(), "br".to_string()),
        ("x-other".to_string(), "2".to_string()),
    ];
    let t = ct(Some("text/plain"), None, None);
    let outcome = CompressionOutcome { payload: vec![9], was_compressed: true };
    let r = build_request(Service::Bytebin, &t, outcome, "agent/1", &extras);
    assert_eq!(r.url, "https://bytebin.lucko.me/post");
    assert_eq!(r.body, vec![9]);
    assert_eq!(
        pairs(&r.headers),
        vec![
            ("content-type", "text/plain"),
            ("user-agent", "agent/1"),
            ("content-encoding", "gzip"),
            ("X-Custom", "1"),
            ("x-other", "2"),
        ]
    );
}

#[test]
fn configured_headers_and_user_agent_in_pipeline() {
    let mut c = cli(None);
    c.user_agent = Some("cli-agent".to_string());
    let mut cfg = config();
    cfg.headers = Some(vec![
        ("Authorization".to_string(), "t".to_string()),
        ("User-Agent".to_string(), "cfg".to_string()),
    ]);
    let p = prepare_upload(&c, &cfg, b"x".to_vec()).unwrap();
    assert_eq!(
        pairs(&p.request.headers),
        vec![
            ("content-type", "text/plain"),
            ("user-agent", "cli-agent"),
            ("Authorization", "t"),
        ]
    );
}

#[test]
fn pipeline_reports_configured_type_error() {
    let mut cfg = config();
    cfg.content_type = Some("bad".to_string());
    assert_eq!(
        prepare_upload(&cli(Some("file.zzzunknown")), &cfg, vec![]).err().map(|_| ()),
        Some(())
    );
}

#[test]
fn user_agent_resolution() {
    let cfg = "cfg".to_string();
    assert_eq!(resolve_user_agent(&Some("cli".to_string()), &cfg), "cli");
    assert_eq!(resolve_user_agent(&None, &cfg), "cfg");
}

#[test]
fn reserved_names_ignore_ascii_case() {
    assert!(is_reserved_header("Content-Encoding"));
    assert!(is_reserved_header("user-agent"));
    assert!(!is_reserved_header("content-typ"));
    assert!(!is_reserved_header("x-content-type"));
    assert!(str_eq_ignore_ascii_case("AbC", "aBc"));
    assert!(!str_eq_ignore_ascii_case("AbC", "aBd"));
    assert!(str_eq("abc", "abc"));
    assert!(!str_eq("abc", "Abc"));
}

#[test]
fn compression_only_when_smaller() {
    let small = b"hi".to_vec();
    let o = compress(small.clone());
    assert!(!o.was_compressed);
    assert_eq!(o.payload, small);
    let big = vec![b'a'; 4096];
    let o = compress(big.clone());
    assert!(o.was_compressed);
    assert!(o.payload.len() < big.len());
    let empty = compress(vec![]);
    assert!(!empty.was_compressed);
    assert!(empty.payload.is_empty());
}

#[test]
fn choose_payload_edges() {
    let equal = choose_payload(vec![1, 2, 3], Some(vec![4, 5, 6]));
    assert!(!equal.was_compressed);
    assert_eq!(equal.payload, vec![1, 2, 3]);
    let shorter = choose_payload(vec![1, 2, 3], Some(vec![4]));
    assert!(shorter.was_compressed);
    assert_eq!(shorter.payload, vec![4]);
    let failed = choose_payload(vec![1, 2, 3], None);
    assert!(!failed.was_compressed);
    assert_eq!(failed.payload, vec![1, 2, 3]);
}

#[test]
fn service_urls() {
    assert_eq!(Service::Bytebin.post_url(), "https://bytebin.lucko.me/post");
    assert_eq!(Service::Pastes.post_url(), "https://api.pastes.dev/post");
    assert_eq!(Service::Bytebin.view_prefix(), "https://bytebin.lucko.me/");
    assert_eq!(Service::Pastes.view_prefix(), "https://pastes.dev/");
}

#[test]
fn extension_guessed_under_a_directory() {
    assert_eq!(ct(None, Some("logs/today/log.txt"), Some("application/x-y")).essence, "text/plain");
    assert_eq!(ct(None, Some("/tmp/pic.png"), None).essence, "image/png");
    assert_eq!(ct(None, Some("dir/.txt"), Some("application/x-y")).essence, "application/x-y");
}

#[test]
fn compressible_input_is_always_compressed() {
    let data = vec![b'z'; 2000];
    let p = prepare_upload(&cli(Some("big.bin")), &config(), data.clone()).unwrap();
    assert!(p.zipped);
    assert_eq!(p.service, Service::Bytebin);
    assert!(pairs(&p.request.headers).contains(&("content-encoding", "gzip")));
}
