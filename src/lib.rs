//! Decision pipeline of a command-line uploader for two paste-hosting services:
//! content-type resolution, destination routing, conditional gzip compression,
//! request assembly and interpretation of the service's reply.
pub mod text;
pub mod media;
pub mod route;
pub mod compress;
pub mod request;
pub mod response;
pub mod upload;

pub use compress::{choose_payload, compress, CompressionOutcome};
pub use media::{resolve_content_type, ContentType, ContentTypeError};
pub use request::{
    build_request, is_reserved_header, resolve_user_agent, Config, UploadRequest,
    DEFAULT_USERAGENT,
};
pub use response::{interpret_key, interpret_response, ResponseError, UploadResult};
pub use route::{route, Cli, CliError, Service};
pub use upload::{prepare_upload, PreparedUpload};
