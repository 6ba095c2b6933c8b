//! The course of one request: what is checked before the download, what is
//! made of its result, and which response the caller owes its client.

use vstd::prelude::*;
use vstd::string::StringSliceAdditionalSpecFns;
use vstd::utf8::encode_utf8;
use crate::decode::decode_image;
use crate::decode::spec_decode_image;
use crate::download::parse_url;
use crate::download::parsed_url;
use crate::download::DownloadedFile;
use crate::encode::encode_image;
use crate::encode::encoder_is_fixed;
use crate::encode::spec_encode_error;
use crate::encode::spec_encoded_bytes;
use crate::encode::BytesAndMime;
use crate::encode::EncodeError;
use crate::fetch::FileDownloadError;
use crate::format::format_extension;
use crate::format::lemma_webp_extension;
use crate::format::webp_extension;
use crate::format::format_mime;
use crate::format::preferred_extension;
use crate::format::Format;
use crate::options::apply_transform;
use crate::options::can_apply;
use crate::options::spec_can_apply;
use crate::options::select_transform;
use crate::options::spec_apply_transform;
use crate::options::spec_select_transform;
use crate::options::ProxyOptions;
use crate::options::Transform;
use crate::text::disposition_filename;
use crate::text::file_name;
use crate::text::file_name_of;
use crate::text::find;
use crate::text::first_match;
use crate::text::has_prefix;
use crate::text::read_disposition_filename;
use crate::text::replace_extension;
use crate::text::starts_with;
use crate::text::with_extension;

verus! {

pub const OK: u16 = 200;

pub const FOUND: u16 = 302;

pub const BAD_REQUEST: u16 = 400;

pub const FORBIDDEN: u16 = 403;

pub const INTERNAL_SERVER_ERROR: u16 = 500;

pub const NOT_IMPLEMENTED: u16 = 501;

/// Why there is no image to process.
pub enum DownloadImageError {
    MissingURL,
    MissingUA,
    /// The caller is a proxy of this kind itself.
    RecursiveProxy,
    /// The file at this address is too large to process.
    DownloadErrorOversize(String),
    DownloadErrorInvalidStatus(u16),
    DownloadErrorInvalidUrl,
    DownloadErrorRequest,
    /// The origin declared a content type that is no image.
    NotAnImage(DownloadedFile),
}

/// Every answer but a processed image.
pub enum ProxyImageError {
    /// Answer with this status and no body.
    StatusCodeOnly(u16),
    /// Send the client to this address.
    Redirectable(String),
    /// Hand the downloaded bytes on as they are.
    BytesOnly(DownloadedFile),
}

/// A processed image with the name under which it is offered.
pub struct ProxiedImage {
    pub content: BytesAndMime,
    pub filename: Vec<u8>,
}

/// What a request is for.
#[derive(Clone, Copy, Debug, PartialEq, Eq, Structural)]
pub enum Route {
    /// No query string at all: answer 200 with the body `OK`.
    Healthcheck,
    Proxy,
}

pub fn route(has_query: bool) -> (r: Route)
    ensures
        r == (if has_query {
            Route::Proxy
        } else {
            Route::Healthcheck
        }),
{
    if has_query {
        Route::Proxy
    } else {
        Route::Healthcheck
    }
}

/// A reply that needs no download: a status and a body.
pub struct PlainReply {
    pub status: u16,
    pub body: Vec<u8>,
}

/// The bytes `OK`, the body of the answer to a healthcheck.
pub open spec fn healthcheck_body() -> Seq<u8> {
    seq![0x4fu8, 0x4bu8]
}

/// The reply that a route owes at once: a healthcheck is answered with
/// status 200 and the body `OK`, and nothing is downloaded for it; a proxy
/// request has no such reply.
pub fn immediate_reply(route: Route) -> (r: Option<PlainReply>)
    ensures
        r is Some <==> route == Route::Healthcheck,
        r matches Some(reply) ==> reply.status == OK && reply.body@ == healthcheck_body(),
{
    match route {
        Route::Healthcheck => {
            let body: Vec<u8> = vec![0x4fu8, 0x4bu8];
            assert(body@ =~= healthcheck_body());
            Some(PlainReply { status: OK, body })
        },
        Route::Proxy => None,
    }
}

/// The text that `str::to_lowercase` returns.
pub uninterp spec fn lowered(text: Seq<char>) -> Seq<char>;

/// Calls `str::to_lowercase`. The contract names the outcome.
#[verifier::external_body]
fn lowercase(text: &str) -> (r: String)
    ensures
        r@ == lowered(text@),
{
    text.to_lowercase()
}

/// The bytes `misskey/`, by which a proxy of this kind names itself.
pub open spec fn proxy_marker() -> Seq<u8> {
    seq![0x6du8, 0x69u8, 0x73u8, 0x73u8, 0x6bu8, 0x65u8, 0x79u8, 0x2fu8]
}

/// The bytes `image/`, with which the media type of every image begins.
pub open spec fn image_prefix() -> Seq<u8> {
    seq![0x69u8, 0x6du8, 0x61u8, 0x67u8, 0x65u8, 0x2fu8]
}

/// Whether lowered text names a proxy of this kind.
pub open spec fn names_proxy(lowered_agent: Seq<char>) -> bool {
    first_match(encode_utf8(lowered_agent), proxy_marker(), 0) is Some
}

/// Whether a user agent, lowered already, names a proxy of this kind.
pub fn agent_names_proxy(lowered_agent: &str) -> (r: bool)
    ensures
        r == names_proxy(lowered_agent@),
{
    let marker: Vec<u8> = vec![0x6du8, 0x69u8, 0x73u8, 0x73u8, 0x6bu8, 0x65u8, 0x79u8, 0x2fu8];
    assert(marker@ =~= proxy_marker());
    find(lowered_agent.as_bytes(), marker.as_slice()).is_some()
}

/// Whether the caller is a proxy of this kind, whatever the case of the
/// letters in its user agent.
pub fn is_recursive_proxy(ua: &str) -> (r: bool)
    ensures
        r == names_proxy(lowered(ua@)),
{
    let lower = lowercase(ua);
    agent_names_proxy(lower.as_str())
}

/// What is owed before anything is downloaded.
pub open spec fn spec_check_request(url: Option<&String>, ua: Option<&str>) -> Result<
    (),
    DownloadImageError,
> {
    if url is None {
        Err(DownloadImageError::MissingURL)
    } else if ua is None {
        Err(DownloadImageError::MissingUA)
    } else if names_proxy(lowered(ua->0@)) {
        Err(DownloadImageError::RecursiveProxy)
    } else {
        Ok(())
    }
}

/// Checks a request before anything is downloaded: it must name an
/// address and a user agent, and must not come from a proxy of this kind.
pub fn check_request(url: Option<&String>, ua: Option<&str>) -> (r: Result<(), DownloadImageError>)
    ensures
        r == spec_check_request(url, ua),
{
    if url.is_none() {
        return Err(DownloadImageError::MissingURL);
    }
    match ua {
        None => Err(DownloadImageError::MissingUA),
        Some(agent) => {
            if is_recursive_proxy(agent) {
                Err(DownloadImageError::RecursiveProxy)
            } else {
                Ok(())
            }
        },
    }
}

/// Whether a declared content type rules an image out.
pub open spec fn not_an_image(content_type: Option<String>) -> bool {
    content_type matches Some(t) && !has_prefix(encode_utf8(t@), image_prefix())
}

/// What is made of a finished download: its error is mapped, and a
/// file whose declared type is no image is set aside.
pub fn download_image(url: &String, fetched: Result<DownloadedFile, FileDownloadError>) -> (r:
    Result<DownloadedFile, DownloadImageError>)
    ensures
        match fetched {
            Err(FileDownloadError::Oversize) => r matches Err(
                DownloadImageError::DownloadErrorOversize(u),
            ) && u@ == url@,
            Err(FileDownloadError::InvalidStatusCode(code)) => r matches Err(
                DownloadImageError::DownloadErrorInvalidStatus(c),
            ) && c == code,
            Err(FileDownloadError::InvalidUrl) => r matches Err(
                DownloadImageError::DownloadErrorInvalidUrl,
            ),
            Err(FileDownloadError::RequestError) => r matches Err(
                DownloadImageError::DownloadErrorRequest,
            ),
            Ok(file) => if not_an_image(file.1) {
                r matches Err(DownloadImageError::NotAnImage(f)) && f == file
            } else {
                r == Ok::<DownloadedFile, DownloadImageError>(file)
            },
        },
{
    match fetched {
        Err(FileDownloadError::Oversize) => Err(
            DownloadImageError::DownloadErrorOversize(url.clone()),
        ),
        Err(FileDownloadError::InvalidStatusCode(code)) => Err(
            DownloadImageError::DownloadErrorInvalidStatus(code),
        ),
        Err(FileDownloadError::InvalidUrl) => Err(DownloadImageError::DownloadErrorInvalidUrl),
        Err(FileDownloadError::RequestError) => Err(DownloadImageError::DownloadErrorRequest),
        Ok(file) => {
            let refused = match &file.1 {
                Some(content_type) => {
                    let prefix: Vec<u8> = vec![0x69u8, 0x6du8, 0x61u8, 0x67u8, 0x65u8, 0x2fu8];
                    assert(prefix@ =~= image_prefix());
                    !starts_with(content_type.as_str().as_bytes(), prefix.as_slice())
                },
                None => false,
            };
            if refused {
                Err(DownloadImageError::NotAnImage(file))
            } else {
                Ok(file)
            }
        },
    }
}

/// The answer to a request that has no image to process.
pub open spec fn spec_download_failure(e: DownloadImageError) -> ProxyImageError {
    match e {
        DownloadImageError::MissingURL => ProxyImageError::StatusCodeOnly(BAD_REQUEST),
        DownloadImageError::MissingUA => ProxyImageError::StatusCodeOnly(BAD_REQUEST),
        DownloadImageError::DownloadErrorInvalidUrl => ProxyImageError::StatusCodeOnly(
            BAD_REQUEST,
        ),
        DownloadImageError::RecursiveProxy => ProxyImageError::StatusCodeOnly(FORBIDDEN),
        DownloadImageError::DownloadErrorOversize(url) => ProxyImageError::Redirectable(url),
        DownloadImageError::DownloadErrorInvalidStatus(code) => ProxyImageError::StatusCodeOnly(
            code,
        ),
        DownloadImageError::DownloadErrorRequest => ProxyImageError::StatusCodeOnly(
            INTERNAL_SERVER_ERROR,
        ),
        DownloadImageError::NotAnImage(file) => ProxyImageError::BytesOnly(file),
    }
}

pub fn download_failure(e: DownloadImageError) -> (r: ProxyImageError)
    ensures
        r == spec_download_failure(e),
{
    match e {
        DownloadImageError::MissingURL => ProxyImageError::StatusCodeOnly(BAD_REQUEST),
        DownloadImageError::MissingUA => ProxyImageError::StatusCodeOnly(BAD_REQUEST),
        DownloadImageError::DownloadErrorInvalidUrl => ProxyImageError::StatusCodeOnly(
            BAD_REQUEST,
        ),
        DownloadImageError::RecursiveProxy => ProxyImageError::StatusCodeOnly(FORBIDDEN),
        DownloadImageError::DownloadErrorOversize(url) => ProxyImageError::Redirectable(url),
        DownloadImageError::DownloadErrorInvalidStatus(code) => ProxyImageError::StatusCodeOnly(
            code,
        ),
        DownloadImageError::DownloadErrorRequest => ProxyImageError::StatusCodeOnly(
            INTERNAL_SERVER_ERROR,
        ),
        DownloadImageError::NotAnImage(file) => ProxyImageError::BytesOnly(file),
    }
}

/// An oversize download sends the client to the address itself, whichever
/// address that is, with the status of a redirect.
pub proof fn lemma_oversize_redirects(url: String)
    ensures
        spec_download_failure(DownloadImageError::DownloadErrorOversize(url))
            == ProxyImageError::Redirectable(url),
        spec_status_code(
            Err(spec_download_failure(DownloadImageError::DownloadErrorOversize(url))),
        ) == FOUND,
{
}

/// The status of the response that an outcome is rendered as.
pub open spec fn spec_status_code(outcome: Result<ProxiedImage, ProxyImageError>) -> u16 {
    match outcome {
        Ok(_) => OK,
        Err(ProxyImageError::BytesOnly(_)) => OK,
        Err(ProxyImageError::Redirectable(_)) => FOUND,
        Err(ProxyImageError::StatusCodeOnly(code)) => code,
    }
}

pub fn status_code(outcome: &Result<ProxiedImage, ProxyImageError>) -> (code: u16)
    ensures
        code == spec_status_code(*outcome),
{
    match outcome {
        Ok(_) => OK,
        Err(ProxyImageError::BytesOnly(_)) => OK,
        Err(ProxyImageError::Redirectable(_)) => FOUND,
        Err(ProxyImageError::StatusCodeOnly(code)) => *code,
    }
}

/// The name under which a download is kept: the one its content
/// disposition gives, else the file name of the path.
pub open spec fn spec_filename_hint(path: Seq<u8>, disposition: Option<Seq<u8>>) -> Seq<u8> {
    match disposition {
        Some(header) => match disposition_filename(header) {
            Some(name) => name,
            None => file_name(path),
        },
        None => file_name(path),
    }
}

pub fn filename_hint(path: &[u8], disposition: Option<&[u8]>) -> (r: Vec<u8>)
    ensures
        r@ == spec_filename_hint(
            path@,
            match disposition {
                Some(header) => Some(header@),
                None => None,
            },
        ),
{
    match disposition {
        Some(header) => match read_disposition_filename(header) {
            Some(name) => name,
            None => file_name_of(path),
        },
        None => file_name_of(path),
    }
}

/// The path of an address as bytes: that of the parsed address, and the
/// whole text where it does not parse.
pub open spec fn url_path(url: Seq<char>) -> Seq<u8> {
    match parsed_url(url) {
        Some(parts) => encode_utf8(parts.path),
        None => encode_utf8(url),
    }
}

/// The name under which the download of an address is kept.
pub fn filename_for(url: &str, disposition: Option<&str>) -> (r: Vec<u8>)
    ensures
        r@ == spec_filename_hint(
            url_path(url@),
            match disposition {
                Some(header) => Some(encode_utf8(header@)),
                None => None,
            },
        ),
{
    let header = match disposition {
        Some(text) => Some(text.as_bytes()),
        None => None,
    };
    match parse_url(url) {
        Some(parts) => filename_hint(parts.path.as_str().as_bytes(), header),
        None => filename_hint(url.as_bytes(), header),
    }
}

/// What becomes of an encoding: its bytes go out under the file name with
/// the extension of the format, its failure is an internal error.
pub fn finish_image(filename: &[u8], format: Format, encoded: Result<BytesAndMime, EncodeError>) -> (r:
    Result<ProxiedImage, ProxyImageError>)
    ensures
        match encoded {
            Ok(content) => r matches Ok(image) && image.content == content && image.filename@
                == with_extension(filename@, encode_utf8(format_extension(format))) && (format
                is WebP ==> image.filename@ == with_extension(filename@, webp_extension())),
            Err(_) => r matches Err(ProxyImageError::StatusCodeOnly(code)) && code
                == INTERNAL_SERVER_ERROR,
        },
{
    match encoded {
        Ok(content) => {
            let extension = preferred_extension(format);
            proof {
                lemma_webp_extension();
            }
            let name = replace_extension(filename, extension.as_str().as_bytes());
            Ok(ProxiedImage { content, filename: name })
        },
        Err(_) => Err(ProxyImageError::StatusCodeOnly(INTERNAL_SERVER_ERROR)),
    }
}

/// What processing makes of a downloaded file. A file that does not
/// decode, or whose frames are too large to be resized, is handed on as
/// it is; the badge rendering is not implemented; a failure to encode is
/// an internal error; and every other file becomes an image in the format
/// asked for, under its file name with the extension of that format.
/// Whether the encoding fails is a matter of the frames alone for every
/// format but AVIF.
pub open spec fn is_processed(
    file: DownloadedFile,
    options: ProxyOptions,
    allow_animation: bool,
    r: Result<ProxiedImage, ProxyImageError>,
) -> bool {
    match spec_decode_image(file.0@, allow_animation) {
        Err(_) => r matches Err(ProxyImageError::BytesOnly(f)) && f == file,
        Ok(frames) => {
            let transform = spec_select_transform(options);
            if transform is NotImplemented {
                r matches Err(ProxyImageError::StatusCodeOnly(code)) && code == NOT_IMPLEMENTED
            } else if !spec_can_apply(frames, transform) {
                r matches Err(ProxyImageError::BytesOnly(f)) && f == file
            } else {
                let shaped = spec_apply_transform(frames, transform);
                let made = r matches Ok(image) && {
                    &&& image.content.1@ == format_mime(options.format)
                    &&& options.format is WebP ==> image.content.1@ == "image/webp"@
                    &&& image.filename@ == with_extension(
                        file.2@,
                        encode_utf8(format_extension(options.format)),
                    )
                    &&& options.format is WebP ==> image.filename@ == with_extension(
                        file.2@,
                        webp_extension(),
                    )
                    &&& encoder_is_fixed(options.format) ==> image.content.0@
                        == spec_encoded_bytes(shaped, options.format)
                };
                let failed = r matches Err(ProxyImageError::StatusCodeOnly(code)) && code
                    == INTERNAL_SERVER_ERROR;
                if encoder_is_fixed(options.format) {
                    match spec_encode_error(shaped, options.format) {
                        Some(_) => failed,
                        None => made,
                    }
                } else {
                    made || failed
                }
            }
        },
    }
}

/// Decodes, resizes and encodes a downloaded file.
pub fn process_image(file: DownloadedFile, options: &ProxyOptions, allow_animation: bool) -> (r:
    Result<ProxiedImage, ProxyImageError>)
    ensures
        is_processed(file, *options, allow_animation, r),
{
    let frames = match decode_image(file.0.as_slice(), allow_animation) {
        Ok(frames) => frames,
        Err(_) => {
            return Err(ProxyImageError::BytesOnly(file));
        },
    };
    let transform = select_transform(options);
    if let Transform::NotImplemented = transform {
        return Err(ProxyImageError::StatusCodeOnly(NOT_IMPLEMENTED));
    }
    if !can_apply(&frames, transform) {
        return Err(ProxyImageError::BytesOnly(file));
    }
    let shaped = apply_transform(frames, transform);
    let encoded = encode_image(shaped, options.format);
    finish_image(file.2.as_slice(), options.format, encoded)
}

/// The answer to a request, given what the download came to: the answer
/// that its failure maps to, or what processing makes of the file.
pub fn proxy_image(
    downloaded: Result<DownloadedFile, DownloadImageError>,
    options: &ProxyOptions,
    allow_animation: bool,
) -> (r: Result<ProxiedImage, ProxyImageError>)
    ensures
        match downloaded {
            Err(e) => r == Err::<ProxiedImage, ProxyImageError>(spec_download_failure(e)),
            Ok(file) => is_processed(file, *options, allow_animation, r),
        },
{
    match downloaded {
        Err(e) => Err(download_failure(e)),
        Ok(file) => process_image(file, options, allow_animation),
    }
}

} // verus!
