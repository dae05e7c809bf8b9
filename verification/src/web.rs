//! What the HTTP routes answer: authentication of the guarded routes, the
//! WiFi provisioning steps, the status document, and where each served file
//! comes from.

use vstd::prelude::*;
use vstd::utf8::*;
use crate::storage::WifiConfig;
use crate::text::str_eq;
use crate::utils::{
    content_type_of, sanitize_error_message, sanitize_path, sanitized_message,
    validate_wifi_credentials, wifi_credentials_valid, path_rejected, credentials_verdict,
};

verus! {

/// Filesystem path of the provisioning page (or of a custom application).
pub const INDEX_PATH: &'static str = "/www/index.html";

/// Filesystem path of the connected-status page.
pub const CONNECTED_PATH: &'static str = "/www/connected.html";

/// Filesystem path of the not-found page.
pub const NOT_FOUND_PATH: &'static str = "/www/404.html";

/// Request header that carries the OTA key.
pub const OTA_KEY_HEADER: &'static str = "X-OTA-Key";

/// The OTA key used when none was configured at build time.
pub const DEFAULT_OTA_KEY: &'static str = "change-me-in-production";

/// Largest provisioning request body that is read.
pub const PROVISION_BODY_LIMIT: usize = 512;

/// The routes of the server.
#[derive(Debug, Clone, Copy, PartialEq, Eq, Structural)]
pub enum Endpoint {
    /// `GET /`: provisioning or status page.
    Root,
    /// `POST /api/wifi`: submit WiFi credentials.
    ProvisionWifi,
    /// `GET /api/status`: device status as JSON.
    ApiStatus,
    /// `DELETE /api/wifi`: clear WiFi credentials.
    ForgetWifi,
    /// `POST /ota/fs`: upload a filesystem image.
    FilesystemOta,
    /// `GET /status`: status page.
    StatusPage,
    /// `GET /*`: static file.
    StaticFile,
}

/// An HTTP answer, and whether the device restarts once it is sent.
pub struct Reply {
    pub status: u16,
    /// `Content-Type` header, when one is sent.
    pub content_type: Option<&'static str>,
    pub body: String,
    pub reboot: bool,
}

/// `r` is a plain answer (no `Content-Type` header) with this status,
/// body and restart decision.
pub open spec fn plain_reply(r: Reply, status: u16, body: Seq<char>, reboot: bool) -> bool {
    &&& r.status == status
    &&& r.content_type is None
    &&& r.body@ == body
    &&& r.reboot == reboot
}

/// A plain answer.
fn plain(status: u16, body: &str, reboot: bool) -> (r: Reply)
    ensures
        plain_reply(r, status, body@, reboot),
{
    Reply { status, content_type: None, body: body.to_owned(), reboot }
}

/// The routes that answer only requests carrying the OTA key.
pub open spec fn endpoint_requires_auth(e: Endpoint) -> bool {
    e == Endpoint::ApiStatus || e == Endpoint::ForgetWifi || e == Endpoint::FilesystemOta
}

/// Whether the route `e` answers only requests carrying the OTA key.
pub fn requires_auth(e: Endpoint) -> (r: bool)
    ensures
        r == endpoint_requires_auth(e),
{
    match e {
        Endpoint::ApiStatus | Endpoint::ForgetWifi | Endpoint::FilesystemOta => true,
        _ => false,
    }
}

/// The request's OTA-key header (if any) equals the configured key.
pub open spec fn key_matches(header: Option<&str>, ota_key: &str) -> bool {
    header matches Some(h) && h@ == ota_key@
}

/// Whether the `X-OTA-Key` header value (if the request had one) equals
/// the configured key, compared in constant time.
pub fn check_auth(header: Option<&str>, ota_key: &str) -> (r: bool)
    ensures
        r == key_matches(header, ota_key),
{
    match header {
        Some(v) => crate::utils::constant_time_eq(v, ota_key),
        None => false,
    }
}

/// The answer to a request on `e` before its handler runs: `None` lets the
/// handler run; a guarded route without the right key gets 401.
pub fn authorize(e: Endpoint, header: Option<&str>, ota_key: &str) -> (r: Option<Reply>)
    ensures
        r is None <==> (!endpoint_requires_auth(e) || key_matches(header, ota_key)),
        r matches Some(reply) ==> plain_reply(reply, 401, "Unauthorized"@, false),
{
    if requires_auth(e) && !check_auth(header, ota_key) {
        Some(plain(401, "Unauthorized", false))
    } else {
        None
    }
}

/// Whether `key` is the insecure default OTA key.
pub fn is_default_ota_key(key: &str) -> (r: bool)
    ensures
        r == (key@ == DEFAULT_OTA_KEY@),
{
    str_eq(key, DEFAULT_OTA_KEY)
}

/// The page served at `/`: the provisioning page until credentials are
/// stored; afterwards a custom `index.html` on the filesystem if there is
/// one, else the connected-status page.
pub fn root_page(provisioned: bool, custom_index_exists: bool) -> (r: &'static str)
    ensures
        r@ == (if provisioned && !custom_index_exists {
            CONNECTED_PATH@
        } else {
            INDEX_PATH@
        }),
{
    if provisioned {
        if custom_index_exists {
            INDEX_PATH
        } else {
            CONNECTED_PATH
        }
    } else {
        INDEX_PATH
    }
}

/// Calls `std::str::from_utf8`: the bytes are accepted exactly when they
/// are valid UTF-8, and then read as the characters they encode.
#[verifier::external_body]
fn str_from_utf8<'a>(bytes: &'a [u8]) -> (r: Option<&'a str>)
    ensures
        r is Some <==> valid_utf8(bytes@),
        r matches Some(s) ==> s@ == decode_utf8(bytes@),
{
    std::str::from_utf8(bytes).ok()
}

/// First provisioning step: the body that was read (`None`: the read
/// failed) as text, or the 400 answer.
pub fn provisioning_body<'a>(read: Option<&'a [u8]>) -> (r: Result<&'a str, Reply>)
    ensures
        read is None ==> (r matches Err(reply) && plain_reply(
            reply,
            400,
            "Failed to read request"@,
            false,
        )),
        read matches Some(b) ==> (!valid_utf8(b@) ==> (r matches Err(reply) && plain_reply(
            reply,
            400,
            "Invalid UTF-8"@,
            false,
        ))),
        read matches Some(b) ==> (valid_utf8(b@) ==> (r matches Ok(s) && s@ == decode_utf8(b@))),
{
    match read {
        None => Err(plain(400, "Failed to read request", false)),
        Some(bytes) => match str_from_utf8(bytes) {
            Some(s) => Ok(s),
            None => Err(plain(400, "Invalid UTF-8", false)),
        },
    }
}

/// Second provisioning step, on the outcome of parsing the body as a JSON
/// configuration (`Err` holds the parser's message): credentials that pass
/// validation are to be saved; anything else is answered 400 without
/// revealing parser details.
pub fn provisioning_credentials(parsed: Result<WifiConfig, String>) -> (r: Result<WifiConfig, Reply>)
    ensures
        parsed matches Err(msg) ==> (r matches Err(reply) && plain_reply(
            reply,
            400,
            sanitized_message(msg@),
            false,
        )),
        parsed matches Ok(c) ==> (wifi_credentials_valid(c.ssid@, c.password@) ==> (
        r matches Ok(d) && d.ssid@ == c.ssid@ && d.password@ == c.password@)),
        parsed matches Ok(c) ==> (!wifi_credentials_valid(c.ssid@, c.password@)
            ==> (r matches Err(reply) && reply.status == 400 && reply.content_type is None
            && !reply.reboot && (credentials_verdict(c.ssid@, c.password@) matches Err(m)
            && reply.body@ == m@))),
        r matches Ok(d) ==> wifi_credentials_valid(d.ssid@, d.password@),
{
    match parsed {
        Err(msg) => Err(
            Reply {
                status: 400,
                content_type: None,
                body: sanitize_error_message(msg.as_str()),
                reboot: false,
            },
        ),
        Ok(config) => match validate_wifi_credentials(config.ssid.as_str(), config.password.as_str()) {
            Err(m) => Err(plain(400, m, false)),
            Ok(()) => Ok(config),
        },
    }
}

/// Last provisioning step, on whether the credentials were stored: on
/// success the device restarts to join the network.
pub fn provisioning_saved(saved: bool) -> (r: Reply)
    ensures
        saved ==> plain_reply(r, 200, "WiFi credentials saved. Rebooting..."@, true),
        !saved ==> plain_reply(r, 500, "Failed to save configuration"@, false),
{
    if saved {
        plain(200, "WiFi credentials saved. Rebooting...", true)
    } else {
        plain(500, "Failed to save configuration", false)
    }
}

/// The answer to `DELETE /api/wifi`, on whether the credentials were
/// cleared: on success the device restarts into provisioning mode.
pub fn forget_reply(cleared: bool) -> (r: Reply)
    ensures
        cleared ==> plain_reply(r, 200, "WiFi credentials cleared"@, true),
        !cleared ==> plain_reply(r, 500, "Failed to clear WiFi configuration"@, false),
{
    if cleared {
        plain(200, "WiFi credentials cleared", true)
    } else {
        plain(500, "Failed to clear WiFi configuration", false)
    }
}

/// The answer to `POST /ota/fs`, on whether the image was written: on
/// success the device restarts to mount it.
pub fn ota_reply(succeeded: bool) -> (r: Reply)
    ensures
        succeeded ==> plain_reply(
            r,
            200,
            "Filesystem updated successfully. Reboot to apply changes."@,
            true,
        ),
        !succeeded ==> plain_reply(r, 500, "OTA update failed"@, false),
{
    if succeeded {
        plain(200, "Filesystem updated successfully. Reboot to apply changes.", true)
    } else {
        plain(500, "OTA update failed", false)
    }
}

/// The filesystem path for a static-file request on `uri`, or the 400
/// answer when the path is refused.
pub fn static_file_request(uri: &str) -> (r: Result<String, Reply>)
    ensures
        r is Ok <==> !path_rejected(uri@),
        r matches Ok(p) ==> p@ == "/www"@ + uri@,
        r matches Err(reply) ==> plain_reply(reply, 400, "Invalid path"@, false),
{
    match sanitize_path(uri) {
        Some(p) => Ok(p),
        None => Err(plain(400, "Invalid path", false)),
    }
}

/// The pages compiled into the firmware, served when the filesystem
/// lacks them.
pub struct EmbeddedFiles {
    pub index: &'static str,
    pub connected: &'static str,
    pub not_found: &'static str,
}

/// The three page paths are distinct.
proof fn lemma_page_paths_distinct()
    ensures
        INDEX_PATH@ != CONNECTED_PATH@,
        INDEX_PATH@ != NOT_FOUND_PATH@,
        CONNECTED_PATH@ != NOT_FOUND_PATH@,
{
    reveal_strlit("/www/index.html");
    reveal_strlit("/www/connected.html");
    reveal_strlit("/www/404.html");
    assert(INDEX_PATH@.len() != CONNECTED_PATH@.len());
    assert(INDEX_PATH@.len() != NOT_FOUND_PATH@.len());
    assert(CONNECTED_PATH@.len() != NOT_FOUND_PATH@.len());
}

/// The compiled-in page for `path`, with its content type.
pub fn get_embedded_file(files: &EmbeddedFiles, path: &str) -> (r: Option<(&'static str, &'static str)>)
    ensures
        path@ == INDEX_PATH@ ==> r == Some((files.index, "text/html")),
        path@ == CONNECTED_PATH@ ==> r == Some((files.connected, "text/html")),
        path@ == NOT_FOUND_PATH@ ==> r == Some((files.not_found, "text/html")),
        path@ != INDEX_PATH@ && path@ != CONNECTED_PATH@ && path@ != NOT_FOUND_PATH@ ==> r is None,
{
    proof {
        lemma_page_paths_distinct();
    }
    if str_eq(path, INDEX_PATH) {
        Some((files.index, "text/html"))
    } else if str_eq(path, CONNECTED_PATH) {
        Some((files.connected, "text/html"))
    } else if str_eq(path, NOT_FOUND_PATH) {
        Some((files.not_found, "text/html"))
    } else {
        None
    }
}

/// Where the answer for a file request comes from.
#[derive(Debug, Clone, Copy)]
pub enum ServePlan {
    /// The file read from the filesystem, sent with this content type.
    Filesystem { content_type: &'static str },
    /// A compiled-in page.
    Embedded { content: &'static str, content_type: &'static str },
    /// 404, with the filesystem's not-found page if it can be read, else
    /// `fallback`.
    NotFound { fallback: &'static str },
}

/// Chooses the answer for a request of the file at `path`, given whether
/// the filesystem could read it: the filesystem first, then the
/// compiled-in pages, then 404.
pub fn serve_plan(path: &str, on_filesystem: bool, files: &EmbeddedFiles) -> (r: ServePlan)
    ensures
        on_filesystem ==> (r matches ServePlan::Filesystem { content_type } && content_type@
            == content_type_of(path@)),
        !on_filesystem && (path@ == INDEX_PATH@ || path@ == CONNECTED_PATH@ || path@
            == NOT_FOUND_PATH@) ==> (r matches ServePlan::Embedded { content, content_type } && (
        path@ == INDEX_PATH@ ==> content == files.index) && (path@ == CONNECTED_PATH@ ==> content
            == files.connected) && (path@ == NOT_FOUND_PATH@ ==> content == files.not_found)
            && content_type == "text/html"),
        !on_filesystem && path@ != INDEX_PATH@ && path@ != CONNECTED_PATH@ && path@
            != NOT_FOUND_PATH@ ==> r == (ServePlan::NotFound { fallback: files.not_found }),
{
    if on_filesystem {
        ServePlan::Filesystem { content_type: crate::utils::get_content_type(path) }
    } else {
        match get_embedded_file(files, path) {
            Some((content, content_type)) => ServePlan::Embedded { content, content_type },
            None => ServePlan::NotFound { fallback: files.not_found },
        }
    }
}

} // verus!
