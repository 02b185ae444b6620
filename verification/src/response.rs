use vstd::prelude::*;
use vstd::string::StrSliceExecFns;
use vstd::string::StringExecFns;
use crate::config::ServerConfig;
use crate::paths::base_name;
use crate::paths::base_name_spec;

verus! {

/// What one request's attempt to open the configured file came to. The
/// handler decides everything from this value and the configuration alone.
pub enum OpenOutcome {
    /// The file opened for reading.
    Opened,
    /// The file could not be opened; the underlying error rendered as text.
    Failed { error: String },
}

/// Mathematical model of an `OpenOutcome`.
pub enum OutcomeModel {
    Opened,
    Failed { error: Seq<char> },
}

impl View for OpenOutcome {
    type V = OutcomeModel;

    open spec fn view(&self) -> OutcomeModel {
        match *self {
            OpenOutcome::Opened => OutcomeModel::Opened,
            OpenOutcome::Failed { error } => OutcomeModel::Failed { error: error@ },
        }
    }
}

/// The two headers a successful download carries.
pub struct DownloadHeaders {
    pub content_type: String,
    pub content_disposition: String,
}

/// Mathematical model of `DownloadHeaders`.
pub struct HeadersModel {
    pub content_type: Seq<char>,
    pub content_disposition: Seq<char>,
}

impl View for DownloadHeaders {
    type V = HeadersModel;

    open spec fn view(&self) -> HeadersModel {
        HeadersModel {
            content_type: self.content_type@,
            content_disposition: self.content_disposition@,
        }
    }
}

/// One request's response: either the download headers, after which the file's
/// bytes are streamed as the body, or a plain-text 404 body.
pub enum DownloadResponse {
    Found { headers: DownloadHeaders },
    NotFound { message: String },
}

/// Mathematical model of a `DownloadResponse`.
pub enum ResponseModel {
    Found { headers: HeadersModel },
    NotFound { message: Seq<char> },
}

impl View for DownloadResponse {
    type V = ResponseModel;

    open spec fn view(&self) -> ResponseModel {
        match *self {
            DownloadResponse::Found { headers } => ResponseModel::Found { headers: headers@ },
            DownloadResponse::NotFound { message } => ResponseModel::NotFound {
                message: message@,
            },
        }
    }
}

/// The media type every download carries; no content-type sniffing.
pub open spec fn content_type_spec() -> Seq<char> {
    "application/binary"@
}

/// The disposition header that forces a download under the given filename.
pub open spec fn disposition_spec(name: Seq<char>) -> Seq<char> {
    "attachment; filename=\""@ + name + "\""@
}

/// The plain-text body of a 404, naming the underlying error.
pub open spec fn not_found_message_spec(error: Seq<char>) -> Seq<char> {
    "File not found: "@ + error
}

/// The status code a response carries: 200 for a download, 404 otherwise.
pub open spec fn status_of(response: ResponseModel) -> u16 {
    match response {
        ResponseModel::Found { .. } => 200,
        ResponseModel::NotFound { .. } => 404,
    }
}

/// The one response a request receives, as a function of the configured path
/// and the open outcome alone: the request's method and path play no part.
pub open spec fn response_spec(path: Seq<char>, outcome: OutcomeModel) -> ResponseModel {
    match outcome {
        OutcomeModel::Opened => ResponseModel::Found {
            headers: HeadersModel {
                content_type: content_type_spec(),
                content_disposition: disposition_spec(base_name_spec(path)),
            },
        },
        OutcomeModel::Failed { error } => ResponseModel::NotFound {
            message: not_found_message_spec(error),
        },
    }
}

/// The value of the `Content-Type` header.
pub fn content_type_value() -> (value: String)
    ensures
        value@ == content_type_spec(),
{
    String::from_str("application/binary")
}

/// The value of the `Content-Disposition` header for the given filename.
pub fn content_disposition_value(name: &str) -> (value: String)
    ensures
        value@ == disposition_spec(name@),
{
    let mut value = String::from_str("attachment; filename=\"");
    value.append(name);
    value.append("\"");
    value
}

/// The 404 body for the given open error.
pub fn not_found_body(error: &str) -> (body: String)
    ensures
        body@ == not_found_message_spec(error@),
{
    let mut body = String::from_str("File not found: ");
    body.append(error);
    body
}

/// Map a request to its response. Every method and every path are accepted and
/// treated alike: when the configured file opened, the response carries the
/// download headers with the file's base name; when it did not, a plain-text
/// 404 naming the error.
pub fn plan_response(
    cfg: &ServerConfig,
    _method: &str,
    _request_path: &str,
    outcome: &OpenOutcome,
) -> (response: DownloadResponse)
    ensures
        response@ == response_spec(cfg@, outcome@),
{
    match outcome {
        OpenOutcome::Opened => {
            let name = base_name(cfg.path.as_str());
            DownloadResponse::Found {
                headers: DownloadHeaders {
                    content_type: content_type_value(),
                    content_disposition: content_disposition_value(name.as_str()),
                },
            }
        },
        OpenOutcome::Failed { error } => DownloadResponse::NotFound {
            message: not_found_body(error.as_str()),
        },
    }
}

impl DownloadResponse {
    /// The HTTP status code this response carries.
    pub fn status(&self) -> (code: u16)
        ensures
            code == status_of(self@),
    {
        match self {
            DownloadResponse::Found { .. } => 200,
            DownloadResponse::NotFound { .. } => 404,
        }
    }
}

/// The request line is ignored: for one configuration and one open outcome,
/// every request receives the same response, whatever its method or path.
pub proof fn lemma_request_line_ignored(
    path: Seq<char>,
    outcome: OutcomeModel,
    r1: ResponseModel,
    r2: ResponseModel,
)
    requires
        r1 == response_spec(path, outcome),
        r2 == response_spec(path, outcome),
    ensures
        r1 == r2,
{
}

/// An existing, readable file downloads: when the open succeeded, the response
/// is a 200 whose disposition filename is exactly the path's base name.
pub proof fn lemma_opened_file_downloads(path: Seq<char>)
    ensures
        status_of(response_spec(path, OutcomeModel::Opened)) == 200,
        response_spec(path, OutcomeModel::Opened) == (ResponseModel::Found {
            headers: HeadersModel {
                content_type: content_type_spec(),
                content_disposition: disposition_spec(base_name_spec(path)),
            },
        }),
{
}

/// A file that cannot be opened yields a 404 with a plain-text message naming
/// the error, for every request, whatever its method or path.
pub proof fn lemma_unopened_file_is_not_found(path: Seq<char>, error: Seq<char>)
    ensures
        status_of(response_spec(path, OutcomeModel::Failed { error })) == 404,
        response_spec(path, OutcomeModel::Failed { error }) == (ResponseModel::NotFound {
            message: not_found_message_spec(error),
        }),
{
}

} // verus!
