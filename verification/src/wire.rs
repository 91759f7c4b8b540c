use crate::json::{json_quoted, quoted};
use crate::options::{
    MoveCopyOption, MoveCopyOptionView, UploadMode, UploadModeView, UploadOption, UploadOptionView,
};
use vstd::prelude::*;

verus! {

/// The host that takes and gives file content.
pub const CONTENT_END_POINT: &'static str = "https://content.dropboxapi.com";

/// The host that takes every other call.
pub const OPERATION_END_POINT: &'static str = "https://api.dropboxapi.com";

/// The calls that the library knows.
#[derive(Clone, Copy, Debug, PartialEq, Eq, Structural)]
pub enum Operation {
    CheckUser,
    Upload,
    Download,
    Move,
    Copy,
}

impl Operation {
    /// The host that serves the operation.
    pub open spec fn end_point(self) -> Seq<char> {
        match self {
            Operation::Upload | Operation::Download => CONTENT_END_POINT@,
            _ => OPERATION_END_POINT@,
        }
    }

    /// The path of the operation on its host.
    pub open spec fn route(self) -> Seq<char> {
        match self {
            Operation::CheckUser => "/2/check/user"@,
            Operation::Upload => "/2/files/upload"@,
            Operation::Download => "/2/files/download"@,
            Operation::Move => "/2/files/move_v2"@,
            Operation::Copy => "/2/files/copy_v2"@,
        }
    }

    /// The address that a request for the operation goes to.
    pub open spec fn url(self) -> Seq<char> {
        self.end_point() + self.route()
    }

    /// Whether a successful call hands back the body of the response.
    pub open spec fn yields_content(self) -> bool {
        self == Operation::Download
    }

    pub fn url_string(self) -> (url: String)
        ensures
            url@ == self.url(),
    {
        match self {
            Operation::CheckUser => String::from_str(OPERATION_END_POINT).concat("/2/check/user"),
            Operation::Upload => String::from_str(CONTENT_END_POINT).concat("/2/files/upload"),
            Operation::Download => String::from_str(CONTENT_END_POINT).concat("/2/files/download"),
            Operation::Move => String::from_str(OPERATION_END_POINT).concat("/2/files/move_v2"),
            Operation::Copy => String::from_str(OPERATION_END_POINT).concat("/2/files/copy_v2"),
        }
    }

    pub fn returns_content(self) -> (yes: bool)
        ensures
            yes == self.yields_content(),
    {
        match self {
            Operation::Download => true,
            _ => false,
        }
    }
}

/// The bearer token of a session. It has no `Debug`, so that it is not
/// printed by accident.
pub struct Credential {
    token: String,
}

impl View for Credential {
    type V = Seq<char>;

    closed spec fn view(&self) -> Seq<char> {
        self.token@
    }
}

impl Credential {
    pub fn new(token: &str) -> (credential: Self)
        ensures
            credential@ == token@,
    {
        Credential { token: String::from_str(token) }
    }

    /// The header that presents the token to the service.
    pub fn authorization(&self) -> (header: Header)
        ensures
            header@ == authorization(self@),
    {
        Header {
            name: String::from_str("Authorization"),
            value: String::from_str("Bearer ").concat(self.token.as_str()),
            sensitive: true,
        }
    }
}

/// One header of a request. The value of a sensitive header is not to be
/// shown in logs or diagnostics, so the type has no `Debug`: a diagnostic
/// shows `shown_value`.
pub struct Header {
    pub name: String,
    pub value: String,
    pub sensitive: bool,
}

pub struct HeaderView {
    pub name: Seq<char>,
    pub value: Seq<char>,
    pub sensitive: bool,
}

impl View for Header {
    type V = HeaderView;

    open spec fn view(&self) -> HeaderView {
        HeaderView { name: self.name@, value: self.value@, sensitive: self.sensitive }
    }
}

impl HeaderView {
    /// What a diagnostic may show of the value: the value itself, or a mask
    /// in place of a sensitive one.
    pub open spec fn shown_value(self) -> Seq<char> {
        if self.sensitive {
            "***"@
        } else {
            self.value
        }
    }
}

impl Header {
    /// The value as a diagnostic may show it.
    pub fn shown_value(&self) -> (shown: &str)
        ensures
            shown@ == self@.shown_value(),
    {
        if self.sensitive {
            "***"
        } else {
            self.value.as_str()
        }
    }
}

/// What a request carries after its headers.
#[derive(Debug)]
pub enum Body {
    Empty,
    Json(String),
    Bytes(Vec<u8>),
}

pub enum BodyView {
    Empty,
    Json(Seq<char>),
    Bytes(Seq<u8>),
}

impl View for Body {
    type V = BodyView;

    open spec fn view(&self) -> BodyView {
        match self {
            Body::Empty => BodyView::Empty,
            Body::Json(text) => BodyView::Json(text@),
            Body::Bytes(bytes) => BodyView::Bytes(bytes@),
        }
    }
}

/// The method of a request. The service takes every call as a POST.
#[derive(Clone, Copy, Debug, PartialEq, Eq, Structural)]
pub enum Method {
    Post,
}

impl Method {
    pub fn as_str(self) -> (name: &'static str)
        ensures
            name@ == "POST"@,
    {
        "POST"
    }
}

/// All that a transport needs to send one call. It holds the credential in
/// a header, so it has no `Debug`.
pub struct Request {
    pub operation: Operation,
    pub method: Method,
    pub url: String,
    pub headers: Vec<Header>,
    pub body: Body,
}

pub struct RequestView {
    pub operation: Operation,
    pub method: Method,
    pub url: Seq<char>,
    pub headers: Seq<HeaderView>,
    pub body: BodyView,
}

impl View for Request {
    type V = RequestView;

    open spec fn view(&self) -> RequestView {
        RequestView {
            operation: self.operation,
            method: self.method,
            url: self.url@,
            headers: self.headers@.map_values(|h: Header| h@),
            body: self.body@,
        }
    }
}

/// Why a request was not built.
#[derive(Clone, Copy, Debug, PartialEq, Eq, Structural)]
pub enum RequestError {
    /// A path is empty.
    EmptyPath,
    /// The upload mode is an update of an empty revision.
    EmptyRevision,
}

pub open spec fn authorization(token: Seq<char>) -> HeaderView {
    HeaderView { name: "Authorization"@, value: "Bearer "@ + token, sensitive: true }
}

pub open spec fn content_type(value: Seq<char>) -> HeaderView {
    HeaderView { name: "Content-Type"@, value, sensitive: false }
}

pub open spec fn api_arg(value: Seq<char>) -> HeaderView {
    HeaderView { name: "Dropbox-API-Arg"@, value, sensitive: false }
}

/// The JSON writing of a flag.
pub open spec fn flag_text(flag: bool) -> Seq<char> {
    if flag {
        "true"@
    } else {
        "false"@
    }
}

/// The JSON writing of an upload mode: a bare tag, or for an update the
/// tag with the revision beside it.
pub open spec fn mode_text(mode: UploadModeView) -> Seq<char> {
    match mode {
        UploadModeView::Add => "\"add\""@,
        UploadModeView::Overwrite => "\"overwrite\""@,
        UploadModeView::Update(rev) => "{\"tag\":\"update\",\"rev\":"@ + json_quoted(rev) + "}"@,
    }
}

/// The body of a check of the user: `{"query":ping}`.
pub open spec fn check_user_body(ping: Seq<char>) -> Seq<char> {
    "{\"query\":"@ + json_quoted(ping) + "}"@
}

/// The argument of an upload:
/// `{"path":..,"mode":..,"autorename":..,"mute":..,"strict_conflict":..}`.
pub open spec fn upload_arg(path: Seq<char>, option: UploadOptionView) -> Seq<char> {
    "{\"path\":"@ + json_quoted(path) + ",\"mode\":"@ + mode_text(option.mode)
        + ",\"autorename\":"@ + flag_text(option.allow_auto_rename) + ",\"mute\":"@ + flag_text(
        option.mute_notification,
    ) + ",\"strict_conflict\":"@ + flag_text(option.allow_strict_conflict) + "}"@
}

/// The argument of a download: `{"path":..}`.
pub open spec fn download_arg(path: Seq<char>) -> Seq<char> {
    "{\"path\":"@ + json_quoted(path) + "}"@
}

/// The body of a move or a copy: `{"from_path":..,"to_path":..,
/// "allow_shared_folder":..,"autorename":..,"allow_ownership_transfer":..}`.
pub open spec fn relocation_body(
    from_path: Seq<char>,
    to_path: Seq<char>,
    option: MoveCopyOptionView,
) -> Seq<char> {
    "{\"from_path\":"@ + json_quoted(from_path) + ",\"to_path\":"@ + json_quoted(to_path)
        + ",\"allow_shared_folder\":"@ + flag_text(option.allow_shared_folder)
        + ",\"autorename\":"@ + flag_text(option.auto_rename)
        + ",\"allow_ownership_transfer\":"@ + flag_text(option.allow_ownership_transfer) + "}"@
}

pub open spec fn check_user_request(token: Seq<char>, ping: Seq<char>) -> RequestView {
    RequestView {
        operation: Operation::CheckUser,
        method: Method::Post,
        url: Operation::CheckUser.url(),
        headers: seq![authorization(token), content_type("application/json"@)],
        body: BodyView::Json(check_user_body(ping)),
    }
}

pub open spec fn upload_request(
    token: Seq<char>,
    file: Seq<u8>,
    path: Seq<char>,
    option: UploadOptionView,
) -> RequestView {
    RequestView {
        operation: Operation::Upload,
        method: Method::Post,
        url: Operation::Upload.url(),
        headers: seq![
            authorization(token),
            content_type("application/octet-stream"@),
            api_arg(upload_arg(path, option)),
        ],
        body: BodyView::Bytes(file),
    }
}

pub open spec fn download_request(token: Seq<char>, path: Seq<char>) -> RequestView {
    RequestView {
        operation: Operation::Download,
        method: Method::Post,
        url: Operation::Download.url(),
        headers: seq![authorization(token), api_arg(download_arg(path))],
        body: BodyView::Empty,
    }
}

pub open spec fn relocation_request(
    operation: Operation,
    token: Seq<char>,
    from_path: Seq<char>,
    to_path: Seq<char>,
    option: MoveCopyOptionView,
) -> RequestView {
    RequestView {
        operation,
        method: Method::Post,
        url: operation.url(),
        headers: seq![authorization(token), content_type("application/json"@)],
        body: BodyView::Json(relocation_body(from_path, to_path, option)),
    }
}

fn content_type_header(value: &str) -> (header: Header)
    ensures
        header@ == content_type(value@),
{
    Header { name: String::from_str("Content-Type"), value: String::from_str(value), sensitive: false }
}

fn api_arg_header(value: String) -> (header: Header)
    ensures
        header@ == api_arg(value@),
{
    Header { name: String::from_str("Dropbox-API-Arg"), value, sensitive: false }
}

fn push_flag(out: &mut String, flag: bool)
    ensures
        final(out)@ == old(out)@ + flag_text(flag),
{
    if flag {
        out.append("true");
    } else {
        out.append("false");
    }
}

fn push_quoted(out: &mut String, text: &str)
    ensures
        final(out)@ == old(out)@ + json_quoted(text@),
{
    let literal = quoted(text);
    out.append(literal.as_str());
}

fn push_mode(out: &mut String, mode: &UploadMode)
    ensures
        final(out)@ == old(out)@ + mode_text(mode@),
{
    match mode {
        UploadMode::Add => {
            out.append("\"add\"");
        },
        UploadMode::Overwrite => {
            out.append("\"overwrite\"");
        },
        UploadMode::Update(rev) => {
            out.append("{\"tag\":\"update\",\"rev\":");
            push_quoted(out, rev.as_str());
            out.append("}");
            assert(final(out)@ =~= old(out)@ + mode_text(mode@));
        },
    }
}

/// Writes the body of a check of the user.
pub fn encode_check_user(ping: &str) -> (text: String)
    ensures
        text@ == check_user_body(ping@),
{
    let mut text = String::from_str("{\"query\":");
    push_quoted(&mut text, ping);
    text.append("}");
    text
}

/// Writes the argument of an upload.
pub fn encode_upload_arg(path: &str, option: &UploadOption) -> (text: String)
    ensures
        text@ == upload_arg(path@, option@),
{
    let mut text = String::from_str("{\"path\":");
    push_quoted(&mut text, path);
    text.append(",\"mode\":");
    push_mode(&mut text, option.mode());
    text.append(",\"autorename\":");
    push_flag(&mut text, option.auto_rename_allowed());
    text.append(",\"mute\":");
    push_flag(&mut text, option.notification_muted());
    text.append(",\"strict_conflict\":");
    push_flag(&mut text, option.strict_conflict_allowed());
    text.append("}");
    text
}

/// Writes the argument of a download.
pub fn encode_download_arg(path: &str) -> (text: String)
    ensures
        text@ == download_arg(path@),
{
    let mut text = String::from_str("{\"path\":");
    push_quoted(&mut text, path);
    text.append("}");
    text
}

/// Writes the body of a move or a copy.
pub fn encode_relocation(from_path: &str, to_path: &str, option: &MoveCopyOption) -> (text: String)
    ensures
        text@ == relocation_body(from_path@, to_path@, option@),
{
    let mut text = String::from_str("{\"from_path\":");
    push_quoted(&mut text, from_path);
    text.append(",\"to_path\":");
    push_quoted(&mut text, to_path);
    text.append(",\"allow_shared_folder\":");
    push_flag(&mut text, option.shared_folder_allowed());
    text.append(",\"autorename\":");
    push_flag(&mut text, option.auto_rename_allowed());
    text.append(",\"allow_ownership_transfer\":");
    push_flag(&mut text, option.ownership_transfer_allowed());
    text.append("}");
    text
}

/// The request that checks the user: the service is to send `ping` back.
pub fn check_user(credential: &Credential, ping: &str) -> (request: Request)
    ensures
        request@ == check_user_request(credential@, ping@),
{
    let mut headers: Vec<Header> = Vec::new();
    headers.push(credential.authorization());
    headers.push(content_type_header("application/json"));
    let request = Request {
        operation: Operation::CheckUser,
        method: Method::Post,
        url: Operation::CheckUser.url_string(),
        headers,
        body: Body::Json(encode_check_user(ping)),
    };
    assert(request@.headers =~= check_user_request(credential@, ping@).headers);
    request
}

/// The request that uploads `file` to `path`. It is refused for an empty
/// path and for an update of an empty revision.
pub fn upload(
    credential: &Credential,
    file: Vec<u8>,
    path: &str,
    option: &UploadOption,
) -> (built: Result<Request, RequestError>)
    ensures
        path@.len() == 0 ==> built == Err::<Request, RequestError>(RequestError::EmptyPath),
        path@.len() > 0 && !option@.wf() ==> built == Err::<Request, RequestError>(
            RequestError::EmptyRevision,
        ),
        path@.len() > 0 && option@.wf() ==> built is Ok && built->Ok_0@ == upload_request(
            credential@,
            file@,
            path@,
            option@,
        ),
{
    if path.unicode_len() == 0 {
        return Err(RequestError::EmptyPath);
    }
    if !option.mode().is_wf() {
        return Err(RequestError::EmptyRevision);
    }
    let mut headers: Vec<Header> = Vec::new();
    headers.push(credential.authorization());
    headers.push(content_type_header("application/octet-stream"));
    headers.push(api_arg_header(encode_upload_arg(path, option)));
    let request = Request {
        operation: Operation::Upload,
        method: Method::Post,
        url: Operation::Upload.url_string(),
        headers,
        body: Body::Bytes(file),
    };
    assert(request@.headers =~= upload_request(credential@, file@, path@, option@).headers);
    Ok(request)
}

/// The request that downloads the file at `path`. It is refused for an
/// empty path.
pub fn download(credential: &Credential, path: &str) -> (built: Result<Request, RequestError>)
    ensures
        path@.len() == 0 ==> built == Err::<Request, RequestError>(RequestError::EmptyPath),
        path@.len() > 0 ==> built is Ok && built->Ok_0@ == download_request(credential@, path@),
{
    if path.unicode_len() == 0 {
        return Err(RequestError::EmptyPath);
    }
    let mut headers: Vec<Header> = Vec::new();
    headers.push(credential.authorization());
    headers.push(api_arg_header(encode_download_arg(path)));
    let request = Request {
        operation: Operation::Download,
        method: Method::Post,
        url: Operation::Download.url_string(),
        headers,
        body: Body::Empty,
    };
    assert(request@.headers =~= download_request(credential@, path@).headers);
    Ok(request)
}

fn relocation(
    operation: Operation,
    credential: &Credential,
    from_path: &str,
    to_path: &str,
    option: &MoveCopyOption,
) -> (built: Result<Request, RequestError>)
    ensures
        from_path@.len() == 0 || to_path@.len() == 0 ==> built == Err::<Request, RequestError>(
            RequestError::EmptyPath,
        ),
        from_path@.len() > 0 && to_path@.len() > 0 ==> built is Ok && built->Ok_0@
            == relocation_request(operation, credential@, from_path@, to_path@, option@),
{
    if from_path.unicode_len() == 0 || to_path.unicode_len() == 0 {
        return Err(RequestError::EmptyPath);
    }
    let mut headers: Vec<Header> = Vec::new();
    headers.push(credential.authorization());
    headers.push(content_type_header("application/json"));
    let request = Request {
        operation,
        method: Method::Post,
        url: operation.url_string(),
        headers,
        body: Body::Json(encode_relocation(from_path, to_path, option)),
    };
    assert(request@.headers =~= relocation_request(
        operation,
        credential@,
        from_path@,
        to_path@,
        option@,
    ).headers);
    Ok(request)
}

/// The request that moves the file at `from_path` to `to_path`. It is
/// refused where one of the paths is empty.
pub fn move_file(
    credential: &Credential,
    from_path: &str,
    to_path: &str,
    option: &MoveCopyOption,
) -> (built: Result<Request, RequestError>)
    ensures
        from_path@.len() == 0 || to_path@.len() == 0 ==> built == Err::<Request, RequestError>(
            RequestError::EmptyPath,
        ),
        from_path@.len() > 0 && to_path@.len() > 0 ==> built is Ok && built->Ok_0@
            == relocation_request(Operation::Move, credential@, from_path@, to_path@, option@),
{
    relocation(Operation::Move, credential, from_path, to_path, option)
}

/// The request that copies the file at `from_path` to `to_path`. It is
/// refused where one of the paths is empty.
pub fn copy(
    credential: &Credential,
    from_path: &str,
    to_path: &str,
    option: &MoveCopyOption,
) -> (built: Result<Request, RequestError>)
    ensures
        from_path@.len() == 0 || to_path@.len() == 0 ==> built == Err::<Request, RequestError>(
            RequestError::EmptyPath,
        ),
        from_path@.len() > 0 && to_path@.len() > 0 ==> built is Ok && built->Ok_0@
            == relocation_request(Operation::Copy, credential@, from_path@, to_path@, option@),
{
    relocation(Operation::Copy, credential, from_path, to_path, option)
}

} // verus!
