//! The host side of WOPI, the protocol by which document editors read and
//! write files.
//!
//! Tokens, locks, files and the discovery of editors lie outside. Each type
//! below stands for one request to them; the method that takes the reply says
//! what comes next.

use vstd::prelude::*;
use vstd::string::*;

use crate::clock::UtcTime;
use crate::identifier;
use crate::identifier::Uuid;
use crate::numbers;
use crate::numbers::to_signed_64;
use crate::text;
use crate::text::{
    decimal_text, escape_html, same_text, signed_decimal_text, tail_after_last, to_lowercase,
};

verus! {

/// The addresses of this server.
#[derive(Debug)]
pub struct WopiState {
    /// The address under which browsers reach it.
    pub public_base_url: String,
    /// The address under which editors reach it.
    pub wopi_base_url: String,
}

/// The token that comes with each request.
#[derive(Debug)]
pub struct WopiTokenQuery {
    pub access_token: String,
}

/// What a valid token says.
#[derive(Debug)]
pub struct WopiClaims {
    /// The file that the token is for.
    pub file_id: String,
    /// The user that the token was given to.
    pub sub: String,
    pub username: String,
    pub can_write: bool,
}

/// What is known of a file.
#[derive(Debug)]
pub struct FileDto {
    pub name: String,
    pub path: String,
    pub mime_type: String,
    pub owner_id: Option<String>,
    pub size: u64,
    /// Seconds since the Unix epoch.
    pub modified_at: u64,
}

/// What an editor learns of a file before it opens it.
#[derive(Debug)]
pub struct CheckFileInfoResponse {
    pub base_file_name: String,
    pub owner_id: String,
    pub size: u64,
    pub user_id: String,
    pub version: String,
    pub supports_locks: bool,
    pub supports_update: bool,
    pub supports_rename: bool,
    pub user_can_write: bool,
    pub user_friendly_name: String,
    pub post_message_origin: String,
    pub last_modified_time: String,
    pub close_url: String,
}

/// Which file is to be opened, and how.
#[derive(Debug)]
pub struct EditorUrlParams {
    pub file_id: String,
    pub action: String,
}

/// Where a file is opened, and with which token.
#[derive(Debug)]
pub struct EditorUrlResponse {
    pub editor_url: String,
    pub access_token: String,
    pub access_token_ttl: i64,
}

/// An answer by its status, with the lock that it names, if any, and its
/// text.
#[derive(Debug)]
pub struct WopiReply {
    pub status: u16,
    pub lock: Option<String>,
    pub body: String,
}

pub const OK: u16 = 200;

pub const BAD_REQUEST: u16 = 400;

pub const UNAUTHORIZED: u16 = 401;

pub const NOT_FOUND: u16 = 404;

pub const CONFLICT: u16 = 409;

pub const UNPROCESSABLE_ENTITY: u16 = 422;

pub const INTERNAL_SERVER_ERROR: u16 = 500;

pub const NOT_IMPLEMENTED: u16 = 501;

impl WopiReply {
    /// The answer has that status and text and names no lock.
    pub open spec fn is_plain(self, status: u16, body: Seq<char>) -> bool {
        self.status == status && self.lock is None && self.body@ == body
    }

    /// The answer has that status and text and names that lock.
    pub open spec fn names_lock(self, status: u16, lock: Seq<char>, body: Seq<char>) -> bool {
        self.status == status && self.body@ == body && (self.lock matches Some(held) && held@
            == lock)
    }

    fn bare(status: u16) -> (reply: WopiReply)
        ensures
            reply.is_plain(status, seq![]),
    {
        let body = String::new();
        proof {
            assert(body@ =~= seq![]);
        }
        WopiReply { status, lock: None, body }
    }

    fn text(status: u16, body: String) -> (reply: WopiReply)
        ensures
            reply.is_plain(status, body@),
    {
        WopiReply { status, lock: None, body }
    }

    fn with_lock(status: u16, lock: String, body: &str) -> (reply: WopiReply)
        ensures
            reply.names_lock(status, lock@, body@),
    {
        WopiReply { status, lock: Some(lock), body: body.to_owned() }
    }
}

/// `outcome` is an answer with that status and nothing else.
pub open spec fn is_refused<T>(outcome: Result<T, WopiReply>, status: u16) -> bool {
    outcome is Err && outcome->Err_0.is_plain(status, seq![])
}

// ── Tokens ──────────────────────────────────────────────────────────────────

/// The claims of a valid token allow access to that file.
pub open spec fn admits(claims: Option<WopiClaims>, file_id: Seq<char>) -> bool {
    claims matches Some(c) && c.file_id@ == file_id
}

/// Lets a request pass whose token is valid and was given for that file.
/// `claims` are those of the token, where it is valid.
pub fn authorize(claims: Option<WopiClaims>, file_id: &str) -> (outcome: Result<
    WopiClaims,
    WopiReply,
>)
    ensures
        if admits(claims, file_id@) {
            outcome == Ok::<WopiClaims, WopiReply>(claims->0)
        } else {
            is_refused(outcome, UNAUTHORIZED)
        },
{
    match claims {
        Some(c) => {
            if same_text(c.file_id.as_str(), file_id) {
                Ok(c)
            } else {
                Err(WopiReply::bare(UNAUTHORIZED))
            }
        },
        None => Err(WopiReply::bare(UNAUTHORIZED)),
    }
}

// ── Reading ─────────────────────────────────────────────────────────────────

/// The answer to the question for a file: `info` describes `file` to the
/// bearer of `claims`.
pub open spec fn informs(
    state: WopiState,
    claims: WopiClaims,
    file: FileDto,
    info: CheckFileInfoResponse,
) -> bool {
    &&& info.base_file_name == file.name
    &&& info.owner_id == match file.owner_id {
        Some(owner) => owner,
        None => claims.sub,
    }
    &&& info.size == file.size
    &&& info.user_id == claims.sub
    &&& info.version@ == text::decimal(file.modified_at as nat)
    &&& info.supports_locks
    &&& info.supports_update == claims.can_write
    &&& !info.supports_rename
    &&& info.user_can_write == claims.can_write
    &&& info.user_friendly_name == claims.username
    &&& info.post_message_origin == state.public_base_url
    &&& info.last_modified_time@ == (UtcTime {
        secs: numbers::signed_64(file.modified_at) as i64,
        nanos: 0,
    }).written()
    &&& info.close_url == state.public_base_url
}

impl WopiState {
    /// Answers the question for a file, where it exists.
    pub fn check_file_info(&self, claims: &WopiClaims, file: Option<FileDto>) -> (outcome: Result<
        CheckFileInfoResponse,
        WopiReply,
    >)
        ensures
            match file {
                Some(f) => outcome is Ok && informs(*self, *claims, f, outcome->Ok_0),
                None => is_refused(outcome, NOT_FOUND),
            },
    {
        match file {
            None => Err(WopiReply::bare(NOT_FOUND)),
            Some(f) => {
                let modified = UtcTime { secs: to_signed_64(f.modified_at), nanos: 0 };
                let owner_id = match f.owner_id {
                    Some(owner) => owner,
                    None => claims.sub.clone(),
                };
                Ok(
                    CheckFileInfoResponse {
                        base_file_name: f.name,
                        owner_id,
                        size: f.size,
                        user_id: claims.sub.clone(),
                        version: decimal_text(f.modified_at as u128),
                        supports_locks: true,
                        supports_update: claims.can_write,
                        supports_rename: false,
                        user_can_write: claims.can_write,
                        user_friendly_name: claims.username.clone(),
                        post_message_origin: self.public_base_url.clone(),
                        last_modified_time: modified.to_rfc3339(),
                        close_url: self.public_base_url.clone(),
                    },
                )
            },
        }
    }
}

/// Hands out the content of a file, where it exists.
pub fn get_file<S>(content: Option<S>) -> (outcome: Result<S, WopiReply>)
    ensures
        match content {
            Some(stream) => outcome == Ok::<S, WopiReply>(stream),
            None => is_refused(outcome, NOT_FOUND),
        },
{
    match content {
        Some(stream) => Ok(stream),
        None => Err(WopiReply::bare(NOT_FOUND)),
    }
}

// ── Writing ─────────────────────────────────────────────────────────────────

/// Ask for the lock on the file.
pub struct PutFile {
    pub file_id: String,
}

/// Ask for the file.
pub struct FetchTarget {
    pub file_id: String,
}

/// Store the content of the request.
#[derive(Debug)]
pub struct IngestBody {
    pub name: String,
    pub path: String,
    pub content_type: String,
}

/// Give the file the content that was stored.
#[derive(Debug)]
pub struct UpdateFile {
    pub path: String,
    pub content_type: String,
}

/// `next` follows from a request to write a file: the token has to be for that
/// file and to allow writing.
pub open spec fn is_put_step(
    next: Result<PutFile, WopiReply>,
    claims: Option<WopiClaims>,
    file_id: Seq<char>,
) -> bool {
    if admits(claims, file_id) && claims->0.can_write {
        next matches Ok(put) && put.file_id@ == file_id
    } else {
        is_refused(next, UNAUTHORIZED)
    }
}

/// Writes a file, where the token allows it.
pub fn put_file(claims: Option<WopiClaims>, file_id: &str) -> (next: Result<PutFile, WopiReply>)
    ensures
        is_put_step(next, claims, file_id@),
{
    match authorize(claims, file_id) {
        Err(reply) => Err(reply),
        Ok(c) => {
            if c.can_write {
                Ok(PutFile { file_id: file_id.to_owned() })
            } else {
                Err(WopiReply::bare(UNAUTHORIZED))
            }
        },
    }
}

/// A request with the lock `request` may write a file with the lock `current`:
/// the file is not locked, or the request holds its lock.
pub open spec fn holds_lock(request: Option<String>, current: Option<String>) -> bool {
    match current {
        Some(held) => request matches Some(lock) && lock@ == held@,
        None => true,
    }
}

impl PutFile {
    /// Takes the lock that the request names and the one that is held. A
    /// request that does not hold the lock is told which one is held.
    pub fn locked(self, request: Option<String>, current: Option<String>) -> (next: Result<
        FetchTarget,
        WopiReply,
    >)
        ensures
            if holds_lock(request, current) {
                next == Ok::<_, WopiReply>(FetchTarget { file_id: self.file_id })
            } else {
                next is Err && next->Err_0.names_lock(CONFLICT, current->0@, "Lock mismatch"@)
            },
    {
        match current {
            None => Ok(FetchTarget { file_id: self.file_id }),
            Some(held) => {
                let holds = match &request {
                    Some(lock) => same_text(lock.as_str(), held.as_str()),
                    None => false,
                };
                if holds {
                    Ok(FetchTarget { file_id: self.file_id })
                } else {
                    Err(WopiReply::with_lock(CONFLICT, held, "Lock mismatch"))
                }
            },
        }
    }
}

impl FetchTarget {
    pub fn found(self, file: Option<FileDto>) -> (next: Result<IngestBody, WopiReply>)
        ensures
            match file {
                Some(f) => next == Ok::<_, WopiReply>(
                    IngestBody { name: f.name, path: f.path, content_type: f.mime_type },
                ),
                None => is_refused(next, NOT_FOUND),
            },
    {
        match file {
            Some(f) => Ok(IngestBody { name: f.name, path: f.path, content_type: f.mime_type }),
            None => Err(WopiReply::bare(NOT_FOUND)),
        }
    }
}

impl IngestBody {
    pub fn ingested(self, success: bool) -> (next: Result<UpdateFile, WopiReply>)
        ensures
            if success {
                next == Ok::<_, WopiReply>(
                    UpdateFile { path: self.path, content_type: self.content_type },
                )
            } else {
                is_refused(next, INTERNAL_SERVER_ERROR)
            },
    {
        if success {
            Ok(UpdateFile { path: self.path, content_type: self.content_type })
        } else {
            Err(WopiReply::bare(INTERNAL_SERVER_ERROR))
        }
    }
}

impl UpdateFile {
    pub fn updated(self, success: bool) -> (reply: WopiReply)
        ensures
            reply.is_plain(if success { OK } else { INTERNAL_SERVER_ERROR }, seq![]),
    {
        if success {
            WopiReply::bare(OK)
        } else {
            WopiReply::bare(INTERNAL_SERVER_ERROR)
        }
    }
}

// ── Locks ───────────────────────────────────────────────────────────────────

/// What is asked of the locks.
#[derive(Debug)]
pub enum LockRequest {
    Lock { lock_id: String },
    Unlock { lock_id: String },
    Refresh { lock_id: String },
    Get,
}

/// The text of a header that may be missing.
pub open spec fn header_text(header: Option<String>) -> Seq<char> {
    match header {
        Some(value) => value@,
        None => seq![],
    }
}

fn header_value(header: Option<String>) -> (value: String)
    ensures
        value@ == header_text(header),
{
    match header {
        Some(value) => value,
        None => {
            let value = String::new();
            proof {
                assert(value@ =~= seq![]);
            }
            value
        },
    }
}

/// `next` follows from a request with that operation and that lock.
pub open spec fn is_lock_step(
    next: Result<LockRequest, WopiReply>,
    operation: Seq<char>,
    lock: Seq<char>,
) -> bool {
    if operation == "LOCK"@ {
        if lock.len() == 0 {
            is_refused(next, BAD_REQUEST)
        } else {
            next matches Ok(LockRequest::Lock { lock_id }) && lock_id@ == lock
        }
    } else if operation == "UNLOCK"@ {
        next matches Ok(LockRequest::Unlock { lock_id }) && lock_id@ == lock
    } else if operation == "REFRESH_LOCK"@ {
        next matches Ok(LockRequest::Refresh { lock_id }) && lock_id@ == lock
    } else if operation == "GET_LOCK"@ {
        next == Ok::<_, WopiReply>(LockRequest::Get)
    } else {
        next is Err && next->Err_0.is_plain(NOT_IMPLEMENTED, "Unknown WOPI override"@)
    }
}

/// Decides what a request about locks asks for, by the operation and the lock
/// that its headers name.
pub fn file_operations(
    claims: Option<WopiClaims>,
    file_id: &str,
    operation: Option<String>,
    lock: Option<String>,
) -> (next: Result<LockRequest, WopiReply>)
    ensures
        if admits(claims, file_id@) {
            is_lock_step(next, header_text(operation), header_text(lock))
        } else {
            is_refused(next, UNAUTHORIZED)
        },
{
    if let Err(reply) = authorize(claims, file_id) {
        return Err(reply);
    }
    let operation = header_value(operation);
    let lock_id = header_value(lock);
    proof {
        reveal_strlit("LOCK");
        reveal_strlit("UNLOCK");
        reveal_strlit("REFRESH_LOCK");
        reveal_strlit("GET_LOCK");
    }
    if same_text(operation.as_str(), "LOCK") {
        if same_text(lock_id.as_str(), "") {
            proof {
                reveal_strlit("");
            }
            Err(WopiReply::bare(BAD_REQUEST))
        } else {
            proof {
                reveal_strlit("");
                assert(lock_id@.len() == 0 ==> lock_id@ =~= ""@);
            }
            Ok(LockRequest::Lock { lock_id })
        }
    } else if same_text(operation.as_str(), "UNLOCK") {
        Ok(LockRequest::Unlock { lock_id })
    } else if same_text(operation.as_str(), "REFRESH_LOCK") {
        Ok(LockRequest::Refresh { lock_id })
    } else if same_text(operation.as_str(), "GET_LOCK") {
        Ok(LockRequest::Get)
    } else {
        Err(WopiReply::text(NOT_IMPLEMENTED, "Unknown WOPI override".to_owned()))
    }
}

/// The answer after a lock was taken, released or refreshed. Where another
/// lock stands against it, the answer names that lock.
pub fn lock_changed(outcome: Result<(), String>) -> (reply: WopiReply)
    ensures
        match outcome {
            Ok(()) => reply.is_plain(OK, seq![]),
            Err(existing) => reply.names_lock(CONFLICT, existing@, ""@),
        },
{
    match outcome {
        Ok(()) => WopiReply::bare(OK),
        Err(existing) => WopiReply::with_lock(CONFLICT, existing, ""),
    }
}

/// The answer that names the lock on a file, or an empty one where it is not
/// locked.
pub fn lock_read(current: Option<String>) -> (reply: WopiReply)
    ensures
        reply.names_lock(OK, header_text(current), ""@),
{
    WopiReply::with_lock(OK, header_value(current), "")
}

// ── Opening an editor ───────────────────────────────────────────────────────

/// How a file is opened unless the request says otherwise.
pub fn default_action() -> (action: String)
    ensures
        action@ == "edit"@,
{
    "edit".to_owned()
}

/// Decides on access to a file, which is given where the caller may see it.
/// A file that the caller may not see and one that does not exist are not
/// told apart. Writing is allowed unless the file is only to be viewed.
pub fn authorize_wopi_access(file: Option<FileDto>, requested_action: &str) -> (outcome: Result<
    (FileDto, bool),
    WopiReply,
>)
    ensures
        match file {
            Some(f) => outcome == Ok::<_, WopiReply>((f, requested_action@ != "view"@)),
            None => is_refused(outcome, NOT_FOUND),
        },
{
    match file {
        Some(f) => Ok((f, !same_text(requested_action, "view"))),
        None => Err(WopiReply::bare(NOT_FOUND)),
    }
}

/// The extension by which an editor is chosen: what follows the last dot of
/// the name, in lowercase.
pub open spec fn extension_of(name: Seq<char>) -> Seq<char> {
    text::lowercased(text::after_last(name, '.'))
}

/// The address at which an editor reaches a file.
pub open spec fn wopi_src(base_url: Seq<char>, file_id: Seq<char>) -> Seq<char> {
    base_url + "/wopi/files/"@ + file_id
}

/// Ask for the editor for that extension and action.
#[derive(Debug)]
pub struct AskEditor {
    pub file_id: String,
    pub extension: String,
    pub action: String,
    pub wopi_src: String,
    pub can_write: bool,
}

/// Ask for a token for the file.
#[derive(Debug)]
pub struct AskToken {
    pub file_id: String,
    pub editor_url: String,
    pub can_write: bool,
}

impl WopiState {
    /// Opens a file in an editor. The file is given where the caller may see
    /// it.
    pub fn get_editor_url(&self, params: EditorUrlParams, file: Option<FileDto>) -> (next: Result<
        AskEditor,
        WopiReply,
    >)
        ensures
            match file {
                None => is_refused(next, NOT_FOUND),
                Some(f) => next matches Ok(ask) && {
                    &&& ask.file_id == params.file_id
                    &&& ask.extension@ == extension_of(f.name@)
                    &&& ask.action == params.action
                    &&& ask.wopi_src@ == wopi_src(self.wopi_base_url@, params.file_id@)
                    &&& ask.can_write == (params.action@ != "view"@)
                },
            },
    {
        match authorize_wopi_access(file, params.action.as_str()) {
            Err(reply) => Err(reply),
            Ok((f, can_write)) => {
                let extension = to_lowercase(tail_after_last(f.name.as_str(), '.').as_str());
                let src = self.source(params.file_id.as_str());
                Ok(
                    AskEditor {
                        file_id: params.file_id,
                        extension,
                        action: params.action,
                        wopi_src: src,
                        can_write,
                    },
                )
            },
        }
    }

    fn source(&self, file_id: &str) -> (src: String)
        ensures
            src@ == wopi_src(self.wopi_base_url@, file_id@),
    {
        self.wopi_base_url.clone().concat("/wopi/files/").concat(file_id)
    }
}

/// The reply of the discovery of editors.
#[derive(Debug)]
pub enum EditorLookup {
    Found(String),
    NotFound,
    Failed,
}

impl AskEditor {
    pub fn answered(self, reply: EditorLookup) -> (next: Result<AskToken, WopiReply>)
        ensures
            match reply {
                EditorLookup::Found(url) => next == Ok::<_, WopiReply>(
                    AskToken {
                        file_id: self.file_id,
                        editor_url: url,
                        can_write: self.can_write,
                    },
                ),
                EditorLookup::NotFound => next is Err && next->Err_0.is_plain(
                    UNPROCESSABLE_ENTITY,
                    "No editor available for ."@ + self.extension@ + " files"@,
                ),
                EditorLookup::Failed => is_refused(next, INTERNAL_SERVER_ERROR),
            },
    {
        match reply {
            EditorLookup::Found(url) => Ok(
                AskToken { file_id: self.file_id, editor_url: url, can_write: self.can_write },
            ),
            EditorLookup::NotFound => Err(
                WopiReply::text(
                    UNPROCESSABLE_ENTITY,
                    "No editor available for .".to_owned().concat(self.extension.as_str()).concat(
                        " files",
                    ),
                ),
            ),
            EditorLookup::Failed => Err(WopiReply::bare(INTERNAL_SERVER_ERROR)),
        }
    }
}

impl AskToken {
    /// Takes the token and its lifetime, where one could be made.
    pub fn generated(self, token: Option<(String, i64)>) -> (outcome: Result<
        EditorUrlResponse,
        WopiReply,
    >)
        ensures
            match token {
                Some((access_token, access_token_ttl)) => outcome == Ok::<_, WopiReply>(
                    EditorUrlResponse {
                        editor_url: self.editor_url,
                        access_token,
                        access_token_ttl,
                    },
                ),
                None => is_refused(outcome, INTERNAL_SERVER_ERROR),
            },
    {
        match token {
            Some((access_token, access_token_ttl)) => Ok(
                EditorUrlResponse { editor_url: self.editor_url, access_token, access_token_ttl },
            ),
            None => Err(WopiReply::bare(INTERNAL_SERVER_ERROR)),
        }
    }
}

/// The extensions that can be edited; none where the editors cannot be asked.
pub fn get_supported_extensions(reply: Result<Vec<String>, String>) -> (extensions: Vec<String>)
    ensures
        match reply {
            Ok(known) => extensions == known,
            Err(_) => extensions@.len() == 0,
        },
{
    match reply {
        Ok(known) => known,
        Err(_) => Vec::new(),
    }
}

/// The answer to requests for anything that is not known.
pub fn wopi_not_found() -> (reply: WopiReply)
    ensures
        reply.is_plain(NOT_FOUND, seq![]),
{
    WopiReply::bare(NOT_FOUND)
}

// ── The page that holds an editor ───────────────────────────────────────────

/// Ask for the file, as the user that the token was given to.
#[derive(Debug)]
pub struct HostPage {
    pub claims: WopiClaims,
    pub caller: Uuid,
    pub action: &'static str,
}

/// Ask for the editor for that extension and action.
#[derive(Debug)]
pub struct HostEditor {
    pub claims: WopiClaims,
    pub file_name: String,
    pub extension: String,
    pub action: &'static str,
    pub wopi_src: String,
}

/// Ask for a token with the rights of the one that came with the request.
#[derive(Debug)]
pub struct HostToken {
    pub claims: WopiClaims,
    pub file_name: String,
    pub editor_url: String,
}

/// What a token allows: editing, or only viewing.
pub open spec fn action_of(claims: WopiClaims) -> Seq<char> {
    if claims.can_write {
        "edit"@
    } else {
        "view"@
    }
}

/// `next` follows from a request for the page of a file. `caller` is the user
/// that the token was given to, where it names one.
pub open spec fn is_host_step(
    next: Result<HostPage, WopiReply>,
    claims: Option<WopiClaims>,
    file_id: Seq<char>,
    caller: Option<u128>,
) -> bool {
    if admits(claims, file_id) && caller is Some {
        next matches Ok(page) && {
            &&& page.claims == claims->0
            &&& page.caller.value == caller->0
            &&& page.action@ == action_of(claims->0)
        }
    } else {
        is_refused(next, UNAUTHORIZED)
    }
}

/// The page of a file, given the user that its token names, if it names one.
pub fn host_page_for(claims: Option<WopiClaims>, file_id: &str, caller: Option<Uuid>) -> (next:
    Result<HostPage, WopiReply>)
    ensures
        is_host_step(
            next,
            claims,
            file_id@,
            match caller {
                Some(id) => Some(id.value),
                None => None,
            },
        ),
{
    match authorize(claims, file_id) {
        Err(reply) => Err(reply),
        Ok(c) => {
            let action = if c.can_write {
                "edit"
            } else {
                "view"
            };
            match caller {
                Some(caller) => Ok(HostPage { claims: c, caller, action }),
                None => Err(WopiReply::bare(UNAUTHORIZED)),
            }
        },
    }
}

/// The page of a file for the bearer of a token.
pub fn host_page(claims: Option<WopiClaims>, file_id: &str) -> (next: Result<HostPage, WopiReply>)
    ensures
        is_host_step(
            next,
            claims,
            file_id@,
            match claims {
                Some(c) => identifier::parsed_uuid(c.sub@),
                None => None,
            },
        ),
{
    let caller = match &claims {
        Some(c) => Uuid::parse(c.sub.as_str()),
        None => None,
    };
    host_page_for(claims, file_id, caller)
}

impl WopiState {
    /// Takes the file, which is given where the user may see it.
    pub fn host_file_found(&self, page: HostPage, file: Option<FileDto>) -> (next: Result<
        HostEditor,
        WopiReply,
    >)
        ensures
            match file {
                None => is_refused(next, NOT_FOUND),
                Some(f) => next matches Ok(ask) && {
                    &&& ask.claims == page.claims
                    &&& ask.file_name == f.name
                    &&& ask.extension@ == extension_of(f.name@)
                    &&& ask.action == page.action
                    &&& ask.wopi_src@ == wopi_src(self.wopi_base_url@, page.claims.file_id@)
                },
            },
    {
        match authorize_wopi_access(file, page.action) {
            Err(reply) => Err(reply),
            Ok((f, _)) => {
                let extension = to_lowercase(tail_after_last(f.name.as_str(), '.').as_str());
                let src = self.source(page.claims.file_id.as_str());
                Ok(
                    HostEditor {
                        claims: page.claims,
                        file_name: f.name,
                        extension,
                        action: page.action,
                        wopi_src: src,
                    },
                )
            },
        }
    }
}

impl HostEditor {
    pub fn answered(self, reply: EditorLookup) -> (next: Result<HostToken, WopiReply>)
        ensures
            match reply {
                EditorLookup::Found(url) => next == Ok::<_, WopiReply>(
                    HostToken { claims: self.claims, file_name: self.file_name, editor_url: url },
                ),
                EditorLookup::NotFound => is_refused(next, INTERNAL_SERVER_ERROR),
                EditorLookup::Failed => is_refused(next, INTERNAL_SERVER_ERROR),
            },
    {
        match reply {
            EditorLookup::Found(url) => Ok(
                HostToken { claims: self.claims, file_name: self.file_name, editor_url: url },
            ),
            EditorLookup::NotFound => Err(WopiReply::bare(INTERNAL_SERVER_ERROR)),
            EditorLookup::Failed => Err(WopiReply::bare(INTERNAL_SERVER_ERROR)),
        }
    }
}

// The fixed parts of the page.

pub const PAGE_TITLE: &'static str =
    "<!DOCTYPE html>\n<html>\n<head>\n    <meta charset=\"utf-8\">\n    <title>";

pub const PAGE_FORM: &'static str =
    " - OxiCloud Editor</title>\n    <style>\n        body { margin: 0; overflow: hidden; }\n        iframe { width: 100%; height: 100vh; border: none; }\n    </style>\n</head>\n<body>\n    <form id=\"wopi_form\" action=\"";

pub const PAGE_TOKEN: &'static str =
    "\" method=\"post\" target=\"wopi_frame\">\n        <input name=\"access_token\" value=\"";

pub const PAGE_TTL: &'static str =
    "\" type=\"hidden\"/>\n        <input name=\"access_token_ttl\" value=\"";

pub const PAGE_END: &'static str =
    "\" type=\"hidden\"/>\n    </form>\n    <iframe name=\"wopi_frame\" allowfullscreen\n        sandbox=\"allow-scripts allow-same-origin allow-forms allow-popups allow-top-navigation allow-popups-to-escape-sandbox\">\n    </iframe>\n    <script>document.getElementById('wopi_form').submit();</script>\n</body>\n</html>";

/// The page that posts the token to the editor. The name of the file is
/// escaped.
pub open spec fn page_text(
    file_name: Seq<char>,
    editor_url: Seq<char>,
    token: Seq<char>,
    ttl: i64,
) -> Seq<char> {
    PAGE_TITLE@ + text::html_escaped(file_name) + PAGE_FORM@ + editor_url + PAGE_TOKEN@ + token
        + PAGE_TTL@ + text::signed_decimal(ttl as int) + PAGE_END@
}

impl HostToken {
    /// Takes the token and its lifetime, where one could be made, and writes
    /// the page.
    pub fn generated(self, token: Option<(String, i64)>) -> (outcome: Result<String, WopiReply>)
        ensures
            match token {
                Some((access_token, ttl)) => outcome is Ok && outcome->Ok_0@ == page_text(
                    self.file_name@,
                    self.editor_url@,
                    access_token@,
                    ttl,
                ),
                None => is_refused(outcome, INTERNAL_SERVER_ERROR),
            },
    {
        match token {
            None => Err(WopiReply::bare(INTERNAL_SERVER_ERROR)),
            Some((access_token, ttl)) => {
                let safe_name = escape_html(self.file_name.as_str());
                let page = PAGE_TITLE.to_owned().concat(safe_name.as_str()).concat(
                    PAGE_FORM,
                ).concat(self.editor_url.as_str()).concat(PAGE_TOKEN).concat(
                    access_token.as_str(),
                ).concat(PAGE_TTL).concat(signed_decimal_text(ttl).as_str()).concat(PAGE_END);
                Ok(page)
            },
        }
    }
}

/// A token that only allows viewing never leads to a change of its file, and
/// nobody is told otherwise: the editor learns that it cannot write, writing is
/// refused, and the page opens the file for viewing.
pub proof fn law_view_tokens_do_not_write(
    state: WopiState,
    claims: WopiClaims,
    file_id: Seq<char>,
    file: FileDto,
    info: CheckFileInfoResponse,
    put: Result<PutFile, WopiReply>,
    page: Result<HostPage, WopiReply>,
    caller: Option<u128>,
)
    requires
        !claims.can_write,
        informs(state, claims, file, info),
        is_put_step(put, Some(claims), file_id),
        is_host_step(page, Some(claims), file_id, caller),
    ensures
        !info.supports_update,
        !info.user_can_write,
        is_refused(put, UNAUTHORIZED),
        page matches Ok(p) ==> p.action@ == "view"@,
{
}

/// A token opens no other file than the one that it was given for.
pub proof fn law_tokens_open_their_file_only(
    claims: WopiClaims,
    file_id: Seq<char>,
    put: Result<PutFile, WopiReply>,
    page: Result<HostPage, WopiReply>,
    caller: Option<u128>,
)
    requires
        claims.file_id@ != file_id,
        is_put_step(put, Some(claims), file_id),
        is_host_step(page, Some(claims), file_id, caller),
    ensures
        !admits(Some(claims), file_id),
        is_refused(put, UNAUTHORIZED),
        is_refused(page, UNAUTHORIZED),
{
}

} // verus!
