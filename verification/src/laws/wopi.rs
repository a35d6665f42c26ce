//! The host side of WOPI.

use vstd::prelude::*;
use vstd::string::*;

use crate::clock;
use crate::identifier;
use crate::identifier::Uuid;
use crate::laws::shared;
use crate::numbers;
use crate::text;
use crate::wopi::{
    authorize, authorize_wopi_access, default_action, file_operations, get_file,
    get_supported_extensions, host_page, host_page_for, lock_changed, lock_read, put_file,
    wopi_not_found, AskEditor, AskToken, CheckFileInfoResponse, EditorLookup, EditorUrlParams,
    EditorUrlResponse, FetchTarget, FileDto, HostEditor, HostPage, HostToken, IngestBody,
    LockRequest, PutFile, UpdateFile, WopiClaims, WopiReply, WopiState,
};

verus! {

/// The answer has that status, no text, and names no lock.
pub open spec fn is_bare(reply: WopiReply, status: int) -> bool {
    reply.status == status && reply.lock is None && reply.body@.len() == 0
}

// ── Tokens ──────────────────────────────────────────────────────────────────

/// A request passes exactly where its token is valid and was given for that
/// file, and then with just what the token says. All others are answered with
/// 401.
pub proof fn law_requests_pass_with_a_token_for_the_file(
    claims: Option<WopiClaims>,
    file_id: &str,
    outcome: Result<WopiClaims, WopiReply>,
)
    requires
        call_ensures(authorize, (claims, file_id), outcome),
    ensures
        outcome is Ok <==> claims is Some && claims->0.file_id@ == file_id@,
        outcome matches Ok(passed) ==> Some(passed) == claims,
        outcome matches Err(reply) ==> is_bare(reply, 401),
{
}

/// Writing begins exactly where a valid token for that file allows writing, and
/// then for that file. All other requests are answered with 401.
pub proof fn law_writing_needs_a_token_that_allows_it(
    claims: Option<WopiClaims>,
    file_id: &str,
    next: Result<PutFile, WopiReply>,
)
    requires
        call_ensures(put_file, (claims, file_id), next),
    ensures
        next is Ok <==> claims is Some && claims->0.file_id@ == file_id@ && claims->0.can_write,
        next matches Ok(put) ==> put.file_id@ == file_id@,
        next matches Err(reply) ==> is_bare(reply, 401),
{
}

// ── Reading ─────────────────────────────────────────────────────────────────

/// An editor learns the name and the size of the file, and who asks, just as
/// the file and the token say. The owner is that of the file, and the one who
/// asks where it has none.
pub proof fn law_editors_learn_of_the_file(
    state: WopiState,
    claims: WopiClaims,
    file: FileDto,
    outcome: Result<CheckFileInfoResponse, WopiReply>,
    missing: Result<CheckFileInfoResponse, WopiReply>,
)
    requires
        call_ensures(WopiState::check_file_info, (&state, &claims, Some(file)), outcome),
        call_ensures(WopiState::check_file_info, (&state, &claims, None::<FileDto>), missing),
    ensures
        outcome is Ok,
        outcome->Ok_0.base_file_name@ == file.name@,
        outcome->Ok_0.size == file.size,
        outcome->Ok_0.user_id@ == claims.sub@,
        outcome->Ok_0.user_friendly_name@ == claims.username@,
        file.owner_id matches Some(owner) ==> outcome->Ok_0.owner_id@ == owner@,
        file.owner_id is None ==> outcome->Ok_0.owner_id@ == claims.sub@,
        missing matches Err(reply) && is_bare(reply, 404),
{
}

/// An editor learns that it may change the file exactly where the token allows
/// it, that it may lock it, and that it may not rename it; and the address of
/// this server as the one to talk and to return to.
pub proof fn law_editors_learn_their_rights(
    state: WopiState,
    claims: WopiClaims,
    file: FileDto,
    outcome: Result<CheckFileInfoResponse, WopiReply>,
)
    requires
        call_ensures(WopiState::check_file_info, (&state, &claims, Some(file)), outcome),
    ensures
        outcome->Ok_0.user_can_write <==> claims.can_write,
        outcome->Ok_0.supports_update <==> claims.can_write,
        outcome->Ok_0.supports_locks,
        !outcome->Ok_0.supports_rename,
        outcome->Ok_0.post_message_origin@ == state.public_base_url@,
        outcome->Ok_0.close_url@ == state.public_base_url@,
{
}

/// The version of a file denotes the second of its last change, so that a file
/// has another version after a change in another second; the time of the change
/// is written as `chrono` writes that second, taken with a sign by its bits.
pub proof fn law_versions_change_with_the_file(
    state: WopiState,
    claims: WopiClaims,
    file: FileDto,
    outcome: Result<CheckFileInfoResponse, WopiReply>,
    later: FileDto,
    later_outcome: Result<CheckFileInfoResponse, WopiReply>,
)
    requires
        call_ensures(WopiState::check_file_info, (&state, &claims, Some(file)), outcome),
        call_ensures(WopiState::check_file_info, (&state, &claims, Some(later)), later_outcome),
    ensures
        shared::is_numeral(outcome->Ok_0.version@),
        shared::numeral_value(outcome->Ok_0.version@) == file.modified_at,
        outcome->Ok_0.version@ == later_outcome->Ok_0.version@ <==> file.modified_at
            == later.modified_at,
        exists|secs: i64|
            {
                &&& (secs - file.modified_at) % 0x1_0000_0000_0000_0000 == 0
                &&& match #[trigger] clock::rfc3339(secs, 0) {
                    Some(form) => outcome->Ok_0.last_modified_time@ == form,
                    None => outcome->Ok_0.last_modified_time@.len() == 0,
                }
            },
{
    let secs = numbers::signed_64(file.modified_at) as i64;
    assert((secs - file.modified_at) % 0x1_0000_0000_0000_0000 == 0);
    let form = clock::rfc3339(secs, 0);
    shared::law_decimal_denotes_its_number(file.modified_at as nat);
    shared::law_decimal_denotes_its_number(later.modified_at as nat);
}

/// The content that there is is handed out; where there is none the answer is
/// 404.
pub proof fn law_contents_are_handed_out<S>(
    content: Option<S>,
    outcome: Result<S, WopiReply>,
)
    requires
        call_ensures(get_file::<S>, (content,), outcome),
    ensures
        outcome is Ok <==> content is Some,
        outcome matches Ok(stream) ==> content == Some(stream),
        outcome matches Err(reply) ==> is_bare(reply, 404),
{
}

// ── Writing ─────────────────────────────────────────────────────────────────

/// A file that is locked is written only by a request that names its lock; one
/// that is not locked by any. A request that is refused is told, with 409, which
/// lock is held.
pub proof fn law_locked_files_are_written_under_their_lock(
    put: PutFile,
    request: Option<String>,
    current: Option<String>,
    next: Result<FetchTarget, WopiReply>,
)
    requires
        call_ensures(PutFile::locked, (put, request, current), next),
    ensures
        next is Ok <==> current is None || (request is Some && request->0@ == current->0@),
        next matches Ok(fetch) ==> fetch.file_id@ == put.file_id@,
        next matches Err(reply) ==> {
            &&& reply.status == 409
            &&& reply.lock is Some && reply.lock->0@ == current->0@
            &&& reply.body@ == "Lock mismatch"@
        },
{
}

/// The content of a request goes to the file that was found, under its name,
/// its path and its type, and nowhere else. Each failure on the way ends the
/// request: with 404 where there is no such file, and else with 500; it is
/// answered with 200 only where the content was stored and the file was given
/// it.
pub proof fn law_contents_go_to_the_file_that_was_found(
    fetch: FetchTarget,
    file: Option<FileDto>,
    ingest: Result<IngestBody, WopiReply>,
    stored: bool,
    update: Result<UpdateFile, WopiReply>,
    updated: bool,
    reply: WopiReply,
)
    requires
        call_ensures(FetchTarget::found, (fetch, file), ingest),
        ingest matches Ok(body) ==> call_ensures(IngestBody::ingested, (body, stored), update),
        ingest is Ok && update is Ok ==> call_ensures(
            UpdateFile::updated,
            (update->Ok_0, updated),
            reply,
        ),
    ensures
        ingest is Ok <==> file is Some,
        ingest matches Err(r) ==> is_bare(r, 404),
        ingest matches Ok(body) ==> {
            &&& body.name@ == file->0.name@
            &&& body.path@ == file->0.path@
            &&& body.content_type@ == file->0.mime_type@
            &&& update is Ok <==> stored
            &&& update matches Err(r) ==> is_bare(r, 500)
            &&& update matches Ok(to) ==> {
                &&& to.path@ == file->0.path@
                &&& to.content_type@ == file->0.mime_type@
                &&& is_bare(reply, if updated { 200 } else { 500 })
            }
        },
{
}

// ── Locks ───────────────────────────────────────────────────────────────────

/// The text of a header, empty where it is missing.
pub open spec fn value_of(header: Option<String>) -> Seq<char> {
    match header {
        Some(value) => value@,
        None => Seq::empty(),
    }
}

/// Without a valid token for that file no operation on its lock is made, and
/// the answer is 401.
pub proof fn law_locks_need_a_token(
    claims: Option<WopiClaims>,
    file_id: &str,
    operation: Option<String>,
    lock: Option<String>,
    next: Result<LockRequest, WopiReply>,
)
    requires
        call_ensures(file_operations, (claims, file_id, operation, lock), next),
        claims is None || claims->0.file_id@ != file_id@,
    ensures
        next matches Err(reply) && is_bare(reply, 401),
{
}

/// With one, each of the four operations is made under the lock that the
/// request names and under no other, and no other operation is known. A lock
/// has to have a name to be taken.
pub proof fn law_lock_operations(
    claims: Option<WopiClaims>,
    file_id: &str,
    operation: Option<String>,
    lock: Option<String>,
    next: Result<LockRequest, WopiReply>,
)
    requires
        call_ensures(file_operations, (claims, file_id, operation, lock), next),
        claims is Some && claims->0.file_id@ == file_id@,
    ensures
        value_of(operation) == "LOCK"@ ==> (next is Ok <==> value_of(lock).len() > 0),
        value_of(operation) == "LOCK"@ && value_of(lock).len() > 0 ==> (next matches Ok(
            LockRequest::Lock { lock_id },
        ) && lock_id@ == value_of(lock)),
        value_of(operation) == "LOCK"@ && value_of(lock).len() == 0 ==> is_bare(
            next->Err_0,
            400,
        ),
        value_of(operation) == "UNLOCK"@ ==> (next matches Ok(LockRequest::Unlock { lock_id })
            && lock_id@ == value_of(lock)),
        value_of(operation) == "REFRESH_LOCK"@ ==> (next matches Ok(
            LockRequest::Refresh { lock_id },
        ) && lock_id@ == value_of(lock)),
        value_of(operation) == "GET_LOCK"@ ==> (next matches Ok(LockRequest::Get)),
        value_of(operation) != "LOCK"@ && value_of(operation) != "UNLOCK"@ && value_of(operation)
            != "REFRESH_LOCK"@ && value_of(operation) != "GET_LOCK"@ ==> (next matches Err(reply)
            && reply.status == 501 && reply.lock is None && reply.body@
            == "Unknown WOPI override"@),
{
    reveal_strlit("LOCK");
    reveal_strlit("UNLOCK");
    reveal_strlit("REFRESH_LOCK");
    reveal_strlit("GET_LOCK");
    assert("LOCK"@.len() == 4 && "UNLOCK"@.len() == 6 && "REFRESH_LOCK"@.len() == 12
        && "GET_LOCK"@.len() == 8);
}

/// A change of a lock is answered with 200, or with 409 and the lock that stands
/// against it; the question for a lock with 200 and that lock, which is empty
/// where there is none.
pub proof fn law_answers_name_the_lock(
    outcome: Result<(), String>,
    changed: WopiReply,
    current: Option<String>,
    read: WopiReply,
)
    requires
        call_ensures(lock_changed, (outcome,), changed),
        call_ensures(lock_read, (current,), read),
    ensures
        outcome is Ok ==> is_bare(changed, 200),
        outcome matches Err(existing) ==> changed.status == 409 && changed.lock is Some
            && changed.lock->0@ == existing@ && changed.body@.len() == 0,
        read.status == 200 && read.body@.len() == 0 && read.lock is Some,
        read.lock->0@ == value_of(current),
{
    reveal_strlit("");
}

// ── Opening an editor ───────────────────────────────────────────────────────

/// A file that is not to be seen and one that is not there are both answered
/// with 404. Writing is allowed for every action but `view`. The default action
/// is `edit`, which allows it.
pub proof fn law_access_to_files(
    file: Option<FileDto>,
    action: &str,
    outcome: Result<(FileDto, bool), WopiReply>,
    default: String,
)
    requires
        call_ensures(authorize_wopi_access, (file, action), outcome),
        call_ensures(default_action, (), default),
    ensures
        outcome is Ok <==> file is Some,
        outcome matches Ok((seen, can_write)) ==> Some(seen) == file && (can_write <==> action@
            != "view"@),
        outcome matches Err(reply) ==> is_bare(reply, 404),
        default@ == "edit"@,
        default@ != "view"@,
{
    reveal_strlit("edit");
    reveal_strlit("view");
    assert("edit"@[0] != "view"@[0]);
}

/// `extension` is the lowercase form of what stands behind the last dot of a
/// name, or of the whole name where it has none.
pub open spec fn is_extension_of(extension: Seq<char>, name: Seq<char>) -> bool {
    exists|tail: Seq<char>|
        {
            &&& !tail.contains('.')
            &&& tail.len() <= name.len()
            &&& name.skip(name.len() - tail.len()) == tail
            &&& tail.len() < name.len() ==> name[name.len() - tail.len() - 1] == '.'
            &&& extension == #[trigger] text::lowercased(tail)
        }
}

/// The editor is asked for by the extension of the file that was found, for
/// the action of the request, and reaches the file below the address for
/// editors under the identifier of the request.
pub proof fn law_editors_are_asked_for_the_file(
    state: WopiState,
    params: EditorUrlParams,
    file: Option<FileDto>,
    next: Result<AskEditor, WopiReply>,
)
    requires
        call_ensures(WopiState::get_editor_url, (&state, params, file), next),
    ensures
        next is Ok <==> file is Some,
        next matches Err(reply) ==> is_bare(reply, 404),
        next matches Ok(ask) ==> {
            &&& ask.file_id@ == params.file_id@
            &&& ask.action@ == params.action@
            &&& is_extension_of(ask.extension@, file->0.name@)
            &&& ask.wopi_src@ == state.wopi_base_url@ + "/wopi/files/"@ + params.file_id@
            &&& ask.can_write <==> params.action@ != "view"@
        },
{
    if file is Some {
        let name = file->0.name@;
        shared::law_after_last(name, '.');
        assert(next->Ok_0.extension@ == text::lowercased(text::after_last(name, '.')));
    }
}

/// The token is asked for with the rights that the request has, for the editor
/// that was found. Where there is none for the extension the answer is 422 and
/// names the extension; where editors cannot be asked it is 500. The response
/// holds that editor, the token and its lifetime as they came.
pub proof fn law_editors_open_with_the_token(
    ask: AskEditor,
    lookup: EditorLookup,
    next: Result<AskToken, WopiReply>,
    token: Option<(String, i64)>,
    outcome: Result<EditorUrlResponse, WopiReply>,
)
    requires
        call_ensures(AskEditor::answered, (ask, lookup), next),
        next matches Ok(t) ==> call_ensures(AskToken::generated, (t, token), outcome),
    ensures
        next is Ok <==> lookup is Found,
        lookup is NotFound ==> next->Err_0.status == 422 && next->Err_0.lock is None
            && next->Err_0.body@ == "No editor available for ."@ + ask.extension@ + " files"@,
        lookup is Failed ==> is_bare(next->Err_0, 500),
        lookup matches EditorLookup::Found(url) ==> {
            &&& next->Ok_0.file_id@ == ask.file_id@
            &&& next->Ok_0.can_write == ask.can_write
            &&& next->Ok_0.editor_url@ == url@
            &&& outcome is Ok <==> token is Some
            &&& token matches Some((access_token, ttl)) ==> {
                &&& outcome->Ok_0.editor_url@ == url@
                &&& outcome->Ok_0.access_token@ == access_token@
                &&& outcome->Ok_0.access_token_ttl == ttl
            }
            &&& token is None ==> is_bare(outcome->Err_0, 500)
        },
{
}

/// The extensions are those that the editors know, and none where these cannot
/// be asked. What is not known is answered with 404.
pub proof fn law_known_extensions(
    reply: Result<Vec<String>, String>,
    extensions: Vec<String>,
    unknown: WopiReply,
)
    requires
        call_ensures(get_supported_extensions, (reply,), extensions),
        call_ensures(wopi_not_found, (), unknown),
    ensures
        reply matches Ok(known) ==> extensions@ == known@,
        reply is Err ==> extensions@.len() == 0,
        is_bare(unknown, 404),
{
}

// ── The page that holds an editor ───────────────────────────────────────────

/// The page is made exactly for the bearer of a valid token for that file that
/// names a user, with the claims of the token and for that user; it edits where
/// the token allows writing, and else only views. All others are answered with
/// 401.
pub proof fn law_pages_need_a_token(
    claims: Option<WopiClaims>,
    file_id: &str,
    caller: Option<Uuid>,
    given: Result<HostPage, WopiReply>,
    parsed: Result<HostPage, WopiReply>,
)
    requires
        call_ensures(host_page_for, (claims, file_id, caller), given),
        call_ensures(host_page, (claims, file_id), parsed),
    ensures
        given is Ok <==> claims is Some && claims->0.file_id@ == file_id@ && caller is Some,
        given matches Ok(page) ==> {
            &&& Some(page.claims) == claims
            &&& Some(page.caller) == caller
            &&& page.action@ == (if claims->0.can_write { "edit"@ } else { "view"@ })
        },
        given matches Err(reply) ==> is_bare(reply, 401),
        parsed is Ok <==> claims is Some && claims->0.file_id@ == file_id@
            && identifier::parsed_uuid(claims->0.sub@) is Some,
        parsed matches Ok(page) ==> {
            &&& Some(page.claims) == claims
            &&& Some(page.caller.value) == identifier::parsed_uuid(claims->0.sub@)
            &&& page.action@ == (if claims->0.can_write { "edit"@ } else { "view"@ })
        },
        parsed matches Err(reply) ==> is_bare(reply, 401),
{
}

/// The editor for a page is asked for by the extension of the file that was
/// found, for the action of the page, and reaches the file that the token is
/// for; the page has the name of the file and the claims of the token. Where
/// there is no file the answer is 404, and without an editor 500.
pub proof fn law_pages_are_for_the_file(
    state: WopiState,
    page: HostPage,
    file: Option<FileDto>,
    next: Result<HostEditor, WopiReply>,
    lookup: EditorLookup,
    token: Result<HostToken, WopiReply>,
)
    requires
        call_ensures(WopiState::host_file_found, (&state, page, file), next),
        next matches Ok(editor) ==> call_ensures(HostEditor::answered, (editor, lookup), token),
    ensures
        next is Ok <==> file is Some,
        next matches Err(reply) ==> is_bare(reply, 404),
        next matches Ok(editor) ==> {
            &&& editor.claims == page.claims
            &&& editor.file_name@ == file->0.name@
            &&& editor.action@ == page.action@
            &&& is_extension_of(editor.extension@, file->0.name@)
            &&& editor.wopi_src@ == state.wopi_base_url@ + "/wopi/files/"@ + page.claims.file_id@
            &&& token is Ok <==> lookup is Found
            &&& token matches Err(reply) ==> is_bare(reply, 500)
            &&& token matches Ok(ask) ==> {
                &&& ask.claims == page.claims
                &&& ask.file_name@ == file->0.name@
                &&& ask.editor_url@ == lookup->Found_0@
            }
        },
{
    if file is Some {
        let name = file->0.name@;
        shared::law_after_last(name, '.');
        assert(next->Ok_0.extension@ == text::lowercased(text::after_last(name, '.')));
    }
}

/// The page is written exactly where there is a token. It posts the token and
/// its lifetime, in full and in decimal, to the editor, under the escaped name
/// of the file.
pub proof fn law_pages_post_the_token_and_its_lifetime(
    ask: HostToken,
    token: Option<(String, i64)>,
    outcome: Result<String, WopiReply>,
)
    requires
        call_ensures(HostToken::generated, (ask, token), outcome),
    ensures
        outcome is Ok <==> token is Some,
        outcome matches Err(reply) ==> is_bare(reply, 500),
        token matches Some((access_token, ttl)) ==> outcome->Ok_0@
            == "<!DOCTYPE html>\n<html>\n<head>\n    <meta charset=\"utf-8\">\n    <title>"@
            + text::html_escaped(ask.file_name@)
            + " - OxiCloud Editor</title>\n    <style>\n        body { margin: 0; overflow: hidden; }\n        iframe { width: 100%; height: 100vh; border: none; }\n    </style>\n</head>\n<body>\n    <form id=\"wopi_form\" action=\""@
            + ask.editor_url@
            + "\" method=\"post\" target=\"wopi_frame\">\n        <input name=\"access_token\" value=\""@
            + access_token@
            + "\" type=\"hidden\"/>\n        <input name=\"access_token_ttl\" value=\""@
            + text::signed_decimal(ttl as int)
            + "\" type=\"hidden\"/>\n    </form>\n    <iframe name=\"wopi_frame\" allowfullscreen\n        sandbox=\"allow-scripts allow-same-origin allow-forms allow-popups allow-top-navigation allow-popups-to-escape-sandbox\">\n    </iframe>\n    <script>document.getElementById('wopi_form').submit();</script>\n</body>\n</html>"@,
{
}

/// For one file and editor, tokens of the same text with different lifetimes
/// give different pages, and so do different tokens with the same lifetime.
pub proof fn law_pages_differ_with_the_token(
    ask: HostToken,
    token: String,
    ttl: i64,
    page: Result<String, WopiReply>,
    other_token: String,
    other_ttl: i64,
    other_page: Result<String, WopiReply>,
)
    requires
        call_ensures(HostToken::generated, (ask, Some((token, ttl))), page),
        call_ensures(HostToken::generated, (ask, Some((other_token, other_ttl))), other_page),
    ensures
        page is Ok && other_page is Ok,
        token@ == other_token@ ==> (page->Ok_0@ == other_page->Ok_0@ <==> ttl == other_ttl),
        ttl == other_ttl ==> (page->Ok_0@ == other_page->Ok_0@ <==> token@ == other_token@),
{
    let head = crate::wopi::PAGE_TITLE@ + text::html_escaped(ask.file_name@)
        + crate::wopi::PAGE_FORM@ + ask.editor_url@ + crate::wopi::PAGE_TOKEN@;
    let a = text::signed_decimal(ttl as int);
    let b = text::signed_decimal(other_ttl as int);
    let end = crate::wopi::PAGE_END@;
    shared::law_signed_decimals_differ(ttl as int, other_ttl as int);
    assert(page->Ok_0@ == head + token@ + crate::wopi::PAGE_TTL@ + a + end);
    assert(other_page->Ok_0@ == head + other_token@ + crate::wopi::PAGE_TTL@ + b + end);
    if token@ == other_token@ && page->Ok_0@ == other_page->Ok_0@ {
        shared::lemma_same_middle(head + token@ + crate::wopi::PAGE_TTL@, a, b, end);
    }
    if ttl == other_ttl && page->Ok_0@ == other_page->Ok_0@ {
        let tail = crate::wopi::PAGE_TTL@ + a + end;
        assert(head + token@ + crate::wopi::PAGE_TTL@ + a + end =~= head + token@ + tail);
        assert(head + other_token@ + crate::wopi::PAGE_TTL@ + a + end =~= head + other_token@
            + tail);
        shared::lemma_same_middle(head, token@, other_token@, tail);
    }
}

} // verus!
