use oxicloud::identifier::Uuid;
use oxicloud::wopi::{
    authorize, authorize_wopi_access, default_action, file_operations, get_file,
    get_supported_extensions, host_page, host_page_for, lock_changed, lock_read, put_file,
    wopi_not_found, EditorLookup, EditorUrlParams, FileDto, LockRequest, WopiClaims, WopiReply,
    WopiState,
};

const SUB: &str = "00000000-0000-0000-0000-000000000007";

fn state() -> WopiState {
    WopiState {
        public_base_url: "https://cloud.example".to_string(),
        wopi_base_url: "http://internal:8080".to_string(),
    }
}

fn claims(can_write: bool) -> Option<WopiClaims> {
    Some(WopiClaims {
        file_id: "f1".to_string(),
        sub: SUB.to_string(),
        username: "alice".to_string(),
        can_write,
    })
}

fn file(name: &str) -> FileDto {
    FileDto {
        name: name.to_string(),
        path: "docs/".to_string() + name,
        mime_type: "application/odt".to_string(),
        owner_id: None,
        size: 1234,
        modified_at: 86_400,
    }
}

fn is_plain(reply: &WopiReply, status: u16, body: &str) -> bool {
    reply.status == status && reply.lock.is_none() && reply.body == body
}

fn refused<T>(outcome: Result<T, WopiReply>, status: u16) -> bool {
    match outcome {
        Ok(_) => false,
        Err(reply) => is_plain(&reply, status, ""),
    }
}

fn text(s: &str) -> Option<String> {
    Some(s.to_string())
}

#[test]
fn tokens_open_their_own_file_only() {
    assert!(authorize(claims(false), "f1").is_ok());
    assert!(refused(authorize(claims(true), "f2"), 401));
    assert!(refused(authorize(None, "f1"), 401));
    assert!(refused(put_file(claims(true), "f2"), 401));
    assert!(refused(host_page(claims(true), "f2"), 401));
    assert!(refused(file_operations(claims(true), "f2", text("GET_LOCK"), None), 401));
}

#[test]
fn files_are_described() {
    let c = claims(true).unwrap();
    let info = state().check_file_info(&c, Some(file("a.odt"))).unwrap();
    assert_eq!(info.base_file_name, "a.odt");
    assert_eq!(info.owner_id, SUB);
    assert_eq!(info.size, 1234);
    assert_eq!(info.user_id, SUB);
    assert_eq!(info.version, "86400");
    assert!(info.supports_locks && info.supports_update && info.user_can_write);
    assert!(!info.supports_rename);
    assert_eq!(info.user_friendly_name, "alice");
    assert_eq!(info.post_message_origin, "https://cloud.example");
    assert_eq!(info.last_modified_time, "1970-01-02T00:00:00+00:00");
    assert_eq!(info.close_url, "https://cloud.example");

    let mut owned = file("a.odt");
    owned.owner_id = text("owner");
    owned.modified_at = u64::MAX;
    let c = claims(false).unwrap();
    let info = state().check_file_info(&c, Some(owned)).unwrap();
    assert_eq!(info.owner_id, "owner");
    assert_eq!(info.version, "18446744073709551615");
    assert_eq!(info.last_modified_time, "1969-12-31T23:59:59+00:00");
    assert!(!info.supports_update && !info.user_can_write);
    assert!(refused(state().check_file_info(&c, None), 404));
}

#[test]
fn contents_are_handed_out() {
    assert_eq!(get_file(Some(5)).unwrap(), 5);
    assert!(refused(get_file::<u8>(None), 404));
}

#[test]
fn files_are_written_with_the_lock() {
    let put = || put_file(claims(true), "f1").unwrap();
    for (request, current) in [(None, None), (text("L"), None), (text("L"), text("L"))] {
        assert!(put().locked(request, current).is_ok());
    }
    for request in [None, text("M")] {
        let reply = put().locked(request, text("L")).err().unwrap();
        assert_eq!(reply.status, 409);
        assert_eq!(reply.lock.as_deref(), Some("L"));
        assert_eq!(reply.body, "Lock mismatch");
    }
}

#[test]
fn view_tokens_do_not_write() {
    assert!(refused(put_file(claims(false), "f1"), 401));
    assert_eq!(host_page(claims(false), "f1").unwrap().action, "view");
}

#[test]
fn writing_goes_step_by_step() {
    let fetch = || put_file(claims(true), "f1").unwrap().locked(None, None).unwrap();
    assert!(refused(fetch().found(None), 404));
    let ingest = || fetch().found(Some(file("a.odt"))).unwrap();
    assert_eq!(ingest().name, "a.odt");
    assert_eq!(ingest().path, "docs/a.odt");
    assert_eq!(ingest().content_type, "application/odt");
    assert!(refused(ingest().ingested(false), 500));
    let update = || ingest().ingested(true).unwrap();
    assert_eq!(update().path, "docs/a.odt");
    assert!(is_plain(&update().updated(true), 200, ""));
    assert!(is_plain(&update().updated(false), 500, ""));
}

#[test]
fn lock_operations_are_dispatched() {
    let ask = |op: Option<String>, lock: Option<String>| {
        file_operations(claims(false), "f1", op, lock)
    };
    assert!(matches!(
        ask(text("LOCK"), text("L")),
        Ok(LockRequest::Lock { lock_id }) if lock_id == "L"
    ));
    assert!(refused(ask(text("LOCK"), None), 400));
    assert!(refused(ask(text("LOCK"), text("")), 400));
    assert!(matches!(
        ask(text("UNLOCK"), None),
        Ok(LockRequest::Unlock { lock_id }) if lock_id.is_empty()
    ));
    assert!(matches!(
        ask(text("REFRESH_LOCK"), text("L")),
        Ok(LockRequest::Refresh { lock_id }) if lock_id == "L"
    ));
    assert!(matches!(ask(text("GET_LOCK"), text("L")), Ok(LockRequest::Get)));
    for unknown in [None, text("PUT_RELATIVE"), text("lock")] {
        let reply = ask(unknown, text("L")).err().unwrap();
        assert!(is_plain(&reply, 501, "Unknown WOPI override"));
    }
}

#[test]
fn lock_answers_name_the_lock() {
    assert!(is_plain(&lock_changed(Ok(())), 200, ""));
    let reply = lock_changed(Err("held".to_string()));
    assert_eq!((reply.status, reply.lock.as_deref()), (409, Some("held")));
    assert_eq!(reply.body, "");
    let reply = lock_read(text("L"));
    assert_eq!((reply.status, reply.lock.as_deref()), (200, Some("L")));
    assert_eq!(lock_read(None).lock.as_deref(), Some(""));
}

#[test]
fn access_depends_on_the_action() {
    assert_eq!(default_action(), "edit");
    assert!(authorize_wopi_access(Some(file("a.odt")), "edit").unwrap().1);
    assert!(authorize_wopi_access(Some(file("a.odt")), "").unwrap().1);
    assert!(!authorize_wopi_access(Some(file("a.odt")), "view").unwrap().1);
    assert!(refused(authorize_wopi_access(None, "view"), 404));
}

#[test]
fn editors_are_opened() {
    let params = |action: &str| EditorUrlParams {
        file_id: "f1".to_string(),
        action: action.to_string(),
    };
    let ask = || state().get_editor_url(params("edit"), Some(file("Report.Final.DOCX"))).unwrap();
    assert_eq!(ask().extension, "docx");
    assert_eq!(ask().wopi_src, "http://internal:8080/wopi/files/f1");
    assert!(ask().can_write);
    assert!(
        !state().get_editor_url(params("view"), Some(file("a.odt"))).unwrap().can_write
    );
    assert!(refused(state().get_editor_url(params("edit"), None), 404));
    assert!(is_plain(
        &ask().answered(EditorLookup::NotFound).err().unwrap(),
        422,
        "No editor available for .docx files"
    ));
    assert!(refused(ask().answered(EditorLookup::Failed), 500));
    let token = || ask().answered(EditorLookup::Found("https://editor/x".into())).unwrap();
    assert!(token().can_write);
    assert_eq!(token().file_id, "f1");
    assert!(refused(token().generated(None), 500));
    let response = token().generated(Some(("tok".into(), 99))).unwrap();
    assert_eq!(response.editor_url, "https://editor/x");
    assert_eq!(response.access_token, "tok");
    assert_eq!(response.access_token_ttl, 99);
}

#[test]
fn names_without_a_dot_are_their_own_extension() {
    let params = EditorUrlParams { file_id: "f1".to_string(), action: "edit".to_string() };
    let ask = state().get_editor_url(params, Some(file("ÄRGER"))).unwrap();
    assert_eq!(ask.extension, "ärger");
}

#[test]
fn extensions_are_listed() {
    assert_eq!(get_supported_extensions(Ok(vec!["odt".to_string()])), vec!["odt"]);
    assert!(get_supported_extensions(Err("down".to_string())).is_empty());
    assert!(is_plain(&wopi_not_found(), 404, ""));
}

#[test]
fn host_pages_are_for_known_users() {
    let page = host_page(claims(true), "f1").unwrap();
    assert!(page.caller == Uuid { value: 7 });
    assert_eq!(page.action, "edit");
    let mut stranger = claims(true).unwrap();
    stranger.sub = "nobody".to_string();
    assert!(refused(host_page(Some(stranger), "f1"), 401));
    assert!(refused(host_page(None, "f1"), 401));
    assert!(refused(host_page_for(claims(true), "f1", None), 401));
}

#[test]
fn host_pages_post_the_token() {
    let found = |name: &str| {
        let page = host_page(claims(true), "f1").unwrap();
        state().host_file_found(page, Some(file(name)))
    };
    let page = host_page(claims(true), "f1").unwrap();
    assert!(refused(state().host_file_found(page, None), 404));
    let editor = found("a \"<b>\".odt").unwrap();
    assert_eq!(editor.extension, "odt");
    assert_eq!(editor.action, "edit");
    assert_eq!(editor.wopi_src, "http://internal:8080/wopi/files/f1");
    assert!(refused(found("a.odt").unwrap().answered(EditorLookup::NotFound), 500));
    assert!(refused(found("a.odt").unwrap().answered(EditorLookup::Failed), 500));
    let token = editor.answered(EditorLookup::Found("https://editor/x".into())).unwrap();
    let html = token.generated(Some(("tok".to_string(), -5))).unwrap();
    let expected = r#"<!DOCTYPE html>
<html>
<head>
    <meta charset="utf-8">
    <title>a &quot;&lt;b&gt;&quot;.odt - OxiCloud Editor</title>
    <style>
        body { margin: 0; overflow: hidden; }
        iframe { width: 100%; height: 100vh; border: none; }
    </style>
</head>
<body>
    <form id="wopi_form" action="https://editor/x" method="post" target="wopi_frame">
        <input name="access_token" value="tok" type="hidden"/>
        <input name="access_token_ttl" value="-5" type="hidden"/>
    </form>
    <iframe name="wopi_frame" allowfullscreen
        sandbox="allow-scripts allow-same-origin allow-forms allow-popups allow-top-navigation allow-popups-to-escape-sandbox">
    </iframe>
    <script>document.getElementById('wopi_form').submit();</script>
</body>
</html>"#;
    assert_eq!(html, expected);
    let token = found("a.odt").unwrap().answered(EditorLookup::Found("u".into())).unwrap();
    assert!(refused(token.generated(None), 500));
}
