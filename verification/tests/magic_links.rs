use oxicloud::clock::UtcTime;
use oxicloud::errors::{DomainError, ErrorKind};
use oxicloud::identifier::Uuid;
use oxicloud::magic_link::{
    user_saved, LinkMail, LoginLinkOutcome, MagicLinkConfig, MagicLinkInviteService, MagicLinkResourceKind,
    MailPurpose, NewExternalUser, ProvisionUser, RecipientStep, Resource, ResourceKind, User,
    UserLookup, UserRole,
};

fn service(allow_external_users: bool) -> MagicLinkInviteService {
    MagicLinkInviteService::new(
        MagicLinkConfig { allow_external_users, ttl_hours: 48 },
        "https://cloud.example//".to_string(),
    )
}

fn user(has_login_credential: bool, is_active: bool) -> User {
    User {
        id: Uuid { value: 7 },
        email: "guest@example.org".to_string(),
        has_login_credential,
        is_active,
    }
}

fn failure() -> DomainError {
    DomainError::database_error("down".to_string())
}

fn is_invite_error<T>(outcome: Result<T, DomainError>, kind: ErrorKind, message: &str) -> bool {
    match outcome {
        Ok(_) => false,
        Err(e) => e.kind == kind && e.entity == "MagicLinkInvite" && e.message == message,
    }
}

#[test]
fn recipients_are_found() {
    let s = service(true);
    let find = || s.resolve_or_create_recipient(Ok("guest@example.org".into()), true).unwrap();
    assert!(matches!(
        find().looked_up(UserLookup::Found(user(true, true))),
        Ok(RecipientStep::Known(u)) if u.id.value == 7
    ));
    assert!(matches!(
        find().looked_up(UserLookup::NotFound),
        Ok(RecipientStep::Provision(p)) if p.email == "guest@example.org"
    ));
    assert!(matches!(
        find().looked_up(UserLookup::Failed(failure())),
        Err(e) if e.message == "down"
    ));
    for allowed in [true, false] {
        assert!(is_invite_error(
            s.resolve_or_create_recipient(Err("too long".into()), allowed),
            ErrorKind::InvalidInput,
            "too long"
        ));
    }
    for allow_external_users in [true, false] {
        assert!(is_invite_error(
            service(allow_external_users)
                .resolve_or_create_recipient(Ok("guest@example.org".into()), false),
            ErrorKind::AccessDenied,
            "Email domain is not in the allowlist (OXICLOUD_EXTERNAL_EMAIL_DOMAINS); refusing to invite guest@example.org"
        ));
    }
}

#[test]
fn external_users_are_created_where_allowed() {
    let request = || ProvisionUser { email: "guest@example.org".to_string() };
    let new = service(true).create_external_user(request(), true).unwrap();
    assert_eq!(new.email, "guest@example.org");
    assert!(new.username.is_none() && new.password_hash.is_none());
    assert!(new.role == UserRole::User && new.is_external);
    assert_eq!(new.storage_quota_bytes, 0);
    for allowed in [true, false] {
        assert!(is_invite_error(
            service(false).create_external_user(request(), allowed),
            ErrorKind::AccessDenied,
            "Creating external users is disabled on this server (OXICLOUD_ALLOW_EXTERNAL_USERS=false)"
        ));
    }
    assert!(is_invite_error(
        service(true).create_external_user(request(), false),
        ErrorKind::AccessDenied,
        "Email domain is not in the allowlist (OXICLOUD_EXTERNAL_EMAIL_DOMAINS); refusing to invite guest@example.org"
    ));
    assert_eq!(NewExternalUser::built(Ok(5)).unwrap().draft, 5);
    assert!(is_invite_error(
        NewExternalUser::built::<()>(Err("bad".into())),
        ErrorKind::InvalidInput,
        "invalid external user data: bad"
    ));
}

#[test]
fn new_users_are_announced_once_saved() {
    let announce = user_saved(Ok(user(false, true))).unwrap();
    assert!(announce.user.id.value == 7);
    assert_eq!(announce.announced().email, "guest@example.org");
    assert!(matches!(user_saved(Err(failure())), Err(e) if e.message == "down"));
}

#[test]
fn kinds_are_converted() {
    assert!(
        MagicLinkResourceKind::from(ResourceKind::Folder) == MagicLinkResourceKind::Folder
    );
    assert!(MagicLinkResourceKind::from(ResourceKind::File) == MagicLinkResourceKind::File);
}

#[test]
fn invitations_carry_a_link() {
    let s = service(true);
    let folder = Resource::Folder(Uuid { value: 3 });
    let mint = s.issue_invitation(&user(false, true), "alice", folder).unwrap();
    assert!(mint.request.user_id.value == 7);
    assert_eq!(mint.request.ttl_hours, 48);
    assert!(mint.request.target == Some((MagicLinkResourceKind::Folder, Uuid { value: 3 })));
    let mail = s.invitation_minted(mint, Ok("tok".into())).unwrap();
    assert_eq!(mail.link, "https://cloud.example/magic/v1/tok");
    let message = mail.compose_at(UtcTime { secs: 0, nanos: 0 });
    assert_eq!(message.to, "guest@example.org");
    assert_eq!(message.subject, "alice shared a folder with you on OxiCloud");
    assert_eq!(
        message.text_body,
        "alice shared a folder with you on OxiCloud.\n\
         \n\
         Open it by clicking the link below:\n\
         https://cloud.example/magic/v1/tok\n\
         \n\
         The link works once and expires in 48 hours.\n\
         If you didn't expect this invitation, you can safely ignore this message.\n\
         \n\
         — OxiCloud, 1970-01-01T00:00:00+00:00\n"
    );
    assert!(message.html_body.is_none());
}

#[test]
fn users_with_credentials_get_no_link() {
    let file = Resource::File(Uuid { value: 3 });
    assert!(service(true).issue_invitation(&user(true, true), "alice", file).is_none());
}

#[test]
fn invitations_survive_a_failed_message() {
    let s = service(true);
    let file = Resource::File(Uuid { value: 3 });
    let mint = s.issue_invitation(&user(false, true), "alice", file).unwrap();
    assert!(matches!(mint.purpose, MailPurpose::Invitation { .. }));
    assert!(matches!(
        s.invitation_minted(mint, Err(failure())),
        Err(e) if e.message == "down"
    ));
    assert!(MagicLinkInviteService::invitation_sent(&Ok(())).is_ok());
    assert!(MagicLinkInviteService::invitation_sent(&Err(failure())).is_ok());
}

#[test]
fn sign_in_links_are_sent() {
    let s = service(true);
    let find = s.send_login_link(Ok("guest@example.org".into())).unwrap();
    assert_eq!(find.email, "guest@example.org");
    let mint = s.account_looked_up(UserLookup::Found(user(false, true))).unwrap();
    assert!(mint.request.target.is_none());
    let mail = s.login_link_minted(mint, Ok("tok".into())).unwrap();
    let message = mail.compose_at(UtcTime { secs: 0, nanos: 0 });
    assert_eq!(message.subject, "Sign in to OxiCloud");
    assert_eq!(
        message.text_body,
        "Hello,\n\
         \n\
         Use the link below to sign in to OxiCloud. The link works \
         once and expires in 48 hours.\n\
         \n\
         https://cloud.example/magic/v1/tok\n\
         \n\
         If you didn't request this sign-in link, you can safely \
         ignore this message — no further action is needed.\n\
         \n\
         — OxiCloud, 1970-01-01T00:00:00+00:00\n"
    );
    let outcome = MagicLinkInviteService::login_link_sent(Ok(()));
    assert_eq!(outcome.reason(), "sent");
    assert!(outcome.answer().is_ok());
}

#[test]
fn messages_carry_the_present_time() {
    let mail = LinkMail {
        to: "a@example.org".to_string(),
        link: "l".to_string(),
        ttl_hours: 1,
        purpose: MailPurpose::SignIn,
    };
    assert!(mail.compose_dated("today").text_body.ends_with("— OxiCloud, today\n"));
    let body = mail.compose().text_body;
    let date = body.rsplit("— OxiCloud, ").next().unwrap();
    assert!(date.starts_with("20") && date.ends_with("+00:00\n"));
    assert!(date > "2024");
}

#[test]
fn every_outcome_is_answered_alike() {
    let s = service(true);
    let mut outcomes = Vec::new();
    outcomes.extend(s.send_login_link(Err("malformed".into())).err());
    outcomes.extend(s.account_looked_up(UserLookup::NotFound).err());
    outcomes.extend(s.account_looked_up(UserLookup::Failed(failure())).err());
    outcomes.extend(s.account_looked_up(UserLookup::Found(user(true, false))).err());
    outcomes.extend(s.account_looked_up(UserLookup::Found(user(false, false))).err());
    let mint = s.account_looked_up(UserLookup::Found(user(false, true))).ok().unwrap();
    outcomes.extend(s.login_link_minted(mint, Err(failure())).err());
    outcomes.push(MagicLinkInviteService::login_link_sent(Err(failure())));
    outcomes.push(LoginLinkOutcome::Sent);
    let reasons: Vec<&str> = outcomes.iter().map(|o| o.reason()).collect();
    assert_eq!(
        reasons,
        vec![
            "malformed_email",
            "no_account",
            "lookup_failed",
            "has_credential",
            "account_deactivated",
            "token_not_saved",
            "send_failed",
            "sent",
        ]
    );
    for outcome in &outcomes {
        assert!(outcome.answer().is_ok());
    }
}

#[test]
fn trailing_slashes_of_the_base_address_do_not_matter() {
    for base in ["https://c.example", "https://c.example/", "https://c.example///"] {
        let s = MagicLinkInviteService::new(
            MagicLinkConfig { allow_external_users: true, ttl_hours: 1 },
            base.to_string(),
        );
        let mint = s.account_looked_up(UserLookup::Found(user(false, true))).ok().unwrap();
        let mail = s.login_link_minted(mint, Ok("t".into())).ok().unwrap();
        assert_eq!(mail.link, "https://c.example/magic/v1/t");
    }
}
