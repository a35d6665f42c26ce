//! Invitations and sign-ins by mail.

use vstd::prelude::*;
use vstd::string::*;

use crate::clock;
use crate::clock::UtcTime;
use crate::email::EmailMessage;
use crate::errors::{DomainError, ErrorKind};
use crate::laws::shared;
use crate::magic_link::{
    user_saved, AnnounceUser, FindAccount, FindRecipient, LinkMail, LoginLinkOutcome,
    MagicLinkConfig, MagicLinkInviteService, MagicLinkResourceKind, MailPurpose, MintLink,
    NewExternalUser, ProvisionUser, RecipientStep, Resource, ResourceKind, SaveUser, User,
    UserLookup,
};
use crate::text;

verus! {

// ── Recipients ──────────────────────────────────────────────────────────────

/// A service goes by the settings and the address that it was given.
pub proof fn law_services_keep_their_settings(
    settings: MagicLinkConfig,
    address: String,
    service: MagicLinkInviteService,
)
    requires
        call_ensures(MagicLinkInviteService::new, (settings, address), service),
    ensures
        service.magic_link_cfg.allow_external_users == settings.allow_external_users,
        service.magic_link_cfg.ttl_hours == settings.ttl_hours,
        service.public_base_url@ == address@,
{
}

/// A recipient is looked for exactly where the address has a normal form and is
/// allowed, and then under that form. The other two cases are told apart: the
/// reason why there is no normal form is handed on, and the address that is not
/// allowed is named.
pub proof fn law_recipients_are_looked_for_under_allowed_addresses(
    service: MagicLinkInviteService,
    normalised: Result<String, String>,
    allowed: bool,
    next: Result<FindRecipient, DomainError>,
)
    requires
        call_ensures(
            MagicLinkInviteService::resolve_or_create_recipient,
            (&service, normalised, allowed),
            next,
        ),
    ensures
        next is Ok <==> normalised is Ok && allowed,
        next matches Ok(find) ==> find.email@ == normalised->Ok_0@,
        normalised matches Err(reason) ==> shared::reports(
            next->Err_0,
            ErrorKind::InvalidInput,
            "MagicLinkInvite"@,
            reason@,
        ),
        normalised is Ok && !allowed ==> shared::reports(
            next->Err_0,
            ErrorKind::AccessDenied,
            "MagicLinkInvite"@,
            "Email domain is not in the allowlist (OXICLOUD_EXTERNAL_EMAIL_DOMAINS); refusing to invite "@
                + normalised->Ok_0@,
        ),
{
}

/// A user who exists is the recipient; where there is none, one is to be
/// created under the address that was looked for. A failure is handed on.
pub proof fn law_users_who_exist_are_not_created(
    find: FindRecipient,
    reply: UserLookup,
    next: Result<RecipientStep, DomainError>,
)
    requires
        call_ensures(FindRecipient::looked_up, (find, reply), next),
    ensures
        next is Err <==> reply is Failed,
        reply matches UserLookup::Failed(e) ==> next->Err_0 == e,
        reply matches UserLookup::Found(user) ==> next->Ok_0 == RecipientStep::Known(user),
        reply is NotFound ==> (next matches Ok(RecipientStep::Provision(wanted)) && wanted.email@
            == find.email@),
{
}

/// A user from outside is created exactly where the server allows it and the
/// address is allowed: under that address, as a plain user without a name, a
/// password or storage. Where the server does not allow it, the address is of no
/// account.
pub proof fn law_users_from_outside(
    service: MagicLinkInviteService,
    request: ProvisionUser,
    allowed: bool,
    next: Result<NewExternalUser, DomainError>,
)
    requires
        call_ensures(
            MagicLinkInviteService::create_external_user,
            (&service, request, allowed),
            next,
        ),
    ensures
        next is Ok <==> service.magic_link_cfg.allow_external_users && allowed,
        next matches Ok(user) ==> {
            &&& user.email@ == request.email@
            &&& user.username is None
            &&& user.password_hash is None
            &&& user.role is User
            &&& user.storage_quota_bytes == 0
            &&& user.is_external
        },
        !service.magic_link_cfg.allow_external_users ==> shared::reports(
            next->Err_0,
            ErrorKind::AccessDenied,
            "MagicLinkInvite"@,
            "Creating external users is disabled on this server (OXICLOUD_ALLOW_EXTERNAL_USERS=false)"@,
        ),
        service.magic_link_cfg.allow_external_users && !allowed ==> shared::reports(
            next->Err_0,
            ErrorKind::AccessDenied,
            "MagicLinkInvite"@,
            "Email domain is not in the allowlist (OXICLOUD_EXTERNAL_EMAIL_DOMAINS); refusing to invite "@
                + request.email@,
        ),
{
}

/// What is saved is what was made of the data, who is announced is who was
/// saved, and the recipient is who was announced. Each failure ends the
/// creation.
pub proof fn law_created_users_are_who_was_saved<D>(
    draft: Result<D, String>,
    save: Result<SaveUser<D>, DomainError>,
    saved: Result<User, DomainError>,
    announce: Result<AnnounceUser, DomainError>,
    recipient: User,
)
    requires
        call_ensures(NewExternalUser::built::<D>, (draft,), save),
        call_ensures(user_saved, (saved,), announce),
        announce matches Ok(a) ==> call_ensures(AnnounceUser::announced, (a,), recipient),
    ensures
        save is Ok <==> draft is Ok,
        save matches Ok(s) ==> s.draft == draft->Ok_0,
        draft matches Err(reason) ==> shared::reports(
            save->Err_0,
            ErrorKind::InvalidInput,
            "MagicLinkInvite"@,
            "invalid external user data: "@ + reason@,
        ),
        announce is Ok <==> saved is Ok,
        saved matches Ok(user) ==> announce->Ok_0.user == user && recipient == user,
        saved matches Err(e) ==> announce->Err_0 == e,
{
}

// ── Invitations ─────────────────────────────────────────────────────────────

/// The kinds of what can be shared have their namesakes.
pub proof fn law_kinds_keep_their_names(kind: ResourceKind, own: MagicLinkResourceKind)
    requires
        call_ensures(<MagicLinkResourceKind as From<ResourceKind>>::from, (kind,), own),
    ensures
        own is File <==> kind is File,
        own is Folder <==> kind is Folder,
{
}

/// Exactly those who cannot sign in otherwise get a link. It is sent to their
/// address and lets them in as themselves, for as long as the settings say.
pub proof fn law_links_are_for_those_who_cannot_sign_in_otherwise(
    service: MagicLinkInviteService,
    recipient: User,
    inviter: &str,
    resource: Resource,
    next: Option<MintLink>,
)
    requires
        call_ensures(
            MagicLinkInviteService::issue_invitation,
            (&service, &recipient, inviter, resource),
            next,
        ),
    ensures
        next is Some <==> !recipient.has_login_credential,
        next matches Some(mint) ==> {
            &&& mint.to@ == recipient.email@
            &&& mint.request.user_id == recipient.id
            &&& mint.request.ttl_hours == service.magic_link_cfg.ttl_hours
        },
{
}

/// A link leads to what was shared: for a file to that file, for a folder to
/// that folder.
pub proof fn law_links_lead_to_what_was_shared(
    service: MagicLinkInviteService,
    recipient: User,
    inviter: &str,
    resource: Resource,
    next: Option<MintLink>,
)
    requires
        call_ensures(
            MagicLinkInviteService::issue_invitation,
            (&service, &recipient, inviter, resource),
            next,
        ),
        !recipient.has_login_credential,
    ensures
        next is Some,
        resource matches Resource::File(id) ==> next->0.request.target == Some(
            (MagicLinkResourceKind::File, id),
        ),
        resource matches Resource::Folder(id) ==> next->0.request.target == Some(
            (MagicLinkResourceKind::Folder, id),
        ),
        next->0.purpose matches MailPurpose::Invitation { inviter: by, resource: shared }
            && by@ == inviter@ && shared == resource,
{
}

/// Links to different resources have different targets, whoever they are for.
pub proof fn law_different_resources_have_different_targets(
    service: MagicLinkInviteService,
    recipient: User,
    inviter: &str,
    resource: Resource,
    next: Option<MintLink>,
    other_recipient: User,
    other_inviter: &str,
    other_resource: Resource,
    other_next: Option<MintLink>,
)
    requires
        call_ensures(
            MagicLinkInviteService::issue_invitation,
            (&service, &recipient, inviter, resource),
            next,
        ),
        call_ensures(
            MagicLinkInviteService::issue_invitation,
            (&service, &other_recipient, other_inviter, other_resource),
            other_next,
        ),
        !recipient.has_login_credential,
        !other_recipient.has_login_credential,
    ensures
        next is Some && other_next is Some,
        next->0.request.target == other_next->0.request.target <==> resource == other_resource,
{
}

// ── Links ───────────────────────────────────────────────────────────────────

/// `link` leads to the token at that server: the address of the server up to
/// its last character that is no slash, the place for links, and the token.
pub open spec fn is_link(link: Seq<char>, address: Seq<char>, token: Seq<char>) -> bool {
    exists|base: Seq<char>, slashes: Seq<char>|
        {
            &&& #[trigger] (base + slashes) == address
            &&& forall|i: int| 0 <= i < slashes.len() ==> slashes[i] == '/'
            &&& base.len() > 0 ==> base.last() != '/'
            &&& link == base + "/magic/v1/"@ + token
        }
}

proof fn lemma_link(address: Seq<char>, token: Seq<char>)
    ensures
        is_link(text::without_trailing(address, '/') + "/magic/v1/"@ + token, address, token),
{
    shared::law_trimmed_text(address, '/');
    let base = text::without_trailing(address, '/');
    let slashes = address.skip(base.len() as int);
    assert(base + slashes =~= address);
}

/// The message with a link goes to the one whom it was asked for, for the same
/// purpose and the same time, with a link to the token that was saved. Without
/// a token there is no message, and the failure is reported.
pub proof fn law_messages_hold_the_token_that_was_saved(
    service: MagicLinkInviteService,
    mint: MintLink,
    reply: Result<String, DomainError>,
    invitation: Result<LinkMail, DomainError>,
    sign_in: Result<LinkMail, LoginLinkOutcome>,
)
    requires
        call_ensures(
            MagicLinkInviteService::invitation_minted,
            (&service, mint, reply),
            invitation,
        ),
        call_ensures(MagicLinkInviteService::login_link_minted, (&service, mint, reply), sign_in),
    ensures
        invitation is Ok <==> reply is Ok,
        sign_in is Ok <==> reply is Ok,
        reply matches Err(e) ==> invitation->Err_0 == e && sign_in->Err_0
            == LoginLinkOutcome::TokenNotSaved(e),
        reply matches Ok(token) ==> {
            &&& invitation->Ok_0.to@ == mint.to@
            &&& invitation->Ok_0.ttl_hours == mint.request.ttl_hours
            &&& invitation->Ok_0.purpose == mint.purpose
            &&& is_link(invitation->Ok_0.link@, service.public_base_url@, token@)
            &&& sign_in->Ok_0.to@ == mint.to@
            &&& sign_in->Ok_0.ttl_hours == mint.request.ttl_hours
            &&& sign_in->Ok_0.purpose == mint.purpose
            &&& is_link(sign_in->Ok_0.link@, service.public_base_url@, token@)
        },
{
    if reply is Ok {
        lemma_link(service.public_base_url@, reply->Ok_0@);
    }
}

/// Different tokens give different links.
pub proof fn law_links_differ_with_the_token(
    service: MagicLinkInviteService,
    mint: MintLink,
    token: String,
    mail: Result<LinkMail, DomainError>,
    other_mint: MintLink,
    other_token: String,
    other_mail: Result<LinkMail, DomainError>,
)
    requires
        call_ensures(
            MagicLinkInviteService::invitation_minted,
            (&service, mint, Ok::<String, DomainError>(token)),
            mail,
        ),
        call_ensures(
            MagicLinkInviteService::invitation_minted,
            (&service, other_mint, Ok::<String, DomainError>(other_token)),
            other_mail,
        ),
    ensures
        mail is Ok && other_mail is Ok,
        mail->Ok_0.link@ == other_mail->Ok_0.link@ <==> token@ == other_token@,
{
    let head = text::without_trailing(service.public_base_url@, '/') + "/magic/v1/"@;
    if mail->Ok_0.link@ == other_mail->Ok_0.link@ {
        assert(head + token@ + Seq::<char>::empty() =~= mail->Ok_0.link@);
        assert(head + other_token@ + Seq::<char>::empty() =~= mail->Ok_0.link@);
        shared::lemma_same_middle(head, token@, other_token@, Seq::empty());
    }
}

/// What was shared stays shared, whether or not the message could be sent.
pub proof fn law_invitations_do_not_fail_for_want_of_mail(
    reply: Result<(), DomainError>,
    outcome: Result<(), DomainError>,
)
    requires
        call_ensures(MagicLinkInviteService::invitation_sent, (&reply,), outcome),
    ensures
        outcome is Ok,
{
}

// ── Messages ────────────────────────────────────────────────────────────────

/// The word for what was shared.
pub open spec fn word_for(resource: Resource) -> Seq<char> {
    match resource {
        Resource::Folder(_) => "folder"@,
        Resource::File(_) => "file"@,
    }
}

/// The text of an invitation.
pub open spec fn invitation_text(
    inviter: Seq<char>,
    word: Seq<char>,
    link: Seq<char>,
    hours: Seq<char>,
    date: Seq<char>,
) -> Seq<char> {
    inviter + " shared a "@ + word
        + " with you on OxiCloud.\n\nOpen it by clicking the link below:\n"@ + link
        + "\n\nThe link works once and expires in "@ + hours
        + " hours.\nIf you didn't expect this invitation, you can safely ignore this message.\n\n— OxiCloud, "@
        + date + "\n"@
}

/// The text of a message to sign in with.
pub open spec fn sign_in_text(link: Seq<char>, hours: Seq<char>, date: Seq<char>) -> Seq<char> {
    "Hello,\n\nUse the link below to sign in to OxiCloud. The link works once and expires in "@
        + hours + " hours.\n\n"@ + link
        + "\n\nIf you didn't request this sign-in link, you can safely ignore this message — no further action is needed.\n\n— OxiCloud, "@
        + date + "\n"@
}

/// `message` is written for `mail` with that date: in plain text, to the
/// recipient, with the link and with the hours in decimal; an invitation names
/// who shared and what kind of thing.
pub open spec fn is_message(message: EmailMessage, mail: LinkMail, date: Seq<char>) -> bool {
    &&& message.to@ == mail.to@
    &&& message.html_body is None
    &&& match mail.purpose {
        MailPurpose::Invitation { inviter, resource } => {
            &&& message.subject@ == inviter@ + " shared a "@ + word_for(resource)
                + " with you on OxiCloud"@
            &&& message.text_body@ == invitation_text(
                inviter@,
                word_for(resource),
                mail.link@,
                text::decimal(mail.ttl_hours as nat),
                date,
            )
        },
        MailPurpose::SignIn => {
            &&& message.subject@ == "Sign in to OxiCloud"@
            &&& message.text_body@ == sign_in_text(
                mail.link@,
                text::decimal(mail.ttl_hours as nat),
                date,
            )
        },
    }
}

/// Messages are written as above: with the date that is given, with that of a
/// point in time, or with that of the present, which the calendar reaches.
pub proof fn law_messages(
    mail: LinkMail,
    date: &str,
    dated: EmailMessage,
    now: UtcTime,
    at: EmailMessage,
    present: EmailMessage,
)
    requires
        call_ensures(LinkMail::compose_dated, (&mail, date), dated),
        call_ensures(LinkMail::compose_at, (&mail, now), at),
        call_ensures(LinkMail::compose, (&mail,), present),
    ensures
        is_message(dated, mail, date@),
        match clock::rfc3339(now.secs, now.nanos) {
            Some(written) => is_message(at, mail, written),
            None => is_message(at, mail, Seq::empty()),
        },
        exists|secs: i64, nanos: u32|
            #[trigger] clock::rfc3339(secs, nanos) is Some && is_message(
                present,
                mail,
                clock::rfc3339(secs, nanos)->0,
            ),
{
    let then = choose|now: UtcTime|
        clock::rfc3339(now.secs, now.nanos) is Some && #[trigger] crate::magic_link::is_written(
            present,
            mail,
            now,
        );
    assert(is_message(present, mail, clock::rfc3339(then.secs, then.nanos)->0));
}

/// Messages that differ only in their link, or only in how long it works, have
/// different texts.
pub proof fn law_messages_differ_with_the_link(
    mail: LinkMail,
    other: LinkMail,
    date: &str,
    message: EmailMessage,
    other_message: EmailMessage,
)
    requires
        call_ensures(LinkMail::compose_dated, (&mail, date), message),
        call_ensures(LinkMail::compose_dated, (&other, date), other_message),
        mail.purpose == other.purpose,
        mail.link@ == other.link@ || mail.ttl_hours == other.ttl_hours,
    ensures
        message.text_body@ == other_message.text_body@ <==> mail.link@ == other.link@
            && mail.ttl_hours == other.ttl_hours,
{
    let a = text::decimal(mail.ttl_hours as nat);
    let b = text::decimal(other.ttl_hours as nat);
    shared::law_decimal_denotes_its_number(mail.ttl_hours as nat);
    shared::law_decimal_denotes_its_number(other.ttl_hours as nat);
    let x = message.text_body@;
    let y = other_message.text_body@;
    if x == y {
        match mail.purpose {
            MailPurpose::Invitation { inviter, resource } => {
                let opening = inviter@ + " shared a "@ + word_for(resource)
                    + " with you on OxiCloud.\n\nOpen it by clicking the link below:\n"@;
                let expiry = "\n\nThe link works once and expires in "@;
                let closing =
                    " hours.\nIf you didn't expect this invitation, you can safely ignore this message.\n\n— OxiCloud, "@
                    + date@ + "\n"@;
                if mail.link@ == other.link@ {
                    let head = opening + mail.link@ + expiry;
                    assert(x =~= head + a + closing);
                    assert(y =~= head + b + closing);
                    shared::lemma_same_middle(head, a, b, closing);
                } else {
                    let tail = expiry + a + closing;
                    assert(x =~= opening + mail.link@ + tail);
                    assert(y =~= opening + other.link@ + tail);
                    shared::lemma_same_middle(opening, mail.link@, other.link@, tail);
                }
            },
            MailPurpose::SignIn => {
                let opening =
                    "Hello,\n\nUse the link below to sign in to OxiCloud. The link works once and expires in "@;
                let hours = " hours.\n\n"@;
                let closing =
                    "\n\nIf you didn't request this sign-in link, you can safely ignore this message — no further action is needed.\n\n— OxiCloud, "@
                    + date@ + "\n"@;
                if mail.link@ == other.link@ {
                    let tail = hours + mail.link@ + closing;
                    assert(x =~= opening + a + tail);
                    assert(y =~= opening + b + tail);
                    shared::lemma_same_middle(opening, a, b, tail);
                } else {
                    let head = opening + a + hours;
                    assert(x =~= head + mail.link@ + closing);
                    assert(y =~= head + other.link@ + closing);
                    shared::lemma_same_middle(head, mail.link@, other.link@, closing);
                }
            },
        }
    }
}

// ── Signing in ──────────────────────────────────────────────────────────────

/// Who wants to sign in is looked for under the normal form of the address,
/// where it has one.
pub proof fn law_accounts_are_looked_for_under_the_address(
    service: MagicLinkInviteService,
    normalised: Result<String, String>,
    next: Result<FindAccount, LoginLinkOutcome>,
)
    requires
        call_ensures(MagicLinkInviteService::send_login_link, (&service, normalised), next),
    ensures
        next is Ok <==> normalised is Ok,
        next matches Ok(find) ==> find.email@ == normalised->Ok_0@,
        normalised matches Err(reason) ==> next->Err_0 == LoginLinkOutcome::MalformedEmail(reason),
{
}

/// A link to sign in with goes exactly to an active user who cannot sign in
/// otherwise: to the address of that user, for that user, for as long as the
/// settings say, and to no place of its own. Of the others, each case is told
/// apart; a user who can sign in otherwise is so whether active or not.
pub proof fn law_links_to_sign_in_are_for_active_users(
    service: MagicLinkInviteService,
    reply: UserLookup,
    next: Result<MintLink, LoginLinkOutcome>,
)
    requires
        call_ensures(MagicLinkInviteService::account_looked_up, (&service, reply), next),
    ensures
        next is Ok <==> (reply matches UserLookup::Found(user) && !user.has_login_credential
            && user.is_active),
        next matches Ok(mint) ==> {
            &&& mint.to@ == reply->Found_0.email@
            &&& mint.request.user_id == reply->Found_0.id
            &&& mint.request.ttl_hours == service.magic_link_cfg.ttl_hours
            &&& mint.request.target is None
            &&& mint.purpose is SignIn
        },
        reply is NotFound ==> next->Err_0 is NoAccount,
        reply matches UserLookup::Failed(e) ==> next->Err_0 == LoginLinkOutcome::LookupFailed(e),
        reply matches UserLookup::Found(user) ==> {
            &&& user.has_login_credential ==> next->Err_0 is HasCredential
            &&& !user.has_login_credential && !user.is_active ==> next->Err_0
                is AccountDeactivated
        },
{
}

/// What became of the message is known.
pub proof fn law_sent_links_are_told_from_lost_ones(
    reply: Result<(), DomainError>,
    outcome: LoginLinkOutcome,
)
    requires
        call_ensures(MagicLinkInviteService::login_link_sent, (reply,), outcome),
    ensures
        outcome is Sent <==> reply is Ok,
        reply matches Err(e) ==> outcome == LoginLinkOutcome::SendFailed(e),
{
}

/// Each outcome has its word in the log.
pub proof fn law_words_for_outcomes(outcome: LoginLinkOutcome, word: &'static str)
    requires
        call_ensures(LoginLinkOutcome::reason, (&outcome,), word),
    ensures
        outcome is MalformedEmail ==> word@ == "malformed_email"@,
        outcome is NoAccount ==> word@ == "no_account"@,
        outcome is LookupFailed ==> word@ == "lookup_failed"@,
        outcome is HasCredential ==> word@ == "has_credential"@,
        outcome is AccountDeactivated ==> word@ == "account_deactivated"@,
        outcome is TokenNotSaved ==> word@ == "token_not_saved"@,
        outcome is Sent ==> word@ == "sent"@,
        outcome is SendFailed ==> word@ == "send_failed"@,
{
}

/// The answer does not tell what became of the wish: it is the same for any two
/// outcomes, and never a failure.
pub proof fn law_answers_do_not_tell_outcomes_apart(
    outcome: LoginLinkOutcome,
    answer: Result<(), DomainError>,
    other: LoginLinkOutcome,
    other_answer: Result<(), DomainError>,
)
    requires
        call_ensures(LoginLinkOutcome::answer, (&outcome,), answer),
        call_ensures(LoginLinkOutcome::answer, (&other,), other_answer),
    ensures
        answer is Ok,
        answer == other_answer,
{
}

} // verus!
