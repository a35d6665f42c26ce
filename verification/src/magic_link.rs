//! Invitations and sign-ins by mail.
//!
//! Whoever has no other way to sign in gets a link by mail that works once.
//! Users, tokens and mail lie outside. Each type below stands for one request
//! to them; the method that takes the reply says what comes next.

use vstd::prelude::*;
use vstd::string::*;

use crate::clock;
use crate::clock::UtcTime;
use crate::email::EmailMessage;
use crate::errors::{DomainError, ErrorKind};
use crate::identifier::Uuid;
use crate::text;
use crate::text::{decimal_text, trim_end};

verus! {

/// What is shared.
#[derive(Clone, Copy, PartialEq, Eq, Structural, Debug)]
pub enum Resource {
    Folder(Uuid),
    File(Uuid),
}

/// The kinds of what is shared.
#[derive(Clone, Copy, PartialEq, Eq, Structural, Debug)]
pub enum ResourceKind {
    Folder,
    File,
}

/// The kinds of what a magic link can lead to.
#[derive(Clone, Copy, PartialEq, Eq, Structural, Debug)]
pub enum MagicLinkResourceKind {
    Folder,
    File,
}

impl From<ResourceKind> for MagicLinkResourceKind {
    fn from(kind: ResourceKind) -> (own: MagicLinkResourceKind) {
        match kind {
            ResourceKind::Folder => MagicLinkResourceKind::Folder,
            ResourceKind::File => MagicLinkResourceKind::File,
        }
    }
}

impl vstd::std_specs::convert::FromSpecImpl<ResourceKind> for MagicLinkResourceKind {
    open spec fn obeys_from_spec() -> bool {
        true
    }

    open spec fn from_spec(kind: ResourceKind) -> MagicLinkResourceKind {
        match kind {
            ResourceKind::Folder => MagicLinkResourceKind::Folder,
            ResourceKind::File => MagicLinkResourceKind::File,
        }
    }
}

/// What is known of a user.
#[derive(Debug)]
pub struct User {
    pub id: Uuid,
    pub email: String,
    /// The user can sign in with a password or through another provider.
    pub has_login_credential: bool,
    pub is_active: bool,
}

/// The roles of users.
#[derive(Clone, Copy, PartialEq, Eq, Structural, Debug)]
pub enum UserRole {
    Admin,
    User,
}

/// The settings for magic links.
#[derive(Clone, Copy, PartialEq, Eq, Structural, Debug)]
pub struct MagicLinkConfig {
    /// Users from outside may be created.
    pub allow_external_users: bool,
    /// How many hours a link works.
    pub ttl_hours: u64,
}

/// Issues invitations and sign-in links.
pub struct MagicLinkInviteService {
    pub magic_link_cfg: MagicLinkConfig,
    pub public_base_url: String,
}

/// `outcome` is that failure of an invitation.
pub open spec fn is_invite_error<T>(
    outcome: Result<T, DomainError>,
    kind: ErrorKind,
    message: Seq<char>,
) -> bool {
    outcome is Err && outcome->Err_0.says(kind, "MagicLinkInvite"@, message)
}

// ── Recipients ──────────────────────────────────────────────────────────────

/// Ask for the user with that address.
pub struct FindRecipient {
    pub email: String,
}

/// The reply to a question for a user.
pub enum UserLookup {
    Found(User),
    NotFound,
    Failed(DomainError),
}

/// What follows after the recipient was asked for.
pub enum RecipientStep {
    /// The user exists.
    Known(User),
    /// No user has that address: one from outside has to be created.
    Provision(ProvisionUser),
}

/// Ask whether the address is allowed.
pub struct ProvisionUser {
    pub email: String,
}

/// Create a user from this data. Users from outside have neither a name nor
/// a password and no storage of their own.
#[derive(Debug)]
pub struct NewExternalUser {
    pub email: String,
    pub username: Option<String>,
    pub password_hash: Option<String>,
    pub role: UserRole,
    pub storage_quota_bytes: i64,
    pub is_external: bool,
}

/// The message where users from outside may not be created.
pub const EXTERNAL_USERS_DISABLED: &'static str =
    "Creating external users is disabled on this server (OXICLOUD_ALLOW_EXTERNAL_USERS=false)";

/// The message where an address is not allowed; the address follows.
pub const DOMAIN_NOT_ALLOWED: &'static str =
    "Email domain is not in the allowlist (OXICLOUD_EXTERNAL_EMAIL_DOMAINS); refusing to invite ";

fn domain_refusal(email: &String) -> (error: DomainError)
    ensures
        error.says(ErrorKind::AccessDenied, "MagicLinkInvite"@, DOMAIN_NOT_ALLOWED@ + email@),
{
    DomainError::new(
        ErrorKind::AccessDenied,
        "MagicLinkInvite",
        DOMAIN_NOT_ALLOWED.to_owned().concat(email.as_str()),
    )
}

impl MagicLinkInviteService {
    pub fn new(magic_link_cfg: MagicLinkConfig, public_base_url: String) -> (service:
        MagicLinkInviteService)
        ensures
            service == (MagicLinkInviteService { magic_link_cfg, public_base_url }),
    {
        MagicLinkInviteService { magic_link_cfg, public_base_url }
    }

    /// Looks for the user with an address, which is given in its normalised
    /// form, or as the reason why it has none. Nobody is invited at an address
    /// that is not allowed, whether or not there is a user. Where there is no
    /// such user, one from outside is created.
    pub fn resolve_or_create_recipient(
        &self,
        normalised: Result<String, String>,
        email_allowed: bool,
    ) -> (next: Result<FindRecipient, DomainError>)
        ensures
            match normalised {
                Err(e) => is_invite_error(next, ErrorKind::InvalidInput, e@),
                Ok(email) => if email_allowed {
                    next == Ok::<_, DomainError>(FindRecipient { email })
                } else {
                    is_invite_error(next, ErrorKind::AccessDenied, DOMAIN_NOT_ALLOWED@ + email@)
                },
            },
    {
        match normalised {
            Err(e) => Err(DomainError::new(ErrorKind::InvalidInput, "MagicLinkInvite", e)),
            Ok(email) => if email_allowed {
                Ok(FindRecipient { email })
            } else {
                Err(domain_refusal(&email))
            },
        }
    }

    /// `next` says whether a user from outside may be created with that
    /// address, and from which data.
    pub open spec fn is_provisioned(
        self,
        request: ProvisionUser,
        email_allowed: bool,
        next: Result<NewExternalUser, DomainError>,
    ) -> bool {
        if !self.magic_link_cfg.allow_external_users {
            is_invite_error(next, ErrorKind::AccessDenied, EXTERNAL_USERS_DISABLED@)
        } else if !email_allowed {
            is_invite_error(next, ErrorKind::AccessDenied, DOMAIN_NOT_ALLOWED@ + request.email@)
        } else {
            next == Ok::<_, DomainError>(
                NewExternalUser {
                    email: request.email,
                    username: None,
                    password_hash: None,
                    role: UserRole::User,
                    storage_quota_bytes: 0,
                    is_external: true,
                },
            )
        }
    }

    /// Decides whether a user from outside may be created: the server has to
    /// allow it at all, and then the address has to be allowed.
    pub fn create_external_user(&self, request: ProvisionUser, email_allowed: bool) -> (next:
        Result<NewExternalUser, DomainError>)
        ensures
            self.is_provisioned(request, email_allowed, next),
    {
        if !self.magic_link_cfg.allow_external_users {
            return Err(
                DomainError::new(
                    ErrorKind::AccessDenied,
                    "MagicLinkInvite",
                    EXTERNAL_USERS_DISABLED.to_owned(),
                ),
            );
        }
        if !email_allowed {
            return Err(domain_refusal(&request.email));
        }
        Ok(
            NewExternalUser {
                email: request.email,
                username: None,
                password_hash: None,
                role: UserRole::User,
                storage_quota_bytes: 0,
                is_external: true,
            },
        )
    }
}

impl FindRecipient {
    pub fn looked_up(self, reply: UserLookup) -> (next: Result<RecipientStep, DomainError>)
        ensures
            next == match reply {
                UserLookup::Found(user) => Ok::<_, DomainError>(RecipientStep::Known(user)),
                UserLookup::NotFound => Ok(
                    RecipientStep::Provision(ProvisionUser { email: self.email }),
                ),
                UserLookup::Failed(e) => Err(e),
            },
    {
        match reply {
            UserLookup::Found(user) => Ok(RecipientStep::Known(user)),
            UserLookup::NotFound => Ok(
                RecipientStep::Provision(ProvisionUser { email: self.email }),
            ),
            UserLookup::Failed(e) => Err(e),
        }
    }
}

/// Save this user, who was made from the data of a user from outside.
#[derive(Debug)]
pub struct SaveUser<D> {
    pub draft: D,
}

/// Announce that this user was created, once; it is the recipient.
#[derive(Debug)]
pub struct AnnounceUser {
    pub user: User,
}

impl NewExternalUser {
    /// `next` follows from whether a user could be made from the data.
    pub open spec fn is_built<D>(
        reply: Result<D, String>,
        next: Result<SaveUser<D>, DomainError>,
    ) -> bool {
        match reply {
            Ok(draft) => next == Ok::<_, DomainError>(SaveUser { draft }),
            Err(e) => is_invite_error(
                next,
                ErrorKind::InvalidInput,
                "invalid external user data: "@ + e@,
            ),
        }
    }

    /// Takes the user made from this data, or the reason why none can be
    /// made.
    pub fn built<D>(reply: Result<D, String>) -> (next: Result<SaveUser<D>, DomainError>)
        ensures
            NewExternalUser::is_built(reply, next),
    {
        match reply {
            Ok(draft) => Ok(SaveUser { draft }),
            Err(e) => Err(
                DomainError::new(
                    ErrorKind::InvalidInput,
                    "MagicLinkInvite",
                    "invalid external user data: ".to_owned().concat(e.as_str()),
                ),
            ),
        }
    }
}

/// What follows from saving a new user.
pub open spec fn after_saving(reply: Result<User, DomainError>) -> Result<
    AnnounceUser,
    DomainError,
> {
    match reply {
        Ok(user) => Ok(AnnounceUser { user }),
        Err(e) => Err(e),
    }
}

/// Takes the user as saved. Only a user who was saved is announced.
pub fn user_saved(reply: Result<User, DomainError>) -> (next: Result<AnnounceUser, DomainError>)
    ensures
        next == after_saving(reply),
{
    match reply {
        Ok(user) => Ok(AnnounceUser { user }),
        Err(e) => Err(e),
    }
}

impl AnnounceUser {
    /// The recipient, after the announcement.
    pub fn announced(self) -> (user: User)
        ensures
            user == self.user,
    {
        self.user
    }
}

/// What is done to the outside while a user is created.
pub enum CreationRequest<D> {
    Save(D),
    Announce(User),
}

/// The steps of creating a user from outside, with the replies. What follows
/// behind an error is of no account.
pub struct Creation<D> {
    pub provisioned: Result<NewExternalUser, DomainError>,
    pub draft: Result<D, String>,
    pub built: Result<SaveUser<D>, DomainError>,
    pub saved: Result<User, DomainError>,
}

impl<D> Creation<D> {
    /// Each step follows from the one before it.
    pub open spec fn runs(
        self,
        service: MagicLinkInviteService,
        request: ProvisionUser,
        email_allowed: bool,
    ) -> bool {
        &&& service.is_provisioned(request, email_allowed, self.provisioned)
        &&& self.provisioned is Ok ==> NewExternalUser::is_built(self.draft, self.built)
    }

    /// What is asked of the outside, in this order.
    pub open spec fn requests(self) -> Seq<CreationRequest<D>> {
        if self.provisioned is Err || self.built is Err {
            seq![]
        } else {
            match after_saving(self.saved) {
                Ok(announce) => seq![
                    CreationRequest::Save(self.built->Ok_0.draft),
                    CreationRequest::Announce(announce.user),
                ],
                Err(_) => seq![CreationRequest::Save(self.built->Ok_0.draft)],
            }
        }
    }

    /// How the creation ends.
    pub open spec fn outcome(self) -> Result<User, DomainError> {
        if let Err(e) = self.provisioned {
            Err(e)
        } else if let Err(e) = self.built {
            Err(e)
        } else {
            match after_saving(self.saved) {
                Ok(announce) => Ok(announce.user),
                Err(e) => Err(e),
            }
        }
    }
}

/// Where users from outside may not be created, or not with that address,
/// nothing is saved. A user who is created is the one that was saved, and is
/// announced once, after saving; where the creation fails, nobody is
/// announced.
pub proof fn law_created_users_are_saved_and_announced_once<D>(
    service: MagicLinkInviteService,
    request: ProvisionUser,
    email_allowed: bool,
    creation: Creation<D>,
)
    requires
        creation.runs(service, request, email_allowed),
    ensures
        !service.magic_link_cfg.allow_external_users || !email_allowed ==> {
            &&& creation.requests().len() == 0
            &&& creation.outcome() matches Err(e)
            &&& e.kind == ErrorKind::AccessDenied
        },
        creation.outcome() matches Ok(user) ==> {
            &&& creation.draft is Ok
            &&& creation.saved == Ok::<User, DomainError>(user)
            &&& creation.requests() == seq![
                CreationRequest::Save(creation.draft->Ok_0),
                CreationRequest::Announce(user),
            ]
        },
        creation.outcome() is Err ==> forall|i: int|
            0 <= i < creation.requests().len() ==> !(#[trigger] creation.requests()[i] is Announce),
        service.magic_link_cfg.allow_external_users && email_allowed && creation.draft is Ok ==> {
            &&& creation.outcome() == creation.saved
            &&& creation.provisioned is Ok
            &&& creation.provisioned->Ok_0.email == request.email
        },
{
}

// ── Links and messages ──────────────────────────────────────────────────────

/// Mint a token for this user that works so many hours and leads to the
/// target, or to what is shared with the user where there is none; then save
/// it.
#[derive(Clone, Copy, PartialEq, Eq, Debug)]
pub struct TokenRequest {
    pub user_id: Uuid,
    pub ttl_hours: u64,
    pub target: Option<(MagicLinkResourceKind, Uuid)>,
}

/// What a message with a link is for.
#[derive(Debug)]
pub enum MailPurpose {
    /// Somebody shared something with the recipient.
    Invitation { inviter: String, resource: Resource },
    /// The recipient wants to sign in.
    SignIn,
}

/// A message with a link for which a token is needed.
#[derive(Debug)]
pub struct MintLink {
    pub request: TokenRequest,
    pub to: String,
    pub purpose: MailPurpose,
}

/// A message with a link, ready to be written and sent.
#[derive(Debug)]
pub struct LinkMail {
    pub to: String,
    pub link: String,
    pub ttl_hours: u64,
    pub purpose: MailPurpose,
}

/// The link for a token.
pub open spec fn link_for(base_url: Seq<char>, token: Seq<char>) -> Seq<char> {
    text::without_trailing(base_url, '/') + "/magic/v1/"@ + token
}

/// Slashes at the end of the base address make no difference to a link.
pub proof fn law_trailing_slashes_do_not_matter(base_url: Seq<char>, token: Seq<char>)
    ensures
        link_for(base_url.push('/'), token) == link_for(base_url, token),
{
    assert(base_url.push('/').drop_last() =~= base_url);
}

/// The word for a resource.
pub open spec fn kind_label(resource: Resource) -> Seq<char> {
    match resource {
        Resource::Folder(_) => "folder"@,
        Resource::File(_) => "file"@,
    }
}

fn label_of(resource: &Resource) -> (label: &'static str)
    ensures
        label@ == kind_label(*resource),
{
    match resource {
        Resource::Folder(_) => "folder",
        Resource::File(_) => "file",
    }
}

/// Where a link to that resource leads.
pub open spec fn target_of(resource: Resource) -> (MagicLinkResourceKind, Uuid) {
    match resource {
        Resource::Folder(id) => (MagicLinkResourceKind::Folder, id),
        Resource::File(id) => (MagicLinkResourceKind::File, id),
    }
}

/// The subject of a message.
pub open spec fn subject_for(purpose: MailPurpose) -> Seq<char> {
    match purpose {
        MailPurpose::Invitation { inviter, resource } => inviter@ + " shared a "@ + kind_label(
            resource,
        ) + " with you on OxiCloud"@,
        MailPurpose::SignIn => "Sign in to OxiCloud"@,
    }
}

// The fixed parts of the messages.

pub const INVITE_OPENING: &'static str =
    " with you on OxiCloud.\n\nOpen it by clicking the link below:\n";

pub const INVITE_EXPIRY: &'static str = "\n\nThe link works once and expires in ";

pub const INVITE_CLOSING: &'static str =
    " hours.\nIf you didn't expect this invitation, you can safely ignore this message.\n\n— OxiCloud, ";

pub const SIGN_IN_OPENING: &'static str =
    "Hello,\n\nUse the link below to sign in to OxiCloud. The link works once and expires in ";

pub const SIGN_IN_HOURS: &'static str = " hours.\n\n";

pub const SIGN_IN_CLOSING: &'static str =
    "\n\nIf you didn't request this sign-in link, you can safely ignore this message — no further action is needed.\n\n— OxiCloud, ";

/// The text of a message with that date.
pub open spec fn body_for(mail: LinkMail, date: Seq<char>) -> Seq<char> {
    match mail.purpose {
        MailPurpose::Invitation { inviter, resource } => inviter@ + " shared a "@ + kind_label(
            resource,
        ) + INVITE_OPENING@ + mail.link@ + INVITE_EXPIRY@ + text::decimal(mail.ttl_hours as nat)
            + INVITE_CLOSING@ + date + "\n"@,
        MailPurpose::SignIn => SIGN_IN_OPENING@ + text::decimal(mail.ttl_hours as nat)
            + SIGN_IN_HOURS@ + mail.link@ + SIGN_IN_CLOSING@ + date + "\n"@,
    }
}

/// `message` is what is written for `mail` with that date: plain text only.
pub open spec fn is_dated(message: EmailMessage, mail: LinkMail, date: Seq<char>) -> bool {
    &&& message.to == mail.to
    &&& message.subject@ == subject_for(mail.purpose)
    &&& message.text_body@ == body_for(mail, date)
    &&& message.html_body is None
}

/// `message` is what is written for `mail` at the time `now`.
pub open spec fn is_written(message: EmailMessage, mail: LinkMail, now: UtcTime) -> bool {
    is_dated(message, mail, now.written())
}

impl LinkMail {
    /// Writes the message with that date.
    pub fn compose_dated(&self, date: &str) -> (message: EmailMessage)
        ensures
            is_dated(message, *self, date@),
    {
        let hours = decimal_text(self.ttl_hours as u128);
        match &self.purpose {
            MailPurpose::Invitation { inviter, resource } => {
                let label = label_of(resource);
                let subject = inviter.clone().concat(" shared a ").concat(label).concat(
                    " with you on OxiCloud",
                );
                let text_body = inviter.clone().concat(" shared a ").concat(label).concat(
                    INVITE_OPENING,
                ).concat(self.link.as_str()).concat(INVITE_EXPIRY).concat(hours.as_str()).concat(
                    INVITE_CLOSING,
                ).concat(date).concat("\n");
                EmailMessage { to: self.to.clone(), subject, text_body, html_body: None }
            },
            MailPurpose::SignIn => {
                let text_body = SIGN_IN_OPENING.to_owned().concat(hours.as_str()).concat(
                    SIGN_IN_HOURS,
                ).concat(self.link.as_str()).concat(SIGN_IN_CLOSING).concat(date).concat(
                    "\n",
                );
                EmailMessage {
                    to: self.to.clone(),
                    subject: "Sign in to OxiCloud".to_owned(),
                    text_body,
                    html_body: None,
                }
            },
        }
    }

    /// Writes the message at the time `now`.
    pub fn compose_at(&self, now: UtcTime) -> (message: EmailMessage)
        ensures
            is_written(message, *self, now),
    {
        self.compose_dated(now.to_rfc3339().as_str())
    }

    /// Writes the message with the present time.
    pub fn compose(&self) -> (message: EmailMessage)
        ensures
            exists|now: UtcTime|
                clock::rfc3339(now.secs, now.nanos) is Some && #[trigger] is_written(
                    message,
                    *self,
                    now,
                ),
    {
        let now = clock::utc_now();
        let message = self.compose_at(now);
        assert(is_written(message, *self, now));
        message
    }
}

impl MintLink {
    /// The message for the token that was saved.
    pub open spec fn is_mail_for(
        self,
        mail: LinkMail,
        base_url: Seq<char>,
        token: Seq<char>,
    ) -> bool {
        &&& mail.to == self.to
        &&& mail.link@ == link_for(base_url, token)
        &&& mail.ttl_hours == self.request.ttl_hours
        &&& mail.purpose == self.purpose
    }
}

impl MagicLinkInviteService {
    fn link(&self, token: &str) -> (link: String)
        ensures
            link@ == link_for(self.public_base_url@, token@),
    {
        trim_end(self.public_base_url.as_str(), '/').concat("/magic/v1/").concat(token)
    }

    fn mail(&self, mint: MintLink, token: &str) -> (mail: LinkMail)
        ensures
            mint.is_mail_for(mail, self.public_base_url@, token@),
    {
        let link = self.link(token);
        LinkMail {
            to: mint.to,
            link,
            ttl_hours: mint.request.ttl_hours,
            purpose: mint.purpose,
        }
    }

    // ── Invitations ─────────────────────────────────────────────────────────
    /// Invites somebody to what was shared with them. Only a recipient who
    /// has no other way to sign in gets a link; for others nothing is to do.
    pub fn issue_invitation(
        &self,
        recipient: &User,
        inviter_username: &str,
        resource: Resource,
    ) -> (next: Option<MintLink>)
        ensures
            recipient.has_login_credential <==> next is None,
            next matches Some(mint) ==> {
                &&& mint.request == (TokenRequest {
                    user_id: recipient.id,
                    ttl_hours: self.magic_link_cfg.ttl_hours,
                    target: Some(target_of(resource)),
                })
                &&& mint.to == recipient.email
                &&& mint.purpose matches MailPurpose::Invitation { inviter, resource: shared }
                &&& inviter@ == inviter_username@
                &&& shared == resource
            },
    {
        if recipient.has_login_credential {
            return None;
        }
        let target = match resource {
            Resource::Folder(id) => (MagicLinkResourceKind::Folder, id),
            Resource::File(id) => (MagicLinkResourceKind::File, id),
        };
        Some(
            MintLink {
                request: TokenRequest {
                    user_id: recipient.id,
                    ttl_hours: self.magic_link_cfg.ttl_hours,
                    target: Some(target),
                },
                to: recipient.email.clone(),
                purpose: MailPurpose::Invitation {
                    inviter: inviter_username.to_owned(),
                    resource,
                },
            },
        )
    }

    /// Takes the token that was saved for an invitation. A failure to save it
    /// is a failure of the invitation.
    pub fn invitation_minted(&self, mint: MintLink, reply: Result<String, DomainError>) -> (next:
        Result<LinkMail, DomainError>)
        ensures
            match reply {
                Ok(token) => next is Ok && mint.is_mail_for(
                    next->Ok_0,
                    self.public_base_url@,
                    token@,
                ),
                Err(e) => next == Err::<LinkMail, DomainError>(e),
            },
    {
        match reply {
            Ok(token) => Ok(self.mail(mint, token.as_str())),
            Err(e) => Err(e),
        }
    }

    /// The outcome of an invitation after its message was sent, or was not:
    /// what was shared is shared either way.
    pub fn invitation_sent(reply: &Result<(), DomainError>) -> (outcome: Result<(), DomainError>)
        ensures
            outcome == Ok::<(), DomainError>(()),
    {
        let _ = reply;
        Ok(())
    }

    // ── Signing in ──────────────────────────────────────────────────────────
    /// Somebody wants to sign in by mail. The address is given in its
    /// normalised form, or as the reason why it has none.
    pub fn send_login_link(&self, normalised: Result<String, String>) -> (next: Result<
        FindAccount,
        LoginLinkOutcome,
    >)
        ensures
            next == match normalised {
                Ok(email) => Ok::<_, LoginLinkOutcome>(FindAccount { email }),
                Err(e) => Err(LoginLinkOutcome::MalformedEmail(e)),
            },
    {
        match normalised {
            Ok(email) => Ok(FindAccount { email }),
            Err(e) => Err(LoginLinkOutcome::MalformedEmail(e)),
        }
    }

    /// Takes the user with that address. Only an active user who has no other
    /// way to sign in gets a link. No user is ever created here.
    pub fn account_looked_up(&self, reply: UserLookup) -> (next: Result<
        MintLink,
        LoginLinkOutcome,
    >)
        ensures
            match reply {
                UserLookup::Failed(e) => next == Err::<MintLink, _>(
                    LoginLinkOutcome::LookupFailed(e),
                ),
                UserLookup::NotFound => next == Err::<MintLink, _>(LoginLinkOutcome::NoAccount),
                UserLookup::Found(user) => if user.has_login_credential {
                    next == Err::<MintLink, _>(LoginLinkOutcome::HasCredential)
                } else if !user.is_active {
                    next == Err::<MintLink, _>(LoginLinkOutcome::AccountDeactivated)
                } else {
                    next == Ok::<_, LoginLinkOutcome>(
                        MintLink {
                            request: TokenRequest {
                                user_id: user.id,
                                ttl_hours: self.magic_link_cfg.ttl_hours,
                                target: None,
                            },
                            to: user.email,
                            purpose: MailPurpose::SignIn,
                        },
                    )
                },
            },
    {
        match reply {
            UserLookup::Failed(e) => Err(LoginLinkOutcome::LookupFailed(e)),
            UserLookup::NotFound => Err(LoginLinkOutcome::NoAccount),
            UserLookup::Found(user) => {
                if user.has_login_credential {
                    Err(LoginLinkOutcome::HasCredential)
                } else if !user.is_active {
                    Err(LoginLinkOutcome::AccountDeactivated)
                } else {
                    Ok(
                        MintLink {
                            request: TokenRequest {
                                user_id: user.id,
                                ttl_hours: self.magic_link_cfg.ttl_hours,
                                target: None,
                            },
                            to: user.email,
                            purpose: MailPurpose::SignIn,
                        },
                    )
                }
            },
        }
    }

    /// Takes the token that was saved for a sign-in.
    pub fn login_link_minted(&self, mint: MintLink, reply: Result<String, DomainError>) -> (next:
        Result<LinkMail, LoginLinkOutcome>)
        ensures
            match reply {
                Ok(token) => next is Ok && mint.is_mail_for(
                    next->Ok_0,
                    self.public_base_url@,
                    token@,
                ),
                Err(e) => next == Err::<LinkMail, _>(LoginLinkOutcome::TokenNotSaved(e)),
            },
    {
        match reply {
            Ok(token) => Ok(self.mail(mint, token.as_str())),
            Err(e) => Err(LoginLinkOutcome::TokenNotSaved(e)),
        }
    }

    /// The outcome after the message was sent, or was not.
    pub fn login_link_sent(reply: Result<(), DomainError>) -> (outcome: LoginLinkOutcome)
        ensures
            outcome == match reply {
                Ok(()) => LoginLinkOutcome::Sent,
                Err(e) => LoginLinkOutcome::SendFailed(e),
            },
    {
        match reply {
            Ok(()) => LoginLinkOutcome::Sent,
            Err(e) => LoginLinkOutcome::SendFailed(e),
        }
    }
}

/// Ask for the user with that address.
pub struct FindAccount {
    pub email: String,
}

/// What became of a wish to sign in by mail. It is known to the operators
/// only.
#[derive(Debug)]
pub enum LoginLinkOutcome {
    MalformedEmail(String),
    NoAccount,
    LookupFailed(DomainError),
    HasCredential,
    AccountDeactivated,
    TokenNotSaved(DomainError),
    Sent,
    SendFailed(DomainError),
}

impl LoginLinkOutcome {
    /// The word for this outcome in the audit log.
    pub open spec fn reason_text(self) -> Seq<char> {
        match self {
            LoginLinkOutcome::MalformedEmail(_) => "malformed_email"@,
            LoginLinkOutcome::NoAccount => "no_account"@,
            LoginLinkOutcome::LookupFailed(_) => "lookup_failed"@,
            LoginLinkOutcome::HasCredential => "has_credential"@,
            LoginLinkOutcome::AccountDeactivated => "account_deactivated"@,
            LoginLinkOutcome::TokenNotSaved(_) => "token_not_saved"@,
            LoginLinkOutcome::Sent => "sent"@,
            LoginLinkOutcome::SendFailed(_) => "send_failed"@,
        }
    }

    /// The word for this outcome in the audit log.
    pub fn reason(&self) -> (text: &'static str)
        ensures
            text@ == self.reason_text(),
    {
        match self {
            LoginLinkOutcome::MalformedEmail(_) => "malformed_email",
            LoginLinkOutcome::NoAccount => "no_account",
            LoginLinkOutcome::LookupFailed(_) => "lookup_failed",
            LoginLinkOutcome::HasCredential => "has_credential",
            LoginLinkOutcome::AccountDeactivated => "account_deactivated",
            LoginLinkOutcome::TokenNotSaved(_) => "token_not_saved",
            LoginLinkOutcome::Sent => "sent",
            LoginLinkOutcome::SendFailed(_) => "send_failed",
        }
    }

    /// What the one who wants to sign in is answered. It is the same for all
    /// outcomes, so that it does not reveal whether there is an account.
    pub fn answer(&self) -> (answer: Result<(), DomainError>)
        ensures
            answer == Ok::<(), DomainError>(()),
    {
        Ok(())
    }
}

} // verus!
