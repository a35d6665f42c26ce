//! The rules of the subject group service.
//!
//! Predefined (virtual) groups are protected from changes, errors of the
//! repository become errors of the domain, and a group is deleted together
//! with the grants that name it or not at all.

use vstd::prelude::*;
use vstd::string::*;

use super::entity::{GroupMember, SubjectGroup, SubjectGroupError, SubjectGroupRepositoryError};
use super::membership;
use super::membership::MembershipRow;
use super::repository::GroupStore;
use crate::errors::{DomainError, ErrorKind};
use crate::identifier;
use crate::identifier::Uuid;

verus! {

/// The kind and the message under which an entity error is reported.
pub open spec fn entity_error_report(e: SubjectGroupError) -> (ErrorKind, Seq<char>) {
    match e {
        SubjectGroupError::InvalidName(m) => (ErrorKind::InvalidInput, m@),
        SubjectGroupError::CycleDetected(m) => (ErrorKind::InvalidInput, m@),
        SubjectGroupError::DepthExceeded(m) => (ErrorKind::InvalidInput, m@),
        SubjectGroupError::VirtualImmutable(m) => (ErrorKind::AccessDenied, m@),
        SubjectGroupError::ValidationError(m) => (ErrorKind::InvalidInput, m@),
    }
}

/// Reports an entity error as an error of the domain.
pub fn map_entity_err(e: SubjectGroupError) -> (error: DomainError)
    ensures
        error.says(entity_error_report(e).0, "SubjectGroup"@, entity_error_report(e).1),
{
    let (kind, message) = match e {
        SubjectGroupError::InvalidName(m) => (ErrorKind::InvalidInput, m),
        SubjectGroupError::CycleDetected(m) => (ErrorKind::InvalidInput, m),
        SubjectGroupError::DepthExceeded(m) => (ErrorKind::InvalidInput, m),
        SubjectGroupError::VirtualImmutable(m) => (ErrorKind::AccessDenied, m),
        SubjectGroupError::ValidationError(m) => (ErrorKind::InvalidInput, m),
    };
    DomainError::new(kind, "SubjectGroup", message)
}

/// The kind and the message under which a repository error is reported.
pub open spec fn repo_error_report(e: SubjectGroupRepositoryError) -> (ErrorKind, Seq<char>) {
    match e {
        SubjectGroupRepositoryError::NotFound(m) => (ErrorKind::NotFound, m@),
        SubjectGroupRepositoryError::NameAlreadyExists(m) => (ErrorKind::AlreadyExists, m@),
        SubjectGroupRepositoryError::InvalidName(m) => (ErrorKind::InvalidInput, m@),
        SubjectGroupRepositoryError::Cycle(m) => (ErrorKind::InvalidInput, m@),
        SubjectGroupRepositoryError::DepthExceeded(m) => (ErrorKind::InvalidInput, m@),
        SubjectGroupRepositoryError::VirtualImmutable(m) => (ErrorKind::AccessDenied, m@),
        SubjectGroupRepositoryError::MemberAlreadyPresent => (
            ErrorKind::AlreadyExists,
            "member already in group"@,
        ),
        SubjectGroupRepositoryError::MemberNotPresent => (
            ErrorKind::NotFound,
            "member not in group"@,
        ),
        SubjectGroupRepositoryError::StorageError(m) => (ErrorKind::InternalError, m@),
    }
}

/// Reports a repository error as an error of the domain.
pub fn map_repo_err(e: SubjectGroupRepositoryError) -> (error: DomainError)
    ensures
        error.says(repo_error_report(e).0, "SubjectGroup"@, repo_error_report(e).1),
{
    let (kind, message) = match e {
        SubjectGroupRepositoryError::NotFound(m) => (ErrorKind::NotFound, m),
        SubjectGroupRepositoryError::NameAlreadyExists(m) => (ErrorKind::AlreadyExists, m),
        SubjectGroupRepositoryError::InvalidName(m) => (ErrorKind::InvalidInput, m),
        SubjectGroupRepositoryError::Cycle(m) => (ErrorKind::InvalidInput, m),
        SubjectGroupRepositoryError::DepthExceeded(m) => (ErrorKind::InvalidInput, m),
        SubjectGroupRepositoryError::VirtualImmutable(m) => (ErrorKind::AccessDenied, m),
        SubjectGroupRepositoryError::MemberAlreadyPresent => (
            ErrorKind::AlreadyExists,
            "member already in group".to_owned(),
        ),
        SubjectGroupRepositoryError::MemberNotPresent => (
            ErrorKind::NotFound,
            "member not in group".to_owned(),
        ),
        SubjectGroupRepositoryError::StorageError(m) => (ErrorKind::InternalError, m),
    };
    DomainError::new(kind, "SubjectGroup", message)
}

/// `error` is the report of the repository error `e`.
pub open spec fn reports(error: DomainError, e: SubjectGroupRepositoryError) -> bool {
    error.says(repo_error_report(e).0, "SubjectGroup"@, repo_error_report(e).1)
}

/// `outcome` is what the repository found, or the report of its error.
pub open spec fn hands_on<T>(
    reply: Result<T, SubjectGroupRepositoryError>,
    outcome: Result<T, DomainError>,
) -> bool {
    match reply {
        Ok(value) => outcome == Ok::<T, DomainError>(value),
        Err(e) => outcome is Err && reports(outcome->Err_0, e),
    }
}

/// Passes on what the repository found and reports its error as an error of
/// the domain.
pub fn from_repository<T>(reply: Result<T, SubjectGroupRepositoryError>) -> (outcome: Result<
    T,
    DomainError,
>)
    ensures
        hands_on(reply, outcome),
{
    match reply {
        Ok(value) => Ok(value),
        Err(e) => Err(map_repo_err(e)),
    }
}

/// The error for a group that does not exist.
pub open spec fn is_missing_group(error: DomainError, id: Uuid) -> bool {
    error.says(
        ErrorKind::NotFound,
        "SubjectGroup"@,
        "group "@ + identifier::hyphenated(id.value) + " not found"@,
    )
}

fn missing_group(id: Uuid) -> (error: DomainError)
    ensures
        is_missing_group(error, id),
{
    DomainError::new(
        ErrorKind::NotFound,
        "SubjectGroup",
        "group ".to_owned().concat(id.to_text().as_str()).concat(" not found"),
    )
}

/// The error for a failed exchange with the database while doing `what`.
pub open spec fn is_failure_of(error: DomainError, what: Seq<char>, cause: Seq<char>) -> bool {
    error.says(ErrorKind::InternalError, "SubjectGroup"@, what + cause)
}

fn failure_of(what: &str, cause: &String) -> (error: DomainError)
    ensures
        is_failure_of(error, what@, cause@),
{
    DomainError::new(
        ErrorKind::InternalError,
        "SubjectGroup",
        what.to_owned().concat(cause.as_str()),
    )
}

/// The groups of a list but for the internal one, in their order.
pub open spec fn explicit_groups(groups: Seq<Uuid>, internal: Uuid) -> Seq<Uuid> {
    groups.filter(|group: Uuid| group != internal)
}

/// Copies a list of groups but for the internal one.
fn leave_out(groups: &Vec<Uuid>, internal: Uuid) -> (others: Vec<Uuid>)
    ensures
        others@ == explicit_groups(groups@, internal),
{
    let mut others: Vec<Uuid> = Vec::new();
    let mut i: usize = 0;
    proof {
        reveal(Seq::filter);
    }
    while i < groups.len()
        invariant
            i <= groups@.len(),
            others@ == explicit_groups(groups@.take(i as int), internal),
        decreases groups@.len() - i,
    {
        let group = groups[i];
        proof {
            reveal(Seq::filter);
            assert(groups@.take(i + 1).drop_last() =~= groups@.take(i as int));
            assert(groups@.take(i + 1).last() == group);
        }
        if group != internal {
            others.push(group);
        }
        i += 1;
    }
    proof {
        assert(groups@.take(i as int) =~= groups@);
    }
    others
}

/// A user is told of every group that they belong to but the internal one, of
/// no other, and of none twice.
pub proof fn law_explicit_groups_leave_out_the_internal_one(groups: Seq<Uuid>, internal: Uuid)
    ensures
        forall|group: Uuid|
            #![trigger explicit_groups(groups, internal).contains(group)]
            explicit_groups(groups, internal).contains(group) <==> groups.contains(group) && group
                != internal,
        groups.no_duplicates() ==> explicit_groups(groups, internal).no_duplicates(),
    decreases groups.len(),
{
    reveal(Seq::filter);
    let all = explicit_groups(groups, internal);
    if groups.len() > 0 {
        let before = explicit_groups(groups.drop_last(), internal);
        law_explicit_groups_leave_out_the_internal_one(groups.drop_last(), internal);
        assert(all == (if groups.last() != internal { before.push(groups.last()) } else { before }));
        assert forall|group: Uuid|
            #![trigger all.contains(group)]
            all.contains(group) <==> groups.contains(group) && group != internal by {
            assert(groups =~= groups.drop_last().push(groups.last()));
            if groups.contains(group) {
                let i = choose|i: int| 0 <= i < groups.len() && groups[i] == group;
                if i < groups.len() - 1 {
                    assert(groups.drop_last()[i] == group);
                    assert(before.contains(group) || group == internal);
                    if group != internal {
                        let j = choose|j: int| 0 <= j < before.len() && before[j] == group;
                        assert(all[j] == group);
                    }
                } else if group != internal {
                    assert(all[all.len() - 1] == group);
                }
            }
            if all.contains(group) {
                let j = choose|j: int| 0 <= j < all.len() && all[j] == group;
                if j < before.len() {
                    assert(before[j] == group);
                    assert(before.contains(group));
                    let i = choose|i: int|
                        0 <= i < groups.drop_last().len() && groups.drop_last()[i] == group;
                    assert(groups[i] == group);
                } else {
                    assert(groups[groups.len() - 1] == group);
                }
            }
        }
        if groups.no_duplicates() {
            assert(groups.drop_last().no_duplicates());
            assert forall|i: int, j: int| 0 <= i < all.len() && 0 <= j < all.len() && i
                != j implies all[i] != all[j] by {
                if before.len() < all.len() {
                    let k: int = if i == all.len() - 1 { j } else { i };
                    if k < before.len() && all[k] == groups.last() && (i == all.len() - 1 || j
                        == all.len() - 1) {
                        assert(before.contains(groups.last()));
                        let m = choose|m: int|
                            0 <= m < groups.drop_last().len() && groups.drop_last()[m]
                                == groups.last();
                        assert(groups[m] == groups[groups.len() - 1]);
                    }
                }
            }
        }
    }
}

/// An audit event that a refused membership change calls for.
#[derive(Clone, Copy, PartialEq, Eq, Structural, Debug)]
pub enum RejectionAudit {
    CycleRejected,
    DepthExceeded,
}

/// The subject group service.
///
/// `internal_group_id` is the id of the predefined group that every internal
/// user belongs to implicitly.
#[derive(Clone, Copy, PartialEq, Eq, Structural, Debug)]
pub struct SubjectGroupService {
    pub internal_group_id: Uuid,
}

impl SubjectGroupService {
    pub fn new(internal_group_id: Uuid) -> (service: SubjectGroupService)
        ensures
            service.internal_group_id == internal_group_id,
    {
        SubjectGroupService { internal_group_id }
    }

    /// `outcome` tells whether the members of the group may be edited: not
    /// those of the internal group, and not those of a virtual one.
    pub open spec fn admits_changes(
        self,
        group_id: Uuid,
        found: Result<Option<SubjectGroup>, SubjectGroupRepositoryError>,
        outcome: Result<(), DomainError>,
    ) -> bool {
        if group_id == self.internal_group_id {
            outcome is Err && is_implicit_refusal(outcome->Err_0)
        } else {
            match found {
                Err(e) => outcome is Err && reports(outcome->Err_0, e),
                Ok(group) => if group is Some && group->0.is_virtual {
                    outcome is Err && is_virtual_refusal(outcome->Err_0)
                } else {
                    outcome is Ok
                },
            }
        }
    }

    /// The group to store, from the draft that the entity's own checks
    /// accepted or refused.
    pub fn create(&self, draft: Result<SubjectGroup, SubjectGroupError>) -> (outcome: Result<
        SubjectGroup,
        DomainError,
    >)
        ensures
            match draft {
                Ok(group) => outcome == Ok::<SubjectGroup, DomainError>(group),
                Err(e) => outcome is Err && outcome->Err_0.says(
                    entity_error_report(e).0,
                    "SubjectGroup"@,
                    entity_error_report(e).1,
                ),
            },
    {
        match draft {
            Ok(group) => Ok(group),
            Err(e) => Err(map_entity_err(e)),
        }
    }

    /// The group with that id.
    pub fn get_by_id(
        &self,
        id: Uuid,
        found: Result<Option<SubjectGroup>, SubjectGroupRepositoryError>,
    ) -> (outcome: Result<SubjectGroup, DomainError>)
        ensures
            match found {
                Ok(Some(group)) => outcome == Ok::<SubjectGroup, DomainError>(group),
                Ok(None) => outcome is Err && is_missing_group(outcome->Err_0, id),
                Err(e) => outcome is Err && reports(outcome->Err_0, e),
            },
    {
        match found {
            Ok(Some(group)) => Ok(group),
            Ok(None) => Err(missing_group(id)),
            Err(e) => Err(map_repo_err(e)),
        }
    }

    /// A page of groups and the number of all of them.
    pub fn list(
        &self,
        page: Result<(Vec<SubjectGroup>, u64), SubjectGroupRepositoryError>,
    ) -> (outcome: Result<(Vec<SubjectGroup>, u64), DomainError>)
        ensures
            hands_on(page, outcome),
    {
        from_repository(page)
    }

    /// A page of groups with the number of their direct members, and the
    /// number of all groups.
    pub fn list_with_counts(
        &self,
        page: Result<(Vec<(SubjectGroup, i64)>, u64), SubjectGroupRepositoryError>,
    ) -> (outcome: Result<(Vec<(SubjectGroup, i64)>, u64), DomainError>)
        ensures
            hands_on(page, outcome),
    {
        from_repository(page)
    }

    /// The number of direct members of a group.
    pub fn count_members(&self, count: Result<i64, SubjectGroupRepositoryError>) -> (outcome:
        Result<i64, DomainError>)
        ensures
            hands_on(count, outcome),
    {
        from_repository(count)
    }

    /// The direct members of a group.
    pub fn list_direct_members(
        &self,
        members: Result<Vec<GroupMember>, SubjectGroupRepositoryError>,
    ) -> (outcome: Result<Vec<GroupMember>, DomainError>)
        ensures
            hands_on(members, outcome),
    {
        from_repository(members)
    }

    /// Every user who belongs to a group.
    pub fn list_transitive_users(
        &self,
        users: Result<Vec<Uuid>, SubjectGroupRepositoryError>,
    ) -> (outcome: Result<Vec<Uuid>, DomainError>)
        ensures
            hands_on(users, outcome),
    {
        from_repository(users)
    }

    /// Every group that a user belongs to, except the internal one, to which
    /// users belong implicitly.
    pub fn groups_for_user(
        &self,
        groups: Result<Vec<Uuid>, SubjectGroupRepositoryError>,
    ) -> (outcome: Result<Vec<Uuid>, DomainError>)
        ensures
            match groups {
                Ok(all) => outcome is Ok && outcome->Ok_0@ == explicit_groups(
                    all@,
                    self.internal_group_id,
                ),
                Err(e) => outcome is Err && reports(outcome->Err_0, e),
            },
    {
        match groups {
            Ok(all) => Ok(leave_out(&all, self.internal_group_id)),
            Err(e) => Err(map_repo_err(e)),
        }
    }

    /// The groups to suggest in a share dialog: the page that the search by
    /// name gave, without the total.
    pub fn search_for_share(
        &self,
        page: Result<(Vec<SubjectGroup>, u64), SubjectGroupRepositoryError>,
    ) -> (outcome: Result<Vec<SubjectGroup>, DomainError>)
        ensures
            match page {
                Ok((groups, total)) => outcome == Ok::<Vec<SubjectGroup>, DomainError>(groups),
                Err(e) => outcome is Err && reports(outcome->Err_0, e),
            },
    {
        match page {
            Ok((groups, _total)) => Ok(groups),
            Err(e) => Err(map_repo_err(e)),
        }
    }

    /// The group with that id, which must exist and not be virtual to be
    /// changed.
    fn changeable(
        &self,
        id: Uuid,
        found: Result<Option<SubjectGroup>, SubjectGroupRepositoryError>,
    ) -> (outcome: Result<SubjectGroup, DomainError>)
        ensures
            is_changeable_group(id, found, outcome),
    {
        match self.get_by_id(id, found) {
            Err(e) => Err(e),
            Ok(group) => {
                if group.is_virtual {
                    Err(virtual_refusal())
                } else {
                    Ok(group)
                }
            },
        }
    }

    /// The group to rename: it must exist, must not be virtual, and the new
    /// name must have passed the entity's own check.
    pub fn rename(
        &self,
        id: Uuid,
        found: Result<Option<SubjectGroup>, SubjectGroupRepositoryError>,
        name_check: Result<(), SubjectGroupError>,
    ) -> (outcome: Result<SubjectGroup, DomainError>)
        ensures
            match found {
                Ok(Some(group)) => if group.is_virtual {
                    is_changeable_group(id, found, outcome)
                } else {
                    match name_check {
                        Ok(()) => outcome == Ok::<SubjectGroup, DomainError>(group),
                        Err(e) => outcome is Err && outcome->Err_0.says(
                            entity_error_report(e).0,
                            "SubjectGroup"@,
                            entity_error_report(e).1,
                        ),
                    }
                },
                _ => is_changeable_group(id, found, outcome),
            },
    {
        match self.changeable(id, found) {
            Err(e) => Err(e),
            Ok(group) => match name_check {
                Ok(()) => Ok(group),
                Err(e) => Err(map_entity_err(e)),
            },
        }
    }

    /// The deletion of a group that exists and is not virtual.
    pub fn delete(
        &self,
        id: Uuid,
        found: Result<Option<SubjectGroup>, SubjectGroupRepositoryError>,
    ) -> (outcome: Result<DeleteGroup, DomainError>)
        ensures
            is_deletable_group(id, found, outcome),
    {
        match self.changeable(id, found) {
            Err(e) => Err(e),
            Ok(_group) => Ok(DeleteGroup { id }),
        }
    }

    /// Whether members may be added to the group: the membership of the
    /// internal group is implicit, and virtual groups are not changed. That a
    /// group does not exist is left to the change itself to report.
    pub fn add_member(
        &self,
        group_id: Uuid,
        found: Result<Option<SubjectGroup>, SubjectGroupRepositoryError>,
    ) -> (outcome: Result<(), DomainError>)
        ensures
            self.admits_changes(group_id, found, outcome),
    {
        if group_id == self.internal_group_id {
            return Err(
                DomainError::new(
                    ErrorKind::AccessDenied,
                    "SubjectGroup",
                    "Internal group membership is implicit and cannot be edited".to_owned(),
                ),
            );
        }
        match found {
            Ok(Some(group)) => {
                if group.is_virtual {
                    Err(virtual_refusal())
                } else {
                    Ok(())
                }
            },
            Ok(None) => Ok(()),
            Err(e) => Err(map_repo_err(e)),
        }
    }

    /// Whether members may be removed from the group, by the same rule.
    pub fn remove_member(
        &self,
        group_id: Uuid,
        found: Result<Option<SubjectGroup>, SubjectGroupRepositoryError>,
    ) -> (outcome: Result<(), DomainError>)
        ensures
            self.admits_changes(group_id, found, outcome),
    {
        self.add_member(group_id, found)
    }

    /// The audit event that a refused change calls for: attempts to close a
    /// circle or to nest too deeply are recorded.
    pub fn rejection_audit(&self, e: &SubjectGroupRepositoryError) -> (audit: Option<
        RejectionAudit,
    >)
        ensures
            audit == (match e {
                SubjectGroupRepositoryError::Cycle(_) => Some(RejectionAudit::CycleRejected),
                SubjectGroupRepositoryError::DepthExceeded(_) => Some(
                    RejectionAudit::DepthExceeded,
                ),
                _ => None,
            }),
    {
        match e {
            SubjectGroupRepositoryError::Cycle(_) => Some(RejectionAudit::CycleRejected),
            SubjectGroupRepositoryError::DepthExceeded(_) => Some(RejectionAudit::DepthExceeded),
            _ => None,
        }
    }
}

/// The error for an attempt to change a virtual group.
pub open spec fn is_virtual_refusal(error: DomainError) -> bool {
    error.says(ErrorKind::AccessDenied, "SubjectGroup"@, "virtual groups cannot be modified"@)
}

fn virtual_refusal() -> (error: DomainError)
    ensures
        is_virtual_refusal(error),
{
    DomainError::new(
        ErrorKind::AccessDenied,
        "SubjectGroup",
        "virtual groups cannot be modified".to_owned(),
    )
}

/// The error for an attempt to edit the members of the internal group.
pub open spec fn is_implicit_refusal(error: DomainError) -> bool {
    error.says(
        ErrorKind::AccessDenied,
        "SubjectGroup"@,
        "Internal group membership is implicit and cannot be edited"@,
    )
}

/// `outcome` is the group that was found if it may be changed, and otherwise
/// says why not.
pub open spec fn is_changeable_group(
    id: Uuid,
    found: Result<Option<SubjectGroup>, SubjectGroupRepositoryError>,
    outcome: Result<SubjectGroup, DomainError>,
) -> bool {
    match found {
        Ok(Some(group)) => if group.is_virtual {
            outcome is Err && is_virtual_refusal(outcome->Err_0)
        } else {
            outcome == Ok::<SubjectGroup, DomainError>(group)
        },
        Ok(None) => outcome is Err && is_missing_group(outcome->Err_0, id),
        Err(e) => outcome is Err && reports(outcome->Err_0, e),
    }
}

/// `outcome` is the request to delete the group that was found if it may be
/// changed, and otherwise says why not.
pub open spec fn is_deletable_group(
    id: Uuid,
    found: Result<Option<SubjectGroup>, SubjectGroupRepositoryError>,
    outcome: Result<DeleteGroup, DomainError>,
) -> bool {
    match found {
        Ok(Some(group)) => if group.is_virtual {
            outcome is Err && is_virtual_refusal(outcome->Err_0)
        } else {
            outcome == Ok::<DeleteGroup, DomainError>(DeleteGroup { id })
        },
        Ok(None) => outcome is Err && is_missing_group(outcome->Err_0, id),
        Err(e) => outcome is Err && reports(outcome->Err_0, e),
    }
}

/// The deletion of a group: open a transaction.
///
/// The grants that name the group and the group itself are deleted in one
/// transaction. The types below stand for its requests in their order; only
/// [`CommitDeletion`] makes the deletion last, and any error before it drops
/// the transaction.
#[derive(Clone, Copy, PartialEq, Eq, Structural, Debug)]
pub struct DeleteGroup {
    pub id: Uuid,
}

/// Delete the access grants whose subject is the group.
#[derive(Clone, Copy, PartialEq, Eq, Structural, Debug)]
pub struct DeleteGrants {
    pub id: Uuid,
}

/// Delete the row of the group; its membership rows go with it.
#[derive(Clone, Copy, PartialEq, Eq, Structural, Debug)]
pub struct DeleteRow {
    pub id: Uuid,
    pub grants_deleted: u64,
}

/// Commit the transaction.
#[derive(Clone, Copy, PartialEq, Eq, Structural, Debug)]
pub struct CommitDeletion {
    pub id: Uuid,
    pub grants_deleted: u64,
}

impl DeleteGroup {
    /// `outcome` follows from the reply to this request.
    pub open spec fn leads_to(
        self,
        reply: Result<(), String>,
        outcome: Result<DeleteGrants, DomainError>,
    ) -> bool {
        match reply {
            Ok(()) => outcome == Ok::<DeleteGrants, DomainError>(DeleteGrants { id: self.id }),
            Err(e) => outcome is Err && is_failure_of(outcome->Err_0, "begin tx: "@, e@),
        }
    }

    /// The transaction was opened, or not.
    pub fn opened(self, reply: Result<(), String>) -> (outcome: Result<DeleteGrants, DomainError>)
        ensures
            self.leads_to(reply, outcome),
    {
        match reply {
            Ok(()) => Ok(DeleteGrants { id: self.id }),
            Err(e) => Err(failure_of("begin tx: ", &e)),
        }
    }
}

impl DeleteGrants {
    /// `outcome` follows from the reply to this request.
    pub open spec fn leads_to(
        self,
        reply: Result<u64, String>,
        outcome: Result<DeleteRow, DomainError>,
    ) -> bool {
        match reply {
            Ok(grants_deleted) => outcome == Ok::<DeleteRow, DomainError>(
                DeleteRow { id: self.id, grants_deleted },
            ),
            Err(e) => outcome is Err && is_failure_of(
                outcome->Err_0,
                "cascade-delete grants: "@,
                e@,
            ),
        }
    }

    /// The grants were deleted; `reply` tells how many there were.
    pub fn done(self, reply: Result<u64, String>) -> (outcome: Result<DeleteRow, DomainError>)
        ensures
            self.leads_to(reply, outcome),
    {
        match reply {
            Ok(grants_deleted) => Ok(DeleteRow { id: self.id, grants_deleted }),
            Err(e) => Err(failure_of("cascade-delete grants: ", &e)),
        }
    }
}

impl DeleteRow {
    /// `outcome` follows from the reply to this request.
    pub open spec fn leads_to(
        self,
        reply: Result<u64, String>,
        outcome: Result<CommitDeletion, DomainError>,
    ) -> bool {
        match reply {
            Ok(removed) => if removed == 0 {
                outcome is Err && is_missing_group(outcome->Err_0, self.id)
            } else {
                outcome == Ok::<CommitDeletion, DomainError>(
                    CommitDeletion { id: self.id, grants_deleted: self.grants_deleted },
                )
            },
            Err(e) => outcome is Err && is_failure_of(outcome->Err_0, "delete group: "@, e@),
        }
    }

    /// The row was deleted; `reply` tells how many rows that affected.
    pub fn done(self, reply: Result<u64, String>) -> (outcome: Result<CommitDeletion, DomainError>)
        ensures
            self.leads_to(reply, outcome),
    {
        match reply {
            Ok(removed) => {
                if removed == 0 {
                    Err(missing_group(self.id))
                } else {
                    Ok(CommitDeletion { id: self.id, grants_deleted: self.grants_deleted })
                }
            },
            Err(e) => Err(failure_of("delete group: ", &e)),
        }
    }
}

impl CommitDeletion {
    /// `outcome` follows from the reply to this request.
    pub open spec fn leads_to(
        self,
        reply: Result<(), String>,
        outcome: Result<u64, DomainError>,
    ) -> bool {
        match reply {
            Ok(()) => outcome == Ok::<u64, DomainError>(self.grants_deleted),
            Err(e) => outcome is Err && is_failure_of(outcome->Err_0, "commit: "@, e@),
        }
    }

    /// The transaction was committed, or not. The number is that of the
    /// grants that went with the group.
    pub fn committed(self, reply: Result<(), String>) -> (outcome: Result<u64, DomainError>)
        ensures
            self.leads_to(reply, outcome),
    {
        match reply {
            Ok(()) => Ok(self.grants_deleted),
            Err(e) => Err(failure_of("commit: ", &e)),
        }
    }
}

/// A deletion is committed exactly where the transaction was opened, the
/// grants were deleted and the row of the group was deleted: if any of these
/// fails, nothing is.
pub proof fn law_deletion_is_all_or_nothing(
    request: DeleteGroup,
    opened: Result<(), String>,
    after_open: Result<DeleteGrants, DomainError>,
    grants: Result<u64, String>,
    after_grants: Result<DeleteRow, DomainError>,
    removed: Result<u64, String>,
    after_row: Result<CommitDeletion, DomainError>,
)
    requires
        request.leads_to(opened, after_open),
        after_open is Ok ==> after_open->Ok_0.leads_to(grants, after_grants),
        after_open is Ok && after_grants is Ok ==> after_grants->Ok_0.leads_to(removed, after_row),
    ensures
        (after_open is Ok && after_grants is Ok && after_row is Ok) <==> (opened is Ok && grants
            is Ok && removed is Ok && removed->Ok_0 > 0),
        (after_open is Ok && after_grants is Ok && after_row is Ok) ==> after_row->Ok_0 == (
        CommitDeletion { id: request.id, grants_deleted: grants->Ok_0 }),
{
}

// ── What a deletion removes ─────────────────────────────────────────────────

/// Whom a grant is for: the type of the subject and its id.
pub struct GrantSubject {
    pub kind: Seq<char>,
    pub id: Uuid,
}

/// The groups with their members, and the access grants, each row under a
/// number of its own.
pub struct Directory {
    pub store: GroupStore,
    pub grants: Map<int, GrantSubject>,
}

/// The grants of a group.
pub open spec fn grants_of(grants: Map<int, GrantSubject>, group: Uuid) -> Set<int> {
    grants.dom().filter(|row: int| grants[row] == (GrantSubject { kind: "group"@, id: group }))
}

/// The database keeps these membership rows when a group is deleted: none of
/// the group itself, and all that do not name it. Whether a row goes in which
/// the group is a member of another is left to the schema of the database.
pub open spec fn cascades(stays: spec_fn(MembershipRow) -> bool, group: Uuid) -> bool {
    forall|row: MembershipRow|
        {
            &&& row.group_id == group ==> !#[trigger] stays(row)
            &&& row.group_id != group && row.member != GroupMember::Group(group) ==> stays(row)
        }
}

impl Directory {
    /// What is left once the grants and the row of a group were deleted.
    pub open spec fn without_group(
        self,
        group: Uuid,
        stays: spec_fn(MembershipRow) -> bool,
    ) -> Directory {
        Directory {
            store: GroupStore {
                groups: self.store.groups.remove(group),
                rows: self.store.rows.filter(stays),
            },
            grants: self.grants.remove_keys(grants_of(self.grants, group)),
        }
    }
}

/// The requests of one deletion, each with its reply and what followed from
/// it. What follows behind an error is of no account.
pub struct Deletion {
    pub request: Result<DeleteGroup, DomainError>,
    pub opened: Result<(), String>,
    pub grants: Result<DeleteGrants, DomainError>,
    pub grants_deleted: Result<u64, String>,
    pub row: Result<DeleteRow, DomainError>,
    pub rows_deleted: Result<u64, String>,
    pub commit: Result<CommitDeletion, DomainError>,
    pub committed: Result<(), String>,
    pub done: Result<u64, DomainError>,
}

impl Deletion {
    /// Each step follows from the reply to the one before it.
    pub open spec fn runs(
        self,
        id: Uuid,
        found: Result<Option<SubjectGroup>, SubjectGroupRepositoryError>,
    ) -> bool {
        &&& is_deletable_group(id, found, self.request)
        &&& self.request matches Ok(request) ==> {
            &&& request.leads_to(self.opened, self.grants)
            &&& self.grants matches Ok(grants) ==> {
                &&& grants.leads_to(self.grants_deleted, self.row)
                &&& self.row matches Ok(row) ==> {
                    &&& row.leads_to(self.rows_deleted, self.commit)
                    &&& self.commit matches Ok(commit) ==> commit.leads_to(
                        self.committed,
                        self.done,
                    )
                }
            }
        }
    }

    /// How the deletion ends.
    pub open spec fn outcome(self) -> Result<u64, DomainError> {
        if let Err(e) = self.request {
            Err(e)
        } else if let Err(e) = self.grants {
            Err(e)
        } else if let Err(e) = self.row {
            Err(e)
        } else if let Err(e) = self.commit {
            Err(e)
        } else {
            self.done
        }
    }

    /// The replies tell what the database holds: how many grants the group
    /// has, and whether it has a row.
    pub open spec fn is_truthful(self, id: Uuid, before: Directory) -> bool {
        &&& self.grants_deleted matches Ok(n) ==> n == grants_of(before.grants, id).len()
        &&& self.rows_deleted matches Ok(n) ==> n == (if before.store.groups.contains(id) {
            1int
        } else {
            0
        })
    }

    /// No exchange with the database failed.
    pub open spec fn has_no_failure(self) -> bool {
        &&& self.opened is Ok
        &&& self.grants_deleted is Ok
        &&& self.rows_deleted is Ok
        &&& self.committed is Ok
    }

    /// What the database holds afterwards: only a transaction that was
    /// committed lasts.
    pub open spec fn after(
        self,
        id: Uuid,
        before: Directory,
        stays: spec_fn(MembershipRow) -> bool,
    ) -> Directory {
        if self.outcome() is Ok {
            before.without_group(id, stays)
        } else {
            before
        }
    }
}

/// A deletion that succeeds removes the group, its membership rows and the
/// grants that name it as a group, and nothing else: other groups, rows that
/// do not name it, and grants for other subjects stay, those for a subject of
/// another type with the same id among them. It tells how many grants went.
/// One that fails removes nothing. Where no exchange with the database fails, a
/// group that exists and is not virtual is deleted. The rules of the store
/// still hold.
pub proof fn law_deletion_removes_the_group_and_its_grants(
    id: Uuid,
    found: Result<Option<SubjectGroup>, SubjectGroupRepositoryError>,
    deletion: Deletion,
    before: Directory,
    stays: spec_fn(MembershipRow) -> bool,
)
    requires
        deletion.runs(id, found),
        deletion.is_truthful(id, before),
        cascades(stays, id),
    ensures
        ({
            let after = deletion.after(id, before, stays);
            &&& deletion.outcome() is Err ==> after == before
            &&& deletion.outcome() matches Ok(n) ==> {
                &&& n == grants_of(before.grants, id).len()
                &&& before.store.groups.contains(id)
                &&& forall|group: Uuid| #[trigger]
                    after.store.groups.contains(group) <==> before.store.groups.contains(group)
                        && group != id
                &&& forall|row: MembershipRow| #[trigger]
                    after.store.rows.contains(row) ==> before.store.rows.contains(row)
                        && row.group_id != id
                &&& forall|row: MembershipRow|
                    before.store.rows.contains(row) && row.group_id != id && row.member
                        != GroupMember::Group(id) ==> #[trigger] after.store.rows.contains(row)
                &&& forall|grant: int| #[trigger]
                    after.grants.contains_key(grant) <==> before.grants.contains_key(grant) && !(
                    before.grants[grant].kind == "group"@ && before.grants[grant].id == id)
                &&& forall|grant: int|
                    after.grants.contains_key(grant) ==> #[trigger] after.grants[grant]
                        == before.grants[grant]
            }
            &&& deletion.has_no_failure() ==> (deletion.outcome() is Ok <==> (found matches Ok(
                Some(group),
            ) && !group.is_virtual && before.store.groups.contains(id)))
            &&& before.store.valid() ==> after.store.valid()
        }),
{
    let after = deletion.after(id, before, stays);
    if deletion.outcome() is Ok {
        let rows = before.store.rows;
        lemma_filtered_rows(rows, stays);
        assert forall|grant: int| #[trigger]
            after.grants.contains_key(grant) <==> before.grants.contains_key(grant) && !(
            before.grants[grant].kind == "group"@ && before.grants[grant].id == id) by {
            if before.grants[grant].kind == "group"@ && before.grants[grant].id == id {
                assert(before.grants[grant] == (GrantSubject { kind: "group"@, id }));
            }
        }
        if before.store.valid() {
            membership::law_fewer_rows_keep_the_rules(rows, rows.filter(stays));
        }
    }
}

proof fn lemma_filtered_rows(rows: Seq<MembershipRow>, stays: spec_fn(MembershipRow) -> bool)
    ensures
        forall|row: MembershipRow| #[trigger]
            rows.filter(stays).contains(row) <==> rows.contains(row) && stays(row),
        rows.no_duplicates() ==> rows.filter(stays).no_duplicates(),
    decreases rows.len(),
{
    reveal(Seq::filter);
    let kept = rows.filter(stays);
    if rows.len() > 0 {
        let less = rows.drop_last();
        let before = less.filter(stays);
        let last = rows.last();
        lemma_filtered_rows(less, stays);
        assert(kept == if stays(last) { before.push(last) } else { before });
        assert(rows =~= less.push(last));
        assert forall|row: MembershipRow| #[trigger]
            kept.contains(row) <==> rows.contains(row) && stays(row) by {
            vstd::seq_lib::lemma_seq_contains_after_push(less, last, row);
            vstd::seq_lib::lemma_seq_contains_after_push(before, last, row);
        }
        if rows.no_duplicates() {
            assert(less.no_duplicates());
            if before.contains(last) {
                assert(less.contains(last));
                let k = choose|k: int| 0 <= k < less.len() && less[k] == last;
                assert(rows[k] == rows[rows.len() - 1]);
            }
        }
    }
}

} // verus!
