//! Groups in the database, and the rules of the service for them.

use vstd::prelude::*;
use vstd::string::*;

use crate::errors::{DomainError, ErrorKind};
use crate::groups::entity::{
    GroupMember, SubjectGroup, SubjectGroupError, SubjectGroupRepositoryError,
};
use crate::groups::membership;
use crate::groups::membership::MembershipRow;
use crate::groups::repository;
use crate::groups::repository::{
    map_sqlx_err, pass_on, read_table, AddMember, AfterLock, CheckNesting, CommitMember,
    CountCountedGroups, CountGroups, InsertMember, ListCountedGroups, ListGroups, LockParent,
    MemberColumns, StorageFailure, SubjectGroupPgRepository, TableRow,
};
use crate::groups::service;
use crate::groups::service::{
    from_repository, map_entity_err, map_repo_err, CommitDeletion, DeleteGrants, DeleteGroup,
    DeleteRow, RejectionAudit, SubjectGroupService,
};
use crate::identifier;
use crate::identifier::Uuid;
use crate::laws::nesting;
use crate::laws::shared;

verus! {

// ── Failures of the database ────────────────────────────────────────────────

/// The error that a failure of the database is: the violation of uniqueness is
/// a name that exists, that of a check an invalid name, both with what the
/// database says; any other failure is one of the storage, with what was being
/// done.
pub open spec fn is_report(
    error: SubjectGroupRepositoryError,
    doing: Seq<char>,
    failure: StorageFailure,
) -> bool {
    let code = match failure.database {
        Some(fault) => match fault.code {
            Some(code) => Some(code@),
            None => None,
        },
        None => None,
    };
    if code == Some("23505"@) {
        error matches SubjectGroupRepositoryError::NameAlreadyExists(m) && m@
            == failure.database->0.text@
    } else if code == Some("23514"@) {
        error matches SubjectGroupRepositoryError::InvalidName(m) && m@
            == failure.database->0.text@
    } else {
        error matches SubjectGroupRepositoryError::StorageError(m) && m@ == doing + ": "@
            + failure.text@
    }
}

/// Failures of the database are told apart as above.
pub proof fn law_failures_are_told_apart(
    doing: &str,
    failure: StorageFailure,
    error: SubjectGroupRepositoryError,
)
    requires
        call_ensures(map_sqlx_err, (doing, failure), error),
    ensures
        is_report(error, doing@, failure),
{
}

/// What the database found is handed on as it is, and a failure as above.
pub open spec fn is_handed_on<T>(
    doing: Seq<char>,
    reply: Result<T, StorageFailure>,
    outcome: Result<T, SubjectGroupRepositoryError>,
) -> bool {
    match reply {
        Ok(value) => outcome is Ok && outcome->Ok_0 == value,
        Err(failure) => outcome is Err && is_report(outcome->Err_0, doing, failure),
    }
}

/// A reply is handed on as above.
pub proof fn law_replies_are_handed_on<T>(
    doing: &str,
    reply: Result<T, StorageFailure>,
    outcome: Result<T, SubjectGroupRepositoryError>,
)
    requires
        call_ensures(pass_on::<T>, (doing, reply), outcome),
    ensures
        is_handed_on(doing@, reply, outcome),
{
}

/// What is stored, found or counted is handed on by the repository.
pub proof fn law_the_repository_hands_on(
    repository: SubjectGroupPgRepository,
    stored: Result<SubjectGroup, StorageFailure>,
    created: Result<SubjectGroup, SubjectGroupRepositoryError>,
    reply: Result<Option<SubjectGroup>, StorageFailure>,
    by_id: Result<Option<SubjectGroup>, SubjectGroupRepositoryError>,
    by_name: Result<Option<SubjectGroup>, SubjectGroupRepositoryError>,
    number: Result<i64, StorageFailure>,
    counted: Result<i64, SubjectGroupRepositoryError>,
)
    requires
        call_ensures(SubjectGroupPgRepository::create, (&repository, stored), created),
        call_ensures(SubjectGroupPgRepository::get_by_id, (&repository, reply), by_id),
        call_ensures(SubjectGroupPgRepository::get_by_name, (&repository, reply), by_name),
        call_ensures(SubjectGroupPgRepository::count_members, (&repository, number), counted),
    ensures
        is_handed_on("create subject_group"@, stored, created),
        is_handed_on("get_by_id"@, reply, by_id),
        is_handed_on("get_by_name"@, reply, by_name),
        is_handed_on("count_members"@, number, counted),
{
}

// ── Listings ────────────────────────────────────────────────────────────────

/// A listing asks for its page, virtual groups first and then by name, of those
/// groups whose name matches the pattern where there is one, and for the number
/// of just these.
pub proof fn law_listings_ask_for_their_page(
    repository: SubjectGroupPgRepository,
    limit: u32,
    offset: u32,
    pattern: Option<String>,
    request: ListGroups,
)
    requires
        call_ensures(
            SubjectGroupPgRepository::list,
            (&repository, limit, offset, pattern),
            request,
        ),
    ensures
        request.query.limit == limit,
        request.query.offset == offset,
        request.query.pattern == pattern,
        pattern is Some ==> request.query.page@
            == "SELECT id, name, description, is_virtual, created_at, updated_at FROM auth.subject_groups WHERE name ILIKE $1 ORDER BY is_virtual DESC, name LIMIT $2 OFFSET $3"@,
        pattern is Some ==> request.query.total@
            == "SELECT COUNT(*) FROM auth.subject_groups WHERE name ILIKE $1"@,
        pattern is None ==> request.query.page@
            == "SELECT id, name, description, is_virtual, created_at, updated_at FROM auth.subject_groups ORDER BY is_virtual DESC, name LIMIT $1 OFFSET $2"@,
        pattern is None ==> request.query.total@ == "SELECT COUNT(*) FROM auth.subject_groups"@,
{
}

/// A listing with numbers asks for the same groups in the same order, each with
/// the number of its direct members, and for the same total.
pub proof fn law_counted_listings_ask_for_their_page(
    repository: SubjectGroupPgRepository,
    limit: u32,
    offset: u32,
    pattern: Option<String>,
    plain: ListGroups,
    request: ListCountedGroups,
)
    requires
        call_ensures(
            SubjectGroupPgRepository::list,
            (&repository, limit, offset, pattern),
            plain,
        ),
        call_ensures(
            SubjectGroupPgRepository::list_with_counts,
            (&repository, limit, offset, pattern),
            request,
        ),
    ensures
        request.query.limit == limit,
        request.query.offset == offset,
        request.query.pattern == pattern,
        request.query.total@ == plain.query.total@,
        pattern is Some ==> request.query.page@
            == "SELECT g.id, g.name, g.description, g.is_virtual, g.created_at, g.updated_at, COUNT(m.group_id) AS member_count FROM auth.subject_groups g LEFT JOIN auth.subject_group_members m ON m.group_id = g.id WHERE g.name ILIKE $1 GROUP BY g.id ORDER BY g.is_virtual DESC, g.name LIMIT $2 OFFSET $3"@,
        pattern is None ==> request.query.page@
            == "SELECT g.id, g.name, g.description, g.is_virtual, g.created_at, g.updated_at, COUNT(m.group_id) AS member_count FROM auth.subject_groups g LEFT JOIN auth.subject_group_members m ON m.group_id = g.id GROUP BY g.id ORDER BY g.is_virtual DESC, g.name LIMIT $1 OFFSET $2"@,
{
}

/// The page that was read is what the listing shows, with the number that was
/// counted; should that be negative, it is taken without its sign, by its bits.
/// A failure ends the listing.
pub proof fn law_listings_show_what_was_read(
    request: ListGroups,
    page: Result<Vec<SubjectGroup>, StorageFailure>,
    next: Result<CountGroups, SubjectGroupRepositoryError>,
    total: Result<i64, StorageFailure>,
    outcome: Result<(Vec<SubjectGroup>, u64), SubjectGroupRepositoryError>,
)
    requires
        call_ensures(ListGroups::fetched, (request, page), next),
        next matches Ok(count) ==> call_ensures(CountGroups::counted, (count, total), outcome),
    ensures
        next is Ok <==> page is Ok,
        page matches Err(failure) ==> is_report(next->Err_0, "list page"@, failure),
        page matches Ok(groups) ==> {
            &&& next->Ok_0.query == request.query
            &&& next->Ok_0.groups == groups
            &&& outcome is Ok <==> total is Ok
            &&& total matches Ok(n) ==> outcome->Ok_0.0 == groups && (outcome->Ok_0.1 - n)
                % 0x1_0000_0000_0000_0000 == 0
            &&& total matches Err(failure) ==> is_report(
                outcome->Err_0,
                "list count"@,
                failure,
            )
        },
{
}

/// The same holds of a listing with numbers.
pub proof fn law_counted_listings_show_what_was_read(
    request: ListCountedGroups,
    page: Result<Vec<(SubjectGroup, i64)>, StorageFailure>,
    next: Result<CountCountedGroups, SubjectGroupRepositoryError>,
    total: Result<i64, StorageFailure>,
    outcome: Result<(Vec<(SubjectGroup, i64)>, u64), SubjectGroupRepositoryError>,
)
    requires
        call_ensures(ListCountedGroups::fetched, (request, page), next),
        next matches Ok(count) ==> call_ensures(
            CountCountedGroups::counted,
            (count, total),
            outcome,
        ),
    ensures
        next is Ok <==> page is Ok,
        page matches Err(failure) ==> is_report(
            next->Err_0,
            "list_with_counts page"@,
            failure,
        ),
        page matches Ok(groups) ==> {
            &&& next->Ok_0.query == request.query
            &&& next->Ok_0.groups == groups
            &&& outcome is Ok <==> total is Ok
            &&& total matches Ok(n) ==> outcome->Ok_0.0 == groups && (outcome->Ok_0.1 - n)
                % 0x1_0000_0000_0000_0000 == 0
            &&& total matches Err(failure) ==> is_report(
                outcome->Err_0,
                "list_with_counts total"@,
                failure,
            )
        },
{
}

// ── Renaming and deleting ───────────────────────────────────────────────────

/// The error names the group that does not exist.
pub open spec fn is_unknown(error: SubjectGroupRepositoryError, id: Uuid) -> bool {
    error matches SubjectGroupRepositoryError::NotFound(m) && m@ == identifier::hyphenated(id.value)
}

/// Renaming and deleting succeed exactly where they met the group; a group that
/// was not met is reported with its id.
pub proof fn law_groups_that_do_not_exist_are_named(
    repository: SubjectGroupPgRepository,
    id: Uuid,
    row: Result<Option<SubjectGroup>, StorageFailure>,
    renamed: Result<SubjectGroup, SubjectGroupRepositoryError>,
    rows: Result<u64, StorageFailure>,
    deleted: Result<(), SubjectGroupRepositoryError>,
)
    requires
        call_ensures(SubjectGroupPgRepository::rename, (&repository, id, row), renamed),
        call_ensures(SubjectGroupPgRepository::delete, (&repository, id, rows), deleted),
    ensures
        renamed is Ok <==> (row matches Ok(group) && group is Some),
        row matches Ok(Some(group)) ==> renamed->Ok_0 == group,
        row matches Ok(None) ==> is_unknown(renamed->Err_0, id),
        row matches Err(failure) ==> is_report(renamed->Err_0, "rename"@, failure),
        deleted is Ok <==> (rows matches Ok(n) && n > 0),
        rows matches Ok(n) ==> (n == 0 ==> is_unknown(deleted->Err_0, id)),
        rows matches Err(failure) ==> is_report(deleted->Err_0, "delete"@, failure),
{
}

/// A member is removed exactly where a row was.
pub proof fn law_members_who_are_not_present(
    repository: SubjectGroupPgRepository,
    rows: Result<u64, StorageFailure>,
    removed: Result<(), SubjectGroupRepositoryError>,
)
    requires
        call_ensures(SubjectGroupPgRepository::remove_member, (&repository, rows), removed),
    ensures
        removed is Ok <==> (rows matches Ok(n) && n > 0),
        rows matches Ok(n) ==> (n == 0 ==> removed->Err_0 is MemberNotPresent),
        rows matches Err(failure) ==> is_report(removed->Err_0, "remove_member"@, failure),
{
}

// ── Reading the members ─────────────────────────────────────────────────────

/// The direct members are those that the rows name, in their order: a row more
/// adds at the end the user or the group that it names, and nothing where it
/// names both or neither.
pub proof fn law_direct_members_are_those_of_the_rows(
    repository: SubjectGroupPgRepository,
    rows: Vec<MemberColumns>,
    members: Result<Vec<GroupMember>, SubjectGroupRepositoryError>,
    row: MemberColumns,
    more_rows: Vec<MemberColumns>,
    more_members: Result<Vec<GroupMember>, SubjectGroupRepositoryError>,
    failure: StorageFailure,
    failed: Result<Vec<GroupMember>, SubjectGroupRepositoryError>,
)
    requires
        call_ensures(
            SubjectGroupPgRepository::list_direct_members,
            (&repository, Ok::<Vec<MemberColumns>, StorageFailure>(rows)),
            members,
        ),
        call_ensures(
            SubjectGroupPgRepository::list_direct_members,
            (&repository, Ok::<Vec<MemberColumns>, StorageFailure>(more_rows)),
            more_members,
        ),
        call_ensures(
            SubjectGroupPgRepository::list_direct_members,
            (&repository, Err::<Vec<MemberColumns>, StorageFailure>(failure)),
            failed,
        ),
        more_rows@ == rows@.push(row),
    ensures
        members is Ok && more_members is Ok,
        rows@.len() == 0 ==> members->Ok_0@.len() == 0,
        row.user_id is Some && row.group_id is None ==> more_members->Ok_0@
            == members->Ok_0@.push(GroupMember::User(row.user_id->0)),
        row.user_id is None && row.group_id is Some ==> more_members->Ok_0@
            == members->Ok_0@.push(GroupMember::Group(row.group_id->0)),
        (row.user_id is Some <==> row.group_id is Some) ==> more_members->Ok_0@
            == members->Ok_0@,
        failed is Err && is_report(failed->Err_0, "list_direct_members"@, failure),
{
    assert(more_rows@.drop_last() =~= rows@);
}

/// The table is read row by row: a row more adds a membership for the user and
/// one for the group that it names, in this order.
pub proof fn law_the_table_is_read_row_by_row(
    rows: Vec<TableRow>,
    table: Vec<MembershipRow>,
    row: TableRow,
    more_rows: Vec<TableRow>,
    more_table: Vec<MembershipRow>,
)
    requires
        call_ensures(read_table, (&rows,), table),
        call_ensures(read_table, (&more_rows,), more_table),
        more_rows@ == rows@.push(row),
    ensures
        rows@.len() == 0 ==> table@.len() == 0,
        ({
            let user = row.member.user_id;
            let group = row.member.group_id;
            let with_user = if user is Some {
                table@.push(
                    MembershipRow { group_id: row.group_id, member: GroupMember::User(user->0) },
                )
            } else {
                table@
            };
            more_table@ == if group is Some {
                with_user.push(
                    MembershipRow { group_id: row.group_id, member: GroupMember::Group(group->0) },
                )
            } else {
                with_user
            }
        }),
{
    assert(more_rows@.drop_last() =~= rows@);
    let before = repository::memberships_in(rows@);
    assert(more_table@ == before + repository::memberships_of(row));
    let user = row.member.user_id;
    let group = row.member.group_id;
    let with_user = if user is Some {
        table@.push(MembershipRow { group_id: row.group_id, member: GroupMember::User(user->0) })
    } else {
        table@
    };
    let with_group = if group is Some {
        with_user.push(
            MembershipRow { group_id: row.group_id, member: GroupMember::Group(group->0) },
        )
    } else {
        with_user
    };
    assert(more_table@ =~= with_group);
}

/// The users of a group and the groups of a user are those that the table
/// makes, each once.
pub proof fn law_members_by_the_table(
    repository: SubjectGroupPgRepository,
    group: Uuid,
    user: Uuid,
    rows: Vec<MembershipRow>,
    users: Result<Vec<Uuid>, SubjectGroupRepositoryError>,
    groups: Result<Vec<Uuid>, SubjectGroupRepositoryError>,
)
    requires
        call_ensures(
            SubjectGroupPgRepository::list_transitive_users,
            (&repository, group, Ok::<Vec<MembershipRow>, StorageFailure>(rows)),
            users,
        ),
        call_ensures(
            SubjectGroupPgRepository::groups_for_user,
            (&repository, user, Ok::<Vec<MembershipRow>, StorageFailure>(rows)),
            groups,
        ),
    ensures
        users is Ok && groups is Ok,
        forall|u: Uuid| #[trigger]
            users->Ok_0@.contains(u) <==> nesting::is_member(rows@, group, u),
        forall|i: int, j: int|
            0 <= i < j < users->Ok_0@.len() ==> users->Ok_0@[i] != users->Ok_0@[j],
        forall|g: Uuid| #[trigger]
            groups->Ok_0@.contains(g) <==> nesting::is_member(rows@, g, user),
        forall|i: int, j: int|
            0 <= i < j < groups->Ok_0@.len() ==> groups->Ok_0@[i] != groups->Ok_0@[j],
{
    assert forall|u: Uuid| #[trigger]
        users->Ok_0@.contains(u) <==> nesting::is_member(rows@, group, u) by {
        nesting::lemma_member(rows@, group, u);
    }
    assert forall|g: Uuid| #[trigger]
        groups->Ok_0@.contains(g) <==> nesting::is_member(rows@, g, user) by {
        membership::law_members_and_groups_agree(rows@, g, user);
        nesting::lemma_member(rows@, g, user);
    }
}

/// Where the table cannot be read, that is reported.
pub proof fn law_unread_tables_are_reported(
    repository: SubjectGroupPgRepository,
    id: Uuid,
    failure: StorageFailure,
    users: Result<Vec<Uuid>, SubjectGroupRepositoryError>,
    groups: Result<Vec<Uuid>, SubjectGroupRepositoryError>,
    check: CheckNesting,
    checked: Result<InsertMember, SubjectGroupRepositoryError>,
)
    requires
        call_ensures(
            SubjectGroupPgRepository::list_transitive_users,
            (&repository, id, Err::<Vec<MembershipRow>, StorageFailure>(failure)),
            users,
        ),
        call_ensures(
            SubjectGroupPgRepository::groups_for_user,
            (&repository, id, Err::<Vec<MembershipRow>, StorageFailure>(failure)),
            groups,
        ),
        call_ensures(
            CheckNesting::loaded,
            (check, Err::<Vec<MembershipRow>, StorageFailure>(failure)),
            checked,
        ),
    ensures
        users is Err && is_report(users->Err_0, "list_transitive_users"@, failure),
        groups is Err && is_report(groups->Err_0, "groups_for_user"@, failure),
        checked is Err && is_report(checked->Err_0, "add_member: cycle check"@, failure),
{
}

// ── Adding members ──────────────────────────────────────────────────────────

/// A change is the one that was asked for. It begins with a transaction, and
/// then locks the group.
pub proof fn law_changes_begin(
    repository: SubjectGroupPgRepository,
    group: Uuid,
    member: GroupMember,
    by: Uuid,
    change: AddMember,
    reply: Result<(), StorageFailure>,
    next: Result<LockParent, SubjectGroupRepositoryError>,
)
    requires
        call_ensures(
            SubjectGroupPgRepository::add_member,
            (&repository, group, member, by),
            change,
        ),
        call_ensures(AddMember::opened, (change, reply), next),
    ensures
        change.group_id == group,
        change.member == member,
        change.added_by == by,
        next is Ok <==> reply is Ok,
        next matches Ok(lock) ==> lock.change == change,
        reply matches Err(failure) ==> is_report(
            next->Err_0,
            "add_member: begin tx"@,
            failure,
        ),
{
}

/// A user may be added to any group that exists, and so may a group, but for
/// the group itself, once its nesting was checked; the change stays the same.
pub proof fn law_locked_groups(
    lock: LockParent,
    reply: Result<bool, StorageFailure>,
    next: Result<AfterLock, SubjectGroupRepositoryError>,
)
    requires
        call_ensures(LockParent::locked, (lock, reply), next),
    ensures
        next is Ok <==> (reply matches Ok(found) && found && lock.change.member
            != GroupMember::Group(lock.change.group_id)),
        next matches Ok(AfterLock::Insert(insert)) ==> lock.change.member is User && insert.change
            == lock.change,
        next matches Ok(AfterLock::Check(check)) ==> {
            &&& lock.change.member == GroupMember::Group(check.child)
            &&& check.group_id == lock.change.group_id
            &&& check.added_by == lock.change.added_by
        },
        reply matches Ok(found) ==> (!found ==> is_unknown(next->Err_0, lock.change.group_id)),
        reply matches Ok(found) ==> (found && next is Err ==> (next matches Err(
            SubjectGroupRepositoryError::Cycle(m),
        ) && m@ == "group cannot contain itself"@)),
        reply matches Err(failure) ==> is_report(
            next->Err_0,
            "add_member: lock parent"@,
            failure,
        ),
{
}

/// A member is inserted exactly where a row was, and then it is committed; a
/// member who was there is reported as such.
pub proof fn law_inserted_members(
    insert: InsertMember,
    reply: Result<u64, StorageFailure>,
    next: Result<CommitMember, SubjectGroupRepositoryError>,
    commit: CommitMember,
    committed: Result<(), StorageFailure>,
    done: Result<(), SubjectGroupRepositoryError>,
)
    requires
        call_ensures(InsertMember::inserted, (insert, reply), next),
        call_ensures(CommitMember::committed, (commit, committed), done),
    ensures
        next is Ok <==> (reply matches Ok(n) && n > 0),
        next matches Ok(c) ==> c.change == insert.change,
        reply matches Ok(n) ==> (n == 0 ==> next->Err_0 is MemberAlreadyPresent),
        reply matches Err(failure) ==> is_report(
            next->Err_0,
            if insert.change.member is User {
                "add_member: insert user"@
            } else {
                "add_member: insert group"@
            },
            failure,
        ),
        is_handed_on("add_member: commit"@, committed, done),
{
}

/// A whole change, on a table of which the rules hold, with replies that tell
/// the truth: a group is nested in another exactly where that other exists, the
/// membership is new, and the rules hold of the table with it.
pub proof fn law_groups_are_nested_where_the_rules_allow(
    change: AddMember,
    child: Uuid,
    group_exists: bool,
    rows: Vec<MembershipRow>,
    lock: Result<LockParent, SubjectGroupRepositoryError>,
    after_lock: Result<AfterLock, SubjectGroupRepositoryError>,
    checked: Result<InsertMember, SubjectGroupRepositoryError>,
    inserted: u64,
    commit: Result<CommitMember, SubjectGroupRepositoryError>,
    done: Result<(), SubjectGroupRepositoryError>,
)
    requires
        change.member == GroupMember::Group(child),
        nesting::is_shallow(rows@),
        inserted == (if rows@.contains(
            MembershipRow { group_id: change.group_id, member: change.member },
        ) {
            0int
        } else {
            1
        }),
        call_ensures(AddMember::opened, (change, Ok::<(), StorageFailure>(())), lock),
        lock is Ok ==> call_ensures(
            LockParent::locked,
            (lock->Ok_0, Ok::<bool, StorageFailure>(group_exists)),
            after_lock,
        ),
        lock is Ok ==> (after_lock matches Ok(AfterLock::Check(check)) ==> call_ensures(
            CheckNesting::loaded,
            (check, Ok::<Vec<MembershipRow>, StorageFailure>(rows)),
            checked,
        )),
        lock is Ok && after_lock is Ok && checked is Ok ==> call_ensures(
            InsertMember::inserted,
            (checked->Ok_0, Ok::<u64, StorageFailure>(inserted)),
            commit,
        ),
        lock is Ok && after_lock is Ok && checked is Ok && commit is Ok ==> call_ensures(
            CommitMember::committed,
            (commit->Ok_0, Ok::<(), StorageFailure>(())),
            done,
        ),
    ensures
        lock is Ok && after_lock is Ok && checked is Ok && commit is Ok && done is Ok <==> {
            &&& group_exists
            &&& !rows@.contains(
                MembershipRow { group_id: change.group_id, member: change.member },
            )
            &&& nesting::has_no_circle(nesting::nested(rows@, change.group_id, child))
            &&& nesting::is_shallow(nesting::nested(rows@, change.group_id, child))
        },
        lock is Ok && after_lock is Ok && checked is Ok && commit is Ok ==> commit->Ok_0.change
            == change,
{
    let group = change.group_id;
    let more = nesting::nested(rows@, group, child);
    if child == group {
        nesting::lemma_self_nesting_is_a_circle(rows@, group);
    }
    if lock is Ok && after_lock is Ok {
        let check = after_lock->Ok_0->Check_0;
        assert(after_lock->Ok_0 is Check);
        if nesting::has_no_circle(more) && nesting::is_shallow(more) {
            nesting::law_what_keeps_the_rules_is_nested(check, rows, checked);
        }
        if checked is Ok {
            nesting::law_what_is_nested_keeps_the_rules(check, rows, checked);
        }
    }
}

// ── Errors of the service ───────────────────────────────────────────────────

/// The kind under which an error of a group is reported, and its message.
pub open spec fn is_entity_report(error: DomainError, e: SubjectGroupError) -> bool {
    &&& error.entity@ == "SubjectGroup"@
    &&& match e {
        SubjectGroupError::InvalidName(m) => error.kind is InvalidInput && error.message@ == m@,
        SubjectGroupError::CycleDetected(m) => error.kind is InvalidInput && error.message@ == m@,
        SubjectGroupError::DepthExceeded(m) => error.kind is InvalidInput && error.message@ == m@,
        SubjectGroupError::VirtualImmutable(m) => error.kind is AccessDenied && error.message@
            == m@,
        SubjectGroupError::ValidationError(m) => error.kind is InvalidInput && error.message@
            == m@,
    }
}

/// The kind under which an error of the repository is reported, and its
/// message.
pub open spec fn is_repository_report(error: DomainError, e: SubjectGroupRepositoryError) -> bool {
    &&& error.entity@ == "SubjectGroup"@
    &&& match e {
        SubjectGroupRepositoryError::NotFound(m) => error.kind is NotFound && error.message@ == m@,
        SubjectGroupRepositoryError::NameAlreadyExists(m) => error.kind is AlreadyExists
            && error.message@ == m@,
        SubjectGroupRepositoryError::InvalidName(m) => error.kind is InvalidInput
            && error.message@ == m@,
        SubjectGroupRepositoryError::Cycle(m) => error.kind is InvalidInput && error.message@
            == m@,
        SubjectGroupRepositoryError::DepthExceeded(m) => error.kind is InvalidInput
            && error.message@ == m@,
        SubjectGroupRepositoryError::VirtualImmutable(m) => error.kind is AccessDenied
            && error.message@ == m@,
        SubjectGroupRepositoryError::MemberAlreadyPresent => error.kind is AlreadyExists
            && error.message@ == "member already in group"@,
        SubjectGroupRepositoryError::MemberNotPresent => error.kind is NotFound && error.message@
            == "member not in group"@,
        SubjectGroupRepositoryError::StorageError(m) => error.kind is InternalError
            && error.message@ == m@,
    }
}

/// Errors are reported as above.
pub proof fn law_errors_are_reported(
    e: SubjectGroupError,
    entity: DomainError,
    r: SubjectGroupRepositoryError,
    repository: DomainError,
)
    requires
        call_ensures(map_entity_err, (e,), entity),
        call_ensures(map_repo_err, (r,), repository),
    ensures
        is_entity_report(entity, e),
        is_repository_report(repository, r),
{
}

/// What the repository found is handed on as it is, and its errors as above.
pub open spec fn is_passed_up<T>(
    reply: Result<T, SubjectGroupRepositoryError>,
    outcome: Result<T, DomainError>,
) -> bool {
    match reply {
        Ok(value) => outcome is Ok && outcome->Ok_0 == value,
        Err(e) => outcome is Err && is_repository_report(outcome->Err_0, e),
    }
}

/// What the repository found is handed on as above.
pub proof fn law_findings_are_passed_up<T>(
    reply: Result<T, SubjectGroupRepositoryError>,
    outcome: Result<T, DomainError>,
)
    requires
        call_ensures(from_repository::<T>, (reply,), outcome),
    ensures
        is_passed_up(reply, outcome),
{
}

/// Listings, numbers and members are handed on by the service.
pub proof fn law_the_service_passes_up(
    internal: Uuid,
    service: SubjectGroupService,
    page: Result<(Vec<SubjectGroup>, u64), SubjectGroupRepositoryError>,
    listed: Result<(Vec<SubjectGroup>, u64), DomainError>,
    suggested: Result<Vec<SubjectGroup>, DomainError>,
    counted_page: Result<(Vec<(SubjectGroup, i64)>, u64), SubjectGroupRepositoryError>,
    counted: Result<(Vec<(SubjectGroup, i64)>, u64), DomainError>,
    number: Result<i64, SubjectGroupRepositoryError>,
    members: Result<i64, DomainError>,
    found: Result<Vec<GroupMember>, SubjectGroupRepositoryError>,
    direct: Result<Vec<GroupMember>, DomainError>,
    all: Result<Vec<Uuid>, SubjectGroupRepositoryError>,
    users: Result<Vec<Uuid>, DomainError>,
)
    requires
        call_ensures(SubjectGroupService::new, (internal,), service),
        call_ensures(SubjectGroupService::list, (&service, page), listed),
        call_ensures(SubjectGroupService::search_for_share, (&service, page), suggested),
        call_ensures(SubjectGroupService::list_with_counts, (&service, counted_page), counted),
        call_ensures(SubjectGroupService::count_members, (&service, number), members),
        call_ensures(SubjectGroupService::list_direct_members, (&service, found), direct),
        call_ensures(SubjectGroupService::list_transitive_users, (&service, all), users),
    ensures
        service.internal_group_id == internal,
        is_passed_up(page, listed),
        page matches Ok((groups, total)) ==> suggested is Ok && suggested->Ok_0 == groups,
        page matches Err(e) ==> suggested is Err && is_repository_report(suggested->Err_0, e),
        is_passed_up(counted_page, counted),
        is_passed_up(number, members),
        is_passed_up(found, direct),
        is_passed_up(all, users),
{
}

/// A user is told of their groups in the order in which they were found, but
/// for the internal one: a group more is added at the end, unless it is that
/// one.
pub proof fn law_the_internal_group_is_left_out(
    service: SubjectGroupService,
    all: Vec<Uuid>,
    groups: Result<Vec<Uuid>, DomainError>,
    group: Uuid,
    more: Vec<Uuid>,
    more_groups: Result<Vec<Uuid>, DomainError>,
    e: SubjectGroupRepositoryError,
    failed: Result<Vec<Uuid>, DomainError>,
)
    requires
        call_ensures(
            SubjectGroupService::groups_for_user,
            (&service, Ok::<Vec<Uuid>, SubjectGroupRepositoryError>(all)),
            groups,
        ),
        call_ensures(
            SubjectGroupService::groups_for_user,
            (&service, Ok::<Vec<Uuid>, SubjectGroupRepositoryError>(more)),
            more_groups,
        ),
        call_ensures(
            SubjectGroupService::groups_for_user,
            (&service, Err::<Vec<Uuid>, SubjectGroupRepositoryError>(e)),
            failed,
        ),
        more@ == all@.push(group),
    ensures
        groups is Ok && more_groups is Ok,
        all@.len() == 0 ==> groups->Ok_0@.len() == 0,
        group == service.internal_group_id ==> more_groups->Ok_0@ == groups->Ok_0@,
        group != service.internal_group_id ==> more_groups->Ok_0@ == groups->Ok_0@.push(group),
        !groups->Ok_0@.contains(service.internal_group_id),
        failed is Err && is_repository_report(failed->Err_0, e),
{
    reveal(Seq::filter);
    assert(more@.drop_last() =~= all@);
    service::law_explicit_groups_leave_out_the_internal_one(all@, service.internal_group_id);
}

// ── Changing groups ─────────────────────────────────────────────────────────

/// The error for a group that does not exist.
pub open spec fn is_missing(error: DomainError, id: Uuid) -> bool {
    shared::reports(
        error,
        ErrorKind::NotFound,
        "SubjectGroup"@,
        "group "@ + identifier::hyphenated(id.value) + " not found"@,
    )
}

/// The error for a change of a virtual group.
pub open spec fn is_protected(error: DomainError) -> bool {
    shared::reports(
        error,
        ErrorKind::AccessDenied,
        "SubjectGroup"@,
        "virtual groups cannot be modified"@,
    )
}

/// A draft is stored as it is; what its own checks refuse is reported. A group
/// is handed on where it was found, and else is missing under its id.
pub proof fn law_groups_are_handed_on(
    service: SubjectGroupService,
    draft: Result<SubjectGroup, SubjectGroupError>,
    created: Result<SubjectGroup, DomainError>,
    id: Uuid,
    found: Result<Option<SubjectGroup>, SubjectGroupRepositoryError>,
    group: Result<SubjectGroup, DomainError>,
)
    requires
        call_ensures(SubjectGroupService::create, (&service, draft), created),
        call_ensures(SubjectGroupService::get_by_id, (&service, id, found), group),
    ensures
        created is Ok <==> draft is Ok,
        draft matches Ok(g) ==> created->Ok_0 == g,
        draft matches Err(e) ==> is_entity_report(created->Err_0, e),
        group is Ok <==> (found matches Ok(g) && g is Some),
        found matches Ok(Some(g)) ==> group->Ok_0 == g,
        found matches Ok(None) ==> is_missing(group->Err_0, id),
        found matches Err(e) ==> is_repository_report(group->Err_0, e),
{
}

/// A group is renamed exactly where it exists, is not virtual and its new name
/// is valid; that it is virtual or missing is reported whatever the name is.
pub proof fn law_renaming(
    service: SubjectGroupService,
    id: Uuid,
    found: Result<Option<SubjectGroup>, SubjectGroupRepositoryError>,
    name: Result<(), SubjectGroupError>,
    outcome: Result<SubjectGroup, DomainError>,
)
    requires
        call_ensures(SubjectGroupService::rename, (&service, id, found, name), outcome),
    ensures
        outcome is Ok <==> (found matches Ok(Some(group)) && !group.is_virtual && name is Ok),
        outcome matches Ok(group) ==> found == Ok::<_, SubjectGroupRepositoryError>(Some(group)),
        found matches Ok(Some(group)) ==> {
            &&& group.is_virtual ==> is_protected(outcome->Err_0)
            &&& !group.is_virtual && name is Err ==> is_entity_report(
                outcome->Err_0,
                name->Err_0,
            )
        },
        found matches Ok(None) ==> is_missing(outcome->Err_0, id),
        found matches Err(e) ==> is_repository_report(outcome->Err_0, e),
{
}

/// A group is deleted exactly where it exists and is not virtual.
pub proof fn law_deletions_are_of_groups_that_may_go(
    service: SubjectGroupService,
    id: Uuid,
    found: Result<Option<SubjectGroup>, SubjectGroupRepositoryError>,
    outcome: Result<DeleteGroup, DomainError>,
)
    requires
        call_ensures(SubjectGroupService::delete, (&service, id, found), outcome),
    ensures
        outcome is Ok <==> (found matches Ok(Some(group)) && !group.is_virtual),
        outcome matches Ok(request) ==> request.id == id,
        found matches Ok(Some(group)) ==> (group.is_virtual ==> is_protected(outcome->Err_0)),
        found matches Ok(None) ==> is_missing(outcome->Err_0, id),
        found matches Err(e) ==> is_repository_report(outcome->Err_0, e),
{
}

/// The error says why the members of the group may not be changed.
pub open spec fn is_refusal(
    service: SubjectGroupService,
    id: Uuid,
    found: Result<Option<SubjectGroup>, SubjectGroupRepositoryError>,
    error: DomainError,
) -> bool {
    if id == service.internal_group_id {
        shared::reports(
            error,
            ErrorKind::AccessDenied,
            "SubjectGroup"@,
            "Internal group membership is implicit and cannot be edited"@,
        )
    } else if found is Ok {
        is_protected(error)
    } else {
        is_repository_report(error, found->Err_0)
    }
}

/// Members are added to and removed from all groups but the internal one and
/// the virtual ones, by the same rule.
pub proof fn law_members_of_protected_groups_stay(
    service: SubjectGroupService,
    id: Uuid,
    found: Result<Option<SubjectGroup>, SubjectGroupRepositoryError>,
    added: Result<(), DomainError>,
    removed: Result<(), DomainError>,
)
    requires
        call_ensures(SubjectGroupService::add_member, (&service, id, found), added),
        call_ensures(SubjectGroupService::remove_member, (&service, id, found), removed),
    ensures
        added is Ok <==> id != service.internal_group_id && (found matches Ok(group) && (group
            is None || !group->0.is_virtual)),
        removed is Ok <==> added is Ok,
        added matches Err(error) ==> is_refusal(service, id, found, error),
        removed matches Err(error) ==> is_refusal(service, id, found, error),
{
}

/// Just the attempts to close a circle or to nest too deeply are recorded, each
/// as what it is.
pub proof fn law_recorded_refusals(
    service: SubjectGroupService,
    e: SubjectGroupRepositoryError,
    audit: Option<RejectionAudit>,
)
    requires
        call_ensures(SubjectGroupService::rejection_audit, (&service, &e), audit),
    ensures
        audit == Some(RejectionAudit::CycleRejected) <==> e is Cycle,
        audit == Some(RejectionAudit::DepthExceeded) <==> e is DepthExceeded,
{
}

// ── Deleting a group ────────────────────────────────────────────────────────

/// The error for a failed step of a deletion.
pub open spec fn is_broken_off(error: DomainError, doing: Seq<char>, reason: Seq<char>) -> bool {
    shared::reports(error, ErrorKind::InternalError, "SubjectGroup"@, doing + reason)
}

/// A deletion takes its steps for one group: the transaction, the grants, the
/// row, the commit. Each failure ends it and says at which step. It tells how
/// many grants went.
pub proof fn law_steps_of_a_deletion(
    request: DeleteGroup,
    opened: Result<(), String>,
    grants: Result<DeleteGrants, DomainError>,
    number: Result<u64, String>,
    row: Result<DeleteRow, DomainError>,
    removed: Result<u64, String>,
    commit: Result<CommitDeletion, DomainError>,
    committed: Result<(), String>,
    done: Result<u64, DomainError>,
)
    requires
        call_ensures(DeleteGroup::opened, (request, opened), grants),
        grants matches Ok(g) ==> call_ensures(DeleteGrants::done, (g, number), row),
        grants is Ok && row is Ok ==> call_ensures(DeleteRow::done, (row->Ok_0, removed), commit),
        grants is Ok && row is Ok && commit is Ok ==> call_ensures(
            CommitDeletion::committed,
            (commit->Ok_0, committed),
            done,
        ),
    ensures
        grants is Ok <==> opened is Ok,
        grants matches Ok(g) ==> g.id == request.id,
        opened matches Err(reason) ==> is_broken_off(grants->Err_0, "begin tx: "@, reason@),
        grants is Ok ==> {
            &&& row is Ok <==> number is Ok
            &&& row matches Ok(r) ==> r.id == request.id
            &&& number matches Err(reason) ==> is_broken_off(
                row->Err_0,
                "cascade-delete grants: "@,
                reason@,
            )
        },
        grants is Ok && row is Ok ==> {
            &&& commit is Ok <==> (removed matches Ok(n) && n > 0)
            &&& commit matches Ok(c) ==> c.id == request.id
            &&& removed matches Ok(n) ==> (n == 0 ==> is_missing(commit->Err_0, request.id))
            &&& removed matches Err(reason) ==> is_broken_off(
                commit->Err_0,
                "delete group: "@,
                reason@,
            )
        },
        grants is Ok && row is Ok && commit is Ok ==> {
            &&& done is Ok <==> committed is Ok
            &&& done matches Ok(gone) ==> gone == number->Ok_0
            &&& committed matches Err(reason) ==> is_broken_off(done->Err_0, "commit: "@, reason@)
        },
{
}

} // verus!
