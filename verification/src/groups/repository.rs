//! Decisions of the group repository: what a reply of the database means and
//! what has to be asked next.

use vstd::prelude::*;
use vstd::string::*;

use super::entity::{GroupMember, SubjectGroup, SubjectGroupRepositoryError, MAX_GROUP_DEPTH};
use super::membership;
use super::membership::{
    depth_with_member, groups_for_user, transitive_users, would_close_circle, MembershipRow,
};
use super::reach;
use crate::identifier;
use crate::identifier::Uuid;
use crate::numbers;
use crate::numbers::to_unsigned_64;
use crate::text;
use crate::text::{decimal_text, same_text};

verus! {

/// What the database itself reported.
#[derive(Debug)]
pub struct DatabaseFault {
    /// The SQLSTATE code, where the database gave one.
    pub code: Option<String>,
    /// The database's own message.
    pub text: String,
}

/// A failed exchange with the database.
#[derive(Debug)]
pub struct StorageFailure {
    /// The fault that the database reported; nothing where the exchange
    /// failed otherwise.
    pub database: Option<DatabaseFault>,
    /// The whole message.
    pub text: String,
}

impl StorageFailure {
    /// The database reported a fault with that code.
    pub open spec fn has_code(self, code: Seq<char>) -> bool {
        self.database is Some && self.database->0.code is Some && self.database->0.code->0@ == code
    }
}

/// `error` is what `failure`, met while doing `context`, is reported as: a
/// violated uniqueness rule is a name that exists, a violated check is an
/// invalid name, and anything else is a storage error.
pub open spec fn translates(
    context: Seq<char>,
    failure: StorageFailure,
    error: SubjectGroupRepositoryError,
) -> bool {
    if failure.has_code("23505"@) {
        error matches SubjectGroupRepositoryError::NameAlreadyExists(m) && m@
            == failure.database->0.text@
    } else if failure.has_code("23514"@) {
        error matches SubjectGroupRepositoryError::InvalidName(m) && m@
            == failure.database->0.text@
    } else {
        error matches SubjectGroupRepositoryError::StorageError(m) && m@ == context + ": "@
            + failure.text@
    }
}

/// Reports a failed exchange with the database.
pub fn map_sqlx_err(context: &str, failure: StorageFailure) -> (error: SubjectGroupRepositoryError)
    ensures
        translates(context@, failure, error),
{
    proof {
        reveal_strlit("23505");
        reveal_strlit("23514");
        assert("23505"@[3] != "23514"@[3]);
    }
    if let Some(fault) = failure.database {
        if let Some(code) = fault.code {
            if same_text(code.as_str(), "23505") {
                return SubjectGroupRepositoryError::NameAlreadyExists(fault.text);
            }
            if same_text(code.as_str(), "23514") {
                return SubjectGroupRepositoryError::InvalidName(fault.text);
            }
        }
    }
    SubjectGroupRepositoryError::StorageError(
        context.to_owned().concat(": ").concat(failure.text.as_str()),
    )
}

/// `outcome` passes a good reply on and reports a failure under `context`.
pub open spec fn passes_on<T>(
    context: Seq<char>,
    reply: Result<T, StorageFailure>,
    outcome: Result<T, SubjectGroupRepositoryError>,
) -> bool {
    match reply {
        Ok(value) => outcome == Ok::<T, SubjectGroupRepositoryError>(value),
        Err(failure) => outcome is Err && translates(context, failure, outcome->Err_0),
    }
}

/// Passes a good reply on and reports a failure under `context`.
pub fn pass_on<T>(context: &str, reply: Result<T, StorageFailure>) -> (outcome: Result<
    T,
    SubjectGroupRepositoryError,
>)
    ensures
        passes_on(context@, reply, outcome),
{
    match reply {
        Ok(value) => Ok(value),
        Err(failure) => Err(map_sqlx_err(context, failure)),
    }
}

// ── Reading groups ──────────────────────────────────────────────────────────

pub const LIST_PAGE_BY_NAME: &'static str = "SELECT id, name, description, is_virtual, created_at, updated_at FROM auth.subject_groups WHERE name ILIKE $1 ORDER BY is_virtual DESC, name LIMIT $2 OFFSET $3";

pub const LIST_PAGE: &'static str = "SELECT id, name, description, is_virtual, created_at, updated_at FROM auth.subject_groups ORDER BY is_virtual DESC, name LIMIT $1 OFFSET $2";

pub const COUNTED_PAGE_BY_NAME: &'static str = "SELECT g.id, g.name, g.description, g.is_virtual, g.created_at, g.updated_at, COUNT(m.group_id) AS member_count FROM auth.subject_groups g LEFT JOIN auth.subject_group_members m ON m.group_id = g.id WHERE g.name ILIKE $1 GROUP BY g.id ORDER BY g.is_virtual DESC, g.name LIMIT $2 OFFSET $3";

pub const COUNTED_PAGE: &'static str = "SELECT g.id, g.name, g.description, g.is_virtual, g.created_at, g.updated_at, COUNT(m.group_id) AS member_count FROM auth.subject_groups g LEFT JOIN auth.subject_group_members m ON m.group_id = g.id GROUP BY g.id ORDER BY g.is_virtual DESC, g.name LIMIT $1 OFFSET $2";

pub const TOTAL_BY_NAME: &'static str = "SELECT COUNT(*) FROM auth.subject_groups WHERE name ILIKE $1";

pub const TOTAL: &'static str = "SELECT COUNT(*) FROM auth.subject_groups";

/// The two statements that list a page of groups and count all of them, with
/// the values to bind: the name pattern first, where there is one, then for
/// the page the limit and the offset.
pub struct ListQuery {
    pub page: &'static str,
    pub total: &'static str,
    pub pattern: Option<String>,
    pub limit: i64,
    pub offset: i64,
}

/// List a page of groups.
pub struct ListGroups {
    pub query: ListQuery,
}

/// Count all groups; the page was read.
pub struct CountGroups {
    pub query: ListQuery,
    pub groups: Vec<SubjectGroup>,
}

/// List a page of groups with the number of their direct members.
pub struct ListCountedGroups {
    pub query: ListQuery,
}

/// Count all groups; the page with the numbers of direct members was read.
pub struct CountCountedGroups {
    pub query: ListQuery,
    pub groups: Vec<(SubjectGroup, i64)>,
}

impl ListGroups {
    /// This lists that page of the groups, of those whose name matches the
    /// pattern where there is one.
    pub open spec fn asks(self, limit: u32, offset: u32, pattern: Option<String>) -> bool {
        &&& self.query.page@ == (if pattern is Some { LIST_PAGE_BY_NAME@ } else { LIST_PAGE@ })
        &&& self.query.total@ == (if pattern is Some { TOTAL_BY_NAME@ } else { TOTAL@ })
        &&& self.query.pattern == pattern
        &&& self.query.limit == limit
        &&& self.query.offset == offset
    }

    /// `outcome` follows from the reply to this request.
    pub open spec fn leads_to(
        self,
        reply: Result<Vec<SubjectGroup>, StorageFailure>,
        outcome: Result<CountGroups, SubjectGroupRepositoryError>,
    ) -> bool {
        match reply {
            Ok(groups) => outcome == Ok::<_, SubjectGroupRepositoryError>(
                CountGroups { query: self.query, groups },
            ),
            Err(failure) => outcome is Err && translates("list page"@, failure, outcome->Err_0),
        }
    }

    /// The page was read, or not.
    pub fn fetched(self, reply: Result<Vec<SubjectGroup>, StorageFailure>) -> (outcome: Result<
        CountGroups,
        SubjectGroupRepositoryError,
    >)
        ensures
            self.leads_to(reply, outcome),
    {
        match reply {
            Ok(groups) => Ok(CountGroups { query: self.query, groups }),
            Err(failure) => Err(map_sqlx_err("list page", failure)),
        }
    }
}

impl CountGroups {
    /// `outcome` follows from the reply to this request.
    pub open spec fn leads_to(
        self,
        reply: Result<i64, StorageFailure>,
        outcome: Result<(Vec<SubjectGroup>, u64), SubjectGroupRepositoryError>,
    ) -> bool {
        match reply {
            Ok(n) => outcome matches Ok((groups, total)) && groups == self.groups && total
                == numbers::unsigned_64(n),
            Err(failure) => outcome is Err && translates("list count"@, failure, outcome->Err_0),
        }
    }

    /// The groups were counted, or not.
    pub fn counted(self, reply: Result<i64, StorageFailure>) -> (outcome: Result<
        (Vec<SubjectGroup>, u64),
        SubjectGroupRepositoryError,
    >)
        ensures
            self.leads_to(reply, outcome),
    {
        match reply {
            Ok(n) => Ok((self.groups, to_unsigned_64(n))),
            Err(failure) => Err(map_sqlx_err("list count", failure)),
        }
    }
}

impl ListCountedGroups {
    /// `outcome` follows from the reply to this request.
    pub open spec fn leads_to(
        self,
        reply: Result<Vec<(SubjectGroup, i64)>, StorageFailure>,
        outcome: Result<CountCountedGroups, SubjectGroupRepositoryError>,
    ) -> bool {
        match reply {
            Ok(groups) => outcome == Ok::<_, SubjectGroupRepositoryError>(
                CountCountedGroups { query: self.query, groups },
            ),
            Err(failure) => outcome is Err && translates("list_with_counts page"@, failure, outcome->Err_0),
        }
    }

    /// The page was read, or not.
    pub fn fetched(self, reply: Result<Vec<(SubjectGroup, i64)>, StorageFailure>) -> (outcome: Result<
        CountCountedGroups,
        SubjectGroupRepositoryError,
    >)
        ensures
            self.leads_to(reply, outcome),
    {
        match reply {
            Ok(groups) => Ok(CountCountedGroups { query: self.query, groups }),
            Err(failure) => Err(map_sqlx_err("list_with_counts page", failure)),
        }
    }
}

impl CountCountedGroups {
    /// `outcome` follows from the reply to this request.
    pub open spec fn leads_to(
        self,
        reply: Result<i64, StorageFailure>,
        outcome: Result<(Vec<(SubjectGroup, i64)>, u64), SubjectGroupRepositoryError>,
    ) -> bool {
        match reply {
            Ok(n) => outcome matches Ok((groups, total)) && groups == self.groups && total
                == numbers::unsigned_64(n),
            Err(failure) => outcome is Err && translates("list_with_counts total"@, failure, outcome->Err_0),
        }
    }

    /// The groups were counted, or not.
    pub fn counted(self, reply: Result<i64, StorageFailure>) -> (outcome: Result<
        (Vec<(SubjectGroup, i64)>, u64),
        SubjectGroupRepositoryError,
    >)
        ensures
            self.leads_to(reply, outcome),
    {
        match reply {
            Ok(n) => Ok((self.groups, to_unsigned_64(n))),
            Err(failure) => Err(map_sqlx_err("list_with_counts total", failure)),
        }
    }
}

/// A row of the membership table as stored: one of the two columns is set.
#[derive(Clone, Copy, PartialEq, Eq, Structural, Debug)]
pub struct MemberColumns {
    pub user_id: Option<Uuid>,
    pub group_id: Option<Uuid>,
}

/// The members that the rows name, in their order. A row that sets both
/// columns or neither names no member.
pub open spec fn members_named(rows: Seq<MemberColumns>) -> Seq<GroupMember>
    decreases rows.len(),
{
    if rows.len() == 0 {
        Seq::empty()
    } else {
        let before = members_named(rows.drop_last());
        match (rows.last().user_id, rows.last().group_id) {
            (Some(user), None) => before.push(GroupMember::User(user)),
            (None, Some(group)) => before.push(GroupMember::Group(group)),
            _ => before,
        }
    }
}

/// Lists the members that the rows name.
fn named_members(rows: &Vec<MemberColumns>) -> (members: Vec<GroupMember>)
    ensures
        members@ == members_named(rows@),
{
    let mut members: Vec<GroupMember> = Vec::new();
    let mut i: usize = 0;
    while i < rows.len()
        invariant
            i <= rows@.len(),
            members@ == members_named(rows@.take(i as int)),
        decreases rows@.len() - i,
    {
        proof {
            assert(rows@.take(i + 1).drop_last() =~= rows@.take(i as int));
        }
        match (rows[i].user_id, rows[i].group_id) {
            (Some(user), None) => {
                members.push(GroupMember::User(user));
            },
            (None, Some(group)) => {
                members.push(GroupMember::Group(group));
            },
            _ => {},
        }
        i += 1;
    }
    proof {
        assert(rows@.take(i as int) =~= rows@);
    }
    members
}

/// A row of the membership table with the group that it belongs to.
#[derive(Clone, Copy, PartialEq, Eq, Structural, Debug)]
pub struct TableRow {
    pub group_id: Uuid,
    pub member: MemberColumns,
}

/// The memberships that one row stands for: one for each column that is set.
pub open spec fn memberships_of(row: TableRow) -> Seq<MembershipRow> {
    let users = match row.member.user_id {
        Some(user) => seq![
            MembershipRow { group_id: row.group_id, member: GroupMember::User(user) },
        ],
        None => seq![],
    };
    let groups = match row.member.group_id {
        Some(group) => seq![
            MembershipRow { group_id: row.group_id, member: GroupMember::Group(group) },
        ],
        None => seq![],
    };
    users + groups
}

/// The memberships that the rows stand for, in their order.
pub open spec fn memberships_in(rows: Seq<TableRow>) -> Seq<MembershipRow>
    decreases rows.len(),
{
    if rows.len() == 0 {
        Seq::empty()
    } else {
        memberships_in(rows.drop_last()) + memberships_of(rows.last())
    }
}

/// Reads the membership table.
pub fn read_table(rows: &Vec<TableRow>) -> (table: Vec<MembershipRow>)
    ensures
        table@ == memberships_in(rows@),
{
    let mut table: Vec<MembershipRow> = Vec::new();
    let mut i: usize = 0;
    while i < rows.len()
        invariant
            i <= rows@.len(),
            table@ == memberships_in(rows@.take(i as int)),
        decreases rows@.len() - i,
    {
        let row = rows[i];
        let ghost before = table@;
        if let Some(user) = row.member.user_id {
            table.push(MembershipRow { group_id: row.group_id, member: GroupMember::User(user) });
        }
        if let Some(group) = row.member.group_id {
            table.push(MembershipRow { group_id: row.group_id, member: GroupMember::Group(group) });
        }
        proof {
            assert(rows@.take(i + 1).drop_last() =~= rows@.take(i as int));
            assert(rows@.take(i + 1).last() == row);
            assert(table@ =~= before + memberships_of(row));
        }
        i += 1;
    }
    proof {
        assert(rows@.take(i as int) =~= rows@);
    }
    table
}

// ── The repository ──────────────────────────────────────────────────────────

/// `error` is the report that no group has that id.
pub open spec fn is_unknown_group(error: SubjectGroupRepositoryError, id: Uuid) -> bool {
    error matches SubjectGroupRepositoryError::NotFound(m) && m@ == identifier::hyphenated(id.value)
}

/// `outcome` is what it means that removing a member affected that many rows.
pub open spec fn is_removal(
    reply: Result<u64, StorageFailure>,
    outcome: Result<(), SubjectGroupRepositoryError>,
) -> bool {
    match reply {
        Err(failure) => outcome is Err && translates("remove_member"@, failure, outcome->Err_0),
        Ok(rows_affected) => outcome == (if rows_affected == 0 {
            Err::<(), _>(SubjectGroupRepositoryError::MemberNotPresent)
        } else {
            Ok(())
        }),
    }
}

/// The groups and their members in the database. Its methods take the replies
/// to the statements that they are about.
#[derive(Clone, Copy, Debug)]
pub struct SubjectGroupPgRepository {}

impl SubjectGroupPgRepository {
    pub fn new() -> SubjectGroupPgRepository {
        SubjectGroupPgRepository {  }
    }

    /// The group as it was stored.
    pub fn create(&self, reply: Result<SubjectGroup, StorageFailure>) -> (outcome: Result<
        SubjectGroup,
        SubjectGroupRepositoryError,
    >)
        ensures
            passes_on("create subject_group"@, reply, outcome),
    {
        pass_on("create subject_group", reply)
    }

    /// The group with an id, where there is one.
    pub fn get_by_id(&self, reply: Result<Option<SubjectGroup>, StorageFailure>) -> (outcome:
        Result<Option<SubjectGroup>, SubjectGroupRepositoryError>)
        ensures
            passes_on("get_by_id"@, reply, outcome),
    {
        pass_on("get_by_id", reply)
    }

    /// The group with a name, where there is one.
    pub fn get_by_name(&self, reply: Result<Option<SubjectGroup>, StorageFailure>) -> (outcome:
        Result<Option<SubjectGroup>, SubjectGroupRepositoryError>)
        ensures
            passes_on("get_by_name"@, reply, outcome),
    {
        pass_on("get_by_name", reply)
    }

    /// Plans the listing of groups, of those whose name matches `pattern`
    /// where there is one.
    pub fn list(&self, limit: u32, offset: u32, pattern: Option<String>) -> (request: ListGroups)
        ensures
            request.asks(limit, offset, pattern),
    {
        let by_name = pattern.is_some();
        ListGroups {
            query: ListQuery {
                page: if by_name { LIST_PAGE_BY_NAME } else { LIST_PAGE },
                total: if by_name { TOTAL_BY_NAME } else { TOTAL },
                pattern,
                limit: limit as i64,
                offset: offset as i64,
            },
        }
    }

    /// Plans the listing of groups together with the number of their direct
    /// members.
    pub fn list_with_counts(&self, limit: u32, offset: u32, pattern: Option<String>) -> (request:
        ListCountedGroups)
        ensures
            request.query.page@ == (if pattern is Some {
                COUNTED_PAGE_BY_NAME@
            } else {
                COUNTED_PAGE@
            }),
            request.query.total@ == (if pattern is Some { TOTAL_BY_NAME@ } else { TOTAL@ }),
            request.query.pattern == pattern,
            request.query.limit == limit,
            request.query.offset == offset,
    {
        let by_name = pattern.is_some();
        ListCountedGroups {
            query: ListQuery {
                page: if by_name { COUNTED_PAGE_BY_NAME } else { COUNTED_PAGE },
                total: if by_name { TOTAL_BY_NAME } else { TOTAL },
                pattern,
                limit: limit as i64,
                offset: offset as i64,
            },
        }
    }

    /// The number of direct members of a group.
    pub fn count_members(&self, reply: Result<i64, StorageFailure>) -> (outcome: Result<
        i64,
        SubjectGroupRepositoryError,
    >)
        ensures
            passes_on("count_members"@, reply, outcome),
    {
        pass_on("count_members", reply)
    }

    /// The group as it stands after it was renamed; the reply holds no row
    /// where no group has that id.
    pub fn rename(&self, id: Uuid, reply: Result<Option<SubjectGroup>, StorageFailure>) -> (outcome:
        Result<SubjectGroup, SubjectGroupRepositoryError>)
        ensures
            match reply {
                Err(failure) => outcome is Err && translates("rename"@, failure, outcome->Err_0),
                Ok(Some(group)) => outcome == Ok::<_, SubjectGroupRepositoryError>(group),
                Ok(None) => outcome is Err && is_unknown_group(outcome->Err_0, id),
            },
    {
        match reply {
            Err(failure) => Err(map_sqlx_err("rename", failure)),
            Ok(Some(group)) => Ok(group),
            Ok(None) => Err(SubjectGroupRepositoryError::NotFound(id.to_text())),
        }
    }

    /// What it means that deleting a group affected that many rows.
    pub fn delete(&self, id: Uuid, reply: Result<u64, StorageFailure>) -> (outcome: Result<
        (),
        SubjectGroupRepositoryError,
    >)
        ensures
            match reply {
                Err(failure) => outcome is Err && translates("delete"@, failure, outcome->Err_0),
                Ok(rows_affected) => if rows_affected == 0 {
                    outcome is Err && is_unknown_group(outcome->Err_0, id)
                } else {
                    outcome is Ok
                },
            },
    {
        match reply {
            Err(failure) => Err(map_sqlx_err("delete", failure)),
            Ok(rows_affected) => {
                if rows_affected == 0 {
                    Err(SubjectGroupRepositoryError::NotFound(id.to_text()))
                } else {
                    Ok(())
                }
            },
        }
    }

    /// Makes `member` a direct member of `group_id`.
    pub fn add_member(&self, group_id: Uuid, member: GroupMember, added_by: Uuid) -> (change:
        AddMember)
        ensures
            change == (AddMember { group_id, member, added_by }),
    {
        AddMember { group_id, member, added_by }
    }

    /// What it means that removing a member affected that many rows.
    pub fn remove_member(&self, reply: Result<u64, StorageFailure>) -> (outcome: Result<
        (),
        SubjectGroupRepositoryError,
    >)
        ensures
            is_removal(reply, outcome),
    {
        match reply {
            Err(failure) => Err(map_sqlx_err("remove_member", failure)),
            Ok(rows_affected) => {
                if rows_affected == 0 {
                    Err(SubjectGroupRepositoryError::MemberNotPresent)
                } else {
                    Ok(())
                }
            },
        }
    }

    /// The direct members of a group.
    pub fn list_direct_members(&self, reply: Result<Vec<MemberColumns>, StorageFailure>) -> (outcome:
        Result<Vec<GroupMember>, SubjectGroupRepositoryError>)
        ensures
            match reply {
                Err(failure) => outcome is Err && translates(
                    "list_direct_members"@,
                    failure,
                    outcome->Err_0,
                ),
                Ok(rows) => outcome is Ok && outcome->Ok_0@ == members_named(rows@),
            },
    {
        match reply {
            Err(failure) => Err(map_sqlx_err("list_direct_members", failure)),
            Ok(rows) => Ok(named_members(&rows)),
        }
    }

    /// Every user who belongs to a group, directly or through nested groups,
    /// each once; the reply is the membership table.
    pub fn list_transitive_users(
        &self,
        group_id: Uuid,
        reply: Result<Vec<MembershipRow>, StorageFailure>,
    ) -> (outcome: Result<Vec<Uuid>, SubjectGroupRepositoryError>)
        ensures
            match reply {
                Err(failure) => outcome is Err && translates(
                    "list_transitive_users"@,
                    failure,
                    outcome->Err_0,
                ),
                Ok(rows) => outcome is Ok && membership::are_transitive_users(
                    rows@,
                    group_id,
                    outcome->Ok_0@,
                ),
            },
    {
        match reply {
            Err(failure) => Err(map_sqlx_err("list_transitive_users", failure)),
            Ok(rows) => Ok(transitive_users(&rows, group_id)),
        }
    }

    /// Every group that a user belongs to, directly or through nested groups,
    /// each once; the reply is the membership table.
    pub fn groups_for_user(
        &self,
        user_id: Uuid,
        reply: Result<Vec<MembershipRow>, StorageFailure>,
    ) -> (outcome: Result<Vec<Uuid>, SubjectGroupRepositoryError>)
        ensures
            match reply {
                Err(failure) => outcome is Err && translates(
                    "groups_for_user"@,
                    failure,
                    outcome->Err_0,
                ),
                Ok(rows) => outcome is Ok && membership::are_groups_of(
                    rows@,
                    user_id,
                    outcome->Ok_0@,
                ),
            },
    {
        match reply {
            Err(failure) => Err(map_sqlx_err("groups_for_user", failure)),
            Ok(rows) => Ok(groups_for_user(&rows, user_id)),
        }
    }
}

// ── What listings show ──────────────────────────────────────────────────────

/// What the database holds for a listing: the groups that the name pattern
/// admits, in the order of the listing, and the rows of the membership table.
pub struct Catalogue {
    pub groups: Seq<SubjectGroup>,
    pub rows: Seq<TableRow>,
}

/// The member columns of those rows that belong to a group, in their order.
pub open spec fn rows_of(rows: Seq<TableRow>, group: Uuid) -> Seq<MemberColumns>
    decreases rows.len(),
{
    if rows.len() == 0 {
        Seq::empty()
    } else if rows.last().group_id == group {
        rows_of(rows.drop_last(), group).push(rows.last().member)
    } else {
        rows_of(rows.drop_last(), group)
    }
}

impl Catalogue {
    /// At most `limit` groups, from the one at `offset` on.
    pub open spec fn page(self, limit: int, offset: int) -> Seq<SubjectGroup>
        recommends
            0 <= limit,
            0 <= offset,
    {
        let n = self.groups.len() as int;
        let from = if offset < n { offset } else { n };
        let to = if offset + limit < n { offset + limit } else { n };
        self.groups.subrange(from, to)
    }

    /// The number of direct members of a group.
    pub open spec fn member_count(self, group: Uuid) -> nat {
        rows_of(self.rows, group).len()
    }

    /// The replies tell what the database holds: the page that was asked for
    /// and the number of all groups.
    pub open spec fn answers(
        self,
        query: ListQuery,
        page: Result<Vec<SubjectGroup>, StorageFailure>,
        total: Result<i64, StorageFailure>,
    ) -> bool {
        &&& page matches Ok(groups) ==> groups@ == self.page(
            query.limit as int,
            query.offset as int,
        )
        &&& total matches Ok(n) ==> n == self.groups.len()
    }

    /// The same for a page that tells the number of direct members too.
    pub open spec fn answers_counted(
        self,
        query: ListQuery,
        page: Result<Vec<(SubjectGroup, i64)>, StorageFailure>,
        total: Result<i64, StorageFailure>,
    ) -> bool {
        &&& page matches Ok(groups) ==> {
            &&& groups@.map_values(|entry: (SubjectGroup, i64)| entry.0) == self.page(
                query.limit as int,
                query.offset as int,
            )
            &&& forall|i: int|
                0 <= i < groups@.len() ==> (#[trigger] groups@[i]).1 == self.member_count(
                    groups@[i].0.id,
                )
        }
        &&& total matches Ok(n) ==> n == self.groups.len()
    }
}

/// Virtual groups come first, and those of one kind are in the order of their
/// names. `precedes` is the order in which the database puts names.
pub open spec fn is_in_order(
    groups: Seq<SubjectGroup>,
    precedes: spec_fn(Seq<char>, Seq<char>) -> bool,
) -> bool {
    forall|i: int, j: int|
        0 <= i < j < groups.len() ==> {
            &&& (#[trigger] groups[i]).is_virtual || !(#[trigger] groups[j]).is_virtual
            &&& groups[i].is_virtual == groups[j].is_virtual ==> precedes(
                groups[i].name@,
                groups[j].name@,
            )
        }
}

/// No group is listed twice.
pub open spec fn lists_each_once(groups: Seq<SubjectGroup>) -> bool {
    forall|i: int, j: int|
        0 <= i < j < groups.len() ==> (#[trigger] groups[i]).id != (#[trigger] groups[j]).id
}

/// How the database selects groups: those that are stored, which names match a
/// pattern, and the order of names.
pub struct Selection {
    pub stored: Set<SubjectGroup>,
    pub matches: spec_fn(Seq<char>, Seq<char>) -> bool,
    pub precedes: spec_fn(Seq<char>, Seq<char>) -> bool,
}

impl Selection {
    /// The group is stored, and its name matches the pattern where there is
    /// one.
    pub open spec fn admits(self, pattern: Option<String>, group: SubjectGroup) -> bool {
        self.stored.contains(group) && (pattern matches Some(p) ==> (self.matches)(
            p@,
            group.name@,
        ))
    }

    /// These are the groups that the statements for a listing select, in their
    /// order.
    pub open spec fn selects(self, pattern: Option<String>, groups: Seq<SubjectGroup>) -> bool {
        &&& is_in_order(groups, self.precedes)
        &&& lists_each_once(groups)
        &&& forall|group: SubjectGroup| #[trigger]
            groups.contains(group) <==> self.admits(pattern, group)
    }
}

/// Every page of a listing is in order, virtual groups first, holds no group
/// twice and only groups that are stored and match. A page from the start whose
/// limit is not below the total holds all of these; without a pattern these are
/// all groups that are stored.
pub proof fn law_listing_is_in_order_and_complete(
    selection: Selection,
    catalogue: Catalogue,
    limit: u32,
    offset: u32,
    pattern: Option<String>,
    request: ListGroups,
    page: Result<Vec<SubjectGroup>, StorageFailure>,
    next: Result<CountGroups, SubjectGroupRepositoryError>,
    total: Result<i64, StorageFailure>,
    outcome: Result<(Vec<SubjectGroup>, u64), SubjectGroupRepositoryError>,
)
    requires
        selection.selects(pattern, catalogue.groups),
        request.asks(limit, offset, pattern),
        catalogue.answers(request.query, page, total),
        request.leads_to(page, next),
        next matches Ok(count) ==> count.leads_to(total, outcome),
        page is Ok,
        total is Ok,
    ensures
        outcome matches Ok((groups, all)) && {
            &&& groups@ == catalogue.page(limit as int, offset as int)
            &&& all == catalogue.groups.len()
            &&& is_in_order(groups@, selection.precedes)
            &&& lists_each_once(groups@)
            &&& forall|group: SubjectGroup| #[trigger]
                groups@.contains(group) ==> selection.admits(pattern, group)
            &&& offset == 0 && limit >= all ==> forall|group: SubjectGroup|
                selection.admits(pattern, group) ==> #[trigger] groups@.contains(group)
            &&& offset == 0 && limit >= all && pattern is None ==> forall|group: SubjectGroup|
                selection.stored.contains(group) ==> #[trigger] groups@.contains(group)
        },
{
    let groups = outcome->Ok_0.0@;
    let from = if offset < catalogue.groups.len() {
        offset as int
    } else {
        catalogue.groups.len() as int
    };
    assert forall|i: int| 0 <= i < groups.len() implies #[trigger] groups[i]
        == catalogue.groups[from + i] by {}
    assert forall|i: int, j: int| 0 <= i < j < groups.len() implies {
        &&& (#[trigger] groups[i]).is_virtual || !(#[trigger] groups[j]).is_virtual
        &&& groups[i].is_virtual == groups[j].is_virtual ==> (selection.precedes)(
            groups[i].name@,
            groups[j].name@,
        )
        &&& groups[i].id != groups[j].id
    } by {
        assert(groups[i] == catalogue.groups[from + i]);
        assert(groups[j] == catalogue.groups[from + j]);
    }
    assert forall|group: SubjectGroup| #[trigger] groups.contains(group) implies selection.admits(
        pattern,
        group,
    ) by {
        let i = choose|i: int| 0 <= i < groups.len() && groups[i] == group;
        assert(catalogue.groups[from + i] == group);
        assert(catalogue.groups.contains(group));
    }
    if offset == 0 && limit >= catalogue.groups.len() {
        assert(groups =~= catalogue.groups);
    }
}

/// A listing that meets no failure shows the page that was asked for, which
/// has no more groups than the limit, and the number of all groups, on every
/// page the same.
pub proof fn law_listing_shows_page_and_total(
    catalogue: Catalogue,
    request: ListGroups,
    page: Result<Vec<SubjectGroup>, StorageFailure>,
    next: Result<CountGroups, SubjectGroupRepositoryError>,
    total: Result<i64, StorageFailure>,
    outcome: Result<(Vec<SubjectGroup>, u64), SubjectGroupRepositoryError>,
)
    requires
        request.query.limit >= 0,
        request.query.offset >= 0,
        catalogue.answers(request.query, page, total),
        request.leads_to(page, next),
        next matches Ok(count) ==> count.leads_to(total, outcome),
    ensures
        page is Ok && total is Ok ==> {
            &&& next is Ok
            &&& outcome matches Ok((groups, all))
            &&& groups@ == catalogue.page(request.query.limit as int, request.query.offset as int)
            &&& groups@.len() <= request.query.limit
            &&& all == catalogue.groups.len()
        },
{
}

/// Two pages, of which the second starts where the first ends, show together
/// what one page of both limits shows; and a page from the start that is long
/// enough shows all groups. So walking through the pages shows each group
/// once.
pub proof fn law_pages_join(catalogue: Catalogue, first: int, second: int, offset: int)
    requires
        0 <= first,
        0 <= second,
        0 <= offset,
    ensures
        catalogue.page(first, offset) + catalogue.page(second, offset + first) == catalogue.page(
            first + second,
            offset,
        ),
        first >= catalogue.groups.len() ==> catalogue.page(first, 0) == catalogue.groups,
{
    assert(catalogue.page(first, offset) + catalogue.page(second, offset + first)
        =~= catalogue.page(first + second, offset));
    if first >= catalogue.groups.len() {
        assert(catalogue.page(first, 0) =~= catalogue.groups);
    }
}

/// Listing with counts shows the same groups and the same total as listing
/// without, each group with the number of its direct members.
pub proof fn law_counted_listing_agrees(
    catalogue: Catalogue,
    plain: ListGroups,
    page: Result<Vec<SubjectGroup>, StorageFailure>,
    next: Result<CountGroups, SubjectGroupRepositoryError>,
    total: Result<i64, StorageFailure>,
    listed: Result<(Vec<SubjectGroup>, u64), SubjectGroupRepositoryError>,
    counting: ListCountedGroups,
    counted_page: Result<Vec<(SubjectGroup, i64)>, StorageFailure>,
    counted_next: Result<CountCountedGroups, SubjectGroupRepositoryError>,
    counted_total: Result<i64, StorageFailure>,
    counted: Result<(Vec<(SubjectGroup, i64)>, u64), SubjectGroupRepositoryError>,
)
    requires
        plain.query.limit == counting.query.limit >= 0,
        plain.query.offset == counting.query.offset >= 0,
        catalogue.answers(plain.query, page, total),
        plain.leads_to(page, next),
        next matches Ok(count) ==> count.leads_to(total, listed),
        catalogue.answers_counted(counting.query, counted_page, counted_total),
        counting.leads_to(counted_page, counted_next),
        counted_next matches Ok(count) ==> count.leads_to(counted_total, counted),
    ensures
        page is Ok && total is Ok && counted_page is Ok && counted_total is Ok ==> {
            &&& listed matches Ok((groups, all))
            &&& counted matches Ok((entries, counted_all))
            &&& entries@.map_values(|entry: (SubjectGroup, i64)| entry.0) == groups@
            &&& counted_all == all
            &&& forall|i: int|
                0 <= i < entries@.len() ==> (#[trigger] entries@[i]).1 == catalogue.member_count(
                    entries@[i].0.id,
                )
        },
{
}

/// Where each row of the membership table names one member, the number of
/// direct members of a group is the length of the list of its direct members.
pub proof fn law_count_is_length_of_member_list(catalogue: Catalogue, group: Uuid)
    requires
        forall|i: int|
            0 <= i < catalogue.rows.len() ==> ((
            #[trigger] catalogue.rows[i]).member.user_id is Some
                <==> catalogue.rows[i].member.group_id is None),
    ensures
        members_named(rows_of(catalogue.rows, group)).len() == catalogue.member_count(group),
    decreases catalogue.rows.len(),
{
    if catalogue.rows.len() > 0 {
        let shorter = Catalogue { groups: catalogue.groups, rows: catalogue.rows.drop_last() };
        law_count_is_length_of_member_list(shorter, group);
        let rows = rows_of(catalogue.rows, group);
        if catalogue.rows.last().group_id == group {
            assert(rows.drop_last() =~= rows_of(shorter.rows, group));
            assert(rows.last() == catalogue.rows.last().member);
            assert(catalogue.rows[catalogue.rows.len() - 1] == catalogue.rows.last());
        }
    }
}

// ── Adding members ──────────────────────────────────────────────────────────

/// The wish to make `member` a direct member of `group_id`.
///
/// The change runs inside one transaction. Each of the types below stands
/// for one request to the database, in this order: open the transaction,
/// lock the parent group, for a nested group load the membership table,
/// insert the row, commit. The method of each takes the reply and gives the
/// next request; an error ends the change, and the transaction is dropped.
#[derive(Clone, Copy, PartialEq, Eq, Structural, Debug)]
pub struct AddMember {
    pub group_id: Uuid,
    pub member: GroupMember,
    pub added_by: Uuid,
}

/// Lock the row of the parent group, so that no other change can slip under
/// the checks.
#[derive(Clone, Copy, PartialEq, Eq, Structural, Debug)]
pub struct LockParent {
    pub change: AddMember,
}

/// Load the membership table and check that the group `child` may be nested.
#[derive(Clone, Copy, PartialEq, Eq, Structural, Debug)]
pub struct CheckNesting {
    pub group_id: Uuid,
    pub child: Uuid,
    pub added_by: Uuid,
}

/// Insert the membership row, unless it is there already.
#[derive(Clone, Copy, PartialEq, Eq, Structural, Debug)]
pub struct InsertMember {
    pub change: AddMember,
}

/// Commit the transaction.
#[derive(Clone, Copy, PartialEq, Eq, Structural, Debug)]
pub struct CommitMember {
    pub change: AddMember,
}

/// What has to be done once the parent group is locked.
#[derive(Clone, Copy, PartialEq, Eq, Structural, Debug)]
pub enum AfterLock {
    Insert(InsertMember),
    Check(CheckNesting),
}

impl AddMember {
    /// `outcome` follows from the reply to this request.
    pub open spec fn leads_to(
        self,
        reply: Result<(), StorageFailure>,
        outcome: Result<LockParent, SubjectGroupRepositoryError>,
    ) -> bool {
        match reply {
            Ok(()) => outcome == Ok::<_, SubjectGroupRepositoryError>(LockParent { change: self }),
            Err(failure) => outcome is Err && translates(
                "add_member: begin tx"@,
                failure,
                outcome->Err_0,
            ),
        }
    }

    /// The transaction was opened, or not.
    pub fn opened(self, reply: Result<(), StorageFailure>) -> (outcome: Result<
        LockParent,
        SubjectGroupRepositoryError,
    >)
        ensures
            self.leads_to(reply, outcome),
    {
        match reply {
            Ok(()) => Ok(LockParent { change: self }),
            Err(failure) => Err(map_sqlx_err("add_member: begin tx", failure)),
        }
    }
}

impl LockParent {
    /// `outcome` follows from the reply to this request.
    pub open spec fn leads_to(
        self,
        reply: Result<bool, StorageFailure>,
        outcome: Result<AfterLock, SubjectGroupRepositoryError>,
    ) -> bool {
        match reply {
            Err(failure) => outcome is Err && translates(
                "add_member: lock parent"@,
                failure,
                outcome->Err_0,
            ),
            Ok(false) => outcome is Err && is_unknown_group(outcome->Err_0, self.change.group_id),
            Ok(true) => match self.change.member {
                GroupMember::User(_) => outcome == Ok::<_, SubjectGroupRepositoryError>(
                    AfterLock::Insert(InsertMember { change: self.change }),
                ),
                GroupMember::Group(child) => if child == self.change.group_id {
                    outcome matches Err(SubjectGroupRepositoryError::Cycle(m)) && m@
                        == "group cannot contain itself"@
                } else {
                    outcome == Ok::<_, SubjectGroupRepositoryError>(
                        AfterLock::Check(
                            CheckNesting {
                                group_id: self.change.group_id,
                                child,
                                added_by: self.change.added_by,
                            },
                        ),
                    )
                },
            },
        }
    }

    /// The parent group was locked; `reply` tells whether it exists.
    pub fn locked(self, reply: Result<bool, StorageFailure>) -> (outcome: Result<
        AfterLock,
        SubjectGroupRepositoryError,
    >)
        ensures
            self.leads_to(reply, outcome),
    {
        match reply {
            Err(failure) => Err(map_sqlx_err("add_member: lock parent", failure)),
            Ok(found) => {
                if !found {
                    return Err(
                        SubjectGroupRepositoryError::NotFound(self.change.group_id.to_text()),
                    );
                }
                match self.change.member {
                    GroupMember::User(_) => Ok(
                        AfterLock::Insert(InsertMember { change: self.change }),
                    ),
                    GroupMember::Group(child) => {
                        if child == self.change.group_id {
                            Err(
                                SubjectGroupRepositoryError::Cycle(
                                    "group cannot contain itself".to_owned(),
                                ),
                            )
                        } else {
                            Ok(
                                AfterLock::Check(
                                    CheckNesting {
                                        group_id: self.change.group_id,
                                        child,
                                        added_by: self.change.added_by,
                                    },
                                ),
                            )
                        }
                    },
                }
            },
        }
    }
}

/// `error` is the refusal of a nesting that would be too deep. It names the
/// depth that a chain of nested groups would reach; that is the greatest depth
/// unless there is a circle around, where there is no greatest one.
pub open spec fn is_too_deep(
    error: SubjectGroupRepositoryError,
    rows: Seq<MembershipRow>,
    group: Uuid,
    child: Uuid,
) -> bool {
    exists|depth: nat|
        {
            &&& #[trigger] membership::reaches_depth(rows, group, child, depth)
            &&& depth > MAX_GROUP_DEPTH
            &&& membership::no_circle_around(rows, group, child) ==> membership::depth_with(
                rows,
                group,
                child,
                depth,
            )
            &&& error matches SubjectGroupRepositoryError::DepthExceeded(m)
            &&& m@ == "would reach depth "@ + text::decimal(depth) + " (max "@ + text::decimal(
                MAX_GROUP_DEPTH as nat,
            ) + ")"@
        }
}

impl CheckNesting {
    /// The change that is checked.
    pub open spec fn change(self) -> AddMember {
        AddMember {
            group_id: self.group_id,
            member: GroupMember::Group(self.child),
            added_by: self.added_by,
        }
    }

    /// `outcome` follows from the reply to this request: the nesting is refused
    /// as a circle exactly where it closes one, otherwise as too deep exactly
    /// where it is, and goes on in all other cases.
    pub open spec fn leads_to(
        self,
        reply: Result<Vec<MembershipRow>, StorageFailure>,
        outcome: Result<InsertMember, SubjectGroupRepositoryError>,
    ) -> bool {
        match reply {
            Err(failure) => outcome is Err && translates(
                "add_member: cycle check"@,
                failure,
                outcome->Err_0,
            ),
            Ok(rows) => if self.child == self.group_id || reach::reaches(
                membership::nesting(rows@),
                self.child,
                self.group_id,
            ) {
                outcome matches Err(SubjectGroupRepositoryError::Cycle(m)) && m@
                    == identifier::hyphenated(self.group_id.value) + " → "@
                    + identifier::hyphenated(self.child.value)
            } else if membership::may_nest(rows@, self.group_id, self.child) {
                outcome == Ok::<_, SubjectGroupRepositoryError>(
                    InsertMember { change: self.change() },
                )
            } else {
                outcome is Err && is_too_deep(outcome->Err_0, rows@, self.group_id, self.child)
            },
        }
    }

    /// The membership table was loaded: the group may be nested unless that
    /// closes a circle or nests too deeply.
    pub fn loaded(self, reply: Result<Vec<MembershipRow>, StorageFailure>) -> (outcome: Result<
        InsertMember,
        SubjectGroupRepositoryError,
    >)
        ensures
            self.leads_to(reply, outcome),
    {
        let group_id = self.group_id;
        match reply {
            Err(failure) => Err(map_sqlx_err("add_member: cycle check", failure)),
            Ok(rows) => {
                if self.child == group_id || would_close_circle(&rows, group_id, self.child) {
                    return Err(
                        SubjectGroupRepositoryError::Cycle(
                            group_id.to_text().concat(" → ").concat(self.child.to_text().as_str()),
                        ),
                    );
                }
                let depth = depth_with_member(&rows, group_id, self.child);
                if depth > MAX_GROUP_DEPTH as u128 {
                    proof {
                        let (up, down) = choose|up: Seq<Uuid>, down: Seq<Uuid>| #[trigger]
                            membership::chain_through(rows@, group_id, self.child, up, down) && (
                            up.len() - 1) + down.len() == depth;
                        assert(!membership::may_nest(rows@, group_id, self.child));
                        assert(membership::reaches_depth(
                            rows@,
                            group_id,
                            self.child,
                            depth as nat,
                        ));
                    }
                    return Err(
                        SubjectGroupRepositoryError::DepthExceeded(
                            "would reach depth ".to_owned().concat(
                                decimal_text(depth).as_str(),
                            ).concat(" (max ").concat(
                                decimal_text(MAX_GROUP_DEPTH as u128).as_str(),
                            ).concat(")"),
                        ),
                    );
                }
                Ok(
                    InsertMember {
                        change: AddMember {
                            group_id,
                            member: GroupMember::Group(self.child),
                            added_by: self.added_by,
                        },
                    },
                )
            },
        }
    }
}

impl InsertMember {
    /// `outcome` follows from the reply to this request.
    pub open spec fn leads_to(
        self,
        reply: Result<u64, StorageFailure>,
        outcome: Result<CommitMember, SubjectGroupRepositoryError>,
    ) -> bool {
        match reply {
            Err(failure) => outcome is Err && translates(
                if self.change.member is User {
                    "add_member: insert user"@
                } else {
                    "add_member: insert group"@
                },
                failure,
                outcome->Err_0,
            ),
            Ok(rows_affected) => outcome == (if rows_affected == 0 {
                Err::<CommitMember, _>(SubjectGroupRepositoryError::MemberAlreadyPresent)
            } else {
                Ok(CommitMember { change: self.change })
            }),
        }
    }

    /// The row was inserted; `reply` tells how many rows that affected, none
    /// where the member was there before.
    pub fn inserted(self, reply: Result<u64, StorageFailure>) -> (outcome: Result<
        CommitMember,
        SubjectGroupRepositoryError,
    >)
        ensures
            self.leads_to(reply, outcome),
    {
        match reply {
            Err(failure) => {
                let context = match self.change.member {
                    GroupMember::User(_) => "add_member: insert user",
                    GroupMember::Group(_) => "add_member: insert group",
                };
                Err(map_sqlx_err(context, failure))
            },
            Ok(rows_affected) => {
                if rows_affected == 0 {
                    Err(SubjectGroupRepositoryError::MemberAlreadyPresent)
                } else {
                    Ok(CommitMember { change: self.change })
                }
            },
        }
    }
}

impl CommitMember {
    /// The transaction was committed, or not.
    pub fn committed(self, reply: Result<(), StorageFailure>) -> (outcome: Result<
        (),
        SubjectGroupRepositoryError,
    >)
        ensures
            passes_on("add_member: commit"@, reply, outcome),
    {
        pass_on("add_member: commit", reply)
    }
}

// ── A whole change ──────────────────────────────────────────────────────────

/// The groups and the membership table of the database.
pub struct GroupStore {
    pub groups: Set<Uuid>,
    pub rows: Seq<MembershipRow>,
}

impl GroupStore {
    /// No membership is stored twice, no group is nested in itself, and no
    /// chain of nested groups is too long.
    pub open spec fn valid(self) -> bool {
        &&& self.rows.no_duplicates()
        &&& membership::is_well_nested(self.rows)
        &&& membership::within_depth_cap(self.rows)
    }
}

/// The requests of one change, each with its reply and what followed from it.
/// What follows behind an error is of no account.
pub struct Exchange {
    pub opened: Result<(), StorageFailure>,
    pub lock: Result<LockParent, SubjectGroupRepositoryError>,
    pub locked: Result<bool, StorageFailure>,
    pub after_lock: Result<AfterLock, SubjectGroupRepositoryError>,
    pub loaded: Result<Vec<MembershipRow>, StorageFailure>,
    pub checked: Result<InsertMember, SubjectGroupRepositoryError>,
    pub inserted: Result<u64, StorageFailure>,
    pub commit: Result<CommitMember, SubjectGroupRepositoryError>,
    pub committed: Result<(), StorageFailure>,
    pub done: Result<(), SubjectGroupRepositoryError>,
}

impl Exchange {
    /// What led to the insertion of the row: the lock alone, or for a nested
    /// group the check.
    pub open spec fn insert(self) -> Result<InsertMember, SubjectGroupRepositoryError> {
        match self.after_lock {
            Err(e) => Err(e),
            Ok(AfterLock::Insert(insert)) => Ok(insert),
            Ok(AfterLock::Check(_)) => self.checked,
        }
    }

    /// The outcome of the change.
    pub open spec fn outcome(self) -> Result<(), SubjectGroupRepositoryError> {
        if let Err(e) = self.lock {
            Err(e)
        } else if let Err(e) = self.insert() {
            Err(e)
        } else if let Err(e) = self.commit {
            Err(e)
        } else {
            self.done
        }
    }

    /// Each step follows from the reply to the one before it.
    pub open spec fn runs(self, change: AddMember) -> bool {
        &&& change.leads_to(self.opened, self.lock)
        &&& self.lock matches Ok(lock) ==> lock.leads_to(self.locked, self.after_lock)
        &&& self.lock is Ok ==> (self.after_lock matches Ok(AfterLock::Check(check))
            ==> check.leads_to(self.loaded, self.checked))
        &&& self.lock is Ok ==> (self.insert() matches Ok(insert) ==> insert.leads_to(
            self.inserted,
            self.commit,
        ))
        &&& self.lock is Ok && self.insert() is Ok && self.commit is Ok ==> passes_on(
            "add_member: commit"@,
            self.committed,
            self.done,
        )
    }

    /// The replies tell what the database holds: whether the group exists, the
    /// membership table, and that a row is inserted unless it is there.
    pub open spec fn is_truthful(self, change: AddMember, store: GroupStore) -> bool {
        &&& self.locked matches Ok(exists) ==> exists == store.groups.contains(change.group_id)
        &&& self.loaded matches Ok(rows) ==> rows@ == store.rows
        &&& self.inserted matches Ok(n) ==> n == (if membership::is_direct_member(
            store.rows,
            change.group_id,
            change.member,
        ) {
            0int
        } else {
            1
        })
    }

    /// No exchange with the database failed.
    pub open spec fn has_no_failure(self) -> bool {
        &&& self.opened is Ok
        &&& self.locked is Ok
        &&& self.loaded is Ok
        &&& self.inserted is Ok
        &&& self.committed is Ok
    }

    /// What the database holds afterwards: the row that was inserted lasts only
    /// where the transaction was committed.
    pub open spec fn after(self, change: AddMember, store: GroupStore) -> GroupStore {
        if self.outcome() is Ok {
            GroupStore {
                groups: store.groups,
                rows: membership::with_member(store.rows, change.group_id, change.member),
            }
        } else {
            store
        }
    }
}

/// The change would nest a group in itself, directly or through other groups.
pub open spec fn closes_circle(rows: Seq<MembershipRow>, change: AddMember) -> bool {
    change.member matches GroupMember::Group(child) && (child == change.group_id
        || reach::reaches(membership::nesting(rows), child, change.group_id))
}

/// A change that succeeds adds exactly one membership, which was not there; one
/// that fails changes nothing. Either way the rules of the store still hold.
/// A member is reported as present only where it was. Where no exchange with
/// the database fails, a group is reported as unknown exactly where it does not
/// exist, a nesting as a circle exactly where it would close one, and as too
/// deep exactly where it closes none and is not allowed; the change succeeds
/// exactly where the group exists, the nesting is allowed and the member is
/// new.
pub proof fn law_change_adds_one_member_or_nothing(
    change: AddMember,
    store: GroupStore,
    exchange: Exchange,
)
    requires
        exchange.runs(change),
        exchange.is_truthful(change, store),
    ensures
        store.valid() ==> exchange.after(change, store).valid(),
        exchange.outcome() is Ok ==> {
            &&& !membership::is_direct_member(store.rows, change.group_id, change.member)
            &&& exchange.after(change, store).rows == membership::with_member(
                store.rows,
                change.group_id,
                change.member,
            )
        },
        exchange.outcome() is Err ==> exchange.after(change, store) == store,
        exchange.outcome() == Err::<(), _>(SubjectGroupRepositoryError::MemberAlreadyPresent)
            ==> membership::is_direct_member(store.rows, change.group_id, change.member),
        exchange.has_no_failure() ==> {
            &&& (exchange.outcome() matches Err(e) && is_unknown_group(e, change.group_id))
                <==> !store.groups.contains(change.group_id)
            &&& (exchange.outcome() matches Err(SubjectGroupRepositoryError::Cycle(_))) <==> (
            store.groups.contains(change.group_id) && closes_circle(store.rows, change))
            &&& (exchange.outcome() matches Err(SubjectGroupRepositoryError::DepthExceeded(_)))
                <==> (store.groups.contains(change.group_id) && !closes_circle(store.rows, change)
                && (change.member matches GroupMember::Group(child) && !membership::may_nest(
                store.rows,
                change.group_id,
                child,
            )))
            &&& exchange.outcome() is Ok <==> (store.groups.contains(change.group_id) && (
            change.member matches GroupMember::Group(child) ==> membership::may_nest(
                store.rows,
                change.group_id,
                child,
            )) && !membership::is_direct_member(store.rows, change.group_id, change.member))
        },
{
    let row = MembershipRow { group_id: change.group_id, member: change.member };
    if exchange.outcome() is Ok {
        let more = membership::with_member(store.rows, change.group_id, change.member);
        if store.valid() {
            membership::law_adding_keeps_groups_well_nested(
                store.rows,
                change.group_id,
                change.member,
            );
            membership::law_adding_keeps_depth_cap(store.rows, change.group_id, change.member);
            assert forall|i: int, j: int| 0 <= i < j < more.len() implies more[i] != more[j] by {
                if j == store.rows.len() {
                    assert(more[j] == row);
                    assert(store.rows[i] != row);
                }
            }
        }
    }
}

/// A removal succeeds exactly where the member was there, and takes out that
/// one membership; otherwise it is reported that there is none. The rules of
/// the store still hold.
pub proof fn law_removal_takes_out_one_member_or_nothing(
    store: GroupStore,
    group: Uuid,
    member: GroupMember,
    reply: Result<u64, StorageFailure>,
    outcome: Result<(), SubjectGroupRepositoryError>,
)
    requires
        store.valid(),
        reply matches Ok(n) ==> n == store.rows.len() - membership::without_member(
            store.rows,
            group,
            member,
        ).len(),
        is_removal(reply, outcome),
    ensures
        ({
            let after = GroupStore {
                groups: store.groups,
                rows: membership::without_member(store.rows, group, member),
            };
            &&& after.valid()
            &&& reply is Ok ==> {
                &&& outcome is Ok <==> membership::is_direct_member(store.rows, group, member)
                &&& outcome is Ok ==> after.rows.len() == store.rows.len() - 1
                &&& outcome is Err ==> after == store && outcome->Err_0
                    == SubjectGroupRepositoryError::MemberNotPresent
            }
        }),
{
    membership::law_removing_takes_out_rows(store.rows, group, member);
    membership::law_removing_keeps_groups_well_nested(store.rows, group, member);
    membership::law_removing_keeps_depth_cap(store.rows, group, member);
    membership::law_removing_an_absent_member_changes_nothing(store.rows, group, member);
}

} // verus!
