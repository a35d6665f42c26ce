//! Nested groups.

use vstd::prelude::*;
use vstd::string::*;

use crate::groups::entity::{GroupMember, SubjectGroupRepositoryError};
use crate::groups::membership;
use crate::groups::membership::{
    depth_with_member, groups_for_user, nesting_links, transitive_users, would_close_circle,
    MembershipRow,
};
use crate::groups::reach;
use crate::groups::reach::{is_one_of, leads_to, longest_walk, reachable, successors, Link};
use crate::groups::repository;
use crate::groups::repository::{CheckNesting, InsertMember, StorageFailure};
use crate::identifier;
use crate::identifier::Uuid;
use crate::text;

verus! {

// ── Chains ──────────────────────────────────────────────────────────────────

/// At position `i` the path goes from a group to a direct member of it.
pub open spec fn descends(rows: Seq<MembershipRow>, path: Seq<Uuid>, i: int) -> bool {
    rows.contains(MembershipRow { group_id: path[i], member: GroupMember::Group(path[i + 1]) })
}

/// The path goes from each of its groups to a direct member of it.
pub open spec fn is_chain(rows: Seq<MembershipRow>, path: Seq<Uuid>) -> bool {
    &&& path.len() >= 1
    &&& forall|i: int| 0 <= i < path.len() - 1 ==> #[trigger] descends(rows, path, i)
}

/// The path goes from a group through its members back to that group.
pub open spec fn is_circle(rows: Seq<MembershipRow>, path: Seq<Uuid>) -> bool {
    is_chain(rows, path) && path.len() >= 2 && path.first() == path.last()
}

/// No group is, however indirectly, a member of itself.
pub open spec fn has_no_circle(rows: Seq<MembershipRow>) -> bool {
    forall|path: Seq<Uuid>| !#[trigger] is_circle(rows, path)
}

/// No chain takes more than eight steps.
pub open spec fn is_shallow(rows: Seq<MembershipRow>) -> bool {
    forall|path: Seq<Uuid>| #[trigger] is_chain(rows, path) ==> path.len() - 1 <= 8
}

/// The table with one more group nested.
pub open spec fn nested(rows: Seq<MembershipRow>, group: Uuid, child: Uuid) -> Seq<MembershipRow> {
    rows.push(MembershipRow { group_id: group, member: GroupMember::Group(child) })
}

proof fn lemma_chain(rows: Seq<MembershipRow>, path: Seq<Uuid>)
    ensures
        is_chain(rows, path) <==> reach::is_walk(membership::nesting(rows), path),
{
    let links = membership::nesting(rows);
    assert forall|i: int| #[trigger] descends(rows, path, i) <==> #[trigger] reach::link_at(
        links,
        path,
        i,
    ) by {
        membership::lemma_nesting_link(rows, path[i], path[i + 1]);
    }
    if is_chain(rows, path) {
        assert forall|i: int| 0 <= i < path.len() - 1 implies #[trigger] reach::link_at(
            links,
            path,
            i,
        ) by {
            assert(descends(rows, path, i));
        }
    }
    if reach::is_walk(links, path) {
        assert forall|i: int| 0 <= i < path.len() - 1 implies #[trigger] descends(
            rows,
            path,
            i,
        ) by {
            assert(reach::link_at(links, path, i));
        }
    }
}

proof fn lemma_nested(rows: Seq<MembershipRow>, group: Uuid, child: Uuid)
    ensures
        membership::nesting(nested(rows, group, child)) == membership::nesting(rows).push(
            Link { from: group, to: child },
        ),
        nested(rows, group, child) == membership::with_member(
            rows,
            group,
            GroupMember::Group(child),
        ),
        forall|row: MembershipRow|
            rows.contains(row) ==> #[trigger] nested(rows, group, child).contains(row),
        nested(rows, group, child).contains(
            MembershipRow { group_id: group, member: GroupMember::Group(child) },
        ),
{
    let more = nested(rows, group, child);
    let new = MembershipRow { group_id: group, member: GroupMember::Group(child) };
    assert(more.drop_last() =~= rows);
    assert(more[rows.len() as int] == new);
    assert forall|row: MembershipRow| rows.contains(row) implies #[trigger] more.contains(row) by {
        let k = choose|k: int| 0 <= k < rows.len() && rows[k] == row;
        assert(more[k] == row);
    }
}

proof fn lemma_longer_table(rows: Seq<MembershipRow>, group: Uuid, child: Uuid, path: Seq<Uuid>)
    requires
        is_chain(rows, path),
    ensures
        is_chain(nested(rows, group, child), path),
{
    lemma_nested(rows, group, child);
    assert forall|i: int| 0 <= i < path.len() - 1 implies #[trigger] descends(
        nested(rows, group, child),
        path,
        i,
    ) by {
        assert(descends(rows, path, i));
    }
}

proof fn lemma_joined(rows: Seq<MembershipRow>, up: Seq<Uuid>, down: Seq<Uuid>)
    requires
        is_chain(rows, up),
        is_chain(rows, down),
        rows.contains(
            MembershipRow { group_id: up.last(), member: GroupMember::Group(down.first()) },
        ),
    ensures
        is_chain(rows, up + down),
{
    let whole = up + down;
    assert forall|i: int| 0 <= i < whole.len() - 1 implies #[trigger] descends(rows, whole, i) by {
        if i < up.len() - 1 {
            assert(descends(rows, up, i));
        } else if i >= up.len() {
            assert(descends(rows, down, i - up.len()));
        }
    }
}

proof fn lemma_through(
    rows: Seq<MembershipRow>,
    group: Uuid,
    child: Uuid,
    up: Seq<Uuid>,
    down: Seq<Uuid>,
)
    requires
        membership::chain_through(rows, group, child, up, down),
    ensures
        is_chain(nested(rows, group, child), up + down),
        (up + down)[up.len() - 1] == group,
{
    lemma_chain(rows, up);
    lemma_chain(rows, down);
    lemma_longer_table(rows, group, child, up);
    lemma_longer_table(rows, group, child, down);
    lemma_nested(rows, group, child);
    lemma_joined(nested(rows, group, child), up, down);
}

proof fn lemma_closed_circle(rows: Seq<MembershipRow>, group: Uuid, child: Uuid) -> (path: Seq<
    Uuid,
>)
    requires
        child == group || reach::reaches(membership::nesting(rows), child, group),
    ensures
        is_circle(nested(rows, group, child), path),
        path.first() == group,
        path[1] == child,
{
    lemma_nested(rows, group, child);
    let back = if child == group {
        seq![child]
    } else {
        choose|back: Seq<Uuid>|
            back.len() >= 2 && #[trigger] reach::walk_between(
                membership::nesting(rows),
                back,
                child,
                group,
            )
    };
    if child != group {
        lemma_chain(rows, back);
    }
    lemma_longer_table(rows, group, child, back);
    lemma_joined(nested(rows, group, child), seq![group], back);
    seq![group] + back
}

/// A group that is a member of itself makes a circle.
pub proof fn lemma_self_nesting_is_a_circle(rows: Seq<MembershipRow>, group: Uuid)
    ensures
        !has_no_circle(nested(rows, group, group)),
{
    let circle = lemma_closed_circle(rows, group, group);
    assert(is_circle(nested(rows, group, group), circle));
}

proof fn lemma_opened_circle(
    rows: Seq<MembershipRow>,
    group: Uuid,
    child: Uuid,
    path: Seq<Uuid>,
)
    requires
        is_circle(nested(rows, group, child), path),
        path.first() == group,
        path[1] == child,
        child != group,
    ensures
        reach::reaches(membership::nesting(rows), child, group),
{
    lemma_nested(rows, group, child);
    lemma_chain(nested(rows, group, child), path);
    let more = membership::nesting(nested(rows, group, child));
    reach::lemma_part_of_walk(more, path, 1, path.len() as int);
    reach::lemma_walk_without_new_link(
        membership::nesting(rows),
        path.subrange(1, path.len() as int),
        group,
        child,
    );
}

// ── The check ───────────────────────────────────────────────────────────────

/// A group is nested wherever the rules still hold of the table with it: where
/// then no group is a member of itself and no chain takes more than eight steps,
/// the change goes on, and it is just the change that was asked for. It does not
/// matter where else the group is nested, or what else the table holds.
pub proof fn law_what_keeps_the_rules_is_nested(
    check: CheckNesting,
    rows: Vec<MembershipRow>,
    outcome: Result<InsertMember, SubjectGroupRepositoryError>,
)
    requires
        call_ensures(
            CheckNesting::loaded,
            (check, Ok::<Vec<MembershipRow>, StorageFailure>(rows)),
            outcome,
        ),
        has_no_circle(nested(rows@, check.group_id, check.child)),
        is_shallow(nested(rows@, check.group_id, check.child)),
    ensures
        outcome is Ok,
        outcome->Ok_0.change.group_id == check.group_id,
        outcome->Ok_0.change.member == GroupMember::Group(check.child),
        outcome->Ok_0.change.added_by == check.added_by,
{
    let group = check.group_id;
    let child = check.child;
    if child == group || reach::reaches(membership::nesting(rows@), child, group) {
        let circle = lemma_closed_circle(rows@, group, child);
        assert(is_circle(nested(rows@, group, child), circle));
    }
    assert forall|up: Seq<Uuid>, down: Seq<Uuid>| #[trigger]
        membership::chain_through(rows@, group, child, up, down) implies (up.len() - 1)
        + down.len() <= 8 by {
        lemma_through(rows@, group, child, up, down);
        assert(is_chain(nested(rows@, group, child), up + down));
    }
    assert(membership::may_nest(rows@, group, child));
}

/// Where the rules hold of the table, a group is nested only where they hold of
/// the table with it.
pub proof fn law_what_is_nested_keeps_the_rules(
    check: CheckNesting,
    rows: Vec<MembershipRow>,
    outcome: Result<InsertMember, SubjectGroupRepositoryError>,
)
    requires
        call_ensures(
            CheckNesting::loaded,
            (check, Ok::<Vec<MembershipRow>, StorageFailure>(rows)),
            outcome,
        ),
        is_shallow(rows@),
        outcome is Ok,
    ensures
        has_no_circle(nested(rows@, check.group_id, check.child)),
        is_shallow(nested(rows@, check.group_id, check.child)),
{
    let group = check.group_id;
    let child = check.child;
    let more = nested(rows@, group, child);
    lemma_nested(rows@, group, child);
    assert(membership::within_depth_cap(rows@)) by {
        assert forall|path: Seq<Uuid>| #[trigger]
            reach::is_walk(membership::nesting(rows@), path) implies path.len() - 1 <= 8 by {
            lemma_chain(rows@, path);
        }
    }
    membership::law_adding_keeps_depth_cap(rows@, group, GroupMember::Group(child));
    membership::law_depth_cap_excludes_circles(more);
    assert forall|path: Seq<Uuid>| #[trigger] is_chain(more, path) implies path.len() - 1 <= 8 by {
        lemma_chain(more, path);
    }
    assert forall|path: Seq<Uuid>| !#[trigger] is_circle(more, path) by {
        if is_circle(more, path) {
            lemma_chain(more, path);
            let node = path.first();
            assert(reach::walk_between(membership::nesting(more), path, node, node));
            assert(reach::reaches(membership::nesting(more), node, node));
        }
    }
}

/// A nesting is refused as a circle exactly where it would close one, and the
/// refusal names the two groups.
pub proof fn law_circles_are_refused(
    check: CheckNesting,
    rows: Vec<MembershipRow>,
    outcome: Result<InsertMember, SubjectGroupRepositoryError>,
)
    requires
        call_ensures(
            CheckNesting::loaded,
            (check, Ok::<Vec<MembershipRow>, StorageFailure>(rows)),
            outcome,
        ),
    ensures
        (outcome matches Err(SubjectGroupRepositoryError::Cycle(_))) <==> exists|path: Seq<Uuid>|
            #[trigger] is_circle(nested(rows@, check.group_id, check.child), path) && path[0]
                == check.group_id && path[1] == check.child,
        outcome matches Err(SubjectGroupRepositoryError::Cycle(m)) ==> m@
            == identifier::hyphenated(check.group_id.value) + " → "@ + identifier::hyphenated(
            check.child.value,
        ),
{
    let group = check.group_id;
    let child = check.child;
    let more = nested(rows@, group, child);
    if child == group || reach::reaches(membership::nesting(rows@), child, group) {
        let circle = lemma_closed_circle(rows@, group, child);
        assert(is_circle(more, circle) && circle[0] == group && circle[1] == child);
    } else {
        assert forall|path: Seq<Uuid>| #[trigger] is_circle(more, path) && path[0] == group
            && path[1] == child implies false by {
            lemma_opened_circle(rows@, group, child, path);
        }
    }
}

/// A nesting is refused as too deep only where some chain through the group
/// would take more than eight steps, and the refusal says how many. Where there
/// would be no circle, that is as many as the longest chain through the group
/// takes.
pub proof fn law_deep_nestings_are_refused(
    check: CheckNesting,
    rows: Vec<MembershipRow>,
    outcome: Result<InsertMember, SubjectGroupRepositoryError>,
)
    requires
        call_ensures(
            CheckNesting::loaded,
            (check, Ok::<Vec<MembershipRow>, StorageFailure>(rows)),
            outcome,
        ),
    ensures
        outcome matches Ok(_) || (outcome matches Err(e) && (e is Cycle || e is DepthExceeded)),
        outcome matches Err(SubjectGroupRepositoryError::DepthExceeded(m)) ==> exists|
            path: Seq<Uuid>,
        |
            {
                &&& #[trigger] is_chain(nested(rows@, check.group_id, check.child), path)
                &&& path.contains(check.group_id)
                &&& path.len() - 1 > 8
                &&& m@ == "would reach depth "@ + text::decimal((path.len() - 1) as nat) + " (max "@
                    + text::decimal(8) + ")"@
                &&& has_no_circle(nested(rows@, check.group_id, check.child)) ==> forall|
                    other: Seq<Uuid>,
                |
                    #[trigger] is_chain(nested(rows@, check.group_id, check.child), other)
                        && other.contains(check.group_id) ==> other.len() <= path.len()
            },
{
    let group = check.group_id;
    let child = check.child;
    let more = nested(rows@, group, child);
    if outcome is Err && outcome->Err_0 is DepthExceeded {
        assert(repository::is_too_deep(outcome->Err_0, rows@, group, child));
        let m = outcome->Err_0->DepthExceeded_0;
        let depth = choose|depth: nat|
            {
                &&& #[trigger] membership::reaches_depth(rows@, group, child, depth)
                &&& depth > 8
                &&& membership::no_circle_around(rows@, group, child) ==> membership::depth_with(
                    rows@,
                    group,
                    child,
                    depth,
                )
                &&& m@ == "would reach depth "@ + text::decimal(depth) + " (max "@
                    + text::decimal(8) + ")"@
            };
        let (up, down) = choose|up: Seq<Uuid>, down: Seq<Uuid>| #[trigger]
            membership::chain_through(rows@, group, child, up, down) && (up.len() - 1)
                + down.len() == depth;
        lemma_through(rows@, group, child, up, down);
        let path = up + down;
        assert(path[up.len() - 1] == group);
        assert(path.contains(group));
        if has_no_circle(more) {
            lemma_no_circle_around(rows@, group, child);
            assert forall|other: Seq<Uuid>| #[trigger] is_chain(more, other) && other.contains(
                group,
            ) implies other.len() <= path.len() by {
                lemma_chain_through_group(rows@, group, child, other, depth);
            }
        }
        assert(is_chain(more, path));
    }
}

proof fn lemma_no_circle_around(rows: Seq<MembershipRow>, group: Uuid, child: Uuid)
    requires
        has_no_circle(nested(rows, group, child)),
    ensures
        membership::no_circle_around(rows, group, child),
        reach::acyclic(membership::nesting(nested(rows, group, child))),
{
    let more = nested(rows, group, child);
    assert forall|node: Uuid| !#[trigger] reach::reaches(membership::nesting(rows), node, node) by {
        if reach::reaches(membership::nesting(rows), node, node) {
            let path = choose|path: Seq<Uuid>|
                path.len() >= 2 && #[trigger] reach::walk_between(
                    membership::nesting(rows),
                    path,
                    node,
                    node,
                );
            lemma_chain(rows, path);
            lemma_longer_table(rows, group, child, path);
            assert(is_circle(more, path));
        }
    }
    assert forall|node: Uuid| !#[trigger] reach::reaches(membership::nesting(more), node, node) by {
        if reach::reaches(membership::nesting(more), node, node) {
            let path = choose|path: Seq<Uuid>|
                path.len() >= 2 && #[trigger] reach::walk_between(
                    membership::nesting(more),
                    path,
                    node,
                    node,
                );
            lemma_chain(more, path);
            assert(is_circle(more, path));
        }
    }
}

proof fn lemma_chain_through_group(
    rows: Seq<MembershipRow>,
    group: Uuid,
    child: Uuid,
    path: Seq<Uuid>,
    depth: nat,
)
    requires
        has_no_circle(nested(rows, group, child)),
        is_chain(nested(rows, group, child), path),
        path.contains(group),
        forall|up: Seq<Uuid>, down: Seq<Uuid>| #[trigger]
            membership::chain_through(rows, group, child, up, down) ==> (up.len() - 1) + down.len()
                <= depth,
    ensures
        path.len() - 1 <= depth,
{
    let more = nested(rows, group, child);
    lemma_nested(rows, group, child);
    lemma_no_circle_around(rows, group, child);
    lemma_chain(more, path);
    reach::lemma_acyclic_walk_is_distinct(membership::nesting(more), path);
    let i = choose|i: int| 0 <= i < path.len() && path[i] == group;
    let up = path.subrange(0, i + 1);
    membership::lemma_old_walk(rows, group, child, path, 0, i + 1);
    let down = if i + 1 < path.len() {
        path.subrange(i + 1, path.len() as int)
    } else {
        seq![child]
    };
    if i + 1 < path.len() {
        membership::lemma_old_walk(rows, group, child, path, i + 1, path.len() as int);
        assert(descends(more, path, i));
        let row = MembershipRow { group_id: group, member: GroupMember::Group(path[i + 1]) };
        let k = choose|k: int| 0 <= k < more.len() && more[k] == row;
        if k < rows.len() {
            assert(rows[k] == row);
        }
    }
    assert(membership::chain_through(rows, group, child, up, down));
}

// ── Parts of the check ──────────────────────────────────────────────────────

/// Whether a nesting would close a circle: whether a chain of at least one step
/// leads from the group to nest to the one that it shall be nested in.
pub proof fn law_circles_are_found(
    rows: Vec<MembershipRow>,
    group: Uuid,
    child: Uuid,
    circle: bool,
)
    requires
        call_ensures(would_close_circle, (&rows, group, child), circle),
    ensures
        circle <==> exists|path: Seq<Uuid>| #[trigger]
            is_chain(rows@, path) && path.len() >= 2 && path.first() == child && path.last()
                == group,
{
    let links = membership::nesting(rows@);
    if circle {
        let path = choose|path: Seq<Uuid>|
            path.len() >= 2 && #[trigger] reach::walk_between(links, path, child, group);
        lemma_chain(rows@, path);
        assert(is_chain(rows@, path));
    }
    if exists|path: Seq<Uuid>| #[trigger]
        is_chain(rows@, path) && path.len() >= 2 && path.first() == child && path.last() == group {
        let path = choose|path: Seq<Uuid>| #[trigger]
            is_chain(rows@, path) && path.len() >= 2 && path.first() == child && path.last()
                == group;
        lemma_chain(rows@, path);
        assert(reach::walk_between(links, path, child, group));
    }
}

/// The depth with one more group nested is that of some chain through the group
/// that it is nested in; where there would be no circle, of the longest.
pub proof fn law_depth_is_that_of_the_longest_chain(
    rows: Vec<MembershipRow>,
    group: Uuid,
    child: Uuid,
    depth: u128,
)
    requires
        call_ensures(depth_with_member, (&rows, group, child), depth),
    ensures
        exists|path: Seq<Uuid>| #[trigger]
            is_chain(nested(rows@, group, child), path) && path.contains(group) && path.len() - 1
                == depth,
        has_no_circle(nested(rows@, group, child)) ==> forall|path: Seq<Uuid>|
            #[trigger] is_chain(nested(rows@, group, child), path) && path.contains(group)
                ==> path.len() - 1 <= depth,
{
    let more = nested(rows@, group, child);
    let (up, down) = choose|up: Seq<Uuid>, down: Seq<Uuid>| #[trigger]
        membership::chain_through(rows@, group, child, up, down) && (up.len() - 1) + down.len()
            == depth;
    lemma_through(rows@, group, child, up, down);
    let path = up + down;
    assert(path[up.len() - 1] == group);
    assert(is_chain(more, path) && path.contains(group) && path.len() - 1 == depth);
    if has_no_circle(more) {
        lemma_no_circle_around(rows@, group, child);
        assert forall|other: Seq<Uuid>| #[trigger] is_chain(more, other) && other.contains(
            group,
        ) implies other.len() - 1 <= depth by {
            lemma_chain_through_group(rows@, group, child, other, depth as nat);
        }
    }
}

/// The links of the nesting are the rows that name a group as a member, in
/// their order: a row more adds its link at the end where it names a group, and
/// nothing where it names a user.
pub proof fn law_links_are_the_rows_of_groups(
    rows: Vec<MembershipRow>,
    links: Vec<Link>,
    row: MembershipRow,
    more: Vec<MembershipRow>,
    more_links: Vec<Link>,
)
    requires
        call_ensures(nesting_links, (&rows,), links),
        call_ensures(nesting_links, (&more,), more_links),
        more@ == rows@.push(row),
    ensures
        rows@.len() == 0 ==> links@.len() == 0,
        row.member is User ==> more_links@ == links@,
        row.member matches GroupMember::Group(child) ==> {
            &&& more_links@.len() == links@.len() + 1
            &&& more_links@.last().from == row.group_id
            &&& more_links@.last().to == child
            &&& more_links@.drop_last() == links@
        },
{
    assert(more@.drop_last() =~= rows@);
    if row.member is Group {
        assert(more_links@.drop_last() =~= links@);
    }
}

// ── Who belongs ─────────────────────────────────────────────────────────────

/// A chain leads from the group to one that has the user as a direct member.
pub open spec fn leads_to_user(rows: Seq<MembershipRow>, path: Seq<Uuid>, user: Uuid) -> bool {
    is_chain(rows, path) && rows.contains(
        MembershipRow { group_id: path.last(), member: GroupMember::User(user) },
    )
}

/// The user is a direct member of the group or of one that it holds, however
/// deeply nested.
pub open spec fn is_member(rows: Seq<MembershipRow>, group: Uuid, user: Uuid) -> bool {
    exists|path: Seq<Uuid>| #[trigger] leads_to_user(rows, path, user) && path.first() == group
}

/// To be a member is to belong.
pub proof fn lemma_member(rows: Seq<MembershipRow>, group: Uuid, user: Uuid)
    ensures
        is_member(rows, group, user) <==> membership::belongs(rows, group, user),
{
    let links = membership::nesting(rows);
    if is_member(rows, group, user) {
        let path = choose|path: Seq<Uuid>| #[trigger]
            leads_to_user(rows, path, user) && path.first() == group;
        lemma_chain(rows, path);
        assert(reach::walk_between(links, path, group, path.last()));
        assert(reach::connected(links, group, path.last()));
    }
    if membership::belongs(rows, group, user) {
        let inner = choose|inner: Uuid|
            membership::is_direct_member(rows, inner, GroupMember::User(user))
                && #[trigger] reach::connected(links, group, inner);
        let path = choose|path: Seq<Uuid>| #[trigger]
            reach::walk_between(links, path, group, inner);
        lemma_chain(rows, path);
        assert(leads_to_user(rows, path, user));
    }
}

/// The users of a group are exactly those who are direct members of it or of a
/// group that it holds, however deeply nested, each of them once.
pub proof fn law_users_of_a_group(rows: Vec<MembershipRow>, group: Uuid, users: Vec<Uuid>)
    requires
        call_ensures(transitive_users, (&rows, group), users),
    ensures
        forall|user: Uuid| #[trigger] users@.contains(user) <==> is_member(rows@, group, user),
        forall|i: int, j: int| 0 <= i < j < users@.len() ==> users@[i] != users@[j],
{
    assert forall|user: Uuid| #[trigger] users@.contains(user) <==> is_member(
        rows@,
        group,
        user,
    ) by {
        lemma_member(rows@, group, user);
    }
}

/// The groups of a user are exactly those that the user is a member of, however
/// indirectly, each of them once.
pub proof fn law_groups_of_a_user(rows: Vec<MembershipRow>, user: Uuid, groups: Vec<Uuid>)
    requires
        call_ensures(groups_for_user, (&rows, user), groups),
    ensures
        forall|group: Uuid| #[trigger] groups@.contains(group) <==> is_member(rows@, group, user),
        forall|i: int, j: int| 0 <= i < j < groups@.len() ==> groups@[i] != groups@[j],
{
    assert forall|group: Uuid| #[trigger] groups@.contains(group) <==> is_member(
        rows@,
        group,
        user,
    ) by {
        membership::law_members_and_groups_agree(rows@, group, user);
        lemma_member(rows@, group, user);
    }
}

/// A user has a group exactly where the group has the user.
pub proof fn law_users_and_groups_agree(
    rows: Vec<MembershipRow>,
    group: Uuid,
    users: Vec<Uuid>,
    user: Uuid,
    groups: Vec<Uuid>,
)
    requires
        call_ensures(transitive_users, (&rows, group), users),
        call_ensures(groups_for_user, (&rows, user), groups),
    ensures
        users@.contains(user) <==> groups@.contains(group),
{
    law_users_of_a_group(rows, group, users);
    law_groups_of_a_user(rows, user, groups);
}

/// A group has its direct members, and all those of the groups that are direct
/// members of it.
pub proof fn law_users_of_members_are_users(
    rows: Vec<MembershipRow>,
    group: Uuid,
    users: Vec<Uuid>,
    child: Uuid,
    inner: Vec<Uuid>,
    user: Uuid,
)
    requires
        call_ensures(transitive_users, (&rows, group), users),
        call_ensures(transitive_users, (&rows, child), inner),
    ensures
        rows@.contains(MembershipRow { group_id: group, member: GroupMember::User(user) })
            ==> users@.contains(user),
        rows@.contains(MembershipRow { group_id: group, member: GroupMember::Group(child) })
            && inner@.contains(user) ==> users@.contains(user),
{
    law_users_of_a_group(rows, group, users);
    law_users_of_a_group(rows, child, inner);
    if rows@.contains(MembershipRow { group_id: group, member: GroupMember::User(user) }) {
        assert(leads_to_user(rows@, seq![group], user));
    }
    if rows@.contains(MembershipRow { group_id: group, member: GroupMember::Group(child) })
        && inner@.contains(user) {
        let path = choose|path: Seq<Uuid>| #[trigger]
            leads_to_user(rows@, path, user) && path.first() == child;
        lemma_joined(rows@, seq![group], path);
        assert(leads_to_user(rows@, seq![group] + path, user));
        assert((seq![group] + path).first() == group);
    }
}

// ── Walks along links ───────────────────────────────────────────────────────

/// At position `i` the path follows a link.
pub open spec fn follows(links: Seq<Link>, path: Seq<Uuid>, i: int) -> bool {
    links.contains(Link { from: path[i], to: path[i + 1] })
}

/// Each step of the path follows a link.
pub open spec fn is_path(links: Seq<Link>, path: Seq<Uuid>) -> bool {
    &&& path.len() >= 1
    &&& forall|i: int| 0 <= i < path.len() - 1 ==> #[trigger] follows(links, path, i)
}

proof fn lemma_path(links: Seq<Link>, path: Seq<Uuid>)
    ensures
        is_path(links, path) <==> reach::is_walk(links, path),
{
    assert forall|i: int| #[trigger] follows(links, path, i) <==> #[trigger] reach::link_at(
        links,
        path,
        i,
    ) by {}
    if is_path(links, path) {
        assert forall|i: int| 0 <= i < path.len() - 1 implies #[trigger] reach::link_at(
            links,
            path,
            i,
        ) by {
            assert(follows(links, path, i));
        }
    }
    if reach::is_walk(links, path) {
        assert forall|i: int| 0 <= i < path.len() - 1 implies #[trigger] follows(
            links,
            path,
            i,
        ) by {
            assert(reach::link_at(links, path, i));
        }
    }
}

/// A path leads from one of the nodes to `to`.
pub open spec fn is_path_to(links: Seq<Link>, from: Seq<Uuid>, to: Uuid, path: Seq<Uuid>) -> bool {
    is_path(links, path) && from.contains(path.first()) && path.last() == to
}

/// What is reached from some nodes is exactly what a path from one of them leads
/// to, each once; the nodes themselves are among it.
pub proof fn law_what_is_reached(links: Vec<Link>, from: Vec<Uuid>, seen: Vec<Uuid>)
    requires
        call_ensures(reachable, (&links, &from), seen),
    ensures
        forall|node: Uuid| #[trigger]
            seen@.contains(node) <==> exists|path: Seq<Uuid>| #[trigger]
                is_path_to(links@, from@, node, path),
        forall|node: Uuid| from@.contains(node) ==> #[trigger] seen@.contains(node),
        forall|i: int, j: int| 0 <= i < j < seen@.len() ==> seen@[i] != seen@[j],
{
    assert forall|node: Uuid| #[trigger] seen@.contains(node) <==> exists|path: Seq<Uuid>|
        #[trigger] is_path_to(links@, from@, node, path) by {
        if seen@.contains(node) {
            let seed = choose|seed: Uuid|
                from@.contains(seed) && #[trigger] reach::connected(links@, seed, node);
            let path = choose|path: Seq<Uuid>| #[trigger]
                reach::walk_between(links@, path, seed, node);
            lemma_path(links@, path);
            assert(is_path_to(links@, from@, node, path));
        }
        if exists|path: Seq<Uuid>| #[trigger] is_path_to(links@, from@, node, path) {
            let path = choose|path: Seq<Uuid>| #[trigger] is_path_to(links@, from@, node, path);
            lemma_path(links@, path);
            assert(reach::walk_between(links@, path, path.first(), node));
            assert(reach::connected(links@, path.first(), node));
            assert(reach::reachable_from(links@, from@, node));
        }
    }
    assert forall|node: Uuid| from@.contains(node) implies #[trigger] seen@.contains(node) by {
        assert(is_path_to(links@, from@, node, seq![node]));
    }
}

/// The successors of some nodes are the ends of the links from them, each once;
/// a node leads to another exactly where a path of at least one step does.
pub proof fn law_steps_along_links(
    links: Vec<Link>,
    nodes: Vec<Uuid>,
    node: Uuid,
    next: Vec<Uuid>,
    from: Uuid,
    to: Uuid,
    found: bool,
    among: bool,
)
    requires
        call_ensures(successors, (&links, &nodes), next),
        call_ensures(leads_to, (&links, from, to), found),
        call_ensures(is_one_of, (&nodes, node), among),
    ensures
        forall|end: Uuid| #[trigger]
            next@.contains(end) <==> exists|start: Uuid|
                nodes@.contains(start) && #[trigger] links@.contains(
                    Link { from: start, to: end },
                ),
        forall|i: int, j: int| 0 <= i < j < next@.len() ==> next@[i] != next@[j],
        found <==> exists|path: Seq<Uuid>| #[trigger]
            is_path(links@, path) && path.len() >= 2 && path.first() == from && path.last() == to,
        among <==> exists|i: int| 0 <= i < nodes@.len() && #[trigger] nodes@[i] == node,
{
    assert forall|end: Uuid| next@.contains(end) implies exists|start: Uuid|
        nodes@.contains(start) && #[trigger] links@.contains(Link { from: start, to: end }) by {
        assert(reach::is_successor(links@, nodes@, end));
        let start = choose|start: Uuid|
            nodes@.contains(start) && #[trigger] reach::has_link(links@, start, end);
        assert(links@.contains(Link { from: start, to: end }));
    }
    assert forall|end: Uuid, start: Uuid|
        nodes@.contains(start) && #[trigger] links@.contains(
            Link { from: start, to: end },
        ) implies next@.contains(end) by {
        assert(reach::has_link(links@, start, end));
        assert(reach::is_successor(links@, nodes@, end));
    }
    if found {
        let path = choose|path: Seq<Uuid>|
            path.len() >= 2 && #[trigger] reach::walk_between(links@, path, from, to);
        lemma_path(links@, path);
        assert(is_path(links@, path));
    }
    if exists|path: Seq<Uuid>| #[trigger]
        is_path(links@, path) && path.len() >= 2 && path.first() == from && path.last() == to {
        let path = choose|path: Seq<Uuid>| #[trigger]
            is_path(links@, path) && path.len() >= 2 && path.first() == from && path.last() == to;
        lemma_path(links@, path);
        assert(reach::walk_between(links@, path, from, to));
    }
}

/// The depth of a walk is the number of nodes of some path from one of the
/// starting nodes, and of the longest such path wherever that is not more than
/// was asked for, or than a path without circles can have.
pub proof fn law_longest_paths(
    links: Vec<Link>,
    from: Vec<Uuid>,
    enough: u64,
    depth: u128,
)
    requires
        from@.len() > 0,
        call_ensures(longest_walk, (&links, &from, enough), depth),
    ensures
        exists|path: Seq<Uuid>| #[trigger]
            is_path(links@, path) && from@.contains(path.first()) && path.len() == depth,
        depth <= enough || depth <= links@.len() + 1 ==> forall|path: Seq<Uuid>|
            #[trigger] is_path(links@, path) && from@.contains(path.first()) ==> path.len()
                <= depth,
{
    let longest = choose|path: Seq<Uuid>| #[trigger]
        reach::seeded_walk(links@, from@, path) && path.len() == depth;
    lemma_path(links@, longest);
    assert(is_path(links@, longest));
    if depth <= enough || depth <= links@.len() + 1 {
        assert forall|path: Seq<Uuid>| #[trigger] is_path(links@, path) && from@.contains(
            path.first(),
        ) implies path.len() <= depth by {
            lemma_path(links@, path);
            assert(reach::seeded_walk(links@, from@, path));
        }
    }
}

} // verus!
