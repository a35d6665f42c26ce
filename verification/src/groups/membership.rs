//! The membership table and what follows from it.

use vstd::prelude::*;

use super::entity::{GroupMember, MAX_GROUP_DEPTH};
use super::reach;
use super::reach::{is_one_of, leads_to, longest_walk, reachable, Link};
use crate::identifier::Uuid;

verus! {

/// One row of the membership table: `member` is a direct member of `group_id`.
#[derive(Clone, Copy, PartialEq, Eq, Structural, Debug)]
pub struct MembershipRow {
    pub group_id: Uuid,
    pub member: GroupMember,
}

/// `member` is a direct member of `group`.
pub open spec fn is_direct_member(
    rows: Seq<MembershipRow>,
    group: Uuid,
    member: GroupMember,
) -> bool {
    rows.contains(MembershipRow { group_id: group, member })
}

/// The nesting of groups: a link from each group to each group that is a
/// direct member of it, in the order of the rows.
pub open spec fn nesting(rows: Seq<MembershipRow>) -> Seq<Link>
    decreases rows.len(),
{
    if rows.len() == 0 {
        Seq::empty()
    } else {
        let row = rows.last();
        let before = nesting(rows.drop_last());
        match row.member {
            GroupMember::Group(child) => before.push(Link { from: row.group_id, to: child }),
            GroupMember::User(_) => before,
        }
    }
}

/// `user` is a direct member of some group that `group` is or holds, however
/// deeply nested.
pub open spec fn belongs(rows: Seq<MembershipRow>, group: Uuid, user: Uuid) -> bool {
    exists|inner: Uuid|
        is_direct_member(rows, inner, GroupMember::User(user)) && #[trigger] reach::connected(
            nesting(rows),
            group,
            inner,
        )
}

/// `outer` is, or lies above, a group that has `user` as a direct member:
/// walking from that group up through the groups that hold it leads to
/// `outer`.
pub open spec fn lies_above(rows: Seq<MembershipRow>, user: Uuid, outer: Uuid) -> bool {
    exists|inner: Uuid|
        is_direct_member(rows, inner, GroupMember::User(user)) && #[trigger] reach::connected(
            reach::turned(nesting(rows)),
            inner,
            outer,
        )
}

/// The groups that are direct members of `group`, and `child`.
pub open spec fn is_child_or(rows: Seq<MembershipRow>, group: Uuid, child: Uuid, node: Uuid) -> bool {
    node == child || is_direct_member(rows, group, GroupMember::Group(node))
}

/// A walk through nested groups that starts at a group which is, or is about
/// to become, a direct member of `group`.
pub open spec fn chain_below(
    rows: Seq<MembershipRow>,
    group: Uuid,
    child: Uuid,
    path: Seq<Uuid>,
) -> bool {
    reach::is_walk(nesting(rows), path) && is_child_or(rows, group, child, path.first())
}

/// `path` is a walk through nested groups that ends at `group`.
pub open spec fn chain_above(rows: Seq<MembershipRow>, group: Uuid, path: Seq<Uuid>) -> bool {
    reach::is_walk(nesting(rows), path) && path.last() == group
}

/// `up` is a walk through nested groups that ends at `group`, and `down` one
/// that goes on below it: a chain through `group` with `child` as a direct
/// member of it.
pub open spec fn chain_through(
    rows: Seq<MembershipRow>,
    group: Uuid,
    child: Uuid,
    up: Seq<Uuid>,
    down: Seq<Uuid>,
) -> bool {
    chain_above(rows, group, up) && chain_below(rows, group, child, down)
}

/// With `child` as a direct member of `group`, the longest chain of nested
/// groups through `group` takes `depth` steps from a group to a member.
pub open spec fn depth_with(rows: Seq<MembershipRow>, group: Uuid, child: Uuid, depth: nat) -> bool {
    &&& reaches_depth(rows, group, child, depth)
    &&& forall|up: Seq<Uuid>, down: Seq<Uuid>| #[trigger]
        chain_through(rows, group, child, up, down) ==> (up.len() - 1) + down.len() <= depth
}

/// With `child` as a direct member of `group`, some chain of nested groups
/// through `group` takes `depth` steps from a group to a member.
pub open spec fn reaches_depth(
    rows: Seq<MembershipRow>,
    group: Uuid,
    child: Uuid,
    depth: nat,
) -> bool {
    exists|up: Seq<Uuid>, down: Seq<Uuid>| #[trigger]
        chain_through(rows, group, child, up, down) && (up.len() - 1) + down.len() == depth
}

/// No group above or below `group`, or below `child`, is nested in itself.
pub open spec fn no_circle_around(rows: Seq<MembershipRow>, group: Uuid, child: Uuid) -> bool {
    forall|node: Uuid|
        reach::connected(nesting(rows), group, node) || reach::connected(
            nesting(rows),
            child,
            node,
        ) || reach::connected(nesting(rows), node, group) ==> !#[trigger] reach::reaches(
            nesting(rows),
            node,
            node,
        )
}

/// No chain of nested groups takes more than [`MAX_GROUP_DEPTH`] steps from a
/// group to a member.
pub open spec fn within_depth_cap(rows: Seq<MembershipRow>) -> bool {
    forall|path: Seq<Uuid>| #[trigger]
        reach::is_walk(nesting(rows), path) ==> path.len() - 1 <= MAX_GROUP_DEPTH
}

/// No group is nested in itself, however indirectly.
pub open spec fn is_well_nested(rows: Seq<MembershipRow>) -> bool {
    reach::acyclic(nesting(rows))
}

/// The nesting has a link exactly where a row makes the one group a member of
/// the other.
pub proof fn lemma_nesting_link(rows: Seq<MembershipRow>, group: Uuid, child: Uuid)
    ensures
        reach::has_link(nesting(rows), group, child) <==> is_direct_member(
            rows,
            group,
            GroupMember::Group(child),
        ),
    decreases rows.len(),
{
    let link = Link { from: group, to: child };
    let wanted = MembershipRow { group_id: group, member: GroupMember::Group(child) };
    if rows.len() > 0 {
        let row = rows.last();
        let less = rows.drop_last();
        lemma_nesting_link(less, group, child);
        if rows.contains(wanted) {
            let k = choose|k: int| 0 <= k < rows.len() && rows[k] == wanted;
            if k < rows.len() - 1 {
                assert(less[k] == wanted);
                let j = choose|j: int| 0 <= j < nesting(less).len() && nesting(less)[j] == link;
                assert(nesting(rows)[j] == link);
            } else {
                assert(nesting(rows)[nesting(rows).len() - 1] == link);
            }
        }
        if nesting(rows).contains(link) {
            let j = choose|j: int| 0 <= j < nesting(rows).len() && nesting(rows)[j] == link;
            if j < nesting(less).len() {
                assert(nesting(less)[j] == link);
                let k = choose|k: int| 0 <= k < less.len() && less[k] == wanted;
                assert(rows[k] == wanted);
            } else {
                assert(rows[rows.len() - 1] == wanted);
            }
        }
    }
}

/// Lists the links of the nesting.
pub fn nesting_links(rows: &Vec<MembershipRow>) -> (links: Vec<Link>)
    ensures
        links@ == nesting(rows@),
{
    let mut links: Vec<Link> = Vec::new();
    let mut i: usize = 0;
    while i < rows.len()
        invariant
            i <= rows@.len(),
            links@ == nesting(rows@.take(i as int)),
        decreases rows@.len() - i,
    {
        let row = rows[i];
        proof {
            assert(rows@.take(i + 1).drop_last() =~= rows@.take(i as int));
        }
        if let GroupMember::Group(child) = row.member {
            links.push(Link { from: row.group_id, to: child });
        }
        i += 1;
    }
    proof {
        assert(rows@.take(i as int) =~= rows@);
    }
    links
}

/// Lists the links of the nesting, each turned round.
fn turned_links(links: &Vec<Link>) -> (back: Vec<Link>)
    ensures
        back@ == reach::turned(links@),
{
    let mut back: Vec<Link> = Vec::new();
    let mut i: usize = 0;
    while i < links.len()
        invariant
            i <= links@.len(),
            back@ == reach::turned(links@.take(i as int)),
        decreases links@.len() - i,
    {
        let link = links[i];
        back.push(Link { from: link.to, to: link.from });
        proof {
            assert(reach::turned(links@.take(i + 1)) =~= reach::turned(
                links@.take(i as int),
            ).push(Link { from: link.to, to: link.from }));
        }
        i += 1;
    }
    proof {
        assert(links@.take(i as int) =~= links@);
    }
    back
}

/// Whether making `child` a member of `group` would close a circle: whether
/// `group` is nested in `child`, however indirectly.
pub fn would_close_circle(rows: &Vec<MembershipRow>, group: Uuid, child: Uuid) -> (circle: bool)
    ensures
        circle == reach::reaches(nesting(rows@), child, group),
{
    let links = nesting_links(rows);
    leads_to(&links, child, group)
}

/// How many groups the longest chain below `group` would hold with `child` as
/// a direct member. Where a circle lies below there is no longest chain; the
/// number is then that of some chain and larger than `enough`.
fn depth_below(
    rows: &Vec<MembershipRow>,
    links: &Vec<Link>,
    group: Uuid,
    child: Uuid,
    enough: u64,
) -> (depth: u128)
    requires
        links@ == nesting(rows@),
    ensures
        1 <= depth <= 0x2_0000_0000_0000_0000,
        exists|path: Seq<Uuid>| #[trigger]
            chain_below(rows@, group, child, path) && path.len() == depth,
        depth <= enough || no_circle_around(rows@, group, child) ==> forall|path: Seq<Uuid>|
            #[trigger]
            chain_below(rows@, group, child, path) ==> path.len() <= depth,
{
    let mut start: Vec<Uuid> = Vec::new();
    start.push(child);
    let mut i: usize = 0;
    while i < rows.len()
        invariant
            i <= rows@.len(),
            start@.len() >= 1,
            start@[0] == child,
            forall|node: Uuid| #[trigger]
                start@.contains(node) ==> is_child_or(rows@, group, child, node),
            forall|j: int|
                0 <= j < i && (#[trigger] rows@[j]).group_id == group && rows@[j].member is Group
                    ==> start@.contains(rows@[j].member->Group_0),
        decreases rows@.len() - i,
    {
        let row = rows[i];
        let ghost before = start@;
        if row.group_id == group {
            if let GroupMember::Group(node) = row.member {
                start.push(node);
                proof {
                    assert(rows@[i as int] == (MembershipRow {
                        group_id: group,
                        member: GroupMember::Group(node),
                    }));
                    assert(start@[before.len() as int] == node);
                }
            }
        }
        proof {
            assert forall|node: Uuid| before.contains(node) implies start@.contains(node) by {
                let k = choose|k: int| 0 <= k < before.len() && before[k] == node;
                assert(start@[k] == node);
            }
            assert forall|node: Uuid| #[trigger] start@.contains(node) implies is_child_or(
                rows@,
                group,
                child,
                node,
            ) by {
                let k = choose|k: int| 0 <= k < start@.len() && start@[k] == node;
                if k < before.len() {
                    assert(before[k] == node);
                    assert(before.contains(node));
                }
            }
        }
        i += 1;
    }
    let depth = longest_walk(links, &start, enough);
    proof {
        assert forall|path: Seq<Uuid>|
            #![trigger chain_below(rows@, group, child, path)]
            #![trigger reach::seeded_walk(links@, start@, path)]
            chain_below(rows@, group, child, path) <==> reach::seeded_walk(
                links@,
                start@,
                path,
            ) by {
            if chain_below(rows@, group, child, path) {
                let node = path.first();
                if node == child {
                    assert(start@.contains(child));
                } else {
                    let j = choose|j: int|
                        0 <= j < rows@.len() && rows@[j] == (MembershipRow {
                            group_id: group,
                            member: GroupMember::Group(node),
                        });
                    assert(rows@[j].group_id == group);
                }
            }
        }
        let path = choose|path: Seq<Uuid>| #[trigger]
            reach::seeded_walk(links@, start@, path) && path.len() == depth;
        assert(chain_below(rows@, group, child, path));
        if no_circle_around(rows@, group, child) {
            lemma_chain_below_is_off_circles(rows@, group, child, path);
            reach::lemma_walk_off_circles_is_short(links@, path);
        }
    }
    depth
}

proof fn lemma_chain_below_is_off_circles(
    rows: Seq<MembershipRow>,
    group: Uuid,
    child: Uuid,
    path: Seq<Uuid>,
)
    requires
        chain_below(rows, group, child, path),
        no_circle_around(rows, group, child),
    ensures
        reach::off_circles(nesting(rows), path),
{
    let links = nesting(rows);
    let first = path.first();
    assert forall|i: int| 0 <= i < path.len() implies !#[trigger] reach::reaches(
        links,
        path[i],
        path[i],
    ) by {
        reach::lemma_part_of_walk(links, path, 0, i + 1);
        let part = path.subrange(0, i + 1);
        if first == child {
            assert(reach::walk_between(links, part, child, path[i]));
            assert(reach::connected(links, child, path[i]));
        } else {
            lemma_nesting_link(rows, group, first);
            let step = seq![group, first];
            assert(reach::is_walk(links, step)) by {
                assert forall|k: int| 0 <= k < step.len() - 1 implies #[trigger] reach::link_at(
                    links,
                    step,
                    k,
                ) by {
                    assert(k == 0);
                }
            }
            reach::lemma_join_walks(links, step, part);
            assert(reach::walk_between(links, step + part.drop_first(), group, path[i]));
            assert(reach::connected(links, group, path[i]));
        }
    }
}

/// How many groups the longest chain holds that ends at `group`. Where a circle
/// lies above there is no longest chain; the number is then that of some chain
/// and larger than `enough`.
fn depth_above(rows: &Vec<MembershipRow>, links: &Vec<Link>, group: Uuid, enough: u64) -> (depth:
    u128)
    requires
        links@ == nesting(rows@),
    ensures
        1 <= depth <= 0x2_0000_0000_0000_0000,
        exists|path: Seq<Uuid>| #[trigger] chain_above(rows@, group, path) && path.len() == depth,
        depth <= enough || (forall|node: Uuid|
            reach::connected(links@, node, group) ==> !#[trigger] reach::reaches(
                links@,
                node,
                node,
            )) ==> forall|path: Seq<Uuid>| #[trigger]
            chain_above(rows@, group, path) ==> path.len() <= depth,
{
    let back = turned_links(links);
    let mut start: Vec<Uuid> = Vec::new();
    start.push(group);
    let depth = longest_walk(&back, &start, enough);
    proof {
        assert(start@ =~= seq![group]);
        assert(start@[0] == group);
        assert forall|path: Seq<Uuid>| #[trigger]
            chain_above(rows@, group, path) implies reach::seeded_walk(
            back@,
            start@,
            path.reverse(),
        ) by {
            reach::lemma_turned_walk(links@, path);
        }
        let walk = choose|walk: Seq<Uuid>| #[trigger]
            reach::seeded_walk(back@, start@, walk) && walk.len() == depth;
        let path = walk.reverse();
        assert(path.reverse() =~= walk);
        reach::lemma_turned_walk(links@, path);
        assert(chain_above(rows@, group, path));
        if forall|node: Uuid|
            reach::connected(links@, node, group) ==> !#[trigger] reach::reaches(
                links@,
                node,
                node,
            ) {
            assert forall|i: int| 0 <= i < path.len() implies !#[trigger] reach::reaches(
                links@,
                path[i],
                path[i],
            ) by {
                reach::lemma_part_of_walk(links@, path, i, path.len() as int);
                assert(reach::walk_between(
                    links@,
                    path.subrange(i, path.len() as int),
                    path[i],
                    group,
                ));
                assert(reach::connected(links@, path[i], group));
            }
            reach::lemma_walk_off_circles_is_short(links@, path);
        }
        if depth <= enough || depth <= back@.len() + 1 {
            assert forall|path: Seq<Uuid>| #[trigger]
                chain_above(rows@, group, path) implies path.len() <= depth by {
                assert(reach::seeded_walk(back@, start@, path.reverse()));
                assert(path.reverse().len() == path.len());
            }
        }
    }
    depth
}

/// How many steps from a group to a member the longest chain of nested groups
/// through `group` would take with `child` as a direct member.
///
/// Where there is a circle around there may be no longest chain; the number
/// is then that of some chain and larger than [`MAX_GROUP_DEPTH`].
pub fn depth_with_member(rows: &Vec<MembershipRow>, group: Uuid, child: Uuid) -> (depth: u128)
    ensures
        reaches_depth(rows@, group, child, depth as nat),
        depth <= MAX_GROUP_DEPTH || no_circle_around(rows@, group, child) ==> depth_with(
            rows@,
            group,
            child,
            depth as nat,
        ),
{
    let links = nesting_links(rows);
    let enough: u64 = MAX_GROUP_DEPTH as u64 + 1;
    let above = depth_above(rows, &links, group, enough);
    let below = depth_below(rows, &links, group, child, enough);
    let depth: u128 = (above - 1) + below;
    proof {
        let up = choose|up: Seq<Uuid>| #[trigger]
            chain_above(rows@, group, up) && up.len() == above;
        let down = choose|down: Seq<Uuid>| #[trigger]
            chain_below(rows@, group, child, down) && down.len() == below;
        assert(chain_through(rows@, group, child, up, down));
        if depth <= MAX_GROUP_DEPTH || no_circle_around(rows@, group, child) {
            assert forall|up: Seq<Uuid>, down: Seq<Uuid>| #[trigger]
                chain_through(rows@, group, child, up, down) implies (up.len() - 1) + down.len()
                <= depth by {
                assert(chain_above(rows@, group, up));
                assert(chain_below(rows@, group, child, down));
            }
        }
    }
    depth
}

/// `users` are those who belong to `group`, each once.
pub open spec fn are_transitive_users(
    rows: Seq<MembershipRow>,
    group: Uuid,
    users: Seq<Uuid>,
) -> bool {
    &&& users.no_duplicates()
    &&& forall|user: Uuid| #[trigger] users.contains(user) <==> belongs(rows, group, user)
}

/// `groups` are those that `user` belongs to, each once.
pub open spec fn are_groups_of(rows: Seq<MembershipRow>, user: Uuid, groups: Seq<Uuid>) -> bool {
    &&& groups.no_duplicates()
    &&& forall|group: Uuid| #[trigger] groups.contains(group) <==> lies_above(rows, user, group)
}

/// Every user who belongs to `group`, directly or through nested groups, each
/// once.
pub fn transitive_users(rows: &Vec<MembershipRow>, group: Uuid) -> (users: Vec<Uuid>)
    ensures
        are_transitive_users(rows@, group, users@),
{
    let links = nesting_links(rows);
    let mut start: Vec<Uuid> = Vec::new();
    start.push(group);
    proof {
        assert(start@ =~= seq![group]);
        assert(start@[0] == group);
    }
    let groups = reachable(&links, &start);
    let mut users: Vec<Uuid> = Vec::new();
    let mut i: usize = 0;
    while i < rows.len()
        invariant
            i <= rows@.len(),
            users@.no_duplicates(),
            forall|user: Uuid| #[trigger]
                users@.contains(user) <==> exists|j: int|
                    0 <= j < i && (#[trigger] rows@[j]).member == GroupMember::User(user)
                        && groups@.contains(rows@[j].group_id),
        decreases rows@.len() - i,
    {
        let row = rows[i];
        let ghost before = users@;
        if let GroupMember::User(user) = row.member {
            if is_one_of(&groups, row.group_id) && !is_one_of(&users, user) {
                users.push(user);
            }
        }
        proof {
            assert forall|user: Uuid| #[trigger]
                users@.contains(user) <==> exists|j: int|
                    0 <= j < i + 1 && (#[trigger] rows@[j]).member == GroupMember::User(user)
                        && groups@.contains(rows@[j].group_id) by {
                assert(rows@[i as int] == row);
                if before.contains(user) {
                    let k = choose|k: int| 0 <= k < before.len() && before[k] == user;
                    assert(users@[k] == user);
                    let j = choose|j: int|
                        0 <= j < i && (#[trigger] rows@[j]).member == GroupMember::User(user)
                            && groups@.contains(rows@[j].group_id);
                    assert(rows@[j].member == GroupMember::User(user));
                }
                if row.member == GroupMember::User(user) && groups@.contains(row.group_id) {
                    if !before.contains(user) {
                        assert(users@[before.len() as int] == user);
                    }
                }
                if users@.contains(user) && !before.contains(user) {
                    let k = choose|k: int| 0 <= k < users@.len() && users@[k] == user;
                    if k < before.len() {
                        assert(before[k] == user);
                    }
                }
            }
        }
        i += 1;
    }
    proof {
        assert forall|user: Uuid| #[trigger]
            users@.contains(user) <==> belongs(rows@, group, user) by {
            if users@.contains(user) {
                let j = choose|j: int|
                    0 <= j < i && (#[trigger] rows@[j]).member == GroupMember::User(user)
                        && groups@.contains(rows@[j].group_id);
                let inner = rows@[j].group_id;
                assert(rows@[j] == (MembershipRow {
                    group_id: inner,
                    member: GroupMember::User(user),
                }));
                assert(reach::reachable_from(links@, start@, inner));
                let seed = choose|seed: Uuid|
                    start@.contains(seed) && #[trigger] reach::connected(
                        links@,
                        seed,
                        inner,
                    );
                assert(seed == group);
            }
            if belongs(rows@, group, user) {
                let inner = choose|inner: Uuid|
                    is_direct_member(rows@, inner, GroupMember::User(user))
                        && #[trigger] reach::connected(nesting(rows@), group, inner);
                assert(start@.contains(group));
                assert(reach::reachable_from(links@, start@, inner));
                let j = choose|j: int|
                    0 <= j < rows@.len() && rows@[j] == (MembershipRow {
                        group_id: inner,
                        member: GroupMember::User(user),
                    });
                assert(rows@[j].member == GroupMember::User(user));
            }
        }
    }
    users
}

/// Every group that `user` belongs to, directly or because a group of theirs
/// is nested in it, each once.
pub fn groups_for_user(rows: &Vec<MembershipRow>, user: Uuid) -> (groups: Vec<Uuid>)
    ensures
        are_groups_of(rows@, user, groups@),
{
    let links = nesting_links(rows);
    let back = turned_links(&links);
    let mut start: Vec<Uuid> = Vec::new();
    let mut i: usize = 0;
    while i < rows.len()
        invariant
            i <= rows@.len(),
            forall|group: Uuid| #[trigger]
                start@.contains(group) <==> exists|j: int|
                    0 <= j < i && #[trigger] rows@[j] == (MembershipRow {
                        group_id: group,
                        member: GroupMember::User(user),
                    }),
        decreases rows@.len() - i,
    {
        let row = rows[i];
        let ghost before = start@;
        let mine = match row.member {
            GroupMember::User(member) => member == user,
            GroupMember::Group(_) => false,
        };
        if mine {
            start.push(row.group_id);
        }
        proof {
            assert forall|group: Uuid| #[trigger]
                start@.contains(group) <==> exists|j: int|
                    0 <= j < i + 1 && #[trigger] rows@[j] == (MembershipRow {
                        group_id: group,
                        member: GroupMember::User(user),
                    }) by {
                let wanted = MembershipRow { group_id: group, member: GroupMember::User(user) };
                if before.contains(group) {
                    let k = choose|k: int| 0 <= k < before.len() && before[k] == group;
                    assert(start@[k] == group);
                    let j = choose|j: int| 0 <= j < i && #[trigger] rows@[j] == wanted;
                    assert(rows@[j] == wanted);
                }
                if row == wanted {
                    assert(start@[before.len() as int] == group);
                    assert(rows@[i as int] == wanted);
                }
                if start@.contains(group) && !before.contains(group) {
                    let k = choose|k: int| 0 <= k < start@.len() && start@[k] == group;
                    if k < before.len() {
                        assert(before[k] == group);
                    }
                    assert(rows@[i as int] == wanted);
                }
            }
        }
        i += 1;
    }
    let groups = reachable(&back, &start);
    proof {
        assert forall|group: Uuid| #[trigger]
            groups@.contains(group) <==> lies_above(rows@, user, group) by {
            if groups@.contains(group) {
                let inner = choose|inner: Uuid|
                    start@.contains(inner) && #[trigger] reach::connected(
                        back@,
                        inner,
                        group,
                    );
                assert(is_direct_member(rows@, inner, GroupMember::User(user)));
            }
            if lies_above(rows@, user, group) {
                let inner = choose|inner: Uuid|
                    is_direct_member(rows@, inner, GroupMember::User(user))
                        && #[trigger] reach::connected(
                        reach::turned(nesting(rows@)),
                        inner,
                        group,
                    );
                let j = choose|j: int|
                    0 <= j < rows@.len() && rows@[j] == (MembershipRow {
                        group_id: inner,
                        member: GroupMember::User(user),
                    });
                assert(rows@[j].group_id == inner);
                assert(start@.contains(inner));
                assert(reach::reachable_from(back@, start@, group));
            }
        }
    }
    groups
}

/// Whether `child` may become a direct member of `group`: no circle arises, and
/// no chain of nested groups through `group` takes more than
/// [`MAX_GROUP_DEPTH`] steps, those above `group` included.
pub open spec fn may_nest(rows: Seq<MembershipRow>, group: Uuid, child: Uuid) -> bool {
    &&& child != group
    &&& !reach::reaches(nesting(rows), child, group)
    &&& forall|up: Seq<Uuid>, down: Seq<Uuid>| #[trigger]
        chain_through(rows, group, child, up, down) ==> (up.len() - 1) + down.len()
            <= MAX_GROUP_DEPTH
}

/// The table without the rows that make `member` a direct member of `group`.
pub open spec fn without_member(
    rows: Seq<MembershipRow>,
    group: Uuid,
    member: GroupMember,
) -> Seq<MembershipRow>
    decreases rows.len(),
{
    if rows.len() == 0 {
        Seq::empty()
    } else {
        let before = without_member(rows.drop_last(), group, member);
        if rows.last() == (MembershipRow { group_id: group, member }) {
            before
        } else {
            before.push(rows.last())
        }
    }
}

/// The table with one more row.
pub open spec fn with_member(
    rows: Seq<MembershipRow>,
    group: Uuid,
    member: GroupMember,
) -> Seq<MembershipRow> {
    rows.push(MembershipRow { group_id: group, member })
}

proof fn lemma_nesting_of_more_rows(rows: Seq<MembershipRow>, group: Uuid, member: GroupMember)
    ensures
        nesting(with_member(rows, group, member)) == (match member {
            GroupMember::Group(child) => nesting(rows).push(Link { from: group, to: child }),
            GroupMember::User(_) => nesting(rows),
        }),
{
    assert(with_member(rows, group, member).drop_last() =~= rows);
}

/// Adding a user, or a group that may be nested, to a table without circles
/// leaves it without circles.
pub proof fn law_adding_keeps_groups_well_nested(
    rows: Seq<MembershipRow>,
    group: Uuid,
    member: GroupMember,
)
    requires
        is_well_nested(rows),
        member matches GroupMember::Group(child) ==> may_nest(rows, group, child),
    ensures
        is_well_nested(with_member(rows, group, member)),
{
    lemma_nesting_of_more_rows(rows, group, member);
    if let GroupMember::Group(child) = member {
        reach::law_new_link_keeps_acyclic(nesting(rows), group, child);
    }
}

/// A part of a walk that does not use the new row is a walk without it.
pub proof fn lemma_old_walk(
    rows: Seq<MembershipRow>,
    group: Uuid,
    child: Uuid,
    path: Seq<Uuid>,
    start: int,
    end: int,
)
    requires
        reach::is_walk(nesting(rows).push(Link { from: group, to: child }), path),
        0 <= start < end <= path.len(),
        forall|i: int| start <= i < end - 1 ==> !(path[i] == group && #[trigger] path[i + 1]
            == child),
    ensures
        reach::is_walk(nesting(rows), path.subrange(start, end)),
{
    let more = nesting(rows).push(Link { from: group, to: child });
    let part = path.subrange(start, end);
    assert forall|i: int| 0 <= i < part.len() - 1 implies #[trigger] reach::link_at(
        nesting(rows),
        part,
        i,
    ) by {
        assert(reach::link_at(more, path, start + i));
        assert(part[i] == path[start + i] && part[i + 1] == path[start + i + 1]);
        let link = Link { from: part[i], to: part[i + 1] };
        let k = choose|k: int| 0 <= k < more.len() && more[k] == link;
        assert(!(path[start + i] == group && path[start + i + 1] == child));
        assert(k < nesting(rows).len());
        assert(nesting(rows)[k] == link);
    }
}

/// Where no chain of nested groups is too long, no group is nested in itself.
pub proof fn law_depth_cap_excludes_circles(rows: Seq<MembershipRow>)
    requires
        within_depth_cap(rows),
    ensures
        is_well_nested(rows),
{
    assert forall|node: Uuid| !#[trigger] reach::reaches(nesting(rows), node, node) by {
        if reach::reaches(nesting(rows), node, node) {
            let path = reach::lemma_circle_makes_long_walks(
                nesting(rows),
                node,
                (MAX_GROUP_DEPTH + 1) as nat,
            );
            assert(reach::is_walk(nesting(rows), path));
        }
    }
}

/// Adding a user, or a group that may be nested, keeps the depth cap: where no
/// chain of nested groups took more than [`MAX_GROUP_DEPTH`] steps, none does
/// afterwards.
pub proof fn law_adding_keeps_depth_cap(
    rows: Seq<MembershipRow>,
    group: Uuid,
    member: GroupMember,
)
    requires
        within_depth_cap(rows),
        member matches GroupMember::Group(child) ==> may_nest(rows, group, child),
    ensures
        within_depth_cap(with_member(rows, group, member)),
{
    lemma_nesting_of_more_rows(rows, group, member);
    if let GroupMember::Group(child) = member {
        let more = nesting(with_member(rows, group, member));
        law_depth_cap_excludes_circles(rows);
        law_adding_keeps_groups_well_nested(rows, group, member);
        assert forall|path: Seq<Uuid>| #[trigger] reach::is_walk(more, path) implies path.len() - 1
            <= MAX_GROUP_DEPTH by {
            reach::lemma_acyclic_walk_is_distinct(more, path);
            if exists|i: int| 0 <= i < path.len() - 1 && path[i] == group && #[trigger] path[i + 1]
                == child {
                let i = choose|i: int|
                    0 <= i < path.len() - 1 && path[i] == group && #[trigger] path[i + 1] == child;
                let up = path.subrange(0, i + 1);
                let down = path.subrange(i + 1, path.len() as int);
                lemma_old_walk(rows, group, child, path, 0, i + 1);
                lemma_old_walk(rows, group, child, path, i + 1, path.len() as int);
                assert(chain_through(rows, group, child, up, down));
            } else {
                lemma_old_walk(rows, group, child, path, 0, path.len() as int);
                assert(path.subrange(0, path.len() as int) =~= path);
            }
        }
    }
}

/// A user belongs to a group exactly where the group is among the groups of
/// that user: reading membership downwards and upwards agrees.
pub proof fn law_members_and_groups_agree(rows: Seq<MembershipRow>, group: Uuid, user: Uuid)
    ensures
        belongs(rows, group, user) <==> lies_above(rows, user, group),
{
    if belongs(rows, group, user) {
        let inner = choose|inner: Uuid|
            is_direct_member(rows, inner, GroupMember::User(user))
                && #[trigger] reach::connected(nesting(rows), group, inner);
        reach::law_turned_links_connect_backwards(nesting(rows), group, inner);
    }
    if lies_above(rows, user, group) {
        let inner = choose|inner: Uuid|
            is_direct_member(rows, inner, GroupMember::User(user))
                && #[trigger] reach::connected(
                reach::turned(nesting(rows)),
                inner,
                group,
            );
        reach::law_turned_links_connect_backwards(nesting(rows), group, inner);
    }
}

/// Whoever belongs to a group belongs to every group that holds it.
pub proof fn law_nested_members_belong_to_the_holder(
    rows: Seq<MembershipRow>,
    group: Uuid,
    child: Uuid,
    user: Uuid,
)
    requires
        is_direct_member(rows, group, GroupMember::Group(child)),
        belongs(rows, child, user),
    ensures
        belongs(rows, group, user),
{
    let links = nesting(rows);
    let inner = choose|inner: Uuid|
        is_direct_member(rows, inner, GroupMember::User(user)) && #[trigger] reach::connected(
            links,
            child,
            inner,
        );
    let path = choose|path: Seq<Uuid>| #[trigger]
        reach::walk_between(links, path, child, inner);
    lemma_nesting_link(rows, group, child);
    let step = seq![group, child];
    assert(reach::is_walk(links, step)) by {
        assert forall|i: int| 0 <= i < step.len() - 1 implies #[trigger] reach::link_at(
            links,
            step,
            i,
        ) by {
            assert(i == 0);
        }
    }
    reach::lemma_join_walks(links, step, path);
    assert(reach::walk_between(links, step + path.drop_first(), group, inner));
    assert(reach::connected(links, group, inner));
}

/// A user who was just added to a group belongs to it.
pub proof fn law_added_user_belongs(rows: Seq<MembershipRow>, group: Uuid, user: Uuid)
    ensures
        belongs(with_member(rows, group, GroupMember::User(user)), group, user),
{
    let more = with_member(rows, group, GroupMember::User(user));
    assert(more[rows.len() as int] == (MembershipRow {
        group_id: group,
        member: GroupMember::User(user),
    }));
    assert(reach::walk_between(nesting(more), seq![group], group, group));
    assert(reach::connected(nesting(more), group, group));
}

/// Removing a member that is not there leaves the table as it is.
pub proof fn law_removing_an_absent_member_changes_nothing(
    rows: Seq<MembershipRow>,
    group: Uuid,
    member: GroupMember,
)
    ensures
        !is_direct_member(rows, group, member) ==> without_member(rows, group, member) == rows,
    decreases rows.len(),
{
    if rows.len() > 0 && !is_direct_member(rows, group, member) {
        let less = rows.drop_last();
        assert(!is_direct_member(less, group, member)) by {
            if less.contains(MembershipRow { group_id: group, member }) {
                let k = choose|k: int|
                    0 <= k < less.len() && less[k] == (MembershipRow { group_id: group, member });
                assert(rows[k] == less[k]);
            }
        }
        law_removing_an_absent_member_changes_nothing(less, group, member);
        assert(rows[rows.len() - 1] == rows.last());
        assert(less.push(rows.last()) =~= rows);
    }
}

/// Removing a member that was just added restores the table.
pub proof fn law_removing_undoes_adding(
    rows: Seq<MembershipRow>,
    group: Uuid,
    member: GroupMember,
)
    requires
        !is_direct_member(rows, group, member),
    ensures
        without_member(with_member(rows, group, member), group, member) == rows,
{
    assert(with_member(rows, group, member).drop_last() =~= rows);
    law_removing_an_absent_member_changes_nothing(rows, group, member);
}

proof fn lemma_nesting_without_member(rows: Seq<MembershipRow>, group: Uuid, member: GroupMember)
    ensures
        reach::links_within(nesting(without_member(rows, group, member)), nesting(rows)),
    decreases rows.len(),
{
    let less = without_member(rows, group, member);
    assert forall|link: Link| nesting(less).contains(link) implies #[trigger] nesting(
        rows,
    ).contains(link) by {
        lemma_nesting_link(less, link.from, link.to);
        lemma_nesting_link(rows, link.from, link.to);
        let row = MembershipRow { group_id: link.from, member: GroupMember::Group(link.to) };
        lemma_without_member_keeps_only_rows(rows, group, member, row);
    }
}

proof fn lemma_without_member_keeps_only_rows(
    rows: Seq<MembershipRow>,
    group: Uuid,
    member: GroupMember,
    row: MembershipRow,
)
    requires
        without_member(rows, group, member).contains(row),
    ensures
        rows.contains(row),
    decreases rows.len(),
{
    if rows.len() > 0 {
        let before = without_member(rows.drop_last(), group, member);
        let kept = without_member(rows, group, member);
        let k = choose|k: int| 0 <= k < kept.len() && kept[k] == row;
        if k < before.len() {
            assert(before[k] == row);
            lemma_without_member_keeps_only_rows(rows.drop_last(), group, member, row);
            let j = choose|j: int| 0 <= j < rows.drop_last().len() && rows.drop_last()[j] == row;
            assert(rows[j] == row);
        } else {
            assert(rows[rows.len() - 1] == row);
        }
    }
}

proof fn lemma_without_member_has_row(
    rows: Seq<MembershipRow>,
    group: Uuid,
    member: GroupMember,
    row: MembershipRow,
)
    ensures
        without_member(rows, group, member).contains(row) <==> rows.contains(row) && row != (
        MembershipRow { group_id: group, member }),
    decreases rows.len(),
{
    let gone = MembershipRow { group_id: group, member };
    if rows.len() > 0 {
        let less = rows.drop_last();
        let before = without_member(less, group, member);
        let kept = without_member(rows, group, member);
        lemma_without_member_has_row(less, group, member, row);
        if kept.contains(row) {
            lemma_without_member_keeps_only_rows(rows, group, member, row);
            let k = choose|k: int| 0 <= k < kept.len() && kept[k] == row;
            if k < before.len() {
                assert(before[k] == row);
                assert(before.contains(row));
            }
        }
        if rows.contains(row) && row != gone {
            let k = choose|k: int| 0 <= k < rows.len() && rows[k] == row;
            if k < rows.len() - 1 {
                assert(less[k] == row);
                let j = choose|j: int| 0 <= j < before.len() && before[j] == row;
                assert(kept[j] == row);
            } else {
                assert(kept[kept.len() - 1] == row);
            }
        }
    }
}

/// Removing a member takes that membership out of the table and no other.
pub proof fn law_removing_drops_that_member_only(
    rows: Seq<MembershipRow>,
    group: Uuid,
    member: GroupMember,
    other_group: Uuid,
    other: GroupMember,
)
    ensures
        !is_direct_member(without_member(rows, group, member), group, member),
        (other_group != group || other != member) ==> (is_direct_member(
            without_member(rows, group, member),
            other_group,
            other,
        ) <==> is_direct_member(rows, other_group, other)),
{
    lemma_without_member_has_row(
        rows,
        group,
        member,
        MembershipRow { group_id: group, member },
    );
    lemma_without_member_has_row(
        rows,
        group,
        member,
        MembershipRow { group_id: other_group, member: other },
    );
}

/// Removing a member makes the table shorter exactly where it was one. A table
/// that holds no row twice loses one row then, and still holds none twice.
pub proof fn law_removing_takes_out_rows(
    rows: Seq<MembershipRow>,
    group: Uuid,
    member: GroupMember,
)
    ensures
        without_member(rows, group, member).len() <= rows.len(),
        without_member(rows, group, member).len() < rows.len() <==> is_direct_member(
            rows,
            group,
            member,
        ),
        rows.no_duplicates() ==> {
            &&& without_member(rows, group, member).no_duplicates()
            &&& rows.len() - without_member(rows, group, member).len() <= 1
        },
    decreases rows.len(),
{
    let gone = MembershipRow { group_id: group, member };
    if !is_direct_member(rows, group, member) {
        law_removing_an_absent_member_changes_nothing(rows, group, member);
    } else {
        let less = rows.drop_last();
        let before = without_member(less, group, member);
        law_removing_takes_out_rows(less, group, member);
        let k = choose|k: int| 0 <= k < rows.len() && rows[k] == gone;
        if rows.last() != gone {
            assert(less[k] == gone);
        }
        if rows.no_duplicates() {
            assert(less.no_duplicates());
            if rows.last() == gone {
                if is_direct_member(less, group, member) {
                    let j = choose|j: int| 0 <= j < less.len() && less[j] == gone;
                    assert(rows[j] == rows[rows.len() - 1]);
                }
            } else if before.contains(rows.last()) {
                lemma_without_member_keeps_only_rows(less, group, member, rows.last());
                let j = choose|j: int| 0 <= j < less.len() && less[j] == rows.last();
                assert(rows[j] == rows[rows.len() - 1]);
            }
        }
    }
}

/// Removing a member keeps the depth cap.
pub proof fn law_removing_keeps_depth_cap(
    rows: Seq<MembershipRow>,
    group: Uuid,
    member: GroupMember,
)
    requires
        within_depth_cap(rows),
    ensures
        within_depth_cap(without_member(rows, group, member)),
{
    let less = nesting(without_member(rows, group, member));
    lemma_nesting_without_member(rows, group, member);
    assert forall|path: Seq<Uuid>| #[trigger] reach::is_walk(less, path) implies path.len() - 1
        <= MAX_GROUP_DEPTH by {
        reach::lemma_walk_grows(less, nesting(rows), path);
    }
}

/// Removing a member leaves a table without circles without circles.
pub proof fn law_removing_keeps_groups_well_nested(
    rows: Seq<MembershipRow>,
    group: Uuid,
    member: GroupMember,
)
    requires
        is_well_nested(rows),
    ensures
        is_well_nested(without_member(rows, group, member)),
{
    let less = nesting(without_member(rows, group, member));
    lemma_nesting_without_member(rows, group, member);
    assert forall|node: Uuid| !#[trigger] reach::reaches(less, node, node) by {
        if reach::reaches(less, node, node) {
            let path = choose|path: Seq<Uuid>|
                path.len() >= 2 && #[trigger] reach::walk_between(less, path, node, node);
            reach::lemma_walk_grows(less, nesting(rows), path);
            assert(reach::walk_between(nesting(rows), path, node, node));
            assert(reach::reaches(nesting(rows), node, node));
        }
    }
}

/// A table whose rows are all in another keeps the rules on nesting that hold
/// of the other.
pub proof fn law_fewer_rows_keep_the_rules(rows: Seq<MembershipRow>, fewer: Seq<MembershipRow>)
    requires
        forall|row: MembershipRow| #[trigger] fewer.contains(row) ==> rows.contains(row),
    ensures
        is_well_nested(rows) ==> is_well_nested(fewer),
        within_depth_cap(rows) ==> within_depth_cap(fewer),
{
    let less = nesting(fewer);
    assert forall|link: Link| less.contains(link) implies #[trigger] nesting(rows).contains(
        link,
    ) by {
        lemma_nesting_link(fewer, link.from, link.to);
        lemma_nesting_link(rows, link.from, link.to);
        assert(fewer.contains(
            MembershipRow { group_id: link.from, member: GroupMember::Group(link.to) },
        ));
    }
    if is_well_nested(rows) {
        assert forall|node: Uuid| !#[trigger] reach::reaches(less, node, node) by {
            if reach::reaches(less, node, node) {
                let path = choose|path: Seq<Uuid>|
                    path.len() >= 2 && #[trigger] reach::walk_between(less, path, node, node);
                reach::lemma_walk_grows(less, nesting(rows), path);
                assert(reach::walk_between(nesting(rows), path, node, node));
                assert(reach::reaches(nesting(rows), node, node));
            }
        }
    }
    if within_depth_cap(rows) {
        assert forall|path: Seq<Uuid>| #[trigger] reach::is_walk(less, path) implies path.len() - 1
            <= MAX_GROUP_DEPTH by {
            reach::lemma_walk_grows(less, nesting(rows), path);
        }
    }
}

} // verus!
