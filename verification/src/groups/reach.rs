//! Walks along directed links between identifiers.
//!
//! Nested groups form a directed graph. This module says what it means to
//! reach one node from another, computes what can be reached, and measures
//! the longest walk.

use vstd::prelude::*;

use crate::identifier::Uuid;

verus! {

/// One directed link.
#[derive(Clone, Copy, PartialEq, Eq, Structural, Debug)]
pub struct Link {
    pub from: Uuid,
    pub to: Uuid,
}

/// `links` holds a link from `from` to `to`.
pub open spec fn has_link(links: Seq<Link>, from: Uuid, to: Uuid) -> bool {
    links.contains(Link { from, to })
}

/// The step of `path` that leaves position `i` follows a link.
pub open spec fn link_at(links: Seq<Link>, path: Seq<Uuid>, i: int) -> bool {
    has_link(links, path[i], path[i + 1])
}

/// `path` is not empty and each of its steps follows a link.
pub open spec fn is_walk(links: Seq<Link>, path: Seq<Uuid>) -> bool {
    &&& path.len() >= 1
    &&& forall|i: int| 0 <= i < path.len() - 1 ==> #[trigger] link_at(links, path, i)
}

/// `path` is a walk that starts at `from` and ends at `to`.
pub open spec fn walk_between(links: Seq<Link>, path: Seq<Uuid>, from: Uuid, to: Uuid) -> bool {
    is_walk(links, path) && path.first() == from && path.last() == to
}

/// Some walk of any length, zero steps included, leads from `from` to `to`.
pub open spec fn connected(links: Seq<Link>, from: Uuid, to: Uuid) -> bool {
    exists|path: Seq<Uuid>| #[trigger] walk_between(links, path, from, to)
}

/// Some walk of at least one step leads from `from` to `to`.
pub open spec fn reaches(links: Seq<Link>, from: Uuid, to: Uuid) -> bool {
    exists|path: Seq<Uuid>| path.len() >= 2 && #[trigger] walk_between(links, path, from, to)
}

/// No walk of at least one step returns to where it started.
pub open spec fn acyclic(links: Seq<Link>) -> bool {
    forall|node: Uuid| !#[trigger] reaches(links, node, node)
}

/// Some member of `seeds` is connected to `node`.
pub open spec fn reachable_from(links: Seq<Link>, seeds: Seq<Uuid>, node: Uuid) -> bool {
    exists|seed: Uuid| seeds.contains(seed) && #[trigger] connected(links, seed, node)
}

/// `path` is a walk that starts at a member of `seeds`.
pub open spec fn seeded_walk(links: Seq<Link>, seeds: Seq<Uuid>, path: Seq<Uuid>) -> bool {
    is_walk(links, path) && seeds.contains(path.first())
}

/// The longest walk that starts at a member of `seeds` visits `depth` nodes.
pub open spec fn longest_walk_is(links: Seq<Link>, seeds: Seq<Uuid>, depth: nat) -> bool {
    &&& exists|path: Seq<Uuid>| #[trigger] seeded_walk(links, seeds, path) && path.len() == depth
    &&& forall|path: Seq<Uuid>| #[trigger]
        seeded_walk(links, seeds, path) ==> path.len() <= depth
}

/// Every link of `less` is a link of `more`.
pub open spec fn links_within(less: Seq<Link>, more: Seq<Link>) -> bool {
    forall|link: Link| less.contains(link) ==> #[trigger] more.contains(link)
}

/// A walk stays a walk where links are added.
pub proof fn lemma_walk_grows(less: Seq<Link>, more: Seq<Link>, path: Seq<Uuid>)
    requires
        links_within(less, more),
        is_walk(less, path),
    ensures
        is_walk(more, path),
{
    assert forall|i: int| 0 <= i < path.len() - 1 implies #[trigger] link_at(more, path, i) by {
        assert(link_at(less, path, i));
    }
}

/// A contiguous part of a walk is a walk.
pub proof fn lemma_part_of_walk(links: Seq<Link>, path: Seq<Uuid>, start: int, end: int)
    requires
        is_walk(links, path),
        0 <= start < end <= path.len(),
    ensures
        is_walk(links, path.subrange(start, end)),
        path.subrange(start, end).first() == path[start],
        path.subrange(start, end).last() == path[end - 1],
{
    let part = path.subrange(start, end);
    assert forall|i: int| 0 <= i < part.len() - 1 implies #[trigger] link_at(links, part, i) by {
        assert(link_at(links, path, start + i));
        assert(part[i] == path[start + i]);
        assert(part[i + 1] == path[start + i + 1]);
    }
}

/// Two walks that meet join into one.
pub proof fn lemma_join_walks(links: Seq<Link>, first: Seq<Uuid>, second: Seq<Uuid>)
    requires
        is_walk(links, first),
        is_walk(links, second),
        first.last() == second.first(),
    ensures
        is_walk(links, first + second.drop_first()),
        (first + second.drop_first()).first() == first.first(),
        (first + second.drop_first()).last() == second.last(),
        (first + second.drop_first()).len() == first.len() + second.len() - 1,
{
    let whole = first + second.drop_first();
    assert forall|i: int| 0 <= i < whole.len() - 1 implies #[trigger] link_at(links, whole, i) by {
        if i < first.len() - 1 {
            assert(link_at(links, first, i));
        } else {
            let j = i - (first.len() - 1);
            assert(link_at(links, second, j));
            assert(whole[i] == second[j]);
            assert(whole[i + 1] == second[j + 1]);
        }
    }
    if second.len() == 1 {
        assert(whole =~= first);
    } else {
        assert(whole.last() == second.last());
    }
}

/// A walk can be extended by a link that leaves its end.
pub proof fn lemma_extend_walk(links: Seq<Link>, path: Seq<Uuid>, to: Uuid)
    requires
        is_walk(links, path),
        has_link(links, path.last(), to),
    ensures
        is_walk(links, path.push(to)),
        path.push(to).first() == path.first(),
        path.push(to).last() == to,
{
    let longer = path.push(to);
    assert forall|i: int| 0 <= i < longer.len() - 1 implies #[trigger] link_at(links, longer, i) by {
        if i < path.len() - 1 {
            assert(link_at(links, path, i));
        }
    }
}

/// A sequence without duplicates is no longer than one that holds all its members.
proof fn lemma_distinct_within<A>(distinct: Seq<A>, all: Seq<A>)
    requires
        distinct.no_duplicates(),
        forall|x: A| distinct.contains(x) ==> #[trigger] all.contains(x),
    ensures
        distinct.len() <= all.len(),
{
    distinct.unique_seq_to_set();
    all.lemma_cardinality_of_set();
    assert(distinct.to_set().subset_of(all.to_set()));
    vstd::set_lib::lemma_len_subset(distinct.to_set(), all.to_set());
}

/// The nodes at which the links end.
pub open spec fn link_ends(links: Seq<Link>) -> Seq<Uuid> {
    links.map_values(|link: Link| link.to)
}

proof fn lemma_link_ends(links: Seq<Link>, from: Uuid, to: Uuid)
    requires
        has_link(links, from, to),
    ensures
        link_ends(links).contains(to),
{
    let k = choose|k: int| 0 <= k < links.len() && links[k] == (Link { from, to });
    assert(link_ends(links)[k] == to);
}

/// Whether `node` is one of `nodes`.
pub fn is_one_of(nodes: &Vec<Uuid>, node: Uuid) -> (found: bool)
    ensures
        found == nodes@.contains(node),
{
    let mut i: usize = 0;
    while i < nodes.len()
        invariant
            i <= nodes@.len(),
            forall|j: int| 0 <= j < i ==> nodes@[j] != node,
        decreases nodes@.len() - i,
    {
        if nodes[i] == node {
            return true;
        }
        i += 1;
    }
    false
}

/// The members of `nodes`, each once, in the order of their first appearance.
fn distinct(nodes: &Vec<Uuid>) -> (kept: Vec<Uuid>)
    ensures
        kept@.no_duplicates(),
        forall|node: Uuid| kept@.contains(node) <==> nodes@.contains(node),
{
    let mut kept: Vec<Uuid> = Vec::new();
    let mut i: usize = 0;
    while i < nodes.len()
        invariant
            i <= nodes@.len(),
            kept@.no_duplicates(),
            forall|node: Uuid| kept@.contains(node) <==> nodes@.take(i as int).contains(node),
        decreases nodes@.len() - i,
    {
        let ghost before = kept@;
        let node = nodes[i];
        if !is_one_of(&kept, node) {
            kept.push(node);
        }
        proof {
            lemma_push_contains(nodes@.take(i as int), node);
            lemma_push_contains(before, node);
            assert(nodes@.take(i + 1) =~= nodes@.take(i as int).push(node));
        }
        i += 1;
    }
    proof {
        assert(nodes@.take(i as int) =~= nodes@);
    }
    kept
}

proof fn lemma_push_contains<A>(s: Seq<A>, x: A)
    ensures
        forall|y: A| #[trigger] s.push(x).contains(y) <==> s.contains(y) || y == x,
{
    assert forall|y: A| #[trigger] s.push(x).contains(y) <==> s.contains(y) || y == x by {
        if s.contains(y) {
            let k = choose|k: int| 0 <= k < s.len() && s[k] == y;
            assert(s.push(x)[k] == y);
        }
        if y == x {
            assert(s.push(x)[s.len() as int] == y);
        }
    }
}

/// Every walk that starts in a set closed under links stays in it.
proof fn lemma_closed_set_holds_walks(links: Seq<Link>, closed: Seq<Uuid>, path: Seq<Uuid>)
    requires
        forall|a: Uuid, b: Uuid| closed.contains(a) && #[trigger] has_link(links, a, b)
            ==> closed.contains(b),
        is_walk(links, path),
        closed.contains(path.first()),
    ensures
        closed.contains(path.last()),
    decreases path.len(),
{
    if path.len() > 1 {
        lemma_part_of_walk(links, path, 0, path.len() - 1);
        let shorter = path.subrange(0, path.len() - 1);
        lemma_closed_set_holds_walks(links, closed, shorter);
        assert(link_at(links, path, path.len() - 2));
        assert(has_link(links, shorter.last(), path.last()));
    }
}

/// Everything that can be reached from `seeds`, the seeds included, each node
/// once.
pub fn reachable(links: &Vec<Link>, seeds: &Vec<Uuid>) -> (seen: Vec<Uuid>)
    ensures
        seen@.no_duplicates(),
        forall|node: Uuid| #[trigger]
            seen@.contains(node) <==> reachable_from(links@, seeds@, node),
{
    let mut seen: Vec<Uuid> = distinct(seeds);
    let ghost all = seeds@ + link_ends(links@);
    proof {
        assert forall|node: Uuid| #[trigger] seen@.contains(node) implies reachable_from(
            links@,
            seeds@,
            node,
        ) && all.contains(node) by {
            assert(walk_between(links@, seq![node], node, node));
            assert(connected(links@, node, node));
            let k = choose|k: int| 0 <= k < seeds@.len() && seeds@[k] == node;
            assert(all[k] == node);
        }
        lemma_distinct_within(seen@, all);
    }
    let mut next: usize = 0;
    while next < seen.len()
        invariant
            next <= seen@.len() <= all.len(),
            all == seeds@ + link_ends(links@),
            seen@.no_duplicates(),
            forall|node: Uuid| #[trigger]
                seen@.contains(node) ==> reachable_from(links@, seeds@, node) && all.contains(node),
            forall|node: Uuid| seeds@.contains(node) ==> #[trigger] seen@.contains(node),
            forall|j: int, b: Uuid|
                0 <= j < next && #[trigger] has_link(links@, #[trigger] seen@[j], b)
                    ==> seen@.contains(b),
        decreases all.len() - next,
    {
        let node = seen[next];
        let mut k: usize = 0;
        while k < links.len()
            invariant
                next < seen@.len() <= all.len(),
                node == seen@[next as int],
                k <= links@.len(),
                all == seeds@ + link_ends(links@),
                seen@.no_duplicates(),
                forall|node: Uuid| #[trigger]
                    seen@.contains(node) ==> reachable_from(links@, seeds@, node) && all.contains(
                        node,
                    ),
                forall|node: Uuid| seeds@.contains(node) ==> #[trigger] seen@.contains(node),
                forall|j: int, b: Uuid|
                    0 <= j < next && #[trigger] has_link(links@, #[trigger] seen@[j], b)
                        ==> seen@.contains(b),
                forall|j: int|
                    0 <= j < k && (#[trigger] links@[j]).from == node ==> seen@.contains(
                        links@[j].to,
                    ),
            decreases links@.len() - k,
        {
            let link = links[k];
            if link.from == node && !is_one_of(&seen, link.to) {
                let ghost before = seen@;
                seen.push(link.to);
                proof {
                    lemma_push_contains(before, link.to);
                    assert(has_link(links@, node, link.to)) by {
                        assert(links@[k as int] == link);
                    }
                    lemma_link_ends(links@, node, link.to);
                    let e = choose|e: int|
                        0 <= e < link_ends(links@).len() && link_ends(links@)[e] == link.to;
                    assert(all[seeds@.len() + e] == link.to);
                    assert(before.contains(node)) by {
                        assert(before[next as int] == node);
                    }
                    let seed = choose|seed: Uuid|
                        seeds@.contains(seed) && #[trigger] connected(links@, seed, node);
                    let path = choose|path: Seq<Uuid>| #[trigger]
                        walk_between(links@, path, seed, node);
                    lemma_extend_walk(links@, path, link.to);
                    assert(walk_between(links@, path.push(link.to), seed, link.to));
                    assert(connected(links@, seed, link.to));
                    assert(reachable_from(links@, seeds@, link.to));
                    lemma_distinct_within(seen@, all);
                    assert forall|j: int, b: Uuid|
                        0 <= j < next && #[trigger] has_link(
                            links@,
                            #[trigger] seen@[j],
                            b,
                        ) implies seen@.contains(b) by {
                        assert(seen@[j] == before[j]);
                        assert(before.contains(b));
                    }
                }
            }
            k += 1;
        }
        proof {
            assert forall|j: int, b: Uuid|
                0 <= j < next + 1 && #[trigger] has_link(
                    links@,
                    #[trigger] seen@[j],
                    b,
                ) implies seen@.contains(b) by {
                if j == next {
                    let e = choose|e: int|
                        0 <= e < links@.len() && links@[e] == (Link { from: node, to: b });
                    assert(links@[e].from == node);
                }
            }
        }
        next += 1;
    }
    proof {
        assert forall|node: Uuid| reachable_from(links@, seeds@, node) implies #[trigger] seen@.contains(
            node,
        ) by {
            let seed = choose|seed: Uuid|
                seeds@.contains(seed) && #[trigger] connected(links@, seed, node);
            let path = choose|path: Seq<Uuid>| #[trigger] walk_between(links@, path, seed, node);
            assert forall|a: Uuid, b: Uuid|
                seen@.contains(a) && #[trigger] has_link(links@, a, b) implies seen@.contains(b) by {
                let j = choose|j: int| 0 <= j < seen@.len() && seen@[j] == a;
                assert(has_link(links@, seen@[j], b));
            }
            lemma_closed_set_holds_walks(links@, seen@, path);
        }
    }
    seen
}

/// A link leads from one of `nodes` to `to`.
pub open spec fn is_successor(links: Seq<Link>, nodes: Seq<Uuid>, to: Uuid) -> bool {
    exists|from: Uuid| nodes.contains(from) && #[trigger] has_link(links, from, to)
}

/// The nodes one link away from `nodes`, each once.
pub fn successors(links: &Vec<Link>, nodes: &Vec<Uuid>) -> (next: Vec<Uuid>)
    ensures
        next@.no_duplicates(),
        forall|to: Uuid| #[trigger] next@.contains(to) <==> is_successor(links@, nodes@, to),
{
    let mut ends: Vec<Uuid> = Vec::new();
    let mut k: usize = 0;
    while k < links.len()
        invariant
            k <= links@.len(),
            forall|to: Uuid| #[trigger]
                ends@.contains(to) <==> exists|j: int|
                    0 <= j < k && (#[trigger] links@[j]).to == to && nodes@.contains(
                        links@[j].from,
                    ),
        decreases links@.len() - k,
    {
        let ghost before = ends@;
        let link = links[k];
        if is_one_of(nodes, link.from) {
            ends.push(link.to);
        }
        proof {
            lemma_push_contains(before, link.to);
            assert forall|to: Uuid| #[trigger]
                ends@.contains(to) <==> exists|j: int|
                    0 <= j < k + 1 && (#[trigger] links@[j]).to == to && nodes@.contains(
                        links@[j].from,
                    ) by {
                if before.contains(to) {
                    let j = choose|j: int|
                        0 <= j < k && (#[trigger] links@[j]).to == to && nodes@.contains(
                            links@[j].from,
                        );
                    assert(links@[j].to == to);
                    assert(ends@.contains(to));
                }
                if link.to == to && nodes@.contains(link.from) {
                    assert(links@[k as int].to == to);
                }
            }
        }
        k += 1;
    }
    let next = distinct(&ends);
    proof {
        assert forall|to: Uuid| #[trigger]
            next@.contains(to) <==> exists|from: Uuid|
                nodes@.contains(from) && #[trigger] has_link(links@, from, to) by {
            assert(next@.contains(to) <==> ends@.contains(to));
            if ends@.contains(to) {
                let j = choose|j: int|
                    0 <= j < k && (#[trigger] links@[j]).to == to && nodes@.contains(
                        links@[j].from,
                    );
                assert(links@[j] == (Link { from: links@[j].from, to }));
                assert(has_link(links@, links@[j].from, to));
            }
            if exists|from: Uuid| nodes@.contains(from) && #[trigger] has_link(links@, from, to) {
                let from = choose|from: Uuid|
                    nodes@.contains(from) && #[trigger] has_link(links@, from, to);
                let j = choose|j: int| 0 <= j < links@.len() && links@[j] == (Link { from, to });
                assert(links@[j].to == to);
            }
        }
    }
    next
}

/// Whether some walk of at least one step leads from `from` to `to`.
pub fn leads_to(links: &Vec<Link>, from: Uuid, to: Uuid) -> (found: bool)
    ensures
        found == reaches(links@, from, to),
{
    let mut start: Vec<Uuid> = Vec::new();
    start.push(from);
    let first = successors(links, &start);
    let below = reachable(links, &first);
    let found = is_one_of(&below, to);
    proof {
        assert(start@ =~= seq![from]);
        assert(start@[0] == from);
        if found {
            let seed = choose|seed: Uuid|
                first@.contains(seed) && #[trigger] connected(links@, seed, to);
            let path = choose|path: Seq<Uuid>| #[trigger] walk_between(links@, path, seed, to);
            assert(has_link(links@, from, seed));
            let step = seq![from, seed];
            assert(is_walk(links@, step)) by {
                assert forall|i: int| 0 <= i < step.len() - 1 implies #[trigger] link_at(
                    links@,
                    step,
                    i,
                ) by {
                    assert(i == 0);
                }
            }
            lemma_join_walks(links@, step, path);
            assert(walk_between(links@, step + path.drop_first(), from, to));
        }
        if reaches(links@, from, to) {
            let path = choose|path: Seq<Uuid>|
                path.len() >= 2 && #[trigger] walk_between(links@, path, from, to);
            assert(link_at(links@, path, 0));
            assert(first@.contains(path[1]));
            lemma_part_of_walk(links@, path, 1, path.len() as int);
            assert(walk_between(links@, path.subrange(1, path.len() as int), path[1], to));
            assert(connected(links@, path[1], to));
            assert(reachable_from(links@, first@, to));
        }
    }
    found
}

/// No node of `path` can be reached from itself.
pub open spec fn off_circles(links: Seq<Link>, path: Seq<Uuid>) -> bool {
    forall|i: int| 0 <= i < path.len() ==> !#[trigger] reaches(links, path[i], path[i])
}

/// A walk off all circles visits no node twice.
proof fn lemma_walk_off_circles_is_distinct(links: Seq<Link>, path: Seq<Uuid>)
    requires
        is_walk(links, path),
        off_circles(links, path),
    ensures
        path.no_duplicates(),
{
    assert forall|i: int, j: int| 0 <= i < j < path.len() implies path[i] != path[j] by {
        if path[i] == path[j] {
            lemma_part_of_walk(links, path, i, j + 1);
            assert(walk_between(links, path.subrange(i, j + 1), path[i], path[i]));
            assert(reaches(links, path[i], path[i]));
        }
    }
}

/// In an acyclic graph no walk visits a node twice.
pub proof fn lemma_acyclic_walk_is_distinct(links: Seq<Link>, path: Seq<Uuid>)
    requires
        acyclic(links),
        is_walk(links, path),
    ensures
        path.no_duplicates(),
{
    lemma_walk_off_circles_is_distinct(links, path);
}

/// A walk off all circles takes no more steps than there are links.
pub proof fn lemma_walk_off_circles_is_short(links: Seq<Link>, path: Seq<Uuid>)
    requires
        is_walk(links, path),
        off_circles(links, path),
    ensures
        path.len() <= links.len() + 1,
{
    lemma_walk_off_circles_is_distinct(links, path);
    let rest = path.drop_first();
    assert forall|node: Uuid| rest.contains(node) implies #[trigger] link_ends(links).contains(
        node,
    ) by {
        let i = choose|i: int| 0 <= i < rest.len() && rest[i] == node;
        assert(link_at(links, path, i));
        lemma_link_ends(links, path[i], path[i + 1]);
    }
    lemma_distinct_within(rest, link_ends(links));
}

/// A walk that returns to its start can be repeated.
pub proof fn lemma_circle_makes_long_walks(links: Seq<Link>, node: Uuid, len: nat) -> (path: Seq<
    Uuid,
>)
    requires
        reaches(links, node, node),
    ensures
        walk_between(links, path, node, node),
        path.len() > len,
    decreases len,
{
    let circle = choose|circle: Seq<Uuid>|
        circle.len() >= 2 && #[trigger] walk_between(links, circle, node, node);
    if len == 0 {
        circle
    } else {
        let shorter = lemma_circle_makes_long_walks(links, node, (len - 1) as nat);
        lemma_join_walks(links, shorter, circle);
        shorter + circle.drop_first()
    }
}

/// `node` ends a walk of `len` nodes that starts in `seeds`.
spec fn ends_walk_of(links: Seq<Link>, seeds: Seq<Uuid>, len: nat, node: Uuid) -> bool {
    exists|path: Seq<Uuid>| #[trigger]
        seeded_walk(links, seeds, path) && path.len() == len && path.last() == node
}

/// How many nodes the longest walk visits that starts in `seeds`.
///
/// Where circles can be reached there is no longest walk. The number is then
/// that of some walk, and it is larger than `enough` and than the number of
/// links allows for walks off all circles.
pub fn longest_walk(links: &Vec<Link>, seeds: &Vec<Uuid>, enough: u64) -> (depth: u128)
    requires
        seeds@.len() > 0,
    ensures
        1 <= depth <= 0x2_0000_0000_0000_0000,
        exists|path: Seq<Uuid>| #[trigger]
            seeded_walk(links@, seeds@, path) && path.len() == depth,
        depth <= enough || depth <= links@.len() + 1 ==> longest_walk_is(
            links@,
            seeds@,
            depth as nat,
        ),
{
    let mut level: Vec<Uuid> = distinct(seeds);
    let mut depth: u128 = 1;
    proof {
        assert forall|node: Uuid| #[trigger]
            level@.contains(node) <==> ends_walk_of(links@, seeds@, 1, node) by {
            if level@.contains(node) {
                assert(seeded_walk(links@, seeds@, seq![node]));
            }
            if ends_walk_of(links@, seeds@, 1, node) {
                let path = choose|path: Seq<Uuid>| #[trigger]
                    seeded_walk(links@, seeds@, path) && path.len() == 1 && path.last() == node;
                assert(path.first() == node);
            }
        }
        assert(seeds@.contains(seeds@[0]));
        assert(level@.contains(seeds@[0]));
    }
    let limit: u128 = if links.len() as u128 + 1 < enough as u128 {
        enough as u128
    } else {
        links.len() as u128 + 1
    };
    loop
        invariant
            limit >= links@.len() + 1,
            limit >= enough,
            limit <= 0x1_0000_0000_0000_0000,
            1 <= depth <= limit + 1,
            level@.len() > 0,
            forall|node: Uuid| #[trigger]
                level@.contains(node) <==> ends_walk_of(links@, seeds@, depth as nat, node),
        ensures
            1 <= depth <= limit + 1,
            exists|path: Seq<Uuid>| #[trigger]
                seeded_walk(links@, seeds@, path) && path.len() == depth,
            depth <= limit ==> longest_walk_is(links@, seeds@, depth as nat),
        decreases limit + 1 - depth,
    {
        let next = successors(links, &level);
        proof {
            assert(level@.contains(level@[0]));
            assert forall|node: Uuid| #[trigger]
                next@.contains(node) <==> ends_walk_of(
                    links@,
                    seeds@,
                    (depth + 1) as nat,
                    node,
                ) by {
                if next@.contains(node) {
                    let from = choose|from: Uuid|
                        level@.contains(from) && #[trigger] has_link(links@, from, node);
                    let path = choose|path: Seq<Uuid>| #[trigger]
                        seeded_walk(links@, seeds@, path) && path.len() == depth && path.last()
                            == from;
                    lemma_extend_walk(links@, path, node);
                    assert(seeded_walk(links@, seeds@, path.push(node)));
                }
                if ends_walk_of(links@, seeds@, (depth + 1) as nat, node) {
                    let path = choose|path: Seq<Uuid>| #[trigger]
                        seeded_walk(links@, seeds@, path) && path.len() == depth + 1 && path.last()
                            == node;
                    lemma_part_of_walk(links@, path, 0, path.len() - 1);
                    let shorter = path.subrange(0, path.len() - 1);
                    assert(seeded_walk(links@, seeds@, shorter));
                    assert(link_at(links@, path, path.len() - 2));
                    assert(level@.contains(shorter.last()));
                    assert(has_link(links@, shorter.last(), node));
                }
            }
        }
        if next.len() == 0 || depth > limit {
            proof {
                if next@.len() == 0 {
                    assert forall|path: Seq<Uuid>| #[trigger]
                        seeded_walk(links@, seeds@, path) implies path.len() <= depth by {
                        if path.len() > depth {
                            lemma_part_of_walk(links@, path, 0, depth + 1);
                            let part = path.subrange(0, depth + 1);
                            assert(seeded_walk(links@, seeds@, part));
                            assert(next@.contains(part.last()));
                        }
                    }
                }
            }
            break;
        }
        proof {
            assert(next@.contains(next@[0]));
        }
        level = next;
        depth = depth + 1;
    }
    depth
}

/// Adding a link to an acyclic graph keeps it acyclic unless the link's end
/// already reaches its start.
pub proof fn law_new_link_keeps_acyclic(links: Seq<Link>, from: Uuid, to: Uuid)
    requires
        acyclic(links),
        from != to,
        !reaches(links, to, from),
    ensures
        acyclic(links.push(Link { from, to })),
{
    let more = links.push(Link { from, to });
    assert forall|node: Uuid| !#[trigger] reaches(more, node, node) by {
        if reaches(more, node, node) {
            let path = choose|path: Seq<Uuid>|
                path.len() >= 2 && #[trigger] walk_between(more, path, node, node);
            if exists|i: int| 0 <= i < path.len() - 1 && path[i] == from && #[trigger] path[i + 1]
                == to {
                let i = choose|i: int|
                    0 <= i < path.len() - 1 && path[i] == from && #[trigger] path[i + 1] == to;
                lemma_part_of_walk(more, path, i + 1, path.len() as int);
                lemma_part_of_walk(more, path, 0, i + 1);
                let tail = path.subrange(i + 1, path.len() as int);
                let head = path.subrange(0, i + 1);
                lemma_join_walks(more, tail, head);
                lemma_walk_without_new_link(links, tail + head.drop_first(), from, to);
            } else {
                assert forall|i: int| 0 <= i < path.len() - 1 implies #[trigger] link_at(
                    links,
                    path,
                    i,
                ) by {
                    assert(link_at(more, path, i));
                    lemma_push_contains(links, Link { from, to });
                    if path[i] == from && path[i + 1] == to {
                        assert(false);
                    }
                }
                assert(walk_between(links, path, node, node));
                assert(reaches(links, node, node));
            }
        }
    }
}

/// A walk from the new link's end to its start needs no use of the new link.
pub proof fn lemma_walk_without_new_link(links: Seq<Link>, path: Seq<Uuid>, from: Uuid, to: Uuid)
    requires
        from != to,
        is_walk(links.push(Link { from, to }), path),
        path.first() == to,
        path.last() == from,
    ensures
        reaches(links, to, from),
    decreases path.len(),
{
    let more = links.push(Link { from, to });
    if exists|i: int| 0 <= i < path.len() - 1 && path[i] == from {
        let i = choose|i: int| 0 <= i < path.len() - 1 && path[i] == from;
        lemma_part_of_walk(more, path, 0, i + 1);
        lemma_walk_without_new_link(links, path.subrange(0, i + 1), from, to);
    } else {
        assert forall|i: int| 0 <= i < path.len() - 1 implies #[trigger] link_at(links, path, i) by {
            assert(link_at(more, path, i));
            lemma_push_contains(links, Link { from, to });
        }
        assert(path.len() >= 2);
        assert(walk_between(links, path, to, from));
    }
}

/// The links of `links`, each turned round.
pub open spec fn turned(links: Seq<Link>) -> Seq<Link> {
    links.map_values(|link: Link| Link { from: link.to, to: link.from })
}

proof fn lemma_turned_link(links: Seq<Link>, from: Uuid, to: Uuid)
    ensures
        has_link(turned(links), to, from) <==> has_link(links, from, to),
{
    if has_link(links, from, to) {
        let k = choose|k: int| 0 <= k < links.len() && links[k] == (Link { from, to });
        assert(turned(links)[k] == (Link { from: to, to: from }));
    }
    if has_link(turned(links), to, from) {
        let k = choose|k: int|
            0 <= k < turned(links).len() && turned(links)[k] == (Link { from: to, to: from });
        assert(links[k] == (Link { from, to }));
    }
}

/// A walk is a walk along the turned links when read backwards.
pub proof fn lemma_turned_walk(links: Seq<Link>, path: Seq<Uuid>)
    ensures
        is_walk(turned(links), path.reverse()) <==> is_walk(links, path),
{
    let back = path.reverse();
    if is_walk(links, path) {
        assert forall|i: int| 0 <= i < back.len() - 1 implies #[trigger] link_at(
            turned(links),
            back,
            i,
        ) by {
            let j = path.len() - 2 - i;
            assert(link_at(links, path, j));
            lemma_turned_link(links, path[j], path[j + 1]);
        }
    }
    if is_walk(turned(links), back) {
        assert forall|i: int| 0 <= i < path.len() - 1 implies #[trigger] link_at(
            links,
            path,
            i,
        ) by {
            let j = path.len() - 2 - i;
            assert(link_at(turned(links), back, j));
            lemma_turned_link(links, path[i], path[i + 1]);
        }
    }
}

/// What is connected one way is connected the other way along the turned
/// links.
pub proof fn law_turned_links_connect_backwards(links: Seq<Link>, from: Uuid, to: Uuid)
    ensures
        connected(turned(links), to, from) <==> connected(links, from, to),
{
    if connected(links, from, to) {
        let path = choose|path: Seq<Uuid>| #[trigger] walk_between(links, path, from, to);
        lemma_turned_walk(links, path);
        assert(walk_between(turned(links), path.reverse(), to, from));
    }
    if connected(turned(links), to, from) {
        let path = choose|path: Seq<Uuid>| #[trigger] walk_between(turned(links), path, to, from);
        assert(path.reverse().reverse() =~= path);
        lemma_turned_walk(links, path.reverse());
        assert(walk_between(links, path.reverse(), from, to));
    }
}

} // verus!
