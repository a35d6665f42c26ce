use oxicloud::clock::UtcTime;
use oxicloud::errors::{DomainError, ErrorKind};
use oxicloud::groups::entity::{
    GroupMember, SubjectGroup, SubjectGroupError, SubjectGroupRepositoryError, MAX_GROUP_DEPTH,
};
use oxicloud::groups::membership::{
    depth_with_member, groups_for_user, transitive_users, would_close_circle, MembershipRow,
};
use oxicloud::groups::repository::{
    map_sqlx_err, read_table, AddMember, AfterLock, CheckNesting, DatabaseFault, InsertMember, MemberColumns,
    StorageFailure, SubjectGroupPgRepository, TableRow, COUNTED_PAGE, COUNTED_PAGE_BY_NAME, LIST_PAGE,
    LIST_PAGE_BY_NAME, TOTAL, TOTAL_BY_NAME,
};
use oxicloud::groups::service::{
    from_repository, map_entity_err, map_repo_err, DeleteGroup, RejectionAudit,
    SubjectGroupService,
};
use oxicloud::identifier::Uuid;

fn id(value: u128) -> Uuid {
    Uuid { value }
}

fn holds(group: u128, child: u128) -> MembershipRow {
    MembershipRow { group_id: id(group), member: GroupMember::Group(id(child)) }
}

fn has(group: u128, user: u128) -> MembershipRow {
    MembershipRow { group_id: id(group), member: GroupMember::User(id(user)) }
}

fn group(value: u128, is_virtual: bool) -> SubjectGroup {
    SubjectGroup {
        id: id(value),
        name: "team".to_string(),
        description: None,
        is_virtual,
        created_at: UtcTime { secs: 0, nanos: 0 },
        updated_at: UtcTime { secs: 0, nanos: 0 },
    }
}

fn lost() -> StorageFailure {
    StorageFailure { database: None, text: "connection lost".to_string() }
}

fn says<T>(outcome: Result<T, DomainError>, kind: ErrorKind, message: &str) -> bool {
    match outcome {
        Ok(_) => false,
        Err(e) => e.kind == kind && e.entity == "SubjectGroup" && e.message == message,
    }
}

fn is_storage_error<T>(outcome: Result<T, SubjectGroupRepositoryError>, text: &str) -> bool {
    matches!(outcome, Err(SubjectGroupRepositoryError::StorageError(m)) if m == text)
}

#[test]
fn members_are_found_through_nested_groups() {
    let rows = vec![holds(1, 2), holds(2, 3), has(1, 10), has(3, 11), has(4, 12), has(2, 10)];
    let mut users = transitive_users(&rows, id(1));
    users.sort_by_key(|u| u.value);
    assert_eq!(users, vec![id(10), id(11)]);
    assert_eq!(transitive_users(&rows, id(3)), vec![id(11)]);
    assert_eq!(transitive_users(&rows, id(9)), Vec::<Uuid>::new());
}

#[test]
fn groups_are_found_through_the_groups_above() {
    let rows = vec![holds(1, 2), holds(2, 3), has(3, 11), has(4, 12)];
    let mut groups = groups_for_user(&rows, id(11));
    groups.sort_by_key(|g| g.value);
    assert_eq!(groups, vec![id(1), id(2), id(3)]);
    assert_eq!(groups_for_user(&rows, id(12)), vec![id(4)]);
    assert!(groups_for_user(&rows, id(99)).is_empty());
}

#[test]
fn downward_and_upward_reading_agree() {
    let rows = vec![holds(1, 2), holds(1, 3), holds(3, 4), has(2, 20), has(4, 21), has(4, 20)];
    for g in 1..6 {
        for u in 19..23 {
            assert_eq!(
                transitive_users(&rows, id(g)).contains(&id(u)),
                groups_for_user(&rows, id(u)).contains(&id(g))
            );
        }
    }
}

#[test]
fn walks_through_circles_end() {
    let rows = vec![holds(1, 2), holds(2, 1), has(2, 20)];
    assert_eq!(transitive_users(&rows, id(1)), vec![id(20)]);
    assert_eq!(groups_for_user(&rows, id(20)).len(), 2);
    assert!(would_close_circle(&rows, id(1), id(1)));
}

#[test]
fn circles_are_recognised() {
    let rows = vec![holds(1, 2), holds(2, 3)];
    assert!(would_close_circle(&rows, id(3), id(1)));
    assert!(would_close_circle(&rows, id(2), id(1)));
    assert!(!would_close_circle(&rows, id(1), id(3)));
    assert!(!would_close_circle(&rows, id(1), id(1)));
}

#[test]
fn depth_counts_the_longest_chain() {
    let rows = vec![holds(1, 2), holds(2, 3), holds(5, 6), holds(6, 7), holds(7, 8)];
    assert_eq!(depth_with_member(&rows, id(1), id(4)), 2);
    assert_eq!(depth_with_member(&rows, id(1), id(5)), 4);
    assert_eq!(depth_with_member(&rows, id(9), id(4)), 1);
}

#[test]
fn a_nested_group_is_added_step_by_step() {
    let change = SubjectGroupPgRepository::new().add_member(
        id(1),
        GroupMember::Group(id(2)),
        id(50),
    );
    let lock = change.opened(Ok(())).unwrap();
    let check = match lock.locked(Ok(true)).unwrap() {
        AfterLock::Check(check) => check,
        AfterLock::Insert(_) => panic!("a nested group is checked first"),
    };
    let insert = check.loaded(Ok(vec![holds(2, 3)])).unwrap();
    let commit = insert.inserted(Ok(1)).unwrap();
    assert!(commit.change == change);
    assert!(commit.committed(Ok(())).is_ok());
}

#[test]
fn a_user_is_added_without_nesting_checks() {
    let change = AddMember { group_id: id(1), member: GroupMember::User(id(9)), added_by: id(50) };
    let lock = change.opened(Ok(())).unwrap();
    assert!(lock.locked(Ok(true)).unwrap() == AfterLock::Insert(InsertMember { change }));
}

#[test]
fn adding_fails_with_the_right_error() {
    let change =
        AddMember { group_id: id(1), member: GroupMember::Group(id(2)), added_by: id(50) };
    assert!(is_storage_error(
        change.opened(Err(lost())),
        "add_member: begin tx: connection lost"
    ));
    let lock = change.opened(Ok(())).unwrap();
    assert!(is_storage_error(
        lock.locked(Err(lost())),
        "add_member: lock parent: connection lost"
    ));
    assert!(matches!(
        lock.locked(Ok(false)),
        Err(SubjectGroupRepositoryError::NotFound(m))
            if m == "00000000-0000-0000-0000-000000000001"
    ));

    let own = AddMember { group_id: id(1), member: GroupMember::Group(id(1)), added_by: id(50) };
    assert!(matches!(
        own.opened(Ok(())).unwrap().locked(Ok(true)),
        Err(SubjectGroupRepositoryError::Cycle(m)) if m == "group cannot contain itself"
    ));

    let check = CheckNesting { group_id: id(1), child: id(2), added_by: id(50) };
    assert!(is_storage_error(
        check.loaded(Err(lost())),
        "add_member: cycle check: connection lost"
    ));
    assert!(matches!(
        check.loaded(Ok(vec![holds(2, 3), holds(3, 1)])),
        Err(SubjectGroupRepositoryError::Cycle(m))
            if m == "00000000-0000-0000-0000-000000000001 → 00000000-0000-0000-0000-000000000002"
    ));

    let insert = InsertMember { change };
    assert!(matches!(
        insert.inserted(Ok(0)),
        Err(SubjectGroupRepositoryError::MemberAlreadyPresent)
    ));
    assert!(is_storage_error(
        insert.inserted(Err(lost())),
        "add_member: insert group: connection lost"
    ));
    let user = AddMember { group_id: id(1), member: GroupMember::User(id(2)), added_by: id(50) };
    assert!(is_storage_error(
        InsertMember { change: user }.inserted(Err(lost())),
        "add_member: insert user: connection lost"
    ));
    assert!(is_storage_error(
        insert.inserted(Ok(1)).unwrap().committed(Err(lost())),
        "add_member: commit: connection lost"
    ));
}

#[test]
fn the_depth_cap_holds() {
    assert_eq!(MAX_GROUP_DEPTH, 8);
    let check = CheckNesting { group_id: id(1), child: id(2), added_by: id(50) };
    let chain = |last: u128| (2..last).map(|g| holds(g, g + 1)).collect::<Vec<_>>();
    assert!(check.loaded(Ok(chain(9))).is_ok());
    assert!(matches!(
        check.loaded(Ok(chain(10))),
        Err(SubjectGroupRepositoryError::DepthExceeded(m)) if m == "would reach depth 9 (max 8)"
    ));
    assert!(matches!(
        check.loaded(Ok(chain(300))),
        Err(SubjectGroupRepositoryError::DepthExceeded(m)) if m == "would reach depth 299 (max 8)"
    ));
}

#[test]
fn the_depth_cap_counts_the_groups_above_too() {
    let check = CheckNesting { group_id: id(100), child: id(1), added_by: id(50) };
    let below = |steps: u128| (1..=steps).map(|g| holds(g, g + 1)).collect::<Vec<_>>();
    let above = |steps: u128| (0..steps).map(|g| holds(101 + g, 100 + g)).collect::<Vec<_>>();
    let rows = |up: u128, down: u128| [above(up), below(down)].concat();
    assert_eq!(depth_with_member(&rows(3, 2), id(100), id(1)), 6);
    assert!(check.loaded(Ok(rows(4, 3))).is_ok());
    assert!(check.loaded(Ok(rows(7, 0))).is_ok());
    assert!(matches!(
        check.loaded(Ok(rows(4, 4))),
        Err(SubjectGroupRepositoryError::DepthExceeded(m)) if m == "would reach depth 9 (max 8)"
    ));
    assert!(matches!(
        check.loaded(Ok(rows(8, 0))),
        Err(SubjectGroupRepositoryError::DepthExceeded(m)) if m == "would reach depth 9 (max 8)"
    ));
}

#[test]
fn only_a_nesting_that_closes_a_circle_is_refused_as_one() {
    let check = CheckNesting { group_id: id(1), child: id(2), added_by: id(50) };
    assert!(check.loaded(Ok(vec![holds(20, 21), holds(21, 20)])).is_ok());
    assert!(matches!(
        check.loaded(Ok(vec![holds(2, 3), holds(3, 2)])),
        Err(SubjectGroupRepositoryError::DepthExceeded(_))
    ));
    let own = CheckNesting { group_id: id(1), child: id(1), added_by: id(50) };
    assert!(matches!(own.loaded(Ok(vec![])), Err(SubjectGroupRepositoryError::Cycle(_))));
}

#[test]
fn a_change_that_succeeds_adds_one_membership() {
    let mut rows = vec![holds(1, 2), has(2, 20)];
    let repo = SubjectGroupPgRepository::new();
    let mut add = |group: u128, member: GroupMember| {
        let lock = repo.add_member(id(group), member, id(50)).opened(Ok(()))?;
        let insert = match lock.locked(Ok(group < 10))? {
            AfterLock::Insert(insert) => insert,
            AfterLock::Check(check) => check.loaded(Ok(rows.clone()))?,
        };
        let row = MembershipRow { group_id: id(group), member };
        let affected = if rows.contains(&row) { 0 } else { 1 };
        insert.inserted(Ok(affected))?.committed(Ok(()))?;
        rows.push(row);
        Ok::<usize, SubjectGroupRepositoryError>(rows.len())
    };
    assert!(matches!(add(2, GroupMember::Group(id(3))), Ok(3)));
    assert!(matches!(
        add(2, GroupMember::Group(id(3))),
        Err(SubjectGroupRepositoryError::MemberAlreadyPresent)
    ));
    assert!(matches!(
        add(3, GroupMember::Group(id(1))),
        Err(SubjectGroupRepositoryError::Cycle(_))
    ));
    assert!(matches!(
        add(11, GroupMember::User(id(20))),
        Err(SubjectGroupRepositoryError::NotFound(_))
    ));
    assert!(matches!(add(3, GroupMember::User(id(20))), Ok(4)));
}

#[test]
fn database_faults_are_translated() {
    let fault = |code: &str| StorageFailure {
        database: Some(DatabaseFault { code: Some(code.to_string()), text: "db".to_string() }),
        text: "whole".to_string(),
    };
    assert!(matches!(
        map_sqlx_err("ctx", fault("23505")),
        SubjectGroupRepositoryError::NameAlreadyExists(m) if m == "db"
    ));
    assert!(matches!(
        map_sqlx_err("ctx", fault("23514")),
        SubjectGroupRepositoryError::InvalidName(m) if m == "db"
    ));
    assert!(matches!(
        map_sqlx_err("ctx", fault("40001")),
        SubjectGroupRepositoryError::StorageError(m) if m == "ctx: whole"
    ));
    let uncoded = StorageFailure {
        database: Some(DatabaseFault { code: None, text: "db".to_string() }),
        text: "whole".to_string(),
    };
    assert!(matches!(
        map_sqlx_err("ctx", uncoded),
        SubjectGroupRepositoryError::StorageError(m) if m == "ctx: whole"
    ));
}

#[test]
fn listings_are_planned() {
    let repo = SubjectGroupPgRepository::new();
    let plain = repo.list(20, 40, None);
    assert_eq!(plain.query.page, LIST_PAGE);
    assert_eq!(plain.query.total, TOTAL);
    assert_eq!((plain.query.limit, plain.query.offset), (20, 40));
    let named = repo.list(u32::MAX, 0, Some("%te%".to_string()));
    assert_eq!(named.query.page, LIST_PAGE_BY_NAME);
    assert_eq!(named.query.total, TOTAL_BY_NAME);
    assert_eq!(named.query.pattern.as_deref(), Some("%te%"));
    assert_eq!(named.query.limit, 4_294_967_295);
    assert_eq!(repo.list_with_counts(1, 0, None).query.page, COUNTED_PAGE);
    assert_eq!(
        repo.list_with_counts(1, 0, Some("x".to_string())).query.page,
        COUNTED_PAGE_BY_NAME
    );
}

#[test]
fn listings_are_read() {
    let repo = SubjectGroupPgRepository::new();
    let count = repo.list(10, 0, None).fetched(Ok(vec![group(1, false)])).unwrap();
    let (groups, total) = count.counted(Ok(7)).unwrap();
    assert_eq!(groups.len(), 1);
    assert_eq!(total, 7);
    assert!(is_storage_error(
        repo.list(10, 0, None).fetched(Err(lost())),
        "list page: connection lost"
    ));
    assert!(is_storage_error(
        repo.list(10, 0, None).fetched(Ok(vec![])).unwrap().counted(Err(lost())),
        "list count: connection lost"
    ));
    let counted = repo
        .list_with_counts(10, 0, None)
        .fetched(Ok(vec![(group(1, false), 3)]))
        .unwrap()
        .counted(Ok(1))
        .unwrap();
    assert_eq!(counted.0[0].1, 3);
    assert!(is_storage_error(
        repo.list_with_counts(10, 0, None).fetched(Err(lost())),
        "list_with_counts page: connection lost"
    ));
    assert!(is_storage_error(
        repo.list_with_counts(10, 0, None).fetched(Ok(vec![])).unwrap().counted(Err(lost())),
        "list_with_counts total: connection lost"
    ));
}

#[test]
fn rows_are_read_as_members() {
    let repo = SubjectGroupPgRepository::new();
    let rows = vec![
        MemberColumns { user_id: Some(id(1)), group_id: None },
        MemberColumns { user_id: Some(id(1)), group_id: Some(id(2)) },
        MemberColumns { user_id: None, group_id: Some(id(2)) },
        MemberColumns { user_id: None, group_id: None },
    ];
    let members = repo.list_direct_members(Ok(rows)).unwrap();
    assert!(members == vec![GroupMember::User(id(1)), GroupMember::Group(id(2))]);
    assert!(is_storage_error(
        repo.list_direct_members(Err(lost())),
        "list_direct_members: connection lost"
    ));
}

#[test]
fn replies_of_the_repository_are_judged() {
    let repo = SubjectGroupPgRepository::new();
    assert!(repo.create(Ok(group(1, false))).is_ok());
    assert!(is_storage_error(
        repo.create(Err(lost())),
        "create subject_group: connection lost"
    ));
    assert!(repo.get_by_id(Ok(None)).unwrap().is_none());
    assert!(is_storage_error(repo.get_by_id(Err(lost())), "get_by_id: connection lost"));
    assert!(is_storage_error(repo.get_by_name(Err(lost())), "get_by_name: connection lost"));
    assert_eq!(repo.count_members(Ok(4)).unwrap(), 4);
    assert!(is_storage_error(repo.count_members(Err(lost())), "count_members: connection lost"));
    assert!(repo.rename(id(1), Ok(Some(group(1, false)))).is_ok());
    assert!(matches!(
        repo.rename(id(1), Ok(None)),
        Err(SubjectGroupRepositoryError::NotFound(_))
    ));
    assert!(is_storage_error(repo.rename(id(1), Err(lost())), "rename: connection lost"));
    assert!(repo.delete(id(1), Ok(1)).is_ok());
    assert!(matches!(
        repo.delete(id(1), Ok(0)),
        Err(SubjectGroupRepositoryError::NotFound(_))
    ));
    assert!(is_storage_error(repo.delete(id(1), Err(lost())), "delete: connection lost"));
    assert!(repo.remove_member(Ok(1)).is_ok());
    assert!(matches!(
        repo.remove_member(Ok(0)),
        Err(SubjectGroupRepositoryError::MemberNotPresent)
    ));
    assert!(is_storage_error(repo.remove_member(Err(lost())), "remove_member: connection lost"));
    let rows = || vec![holds(1, 2), has(2, 20)];
    assert_eq!(repo.list_transitive_users(id(1), Ok(rows())).unwrap(), vec![id(20)]);
    assert_eq!(repo.groups_for_user(id(20), Ok(rows())).unwrap().len(), 2);
    assert!(is_storage_error(
        repo.list_transitive_users(id(1), Err(lost())),
        "list_transitive_users: connection lost"
    ));
    assert!(is_storage_error(
        repo.groups_for_user(id(1), Err(lost())),
        "groups_for_user: connection lost"
    ));
}

#[test]
fn virtual_groups_are_protected() {
    let service = SubjectGroupService::new(id(999));
    assert!(says(
        service.rename(id(1), Ok(Some(group(1, true))), Ok(())),
        ErrorKind::AccessDenied,
        "virtual groups cannot be modified"
    ));
    assert!(says(
        service.delete(id(1), Ok(Some(group(1, true)))),
        ErrorKind::AccessDenied,
        "virtual groups cannot be modified"
    ));
    assert!(says(
        service.add_member(id(999), Ok(Some(group(999, true)))),
        ErrorKind::AccessDenied,
        "Internal group membership is implicit and cannot be edited"
    ));
    assert!(says(
        service.remove_member(id(999), Ok(None)),
        ErrorKind::AccessDenied,
        "Internal group membership is implicit and cannot be edited"
    ));
    assert!(says(
        service.add_member(id(1), Ok(Some(group(1, true)))),
        ErrorKind::AccessDenied,
        "virtual groups cannot be modified"
    ));
    assert!(says(
        service.remove_member(id(1), Ok(Some(group(1, true)))),
        ErrorKind::AccessDenied,
        "virtual groups cannot be modified"
    ));
    assert!(says(
        service.add_member(id(1), Err(SubjectGroupRepositoryError::StorageError("x".into()))),
        ErrorKind::InternalError,
        "x"
    ));
    assert!(service.add_member(id(1), Ok(Some(group(1, false)))).is_ok());
    assert!(service.add_member(id(1), Ok(None)).is_ok());
    assert!(service.remove_member(id(1), Ok(Some(group(1, false)))).is_ok());
}

#[test]
fn the_internal_group_is_not_listed_for_a_user() {
    let service = SubjectGroupService::new(id(999));
    assert_eq!(
        service.groups_for_user(Ok(vec![id(3), id(999), id(1)])).unwrap(),
        vec![id(3), id(1)]
    );
    assert_eq!(service.groups_for_user(Ok(vec![id(2)])).unwrap(), vec![id(2)]);
    assert!(service.groups_for_user(Ok(vec![id(999)])).unwrap().is_empty());
}

#[test]
fn listings_put_virtual_groups_first() {
    for page in [LIST_PAGE, LIST_PAGE_BY_NAME] {
        assert!(page.contains(" ORDER BY is_virtual DESC, name LIMIT "));
    }
    for page in [COUNTED_PAGE, COUNTED_PAGE_BY_NAME] {
        assert!(page.contains(" ORDER BY g.is_virtual DESC, g.name LIMIT "));
    }
}

#[test]
fn a_deletion_takes_only_what_names_the_group() {
    let service = SubjectGroupService::new(id(999));
    let mut groups = vec![1, 2];
    let mut grants = vec![("group", 1), ("user", 1), ("group", 2), ("group", 1)];
    let request = service.delete(id(1), Ok(Some(group(1, false)))).unwrap();
    let step = request.opened(Ok(())).unwrap();
    let named = |g: &(&str, u128)| *g == ("group", step.id.value);
    let count = grants.iter().filter(|g| named(g)).count() as u64;
    grants.retain(|g| !named(g));
    let step = step.done(Ok(count)).unwrap();
    let before = groups.len();
    groups.retain(|g| *g != step.id.value);
    let commit = step.done(Ok((before - groups.len()) as u64)).unwrap();
    assert_eq!(commit.committed(Ok(())).unwrap(), 2);
    assert_eq!(groups, vec![2]);
    assert_eq!(grants, vec![("user", 1), ("group", 2)]);
}

#[test]
fn pages_show_each_group_once() {
    let all: Vec<u128> = (1..=7).collect();
    let repo = SubjectGroupPgRepository::new();
    let mut shown = Vec::new();
    for offset in [0, 3, 6, 9] {
        let request = repo.list(3, offset, None);
        let rows = all
            .iter()
            .skip(request.query.offset as usize)
            .take(request.query.limit as usize)
            .map(|g| group(*g, false))
            .collect();
        let (groups, total) = request.fetched(Ok(rows)).unwrap().counted(Ok(7)).unwrap();
        assert_eq!(total, 7);
        assert!(groups.len() <= 3);
        shown.extend(groups.iter().map(|g| g.id.value));
    }
    assert_eq!(shown, all);
}

#[test]
fn groups_are_found_renamed_and_created() {
    let service = SubjectGroupService::new(id(999));
    assert!(service.get_by_id(id(1), Ok(Some(group(1, false)))).is_ok());
    assert!(says(
        service.get_by_id(id(1), Ok(None)),
        ErrorKind::NotFound,
        "group 00000000-0000-0000-0000-000000000001 not found"
    ));
    assert!(says(
        service.get_by_id(id(1), Err(SubjectGroupRepositoryError::StorageError("x".to_string()))),
        ErrorKind::InternalError,
        "x"
    ));
    assert!(service.rename(id(1), Ok(Some(group(1, false))), Ok(())).is_ok());
    assert!(says(
        service.rename(
            id(1),
            Ok(Some(group(1, false))),
            Err(SubjectGroupError::InvalidName("bad".to_string()))
        ),
        ErrorKind::InvalidInput,
        "bad"
    ));
    assert!(service.create(Ok(group(1, false))).is_ok());
    assert!(says(
        service.create(Err(SubjectGroupError::InvalidName("bad".to_string()))),
        ErrorKind::InvalidInput,
        "bad"
    ));
    assert_eq!(service.search_for_share(Ok((vec![group(1, true)], 5))).unwrap().len(), 1);
    assert_eq!(service.list(Ok((vec![], 5))).unwrap().1, 5);
    assert_eq!(service.list_with_counts(Ok((vec![], 6))).unwrap().1, 6);
    assert_eq!(service.count_members(Ok(3)).unwrap(), 3);
    assert!(service.list_direct_members(Ok(vec![])).unwrap().is_empty());
    assert!(service.list_transitive_users(Ok(vec![id(4)])).unwrap() == vec![id(4)]);
    assert!(says(
        service.groups_for_user(Err(SubjectGroupRepositoryError::StorageError("x".to_string()))),
        ErrorKind::InternalError,
        "x"
    ));
}

#[test]
fn errors_become_domain_errors() {
    let entity = |e| map_entity_err(e).kind;
    assert!(entity(SubjectGroupError::InvalidName("m".into())) == ErrorKind::InvalidInput);
    assert!(entity(SubjectGroupError::CycleDetected("m".into())) == ErrorKind::InvalidInput);
    assert!(entity(SubjectGroupError::DepthExceeded("m".into())) == ErrorKind::InvalidInput);
    assert!(entity(SubjectGroupError::VirtualImmutable("m".into())) == ErrorKind::AccessDenied);
    assert!(entity(SubjectGroupError::ValidationError("m".into())) == ErrorKind::InvalidInput);

    let repo = |e| map_repo_err(e).kind;
    assert!(repo(SubjectGroupRepositoryError::NotFound("m".into())) == ErrorKind::NotFound);
    assert!(
        repo(SubjectGroupRepositoryError::NameAlreadyExists("m".into()))
            == ErrorKind::AlreadyExists
    );
    assert!(repo(SubjectGroupRepositoryError::InvalidName("m".into())) == ErrorKind::InvalidInput);
    assert!(repo(SubjectGroupRepositoryError::Cycle("m".into())) == ErrorKind::InvalidInput);
    assert!(
        repo(SubjectGroupRepositoryError::DepthExceeded("m".into())) == ErrorKind::InvalidInput
    );
    assert!(
        repo(SubjectGroupRepositoryError::VirtualImmutable("m".into()))
            == ErrorKind::AccessDenied
    );
    assert!(
        repo(SubjectGroupRepositoryError::StorageError("m".into())) == ErrorKind::InternalError
    );
    assert!(says(
        from_repository::<()>(Err(SubjectGroupRepositoryError::MemberAlreadyPresent)),
        ErrorKind::AlreadyExists,
        "member already in group"
    ));
    assert!(says(
        from_repository::<()>(Err(SubjectGroupRepositoryError::MemberNotPresent)),
        ErrorKind::NotFound,
        "member not in group"
    ));
}

#[test]
fn rejections_are_audited() {
    let service = SubjectGroupService::new(id(999));
    assert!(
        service.rejection_audit(&SubjectGroupRepositoryError::Cycle("m".into()))
            == Some(RejectionAudit::CycleRejected)
    );
    assert!(
        service.rejection_audit(&SubjectGroupRepositoryError::DepthExceeded("m".into()))
            == Some(RejectionAudit::DepthExceeded)
    );
    assert!(service.rejection_audit(&SubjectGroupRepositoryError::MemberNotPresent).is_none());
}

#[test]
fn deletion_takes_grants_and_group_together() {
    let start = || DeleteGroup { id: id(1) };
    let row = || start().opened(Ok(())).unwrap().done(Ok(4)).unwrap();
    assert_eq!(row().done(Ok(1)).unwrap().committed(Ok(())).unwrap(), 4);
    assert!(says(
        start().opened(Err("no".to_string())),
        ErrorKind::InternalError,
        "begin tx: no"
    ));
    assert!(says(
        start().opened(Ok(())).unwrap().done(Err("no".to_string())),
        ErrorKind::InternalError,
        "cascade-delete grants: no"
    ));
    assert!(says(
        row().done(Err("no".to_string())),
        ErrorKind::InternalError,
        "delete group: no"
    ));
    assert!(says(
        row().done(Ok(0)),
        ErrorKind::NotFound,
        "group 00000000-0000-0000-0000-000000000001 not found"
    ));
    assert!(says(
        row().done(Ok(1)).unwrap().committed(Err("no".to_string())),
        ErrorKind::InternalError,
        "commit: no"
    ));
}

#[test]
fn the_membership_table_is_read() {
    let row = |group: u128, user: Option<u128>, nested: Option<u128>| TableRow {
        group_id: id(group),
        member: MemberColumns { user_id: user.map(id), group_id: nested.map(id) },
    };
    let table = read_table(&vec![
        row(1, Some(10), None),
        row(1, None, Some(2)),
        row(2, None, None),
        row(3, Some(11), Some(4)),
    ]);
    assert!(table == vec![has(1, 10), holds(1, 2), has(3, 11), holds(3, 4)]);
}
