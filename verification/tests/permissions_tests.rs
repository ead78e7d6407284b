use std::collections::HashMap;
use valeriyya::permissions::{
    aggregate_role_permissions, compare_role_position, member_managable, GuildInfo, MemberInfo,
    RankedMember, RoleInfo, ALL_PERMISSIONS,
};

fn roles() -> HashMap<u64, RoleInfo> {
    let mut m = HashMap::new();
    m.insert(10, RoleInfo { id: 10, position: 0, permissions: 0b0001 });
    m.insert(20, RoleInfo { id: 20, position: 3, permissions: 0b0110 });
    m.insert(30, RoleInfo { id: 30, position: 5, permissions: 0b1000 });
    m.insert(31, RoleInfo { id: 31, position: 5, permissions: 0 });
    m
}

#[test]
fn owner_gets_all_permissions() {
    let member = MemberInfo { user_id: 1, roles: vec![] };
    assert_eq!(aggregate_role_permissions(&member, 1, &roles()), ALL_PERMISSIONS);
    assert_eq!(ALL_PERMISSIONS, 0x7_7fff_ffff_ffff);
}

#[test]
fn member_gets_union_of_role_permissions() {
    let member = MemberInfo { user_id: 2, roles: vec![20, 30, 99] };
    assert_eq!(aggregate_role_permissions(&member, 1, &roles()), 0b1110);
}

#[test]
fn member_without_known_roles_gets_nothing() {
    let member = MemberInfo { user_id: 2, roles: vec![99, 98] };
    assert_eq!(aggregate_role_permissions(&member, 1, &roles()), 0);
}

#[test]
fn role_order_by_position_then_age() {
    let r = roles();
    assert_eq!(compare_role_position(&r, 30, 20), 2);
    assert_eq!(compare_role_position(&r, 20, 20), 0);
    assert_eq!(compare_role_position(&r, 30, 31), 1);
    assert_eq!(compare_role_position(&r, 31, 30), -1);
}

fn guild() -> GuildInfo {
    GuildInfo { id: 10, owner_id: 1, roles: roles() }
}

#[test]
fn owner_and_self_cannot_be_managed() {
    let g = guild();
    let me = RankedMember { user_id: 5, has_roles: true, highest_role: Some(30) };
    let owner = RankedMember { user_id: 1, has_roles: false, highest_role: None };
    assert!(!member_managable(&g, &me, &owner));
    assert!(!member_managable(&g, &me, &me));
}

#[test]
fn owning_bot_manages_everyone_else() {
    let g = guild();
    let me = RankedMember { user_id: 1, has_roles: false, highest_role: None };
    let other = RankedMember { user_id: 7, has_roles: true, highest_role: Some(30) };
    assert!(member_managable(&g, &me, &other));
}

#[test]
fn higher_role_manages_lower_role() {
    let g = guild();
    let me = RankedMember { user_id: 5, has_roles: true, highest_role: Some(30) };
    let member = RankedMember { user_id: 7, has_roles: true, highest_role: Some(20) };
    let plain = RankedMember { user_id: 8, has_roles: false, highest_role: None };
    assert!(member_managable(&g, &me, &member));
    assert!(member_managable(&g, &me, &plain));
}

#[test]
fn same_role_cannot_be_managed() {
    let g = guild();
    let me = RankedMember { user_id: 5, has_roles: true, highest_role: Some(20) };
    let member = RankedMember { user_id: 7, has_roles: true, highest_role: Some(20) };
    assert!(!member_managable(&g, &me, &member));
}

#[test]
fn older_role_at_same_position_ranks_higher() {
    let g = guild();
    let me = RankedMember { user_id: 5, has_roles: true, highest_role: Some(30) };
    let member = RankedMember { user_id: 7, has_roles: true, highest_role: Some(31) };
    assert!(member_managable(&g, &me, &member));
    assert!(!member_managable(&g, &member, &me));
}

#[test]
fn distinct_roles_never_compare_level() {
    let r = roles();
    for a in [10u64, 20, 30, 31] {
        for b in [10u64, 20, 30, 31] {
            let pa = r[&a].position;
            let pb = r[&b].position;
            if pa >= pb {
                assert_eq!(compare_role_position(&r, a, b) == 0, a == b);
            }
        }
    }
}
