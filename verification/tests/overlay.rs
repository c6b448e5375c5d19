use moth_core::overlay::build_permission_overwrites;
use moth_core::permissions::{
    has_overwrite, PermissionOverwrite, PermissionOverwriteType, Permissions, CONNECT,
    SEND_MESSAGES, SPEAK,
};
use moth_core::private_vc::{position, toggle, PrivateVc};
use moth_core::task::{transfer_overwrites, GUILD};

fn entry(allow: u64, deny: u64, kind: PermissionOverwriteType) -> PermissionOverwrite {
    PermissionOverwrite {
        allow: Permissions::from_bits(allow),
        deny: Permissions::from_bits(deny),
        kind,
    }
}

fn allow_connect(kind: PermissionOverwriteType) -> PermissionOverwrite {
    entry(CONNECT, 0, kind)
}

fn deny_connect(kind: PermissionOverwriteType) -> PermissionOverwrite {
    entry(0, CONNECT, kind)
}

fn parent() -> Vec<PermissionOverwrite> {
    vec![
        entry(SPEAK, SEND_MESSAGES | CONNECT, PermissionOverwriteType::Role(GUILD)),
        entry(CONNECT, 0, PermissionOverwriteType::Role(500)),
        entry(0, SPEAK, PermissionOverwriteType::Member(77)),
    ]
}

#[test]
fn permission_bits_insert_remove_contains() {
    let mut p = Permissions::empty();
    assert_eq!(p.bits, 0);
    p.insert(Permissions::connect());
    p.insert(Permissions::from_bits(SPEAK));
    assert_eq!(p.bits, CONNECT | SPEAK);
    assert!(p.contains(Permissions::connect()));
    assert!(!p.contains(Permissions::from_bits(SEND_MESSAGES)));
    p.remove(Permissions::connect());
    assert_eq!(p.bits, SPEAK);
    assert_eq!(CONNECT, 1 << 20);
    assert_eq!(SPEAK, 1 << 21);
    assert_eq!(SEND_MESSAGES, 1 << 11);
}

#[test]
fn has_overwrite_finds_subject() {
    let acl = parent();
    assert!(has_overwrite(&acl, PermissionOverwriteType::Role(500)));
    assert!(has_overwrite(&acl, PermissionOverwriteType::Member(77)));
    assert!(!has_overwrite(&acl, PermissionOverwriteType::Member(500)));
    assert!(!has_overwrite(&Vec::new(), PermissionOverwriteType::Role(GUILD)));
}

#[test]
fn fresh_room_is_public_and_owner_is_granted() {
    let vc = PrivateVc::new(1);
    assert!(vc.is_public());
    let mut su = Vec::new();
    let mut sr = Vec::new();
    let acl = build_permission_overwrites(&vc, &parent(), &mut su, &mut sr);
    assert_eq!(
        acl,
        vec![
            entry(SPEAK | CONNECT, SEND_MESSAGES, PermissionOverwriteType::Role(GUILD)),
            entry(CONNECT, 0, PermissionOverwriteType::Role(500)),
            entry(0, SPEAK, PermissionOverwriteType::Member(77)),
            allow_connect(PermissionOverwriteType::Member(1)),
        ]
    );
    assert!(su.is_empty());
    assert!(sr.is_empty());
}

#[test]
fn private_room_closes_default_role_and_orders_entries() {
    let mut vc = PrivateVc::new(1);
    vc.denylist_users = vec![9, 10];
    vc.allowlist_roles = vec![500, 600];
    vc.allowlist_users = vec![10, 77, 11];
    assert!(!vc.is_public());
    let mut su = vec![4242];
    let mut sr = Vec::new();
    let acl = build_permission_overwrites(&vc, &parent(), &mut su, &mut sr);
    assert_eq!(
        acl,
        vec![
            entry(SPEAK, SEND_MESSAGES | CONNECT, PermissionOverwriteType::Role(GUILD)),
            entry(CONNECT, 0, PermissionOverwriteType::Role(500)),
            entry(0, SPEAK, PermissionOverwriteType::Member(77)),
            deny_connect(PermissionOverwriteType::Member(9)),
            deny_connect(PermissionOverwriteType::Member(10)),
            allow_connect(PermissionOverwriteType::Role(600)),
            allow_connect(PermissionOverwriteType::Member(11)),
            allow_connect(PermissionOverwriteType::Member(1)),
        ]
    );
    // 10 is denied, so it is left out without a report; 77 has an entry above.
    assert_eq!(su, vec![4242, 77]);
    assert_eq!(sr, vec![500]);
}

#[test]
fn private_room_revokes_inherited_connect_grant() {
    let mut vc = PrivateVc::new(1);
    vc.allowlist_users = vec![2];
    let above = vec![entry(CONNECT | SPEAK, 0, PermissionOverwriteType::Role(GUILD))];
    let mut su = Vec::new();
    let mut sr = Vec::new();
    let acl = build_permission_overwrites(&vc, &above, &mut su, &mut sr);
    assert_eq!(acl[0], entry(SPEAK, CONNECT, PermissionOverwriteType::Role(GUILD)));
}

#[test]
fn overlay_without_default_entry_keeps_parent() {
    let vc = PrivateVc::new(5);
    let above = vec![entry(0, CONNECT, PermissionOverwriteType::Role(3))];
    let mut su = Vec::new();
    let mut sr = Vec::new();
    let acl = build_permission_overwrites(&vc, &above, &mut su, &mut sr);
    assert_eq!(
        acl,
        vec![
            entry(0, CONNECT, PermissionOverwriteType::Role(3)),
            allow_connect(PermissionOverwriteType::Member(5)),
        ]
    );
}

#[test]
fn overlay_adjusts_only_first_default_entry() {
    let vc = PrivateVc::new(5);
    let above = vec![
        entry(0, CONNECT, PermissionOverwriteType::Role(GUILD)),
        entry(0, CONNECT, PermissionOverwriteType::Role(GUILD)),
    ];
    let mut su = Vec::new();
    let mut sr = Vec::new();
    let acl = build_permission_overwrites(&vc, &above, &mut su, &mut sr);
    assert_eq!(acl[0], entry(CONNECT, 0, PermissionOverwriteType::Role(GUILD)));
    assert_eq!(acl[1], entry(0, CONNECT, PermissionOverwriteType::Role(GUILD)));
}

#[test]
fn overlay_is_repeatable() {
    let mut vc = PrivateVc::new(1);
    vc.denylist_users = vec![9];
    vc.allowlist_roles = vec![500, 600];
    vc.allowlist_users = vec![77, 11];
    let mut su1 = Vec::new();
    let mut sr1 = Vec::new();
    let first = build_permission_overwrites(&vc, &parent(), &mut su1, &mut sr1);
    let mut su2 = Vec::new();
    let mut sr2 = Vec::new();
    let second = build_permission_overwrites(&vc, &parent(), &mut su2, &mut sr2);
    assert_eq!(first, second);
    assert_eq!(su1, su2);
    assert_eq!(sr1, sr2);
    assert_eq!(su1, vec![77]);
    assert_eq!(sr1, vec![500]);
}

#[test]
fn transfer_overwrites_without_known_category() {
    let vc = PrivateVc::new(8);
    assert_eq!(
        transfer_overwrites(&vc, None),
        vec![allow_connect(PermissionOverwriteType::Member(8))]
    );
    let above = parent();
    let acl = transfer_overwrites(&vc, Some(&above));
    assert_eq!(acl.len(), 4);
    assert_eq!(acl[3], allow_connect(PermissionOverwriteType::Member(8)));
}

#[test]
fn toggle_adds_then_removes() {
    let mut list = vec![1, 2, 3];
    assert!(toggle(&mut list, 4));
    assert_eq!(list, vec![1, 2, 3, 4]);
    assert!(!toggle(&mut list, 4));
    assert_eq!(list, vec![1, 2, 3]);
}

#[test]
fn toggle_twice_returns_the_set() {
    let mut list = vec![1, 2, 3];
    assert!(!toggle(&mut list, 2));
    assert_eq!(list, vec![1, 3]);
    assert!(toggle(&mut list, 2));
    assert_eq!(list, vec![1, 3, 2]);
    let mut sorted = list.clone();
    sorted.sort();
    assert_eq!(sorted, vec![1, 2, 3]);
}

#[test]
fn position_is_first_occurrence() {
    assert_eq!(position(&vec![5, 6, 5], 5), Some(0));
    assert_eq!(position(&vec![5, 6, 5], 6), Some(1));
    assert_eq!(position(&vec![5, 6, 5], 7), None);
    assert_eq!(position(&Vec::new(), 7), None);
}

#[test]
fn with_owner_changes_only_the_owner() {
    let mut vc = PrivateVc::new(1);
    vc.message_id = Some(99);
    vc.trusted_users = vec![3];
    vc.allowlist_roles = vec![4];
    vc.allowlist_users = vec![5];
    vc.denylist_users = vec![6];
    let next = vc.with_owner(2);
    assert_eq!(next.owner_id, 2);
    assert_eq!(next.message_id, Some(99));
    assert_eq!(next.trusted_users, vec![3]);
    assert_eq!(next.allowlist_roles, vec![4]);
    assert_eq!(next.allowlist_users, vec![5]);
    assert_eq!(next.denylist_users, vec![6]);
    let copy = vc.clone();
    assert_eq!(copy.owner_id, 1);
    assert_eq!(copy.denylist_users, vec![6]);
}
