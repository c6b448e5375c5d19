use moth_core::private_vc::PrivateVc;
use moth_core::store::{hydrate, store_row, PrivateVcStore, StoredRow};

#[test]
fn store_reads_what_was_written() {
    let mut store = PrivateVcStore::new();
    assert_eq!(store.len(), 0);
    assert!(store.get_private_vc(1).is_none());
    let mut vc = PrivateVc::new(7);
    vc.allowlist_roles = vec![3];
    store.create_private_vc(1, vc);
    store.create_private_vc(2, PrivateVc::new(8));
    assert_eq!(store.len(), 2);
    let read = store.get_private_vc(1).unwrap();
    assert_eq!(read.owner_id, 7);
    assert_eq!(read.allowlist_roles, vec![3]);
    assert_eq!(store.get_private_vc(2).unwrap().owner_id, 8);
    assert!(store.get_private_vc(3).is_none());
}

#[test]
fn store_upsert_replaces_the_row() {
    let mut store = PrivateVcStore::new();
    store.create_private_vc(1, PrivateVc::new(7));
    store.create_private_vc(1, PrivateVc::new(9));
    assert_eq!(store.len(), 1);
    assert_eq!(store.get_private_vc(1).unwrap().owner_id, 9);
    assert_eq!(store.channels(), vec![1]);
}

#[test]
fn store_delete_removes_only_its_row() {
    let mut store = PrivateVcStore::new();
    store.create_private_vc(1, PrivateVc::new(7));
    store.create_private_vc(2, PrivateVc::new(8));
    store.create_private_vc(3, PrivateVc::new(9));
    assert!(store.delete_private_vc(2));
    assert!(!store.delete_private_vc(2));
    assert_eq!(store.channels(), vec![1, 3]);
    assert_eq!(store.get_private_vc(3).unwrap().owner_id, 9);
}

#[test]
fn store_notes_the_control_message() {
    let mut store = PrivateVcStore::new();
    let mut vc = PrivateVc::new(7);
    vc.denylist_users = vec![5];
    store.create_private_vc(1, vc);
    assert!(store.set_vc_message_id(1, 444));
    assert!(!store.set_vc_message_id(2, 555));
    let read = store.get_private_vc(1).unwrap();
    assert_eq!(read.message_id, Some(444));
    assert_eq!(read.owner_id, 7);
    assert_eq!(read.denylist_users, vec![5]);
    assert!(!store.contains(2));
}

#[test]
fn store_lists_all_rows() {
    let mut store = PrivateVcStore::new();
    store.create_private_vc(10, PrivateVc::new(1));
    store.create_private_vc(20, PrivateVc::new(2));
    let rows = store.get_all_private_vcs();
    assert_eq!(rows.len(), 2);
    assert_eq!((rows[0].channel_id, rows[0].private_vc.owner_id), (10, 1));
    assert_eq!((rows[1].channel_id, rows[1].private_vc.owner_id), (20, 2));
}

#[test]
fn stored_row_is_read_as_a_configuration() {
    let row = StoredRow {
        channel_id: 1399817426723668039,
        owner_id: 291089948709486593,
        message_id: Some(5),
        allowlist_roles: vec![98459030455853056, 7],
        allowlist_users: None,
        trusted_users: Some(vec![]),
        denylist_users: Some(vec![8, 9]),
    };
    let read = hydrate(&row);
    assert_eq!(read.channel_id, 1399817426723668039);
    assert_eq!(read.private_vc.owner_id, 291089948709486593);
    assert_eq!(read.private_vc.message_id, Some(5));
    assert_eq!(read.private_vc.allowlist_roles, vec![98459030455853056, 7]);
    assert!(read.private_vc.allowlist_users.is_empty());
    assert!(read.private_vc.trusted_users.is_empty());
    assert_eq!(read.private_vc.denylist_users, vec![8, 9]);
    let unset = StoredRow {
        channel_id: 1,
        owner_id: -1,
        message_id: None,
        allowlist_roles: Vec::new(),
        allowlist_users: None,
        trusted_users: None,
        denylist_users: None,
    };
    let read = hydrate(&unset);
    assert_eq!(read.private_vc.owner_id, u64::MAX);
    assert_eq!(read.private_vc.message_id, None);
}

#[test]
fn written_row_is_read_back() {
    let mut vc = PrivateVc::new(291089948709486593);
    vc.message_id = Some(77);
    vc.trusted_users = vec![1];
    vc.allowlist_roles = vec![2, 3];
    vc.allowlist_users = vec![u64::MAX];
    vc.denylist_users = vec![];
    let row = store_row(1399817426723668039, &vc);
    assert_eq!(row.channel_id, 1399817426723668039);
    assert_eq!(row.owner_id, 291089948709486593);
    assert_eq!(row.message_id, Some(77));
    assert_eq!(row.allowlist_roles, vec![2, 3]);
    assert_eq!(row.allowlist_users, Some(vec![-1]));
    assert_eq!(row.trusted_users, Some(vec![1]));
    assert_eq!(row.denylist_users, Some(vec![]));
    let read = hydrate(&row);
    assert_eq!(read.channel_id, 1399817426723668039);
    assert_eq!(read.private_vc.owner_id, vc.owner_id);
    assert_eq!(read.private_vc.message_id, vc.message_id);
    assert_eq!(read.private_vc.trusted_users, vc.trusted_users);
    assert_eq!(read.private_vc.allowlist_roles, vc.allowlist_roles);
    assert_eq!(read.private_vc.allowlist_users, vc.allowlist_users);
    assert_eq!(read.private_vc.denylist_users, vc.denylist_users);
}
