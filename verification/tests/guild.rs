use moth_core::guild::{create_channel, created_room, get_parent_permissions, Channel, USER_LIMIT};
use moth_core::permissions::{
    PermissionOverwrite, PermissionOverwriteType, Permissions, CONNECT, SEND_MESSAGES, SPEAK,
};
use moth_core::task::{GUILD, VC_CHANNEL};

const VIEW_CHANNEL: u64 = 1 << 10;

fn entry(allow: u64, deny: u64, kind: PermissionOverwriteType) -> PermissionOverwrite {
    PermissionOverwrite {
        allow: Permissions::from_bits(allow),
        deny: Permissions::from_bits(deny),
        kind,
    }
}

fn category_list() -> Vec<PermissionOverwrite> {
    vec![
        entry(0, 1, PermissionOverwriteType::Member(4)),
        entry(
            VIEW_CHANNEL,
            SEND_MESSAGES | SPEAK | CONNECT | 1,
            PermissionOverwriteType::Role(GUILD),
        ),
        entry(SPEAK, 0, PermissionOverwriteType::Role(77)),
    ]
}

fn channels() -> Vec<Channel> {
    vec![
        Channel { id: 900, parent_id: None, position: 0, permission_overwrites: category_list() },
        Channel {
            id: VC_CHANNEL,
            parent_id: Some(900),
            position: 3,
            permission_overwrites: Vec::new(),
        },
        Channel { id: 50, parent_id: Some(900), position: 4, permission_overwrites: Vec::new() },
        Channel { id: 51, parent_id: None, position: 9, permission_overwrites: Vec::new() },
        Channel { id: 52, parent_id: Some(12345), position: 9, permission_overwrites: Vec::new() },
    ]
}

#[test]
fn parent_permissions_are_the_category_list() {
    let all = channels();
    assert_eq!(get_parent_permissions(Some(&all), 50), Some(category_list()));
    assert_eq!(get_parent_permissions(Some(&all), 51), None);
    assert_eq!(get_parent_permissions(Some(&all), 52), None);
    assert_eq!(get_parent_permissions(Some(&all), 404), None);
    assert_eq!(get_parent_permissions(None, 50), None);
}

#[test]
fn room_plan_for_plain_name() {
    let all = channels();
    let plan = create_channel(Some(&all), "Ann").unwrap();
    assert_eq!(plan.name, "\u{1F465}Ann's room");
    assert_eq!(plan.audit_log_reason, "Ann created a Private VC");
    assert_eq!(plan.category_id, 900);
    assert_eq!(plan.position, 4);
    assert_eq!(plan.user_limit, 5);
    assert_eq!(USER_LIMIT, 5);
    assert_eq!(
        plan.permissions,
        vec![
            entry(0, 1, PermissionOverwriteType::Member(4)),
            // what else the default role is refused stays refused
            entry(VIEW_CHANNEL, SEND_MESSAGES | 1, PermissionOverwriteType::Role(GUILD)),
            entry(SPEAK, 0, PermissionOverwriteType::Role(77)),
        ]
    );
}

#[test]
fn room_name_of_name_ending_in_s() {
    let all = channels();
    let plan = create_channel(Some(&all), "Chris").unwrap();
    assert_eq!(plan.name, "\u{1F465}Chris' room");
    assert_eq!(plan.audit_log_reason, "Chris created a Private VC");
}

#[test]
fn room_name_is_cut_to_thirty_one_bytes() {
    let all = channels();
    let long = "abcdefghijklmnopqrstuvwxyz0123456789";
    let plan = create_channel(Some(&all), long).unwrap();
    assert_eq!(plan.name, "\u{1F465}abcdefghijklmnopqrstuvwxyz01234's room");
    assert_eq!(plan.audit_log_reason, "abcdefghijklmnopqrstuvwxyz01234 created a Private VC");
    // a name of exactly 31 bytes is kept whole
    let exact = "abcdefghijklmnopqrstuvwxyz01234";
    assert_eq!(
        create_channel(Some(&all), exact).unwrap().name,
        "\u{1F465}abcdefghijklmnopqrstuvwxyz01234's room"
    );
    // 32 bytes lose the last
    let one_more = "abcdefghijklmnopqrstuvwxyz012345";
    assert_eq!(
        create_channel(Some(&all), one_more).unwrap().name,
        "\u{1F465}abcdefghijklmnopqrstuvwxyz01234's room"
    );
}

#[test]
fn room_name_is_cut_between_characters() {
    let all = channels();
    // 15 two-byte letters take 30 bytes; a sixteenth would end at byte 32
    let name = "\u{e9}".repeat(16);
    let plan = create_channel(Some(&all), &name).unwrap();
    assert_eq!(plan.name, format!("\u{1F465}{}'s room", "\u{e9}".repeat(15)));
    // the possessive goes by the whole name, not by what is left of it
    let tail = format!("{}s", "x".repeat(40));
    let plan = create_channel(Some(&all), &tail).unwrap();
    assert_eq!(plan.name, format!("\u{1F465}{}' room", "x".repeat(31)));
}

#[test]
fn empty_name_still_gets_a_room() {
    let all = channels();
    let plan = create_channel(Some(&all), "").unwrap();
    assert_eq!(plan.name, "\u{1F465}'s room");
    assert_eq!(plan.audit_log_reason, " created a Private VC");
}

#[test]
fn no_plan_without_lobby_category_or_default_entry() {
    assert!(create_channel(None, "Ann").is_none());
    assert!(create_channel(Some(&Vec::new()), "Ann").is_none());
    let orphan = vec![Channel {
        id: VC_CHANNEL,
        parent_id: None,
        position: 3,
        permission_overwrites: Vec::new(),
    }];
    assert!(create_channel(Some(&orphan), "Ann").is_none());
    let lost = vec![Channel {
        id: VC_CHANNEL,
        parent_id: Some(900),
        position: 3,
        permission_overwrites: Vec::new(),
    }];
    assert!(create_channel(Some(&lost), "Ann").is_none());
    let bare = vec![
        Channel {
            id: 900,
            parent_id: None,
            position: 0,
            permission_overwrites: vec![entry(0, 1, PermissionOverwriteType::Role(77))],
        },
        Channel { id: VC_CHANNEL, parent_id: Some(900), position: 3, permission_overwrites: Vec::new() },
    ];
    assert!(create_channel(Some(&bare), "Ann").is_none());
}

#[test]
fn room_position_stays_in_range() {
    let last = vec![
        Channel { id: 900, parent_id: None, position: 0, permission_overwrites: category_list() },
        Channel {
            id: VC_CHANNEL,
            parent_id: Some(900),
            position: u16::MAX,
            permission_overwrites: Vec::new(),
        },
    ];
    assert_eq!(create_channel(Some(&last), "Ann").unwrap().position, u16::MAX);
}

#[test]
fn created_room_gets_a_fresh_row() {
    assert!(created_room(None, 7).is_none());
    let (channel, vc) = created_room(Some(50), 7).unwrap();
    assert_eq!(channel, 50);
    assert_eq!(vc.owner_id, 7);
    assert_eq!(vc.message_id, None);
    assert!(vc.trusted_users.is_empty());
    assert!(vc.allowlist_roles.is_empty());
    assert!(vc.allowlist_users.is_empty());
    assert!(vc.denylist_users.is_empty());
}
