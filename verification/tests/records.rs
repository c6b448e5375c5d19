use moth_core::commands::accela;
use moth_core::commands::owner::{cache, checks, database as db_commands, phil, poll, roles as role_commands};
use moth_core::commands::utility::{charinfo, roles as gradient, users};
use moth_core::commands::verification;
use moth_core::commands::utility::roles::option_result_to_option;
use moth_core::commands::Command;
use moth_core::database::{EmoteUsageType, MessageData, StarboardMessage, StarboardStatus};
use moth_core::lob::{get_random_lob, unload_lob, LobList};
use moth_core::ranks::{
    find_role_for_rank, get_role_id_for_rank, get_role_id_for_rank_opt, ranges, GameMode, RoleRange,
};
use moth_core::roles::{
    UserMapHolder, LOVED_CATCH, LOVED_MANIA, LOVED_STD, LOVED_TAIKO, RANKED_CATCH, RANKED_MANIA,
    RANKED_STD, RANKED_TAIKO,
};
use moth_core::standby::AuthenticationStandbyError;
use moth_core::structs::{Decay, DmActivity, InvocationData, DECAY_AFTER};

fn names(commands: &[Command]) -> Vec<&str> {
    commands.iter().map(|c| c.name.as_str()).collect()
}

#[test]
fn dm_activity_new_keeps_its_arguments() {
    let a = DmActivity::new(5, Some(9), -3);
    assert_eq!(a, DmActivity { last_announced: 5, until: Some(9), count: -3 });
    let b = DmActivity::new(i64::MIN, None, i16::MAX);
    assert_eq!((b.last_announced, b.until, b.count), (i64::MIN, None, i16::MAX));
}

#[test]
fn plain_records_hold_their_fields() {
    assert_ne!(EmoteUsageType::Message, EmoteUsageType::Reaction);
    assert_ne!(StarboardStatus::InReview, StarboardStatus::Accepted);
    assert_ne!(StarboardStatus::Accepted, StarboardStatus::Denied);
    assert_ne!(AuthenticationStandbyError::Canceled, AuthenticationStandbyError::Timeout);
    let data = MessageData { id: 1, channel_id: 2, guild_id: None, user_id: 3 };
    assert_eq!(data, MessageData { id: 1, channel_id: 2, guild_id: None, user_id: 3 });
    let invocation = InvocationData { cooldown_remaining: Some(std::time::Duration::from_secs(3)) };
    assert_eq!(invocation.cooldown_remaining.unwrap().as_secs(), 3);
    let star = StarboardMessage {
        id: 1,
        user_id: 2,
        username: String::from("u"),
        avatar_url: None,
        content: String::from("c"),
        channel_id: 3,
        message_id: 4,
        attachment_urls: vec![String::from("a")],
        star_count: 5,
        starboard_status: StarboardStatus::InReview,
        starboard_message_id: 6,
        starboard_message_channel: 7,
        reply_message_id: None,
        reply_username: None,
        reply_user_id: None,
        forwarded: false,
    };
    assert_eq!(star.star_count, 5);
    assert_eq!(star.starboard_status, StarboardStatus::InReview);
}

#[test]
fn decay_counts_down_after_five_seconds() {
    assert_eq!(DECAY_AFTER, 5);
    let mut d = Decay { val: 2, last_update: 100 };
    assert!(!d.decay(105));
    assert_eq!(d, Decay { val: 2, last_update: 100 });
    assert!(!d.decay(106));
    assert_eq!(d.val, 1);
    assert!(d.decay(200));
    assert_eq!(d.val, 0);
    let mut early = Decay { val: 1, last_update: 100 };
    assert!(!early.decay(50));
    assert_eq!(early.val, 1);
    // a spent count stays spent while no decay is due
    let mut spent = Decay { val: 0, last_update: 100 };
    assert!(spent.decay(103));
    assert_eq!(spent, Decay { val: 0, last_update: 100 });
}

#[test]
fn map_holder_bits_round_trip() {
    for bits in 0..=255u8 {
        assert_eq!(UserMapHolder::from_bits(bits).bits(), bits);
    }
    assert_eq!(UserMapHolder::new().bits(), 0);
}

#[test]
fn map_holder_flags_are_in_declaration_order() {
    let mut holder = UserMapHolder::new();
    holder.set(RANKED_TAIKO, true);
    holder.set(LOVED_CATCH, true);
    assert_eq!(holder.bits(), 0b1000_0100);
    assert!(holder.ranked_taiko());
    assert!(holder.loved_catch());
    assert!(!holder.ranked_std());
    assert!(!holder.ranked_mania());
    assert!(!holder.ranked_catch());
    assert!(!holder.loved_std());
    assert!(!holder.loved_mania());
    assert!(!holder.loved_taiko());
    holder.set(RANKED_TAIKO, false);
    assert_eq!(holder.bits(), 0b1000_0000);
    assert_eq!(
        [RANKED_STD, RANKED_MANIA, RANKED_TAIKO, RANKED_CATCH, LOVED_STD, LOVED_MANIA, LOVED_TAIKO, LOVED_CATCH],
        [1, 2, 4, 8, 16, 32, 64, 128]
    );
    assert!(UserMapHolder::from_bits(1).ranked_std());
    assert!(UserMapHolder::from_bits(2).ranked_mania());
    assert!(UserMapHolder::from_bits(8).ranked_catch());
    assert!(UserMapHolder::from_bits(16).loved_std());
    assert!(UserMapHolder::from_bits(32).loved_mania());
    assert!(UserMapHolder::from_bits(64).loved_taiko());
    assert!(UserMapHolder::from_bits(3).get(3));
    assert!(!UserMapHolder::from_bits(1).get(3));
}

#[test]
fn mapper_roles_follow_the_flags() {
    let all = UserMapHolder::all_roles();
    assert_eq!(
        all,
        vec![
            1041039012179222660,
            1041036116482080811,
            1041036580770562149,
            1041036816909881404,
            1056525314303475752,
            1120351610107858985,
            1120351662075289641,
            1120351771634712646,
        ]
    );
    assert_eq!(UserMapHolder::new().active_roles(), Vec::<u64>::new());
    assert_eq!(UserMapHolder::from_bits(255).active_roles(), all);
    assert_eq!(
        UserMapHolder::from_bits(0b0010_0101).active_roles(),
        vec![1041039012179222660, 1041036580770562149, 1120351610107858985]
    );
}

#[test]
fn lobs_are_unloaded_and_picked() {
    let mut list = LobList::new();
    assert_eq!(list.len(), 0);
    assert_eq!(get_random_lob(&list), None);
    assert_eq!(list.pick(3), None);
    assert!(list.push(String::from("a")));
    assert!(list.push(String::from("b")));
    assert!(list.push(String::from("c")));
    // a lob that is in the list is not added again
    assert!(!list.push(String::from("b")));
    assert!(list.contains(&String::from("b")));
    assert!(!list.contains(&String::from("d")));
    assert_eq!(list.len(), 3);
    assert_eq!(list.pick(0), Some(String::from("a")));
    assert_eq!(list.pick(4), Some(String::from("b")));
    assert_eq!(list.pick(u32::MAX), Some(String::from("a")));
    for _ in 0..10 {
        let lob = get_random_lob(&list).unwrap();
        assert!(["a", "b", "c"].contains(&lob.as_str()));
    }
    unload_lob(&mut list);
    assert_eq!(list.len(), 0);
    assert_eq!(get_random_lob(&list), None);
}

#[test]
fn command_tables_list_their_commands_in_order() {
    assert_eq!(names(&accela::commands()), vec!["talk", "play", "playless"]);
    assert_eq!(
        names(&cache::commands()),
        vec!["max-messages", "guild-cache-stats", "guild-user-cache"]
    );
    assert_eq!(
        names(&checks::commands()),
        vec!["allow-admin-cmd", "deny-admin-cmd", "allow_admin", "deny_admin", "bot-ban", "bot-unban"]
    );
    assert_eq!(names(&db_commands::commands()), vec!["dbstats", "sql"]);
    assert_eq!(names(&phil::commands()), vec!["unverify-all", "count-verified", "count-tagged"]);
    assert_eq!(names(&poll::commands()), vec!["polls"]);
    assert_eq!(names(&role_commands::commands()), vec!["+", "-"]);
    assert_eq!(names(&charinfo::commands()), vec!["charinfo"]);
    assert_eq!(names(&gradient::commands()), vec!["set-gradient"]);
    assert_eq!(
        names(&users::commands()),
        vec!["statuses", "playing", "dm-activity-check", "get-member", "presence"]
    );
    assert_eq!(
        names(&verification::commands()),
        vec!["verify", "update", "gamemode", "unlink", "osu", "osuhelp", "force-verify"]
    );
}

#[test]
fn command_declarations() {
    let talk = &accela::commands()[0];
    assert_eq!(talk.aliases, vec!["t", "talkmore"]);
    assert!(talk.prefix_command && talk.hide_in_help);
    assert!(!talk.slash_command && !talk.guild_only && !talk.owners_only);
    assert_eq!(talk.category, None);
    assert_eq!(talk.check, None);
    let stats = &cache::commands()[1];
    assert_eq!(stats.category.as_deref(), Some("Admin - Cache"));
    assert_eq!(stats.check.as_deref(), Some("admin"));
    assert!(stats.guild_only && stats.hide_in_help && stats.prefix_command);
    let sql = &db_commands::commands()[1];
    assert!(sql.owners_only);
    assert_eq!(sql.check, None);
    let charinfo = &charinfo::commands()[0];
    assert!(charinfo.slash_command && charinfo.prefix_command && !charinfo.hide_in_help);
    assert_eq!(charinfo.aliases, vec!["chars", "char-info"]);
    let built = Command::new("x").alias("y").category("c").check("k").prefix().slash().hidden().guild_only().owners_only();
    assert_eq!(built.name, "x");
    assert_eq!(built.aliases, vec!["y"]);
    assert!(built.prefix_command && built.slash_command && built.hide_in_help && built.guild_only && built.owners_only);
}

#[test]
fn rank_roles_by_band() {
    assert_eq!(get_role_id_for_rank(GameMode::Osu, 1), 754085973003993119);
    assert_eq!(get_role_id_for_rank(GameMode::Osu, 99), 754085973003993119);
    assert_eq!(get_role_id_for_rank(GameMode::Osu, 100), 754086188025118770);
    assert_eq!(get_role_id_for_rank(GameMode::Osu, 499_999), 754089529287245855);
    assert_eq!(get_role_id_for_rank(GameMode::Osu, 500_000), 869295874306605066);
    assert_eq!(get_role_id_for_rank(GameMode::Osu, u32::MAX), 869295874306605066);
    assert_eq!(get_role_id_for_rank(GameMode::Mania, 5_000), 754086720638681109);
    assert_eq!(get_role_id_for_rank(GameMode::Taiko, 24_999), 754089750717136906);
    assert_eq!(get_role_id_for_rank(GameMode::Catch, 50_000), 869299210883850280);
    assert_eq!(get_role_id_for_rank_opt(GameMode::Catch, None), None);
    assert_eq!(get_role_id_for_rank_opt(GameMode::Taiko, Some(7)), Some(754087013904547930));
    for mode in [GameMode::Osu, GameMode::Mania, GameMode::Taiko, GameMode::Catch] {
        let table = ranges(mode);
        assert_eq!(table.len(), 10);
        assert_eq!(table[0].min_rank, 1);
        assert_eq!(table[9].max_rank, u32::MAX);
        for pair in table.windows(2) {
            assert_eq!(pair[0].max_rank + 1, pair[1].min_rank);
        }
    }
    let gap = vec![
        RoleRange { min_rank: 1, max_rank: 5, role_id: 11 },
        RoleRange { min_rank: 3, max_rank: 9, role_id: 12 },
    ];
    assert_eq!(find_role_for_rank(&gap, 0), None);
    assert_eq!(find_role_for_rank(&gap, 4), Some(11));
    assert_eq!(find_role_for_rank(&gap, 9), Some(12));
    assert_eq!(find_role_for_rank(&gap, 10), None);
}

#[test]
fn owner_and_utility_tables_are_chained() {
    assert_eq!(
        names(&moth_core::commands::owner::commands()),
        vec![
            "max-messages",
            "guild-cache-stats",
            "guild-user-cache",
            "allow-admin-cmd",
            "deny-admin-cmd",
            "allow_admin",
            "deny_admin",
            "bot-ban",
            "bot-unban",
            "dbstats",
            "sql",
            "unverify-all",
            "count-verified",
            "count-tagged",
            "polls",
        ]
    );
    assert_eq!(
        names(&moth_core::commands::utility::commands()),
        vec![
            "statuses",
            "playing",
            "dm-activity-check",
            "get-member",
            "presence",
            "charinfo",
            "set-gradient",
        ]
    );
}

#[test]
fn option_result_turns_inside_out() {
    assert_eq!(option_result_to_option::<u8, String>(None), Ok(None));
    assert_eq!(option_result_to_option::<u8, String>(Some(Ok(3))), Ok(Some(3)));
    assert_eq!(
        option_result_to_option::<u8, String>(Some(Err(String::from("bad")))),
        Err(String::from("bad"))
    );
}

#[test]
fn map_holder_default_has_no_flag() {
    assert_eq!(UserMapHolder::default().bits(), 0);
    assert_eq!(UserMapHolder::default(), UserMapHolder::new());
}
