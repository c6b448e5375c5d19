use moth_core::presence::{
    check_channel, get_vc_users, movement, vc_has_people, vc_has_user, Movement, VoiceState,
};
use moth_core::task::{HandlerCommand, GUILD, VC_CHANNEL};

fn at(channel: u64, user: u64) -> VoiceState {
    VoiceState { channel_id: Some(channel), user_id: user }
}

#[test]
fn occupants_are_listed_in_snapshot_order() {
    let states = vec![
        at(1, 10),
        at(2, 11),
        VoiceState { channel_id: None, user_id: 12 },
        at(1, 13),
    ];
    assert_eq!(get_vc_users(Some(&states), 1), vec![10, 13]);
    assert_eq!(get_vc_users(Some(&states), 2), vec![11]);
    assert_eq!(get_vc_users(Some(&states), 3), Vec::<u64>::new());
    assert_eq!(get_vc_users(None, 1), Vec::<u64>::new());
}

#[test]
fn presence_is_assumed_without_snapshot() {
    let states = vec![at(1, 10)];
    assert!(vc_has_people(Some(&states), 1));
    assert!(!vc_has_people(Some(&states), 2));
    assert!(vc_has_people(None, 2));
    assert!(vc_has_user(Some(&states), 1, 10));
    assert!(!vc_has_user(Some(&states), 1, 11));
    assert!(!vc_has_user(Some(&states), 2, 10));
    assert!(vc_has_user(None, 2, 10));
}

#[test]
fn movement_reads_join_leave_and_move() {
    assert_eq!(movement(None, Some(5)), Movement { joined: Some(5), left: None });
    assert_eq!(movement(None, None), Movement { joined: None, left: None });
    assert_eq!(movement(Some(None), Some(5)), Movement { joined: Some(5), left: None });
    assert_eq!(movement(Some(Some(4)), None), Movement { joined: None, left: Some(4) });
    assert_eq!(movement(Some(Some(4)), Some(5)), Movement { joined: Some(5), left: Some(4) });
    // a change of mute state inside one channel is no movement
    assert_eq!(movement(Some(Some(4)), Some(4)), Movement { joined: None, left: None });
    assert_eq!(movement(Some(None), None), Movement { joined: None, left: None });
}

#[test]
fn check_channel_reports_lobby_join() {
    let (join, leave) =
        check_channel(Some(GUILD), None, Some(VC_CHANNEL), 7, Some(String::from("Ann")), false, false);
    match join {
        Some(HandlerCommand::JoinSpecial(channel, user, name)) => {
            assert_eq!(channel, VC_CHANNEL);
            assert_eq!(user, 7);
            assert_eq!(name, "Ann");
        }
        _ => panic!("expected a join"),
    }
    assert!(leave.is_none());
}

#[test]
fn check_channel_reports_move_between_watched_channels() {
    let (join, leave) = check_channel(
        Some(GUILD),
        Some(Some(VC_CHANNEL)),
        Some(50),
        7,
        Some(String::from("Ann")),
        true,
        false,
    );
    assert!(matches!(join, Some(HandlerCommand::JoinSpecial(50, 7, _))));
    assert!(matches!(leave, Some(HandlerCommand::LeaveVc(VC_CHANNEL, 7))));
}

#[test]
fn check_channel_ignores_unwatched_channels_and_other_guilds() {
    let name = || Some(String::from("Ann"));
    let (join, leave) = check_channel(Some(GUILD), Some(Some(60)), Some(61), 7, name(), false, false);
    assert!(join.is_none() && leave.is_none());
    let (join, leave) = check_channel(Some(GUILD), Some(Some(60)), Some(61), 7, name(), false, true);
    assert!(join.is_none());
    assert!(matches!(leave, Some(HandlerCommand::LeaveVc(60, 7))));
    let (join, leave) = check_channel(Some(1), None, Some(VC_CHANNEL), 7, name(), false, false);
    assert!(join.is_none() && leave.is_none());
    let (join, leave) = check_channel(None, None, Some(VC_CHANNEL), 7, name(), false, false);
    assert!(join.is_none() && leave.is_none());
}

#[test]
fn check_channel_without_user_reports_nothing_for_a_watched_join() {
    let (join, leave) = check_channel(Some(GUILD), Some(Some(50)), Some(VC_CHANNEL), 7, None, false, true);
    assert!(join.is_none() && leave.is_none());
    // a plain leave needs no name
    let (join, leave) = check_channel(Some(GUILD), Some(Some(50)), None, 7, None, false, true);
    assert!(join.is_none());
    assert!(matches!(leave, Some(HandlerCommand::LeaveVc(50, 7))));
}
