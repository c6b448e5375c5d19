use moth_core::overlay::build_permission_overwrites;
use moth_core::permissions::{PermissionOverwrite, PermissionOverwriteType, Permissions, CONNECT};
use moth_core::presence::VoiceState;
use moth_core::private_vc::PrivateVc;
use moth_core::store::PrivateVcStore;
use moth_core::task::{
    choose_owner, cleanup_after_delete, decide_expired, handle_expired, Action, Actor,
    HandlerCommand, COOLDOWN, GUILD, OWNER_ABSENCE, STARTUP_SWEEP, VC_CHANNEL,
};
use moth_core::timer::{Timer, TimerKey};

fn at(channel: u64, user: u64) -> VoiceState {
    VoiceState { channel_id: Some(channel), user_id: user }
}

fn join(channel: u64, user: u64, name: &str) -> HandlerCommand {
    HandlerCommand::JoinSpecial(channel, user, String::from(name))
}

fn timer(key: TimerKey, name: &str) -> Timer {
    Timer { key, deadline: 0, display_name: String::from(name) }
}

fn idle() -> Actor {
    Actor::start(&Vec::new(), 0)
}

fn is_nothing(action: &Action) -> bool {
    matches!(action, Action::Nothing)
}

#[test]
fn constants_are_the_documented_delays() {
    assert_eq!(COOLDOWN, 30_000);
    assert_eq!(OWNER_ABSENCE, 300_000);
    assert_eq!(STARTUP_SWEEP, 5_000);
    assert_eq!(VC_CHANNEL, 1399817426723668039);
    assert_eq!(GUILD, 98226572468690944);
}

#[test]
fn first_join_to_lobby_creates_at_once() {
    let mut actor = Actor::start(&Vec::new(), 0);
    let (running, action) = actor.handle_command(join(VC_CHANNEL, 7, "Ann"), None, None, 1_000);
    assert!(running);
    match action {
        Action::CreateChannel(user, name) => {
            assert_eq!(user, 7);
            assert_eq!(name, "Ann");
        }
        _ => panic!("expected a room to be created"),
    }
    assert_eq!(actor.next_deadline(), None);
}

#[test]
fn second_join_within_cooldown_is_deferred() {
    let mut actor = Actor::start(&Vec::new(), 0);
    let _ = actor.handle_command(join(VC_CHANNEL, 7, "Ann"), None, None, 1_000);
    let (running, action) = actor.handle_command(join(VC_CHANNEL, 7, "Ann2"), None, None, 30_999);
    assert!(running);
    assert!(is_nothing(&action));
    // the deferred creation falls due when the cooldown ends
    assert_eq!(actor.next_deadline(), Some(31_000));
    assert!(actor.next_expired(30_999).is_none());
    let due = actor.next_expired(31_000).unwrap();
    assert_eq!(due.key, TimerKey::Cooldown(7));
    assert_eq!(due.display_name, "Ann2");
    assert_eq!(due.deadline, 31_000);
}

#[test]
fn join_at_end_of_cooldown_creates_at_once() {
    let mut actor = Actor::start(&Vec::new(), 0);
    let _ = actor.handle_command(join(VC_CHANNEL, 7, "Ann"), None, None, 1_000);
    let (_, action) = actor.handle_command(join(VC_CHANNEL, 7, "Ann"), None, None, 31_000);
    assert!(matches!(action, Action::CreateChannel(7, _)));
    assert_eq!(actor.next_deadline(), None);
    // the creation at 31_000 starts a new cooldown
    let (_, again) = actor.handle_command(join(VC_CHANNEL, 7, "Ann"), None, None, 31_001);
    assert!(is_nothing(&again));
    assert_eq!(actor.next_deadline(), Some(61_000));
}

#[test]
fn cooldown_is_per_user() {
    let mut actor = Actor::start(&Vec::new(), 0);
    let _ = actor.handle_command(join(VC_CHANNEL, 7, "Ann"), None, None, 1_000);
    let (_, action) = actor.handle_command(join(VC_CHANNEL, 8, "Bo"), None, None, 1_001);
    assert!(matches!(action, Action::CreateChannel(8, _)));
}

#[test]
fn later_cooldown_join_replaces_the_pending_timer() {
    let mut actor = Actor::start(&Vec::new(), 0);
    let _ = actor.handle_command(join(VC_CHANNEL, 7, "Ann"), None, None, 0);
    let _ = actor.handle_command(join(VC_CHANNEL, 7, "first"), None, None, 10);
    let _ = actor.handle_command(join(VC_CHANNEL, 7, "second"), None, None, 20);
    let due = actor.next_expired(30_000).unwrap();
    assert_eq!(due.display_name, "second");
    assert!(actor.next_expired(u64::MAX).is_none());
}

#[test]
fn expired_cooldown_creates_only_if_user_is_still_in_lobby() {
    let there = vec![at(VC_CHANNEL, 7)];
    let gone = vec![at(55, 7)];
    let action = decide_expired(&mut idle(), timer(TimerKey::Cooldown(7), "Ann"), None, Some(&there), 0, 0);
    match action {
        Action::CreateChannel(user, name) => {
            assert_eq!(user, 7);
            assert_eq!(name, "Ann");
        }
        _ => panic!("expected a room to be created"),
    }
    let action = decide_expired(&mut idle(), timer(TimerKey::Cooldown(7), "Ann"), None, Some(&gone), 0, 0);
    assert!(is_nothing(&action));
}

#[test]
fn join_to_unmanaged_channel_does_nothing() {
    let mut actor = Actor::start(&Vec::new(), 0);
    let (running, action) = actor.handle_command(join(12345, 7, "Ann"), None, None, 0);
    assert!(running);
    assert!(is_nothing(&action));
    assert_eq!(actor.next_deadline(), None);
}

#[test]
fn owner_return_cancels_owner_absence() {
    let vc = PrivateVc::new(7);
    let mut actor = Actor::start(&Vec::new(), 0);
    let others = vec![at(50, 8)];
    let (_, action) =
        actor.handle_command(HandlerCommand::LeaveVc(50, 7), Some(&vc), Some(&others), 1_000);
    assert!(is_nothing(&action));
    assert_eq!(actor.next_deadline(), Some(301_000));
    // somebody else joining does not cancel it
    let _ = actor.handle_command(join(50, 8, "Bo"), Some(&vc), Some(&others), 2_000);
    assert_eq!(actor.next_deadline(), Some(301_000));
    // the owner coming back does
    let (running, action) = actor.handle_command(join(50, 7, "Ann"), Some(&vc), Some(&others), 3_000);
    assert!(running);
    assert!(is_nothing(&action));
    assert_eq!(actor.next_deadline(), None);
}

#[test]
fn leave_of_last_owner_schedules_both_timers() {
    let vc = PrivateVc::new(7);
    let mut actor = Actor::start(&Vec::new(), 0);
    let nobody: Vec<VoiceState> = Vec::new();
    let _ = actor.handle_command(HandlerCommand::LeaveVc(50, 7), Some(&vc), Some(&nobody), 1_000);
    let first = actor.next_expired(u64::MAX).unwrap();
    let second = actor.next_expired(u64::MAX).unwrap();
    assert_eq!((first.key, first.deadline), (TimerKey::Leave(50), 31_000));
    assert_eq!((second.key, second.deadline), (TimerKey::OwnerAbsence(50, 7), 301_000));
}

#[test]
fn leave_of_guest_from_occupied_room_schedules_nothing() {
    let vc = PrivateVc::new(7);
    let mut actor = Actor::start(&Vec::new(), 0);
    let others = vec![at(50, 7)];
    let _ = actor.handle_command(HandlerCommand::LeaveVc(50, 8), Some(&vc), Some(&others), 1_000);
    assert_eq!(actor.next_deadline(), None);
}

#[test]
fn leave_without_snapshot_counts_channel_as_occupied() {
    let mut actor = Actor::start(&Vec::new(), 0);
    let _ = actor.handle_command(HandlerCommand::LeaveVc(50, 8), None, None, 1_000);
    assert_eq!(actor.next_deadline(), None);
}

#[test]
fn shutdown_stops_the_actor() {
    let mut actor = Actor::start(&vec![1], 0);
    let (running, action) = actor.handle_command(HandlerCommand::Shutdown, None, None, 9);
    assert!(!running);
    assert!(is_nothing(&action));
    assert_eq!(actor.next_deadline(), Some(5_000));
}

#[test]
fn empty_room_is_deleted_after_thirty_seconds() {
    let vc = PrivateVc::new(7);
    let mut store = PrivateVcStore::new();
    store.create_private_vc(50, vc.clone());
    let mut actor = Actor::start(&Vec::new(), 0);
    let nobody: Vec<VoiceState> = Vec::new();
    let guest_vc = store.get_private_vc(50);
    let _ = actor.handle_command(
        HandlerCommand::LeaveVc(50, 8),
        guest_vc.as_ref(),
        Some(&nobody),
        10_000,
    );
    assert!(actor.next_expired(39_999).is_none());
    let due = actor.next_expired(40_000).unwrap();
    assert_eq!(due.key, TimerKey::Leave(50));
    let action = decide_expired(&mut actor, due, store.get_private_vc(50).as_ref(), Some(&nobody), 0, 0);
    let channel = match action {
        Action::DeleteChannel(channel) => channel,
        _ => panic!("expected the room to be deleted"),
    };
    assert_eq!(channel, 50);
    // a failed deletion leaves the row, a successful one removes it
    assert_eq!(cleanup_after_delete(channel, false), None);
    assert!(store.contains(50));
    assert_eq!(cleanup_after_delete(channel, true), Some(50));
    assert!(store.delete_private_vc(50));
    assert!(!store.contains(50));
}

#[test]
fn room_that_filled_again_is_kept() {
    let back = vec![at(50, 8)];
    let action = decide_expired(&mut idle(), timer(TimerKey::Leave(50), ""), None, Some(&back), 0, 0);
    assert!(is_nothing(&action));
    let action = decide_expired(&mut idle(), timer(TimerKey::Leave(50), ""), None, None, 0, 0);
    assert!(is_nothing(&action));
}

#[test]
fn lobby_is_never_deleted() {
    let nobody: Vec<VoiceState> = Vec::new();
    let action = decide_expired(&mut idle(), timer(TimerKey::Leave(VC_CHANNEL), ""), None, Some(&nobody), 0, 0);
    assert!(is_nothing(&action));
    let mut actor = Actor::start(&Vec::new(), 0);
    let _ = actor.handle_command(HandlerCommand::LeaveVc(VC_CHANNEL, 8), None, Some(&nobody), 0);
    let due = actor.next_expired(30_000).unwrap();
    assert_eq!(due.key, TimerKey::Leave(VC_CHANNEL));
    assert!(is_nothing(&handle_expired(&mut actor, due, None, Some(&nobody), 0)));
}

#[test]
fn choose_owner_takes_random_modulo_length() {
    let users = vec![10, 20, 30];
    assert_eq!(choose_owner(&users, 0), 10);
    assert_eq!(choose_owner(&users, 1), 20);
    assert_eq!(choose_owner(&users, 5), 30);
    assert_eq!(choose_owner(&users, u32::MAX), 10);
    assert_eq!(choose_owner(&vec![42], 7), 42);
}

#[test]
fn ownership_handoff_scenario() {
    let mut vc = PrivateVc::new(7);
    vc.message_id = Some(900);
    vc.allowlist_users = vec![8];
    vc.denylist_users = vec![66];
    let mut store = PrivateVcStore::new();
    store.create_private_vc(50, vc);
    let mut actor = Actor::start(&Vec::new(), 0);
    // the owner leaves at T, two guests stay
    let stay = vec![at(50, 8), at(VC_CHANNEL, 1), at(50, 9)];
    let t = 5_000;
    let _ = actor.handle_command(
        HandlerCommand::LeaveVc(50, 7),
        store.get_private_vc(50).as_ref(),
        Some(&stay),
        t,
    );
    assert!(actor.next_expired(t + OWNER_ABSENCE - 1).is_none());
    let due = actor.next_expired(t + OWNER_ABSENCE).unwrap();
    assert_eq!(due.key, TimerKey::OwnerAbsence(50, 7));
    let action = decide_expired(&mut actor, due, store.get_private_vc(50).as_ref(), Some(&stay), 3, 0);
    let (channel, next) = match action {
        Action::TransferOwner(channel, next) => (channel, next),
        _ => panic!("expected a transfer"),
    };
    assert_eq!(channel, 50);
    // 3 modulo 2 occupants picks the second one
    assert_eq!(next.owner_id, 9);
    assert_eq!(next.message_id, Some(900));
    assert_eq!(next.allowlist_users, vec![8]);
    assert_eq!(next.denylist_users, vec![66]);
    store.create_private_vc(channel, next);
    let persisted = store.get_private_vc(50).unwrap();
    assert_eq!(persisted.owner_id, 9);
    let mut su = Vec::new();
    let mut sr = Vec::new();
    let acl = build_permission_overwrites(&persisted, &Vec::new(), &mut su, &mut sr);
    assert_eq!(
        acl.last(),
        Some(&PermissionOverwrite {
            allow: Permissions::from_bits(CONNECT),
            deny: Permissions::from_bits(0),
            kind: PermissionOverwriteType::Member(9),
        })
    );
}

#[test]
fn handoff_is_dropped_when_owner_is_back_or_room_is_empty_or_gone() {
    let vc = PrivateVc::new(7);
    let back = vec![at(50, 7), at(50, 8)];
    let empty = vec![at(51, 8)];
    let guests = vec![at(50, 8)];
    let key = TimerKey::OwnerAbsence(50, 7);
    assert!(is_nothing(&decide_expired(&mut idle(), timer(key, ""), Some(&vc), Some(&back), 0, 0)));
    assert!(is_nothing(&decide_expired(&mut idle(), timer(key, ""), Some(&vc), Some(&empty), 0, 0)));
    assert!(is_nothing(&decide_expired(&mut idle(), timer(key, ""), None, Some(&guests), 0, 0)));
    assert!(is_nothing(&decide_expired(&mut idle(), timer(key, ""), Some(&vc), None, 0, 0)));
}

#[test]
fn handle_expired_picks_one_of_the_occupants() {
    let vc = PrivateVc::new(7);
    let guests = vec![at(50, 8), at(50, 9), at(50, 10)];
    for _ in 0..20 {
        let action =
            handle_expired(&mut idle(), timer(TimerKey::OwnerAbsence(50, 7), ""), Some(&vc), Some(&guests), 0);
        match action {
            Action::TransferOwner(50, next) => assert!([8, 9, 10].contains(&next.owner_id)),
            _ => panic!("expected a transfer"),
        }
    }
}

#[test]
fn startup_sweep_scenario() {
    let mut store = PrivateVcStore::new();
    store.create_private_vc(101, PrivateVc::new(1));
    store.create_private_vc(102, PrivateVc::new(2));
    store.create_private_vc(103, PrivateVc::new(3));
    let now = 1_000_000;
    let mut actor = Actor::start(&store.channels(), now);
    // only 102 is empty
    let states = vec![at(101, 1), at(103, 3), at(103, 4)];
    assert_eq!(actor.next_deadline(), Some(now + STARTUP_SWEEP));
    assert!(actor.next_expired(now + STARTUP_SWEEP - 1).is_none());
    let mut deleted = Vec::new();
    let mut looked_at = Vec::new();
    while let Some(due) = actor.next_expired(now + STARTUP_SWEEP) {
        looked_at.push(due.key);
        let vc = store.get_private_vc(match due.key {
            TimerKey::Leave(channel) => channel,
            _ => panic!("only leave timers are scheduled at the start"),
        });
        if let Action::DeleteChannel(channel) = handle_expired(&mut actor, due, vc.as_ref(), Some(&states), now + STARTUP_SWEEP) {
            if let Some(row) = cleanup_after_delete(channel, true) {
                assert!(store.delete_private_vc(row));
            }
            deleted.push(channel);
        }
    }
    assert_eq!(
        looked_at,
        vec![TimerKey::Leave(101), TimerKey::Leave(102), TimerKey::Leave(103)]
    );
    assert_eq!(deleted, vec![102]);
    assert!(store.contains(101));
    assert!(!store.contains(102));
    assert!(store.contains(103));
    assert_eq!(actor.next_deadline(), None);
}

#[test]
fn join_after_a_deferred_creation_is_deferred_again() {
    let mut actor = Actor::start(&Vec::new(), 0);
    let lobby = vec![at(VC_CHANNEL, 7)];
    // a room at once at 1_000, a second join in the cooldown, a room when the timer falls due
    let _ = actor.handle_command(join(VC_CHANNEL, 7, "Ann"), None, Some(&lobby), 1_000);
    let _ = actor.handle_command(join(VC_CHANNEL, 7, "Ann"), None, Some(&lobby), 2_000);
    let due = actor.next_expired(31_000).unwrap();
    assert_eq!(due.key, TimerKey::Cooldown(7));
    let action = handle_expired(&mut actor, due, None, Some(&lobby), 31_050);
    assert!(matches!(action, Action::CreateChannel(7, _)));
    // 30 s after the first room, but only 10 s after the second
    let (_, action) = actor.handle_command(join(VC_CHANNEL, 7, "Ann"), None, Some(&lobby), 41_050);
    assert!(is_nothing(&action));
    assert_eq!(actor.next_deadline(), Some(61_050));
    // when the cooldown of the second room has passed, a room is created at once
    let mut later = Actor::start(&Vec::new(), 0);
    let _ = decide_expired(
        &mut later,
        timer(TimerKey::Cooldown(7), "Ann"),
        None,
        Some(&lobby),
        0,
        31_050,
    );
    let (_, action) = later.handle_command(join(VC_CHANNEL, 7, "Ann"), None, Some(&lobby), 61_050);
    assert!(matches!(action, Action::CreateChannel(7, _)));
}

#[test]
fn dropped_cooldown_starts_no_cooldown() {
    let mut actor = Actor::start(&Vec::new(), 0);
    let gone = vec![at(55, 7)];
    let action =
        decide_expired(&mut actor, timer(TimerKey::Cooldown(7), "Ann"), None, Some(&gone), 0, 100);
    assert!(is_nothing(&action));
    let (_, action) = actor.handle_command(join(VC_CHANNEL, 7, "Ann"), None, Some(&gone), 200);
    assert!(matches!(action, Action::CreateChannel(7, _)));
}
