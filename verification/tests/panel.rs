use moth_core::panel::{
    blank, delivery, message, resend_after_edit, Component, Delivery, SelectKind, ACCENT_COLOUR,
};
use moth_core::private_vc::PrivateVc;
use moth_core::replies::{disconnect_reply, send_update_message, size_reply, Reply};
use moth_core::text::{mentions_of, push_decimal, push_mention};

fn text_of(component: &Component) -> &str {
    match component {
        Component::TextDisplay(text) => text,
        _ => panic!("expected a text"),
    }
}

fn menu_of(component: &Component) -> (&str, SelectKind, u8, u8, &str) {
    match component {
        Component::SelectMenu { custom_id, kind, min_values, max_values, placeholder } => {
            (custom_id, *kind, *min_values, *max_values, placeholder)
        }
        _ => panic!("expected a select menu"),
    }
}

#[test]
fn decimal_text_of_numbers() {
    for (n, expected) in [
        (0u64, "0"),
        (7, "7"),
        (10, "10"),
        (99, "99"),
        (100, "100"),
        (1399817426723668039, "1399817426723668039"),
        (u64::MAX, "18446744073709551615"),
    ] {
        let mut text = String::from("n=");
        push_decimal(&mut text, n);
        assert_eq!(text, format!("n={expected}"));
    }
}

#[test]
fn mentions_of_users_and_roles() {
    let mut text = String::new();
    push_mention(&mut text, 42, false);
    push_mention(&mut text, 43, true);
    assert_eq!(text, "<@42><@&43>");
    assert_eq!(mentions_of(&Vec::new(), false), "");
    assert_eq!(mentions_of(&vec![1], false), "<@1>");
    assert_eq!(mentions_of(&vec![1, 20, 300], false), "<@1>, <@20>, <@300>");
    assert_eq!(mentions_of(&vec![1, 20], true), "<@&1>, <@&20>");
}

#[test]
fn panel_of_public_room() {
    let vc = PrivateVc::new(291089948709486593);
    let panel = message(&vc);
    assert_eq!(panel.accent_colour, 0x6FC6E2);
    assert_eq!(ACCENT_COLOUR, 0x6FC6E2);
    assert_eq!(panel.allowed_users, vec![291089948709486593]);
    let c = &panel.components;
    assert_eq!(c.len(), 13);
    assert_eq!(
        text_of(&c[0]),
        "## \u{1F4E2} Voice Channel Controls\n**Current owner:** <@291089948709486593>\n-# \u{23F1} Owner will transfer after 5 minutes of inactivity."
    );
    assert_eq!(menu_of(&c[1]), ("owner_pvc_", SelectKind::User, 1, 1, "Select new owner"));
    assert!(matches!(c[2], Component::Separator(true)));
    assert_eq!(
        text_of(&c[3]),
        "\u{1F527} **General Settings**\n-# General settings of the voice channel, mainly for convenience to everyone.\n\u{1F39B} **Voice Channel Size**"
    );
    match &c[4] {
        Component::Button { custom_id, label } => {
            assert_eq!(custom_id, "size_pvc_");
            assert_eq!(label, "Change size");
        }
        _ => panic!("expected a button"),
    }
    assert!(matches!(c[5], Component::Separator(true)));
    assert_eq!(
        text_of(&c[6]),
        "\u{1F465} **Access Control**\n-# Selecting users will toggle their access, Moderators cannot be blocked from joining the VC.\n\u{2705} **Allowlist** (VC is currently public)"
    );
    assert_eq!(
        menu_of(&c[7]),
        ("allowlist_pvc_", SelectKind::Mentionable, 0, 25, "Toggle allowed users/roles")
    );
    assert_eq!(text_of(&c[8]), "\u{1F6AB} **Denylist**");
    assert_eq!(menu_of(&c[9]), ("denylist_pvc_", SelectKind::User, 0, 25, "Toggle denied users"));
    assert!(matches!(c[10], Component::Separator(true)));
    assert_eq!(
        text_of(&c[11]),
        "\u{1F6D1} **User Management**\n-# Somebody bothering you? You can remove them if you like!\n\u{274C} **Disconnect Users**"
    );
    assert_eq!(menu_of(&c[12]), ("disconnect_pvc_", SelectKind::User, 1, 1, "Disconnect user"));
}

#[test]
fn panel_of_private_room_lists_who_is_allowed_and_denied() {
    let mut vc = PrivateVc::new(1);
    vc.allowlist_roles = vec![10, 11];
    vc.allowlist_users = vec![20];
    vc.denylist_users = vec![30, 31];
    let panel = message(&vc);
    assert_eq!(
        text_of(&panel.components[6]),
        "\u{1F465} **Access Control**\n-# Selecting users will toggle their access, Moderators cannot be blocked from joining the VC.\n\u{2705} **Allowlist** (VC is currently private)\n**Allowed roles:** <@&10>, <@&11>\n**Allowed users:** <@20>"
    );
    assert_eq!(
        text_of(&panel.components[8]),
        "\u{1F6AB} **Denylist**\n**Blocked users:** <@30>, <@31>"
    );
}

#[test]
fn panel_with_only_allowed_users() {
    let mut vc = PrivateVc::new(1);
    vc.allowlist_users = vec![20, 21];
    let panel = message(&vc);
    assert_eq!(
        text_of(&panel.components[6]),
        "\u{1F465} **Access Control**\n-# Selecting users will toggle their access, Moderators cannot be blocked from joining the VC.\n\u{2705} **Allowlist** (VC is currently private)\n**Allowed users:** <@20>, <@21>"
    );
}

#[test]
fn panel_delivery() {
    assert_eq!(delivery(None), Delivery::Send);
    assert_eq!(delivery(Some(5)), Delivery::Edit(5));
    assert!(!resend_after_edit(true, true));
    assert!(resend_after_edit(false, true));
    assert!(resend_after_edit(true, false));
    assert!(resend_after_edit(false, false));
    assert_eq!(blank(), "_ _");
}

#[test]
fn reply_texts() {
    assert_eq!(
        Reply::NotOwner.text(),
        "You need to be the owner of the private vc in order to do this!"
    );
    assert_eq!(
        Reply::OwnerNotInVoice.text(),
        "The user is not in the VC and therefore owner cannot be changed."
    );
    assert_eq!(Reply::OwnerChanged(12).text(), "Changed owner to <@12>");
    assert_eq!(
        Reply::SizeInvalid.text(),
        "Input could not be parsed as a number between 0 and 99."
    );
    assert_eq!(Reply::SizeUpdated(0).text(), "Successfully updated user limit to 0");
    assert_eq!(Reply::SizeUpdated(99).text(), "Successfully updated user limit to 99");
    assert_eq!(Reply::NotInChannel.text(), "This user is not in the voice channel.");
    assert_eq!(
        Reply::Moderator.text(),
        "It is not possible to disconnect moderators, please ask them kindly to leave."
    );
    assert_eq!(Reply::Disconnected(5).text(), "Successfully disconnected <@5>");
    assert_eq!(
        Reply::DisconnectFailed(5).text(),
        "Could not disconnect <@5> for unknown reason."
    );
    assert_eq!(disconnect_reply(5, true), Reply::Disconnected(5));
    assert_eq!(disconnect_reply(5, false), Reply::DisconnectFailed(5));
    assert_eq!(size_reply(Some(3)), Reply::SizeUpdated(3));
    assert_eq!(size_reply(None), Reply::SizeInvalid);
}

#[test]
fn update_message_lists_what_was_stripped() {
    assert_eq!(
        send_update_message(&Vec::new(), &Vec::new()),
        "Successfully updated permissions for the voice channel.\n"
    );
    assert_eq!(
        send_update_message(&vec![1, 2], &Vec::new()),
        "Successfully updated permissions for the voice channel.\nThe below user(s) have been removed from your selection because they are either a moderator or otherwise disallowed.\n<@1>, <@2>\n"
    );
    assert_eq!(
        send_update_message(&vec![1], &vec![9]),
        "Successfully updated permissions for the voice channel.\nThe below user(s) have been removed from your selection because they are either a moderator or otherwise disallowed.\n<@1>\nThe below role(s) have been removed from your selection because they are either a moderator, muted or otherwise disallowed.\n<@&9>\n"
    );
    assert_eq!(
        send_update_message(&Vec::new(), &vec![9, 8]),
        "Successfully updated permissions for the voice channel.\nThe below role(s) have been removed from your selection because they are either a moderator, muted or otherwise disallowed.\n<@&9>, <@&8>\n"
    );
}
