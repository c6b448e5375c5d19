//! The control message of a room: the panel with which its owner manages it.

use vstd::prelude::*;
use vstd::string::*;
use crate::permissions::{MessageId, UserId};
use crate::private_vc::{PrivateVc, PrivateVcView};
use crate::text::{mention_list, push_mention, push_mention_list, user_mention};

verus! {

/// What a select menu offers.
#[derive(Clone, Copy, Debug, PartialEq, Eq, Structural)]
pub enum SelectKind {
    User,
    Mentionable,
}

/// One part of the panel.
#[derive(Debug)]
pub enum Component {
    TextDisplay(String),
    /// A row with one select menu.
    SelectMenu {
        custom_id: String,
        kind: SelectKind,
        min_values: u8,
        max_values: u8,
        placeholder: String,
    },
    /// A row with one button.
    Button { custom_id: String, label: String },
    /// A separator, with or without a line.
    Separator(bool),
}

/// A [`Component`] as mathematical values.
pub enum ComponentView {
    TextDisplay(Seq<char>),
    SelectMenu {
        custom_id: Seq<char>,
        kind: SelectKind,
        min_values: u8,
        max_values: u8,
        placeholder: Seq<char>,
    },
    Button { custom_id: Seq<char>, label: Seq<char> },
    Separator(bool),
}

impl View for Component {
    type V = ComponentView;

    open spec fn view(&self) -> ComponentView {
        match self {
            Component::TextDisplay(text) => ComponentView::TextDisplay(text@),
            Component::SelectMenu { custom_id, kind, min_values, max_values, placeholder } => {
                ComponentView::SelectMenu {
                    custom_id: custom_id@,
                    kind: *kind,
                    min_values: *min_values,
                    max_values: *max_values,
                    placeholder: placeholder@,
                }
            },
            Component::Button { custom_id, label } => ComponentView::Button {
                custom_id: custom_id@,
                label: label@,
            },
            Component::Separator(line) => ComponentView::Separator(*line),
        }
    }
}

/// The colour at the panel's edge.
pub const ACCENT_COLOUR: u32 = 0x6FC6E2;

/// The panel of a room, and whom its text may notify.
#[derive(Debug)]
pub struct ControlMessage {
    pub components: Vec<Component>,
    pub accent_colour: u32,
    /// The users that a mention in the panel notifies: the owner alone. No
    /// role is notified, nor everyone.
    pub allowed_users: Vec<UserId>,
}

/// The parts of a panel as mathematical values.
pub open spec fn parts(components: Seq<Component>) -> Seq<ComponentView> {
    components.map_values(|c: Component| c@)
}

/// The heading of the panel, with the owner's mention.
pub open spec fn owner_text(owner_id: UserId) -> Seq<char> {
    "## \u{1F4E2} Voice Channel Controls\n**Current owner:** "@ + user_mention(owner_id)
        + "\n-# \u{23F1} Owner will transfer after 5 minutes of inactivity."@
}

/// The text above the size button.
pub open spec fn settings_text() -> Seq<char> {
    "\u{1F527} **General Settings**\n-# General settings of the voice channel, mainly for convenience to everyone.\n\u{1F39B} **Voice Channel Size**"@
}

/// The text that says who is allowed: whether the room is public, then the
/// allowed roles and the allowed users, each line only where there are any.
pub open spec fn access_text(vc: PrivateVcView) -> Seq<char> {
    "\u{1F465} **Access Control**\n-# Selecting users will toggle their access, Moderators cannot be blocked from joining the VC.\n\u{2705} **Allowlist** "@
        + (if vc.is_public() {
        "(VC is currently public)"@
    } else {
        "(VC is currently private)"@
    }) + (if vc.allowlist_roles.len() > 0 {
        "\n**Allowed roles:** "@ + mention_list(vc.allowlist_roles, true)
    } else {
        Seq::empty()
    }) + (if vc.allowlist_users.len() > 0 {
        "\n**Allowed users:** "@ + mention_list(vc.allowlist_users, false)
    } else {
        Seq::empty()
    })
}

/// The text that says who is denied.
pub open spec fn deny_text(vc: PrivateVcView) -> Seq<char> {
    "\u{1F6AB} **Denylist**"@ + (if vc.denylist_users.len() > 0 {
        "\n**Blocked users:** "@ + mention_list(vc.denylist_users, false)
    } else {
        Seq::empty()
    })
}

/// The text above the menu that disconnects a user.
pub open spec fn disconnect_text() -> Seq<char> {
    "\u{1F6D1} **User Management**\n-# Somebody bothering you? You can remove them if you like!\n\u{274C} **Disconnect Users**"@
}

/// A select menu as a part of the panel.
pub open spec fn menu(
    custom_id: Seq<char>,
    kind: SelectKind,
    min_values: u8,
    max_values: u8,
    placeholder: Seq<char>,
) -> ComponentView {
    ComponentView::SelectMenu { custom_id, kind, min_values, max_values, placeholder }
}

/// The parts of the panel of a room, top to bottom.
pub open spec fn control_components(vc: PrivateVcView) -> Seq<ComponentView> {
    seq![
        ComponentView::TextDisplay(owner_text(vc.owner_id)),
        menu("owner_pvc_"@, SelectKind::User, 1, 1, "Select new owner"@),
        ComponentView::Separator(true),
        ComponentView::TextDisplay(settings_text()),
        ComponentView::Button { custom_id: "size_pvc_"@, label: "Change size"@ },
        ComponentView::Separator(true),
        ComponentView::TextDisplay(access_text(vc)),
        menu("allowlist_pvc_"@, SelectKind::Mentionable, 0, 25, "Toggle allowed users/roles"@),
        ComponentView::TextDisplay(deny_text(vc)),
        menu("denylist_pvc_"@, SelectKind::User, 0, 25, "Toggle denied users"@),
        ComponentView::Separator(true),
        ComponentView::TextDisplay(disconnect_text()),
        menu("disconnect_pvc_"@, SelectKind::User, 1, 1, "Disconnect user"@),
    ]
}

fn select_menu(custom_id: &str, kind: SelectKind, min_values: u8, max_values: u8, placeholder: &str) -> (r:
    Component)
    ensures
        r@ == menu(custom_id@, kind, min_values, max_values, placeholder@),
{
    Component::SelectMenu {
        custom_id: String::from_str(custom_id),
        kind,
        min_values,
        max_values,
        placeholder: String::from_str(placeholder),
    }
}

fn owner_display(owner_id: UserId) -> (text: String)
    ensures
        text@ == owner_text(owner_id),
{
    let mut text = String::from_str("## \u{1F4E2} Voice Channel Controls\n**Current owner:** ");
    push_mention(&mut text, owner_id, false);
    text.append("\n-# \u{23F1} Owner will transfer after 5 minutes of inactivity.");
    text
}

fn access_display(private_vc: &PrivateVc) -> (text: String)
    ensures
        text@ == access_text(private_vc@),
{
    let mut text = String::from_str(
        "\u{1F465} **Access Control**\n-# Selecting users will toggle their access, Moderators cannot be blocked from joining the VC.\n\u{2705} **Allowlist** ",
    );
    if private_vc.is_public() {
        text.append("(VC is currently public)");
    } else {
        text.append("(VC is currently private)");
    }
    if !private_vc.allowlist_roles.is_empty() {
        text.append("\n**Allowed roles:** ");
        push_mention_list(&mut text, &private_vc.allowlist_roles, true);
    }
    if !private_vc.allowlist_users.is_empty() {
        text.append("\n**Allowed users:** ");
        push_mention_list(&mut text, &private_vc.allowlist_users, false);
    }
    assert(text@ =~= access_text(private_vc@));
    text
}

fn deny_display(private_vc: &PrivateVc) -> (text: String)
    ensures
        text@ == deny_text(private_vc@),
{
    let mut text = String::from_str("\u{1F6AB} **Denylist**");
    if !private_vc.denylist_users.is_empty() {
        text.append("\n**Blocked users:** ");
        push_mention_list(&mut text, &private_vc.denylist_users, false);
    }
    assert(text@ =~= deny_text(private_vc@));
    text
}

/// Draws the panel of a room from its configuration.
pub fn message(private_vc: &PrivateVc) -> (panel: ControlMessage)
    ensures
        parts(panel.components@) == control_components(private_vc@),
        panel.accent_colour == ACCENT_COLOUR,
        panel.allowed_users@ == seq![private_vc.owner_id],
{
    let mut components: Vec<Component> = Vec::new();
    components.push(Component::TextDisplay(owner_display(private_vc.owner_id)));
    components.push(select_menu("owner_pvc_", SelectKind::User, 1, 1, "Select new owner"));
    components.push(Component::Separator(true));
    components.push(
        Component::TextDisplay(
            String::from_str(
                "\u{1F527} **General Settings**\n-# General settings of the voice channel, mainly for convenience to everyone.\n\u{1F39B} **Voice Channel Size**",
            ),
        ),
    );
    components.push(
        Component::Button {
            custom_id: String::from_str("size_pvc_"),
            label: String::from_str("Change size"),
        },
    );
    components.push(Component::Separator(true));
    components.push(Component::TextDisplay(access_display(private_vc)));
    components.push(
        select_menu(
            "allowlist_pvc_",
            SelectKind::Mentionable,
            0,
            25,
            "Toggle allowed users/roles",
        ),
    );
    components.push(Component::TextDisplay(deny_display(private_vc)));
    components.push(select_menu("denylist_pvc_", SelectKind::User, 0, 25, "Toggle denied users"));
    components.push(Component::Separator(true));
    components.push(
        Component::TextDisplay(
            String::from_str(
                "\u{1F6D1} **User Management**\n-# Somebody bothering you? You can remove them if you like!\n\u{274C} **Disconnect Users**",
            ),
        ),
    );
    components.push(select_menu("disconnect_pvc_", SelectKind::User, 1, 1, "Disconnect user"));
    assert(parts(components@) =~= control_components(private_vc@));
    let mut allowed_users: Vec<UserId> = Vec::new();
    allowed_users.push(private_vc.owner_id);
    assert(allowed_users@ =~= seq![private_vc.owner_id]);
    ControlMessage { components, accent_colour: ACCENT_COLOUR, allowed_users }
}

/// The text that the panel is blanked with before it is drawn anew.
pub open spec fn blank_text() -> Seq<char> {
    "_ _"@
}

/// The text that the panel is blanked with before it is drawn anew.
pub fn blank() -> (text: String)
    ensures
        text@ == blank_text(),
{
    String::from_str("_ _")
}

/// How a room's panel gets onto the screen.
#[derive(Clone, Copy, Debug, PartialEq, Eq, Structural)]
pub enum Delivery {
    /// Blank the message with this identifier, then draw the panel into it.
    Edit(MessageId),
    /// Send the panel as a new message and persist its identifier.
    Send,
}

/// The first try: a room with a control message has it edited, a room
/// without one gets a new message.
pub fn delivery(message_id: Option<MessageId>) -> (r: Delivery)
    ensures
        r == match message_id {
            Some(id) => Delivery::Edit(id),
            None => Delivery::Send,
        },
{
    match message_id {
        Some(id) => Delivery::Edit(id),
        None => Delivery::Send,
    }
}

/// Whether the panel is to be sent as a new message after the two edits were
/// tried: it is where either of them failed.
pub fn resend_after_edit(blank_edited: bool, panel_edited: bool) -> (r: bool)
    ensures
        r == (!blank_edited || !panel_edited),
{
    !blank_edited || !panel_edited
}

} // verus!
