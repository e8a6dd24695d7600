use subscriber_set::panel::{Panel, PanelAllowedSides, PanelSide, PanelStory, DEFAULT_PANEL_SIZE};
use subscriber_set::player::{populate_player_call_status, Player};
use subscriber_set::status_bar::{StatusBar, Tool};
use subscriber_set::theme::{HighlightColor, Hsla, Theme};

#[test]
fn allowed_sides_lists_each_setting() {
    assert_eq!(PanelAllowedSides::LeftOnly.allowed_sides(), vec![PanelSide::Left]);
    assert_eq!(PanelAllowedSides::RightOnly.allowed_sides(), vec![PanelSide::Right]);
    assert_eq!(PanelAllowedSides::BottomOnly.allowed_sides(), vec![PanelSide::Bottom]);
    assert_eq!(
        PanelAllowedSides::LeftAndRight.allowed_sides(),
        vec![PanelSide::Left, PanelSide::Right]
    );
    assert_eq!(
        PanelAllowedSides::All.allowed_sides(),
        vec![PanelSide::Left, PanelSide::Right, PanelSide::Bottom]
    );
    assert_eq!(PanelAllowedSides::default(), PanelAllowedSides::LeftAndRight);
    assert_eq!(PanelSide::default(), PanelSide::Left);
}

#[test]
fn panel_builders_set_their_fields() {
    let panel = Panel::new();
    assert_eq!(panel.current_side, PanelSide::Left);
    assert_eq!(panel.allowed_sides, PanelAllowedSides::LeftAndRight);
    assert_eq!(panel.initial_width, DEFAULT_PANEL_SIZE);
    assert_eq!(panel.width, None);

    let panel = Panel::new().initial_width(300).width(320).side(PanelSide::Right);
    assert_eq!(panel.initial_width, 300);
    assert_eq!(panel.width, Some(320));
    assert_eq!(panel.current_side, PanelSide::Right);

    let panel = Panel::new().allowed_sides(PanelAllowedSides::All).side(PanelSide::Bottom);
    assert_eq!(panel.current_side, PanelSide::Bottom);

    let story = PanelStory::new();
    assert_eq!(story.panel, Panel::new());
}

#[test]
fn status_bar_fills_from_the_left_group() {
    let bar = StatusBar::new()
        .left_tool(Tool::ProjectPanel, Some(0))
        .left_tool(Tool::CollaborationPanel, Some(0));
    // Each call prepends: the newest tool comes first.
    let left = bar.left_tools.as_ref().expect("left group exists");
    assert_eq!(left.tools, vec![Tool::CollaborationPanel, Tool::ProjectPanel]);
    assert_eq!(left.active_index, Some(0));

    // A bottom tool takes the left group's tools with it, newest first,
    // and empties the left group: the bar is filled from it.
    let bar = bar.bottom_tool(Tool::Terminal, Some(1));
    assert!(bar.left_tools.is_none());
    let bottom = bar.bottom_tools.as_ref().expect("bottom group exists");
    assert_eq!(bottom.tools, vec![Tool::Terminal, Tool::CollaborationPanel, Tool::ProjectPanel]);
    assert_eq!(bottom.active_index, Some(1));

    // Rebuilding starts from an empty left group; the right group takes it.
    let bar = bar.left_tool(Tool::Diagnostics, None);
    let bar = bar.right_tool(Tool::Feedback, None);
    assert!(bar.left_tools.is_none());
    let right = bar.right_tools.as_ref().expect("right group exists");
    assert_eq!(right.tools, vec![Tool::Feedback, Tool::Diagnostics]);
    assert_eq!(right.active_index, None);
    let bottom = bar.bottom_tools.as_ref().expect("bottom group stays");
    assert_eq!(bottom.tools.len(), 3);
}

#[test]
fn theme_assigns_distinct_syntax_colors() {
    let theme = Theme::default();
    assert_eq!(HighlightColor::Default.hsla(&theme), theme.text);
    assert_eq!(HighlightColor::Comment.hsla(&theme), theme.comment);
    assert_eq!(HighlightColor::String.hsla(&theme), theme.string);
    assert_eq!(HighlightColor::Function.hsla(&theme), theme.function);
    assert_eq!(HighlightColor::Keyword.hsla(&theme), theme.keyword);
    assert_ne!(theme.keyword, theme.comment);
    assert_eq!(theme.text, Hsla { h: 0, s: 0, l: 900, a: 1000 });
}

#[test]
fn populated_call_status_stays_in_range() {
    let player = Player::new(0, "avatar".to_string(), "someone".to_string());
    let followers = vec![Player::new(1, "avatar".to_string(), "other".to_string())];
    let status = populate_player_call_status(player, Some(followers));
    assert!(status.voice_activity <= 1000);
    assert!(status.following.is_none());
    let followers = status.followers.expect("followers are kept");
    assert_eq!(followers.len(), 1);
    assert_eq!(followers[0].username, "other");
}

#[test]
fn duplicate_copies_a_player_exactly() {
    let player = Player::new(4, "avatar".to_string(), "someone".to_string());
    let copy = player.duplicate();
    assert_eq!(copy, player);
}
