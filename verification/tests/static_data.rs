use subscriber_set::buffer::BufferRows;
use subscriber_set::elements::{
    FileSystemStatus, GitStatus, Icon, LabelColor, ListEntrySize, ListItem, ToggleState,
};
use subscriber_set::player::{MicStatus, ScreenShareStatus, VideoStatus};
use subscriber_set::static_data::{
    create_static_players, empty_buffer_example, empty_editor_example, example_editor_actions,
    hello_world_rust_buffer_example, hello_world_rust_buffer_rows,
    hello_world_rust_buffer_with_status_example, hello_world_rust_editor_example,
    hello_world_rust_editor_with_status_example, hello_world_rust_with_status_buffer_rows,
    random_players_with_call_status, static_collab_panel_channels,
    static_collab_panel_current_call, static_livestream, static_notification_items,
    static_player_1, static_player_10, static_player_data, static_players,
    static_players_with_call_status, static_project_panel_project_items,
    static_project_panel_single_items, static_tabs_1, static_tabs_2, static_tabs_3,
    static_tabs_example, terminal_buffer, terminal_buffer_rows,
};
use subscriber_set::theme::Theme;

#[test]
fn tabs_example_has_the_expected_strip() {
    let tabs = static_tabs_example();
    assert_eq!(tabs.len(), 10);
    assert_eq!(tabs[0].title, "wip.rs");
    assert_eq!(tabs[0].icon, Some(Icon::FileRust));
    assert_eq!(tabs[0].fs_status, FileSystemStatus::Deleted);
    assert_eq!(tabs[0].git_status, GitStatus::Unchanged);
    assert!(!tabs[0].current);
    assert_eq!(tabs[1].title, "Cargo.toml");
    assert_eq!(tabs[1].icon, Some(Icon::FileToml));
    assert_eq!(tabs[1].git_status, GitStatus::Modified);
    assert_eq!(tabs[2].title, "Channels Panel");
    assert_eq!(tabs[2].icon, Some(Icon::Hash));
    assert!(tabs[3].current);
    assert_eq!(tabs[6].git_status, GitStatus::Created);
    assert_eq!(tabs[9].title, "styleable_helpers.rs");
}

#[test]
fn small_tab_strips_match() {
    let tabs = static_tabs_1();
    assert_eq!(tabs.len(), 4);
    assert_eq!(tabs[0].title, "project_panel.rs");
    assert_eq!(tabs[0].fs_status, FileSystemStatus::Deleted);
    assert!(tabs[3].current);

    let tabs = static_tabs_2();
    assert_eq!(tabs.len(), 2);
    assert_eq!(tabs[1].title, "static_data.rs");
    assert!(tabs[1].current);

    let tabs = static_tabs_3();
    assert_eq!(tabs.len(), 1);
    assert_eq!(tabs[0].title, "");
    assert_eq!(tabs[0].icon, None);
    assert_eq!(tabs[0].git_status, GitStatus::Created);
    assert!(tabs[0].current);
}

#[test]
fn players_are_indexed_in_order() {
    let players = static_players();
    assert_eq!(players.len(), 5);
    assert_eq!(players[0].username, "nathansobo");
    assert_eq!(players[0].index, 0);
    assert_eq!(players[4].username, "maxdeviant");
    assert_eq!(players[4].index, 4);
    assert_eq!(players[1].avatar_src, "https://avatars.githubusercontent.com/u/326587?v=4");
}

#[test]
fn player_data_and_creation() {
    let data = static_player_data();
    assert_eq!(data.len(), 10);
    assert_eq!(data[0].name, "iamnbutler");
    assert_eq!(data[9].name, "maxdeviant");
    let players = create_static_players(data);
    assert_eq!(players.len(), 10);
    for (i, p) in players.iter().enumerate() {
        assert_eq!(p.index, i);
    }
    assert_eq!(players[3].username, "nathansobo");
}

#[test]
fn numbered_players_take_their_data_slot() {
    let data = static_player_data();
    let p1 = static_player_1(&data);
    assert_eq!(p1.index, 1);
    assert_eq!(p1.username, "iamnbutler");
    let p10 = static_player_10(&data);
    assert_eq!(p10.index, 10);
    assert_eq!(p10.username, "maxdeviant");
}

#[test]
fn random_call_statuses_follow_the_sample_layout() {
    let players = random_players_with_call_status(7);
    assert_eq!(players.len(), 7);
    for (i, p) in players.iter().enumerate() {
        assert_eq!(p.player.index, i);
        assert!(p.call_status.voice_activity <= 1000);
        assert!(p.call_status.following.is_none());
    }
    let followers0 = players[0].call_status.followers.as_ref().expect("first has followers");
    assert_eq!(followers0.len(), 4);
    assert_eq!(followers0[0].index, 1);
    assert_eq!(followers0[3].index, 6);
    let followers1 = players[1].call_status.followers.as_ref().expect("second has followers");
    assert_eq!(followers1.len(), 2);
    assert_eq!(followers1[0].index, 2);
    assert!(players[2].call_status.followers.is_none());
}

#[test]
fn livestream_runs_on_its_channel() {
    let stream = static_livestream();
    assert_eq!(stream.players.len(), 7);
    assert_eq!(stream.channel.as_deref(), Some("gpui2-ui"));
}

#[test]
fn handwritten_call_statuses_match() {
    let players = static_players_with_call_status();
    assert_eq!(players.len(), 5);
    assert_eq!(players[0].call_status.screen_share_status, ScreenShareStatus::Shared);
    let followers = players[0].call_status.followers.as_ref().expect("first has followers");
    assert_eq!(followers.len(), 2);
    assert_eq!(followers[0].username, "maxbrunsfeld");
    assert_eq!(followers[1].username, "iamnbutler");
    assert_eq!(players[1].call_status.voice_activity, 0);
    assert_eq!(players[1].call_status.mic_status, MicStatus::Unmuted);
    assert_eq!(players[1].call_status.video_status, VideoStatus::Off);
    assert_eq!(players[3].call_status.voice_activity, 500);
    assert_eq!(players[4].call_status.mic_status, MicStatus::Muted);
    assert!(!players[4].call_status.in_current_project);
    assert!(players[2].call_status.in_current_project);
}

#[test]
fn project_panel_tree_matches() {
    let items = static_project_panel_project_items();
    assert_eq!(items.len(), 36);
    let ListItem::Entry(first) = &items[0];
    assert_eq!(first.label.text, "zed");
    assert_eq!(first.left_icon, Some(Icon::FolderOpen));
    assert_eq!(first.indent_level, 0);
    assert_eq!(first.toggle, Some(ToggleState::Toggled));
    let ListItem::Entry(git) = &items[3];
    assert_eq!(git.label.text, ".git");
    assert_eq!(git.label.color, LabelColor::Hidden);
    let ListItem::Entry(sqlez) = &items[15];
    assert_eq!(sqlez.label.text, "sqlez");
    assert_eq!(sqlez.label.color, LabelColor::Modified);
    assert_eq!(sqlez.toggle, Some(ToggleState::NotToggled));
    let ListItem::Entry(facepile) = &items[24];
    assert_eq!(facepile.label.text, "facepile.rs");
    assert_eq!(facepile.indent_level, 6);
    let ListItem::Entry(last) = &items[35];
    assert_eq!(last.label.text, "README.md");
    assert_eq!(last.left_icon, Some(Icon::FileDoc));
}

#[test]
fn single_items_and_notifications_match() {
    let items = static_project_panel_single_items();
    assert_eq!(items.len(), 3);
    let ListItem::Entry(todo) = &items[0];
    assert_eq!(todo.label.text, "todo.md");
    assert_eq!(todo.indent_level, 0);

    let items = static_notification_items();
    assert_eq!(items.len(), 2);
    let ListItem::Entry(first) = &items[0];
    assert_eq!(first.label.text, "maxbrunsfeld acceped your contact request.");
    assert_eq!(first.left_icon, Some(Icon::Check));
}

#[test]
fn collab_panel_lists_match() {
    let items = static_collab_panel_current_call();
    assert_eq!(items.len(), 3);
    let ListItem::Entry(first) = &items[0];
    assert_eq!(first.label.text, "as-cii");
    assert_eq!(first.left_avatar.as_deref(), Some("http://github.com/as-cii.png?s=50"));
    assert_eq!(first.left_icon, None);

    let items = static_collab_panel_channels();
    assert_eq!(items.len(), 14);
    let ListItem::Entry(zed) = &items[0];
    assert_eq!(zed.label.text, "zed");
    assert_eq!(zed.left_icon, Some(Icon::Hash));
    assert_eq!(zed.size, ListEntrySize::Medium);
    assert_eq!(zed.indent_level, 0);
    let ListItem::Entry(last) = &items[13];
    assert_eq!(last.label.text, "web-tech");
    assert_eq!(last.indent_level, 2);
}

#[test]
fn editor_actions_carry_their_bindings() {
    let actions = example_editor_actions();
    assert_eq!(actions.len(), 20);
    assert_eq!(actions[0].label, "New File");
    let binding = actions[0].keybinding.as_ref().expect("bound");
    assert_eq!(binding.key, "N");
    assert!(binding.modifiers.command);
    assert!(!binding.modifiers.shift);
    let redo = actions[7].keybinding.as_ref().expect("bound");
    assert_eq!(redo.key, "Z");
    assert!(redo.modifiers.command && redo.modifiers.shift);
    assert_eq!(actions[10].label, "Jump to Line");
    assert!(actions[10].keybinding.is_none());
}

#[test]
fn empty_buffer_shows_no_rows() {
    let buffer = empty_buffer_example();
    assert_eq!(buffer.title, "");
    let rows: &BufferRows = buffer.rows.as_ref().expect("rows set");
    assert!(rows.show_line_numbers);
    assert!(rows.rows.is_empty());
}

#[test]
fn hello_world_buffer_matches() {
    let theme = Theme::default();
    let buffer = hello_world_rust_buffer_example(&theme);
    assert_eq!(buffer.title, "hello_world.rs");
    assert_eq!(buffer.path, "src/hello_world.rs");
    assert_eq!(buffer.language, "rust");
    let rows = buffer.rows.as_ref().expect("rows set");
    assert!(rows.show_line_numbers);
    assert_eq!(rows.rows.len(), 6);

    let rows = hello_world_rust_buffer_rows(&theme);
    assert_eq!(rows.len(), 6);
    assert!(rows[0].current);
    assert_eq!(rows[0].line_number, 1);
    let line = rows[0].line.as_ref().expect("first row has a line");
    assert_eq!(line.highlighted_texts.len(), 3);
    assert_eq!(line.highlighted_texts[0].text, "fn ");
    assert_eq!(line.highlighted_texts[0].color, theme.keyword);
    assert_eq!(line.highlighted_texts[1].text, "main");
    assert_eq!(line.highlighted_texts[1].color, theme.function);
    assert!(rows[2].line.is_none());
    let line = rows[4].line.as_ref().expect("println row");
    assert_eq!(line.highlighted_texts[1].text, "\"Hello, world!\"");
    assert_eq!(line.highlighted_texts[1].color, theme.string);
    assert_eq!(rows[5].line.as_ref().unwrap().highlighted_texts[0].text, "}");
}

#[test]
fn hello_world_buffer_with_status_matches() {
    let theme = Theme::default();
    let buffer = hello_world_rust_buffer_with_status_example(&theme);
    assert_eq!(buffer.title, "hello_world.rs");
    let rows = buffer.rows.as_ref().expect("rows set");
    assert_eq!(rows.rows.len(), 8);

    let rows = hello_world_rust_with_status_buffer_rows(&theme);
    assert_eq!(rows.len(), 8);
    assert_eq!(rows[1].status, GitStatus::Modified);
    assert_eq!(
        rows[1].line.as_ref().unwrap().highlighted_texts[0].text,
        "// Statements here are executed when the compiled binary is called."
    );
    assert_eq!(rows[6].status, GitStatus::Created);
    assert_eq!(
        rows[7].line.as_ref().unwrap().highlighted_texts[0].text,
        "// Marshall and Nate were here"
    );
}

#[test]
fn terminal_buffer_matches() {
    let theme = Theme::default();
    let buffer = terminal_buffer(&theme);
    assert_eq!(buffer.title, "zed — fish");
    let rows = buffer.rows.as_ref().expect("rows set");
    assert!(!rows.show_line_numbers);
    assert_eq!(rows.rows.len(), 2);

    let rows = terminal_buffer_rows(&theme);
    assert_eq!(rows.len(), 2);
    let line = rows[0].line.as_ref().expect("prompt line");
    assert_eq!(line.highlighted_texts.len(), 7);
    assert_eq!(line.highlighted_texts[0].text, "maxdeviant ");
    assert_eq!(line.highlighted_texts[0].color, theme.keyword);
    assert_eq!(rows[1].line.as_ref().unwrap().highlighted_texts[0].text, "λ ");
    assert!(!rows[0].show_line_number);
}

#[test]
fn editor_examples_compose_the_parts() {
    let theme = Theme::default();

    let pane = empty_editor_example();
    assert_eq!(pane.tabs.len(), 10);
    assert_eq!(pane.path, "crates/ui/src/static_data.rs");
    assert!(pane.symbols.is_empty());
    assert!(!pane.is_buffer_search_open);
    assert!(pane.buffer.rows.as_ref().unwrap().rows.is_empty());

    let pane = hello_world_rust_editor_example(&theme);
    assert_eq!(pane.symbols.len(), 1);
    assert_eq!(pane.symbols[0].0[0].text, "fn ");
    assert_eq!(pane.symbols[0].0[1].text, "main");
    assert_eq!(pane.buffer.rows.as_ref().unwrap().rows.len(), 6);

    let mut pane = hello_world_rust_editor_with_status_example(&theme);
    assert_eq!(pane.buffer.rows.as_ref().unwrap().rows.len(), 8);
    pane.toggle_buffer_search();
    assert!(pane.is_buffer_search_open);
    pane.toggle_buffer_search();
    assert!(!pane.is_buffer_search_open);
}

#[test]
fn random_call_statuses_at_the_bounds() {
    assert!(random_players_with_call_status(0).is_empty());
    let all = random_players_with_call_status(10);
    assert_eq!(all.len(), 10);
    assert_eq!(all[9].player.username, "maxdeviant");
    assert!(all[9].call_status.followers.is_none());
}
