//! The sample data the interface stories are built from: tabs, players,
//! list entries, palette actions and example buffers.

use crate::buffer::Buffer;
use crate::buffer::BufferRow;
use crate::buffer::BufferRows;
use crate::buffer::Cursor;
use crate::buffer::HighlightedLine;
use crate::buffer::HighlightedText;
use crate::buffer::Symbol;
use crate::buffer::row_shape;
use crate::editor_pane::EditorPane;
use crate::elements::FileSystemStatus;
use crate::elements::GitStatus;
use crate::elements::Icon;
use crate::elements::Keybinding;
use crate::elements::Label;
use crate::elements::LabelColor;
use crate::elements::ListEntry;
use crate::elements::ListEntrySize;
use crate::elements::ListItem;
use crate::elements::ModifierKeys;
use crate::elements::PaletteItem;
use crate::elements::Tab;
use crate::elements::ToggleState;
use crate::elements::item_shape;
use crate::elements::palette_shape;
use crate::elements::tab_shape;
use crate::player::Livestream;
use crate::player::Player;
use crate::player::PlayerCallStatus;
use crate::player::PlayerData;
use crate::player::PlayerWithCallStatus;
use crate::player::MicStatus;
use crate::player::ScreenShareStatus;
use crate::player::player_shape;
use crate::player::populate_player_call_status;
use crate::theme::Hsla;
use crate::theme::HighlightColor;
use crate::theme::Theme;
use vstd::prelude::*;

verus! {

/// The tab shapes of [`static_tabs_example`].
pub open spec fn static_tabs_example_shape() -> Seq<(Seq<char>, Option<Icon>, bool, FileSystemStatus, GitStatus)> {
    seq![
        ("wip.rs"@, Some(Icon::FileRust), false, FileSystemStatus::Deleted, GitStatus::Unchanged),
        ("Cargo.toml"@, Some(Icon::FileToml), false, FileSystemStatus::Unchanged, GitStatus::Modified),
        ("Channels Panel"@, Some(Icon::Hash), false, FileSystemStatus::Unchanged, GitStatus::Unchanged),
        ("channels_panel.rs"@, Some(Icon::FileRust), true, FileSystemStatus::Unchanged, GitStatus::Modified),
        ("workspace.rs"@, Some(Icon::FileRust), false, FileSystemStatus::Unchanged, GitStatus::Modified),
        ("icon_button.rs"@, Some(Icon::FileRust), false, FileSystemStatus::Unchanged, GitStatus::Unchanged),
        ("storybook.rs"@, Some(Icon::FileRust), false, FileSystemStatus::Unchanged, GitStatus::Created),
        ("theme.rs"@, Some(Icon::FileRust), false, FileSystemStatus::Unchanged, GitStatus::Unchanged),
        ("theme_registry.rs"@, Some(Icon::FileRust), false, FileSystemStatus::Unchanged, GitStatus::Unchanged),
        ("styleable_helpers.rs"@, Some(Icon::FileRust), false, FileSystemStatus::Unchanged, GitStatus::Unchanged),
    ]
}

/// The tab strip of the example editor pane.
pub fn static_tabs_example() -> (tabs: Vec<Tab>)
    ensures
        tabs@.map(|_i: int, t: Tab| tab_shape(t)) == static_tabs_example_shape(),
{
    let mut tabs: Vec<Tab> = Vec::new();
    tabs.push(Tab::new().title("wip.rs".to_owned()).icon(Icon::FileRust).current(false).fs_status(FileSystemStatus::Deleted));
    tabs.push(Tab::new().title("Cargo.toml".to_owned()).icon(Icon::FileToml).current(false).git_status(GitStatus::Modified));
    tabs.push(Tab::new().title("Channels Panel".to_owned()).icon(Icon::Hash).current(false));
    tabs.push(Tab::new().title("channels_panel.rs".to_owned()).icon(Icon::FileRust).current(true).git_status(GitStatus::Modified));
    tabs.push(Tab::new().title("workspace.rs".to_owned()).icon(Icon::FileRust).current(false).git_status(GitStatus::Modified));
    tabs.push(Tab::new().title("icon_button.rs".to_owned()).icon(Icon::FileRust).current(false));
    tabs.push(Tab::new().title("storybook.rs".to_owned()).icon(Icon::FileRust).current(false).git_status(GitStatus::Created));
    tabs.push(Tab::new().title("theme.rs".to_owned()).icon(Icon::FileRust).current(false));
    tabs.push(Tab::new().title("theme_registry.rs".to_owned()).icon(Icon::FileRust).current(false));
    tabs.push(Tab::new().title("styleable_helpers.rs".to_owned()).icon(Icon::FileRust).current(false));
    proof {
        assert(tabs@.map(|_i: int, t: Tab| tab_shape(t)) =~= static_tabs_example_shape());
    }
    tabs
}

/// The tab shapes of [`static_tabs_1`].
pub open spec fn static_tabs_1_shape() -> Seq<(Seq<char>, Option<Icon>, bool, FileSystemStatus, GitStatus)> {
    seq![
        ("project_panel.rs"@, Some(Icon::FileRust), false, FileSystemStatus::Deleted, GitStatus::Unchanged),
        ("tab_bar.rs"@, Some(Icon::FileRust), false, FileSystemStatus::Unchanged, GitStatus::Modified),
        ("workspace.rs"@, Some(Icon::FileRust), false, FileSystemStatus::Unchanged, GitStatus::Unchanged),
        ("tab.rs"@, Some(Icon::FileRust), true, FileSystemStatus::Unchanged, GitStatus::Modified),
    ]
}

/// A first small sample tab strip.
pub fn static_tabs_1() -> (tabs: Vec<Tab>)
    ensures
        tabs@.map(|_i: int, t: Tab| tab_shape(t)) == static_tabs_1_shape(),
{
    let mut tabs: Vec<Tab> = Vec::new();
    tabs.push(Tab::new().title("project_panel.rs".to_owned()).icon(Icon::FileRust).current(false).fs_status(FileSystemStatus::Deleted));
    tabs.push(Tab::new().title("tab_bar.rs".to_owned()).icon(Icon::FileRust).current(false).git_status(GitStatus::Modified));
    tabs.push(Tab::new().title("workspace.rs".to_owned()).icon(Icon::FileRust).current(false));
    tabs.push(Tab::new().title("tab.rs".to_owned()).icon(Icon::FileRust).current(true).git_status(GitStatus::Modified));
    proof {
        assert(tabs@.map(|_i: int, t: Tab| tab_shape(t)) =~= static_tabs_1_shape());
    }
    tabs
}

/// The tab shapes of [`static_tabs_2`].
pub open spec fn static_tabs_2_shape() -> Seq<(Seq<char>, Option<Icon>, bool, FileSystemStatus, GitStatus)> {
    seq![
        ("tab_bar.rs"@, Some(Icon::FileRust), false, FileSystemStatus::Deleted, GitStatus::Unchanged),
        ("static_data.rs"@, Some(Icon::FileRust), true, FileSystemStatus::Unchanged, GitStatus::Modified),
    ]
}

/// A second small sample tab strip.
pub fn static_tabs_2() -> (tabs: Vec<Tab>)
    ensures
        tabs@.map(|_i: int, t: Tab| tab_shape(t)) == static_tabs_2_shape(),
{
    let mut tabs: Vec<Tab> = Vec::new();
    tabs.push(Tab::new().title("tab_bar.rs".to_owned()).icon(Icon::FileRust).current(false).fs_status(FileSystemStatus::Deleted));
    tabs.push(Tab::new().title("static_data.rs".to_owned()).icon(Icon::FileRust).current(true).git_status(GitStatus::Modified));
    proof {
        assert(tabs@.map(|_i: int, t: Tab| tab_shape(t)) =~= static_tabs_2_shape());
    }
    tabs
}

/// The tab shapes of [`static_tabs_3`].
pub open spec fn static_tabs_3_shape() -> Seq<(Seq<char>, Option<Icon>, bool, FileSystemStatus, GitStatus)> {
    seq![
        (Seq::<char>::empty(), None, true, FileSystemStatus::Unchanged, GitStatus::Created),
    ]
}

/// A sample strip of one untitled tab.
pub fn static_tabs_3() -> (tabs: Vec<Tab>)
    ensures
        tabs@.map(|_i: int, t: Tab| tab_shape(t)) == static_tabs_3_shape(),
{
    let mut tabs: Vec<Tab> = Vec::new();
    tabs.push(Tab::new().current(true).git_status(GitStatus::Created));
    proof {
        assert(tabs@.map(|_i: int, t: Tab| tab_shape(t)) =~= static_tabs_3_shape());
    }
    tabs
}

/// The player shapes of [`static_players`].
pub open spec fn static_players_shape() -> Seq<(usize, Seq<char>, Seq<char>)> {
    seq![
        (0usize, "https://avatars.githubusercontent.com/u/1714999?v=4"@, "nathansobo"@),
        (1usize, "https://avatars.githubusercontent.com/u/326587?v=4"@, "maxbrunsfeld"@),
        (2usize, "https://avatars.githubusercontent.com/u/482957?v=4"@, "as-cii"@),
        (3usize, "https://avatars.githubusercontent.com/u/1714999?v=4"@, "iamnbutler"@),
        (4usize, "https://avatars.githubusercontent.com/u/1486634?v=4"@, "maxdeviant"@),
    ]
}

/// The five sample players.
pub fn static_players() -> (players: Vec<Player>)
    ensures
        players@.map(|_i: int, p: Player| player_shape(p)) == static_players_shape(),
{
    let mut players: Vec<Player> = Vec::new();
    players.push(Player::new(0, "https://avatars.githubusercontent.com/u/1714999?v=4".to_owned(), "nathansobo".to_owned()));
    players.push(Player::new(1, "https://avatars.githubusercontent.com/u/326587?v=4".to_owned(), "maxbrunsfeld".to_owned()));
    players.push(Player::new(2, "https://avatars.githubusercontent.com/u/482957?v=4".to_owned(), "as-cii".to_owned()));
    players.push(Player::new(3, "https://avatars.githubusercontent.com/u/1714999?v=4".to_owned(), "iamnbutler".to_owned()));
    players.push(Player::new(4, "https://avatars.githubusercontent.com/u/1486634?v=4".to_owned(), "maxdeviant".to_owned()));
    proof {
        assert(players@.map(|_i: int, p: Player| player_shape(p)) =~= static_players_shape());
    }
    players
}

/// The url-and-name shapes of [`static_player_data`].
pub open spec fn static_player_data_shape() -> Seq<(Seq<char>, Seq<char>)> {
    seq![
        ("https://avatars.githubusercontent.com/u/1714999?v=4"@, "iamnbutler"@),
        ("https://avatars.githubusercontent.com/u/326587?v=4"@, "maxbrunsfeld"@),
        ("https://avatars.githubusercontent.com/u/482957?v=4"@, "as-cii"@),
        ("https://avatars.githubusercontent.com/u/1789?v=4"@, "nathansobo"@),
        ("https://avatars.githubusercontent.com/u/1486634?v=4"@, "ForLoveOfCats"@),
        ("https://avatars.githubusercontent.com/u/2690773?v=4"@, "SomeoneToIgnore"@),
        ("https://avatars.githubusercontent.com/u/19867440?v=4"@, "JosephTLyons"@),
        ("https://avatars.githubusercontent.com/u/24362066?v=4"@, "osiewicz"@),
        ("https://avatars.githubusercontent.com/u/22121886?v=4"@, "KCaverly"@),
        ("https://avatars.githubusercontent.com/u/1486634?v=4"@, "maxdeviant"@),
    ]
}

/// The raw data of the ten sample players.
pub fn static_player_data() -> (data: Vec<PlayerData>)
    ensures
        data@.map(|_i: int, d: PlayerData| (d.url@, d.name@)) == static_player_data_shape(),
{
    let mut data: Vec<PlayerData> = Vec::new();
    data.push(PlayerData { url: "https://avatars.githubusercontent.com/u/1714999?v=4".to_owned(), name: "iamnbutler".to_owned() });
    data.push(PlayerData { url: "https://avatars.githubusercontent.com/u/326587?v=4".to_owned(), name: "maxbrunsfeld".to_owned() });
    data.push(PlayerData { url: "https://avatars.githubusercontent.com/u/482957?v=4".to_owned(), name: "as-cii".to_owned() });
    data.push(PlayerData { url: "https://avatars.githubusercontent.com/u/1789?v=4".to_owned(), name: "nathansobo".to_owned() });
    data.push(PlayerData { url: "https://avatars.githubusercontent.com/u/1486634?v=4".to_owned(), name: "ForLoveOfCats".to_owned() });
    data.push(PlayerData { url: "https://avatars.githubusercontent.com/u/2690773?v=4".to_owned(), name: "SomeoneToIgnore".to_owned() });
    data.push(PlayerData { url: "https://avatars.githubusercontent.com/u/19867440?v=4".to_owned(), name: "JosephTLyons".to_owned() });
    data.push(PlayerData { url: "https://avatars.githubusercontent.com/u/24362066?v=4".to_owned(), name: "osiewicz".to_owned() });
    data.push(PlayerData { url: "https://avatars.githubusercontent.com/u/22121886?v=4".to_owned(), name: "KCaverly".to_owned() });
    data.push(PlayerData { url: "https://avatars.githubusercontent.com/u/1486634?v=4".to_owned(), name: "maxdeviant".to_owned() });
    proof {
        assert(data@.map(|_i: int, d: PlayerData| (d.url@, d.name@)) =~= static_player_data_shape());
    }
    data
}

/// Players built from raw data, indexed in order of appearance.
pub fn create_static_players(player_data: Vec<PlayerData>) -> (players: Vec<Player>)
    ensures
        players@.len() == player_data@.len(),
        forall|i: int|
            0 <= i < players@.len() ==> player_shape(#[trigger] players@[i]) == (
                i as usize,
                player_data@[i].url@,
                player_data@[i].name@,
            ),
{
    let ghost data0 = player_data@;
    let mut player_data = player_data;
    let mut players: Vec<Player> = Vec::new();
    proof {
        assert(data0.skip(0) =~= data0);
    }
    while player_data.len() > 0
        invariant
            players@.len() + player_data@.len() == data0.len(),
            player_data@ == data0.skip(players@.len() as int),
            forall|i: int|
                0 <= i < players@.len() ==> player_shape(#[trigger] players@[i]) == (
                    i as usize,
                    data0[i].url@,
                    data0[i].name@,
                ),
        decreases player_data@.len(),
    {
        let ghost done = players@.len() as int;
        let ghost pd0 = player_data@;
        let data = player_data.remove(0);
        proof {
            assert(pd0[0] == data0[done]);
            assert(player_data@ =~= data0.skip(done + 1));
        }
        let index = players.len();
        players.push(Player::new(index, data.url, data.name));
    }
    players
}

/// Sample player number 1, built from entry 0 of the raw data.
pub fn static_player_1(data: &Vec<PlayerData>) -> (p: Player)
    requires
        data@.len() > 0,
    ensures
        player_shape(p) == (1usize, data@[0].url@, data@[0].name@),
{
    Player::new(1, data[0].url.clone(), data[0].name.clone())
}

/// Sample player number 2, built from entry 1 of the raw data.
pub fn static_player_2(data: &Vec<PlayerData>) -> (p: Player)
    requires
        data@.len() > 1,
    ensures
        player_shape(p) == (2usize, data@[1].url@, data@[1].name@),
{
    Player::new(2, data[1].url.clone(), data[1].name.clone())
}

/// Sample player number 3, built from entry 2 of the raw data.
pub fn static_player_3(data: &Vec<PlayerData>) -> (p: Player)
    requires
        data@.len() > 2,
    ensures
        player_shape(p) == (3usize, data@[2].url@, data@[2].name@),
{
    Player::new(3, data[2].url.clone(), data[2].name.clone())
}

/// Sample player number 4, built from entry 3 of the raw data.
pub fn static_player_4(data: &Vec<PlayerData>) -> (p: Player)
    requires
        data@.len() > 3,
    ensures
        player_shape(p) == (4usize, data@[3].url@, data@[3].name@),
{
    Player::new(4, data[3].url.clone(), data[3].name.clone())
}

/// Sample player number 5, built from entry 4 of the raw data.
pub fn static_player_5(data: &Vec<PlayerData>) -> (p: Player)
    requires
        data@.len() > 4,
    ensures
        player_shape(p) == (5usize, data@[4].url@, data@[4].name@),
{
    Player::new(5, data[4].url.clone(), data[4].name.clone())
}

/// Sample player number 6, built from entry 5 of the raw data.
pub fn static_player_6(data: &Vec<PlayerData>) -> (p: Player)
    requires
        data@.len() > 5,
    ensures
        player_shape(p) == (6usize, data@[5].url@, data@[5].name@),
{
    Player::new(6, data[5].url.clone(), data[5].name.clone())
}

/// Sample player number 7, built from entry 6 of the raw data.
pub fn static_player_7(data: &Vec<PlayerData>) -> (p: Player)
    requires
        data@.len() > 6,
    ensures
        player_shape(p) == (7usize, data@[6].url@, data@[6].name@),
{
    Player::new(7, data[6].url.clone(), data[6].name.clone())
}

/// Sample player number 8, built from entry 7 of the raw data.
pub fn static_player_8(data: &Vec<PlayerData>) -> (p: Player)
    requires
        data@.len() > 7,
    ensures
        player_shape(p) == (8usize, data@[7].url@, data@[7].name@),
{
    Player::new(8, data[7].url.clone(), data[7].name.clone())
}

/// Sample player number 9, built from entry 8 of the raw data.
pub fn static_player_9(data: &Vec<PlayerData>) -> (p: Player)
    requires
        data@.len() > 8,
    ensures
        player_shape(p) == (9usize, data@[8].url@, data@[8].name@),
{
    Player::new(9, data[8].url.clone(), data[8].name.clone())
}

/// Sample player number 10, built from entry 9 of the raw data.
pub fn static_player_10(data: &Vec<PlayerData>) -> (p: Player)
    requires
        data@.len() > 9,
    ensures
        player_shape(p) == (10usize, data@[9].url@, data@[9].name@),
{
    Player::new(10, data[9].url.clone(), data[9].name.clone())
}

/// The entry shapes of [`static_project_panel_project_items`].
pub open spec fn static_project_panel_project_items_shape() -> Seq<
    (Seq<char>, LabelColor, Option<Icon>, Option<Seq<char>>, u32, Option<ToggleState>, ListEntrySize),
> {
    seq![
        ("zed"@, LabelColor::Default, Some(Icon::FolderOpen), None, 0u32, Some(ToggleState::Toggled), ListEntrySize::Small),
        (".cargo"@, LabelColor::Default, Some(Icon::Folder), None, 1u32, None, ListEntrySize::Small),
        (".config"@, LabelColor::Default, Some(Icon::Folder), None, 1u32, None, ListEntrySize::Small),
        (".git"@, LabelColor::Hidden, Some(Icon::Folder), None, 1u32, None, ListEntrySize::Small),
        (".cargo"@, LabelColor::Default, Some(Icon::Folder), None, 1u32, None, ListEntrySize::Small),
        (".idea"@, LabelColor::Hidden, Some(Icon::Folder), None, 1u32, None, ListEntrySize::Small),
        ("assets"@, LabelColor::Default, Some(Icon::Folder), None, 1u32, Some(ToggleState::Toggled), ListEntrySize::Small),
        ("cargo-target"@, LabelColor::Hidden, Some(Icon::Folder), None, 1u32, None, ListEntrySize::Small),
        ("crates"@, LabelColor::Default, Some(Icon::FolderOpen), None, 1u32, Some(ToggleState::Toggled), ListEntrySize::Small),
        ("activity_indicator"@, LabelColor::Default, Some(Icon::Folder), None, 2u32, None, ListEntrySize::Small),
        ("ai"@, LabelColor::Default, Some(Icon::Folder), None, 2u32, None, ListEntrySize::Small),
        ("audio"@, LabelColor::Default, Some(Icon::Folder), None, 2u32, None, ListEntrySize::Small),
        ("auto_update"@, LabelColor::Default, Some(Icon::Folder), None, 2u32, None, ListEntrySize::Small),
        ("breadcrumbs"@, LabelColor::Default, Some(Icon::Folder), None, 2u32, None, ListEntrySize::Small),
        ("call"@, LabelColor::Default, Some(Icon::Folder), None, 2u32, None, ListEntrySize::Small),
        ("sqlez"@, LabelColor::Modified, Some(Icon::Folder), None, 2u32, Some(ToggleState::NotToggled), ListEntrySize::Small),
        ("gpui2"@, LabelColor::Default, Some(Icon::FolderOpen), None, 2u32, Some(ToggleState::Toggled), ListEntrySize::Small),
        ("src"@, LabelColor::Default, Some(Icon::FolderOpen), None, 3u32, Some(ToggleState::Toggled), ListEntrySize::Small),
        ("derive_element.rs"@, LabelColor::Default, Some(Icon::FileRust), None, 4u32, None, ListEntrySize::Small),
        ("storybook"@, LabelColor::Modified, Some(Icon::FolderOpen), None, 1u32, Some(ToggleState::Toggled), ListEntrySize::Small),
        ("docs"@, LabelColor::Default, Some(Icon::Folder), None, 2u32, Some(ToggleState::Toggled), ListEntrySize::Small),
        ("src"@, LabelColor::Modified, Some(Icon::FolderOpen), None, 3u32, Some(ToggleState::Toggled), ListEntrySize::Small),
        ("ui"@, LabelColor::Modified, Some(Icon::FolderOpen), None, 4u32, Some(ToggleState::Toggled), ListEntrySize::Small),
        ("component"@, LabelColor::Created, Some(Icon::FolderOpen), None, 5u32, Some(ToggleState::Toggled), ListEntrySize::Small),
        ("facepile.rs"@, LabelColor::Default, Some(Icon::FileRust), None, 6u32, None, ListEntrySize::Small),
        ("follow_group.rs"@, LabelColor::Default, Some(Icon::FileRust), None, 6u32, None, ListEntrySize::Small),
        ("list_item.rs"@, LabelColor::Created, Some(Icon::FileRust), None, 6u32, None, ListEntrySize::Small),
        ("tab.rs"@, LabelColor::Default, Some(Icon::FileRust), None, 6u32, None, ListEntrySize::Small),
        ("target"@, LabelColor::Hidden, Some(Icon::Folder), None, 1u32, None, ListEntrySize::Small),
        (".dockerignore"@, LabelColor::Default, Some(Icon::FileGeneric), None, 1u32, None, ListEntrySize::Small),
        (".DS_Store"@, LabelColor::Hidden, Some(Icon::FileGeneric), None, 1u32, None, ListEntrySize::Small),
        ("Cargo.lock"@, LabelColor::Default, Some(Icon::FileLock), None, 1u32, None, ListEntrySize::Small),
        ("Cargo.toml"@, LabelColor::Default, Some(Icon::FileToml), None, 1u32, None, ListEntrySize::Small),
        ("Dockerfile"@, LabelColor::Default, Some(Icon::FileGeneric), None, 1u32, None, ListEntrySize::Small),
        ("Procfile"@, LabelColor::Default, Some(Icon::FileGeneric), None, 1u32, None, ListEntrySize::Small),
        ("README.md"@, LabelColor::Default, Some(Icon::FileDoc), None, 1u32, None, ListEntrySize::Small),
    ]
}

/// The project panel's sample tree.
pub fn static_project_panel_project_items() -> (items: Vec<ListItem>)
    ensures
        items@.map(|_i: int, item: ListItem| item_shape(item)) == static_project_panel_project_items_shape(),
{
    let mut items: Vec<ListItem> = Vec::new();
    items.push(ListItem::entry(ListEntry::new(Label::new("zed")).set_left_icon(Icon::FolderOpen).set_indent_level(0).set_toggle(ToggleState::Toggled)));
    items.push(ListItem::entry(ListEntry::new(Label::new(".cargo")).set_left_icon(Icon::Folder).set_indent_level(1)));
    items.push(ListItem::entry(ListEntry::new(Label::new(".config")).set_left_icon(Icon::Folder).set_indent_level(1)));
    items.push(ListItem::entry(ListEntry::new(Label::new(".git").color(LabelColor::Hidden)).set_left_icon(Icon::Folder).set_indent_level(1)));
    items.push(ListItem::entry(ListEntry::new(Label::new(".cargo")).set_left_icon(Icon::Folder).set_indent_level(1)));
    items.push(ListItem::entry(ListEntry::new(Label::new(".idea").color(LabelColor::Hidden)).set_left_icon(Icon::Folder).set_indent_level(1)));
    items.push(ListItem::entry(ListEntry::new(Label::new("assets")).set_left_icon(Icon::Folder).set_indent_level(1).set_toggle(ToggleState::Toggled)));
    items.push(ListItem::entry(ListEntry::new(Label::new("cargo-target").color(LabelColor::Hidden)).set_left_icon(Icon::Folder).set_indent_level(1)));
    items.push(ListItem::entry(ListEntry::new(Label::new("crates")).set_left_icon(Icon::FolderOpen).set_indent_level(1).set_toggle(ToggleState::Toggled)));
    items.push(ListItem::entry(ListEntry::new(Label::new("activity_indicator")).set_left_icon(Icon::Folder).set_indent_level(2)));
    items.push(ListItem::entry(ListEntry::new(Label::new("ai")).set_left_icon(Icon::Folder).set_indent_level(2)));
    items.push(ListItem::entry(ListEntry::new(Label::new("audio")).set_left_icon(Icon::Folder).set_indent_level(2)));
    items.push(ListItem::entry(ListEntry::new(Label::new("auto_update")).set_left_icon(Icon::Folder).set_indent_level(2)));
    items.push(ListItem::entry(ListEntry::new(Label::new("breadcrumbs")).set_left_icon(Icon::Folder).set_indent_level(2)));
    items.push(ListItem::entry(ListEntry::new(Label::new("call")).set_left_icon(Icon::Folder).set_indent_level(2)));
    items.push(ListItem::entry(ListEntry::new(Label::new("sqlez").color(LabelColor::Modified)).set_left_icon(Icon::Folder).set_indent_level(2).set_toggle(ToggleState::NotToggled)));
    items.push(ListItem::entry(ListEntry::new(Label::new("gpui2")).set_left_icon(Icon::FolderOpen).set_indent_level(2).set_toggle(ToggleState::Toggled)));
    items.push(ListItem::entry(ListEntry::new(Label::new("src")).set_left_icon(Icon::FolderOpen).set_indent_level(3).set_toggle(ToggleState::Toggled)));
    items.push(ListItem::entry(ListEntry::new(Label::new("derive_element.rs")).set_left_icon(Icon::FileRust).set_indent_level(4)));
    items.push(ListItem::entry(ListEntry::new(Label::new("storybook").color(LabelColor::Modified)).set_left_icon(Icon::FolderOpen).set_indent_level(1).set_toggle(ToggleState::Toggled)));
    items.push(ListItem::entry(ListEntry::new(Label::new("docs").color(LabelColor::Default)).set_left_icon(Icon::Folder).set_indent_level(2).set_toggle(ToggleState::Toggled)));
    items.push(ListItem::entry(ListEntry::new(Label::new("src").color(LabelColor::Modified)).set_left_icon(Icon::FolderOpen).set_indent_level(3).set_toggle(ToggleState::Toggled)));
    items.push(ListItem::entry(ListEntry::new(Label::new("ui").color(LabelColor::Modified)).set_left_icon(Icon::FolderOpen).set_indent_level(4).set_toggle(ToggleState::Toggled)));
    items.push(ListItem::entry(ListEntry::new(Label::new("component").color(LabelColor::Created)).set_left_icon(Icon::FolderOpen).set_indent_level(5).set_toggle(ToggleState::Toggled)));
    items.push(ListItem::entry(ListEntry::new(Label::new("facepile.rs").color(LabelColor::Default)).set_left_icon(Icon::FileRust).set_indent_level(6)));
    items.push(ListItem::entry(ListEntry::new(Label::new("follow_group.rs").color(LabelColor::Default)).set_left_icon(Icon::FileRust).set_indent_level(6)));
    items.push(ListItem::entry(ListEntry::new(Label::new("list_item.rs").color(LabelColor::Created)).set_left_icon(Icon::FileRust).set_indent_level(6)));
    items.push(ListItem::entry(ListEntry::new(Label::new("tab.rs").color(LabelColor::Default)).set_left_icon(Icon::FileRust).set_indent_level(6)));
    items.push(ListItem::entry(ListEntry::new(Label::new("target").color(LabelColor::Hidden)).set_left_icon(Icon::Folder).set_indent_level(1)));
    items.push(ListItem::entry(ListEntry::new(Label::new(".dockerignore")).set_left_icon(Icon::FileGeneric).set_indent_level(1)));
    items.push(ListItem::entry(ListEntry::new(Label::new(".DS_Store").color(LabelColor::Hidden)).set_left_icon(Icon::FileGeneric).set_indent_level(1)));
    items.push(ListItem::entry(ListEntry::new(Label::new("Cargo.lock")).set_left_icon(Icon::FileLock).set_indent_level(1)));
    items.push(ListItem::entry(ListEntry::new(Label::new("Cargo.toml")).set_left_icon(Icon::FileToml).set_indent_level(1)));
    items.push(ListItem::entry(ListEntry::new(Label::new("Dockerfile")).set_left_icon(Icon::FileGeneric).set_indent_level(1)));
    items.push(ListItem::entry(ListEntry::new(Label::new("Procfile")).set_left_icon(Icon::FileGeneric).set_indent_level(1)));
    items.push(ListItem::entry(ListEntry::new(Label::new("README.md")).set_left_icon(Icon::FileDoc).set_indent_level(1)));
    proof {
        assert(items@.map(|_i: int, item: ListItem| item_shape(item)) =~= static_project_panel_project_items_shape());
    }
    items
}

/// The entry shapes of [`static_project_panel_single_items`].
pub open spec fn static_project_panel_single_items_shape() -> Seq<
    (Seq<char>, LabelColor, Option<Icon>, Option<Seq<char>>, u32, Option<ToggleState>, ListEntrySize),
> {
    seq![
        ("todo.md"@, LabelColor::Default, Some(Icon::FileDoc), None, 0u32, None, ListEntrySize::Small),
        ("README.md"@, LabelColor::Default, Some(Icon::FileDoc), None, 0u32, None, ListEntrySize::Small),
        ("config.json"@, LabelColor::Default, Some(Icon::FileGeneric), None, 0u32, None, ListEntrySize::Small),
    ]
}

/// The project panel's sample loose files.
pub fn static_project_panel_single_items() -> (items: Vec<ListItem>)
    ensures
        items@.map(|_i: int, item: ListItem| item_shape(item)) == static_project_panel_single_items_shape(),
{
    let mut items: Vec<ListItem> = Vec::new();
    items.push(ListItem::entry(ListEntry::new(Label::new("todo.md")).set_left_icon(Icon::FileDoc).set_indent_level(0)));
    items.push(ListItem::entry(ListEntry::new(Label::new("README.md")).set_left_icon(Icon::FileDoc).set_indent_level(0)));
    items.push(ListItem::entry(ListEntry::new(Label::new("config.json")).set_left_icon(Icon::FileGeneric).set_indent_level(0)));
    proof {
        assert(items@.map(|_i: int, item: ListItem| item_shape(item)) =~= static_project_panel_single_items_shape());
    }
    items
}

/// The entry shapes of [`static_notification_items`].
pub open spec fn static_notification_items_shape() -> Seq<
    (Seq<char>, LabelColor, Option<Icon>, Option<Seq<char>>, u32, Option<ToggleState>, ListEntrySize),
> {
    seq![
        ("maxbrunsfeld acceped your contact request."@, LabelColor::Default, Some(Icon::Check), None, 0u32, None, ListEntrySize::Small),
        ("nathansobo acceped your contact request."@, LabelColor::Default, Some(Icon::Check), None, 0u32, None, ListEntrySize::Small),
    ]
}

/// The sample notifications.
pub fn static_notification_items() -> (items: Vec<ListItem>)
    ensures
        items@.map(|_i: int, item: ListItem| item_shape(item)) == static_notification_items_shape(),
{
    let mut items: Vec<ListItem> = Vec::new();
    items.push(ListItem::entry(ListEntry::new(Label::new("maxbrunsfeld acceped your contact request.")).set_left_icon(Icon::Check).set_indent_level(0)));
    items.push(ListItem::entry(ListEntry::new(Label::new("nathansobo acceped your contact request.")).set_left_icon(Icon::Check).set_indent_level(0)));
    proof {
        assert(items@.map(|_i: int, item: ListItem| item_shape(item)) =~= static_notification_items_shape());
    }
    items
}

/// The entry shapes of [`static_collab_panel_current_call`].
pub open spec fn static_collab_panel_current_call_shape() -> Seq<
    (Seq<char>, LabelColor, Option<Icon>, Option<Seq<char>>, u32, Option<ToggleState>, ListEntrySize),
> {
    seq![
        ("as-cii"@, LabelColor::Default, None, Some("http://github.com/as-cii.png?s=50"@), 0u32, None, ListEntrySize::Small),
        ("nathansobo"@, LabelColor::Default, None, Some("http://github.com/nathansobo.png?s=50"@), 0u32, None, ListEntrySize::Small),
        ("maxbrunsfeld"@, LabelColor::Default, None, Some("http://github.com/maxbrunsfeld.png?s=50"@), 0u32, None, ListEntrySize::Small),
    ]
}

/// The sample participants of the current call.
pub fn static_collab_panel_current_call() -> (items: Vec<ListItem>)
    ensures
        items@.map(|_i: int, item: ListItem| item_shape(item)) == static_collab_panel_current_call_shape(),
{
    let mut items: Vec<ListItem> = Vec::new();
    items.push(ListItem::entry(ListEntry::new(Label::new("as-cii")).set_left_avatar("http://github.com/as-cii.png?s=50")));
    items.push(ListItem::entry(ListEntry::new(Label::new("nathansobo")).set_left_avatar("http://github.com/nathansobo.png?s=50")));
    items.push(ListItem::entry(ListEntry::new(Label::new("maxbrunsfeld")).set_left_avatar("http://github.com/maxbrunsfeld.png?s=50")));
    proof {
        assert(items@.map(|_i: int, item: ListItem| item_shape(item)) =~= static_collab_panel_current_call_shape());
    }
    items
}

/// The entry shapes of [`static_collab_panel_channels`].
pub open spec fn static_collab_panel_channels_shape() -> Seq<
    (Seq<char>, LabelColor, Option<Icon>, Option<Seq<char>>, u32, Option<ToggleState>, ListEntrySize),
> {
    seq![
        ("zed"@, LabelColor::Default, Some(Icon::Hash), None, 0u32, None, ListEntrySize::Medium),
        ("community"@, LabelColor::Default, Some(Icon::Hash), None, 1u32, None, ListEntrySize::Medium),
        ("dashboards"@, LabelColor::Default, Some(Icon::Hash), None, 2u32, None, ListEntrySize::Medium),
        ("feedback"@, LabelColor::Default, Some(Icon::Hash), None, 2u32, None, ListEntrySize::Medium),
        ("teams-in-channels-alpha"@, LabelColor::Default, Some(Icon::Hash), None, 2u32, None, ListEntrySize::Medium),
        ("current-projects"@, LabelColor::Default, Some(Icon::Hash), None, 1u32, None, ListEntrySize::Medium),
        ("codegen"@, LabelColor::Default, Some(Icon::Hash), None, 2u32, None, ListEntrySize::Medium),
        ("gpui2"@, LabelColor::Default, Some(Icon::Hash), None, 2u32, None, ListEntrySize::Medium),
        ("livestreaming"@, LabelColor::Default, Some(Icon::Hash), None, 2u32, None, ListEntrySize::Medium),
        ("open-source"@, LabelColor::Default, Some(Icon::Hash), None, 2u32, None, ListEntrySize::Medium),
        ("replace"@, LabelColor::Default, Some(Icon::Hash), None, 2u32, None, ListEntrySize::Medium),
        ("semantic-index"@, LabelColor::Default, Some(Icon::Hash), None, 2u32, None, ListEntrySize::Medium),
        ("vim"@, LabelColor::Default, Some(Icon::Hash), None, 2u32, None, ListEntrySize::Medium),
        ("web-tech"@, LabelColor::Default, Some(Icon::Hash), None, 2u32, None, ListEntrySize::Medium),
    ]
}

/// The sample channel tree of the collaboration panel.
pub fn static_collab_panel_channels() -> (items: Vec<ListItem>)
    ensures
        items@.map(|_i: int, item: ListItem| item_shape(item)) == static_collab_panel_channels_shape(),
{
    let mut items: Vec<ListItem> = Vec::new();
    items.push(ListItem::entry(ListEntry::new(Label::new("zed")).set_left_icon(Icon::Hash).set_indent_level(0).set_size(ListEntrySize::Medium)));
    items.push(ListItem::entry(ListEntry::new(Label::new("community")).set_left_icon(Icon::Hash).set_indent_level(1).set_size(ListEntrySize::Medium)));
    items.push(ListItem::entry(ListEntry::new(Label::new("dashboards")).set_left_icon(Icon::Hash).set_indent_level(2).set_size(ListEntrySize::Medium)));
    items.push(ListItem::entry(ListEntry::new(Label::new("feedback")).set_left_icon(Icon::Hash).set_indent_level(2).set_size(ListEntrySize::Medium)));
    items.push(ListItem::entry(ListEntry::new(Label::new("teams-in-channels-alpha")).set_left_icon(Icon::Hash).set_indent_level(2).set_size(ListEntrySize::Medium)));
    items.push(ListItem::entry(ListEntry::new(Label::new("current-projects")).set_left_icon(Icon::Hash).set_indent_level(1).set_size(ListEntrySize::Medium)));
    items.push(ListItem::entry(ListEntry::new(Label::new("codegen")).set_left_icon(Icon::Hash).set_indent_level(2).set_size(ListEntrySize::Medium)));
    items.push(ListItem::entry(ListEntry::new(Label::new("gpui2")).set_left_icon(Icon::Hash).set_indent_level(2).set_size(ListEntrySize::Medium)));
    items.push(ListItem::entry(ListEntry::new(Label::new("livestreaming")).set_left_icon(Icon::Hash).set_indent_level(2).set_size(ListEntrySize::Medium)));
    items.push(ListItem::entry(ListEntry::new(Label::new("open-source")).set_left_icon(Icon::Hash).set_indent_level(2).set_size(ListEntrySize::Medium)));
    items.push(ListItem::entry(ListEntry::new(Label::new("replace")).set_left_icon(Icon::Hash).set_indent_level(2).set_size(ListEntrySize::Medium)));
    items.push(ListItem::entry(ListEntry::new(Label::new("semantic-index")).set_left_icon(Icon::Hash).set_indent_level(2).set_size(ListEntrySize::Medium)));
    items.push(ListItem::entry(ListEntry::new(Label::new("vim")).set_left_icon(Icon::Hash).set_indent_level(2).set_size(ListEntrySize::Medium)));
    items.push(ListItem::entry(ListEntry::new(Label::new("web-tech")).set_left_icon(Icon::Hash).set_indent_level(2).set_size(ListEntrySize::Medium)));
    proof {
        assert(items@.map(|_i: int, item: ListItem| item_shape(item)) =~= static_collab_panel_channels_shape());
    }
    items
}

/// The action shapes of [`example_editor_actions`].
pub open spec fn example_editor_actions_shape() -> Seq<
    (Seq<char>, Option<(Seq<char>, ModifierKeys)>),
> {
    seq![
        ("New File"@, Some(("N"@, ModifierKeys { command: true, shift: false }))),
        ("Open File"@, Some(("O"@, ModifierKeys { command: true, shift: false }))),
        ("Save File"@, Some(("S"@, ModifierKeys { command: true, shift: false }))),
        ("Cut"@, Some(("X"@, ModifierKeys { command: true, shift: false }))),
        ("Copy"@, Some(("C"@, ModifierKeys { command: true, shift: false }))),
        ("Paste"@, Some(("V"@, ModifierKeys { command: true, shift: false }))),
        ("Undo"@, Some(("Z"@, ModifierKeys { command: true, shift: false }))),
        ("Redo"@, Some(("Z"@, ModifierKeys { command: true, shift: true }))),
        ("Find"@, Some(("F"@, ModifierKeys { command: true, shift: false }))),
        ("Replace"@, Some(("R"@, ModifierKeys { command: true, shift: false }))),
        ("Jump to Line"@, None),
        ("Select All"@, None),
        ("Deselect All"@, None),
        ("Switch Document"@, None),
        ("Insert Line Below"@, None),
        ("Insert Line Above"@, None),
        ("Move Line Up"@, None),
        ("Move Line Down"@, None),
        ("Toggle Comment"@, None),
        ("Delete Line"@, None),
    ]
}

/// The sample editor actions of the command palette.
pub fn example_editor_actions() -> (actions: Vec<PaletteItem>)
    ensures
        actions@.map(|_i: int, p: PaletteItem| palette_shape(p)) == example_editor_actions_shape(),
{
    let mut actions: Vec<PaletteItem> = Vec::new();
    actions.push(PaletteItem::new("New File").keybinding(Keybinding::new("N".to_owned(), ModifierKeys::new().command(true))));
    actions.push(PaletteItem::new("Open File").keybinding(Keybinding::new("O".to_owned(), ModifierKeys::new().command(true))));
    actions.push(PaletteItem::new("Save File").keybinding(Keybinding::new("S".to_owned(), ModifierKeys::new().command(true))));
    actions.push(PaletteItem::new("Cut").keybinding(Keybinding::new("X".to_owned(), ModifierKeys::new().command(true))));
    actions.push(PaletteItem::new("Copy").keybinding(Keybinding::new("C".to_owned(), ModifierKeys::new().command(true))));
    actions.push(PaletteItem::new("Paste").keybinding(Keybinding::new("V".to_owned(), ModifierKeys::new().command(true))));
    actions.push(PaletteItem::new("Undo").keybinding(Keybinding::new("Z".to_owned(), ModifierKeys::new().command(true))));
    actions.push(PaletteItem::new("Redo").keybinding(Keybinding::new("Z".to_owned(), ModifierKeys::new().command(true).shift(true))));
    actions.push(PaletteItem::new("Find").keybinding(Keybinding::new("F".to_owned(), ModifierKeys::new().command(true))));
    actions.push(PaletteItem::new("Replace").keybinding(Keybinding::new("R".to_owned(), ModifierKeys::new().command(true))));
    actions.push(PaletteItem::new("Jump to Line"));
    actions.push(PaletteItem::new("Select All"));
    actions.push(PaletteItem::new("Deselect All"));
    actions.push(PaletteItem::new("Switch Document"));
    actions.push(PaletteItem::new("Insert Line Below"));
    actions.push(PaletteItem::new("Insert Line Above"));
    actions.push(PaletteItem::new("Move Line Up"));
    actions.push(PaletteItem::new("Move Line Down"));
    actions.push(PaletteItem::new("Toggle Comment"));
    actions.push(PaletteItem::new("Delete Line"));
    proof {
        assert(actions@.map(|_i: int, p: PaletteItem| palette_shape(p)) =~= example_editor_actions_shape());
    }
    actions
}

/// The row shapes of [`hello_world_rust_buffer_rows`] under the theme `t0`.
pub open spec fn hello_world_rust_buffer_rows_shape(t0: Theme) -> Seq<
    (usize, bool, bool, Option<Seq<(Seq<char>, Hsla)>>, Option<Seq<Cursor>>, GitStatus, bool),
> {
    seq![
        (1usize, false, true, Some(seq![("fn "@, HighlightColor::Keyword.spec_hsla(t0)), ("main"@, HighlightColor::Function.spec_hsla(t0)), ("() {"@, HighlightColor::Default.spec_hsla(t0))]), None, GitStatus::Unchanged, true),
        (2usize, false, false, Some(seq![("    // Statements here are executed when the compiled binary is called."@, HighlightColor::Comment.spec_hsla(t0))]), None, GitStatus::Unchanged, true),
        (3usize, false, false, None, None, GitStatus::Unchanged, true),
        (4usize, false, false, Some(seq![("    // Print text to the console."@, HighlightColor::Comment.spec_hsla(t0))]), None, GitStatus::Unchanged, true),
        (5usize, false, false, Some(seq![("    println!("@, HighlightColor::Default.spec_hsla(t0)), ("\"Hello, world!\""@, HighlightColor::String.spec_hsla(t0)), (");"@, HighlightColor::Default.spec_hsla(t0))]), None, GitStatus::Unchanged, true),
        (6usize, false, false, Some(seq![("}"@, HighlightColor::Default.spec_hsla(t0))]), None, GitStatus::Unchanged, true),
    ]
}

/// The rows of the hello-world sample buffer.
pub fn hello_world_rust_buffer_rows(theme: &Theme) -> (rows: Vec<BufferRow>)
    ensures
        rows@.map(|_i: int, r: BufferRow| row_shape(r)) == hello_world_rust_buffer_rows_shape(*theme),
{
    let mut rows: Vec<BufferRow> = Vec::new();
    let mut texts_0: Vec<HighlightedText> = Vec::new();
    texts_0.push(HighlightedText { text: "fn ".to_owned(), color: HighlightColor::Keyword.hsla(theme) });
    texts_0.push(HighlightedText { text: "main".to_owned(), color: HighlightColor::Function.hsla(theme) });
    texts_0.push(HighlightedText { text: "() {".to_owned(), color: HighlightColor::Default.hsla(theme) });
    rows.push(BufferRow {
        line_number: 1,
        code_action: false,
        current: true,
        line: Some(HighlightedLine { highlighted_texts: texts_0 }),
        cursors: None,
        status: GitStatus::Unchanged,
        show_line_number: true,
    });
    let mut texts_1: Vec<HighlightedText> = Vec::new();
    texts_1.push(HighlightedText { text: "    // Statements here are executed when the compiled binary is called.".to_owned(), color: HighlightColor::Comment.hsla(theme) });
    rows.push(BufferRow {
        line_number: 2,
        code_action: false,
        current: false,
        line: Some(HighlightedLine { highlighted_texts: texts_1 }),
        cursors: None,
        status: GitStatus::Unchanged,
        show_line_number: true,
    });
    rows.push(BufferRow {
        line_number: 3,
        code_action: false,
        current: false,
        line: None,
        cursors: None,
        status: GitStatus::Unchanged,
        show_line_number: true,
    });
    let mut texts_3: Vec<HighlightedText> = Vec::new();
    texts_3.push(HighlightedText { text: "    // Print text to the console.".to_owned(), color: HighlightColor::Comment.hsla(theme) });
    rows.push(BufferRow {
        line_number: 4,
        code_action: false,
        current: false,
        line: Some(HighlightedLine { highlighted_texts: texts_3 }),
        cursors: None,
        status: GitStatus::Unchanged,
        show_line_number: true,
    });
    let mut texts_4: Vec<HighlightedText> = Vec::new();
    texts_4.push(HighlightedText { text: "    println!(".to_owned(), color: HighlightColor::Default.hsla(theme) });
    texts_4.push(HighlightedText { text: "\"Hello, world!\"".to_owned(), color: HighlightColor::String.hsla(theme) });
    texts_4.push(HighlightedText { text: ");".to_owned(), color: HighlightColor::Default.hsla(theme) });
    rows.push(BufferRow {
        line_number: 5,
        code_action: false,
        current: false,
        line: Some(HighlightedLine { highlighted_texts: texts_4 }),
        cursors: None,
        status: GitStatus::Unchanged,
        show_line_number: true,
    });
    let mut texts_5: Vec<HighlightedText> = Vec::new();
    texts_5.push(HighlightedText { text: "}".to_owned(), color: HighlightColor::Default.hsla(theme) });
    rows.push(BufferRow {
        line_number: 6,
        code_action: false,
        current: false,
        line: Some(HighlightedLine { highlighted_texts: texts_5 }),
        cursors: None,
        status: GitStatus::Unchanged,
        show_line_number: true,
    });
    proof {
        assert(rows@.map(|_i: int, r: BufferRow| row_shape(r)) =~~= hello_world_rust_buffer_rows_shape(*theme));
    }
    rows
}

/// The row shapes of [`hello_world_rust_with_status_buffer_rows`] under the theme `t0`.
pub open spec fn hello_world_rust_with_status_buffer_rows_shape(t0: Theme) -> Seq<
    (usize, bool, bool, Option<Seq<(Seq<char>, Hsla)>>, Option<Seq<Cursor>>, GitStatus, bool),
> {
    seq![
        (1usize, false, true, Some(seq![("fn "@, HighlightColor::Keyword.spec_hsla(t0)), ("main"@, HighlightColor::Function.spec_hsla(t0)), ("() {"@, HighlightColor::Default.spec_hsla(t0))]), None, GitStatus::Unchanged, true),
        (2usize, false, false, Some(seq![("// Statements here are executed when the compiled binary is called."@, HighlightColor::Comment.spec_hsla(t0))]), None, GitStatus::Modified, true),
        (3usize, false, false, None, None, GitStatus::Unchanged, true),
        (4usize, false, false, Some(seq![("    // Print text to the console."@, HighlightColor::Comment.spec_hsla(t0))]), None, GitStatus::Unchanged, true),
        (5usize, false, false, Some(seq![("    println!("@, HighlightColor::Default.spec_hsla(t0)), ("\"Hello, world!\""@, HighlightColor::String.spec_hsla(t0)), (");"@, HighlightColor::Default.spec_hsla(t0))]), None, GitStatus::Unchanged, true),
        (6usize, false, false, Some(seq![("}"@, HighlightColor::Default.spec_hsla(t0))]), None, GitStatus::Unchanged, true),
        (7usize, false, false, Some(seq![(""@, HighlightColor::Default.spec_hsla(t0))]), None, GitStatus::Created, true),
        (8usize, false, false, Some(seq![("// Marshall and Nate were here"@, HighlightColor::Comment.spec_hsla(t0))]), None, GitStatus::Created, true),
    ]
}

/// The rows of the hello-world sample buffer with version-control statuses.
pub fn hello_world_rust_with_status_buffer_rows(theme: &Theme) -> (rows: Vec<BufferRow>)
    ensures
        rows@.map(|_i: int, r: BufferRow| row_shape(r)) == hello_world_rust_with_status_buffer_rows_shape(*theme),
{
    let mut rows: Vec<BufferRow> = Vec::new();
    let mut texts_0: Vec<HighlightedText> = Vec::new();
    texts_0.push(HighlightedText { text: "fn ".to_owned(), color: HighlightColor::Keyword.hsla(theme) });
    texts_0.push(HighlightedText { text: "main".to_owned(), color: HighlightColor::Function.hsla(theme) });
    texts_0.push(HighlightedText { text: "() {".to_owned(), color: HighlightColor::Default.hsla(theme) });
    rows.push(BufferRow {
        line_number: 1,
        code_action: false,
        current: true,
        line: Some(HighlightedLine { highlighted_texts: texts_0 }),
        cursors: None,
        status: GitStatus::Unchanged,
        show_line_number: true,
    });
    let mut texts_1: Vec<HighlightedText> = Vec::new();
    texts_1.push(HighlightedText { text: "// Statements here are executed when the compiled binary is called.".to_owned(), color: HighlightColor::Comment.hsla(theme) });
    rows.push(BufferRow {
        line_number: 2,
        code_action: false,
        current: false,
        line: Some(HighlightedLine { highlighted_texts: texts_1 }),
        cursors: None,
        status: GitStatus::Modified,
        show_line_number: true,
    });
    rows.push(BufferRow {
        line_number: 3,
        code_action: false,
        current: false,
        line: None,
        cursors: None,
        status: GitStatus::Unchanged,
        show_line_number: true,
    });
    let mut texts_3: Vec<HighlightedText> = Vec::new();
    texts_3.push(HighlightedText { text: "    // Print text to the console.".to_owned(), color: HighlightColor::Comment.hsla(theme) });
    rows.push(BufferRow {
        line_number: 4,
        code_action: false,
        current: false,
        line: Some(HighlightedLine { highlighted_texts: texts_3 }),
        cursors: None,
        status: GitStatus::Unchanged,
        show_line_number: true,
    });
    let mut texts_4: Vec<HighlightedText> = Vec::new();
    texts_4.push(HighlightedText { text: "    println!(".to_owned(), color: HighlightColor::Default.hsla(theme) });
    texts_4.push(HighlightedText { text: "\"Hello, world!\"".to_owned(), color: HighlightColor::String.hsla(theme) });
    texts_4.push(HighlightedText { text: ");".to_owned(), color: HighlightColor::Default.hsla(theme) });
    rows.push(BufferRow {
        line_number: 5,
        code_action: false,
        current: false,
        line: Some(HighlightedLine { highlighted_texts: texts_4 }),
        cursors: None,
        status: GitStatus::Unchanged,
        show_line_number: true,
    });
    let mut texts_5: Vec<HighlightedText> = Vec::new();
    texts_5.push(HighlightedText { text: "}".to_owned(), color: HighlightColor::Default.hsla(theme) });
    rows.push(BufferRow {
        line_number: 6,
        code_action: false,
        current: false,
        line: Some(HighlightedLine { highlighted_texts: texts_5 }),
        cursors: None,
        status: GitStatus::Unchanged,
        show_line_number: true,
    });
    let mut texts_6: Vec<HighlightedText> = Vec::new();
    texts_6.push(HighlightedText { text: "".to_owned(), color: HighlightColor::Default.hsla(theme) });
    rows.push(BufferRow {
        line_number: 7,
        code_action: false,
        current: false,
        line: Some(HighlightedLine { highlighted_texts: texts_6 }),
        cursors: None,
        status: GitStatus::Created,
        show_line_number: true,
    });
    let mut texts_7: Vec<HighlightedText> = Vec::new();
    texts_7.push(HighlightedText { text: "// Marshall and Nate were here".to_owned(), color: HighlightColor::Comment.hsla(theme) });
    rows.push(BufferRow {
        line_number: 8,
        code_action: false,
        current: false,
        line: Some(HighlightedLine { highlighted_texts: texts_7 }),
        cursors: None,
        status: GitStatus::Created,
        show_line_number: true,
    });
    proof {
        assert(rows@.map(|_i: int, r: BufferRow| row_shape(r)) =~~= hello_world_rust_with_status_buffer_rows_shape(*theme));
    }
    rows
}

/// The row shapes of [`terminal_buffer_rows`] under the theme `t0`.
pub open spec fn terminal_buffer_rows_shape(t0: Theme) -> Seq<
    (usize, bool, bool, Option<Seq<(Seq<char>, Hsla)>>, Option<Seq<Cursor>>, GitStatus, bool),
> {
    seq![
        (1usize, false, false, Some(seq![("maxdeviant "@, HighlightColor::Keyword.spec_hsla(t0)), ("in "@, HighlightColor::Default.spec_hsla(t0)), ("profaned-capital "@, HighlightColor::Function.spec_hsla(t0)), ("in "@, HighlightColor::Default.spec_hsla(t0)), ("~/p/zed "@, HighlightColor::Function.spec_hsla(t0)), ("on "@, HighlightColor::Default.spec_hsla(t0)), (" gpui2-ui "@, HighlightColor::Keyword.spec_hsla(t0))]), None, GitStatus::Unchanged, false),
        (2usize, false, false, Some(seq![("λ "@, HighlightColor::String.spec_hsla(t0))]), None, GitStatus::Unchanged, false),
    ]
}

/// The rows of the sample terminal buffer.
pub fn terminal_buffer_rows(theme: &Theme) -> (rows: Vec<BufferRow>)
    ensures
        rows@.map(|_i: int, r: BufferRow| row_shape(r)) == terminal_buffer_rows_shape(*theme),
{
    let mut rows: Vec<BufferRow> = Vec::new();
    let mut texts_0: Vec<HighlightedText> = Vec::new();
    texts_0.push(HighlightedText { text: "maxdeviant ".to_owned(), color: HighlightColor::Keyword.hsla(theme) });
    texts_0.push(HighlightedText { text: "in ".to_owned(), color: HighlightColor::Default.hsla(theme) });
    texts_0.push(HighlightedText { text: "profaned-capital ".to_owned(), color: HighlightColor::Function.hsla(theme) });
    texts_0.push(HighlightedText { text: "in ".to_owned(), color: HighlightColor::Default.hsla(theme) });
    texts_0.push(HighlightedText { text: "~/p/zed ".to_owned(), color: HighlightColor::Function.hsla(theme) });
    texts_0.push(HighlightedText { text: "on ".to_owned(), color: HighlightColor::Default.hsla(theme) });
    texts_0.push(HighlightedText { text: " gpui2-ui ".to_owned(), color: HighlightColor::Keyword.hsla(theme) });
    rows.push(BufferRow {
        line_number: 1,
        code_action: false,
        current: false,
        line: Some(HighlightedLine { highlighted_texts: texts_0 }),
        cursors: None,
        status: GitStatus::Unchanged,
        show_line_number: false,
    });
    let mut texts_1: Vec<HighlightedText> = Vec::new();
    texts_1.push(HighlightedText { text: "λ ".to_owned(), color: HighlightColor::String.hsla(theme) });
    rows.push(BufferRow {
        line_number: 2,
        code_action: false,
        current: false,
        line: Some(HighlightedLine { highlighted_texts: texts_1 }),
        cursors: None,
        status: GitStatus::Unchanged,
        show_line_number: false,
    });
    proof {
        assert(rows@.map(|_i: int, r: BufferRow| row_shape(r)) =~~= terminal_buffer_rows_shape(*theme));
    }
    rows
}


/// An empty buffer: untitled, no path or language, no rows but a shown
/// line-number gutter.
pub fn empty_buffer_example() -> (b: Buffer)
    ensures
        b.title@ == Seq::<char>::empty(),
        b.path@ == Seq::<char>::empty(),
        b.language@ == Seq::<char>::empty(),
        b.rows matches Some(r) && r.show_line_numbers && r.rows@ == Seq::<BufferRow>::empty(),
{
    Buffer::new().set_rows(Some(BufferRows::default()))
}

/// The hello-world sample buffer under `theme`.
pub fn hello_world_rust_buffer_example(theme: &Theme) -> (b: Buffer)
    ensures
        b.title@ == "hello_world.rs"@,
        b.path@ == "src/hello_world.rs"@,
        b.language@ == "rust"@,
        b.rows matches Some(r) && r.show_line_numbers && r.rows@.map(
            |_i: int, row: BufferRow| row_shape(row),
        ) == hello_world_rust_buffer_rows_shape(*theme),
{
    Buffer::new().set_title("hello_world.rs".to_owned()).set_path(
        "src/hello_world.rs".to_owned(),
    ).set_language("rust".to_owned()).set_rows(
        Some(BufferRows { show_line_numbers: true, rows: hello_world_rust_buffer_rows(theme) }),
    )
}

/// The hello-world sample buffer with version-control statuses, under
/// `theme`.
pub fn hello_world_rust_buffer_with_status_example(theme: &Theme) -> (b: Buffer)
    ensures
        b.title@ == "hello_world.rs"@,
        b.path@ == "src/hello_world.rs"@,
        b.language@ == "rust"@,
        b.rows matches Some(r) && r.show_line_numbers && r.rows@.map(
            |_i: int, row: BufferRow| row_shape(row),
        ) == hello_world_rust_with_status_buffer_rows_shape(*theme),
{
    Buffer::new().set_title("hello_world.rs".to_owned()).set_path(
        "src/hello_world.rs".to_owned(),
    ).set_language("rust".to_owned()).set_rows(
        Some(
            BufferRows {
                show_line_numbers: true,
                rows: hello_world_rust_with_status_buffer_rows(theme),
            },
        ),
    )
}

/// The sample terminal buffer under `theme`: a shell prompt, without a
/// line-number gutter.
pub fn terminal_buffer(theme: &Theme) -> (b: Buffer)
    ensures
        b.title@ == "zed — fish"@,
        b.rows matches Some(r) && !r.show_line_numbers && r.rows@.map(
            |_i: int, row: BufferRow| row_shape(row),
        ) == terminal_buffer_rows_shape(*theme),
{
    Buffer::new().set_title("zed — fish".to_owned()).set_rows(
        Some(BufferRows { show_line_numbers: false, rows: terminal_buffer_rows(theme) }),
    )
}

/// The follower entries each sample participant starts with: the first is
/// followed by players one, three, five and six, the second by players two
/// and six, the rest by nobody.
pub open spec fn follower_indices(i: int) -> Option<Seq<int>> {
    if i == 0 {
        Some(seq![1int, 3int, 5int, 6int])
    } else if i == 1 {
        Some(seq![2int, 6int])
    } else {
        None
    }
}

/// Whether `followers` holds exactly the sample players at `indices`.
pub open spec fn followers_match(followers: Option<Vec<Player>>, indices: Option<Seq<int>>) -> bool {
    match indices {
        Some(idx) => followers matches Some(f) && f@.len() == idx.len() && (forall|a: int|
            0 <= a < idx.len() ==> player_shape(#[trigger] f@[a]) == (
                idx[a] as usize,
                static_player_data_shape()[idx[a]].0,
                static_player_data_shape()[idx[a]].1,
            )),
        None => followers is None,
    }
}

/// The first `number_of_players` sample players, each under a random call
/// status: the first two get their sample followers, the rest none; nobody
/// follows anyone, and every voice activity is in range.
pub fn random_players_with_call_status(number_of_players: usize) -> (player_status: Vec<
    PlayerWithCallStatus,
>)
    requires
        number_of_players <= 10,
    ensures
        player_status@.len() == number_of_players,
        forall|i: int|
            0 <= i < player_status@.len() ==> {
                let entry = #[trigger] player_status@[i];
                &&& player_shape(entry.player) == (
                    i as usize,
                    static_player_data_shape()[i].0,
                    static_player_data_shape()[i].1,
                )
                &&& entry.call_status.voice_activity <= 1000
                &&& entry.call_status.following is None
                &&& followers_match(entry.call_status.followers, follower_indices(i))
            },
{
    let data = static_player_data();
    proof {
        assert(data@.map(|_i: int, d: PlayerData| (d.url@, d.name@)).len()
            == static_player_data_shape().len());
    }
    let players = create_static_players(data);
    proof {
        assert forall|j: int|
            0 <= j < 10 implies player_shape(#[trigger] players@[j]) == (
            j as usize,
            static_player_data_shape()[j].0,
            static_player_data_shape()[j].1,
        ) by {
            assert(data@.map(|_i: int, d: PlayerData| (d.url@, d.name@))[j] == (
                data@[j].url@,
                data@[j].name@,
            ));
        }
    }
    let mut player_status: Vec<PlayerWithCallStatus> = Vec::new();
    let mut i: usize = 0;
    while i < number_of_players
        invariant
            number_of_players <= 10,
            players@.len() == 10,
            forall|j: int|
                0 <= j < 10 ==> player_shape(#[trigger] players@[j]) == (
                    j as usize,
                    static_player_data_shape()[j].0,
                    static_player_data_shape()[j].1,
                ),
            i <= number_of_players,
            player_status@.len() == i,
            forall|j: int|
                0 <= j < player_status@.len() ==> {
                    let entry = #[trigger] player_status@[j];
                    &&& player_shape(entry.player) == (
                        j as usize,
                        static_player_data_shape()[j].0,
                        static_player_data_shape()[j].1,
                    )
                    &&& entry.call_status.voice_activity <= 1000
                    &&& entry.call_status.following is None
                    &&& followers_match(entry.call_status.followers, follower_indices(j))
                },
        decreases number_of_players - i,
    {
        let followers = if i == 0 {
            let mut f: Vec<Player> = Vec::new();
            f.push(players[1].duplicate());
            f.push(players[3].duplicate());
            f.push(players[5].duplicate());
            f.push(players[6].duplicate());
            Some(f)
        } else if i == 1 {
            let mut f: Vec<Player> = Vec::new();
            f.push(players[2].duplicate());
            f.push(players[6].duplicate());
            Some(f)
        } else {
            None
        };
        proof {
            assert(followers_match(followers, follower_indices(i as int)));
        }
        let call_status = populate_player_call_status(players[i].duplicate(), followers);
        player_status.push(PlayerWithCallStatus::new(players[i].duplicate(), call_status));
        i = i + 1;
    }
    player_status
}

/// The sample live stream: seven participants with random call status, on
/// the stream's channel.
pub fn static_livestream() -> (stream: Livestream)
    ensures
        stream.players@.len() == 7,
        forall|i: int|
            0 <= i < stream.players@.len() ==> player_shape(
                (#[trigger] stream.players@[i]).player,
            ) == (i as usize, static_player_data_shape()[i].0, static_player_data_shape()[i].1),
        stream.channel matches Some(c) && c@ == "gpui2-ui"@,
{
    Livestream {
        players: random_players_with_call_status(7),
        channel: Some("gpui2-ui".to_owned()),
    }
}

/// The five sample players under hand-written call statuses: the first
/// shares their screen and is followed by the second and fourth player, the
/// fourth speaks at half volume, and the fifth is muted and outside the
/// current project; everything else is the quiet default.
pub fn static_players_with_call_status() -> (player_status: Vec<PlayerWithCallStatus>)
    ensures
        player_status@.len() == 5,
        forall|i: int|
            0 <= i < player_status@.len() ==> player_shape(
                (#[trigger] player_status@[i]).player,
            ) == static_players_shape()[i],
        player_status@[0].call_status.screen_share_status == ScreenShareStatus::Shared,
        player_status@[0].call_status.followers matches Some(f) && f@.len() == 2 && player_shape(
            f@[0],
        ) == static_players_shape()[1] && player_shape(f@[1]) == static_players_shape()[3],
        player_status@[1].call_status == spec_quiet_status(),
        player_status@[2].call_status == spec_quiet_status(),
        player_status@[3].call_status == (PlayerCallStatus {
            voice_activity: 500,
            ..spec_quiet_status()
        }),
        player_status@[4].call_status == (PlayerCallStatus {
            mic_status: MicStatus::Muted,
            in_current_project: false,
            ..spec_quiet_status()
        }),
{
    let players = static_players();
    proof {
        assert(players@.map(|_i: int, p: Player| player_shape(p)).len()
            == static_players_shape().len());
        assert forall|j: int|
            0 <= j < 5 implies player_shape(#[trigger] players@[j])
            == static_players_shape()[j] by {
            assert(players@.map(|_i: int, p: Player| player_shape(p))[j] == player_shape(
                players@[j],
            ));
        }
    }
    let mut player_0_status = PlayerCallStatus::new();
    let player_1_status = PlayerCallStatus::new();
    let player_2_status = PlayerCallStatus::new();
    let mut player_3_status = PlayerCallStatus::new();
    let mut player_4_status = PlayerCallStatus::new();

    player_0_status.screen_share_status = ScreenShareStatus::Shared;
    let mut followers: Vec<Player> = Vec::new();
    followers.push(players[1].duplicate());
    followers.push(players[3].duplicate());
    player_0_status.followers = Some(followers);

    player_3_status.voice_activity = 500;
    player_4_status.mic_status = MicStatus::Muted;
    player_4_status.in_current_project = false;

    let mut player_status: Vec<PlayerWithCallStatus> = Vec::new();
    player_status.push(PlayerWithCallStatus::new(players[0].duplicate(), player_0_status));
    player_status.push(PlayerWithCallStatus::new(players[1].duplicate(), player_1_status));
    player_status.push(PlayerWithCallStatus::new(players[2].duplicate(), player_2_status));
    player_status.push(PlayerWithCallStatus::new(players[3].duplicate(), player_3_status));
    player_status.push(PlayerWithCallStatus::new(players[4].duplicate(), player_4_status));
    player_status
}

/// The quiet default call status as a value: what
/// [`PlayerCallStatus::new`] returns.
pub open spec fn spec_quiet_status() -> PlayerCallStatus {
    PlayerCallStatus {
        mic_status: MicStatus::Unmuted,
        voice_activity: 0,
        video_status: crate::player::VideoStatus::Off,
        screen_share_status: ScreenShareStatus::NotShared,
        in_current_project: true,
        disconnected: false,
        following: None,
        followers: None,
    }
}


/// An editor pane over the example tabs and an empty buffer.
pub fn empty_editor_example() -> (pane: EditorPane)
    ensures
        pane.tabs@.map(|_i: int, t: Tab| tab_shape(t)) == static_tabs_example_shape(),
        pane.path@ == "crates/ui/src/static_data.rs"@,
        pane.symbols@.len() == 0,
        pane.buffer.rows matches Some(r) && r.show_line_numbers && r.rows@
            == Seq::<BufferRow>::empty(),
        !pane.is_buffer_search_open,
{
    EditorPane::new(
        static_tabs_example(),
        "crates/ui/src/static_data.rs".to_owned(),
        Vec::new(),
        empty_buffer_example(),
    )
}

/// The breadcrumb symbol of the hello-world examples: `fn main`, with its
/// runs under the theme `t0`.
pub open spec fn hello_world_symbol_shape(t0: Theme) -> Seq<(Seq<char>, Hsla)> {
    seq![
        ("fn "@, HighlightColor::Keyword.spec_hsla(t0)),
        ("main"@, HighlightColor::Function.spec_hsla(t0)),
    ]
}

/// Build the `fn main` breadcrumb symbol under `theme`.
fn hello_world_symbol(theme: &Theme) -> (symbol: Symbol)
    ensures
        symbol.0@.map(|_i: int, t: HighlightedText| crate::buffer::text_shape(t))
            == hello_world_symbol_shape(*theme),
{
    let mut texts: Vec<HighlightedText> = Vec::new();
    texts.push(HighlightedText { text: "fn ".to_owned(), color: HighlightColor::Keyword.hsla(theme) });
    texts.push(
        HighlightedText { text: "main".to_owned(), color: HighlightColor::Function.hsla(theme) },
    );
    proof {
        assert(texts@.map(|_i: int, t: HighlightedText| crate::buffer::text_shape(t))
            =~= hello_world_symbol_shape(*theme));
    }
    Symbol(texts)
}

/// An editor pane over the example tabs, the `fn main` breadcrumb and the
/// hello-world buffer, under `theme`.
pub fn hello_world_rust_editor_example(theme: &Theme) -> (pane: EditorPane)
    ensures
        pane.tabs@.map(|_i: int, t: Tab| tab_shape(t)) == static_tabs_example_shape(),
        pane.path@ == "crates/ui/src/static_data.rs"@,
        pane.symbols@.len() == 1,
        pane.symbols@[0].0@.map(|_i: int, t: HighlightedText| crate::buffer::text_shape(t))
            == hello_world_symbol_shape(*theme),
        pane.buffer.rows matches Some(r) && r.rows@.map(|_i: int, row: BufferRow| row_shape(row))
            == hello_world_rust_buffer_rows_shape(*theme),
        !pane.is_buffer_search_open,
{
    let mut symbols: Vec<Symbol> = Vec::new();
    symbols.push(hello_world_symbol(theme));
    EditorPane::new(
        static_tabs_example(),
        "crates/ui/src/static_data.rs".to_owned(),
        symbols,
        hello_world_rust_buffer_example(theme),
    )
}

/// An editor pane over the example tabs, the `fn main` breadcrumb and the
/// hello-world buffer with version-control statuses, under `theme`.
pub fn hello_world_rust_editor_with_status_example(theme: &Theme) -> (pane: EditorPane)
    ensures
        pane.tabs@.map(|_i: int, t: Tab| tab_shape(t)) == static_tabs_example_shape(),
        pane.path@ == "crates/ui/src/static_data.rs"@,
        pane.symbols@.len() == 1,
        pane.symbols@[0].0@.map(|_i: int, t: HighlightedText| crate::buffer::text_shape(t))
            == hello_world_symbol_shape(*theme),
        pane.buffer.rows matches Some(r) && r.rows@.map(|_i: int, row: BufferRow| row_shape(row))
            == hello_world_rust_with_status_buffer_rows_shape(*theme),
        !pane.is_buffer_search_open,
{
    let mut symbols: Vec<Symbol> = Vec::new();
    symbols.push(hello_world_symbol(theme));
    EditorPane::new(
        static_tabs_example(),
        "crates/ui/src/static_data.rs".to_owned(),
        symbols,
        hello_world_rust_buffer_with_status_example(theme),
    )
}

} // verus!
