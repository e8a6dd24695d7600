//! The plain data behind the small interface elements: tabs, labels, list
//! entries, palette items and key bindings.

use vstd::prelude::*;

verus! {

/// Whether a toggleable element is folded out.
#[derive(Clone, Copy, Debug, PartialEq, Eq, Structural)]
pub enum ToggleState {
    Toggled,
    NotToggled,
}

/// The icons the sample data refers to.
#[derive(Clone, Copy, Debug, PartialEq, Eq, Structural)]
pub enum Icon {
    Check,
    FileDoc,
    FileGeneric,
    FileLock,
    FileRust,
    FileToml,
    Folder,
    FolderOpen,
    Hash,
}

/// A file's standing towards the version control system.
#[derive(Clone, Copy, Debug, PartialEq, Eq, Structural)]
pub enum GitStatus {
    Unchanged,
    Created,
    Modified,
    Deleted,
}

/// A file's standing towards the file system.
#[derive(Clone, Copy, Debug, PartialEq, Eq, Structural)]
pub enum FileSystemStatus {
    Unchanged,
    Created,
    Deleted,
}

/// The accent a label is rendered with.
#[derive(Clone, Copy, Debug, PartialEq, Eq, Structural)]
pub enum LabelColor {
    Default,
    Created,
    Hidden,
    Modified,
}

/// A piece of text with an accent.
#[derive(Clone, Debug, PartialEq)]
pub struct Label {
    pub text: String,
    pub color: LabelColor,
}

impl Label {
    /// A label with the default accent.
    pub fn new(text: &str) -> (label: Label)
        ensures
            label.text@ == text@,
            label.color == LabelColor::Default,
    {
        Label { text: text.to_owned(), color: LabelColor::Default }
    }

    /// The same label under another accent.
    pub fn color(self, color: LabelColor) -> (label: Label)
        ensures
            label.text@ == self.text@,
            label.color == color,
    {
        Label { color, ..self }
    }
}

/// The size a list entry is rendered at.
#[derive(Clone, Copy, Debug, PartialEq, Eq, Structural)]
pub enum ListEntrySize {
    Small,
    Medium,
}

/// One entry of a list: a label with an optional icon or avatar on its
/// left, an indentation depth, an optional toggle and a size.
#[derive(Clone, Debug, PartialEq)]
pub struct ListEntry {
    pub label: Label,
    pub left_icon: Option<Icon>,
    pub left_avatar: Option<String>,
    pub indent_level: u32,
    pub toggle: Option<ToggleState>,
    pub size: ListEntrySize,
}

/// The spec-level shape of a list entry: its label text and accent, left
/// decorations, indentation, toggle and size, with strings as character
/// sequences.
pub open spec fn entry_shape(e: ListEntry) -> (
    Seq<char>,
    LabelColor,
    Option<Icon>,
    Option<Seq<char>>,
    u32,
    Option<ToggleState>,
    ListEntrySize,
) {
    (
        e.label.text@,
        e.label.color,
        e.left_icon,
        match e.left_avatar {
            Some(a) => Some(a@),
            None => None,
        },
        e.indent_level,
        e.toggle,
        e.size,
    )
}

impl ListEntry {
    /// An entry with no decorations, indentation zero, no toggle, small.
    pub fn new(label: Label) -> (entry: ListEntry)
        ensures
            entry.label == label,
            entry.left_icon is None,
            entry.left_avatar is None,
            entry.indent_level == 0,
            entry.toggle is None,
            entry.size == ListEntrySize::Small,
    {
        ListEntry {
            label,
            left_icon: None,
            left_avatar: None,
            indent_level: 0,
            toggle: None,
            size: ListEntrySize::Small,
        }
    }

    /// The same entry with an icon on its left.
    pub fn set_left_icon(self, icon: Icon) -> (entry: ListEntry)
        ensures
            entry == (ListEntry { left_icon: Some(icon), ..self }),
    {
        ListEntry { left_icon: Some(icon), ..self }
    }

    /// The same entry with an avatar on its left.
    pub fn set_left_avatar(self, avatar: &str) -> (entry: ListEntry)
        ensures
            entry.left_avatar matches Some(a) && a@ == avatar@,
            entry.label == self.label,
            entry.left_icon == self.left_icon,
            entry.indent_level == self.indent_level,
            entry.toggle == self.toggle,
            entry.size == self.size,
    {
        ListEntry { left_avatar: Some(avatar.to_owned()), ..self }
    }

    /// The same entry at another indentation depth.
    pub fn set_indent_level(self, indent_level: u32) -> (entry: ListEntry)
        ensures
            entry == (ListEntry { indent_level, ..self }),
    {
        ListEntry { indent_level, ..self }
    }

    /// The same entry with a toggle.
    pub fn set_toggle(self, toggle: ToggleState) -> (entry: ListEntry)
        ensures
            entry == (ListEntry { toggle: Some(toggle), ..self }),
    {
        ListEntry { toggle: Some(toggle), ..self }
    }

    /// The same entry at another size.
    pub fn set_size(self, size: ListEntrySize) -> (entry: ListEntry)
        ensures
            entry == (ListEntry { size, ..self }),
    {
        ListEntry { size, ..self }
    }
}

/// An item of a list. The sample data only builds plain entries.
#[derive(Clone, Debug, PartialEq)]
pub enum ListItem {
    Entry(ListEntry),
}

/// The spec-level shape of a list item.
pub open spec fn item_shape(item: ListItem) -> (
    Seq<char>,
    LabelColor,
    Option<Icon>,
    Option<Seq<char>>,
    u32,
    Option<ToggleState>,
    ListEntrySize,
) {
    match item {
        ListItem::Entry(e) => entry_shape(e),
    }
}

impl ListItem {
    /// Wrap an entry as a list item.
    pub fn entry(entry: ListEntry) -> (item: ListItem)
        ensures
            item == ListItem::Entry(entry),
    {
        ListItem::Entry(entry)
    }
}

/// A tab of an editor pane.
#[derive(Clone, Debug, PartialEq)]
pub struct Tab {
    pub title: String,
    pub icon: Option<Icon>,
    pub current: bool,
    pub fs_status: FileSystemStatus,
    pub git_status: GitStatus,
}

/// The spec-level shape of a tab, with its title as a character sequence.
pub open spec fn tab_shape(t: Tab) -> (
    Seq<char>,
    Option<Icon>,
    bool,
    FileSystemStatus,
    GitStatus,
) {
    (t.title@, t.icon, t.current, t.fs_status, t.git_status)
}

impl Tab {
    /// A tab with an empty title, no icon, not current, and no status.
    pub fn new() -> (tab: Tab)
        ensures
            tab.title@ == Seq::<char>::empty(),
            tab.icon is None,
            !tab.current,
            tab.fs_status == FileSystemStatus::Unchanged,
            tab.git_status == GitStatus::Unchanged,
    {
        Tab {
            title: String::new(),
            icon: None,
            current: false,
            fs_status: FileSystemStatus::Unchanged,
            git_status: GitStatus::Unchanged,
        }
    }

    /// The same tab under another title.
    pub fn title(self, title: String) -> (tab: Tab)
        ensures
            tab.title@ == title@,
            tab.icon == self.icon,
            tab.current == self.current,
            tab.fs_status == self.fs_status,
            tab.git_status == self.git_status,
    {
        Tab { title, ..self }
    }

    /// The same tab with an icon.
    pub fn icon(self, icon: Icon) -> (tab: Tab)
        ensures
            tab == (Tab { icon: Some(icon), ..self }),
    {
        Tab { icon: Some(icon), ..self }
    }

    /// The same tab, marked as the current one or not.
    pub fn current(self, current: bool) -> (tab: Tab)
        ensures
            tab == (Tab { current, ..self }),
    {
        Tab { current, ..self }
    }

    /// The same tab under another file-system status.
    pub fn fs_status(self, fs_status: FileSystemStatus) -> (tab: Tab)
        ensures
            tab == (Tab { fs_status, ..self }),
    {
        Tab { fs_status, ..self }
    }

    /// The same tab under another version-control status.
    pub fn git_status(self, git_status: GitStatus) -> (tab: Tab)
        ensures
            tab == (Tab { git_status, ..self }),
    {
        Tab { git_status, ..self }
    }
}

/// The modifier keys a key binding asks for.
#[derive(Clone, Copy, Debug, PartialEq, Eq, Structural)]
pub struct ModifierKeys {
    pub command: bool,
    pub shift: bool,
}

impl ModifierKeys {
    /// No modifiers.
    pub fn new() -> (m: ModifierKeys)
        ensures
            m == (ModifierKeys { command: false, shift: false }),
    {
        ModifierKeys { command: false, shift: false }
    }

    /// The same set with the command key set as given.
    pub fn command(self, command: bool) -> (m: ModifierKeys)
        ensures
            m == (ModifierKeys { command, ..self }),
    {
        ModifierKeys { command, ..self }
    }

    /// The same set with the shift key set as given.
    pub fn shift(self, shift: bool) -> (m: ModifierKeys)
        ensures
            m == (ModifierKeys { shift, ..self }),
    {
        ModifierKeys { shift, ..self }
    }
}

/// A key together with its modifiers.
#[derive(Clone, Debug, PartialEq)]
pub struct Keybinding {
    pub key: String,
    pub modifiers: ModifierKeys,
}

impl Keybinding {
    /// A binding of `key` under `modifiers`.
    pub fn new(key: String, modifiers: ModifierKeys) -> (b: Keybinding)
        ensures
            b.key@ == key@,
            b.modifiers == modifiers,
    {
        Keybinding { key, modifiers }
    }
}

/// An action offered by the command palette, with its key binding if any.
#[derive(Clone, Debug, PartialEq)]
pub struct PaletteItem {
    pub label: String,
    pub keybinding: Option<Keybinding>,
}

/// The spec-level shape of a palette item: its label and, when bound, the
/// key and modifiers.
pub open spec fn palette_shape(p: PaletteItem) -> (
    Seq<char>,
    Option<(Seq<char>, ModifierKeys)>,
) {
    (
        p.label@,
        match p.keybinding {
            Some(b) => Some((b.key@, b.modifiers)),
            None => None,
        },
    )
}

impl PaletteItem {
    /// An unbound palette item.
    pub fn new(label: &str) -> (p: PaletteItem)
        ensures
            p.label@ == label@,
            p.keybinding is None,
    {
        PaletteItem { label: label.to_owned(), keybinding: None }
    }

    /// The same item under a key binding.
    pub fn keybinding(self, keybinding: Keybinding) -> (p: PaletteItem)
        ensures
            p.label@ == self.label@,
            p.keybinding == Some(keybinding),
    {
        PaletteItem { keybinding: Some(keybinding), ..self }
    }
}

} // verus!
