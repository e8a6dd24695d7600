//! A dockable panel: which sides it may dock to, and where it is.

use vstd::prelude::*;

verus! {

/// The sides a panel may dock to.
#[derive(Default, Debug, PartialEq, Eq, Hash, Clone, Copy, Structural)]
pub enum PanelAllowedSides {
    LeftOnly,
    RightOnly,
    BottomOnly,
    #[default]
    LeftAndRight,
    All,
}

/// A side a panel can dock to.
#[derive(Default, Debug, PartialEq, Eq, Hash, Clone, Copy, Structural)]
pub enum PanelSide {
    #[default]
    Left,
    Right,
    Bottom,
}

/// Whether `sides` admits docking to `side`.
pub open spec fn side_allowed(sides: PanelAllowedSides, side: PanelSide) -> bool {
    match sides {
        PanelAllowedSides::LeftOnly => side == PanelSide::Left,
        PanelAllowedSides::RightOnly => side == PanelSide::Right,
        PanelAllowedSides::BottomOnly => side == PanelSide::Bottom,
        PanelAllowedSides::LeftAndRight => side == PanelSide::Left || side == PanelSide::Right,
        PanelAllowedSides::All => true,
    }
}

impl PanelAllowedSides {
    /// The sides this setting admits, as a vector.
    pub fn allowed_sides(&self) -> (sides: Vec<PanelSide>)
        ensures
            sides@ == match *self {
                PanelAllowedSides::LeftOnly => seq![PanelSide::Left],
                PanelAllowedSides::RightOnly => seq![PanelSide::Right],
                PanelAllowedSides::BottomOnly => seq![PanelSide::Bottom],
                PanelAllowedSides::LeftAndRight => seq![PanelSide::Left, PanelSide::Right],
                PanelAllowedSides::All => seq![
                    PanelSide::Left,
                    PanelSide::Right,
                    PanelSide::Bottom,
                ],
            },
            forall|i: int| 0 <= i < sides@.len() ==> side_allowed(*self, #[trigger] sides@[i]),
    {
        let mut sides: Vec<PanelSide> = Vec::new();
        match self {
            PanelAllowedSides::LeftOnly => {
                sides.push(PanelSide::Left);
            },
            PanelAllowedSides::RightOnly => {
                sides.push(PanelSide::Right);
            },
            PanelAllowedSides::BottomOnly => {
                sides.push(PanelSide::Bottom);
            },
            PanelAllowedSides::LeftAndRight => {
                sides.push(PanelSide::Left);
                sides.push(PanelSide::Right);
            },
            PanelAllowedSides::All => {
                sides.push(PanelSide::Left);
                sides.push(PanelSide::Right);
                sides.push(PanelSide::Bottom);
            },
        }
        proof {
            assert(sides@ =~= match *self {
                PanelAllowedSides::LeftOnly => seq![PanelSide::Left],
                PanelAllowedSides::RightOnly => seq![PanelSide::Right],
                PanelAllowedSides::BottomOnly => seq![PanelSide::Bottom],
                PanelAllowedSides::LeftAndRight => seq![PanelSide::Left, PanelSide::Right],
                PanelAllowedSides::All => seq![
                    PanelSide::Left,
                    PanelSide::Right,
                    PanelSide::Bottom,
                ],
            });
        }
        sides
    }
}

/// The default width, in whole pixels, that a panel opens at.
pub const DEFAULT_PANEL_SIZE: u32 = 240;

/// A dockable panel: the side it currently docks to, the sides it may dock
/// to, and its widths in whole pixels.
#[derive(Clone, Copy, Debug, PartialEq, Eq, Structural)]
pub struct Panel {
    pub current_side: PanelSide,
    pub allowed_sides: PanelAllowedSides,
    pub initial_width: u32,
    pub width: Option<u32>,
}

impl Panel {
    /// A panel docked left, allowed left and right, at the default width.
    pub fn new() -> (p: Panel)
        ensures
            p == (Panel {
                current_side: PanelSide::Left,
                allowed_sides: PanelAllowedSides::LeftAndRight,
                initial_width: DEFAULT_PANEL_SIZE,
                width: None,
            }),
    {
        Panel {
            current_side: PanelSide::Left,
            allowed_sides: PanelAllowedSides::LeftAndRight,
            initial_width: DEFAULT_PANEL_SIZE,
            width: None,
        }
    }

    /// The same panel with another initial width.
    pub fn initial_width(self, initial_width: u32) -> (p: Panel)
        ensures
            p == (Panel { initial_width, ..self }),
    {
        Panel { initial_width, ..self }
    }

    /// The same panel with an explicit width.
    pub fn width(self, width: u32) -> (p: Panel)
        ensures
            p == (Panel { width: Some(width), ..self }),
    {
        Panel { width: Some(width), ..self }
    }

    /// The same panel restricted to other sides.
    pub fn allowed_sides(self, allowed_sides: PanelAllowedSides) -> (p: Panel)
        ensures
            p == (Panel { allowed_sides, ..self }),
    {
        Panel { allowed_sides, ..self }
    }

    /// Dock the panel to `side`. The side must have been allowed before it
    /// is set: docking to a side that is not allowed is a caller error, so
    /// such calls are ruled out.
    pub fn side(self, side: PanelSide) -> (p: Panel)
        requires
            side_allowed(self.allowed_sides, side),
        ensures
            p == (Panel { current_side: side, ..self }),
    {
        Panel { current_side: side, ..self }
    }
}

/// The showcase of the panel element.
#[derive(Clone, Copy, Debug, PartialEq, Eq, Structural)]
pub struct PanelStory {
    pub panel: Panel,
}

impl PanelStory {
    /// A showcase around a default panel.
    pub fn new() -> (s: PanelStory)
        ensures
            s == (PanelStory {
                panel: Panel {
                    current_side: PanelSide::Left,
                    allowed_sides: PanelAllowedSides::LeftAndRight,
                    initial_width: DEFAULT_PANEL_SIZE,
                    width: None,
                },
            }),
    {
        PanelStory { panel: Panel::new() }
    }
}

} // verus!
