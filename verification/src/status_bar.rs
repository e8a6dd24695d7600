//! The status bar: three optional groups of tools.

use vstd::prelude::*;

verus! {

/// A tool reachable from the status bar.
#[derive(Default, Debug, Clone, Copy, PartialEq, Eq, Structural)]
pub enum Tool {
    #[default]
    ProjectPanel,
    CollaborationPanel,
    Terminal,
    Assistant,
    Feedback,
    Diagnostics,
}

/// A group of tools with the index of the active one, if any.
#[derive(Debug, Clone, PartialEq)]
pub struct ToolGroup {
    pub active_index: Option<usize>,
    pub tools: Vec<Tool>,
}

/// The mathematical state of a [`StatusBar`]: each of the three corners
/// holds, when present, the active index and the tools in display order.
pub struct StatusBarModel {
    pub left: Option<(Option<usize>, Seq<Tool>)>,
    pub right: Option<(Option<usize>, Seq<Tool>)>,
    pub bottom: Option<(Option<usize>, Seq<Tool>)>,
}

/// The status bar under construction: tool groups for its left, right and
/// bottom corners. Each `*_tool` call prepends the new tool to the tools
/// taken out of the left group — the group the bar is filled from — and
/// stores the result in its own corner.
pub struct StatusBar {
    pub left_tools: Option<ToolGroup>,
    pub right_tools: Option<ToolGroup>,
    pub bottom_tools: Option<ToolGroup>,
}

/// The model of one optional tool group.
spec fn group_view(g: Option<ToolGroup>) -> Option<(Option<usize>, Seq<Tool>)> {
    match g {
        Some(group) => Some((group.active_index, group.tools@)),
        None => None,
    }
}

/// The tools of an optional group, or none.
pub open spec fn group_tools(g: Option<(Option<usize>, Seq<Tool>)>) -> Seq<Tool> {
    match g {
        Some(group) => group.1,
        None => Seq::empty(),
    }
}

impl View for StatusBar {
    type V = StatusBarModel;

    closed spec fn view(&self) -> StatusBarModel {
        StatusBarModel {
            left: group_view(self.left_tools),
            right: group_view(self.right_tools),
            bottom: group_view(self.bottom_tools),
        }
    }
}

impl StatusBar {
    /// An empty status bar: no tools anywhere.
    pub fn new() -> (bar: StatusBar)
        ensures
            bar@.left is None,
            bar@.right is None,
            bar@.bottom is None,
    {
        StatusBar { left_tools: None, right_tools: None, bottom_tools: None }
    }

    /// Put `tool` first in the left group, followed by whatever the left
    /// group held, under the given active index.
    pub fn left_tool(self, tool: Tool, active_index: Option<usize>) -> (bar: StatusBar)
        ensures
            bar@.left == Some((active_index, seq![tool] + group_tools(self@.left))),
            bar@.right == self@.right,
            bar@.bottom == self@.bottom,
    {
        let ghost left0 = self@.left;
        let StatusBar { left_tools, right_tools, bottom_tools } = self;
        let mut tools: Vec<Tool> = Vec::new();
        tools.push(tool);
        match left_tools {
            Some(mut group) => {
                tools.append(&mut group.tools);
            },
            None => {},
        }
        proof {
            assert(tools@ =~= seq![tool] + group_tools(left0));
        }
        StatusBar { left_tools: Some(ToolGroup { active_index, tools }), right_tools, bottom_tools }
    }

    /// Put `tool` first in the tools taken out of the left group and store
    /// the result as the right group, under the given active index. The
    /// left group is emptied: the bar is filled from it.
    pub fn right_tool(self, tool: Tool, active_index: Option<usize>) -> (bar: StatusBar)
        ensures
            bar@.right == Some((active_index, seq![tool] + group_tools(self@.left))),
            bar@.left is None,
            bar@.bottom == self@.bottom,
    {
        let ghost left0 = self@.left;
        let StatusBar { left_tools, right_tools: _, bottom_tools } = self;
        let mut tools: Vec<Tool> = Vec::new();
        tools.push(tool);
        match left_tools {
            Some(mut group) => {
                tools.append(&mut group.tools);
            },
            None => {},
        }
        proof {
            assert(tools@ =~= seq![tool] + group_tools(left0));
        }
        StatusBar {
            left_tools: None,
            right_tools: Some(ToolGroup { active_index, tools }),
            bottom_tools,
        }
    }

    /// Put `tool` first in the tools taken out of the left group and store
    /// the result as the bottom group, under the given active index. The
    /// left group is emptied: the bar is filled from it.
    pub fn bottom_tool(self, tool: Tool, active_index: Option<usize>) -> (bar: StatusBar)
        ensures
            bar@.bottom == Some((active_index, seq![tool] + group_tools(self@.left))),
            bar@.left is None,
            bar@.right == self@.right,
    {
        let ghost left0 = self@.left;
        let StatusBar { left_tools, right_tools, bottom_tools: _ } = self;
        let mut tools: Vec<Tool> = Vec::new();
        tools.push(tool);
        match left_tools {
            Some(mut group) => {
                tools.append(&mut group.tools);
            },
            None => {},
        }
        proof {
            assert(tools@ =~= seq![tool] + group_tools(left0));
        }
        StatusBar {
            left_tools: None,
            right_tools,
            bottom_tools: Some(ToolGroup { active_index, tools }),
        }
    }
}

} // verus!
