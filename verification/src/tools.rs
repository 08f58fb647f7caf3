//! The tools of the editor.

use crate::parts::PartType;
use vstd::prelude::*;

verus! {

/// The tool in use. No tool at all means selecting.
#[derive(Debug, Clone, PartialEq, Eq)]
pub enum Tool {
    PlacePart(PartType),
    PlaceModule(String),
    Paint,
    Connector,
}

/// The text shown for a tool.
pub open spec fn tool_label_text(tool: Option<Tool>) -> Seq<char> {
    match tool {
        None => "Select"@,
        Some(Tool::Paint) => "Paint Tool"@,
        Some(Tool::Connector) => "Connnector"@,
        _ => "???"@,
    }
}

/// The text shown for a tool.
pub fn tool_label(tool: Option<Tool>) -> (text: &'static str)
    ensures
        text@ == tool_label_text(tool),
{
    match tool {
        None => "Select",
        Some(Tool::Paint) => "Paint Tool",
        Some(Tool::Connector) => "Connnector",
        _ => "???",
    }
}

impl Tool {
    /// The tools the toolbar offers, in order: selecting, painting,
    /// connecting.
    pub fn tools() -> (all: Vec<Option<Tool>>)
        ensures
            all@ == seq![None, Some(Tool::Paint), Some(Tool::Connector)],
    {
        vec![None, Some(Tool::Paint), Some(Tool::Connector)]
    }
}

/// The tool in use after an entry of the toolbar was clicked: clicking the
/// tool in use puts it away, clicking another takes that one up.
pub fn toggle_tool(active: Option<Tool>, clicked: Option<Tool>, selected: bool) -> (now: Option<
    Tool,
>)
    ensures
        now == if selected {
            None
        } else {
            clicked
        },
{
    if selected {
        None
    } else {
        clicked
    }
}

/// What a click on the canvas with a tool does.
#[derive(Debug, Clone, PartialEq, Eq)]
pub enum ToolAction {
    Nothing,
    /// Select the part with this id.
    Select(u64),
    /// Select nothing.
    ClearSelection,
    /// Place a part of this type and select it.
    Place(PartType),
}

/// What a click does: without a tool it selects the part under the pointer,
/// or clears the selection on the empty canvas unless shift is held; the
/// placing tool places its part on the empty canvas and selects the part
/// under the pointer otherwise; the other tools do nothing.
pub open spec fn tool_outcome(tool: Option<Tool>, part_hit: Option<u64>, shift_held: bool)
    -> ToolAction {
    match (tool, part_hit) {
        (None, Some(part)) => ToolAction::Select(part),
        (None, None) => if shift_held {
            ToolAction::Nothing
        } else {
            ToolAction::ClearSelection
        },
        (Some(Tool::PlacePart(part_type)), None) => ToolAction::Place(part_type),
        (Some(Tool::PlacePart(_)), Some(part)) => ToolAction::Select(part),
        _ => ToolAction::Nothing,
    }
}

/// What a click on the canvas does with the tool in use.
pub fn tool_action(tool: Option<Tool>, part_hit: Option<u64>, shift_held: bool) -> (action:
    ToolAction)
    ensures
        action == tool_outcome(tool, part_hit, shift_held),
{
    match tool {
        None => match part_hit {
            Some(part) => ToolAction::Select(part),
            None => {
                if shift_held {
                    ToolAction::Nothing
                } else {
                    ToolAction::ClearSelection
                }
            },
        },
        Some(Tool::PlacePart(part_type)) => match part_hit {
            None => ToolAction::Place(part_type),
            Some(part) => ToolAction::Select(part),
        },
        Some(_) => ToolAction::Nothing,
    }
}

} // verus!
