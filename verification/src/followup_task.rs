//! The `followup_task` tool handler: what it is called, its schema, and how it reads
//! direct calls.

use vstd::prelude::*;

use crate::multi_agent_message::{
    create_followup_task_tool_for_route, followup_task_description,
    followup_task_message_description, followup_task_target_description, is_message_tool,
    route_source_policy, AgentMessageRoute,
};
use crate::tool_context::{DirectToolCallSourcePolicy, ToolName, ToolPayload, ToolSpec};

verus! {

/// The handler of the `followup_task` tool on one message route.
#[derive(Debug, PartialEq, Eq, Clone, Copy, Structural)]
pub struct Handler {
    pub message_route: AgentMessageRoute,
}

impl Handler {
    pub fn new(message_route: AgentMessageRoute) -> (r: Handler)
        ensures
            r.message_route == message_route,
    {
        Handler { message_route }
    }

    /// The tool's name: `followup_task`, without a namespace.
    pub fn tool_name(&self) -> (r: ToolName)
        ensures
            r.namespace is None,
            r.name@ == "followup_task"@,
    {
        ToolName::plain("followup_task")
    }

    /// The tool's schema on this handler's route.
    pub fn spec(&self) -> (r: ToolSpec)
        ensures
            is_message_tool(
                r,
                "followup_task"@,
                followup_task_description(),
                followup_task_target_description(),
                followup_task_message_description(),
                self.message_route,
            ),
    {
        create_followup_task_tool_for_route(self.message_route)
    }

    /// How this handler reads direct calls: as its route does.
    pub fn direct_tool_call_source_policy(&self) -> (r: DirectToolCallSourcePolicy)
        ensures
            r == route_source_policy(self.message_route),
    {
        self.message_route.direct_tool_call_source_policy()
    }

    /// The handler takes function calls only.
    pub fn matches_kind(&self, payload: &ToolPayload) -> (r: bool)
        ensures
            r == (*payload is Function),
    {
        match payload {
            ToolPayload::Function { .. } => true,
            _ => false,
        }
    }
}

} // verus!
