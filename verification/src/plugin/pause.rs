//! Pause nodes: a node that waits for a time, or until somebody ends the wait.

use crate::entity::{NodeView, TaskView, WorkflowNodeInstanceEntity};
use crate::json::{field_of, json_number, json_text, number, put_str, text_of, Json, JsonView};
use crate::plugin::container::with_output;
use crate::plugin::interface::{just, outcome, ExecutionResult, ExecutionView};
use crate::shared::{NodeExecutionStatus, TaskType};
use crate::template::{PauseTemplateView, TaskTemplate, TaskTemplateView};
use crate::text::{concat2, owned};
use crate::time::{
    instant_of, now, rfc3339, to_rfc3339, Timestamp, LAST_FOUR_DIGIT_SECOND, LAST_SECOND,
};
use vstd::prelude::*;

verus! {

/// The plugin of pause nodes.
pub struct PausePlugin;

/// What a pause writes as its output.
pub open spec fn pause_output(template: PauseTemplateView, resume_at: Timestamp) -> JsonView {
    JsonView::Object(
        map!["mode"@ => JsonView::Str(template.mode.label()), "wait_seconds"@ => number(template.wait_seconds as u64), "resume_at"@ => JsonView::Str(rfc3339(resume_at))],
    )
}

/// When a paused node is to go on, by its output; nothing if the output does not say.
pub open spec fn resume_time(node: NodeView) -> Option<Timestamp> {
    match text_of(field_of(node.task_instance.output, "resume_at"@)) {
        Some(t) => instant_of(t),
        None => None,
    }
}

/// What running a pause node at a given time comes to: the node is suspended, and its output says
/// when the wait is over. It is an error if the node holds no pause template, or if the wait would
/// end after the last calendar date.
pub open spec fn paused(node: NodeView, at: Timestamp) -> Result<
    (NodeView, ExecutionView),
    Seq<char>,
> {
    match node.task_instance.task_template {
        TaskTemplateView::Pause(template) => match at.later(template.wait_seconds) {
            Some(resume_at) => Ok(
                (
                    with_output(node, pause_output(template, resume_at)),
                    just(NodeExecutionStatus::Suspended),
                ),
            ),
            None => Err("Pause ends after the last calendar date"@),
        },
        _ => Err("Invalid template for PausePlugin: "@ + node.task_instance.task_template.kind().label()),
    }
}

/// What running a pause node comes to, whatever the clock says.
pub open spec fn pause_ran(
    before: NodeView,
    after: NodeView,
    r: Result<ExecutionView, Seq<char>>,
) -> bool {
    exists|at: Timestamp|
        at.has_date() && match r {
            Ok(x) => #[trigger] paused(before, at) == Ok::<(NodeView, ExecutionView), Seq<char>>(
                (after, x),
            ),
            Err(e) => paused(before, at) == Err::<(NodeView, ExecutionView), Seq<char>>(e) && after
                == before,
        }
}

impl PausePlugin {
    pub fn new() -> (r: Self) {
        PausePlugin
    }

    /// The kind of node that this plugin runs.
    pub fn plugin_type(&self) -> (r: TaskType)
        ensures
            r is Pause,
    {
        TaskType::Pause
    }

    /// Runs a pause node at a given time. What the node's output says of the end of the wait reads
    /// back as the time so many seconds later, as long as its year has four digits.
    pub fn execute_at(&self, node_instance: &mut WorkflowNodeInstanceEntity, at: Timestamp) -> (r:
        Result<ExecutionResult, String>)
        requires
            at.has_date(),
        ensures
            match r {
                Ok(x) => paused(old(node_instance)@, at) == Ok::<
                    (NodeView, ExecutionView),
                    Seq<char>,
                >((final(node_instance)@, x@)),
                Err(e) => paused(old(node_instance)@, at) == Err::<
                    (NodeView, ExecutionView),
                    Seq<char>,
                >(e@) && final(node_instance)@ == old(node_instance)@,
            },
            old(node_instance)@.task_instance.task_template matches TaskTemplateView::Pause(t)
                ==> match at.later(t.wait_seconds) {
                Some(end) => 0 <= end.secs <= LAST_FOUR_DIGIT_SECOND
                    ==> resume_time(final(node_instance)@) == Some(end),
                None => true,
            },
    {
        let template = match &node_instance.task_instance.task_template {
            TaskTemplate::Pause(t) => t.clone(),
            other => {
                return Err(concat2("Invalid template for PausePlugin: ", other.task_type().name()));
            },
        };
        let resume_at = match at.plus_seconds(template.wait_seconds) {
            Some(t) => t,
            None => {
                return Err(owned("Pause ends after the last calendar date"));
            },
        };
        let mut e: Vec<(String, Json)> = Vec::new();
        put_str(&mut e, "mode", json_text(template.mode.name()));
        put_str(&mut e, "wait_seconds", json_number(template.wait_seconds as u64));
        put_str(&mut e, "resume_at", Json::Str(to_rfc3339(resume_at)));
        node_instance.task_instance.output = Some(Json::Object(e));
        Ok(ExecutionResult::suspended())
    }

    /// Runs a pause node now. See [`PausePlugin::execute_at`].
    pub fn execute(&self, node_instance: &mut WorkflowNodeInstanceEntity) -> (r: Result<
        ExecutionResult,
        String,
    >)
        ensures
            pause_ran(old(node_instance)@, final(node_instance)@, outcome(r)),
    {
        self.execute_at(node_instance, now())
    }
}

impl Default for PausePlugin {
    fn default() -> (r: Self) {
        PausePlugin::new()
    }
}

/// A pause suspends its node, and its output tells the moment when the wait is over: so many seconds
/// after it began as the template says.
pub proof fn law_a_pause_lasts_as_long_as_it_says(node: NodeView, at: Timestamp)
    requires
        node.task_instance.task_template is Pause,
        at.nanos < 1_000_000_000,
    ensures
        ({
            let template = node.task_instance.task_template->Pause_0;
            paused(node, at) matches Ok((after, outcome)) ==> {
                &&& outcome.status is Suspended
                &&& outcome.dispatch_jobs.len() == 0
                &&& outcome.dispatch_workflow_jobs.len() == 0
                &&& outcome.jump_to_node is None
                &&& after.task_instance.output matches Some(output)
                &&& output.field("resume_at"@) == Some(
                    JsonView::Str(
                        rfc3339(
                            Timestamp {
                                secs: (at.secs + template.wait_seconds) as i64,
                                nanos: at.nanos,
                            },
                        ),
                    ),
                )
                &&& output.field("wait_seconds"@) == Some(number(template.wait_seconds as u64))
                &&& output.field("mode"@) == Some(JsonView::Str(template.mode.label()))
                &&& after == (NodeView {
                    task_instance: TaskView {
                        output: after.task_instance.output,
                        ..node.task_instance
                    },
                    ..node
                })
            }
        }),
        paused(node, at) is Err <==> at.secs + node.task_instance.task_template->Pause_0.wait_seconds
            > LAST_SECOND,
{
    reveal_strlit("resume_at");
    reveal_strlit("wait_seconds");
    reveal_strlit("mode");
    assert("resume_at"@.len() == 9 && "wait_seconds"@.len() == 12 && "mode"@.len() == 4);
}

/// When a paused node is to go on is read from where a pause writes it.
pub proof fn law_the_end_of_a_pause_is_read_back(
    node: NodeView,
    template: PauseTemplateView,
    end: Timestamp,
)
    ensures
        resume_time(with_output(node, pause_output(template, end))) == instant_of(rfc3339(end)),
{
    reveal_strlit("resume_at");
    reveal_strlit("wait_seconds");
    reveal_strlit("mode");
    assert("resume_at"@.len() == 9 && "wait_seconds"@.len() == 12 && "mode"@.len() == 4);
}

/// A pause node that was run is suspended, or was refused and is as it was.
pub proof fn law_a_pause_suspends_or_changes_nothing(
    before: NodeView,
    after: NodeView,
    r: Result<ExecutionView, Seq<char>>,
)
    requires
        pause_ran(before, after, r),
    ensures
        r matches Ok(x) ==> x.status is Suspended && before.task_instance.task_template is Pause,
        r is Err ==> after == before,
        r is Ok ==> after.node_id == before.node_id && after.task_instance.output is Some,
{
}

} // verus!
