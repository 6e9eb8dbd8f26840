//! What holds of the pipeline's decisions in every state.

use crate::pipeline::machine::{
    in_phase, launch_actions, stepped, ActionView, CancelBits, EventView, PhaseView, PipelineView,
};
use crate::pipeline::status::{timeout_message, StatusView, ToolErrorType};
use vstd::prelude::*;

verus! {

/// The event that reports the cancellation bits in the given phase, if the
/// phase has one: the end of the prepare pause, the start of the tool, or a
/// cancel notification while the tool runs.
pub open spec fn bits_report(phase: PhaseView, bits: CancelBits, elapsed_ms: u64) -> Option<
    EventView,
> {
    match phase {
        PhaseView::Preparing => Some(EventView::Prepared { bits, elapsed_ms }),
        PhaseView::Starting => Some(EventView::Started { bits }),
        PhaseView::Executing { .. } => Some(EventView::Notified { bits, elapsed_ms }),
        _ => None,
    }
}

/// Cancellation. Whenever the pipeline learns that the cancel bit or the
/// exit bit is set, before the tool starts or while it runs, the
/// invocation is over at once with `Cancelled`; if a tool was started, its
/// token is cancelled first.
pub proof fn law_cancel_ends_invocation(pipeline: PipelineView, bits: CancelBits, elapsed_ms: u64)
    requires
        bits.spec_any(),
        bits_report(pipeline.phase, bits, elapsed_ms) is Some,
    ensures
        ({
            let (next, actions) = stepped(
                pipeline,
                bits_report(pipeline.phase, bits, elapsed_ms)->0,
            );
            &&& next.phase is Finished
            &&& actions.len() >= 1
            &&& actions.last() == ActionView::Finish(StatusView::Cancelled)
            &&& !(pipeline.phase is Preparing) ==> actions == seq![
                ActionView::CancelTool,
                ActionView::Finish(StatusView::Cancelled),
            ]
        }),
{
}

/// Timeout. The pipeline waits with the ceiling of the tool's category as
/// the timeout, and with the warned share of that ceiling as the warning
/// delay. When the timeout fires while the tool runs, the token is
/// cancelled and the invocation is over with `Timeout`, which names the
/// tool, the category and the ceiling.
pub proof fn law_timeout_ends_invocation(pipeline: PipelineView, warned: bool, bits: CancelBits)
    requires
        pipeline.settings.ceiling_seconds is Some,
    ensures
        !bits.spec_any() ==> stepped(
            in_phase(pipeline, PhaseView::Starting),
            EventView::Started { bits },
        ).1 == seq![
            ActionView::Await {
                timeout_ms: pipeline.settings.spec_timeout_ms(),
                warning_ms: pipeline.settings.spec_warning_ms(),
            },
        ],
        ({
            let (next, actions) = stepped(
                in_phase(pipeline, PhaseView::Executing { warned }),
                EventView::TimedOut,
            );
            &&& next.phase is Finished
            &&& actions.len() == 3
            &&& actions[0] == ActionView::CancelTool
            &&& actions[2] == ActionView::Finish(
                StatusView::Timeout {
                    tool_name: pipeline.name,
                    error_type: ToolErrorType::Timeout,
                    message: timeout_message(
                        pipeline.name,
                        pipeline.settings.category,
                        pipeline.settings.ceiling_seconds,
                    ),
                    category: pipeline.settings.category,
                    ceiling_seconds: pipeline.settings.ceiling_seconds,
                },
            )
        }),
{
}

/// The warning comes once. A second warning timer changes nothing.
pub proof fn law_warning_is_single(pipeline: PipelineView, elapsed_ms: u64, current_progress: u8)
    ensures
        stepped(
            in_phase(pipeline, PhaseView::Executing { warned: true }),
            EventView::WarningDue { elapsed_ms, current_progress },
        ) == (in_phase(pipeline, PhaseView::Executing { warned: true }), Seq::<ActionView>::empty()),
{
}

/// How often `action` occurs among the first `upto` of `actions`.
pub open spec fn occurrences(actions: Seq<ActionView>, action: ActionView, upto: int) -> nat
    decreases upto,
{
    if upto <= 0 {
        0
    } else {
        occurrences(actions, action, upto - 1) + if actions[upto - 1] == action {
            1nat
        } else {
            0nat
        }
    }
}

/// Soft cancel. A cancel notification with neither bit set, while the tool
/// runs, restarts the tool: the token of the running tool is cancelled
/// first, then the tool is started exactly once more, and the pipeline
/// stands where it stood before the first start, so the new run gets the
/// full time budget again.
pub proof fn law_soft_cancel_restarts(pipeline: PipelineView, warned: bool, elapsed_ms: u64)
    ensures
        ({
            let quiet = CancelBits { cancel_requested: false, exit_requested: false };
            let (next, actions) = stepped(
                in_phase(pipeline, PhaseView::Executing { warned }),
                EventView::Notified { bits: quiet, elapsed_ms },
            );
            &&& next == in_phase(pipeline, PhaseView::Starting)
            &&& actions == seq![ActionView::CancelTool] + launch_actions(pipeline.name, elapsed_ms)
            &&& actions[0] == ActionView::CancelTool
            &&& occurrences(actions, ActionView::StartTool, actions.len() as int) == 1
            &&& occurrences(actions, ActionView::CancelTool, actions.len() as int) == 1
        }),
{
    let quiet = CancelBits { cancel_requested: false, exit_requested: false };
    let actions = stepped(
        in_phase(pipeline, PhaseView::Executing { warned }),
        EventView::Notified { bits: quiet, elapsed_ms },
    ).1;
    assert(actions.len() == 4);
    reveal_with_fuel(occurrences, 5);
}

/// Once over, always over: a finished pipeline ignores every event.
pub proof fn law_finished_is_final(pipeline: PipelineView, event: EventView)
    requires
        pipeline.phase is Finished,
    ensures
        stepped(pipeline, event) == (pipeline, Seq::<ActionView>::empty()),
{
}

/// The status comes last. A step hands out a final status at most once, as
/// its last action, after every progress update of the step; and it does so
/// exactly when the step ends the invocation.
pub proof fn law_finish_comes_last(pipeline: PipelineView, event: EventView)
    requires
        !(pipeline.phase is Finished),
    ensures
        ({
            let (next, actions) = stepped(pipeline, event);
            &&& forall|i: int| 0 <= i < actions.len() - 1 ==> !(#[trigger] actions[i] is Finish)
            &&& next.phase is Finished <==> actions.len() > 0 && actions.last() is Finish
        }),
{
    let (next, actions) = stepped(pipeline, event);
    match (pipeline.phase, event) {
        (PhaseView::Preparing, EventView::Prepared { bits, elapsed_ms }) => {
            if !bits.spec_any() {
                assert(actions.len() == 5);
            }
        },
        (PhaseView::Executing { warned }, EventView::Notified { bits, elapsed_ms }) => {
            if !bits.spec_any() {
                assert(actions.len() == 4);
            }
        },
        (
            PhaseView::Executing { warned },
            EventView::WarningDue { elapsed_ms, current_progress },
        ) => {
            if !warned && pipeline.settings.spec_warning_ms() is Some {
                assert(actions.len() <= 2);
            }
        },
        _ => {},
    }
}

} // verus!
