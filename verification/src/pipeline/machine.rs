//! The decisions of the tool execution pipeline.
//!
//! The pipeline does no work itself. It is told what happened (a pause
//! ended, a timer fired, a cancel signal arrived, the tool returned) and
//! answers with what to do next: report progress, start or cancel the tool,
//! wait on timers, or finish with a status. Whoever drives it owns the
//! clock, the tool and the signals.

use crate::pipeline::status::{
    create_timeout_error, decoded_output, process_tool_output, timeout_message, StatusView,
    ToolErrorType, ToolExecutionStatus, ToolTimeoutCategory,
};
use crate::text::{decimal_digits, decimal_string};
use serde_json::Value;
use vstd::prelude::*;
use vstd::string::StringExecFns;

verus! {

/// Pause, in milliseconds, that lets the progress display catch up.
pub const DISPLAY_PAUSE_MS: u64 = 50;

/// The time budget of a tool: its category, the ceiling of that category
/// in seconds, and at how many percent of the ceiling the user is warned.
#[derive(Debug, Clone, Copy, PartialEq, Eq, Structural)]
pub struct TimeoutSettings {
    pub category: ToolTimeoutCategory,
    pub ceiling_seconds: Option<u64>,
    pub warning_percent: u8,
}

/// The two bits of the cancellation signal.
#[derive(Debug, Clone, Copy, PartialEq, Eq, Structural)]
pub struct CancelBits {
    /// Abort the current tool and go on with the session.
    pub cancel_requested: bool,
    /// Abort the session.
    pub exit_requested: bool,
}

impl CancelBits {
    /// Either bit is set.
    pub open spec fn spec_any(self) -> bool {
        self.cancel_requested || self.exit_requested
    }

    pub fn any(&self) -> (r: bool)
        ensures
            r == self.spec_any(),
    {
        self.cancel_requested || self.exit_requested
    }
}

/// `n`, or the largest `u64` if `n` is beyond it.
pub open spec fn capped_u64(n: nat) -> u64 {
    if n > u64::MAX {
        u64::MAX
    } else {
        n as u64
    }
}

impl TimeoutSettings {
    /// The ceiling in milliseconds.
    pub open spec fn spec_timeout_ms(self) -> Option<u64> {
        match self.ceiling_seconds {
            Some(seconds) => Some(capped_u64(seconds as nat * 1000)),
            None => None,
        }
    }

    /// After how many milliseconds the warning is due: the ceiling times
    /// the warning percentage. There is none without a ceiling, for a
    /// percentage outside 1 to 99, or where the product is zero.
    pub open spec fn spec_warning_ms(self) -> Option<u64> {
        match self.spec_timeout_ms() {
            Some(ceiling) => {
                let after = ceiling as nat * self.warning_percent as nat / 100;
                if 0 < self.warning_percent < 100 && after > 0 {
                    Some(after as u64)
                } else {
                    None
                }
            },
            None => None,
        }
    }

    pub fn timeout_ms(&self) -> (r: Option<u64>)
        ensures
            r == self.spec_timeout_ms(),
    {
        match self.ceiling_seconds {
            Some(seconds) => {
                if seconds > u64::MAX / 1000 {
                    Some(u64::MAX)
                } else {
                    Some(seconds * 1000)
                }
            },
            None => None,
        }
    }

    pub fn warning_ms(&self) -> (r: Option<u64>)
        ensures
            r == self.spec_warning_ms(),
    {
        match self.timeout_ms() {
            Some(ceiling) => {
                if 0 < self.warning_percent && self.warning_percent < 100 {
                    let budget: u128 = ceiling as u128;
                    let share: u128 = self.warning_percent as u128;
                    proof {
                        assert(budget * share <= budget * 100 <= u128::MAX) by (nonlinear_arith)
                            requires
                                budget <= u64::MAX,
                                share <= 100,
                        ;
                    }
                    let wide: u128 = budget * share / 100;
                    if wide > 0 {
                        Some(wide as u64)
                    } else {
                        None
                    }
                } else {
                    None
                }
            },
            None => None,
        }
    }
}

/// The progress shown while a tool runs, estimated from the time since the
/// invocation began.
pub open spec fn estimated_progress(elapsed_ms: u64) -> u8 {
    if elapsed_ms < 500 {
        30
    } else if elapsed_ms < 2000 {
        50
    } else if elapsed_ms < 5000 {
        70
    } else {
        85
    }
}

/// The progress shown while a tool runs, estimated from the time since the
/// invocation began.
pub fn estimate_progress(elapsed_ms: u64) -> (r: u8)
    ensures
        r == estimated_progress(elapsed_ms),
{
    if elapsed_ms < 500 {
        30
    } else if elapsed_ms < 2000 {
        50
    } else if elapsed_ms < 5000 {
        70
    } else {
        85
    }
}

/// What happened.
#[derive(Debug)]
pub enum PipelineEvent {
    /// The pause of the prepare phase is over.
    Prepared { bits: CancelBits, elapsed_ms: u64 },
    /// The tool was started.
    Started { bits: CancelBits },
    /// The cancellation signal fired while the tool ran.
    Notified { bits: CancelBits, elapsed_ms: u64 },
    /// The warning timer fired.
    WarningDue { elapsed_ms: u64, current_progress: u8 },
    /// The timeout timer fired.
    TimedOut,
    /// The tool returned this output.
    Succeeded(Value),
    /// The tool failed for this reason.
    Failed(String),
    /// The pause of the finalize phase is over.
    Finalized,
}

/// What an event holds.
pub enum EventView {
    Prepared { bits: CancelBits, elapsed_ms: u64 },
    Started { bits: CancelBits },
    Notified { bits: CancelBits, elapsed_ms: u64 },
    WarningDue { elapsed_ms: u64, current_progress: u8 },
    TimedOut,
    Succeeded(Value),
    Failed(Seq<char>),
    Finalized,
}

impl View for PipelineEvent {
    type V = EventView;

    open spec fn view(&self) -> EventView {
        match self {
            PipelineEvent::Prepared { bits, elapsed_ms } => EventView::Prepared {
                bits: *bits,
                elapsed_ms: *elapsed_ms,
            },
            PipelineEvent::Started { bits } => EventView::Started { bits: *bits },
            PipelineEvent::Notified { bits, elapsed_ms } => EventView::Notified {
                bits: *bits,
                elapsed_ms: *elapsed_ms,
            },
            PipelineEvent::WarningDue { elapsed_ms, current_progress } => EventView::WarningDue {
                elapsed_ms: *elapsed_ms,
                current_progress: *current_progress,
            },
            PipelineEvent::TimedOut => EventView::TimedOut,
            PipelineEvent::Succeeded(output) => EventView::Succeeded(*output),
            PipelineEvent::Failed(reason) => EventView::Failed(reason@),
            PipelineEvent::Finalized => EventView::Finalized,
        }
    }
}

/// What to do next.
#[derive(Debug)]
pub enum PipelineAction {
    /// Show this message.
    SetMessage(String),
    /// Show this percentage.
    SetProgress(u8),
    /// Pause, then report that the pause is over.
    Sleep { millis: u64 },
    /// Start the tool with a fresh cancellation token, then report that it
    /// was started.
    StartTool,
    /// Wait for the tool, the cancellation signal and these timers,
    /// whichever comes first.
    Await { timeout_ms: Option<u64>, warning_ms: Option<u64> },
    /// Cancel the token of the running tool.
    CancelTool,
    /// The invocation is over with this status.
    Finish(ToolExecutionStatus),
}

/// What an action holds.
pub enum ActionView {
    SetMessage(Seq<char>),
    SetProgress(u8),
    Sleep { millis: u64 },
    StartTool,
    Await { timeout_ms: Option<u64>, warning_ms: Option<u64> },
    CancelTool,
    Finish(StatusView),
}

impl View for PipelineAction {
    type V = ActionView;

    open spec fn view(&self) -> ActionView {
        match self {
            PipelineAction::SetMessage(text) => ActionView::SetMessage(text@),
            PipelineAction::SetProgress(percent) => ActionView::SetProgress(*percent),
            PipelineAction::Sleep { millis } => ActionView::Sleep { millis: *millis },
            PipelineAction::StartTool => ActionView::StartTool,
            PipelineAction::Await { timeout_ms, warning_ms } => ActionView::Await {
                timeout_ms: *timeout_ms,
                warning_ms: *warning_ms,
            },
            PipelineAction::CancelTool => ActionView::CancelTool,
            PipelineAction::Finish(status) => ActionView::Finish(status@),
        }
    }
}

/// The views of a list of actions.
pub open spec fn action_views(actions: Seq<PipelineAction>) -> Seq<ActionView> {
    Seq::new(actions.len(), |i: int| actions[i]@)
}

/// Where an invocation stands.
pub enum PhaseView {
    /// In the pause of the prepare phase.
    Preparing,
    /// The tool is being started.
    Starting,
    /// The tool runs; `warned` once the warning was shown.
    Executing { warned: bool },
    /// The tool returned `output`; in the pause of the finalize phase.
    Finalizing { output: Value },
    /// Over.
    Finished,
}

/// The state of an invocation.
pub struct PipelineView {
    pub name: Seq<char>,
    pub settings: TimeoutSettings,
    pub phase: PhaseView,
}

pub open spec fn preparing_message(name: Seq<char>) -> Seq<char> {
    "Preparing "@ + name + "..."@
}

pub open spec fn setup_message(name: Seq<char>) -> Seq<char> {
    "Setting up "@ + name + " execution..."@
}

pub open spec fn executing_message(name: Seq<char>) -> Seq<char> {
    "Executing "@ + name + "..."@
}

pub open spec fn processing_message(name: Seq<char>) -> Seq<char> {
    "Processing "@ + name + " results..."@
}

pub open spec fn finalizing_message(name: Seq<char>) -> Seq<char> {
    "Finalizing "@ + name + "..."@
}

pub open spec fn completed_message(name: Seq<char>) -> Seq<char> {
    name + " completed successfully"@
}

pub open spec fn failed_message(name: Seq<char>) -> Seq<char> {
    name + " failed"@
}

pub open spec fn timed_out_message(name: Seq<char>) -> Seq<char> {
    name + " timed out"@
}

/// `elapsed_ms` in seconds with one decimal, rounded to the nearest tenth.
pub open spec fn seconds_text(elapsed_ms: u64) -> Seq<char> {
    let tenths = elapsed_ms as nat / 100 + if elapsed_ms % 100 >= 50 {
        1nat
    } else {
        0nat
    };
    decimal_digits(tenths / 10) + seq!['.'] + decimal_digits(tenths % 10)
}

/// The warning shown when a tool has used the warned share of its budget.
pub open spec fn warning_message(
    name: Seq<char>,
    settings: TimeoutSettings,
    elapsed_ms: u64,
) -> Seq<char> {
    name + " has run for "@ + seconds_text(elapsed_ms) + "s ("@ + settings.category.spec_label()
        + " ceiling: "@ + decimal_digits(
        match settings.ceiling_seconds {
            Some(seconds) => seconds as nat,
            None => 0,
        },
    ) + "s). Press Ctrl+C to cancel or adjust [timeouts] in vtcode.toml."@
}

/// The first actions of an invocation.
pub open spec fn opening_actions(name: Seq<char>) -> Seq<ActionView> {
    seq![
        ActionView::SetMessage(preparing_message(name)),
        ActionView::SetProgress(5),
        ActionView::Sleep { millis: DISPLAY_PAUSE_MS },
    ]
}

/// The actions that start the tool, for the first time or again.
pub open spec fn launch_actions(name: Seq<char>, elapsed_ms: u64) -> Seq<ActionView> {
    seq![
        ActionView::SetMessage(executing_message(name)),
        ActionView::SetProgress(estimated_progress(elapsed_ms)),
        ActionView::StartTool,
    ]
}

/// The pipeline in another phase.
pub open spec fn in_phase(pipeline: PipelineView, phase: PhaseView) -> PipelineView {
    PipelineView { phase, ..pipeline }
}

/// The state after `event`, and the actions it calls for. An event that
/// does not belong to the phase changes nothing and calls for nothing.
pub open spec fn stepped(pipeline: PipelineView, event: EventView) -> (PipelineView, Seq<ActionView>) {
    let name = pipeline.name;
    match (pipeline.phase, event) {
        (PhaseView::Preparing, EventView::Prepared { bits, elapsed_ms }) => {
            if bits.spec_any() {
                (
                    in_phase(pipeline, PhaseView::Finished),
                    seq![ActionView::Finish(StatusView::Cancelled)],
                )
            } else {
                (
                    in_phase(pipeline, PhaseView::Starting),
                    seq![
                        ActionView::SetMessage(setup_message(name)),
                        ActionView::SetProgress(20),
                    ] + launch_actions(name, elapsed_ms),
                )
            }
        },
        (PhaseView::Starting, EventView::Started { bits }) => {
            if bits.spec_any() {
                (
                    in_phase(pipeline, PhaseView::Finished),
                    seq![ActionView::CancelTool, ActionView::Finish(StatusView::Cancelled)],
                )
            } else {
                (
                    in_phase(pipeline, PhaseView::Executing { warned: false }),
                    seq![
                        ActionView::Await {
                            timeout_ms: pipeline.settings.spec_timeout_ms(),
                            warning_ms: pipeline.settings.spec_warning_ms(),
                        },
                    ],
                )
            }
        },
        (PhaseView::Executing { warned }, EventView::Notified { bits, elapsed_ms }) => {
            if bits.spec_any() {
                (
                    in_phase(pipeline, PhaseView::Finished),
                    seq![ActionView::CancelTool, ActionView::Finish(StatusView::Cancelled)],
                )
            } else {
                (
                    in_phase(pipeline, PhaseView::Starting),
                    seq![ActionView::CancelTool] + launch_actions(name, elapsed_ms),
                )
            }
        },
        (
            PhaseView::Executing { warned },
            EventView::WarningDue { elapsed_ms, current_progress },
        ) => {
            if warned || pipeline.settings.spec_warning_ms() is None {
                (pipeline, Seq::empty())
            } else {
                (
                    in_phase(pipeline, PhaseView::Executing { warned: true }),
                    seq![
                        ActionView::SetMessage(
                            warning_message(name, pipeline.settings, elapsed_ms),
                        ),
                    ] + if current_progress < 90 {
                        seq![ActionView::SetProgress(90)]
                    } else {
                        Seq::empty()
                    },
                )
            }
        },
        (PhaseView::Executing { warned }, EventView::TimedOut) => {
            if pipeline.settings.ceiling_seconds is None {
                (pipeline, Seq::empty())
            } else {
                (
                    in_phase(pipeline, PhaseView::Finished),
                    seq![
                        ActionView::CancelTool,
                        ActionView::SetMessage(timed_out_message(name)),
                        ActionView::Finish(
                            StatusView::Timeout {
                                tool_name: name,
                                error_type: ToolErrorType::Timeout,
                                message: timeout_message(
                                    name,
                                    pipeline.settings.category,
                                    pipeline.settings.ceiling_seconds,
                                ),
                                category: pipeline.settings.category,
                                ceiling_seconds: pipeline.settings.ceiling_seconds,
                            },
                        ),
                    ],
                )
            }
        },
        (PhaseView::Executing { warned }, EventView::Succeeded(output)) => (
            in_phase(pipeline, PhaseView::Finalizing { output }),
            seq![
                ActionView::SetMessage(processing_message(name)),
                ActionView::SetProgress(90),
                ActionView::SetMessage(finalizing_message(name)),
                ActionView::SetProgress(95),
                ActionView::Sleep { millis: DISPLAY_PAUSE_MS },
            ],
        ),
        (PhaseView::Executing { warned }, EventView::Failed(reason)) => (
            in_phase(pipeline, PhaseView::Finished),
            seq![
                ActionView::SetMessage(processing_message(name)),
                ActionView::SetProgress(90),
                ActionView::SetMessage(failed_message(name)),
                ActionView::Finish(StatusView::Failure { error: reason }),
            ],
        ),
        (PhaseView::Finalizing { output }, EventView::Finalized) => (
            in_phase(pipeline, PhaseView::Finished),
            seq![
                ActionView::SetProgress(100),
                ActionView::SetMessage(completed_message(name)),
                ActionView::Finish(decoded_output(output)),
            ],
        ),
        _ => (pipeline, Seq::empty()),
    }
}

enum Phase {
    Preparing,
    Starting,
    Executing { warned: bool },
    Finalizing { output: Value },
    Finished,
}

impl View for Phase {
    type V = PhaseView;

    closed spec fn view(&self) -> PhaseView {
        match self {
            Phase::Preparing => PhaseView::Preparing,
            Phase::Starting => PhaseView::Starting,
            Phase::Executing { warned } => PhaseView::Executing { warned: *warned },
            Phase::Finalizing { output } => PhaseView::Finalizing { output: *output },
            Phase::Finished => PhaseView::Finished,
        }
    }
}

/// One tool invocation on its way through the pipeline.
pub struct ToolPipeline {
    name: String,
    settings: TimeoutSettings,
    phase: Phase,
}

impl View for ToolPipeline {
    type V = PipelineView;

    closed spec fn view(&self) -> PipelineView {
        PipelineView { name: self.name@, settings: self.settings, phase: self.phase@ }
    }
}

fn message(head: &str, name: &str, tail: &str) -> (text: String)
    ensures
        text@ == head@ + name@ + tail@,
{
    let mut text = String::from_str(head);
    text.append(name);
    text.append(tail);
    text
}

fn seconds_string(elapsed_ms: u64) -> (text: String)
    ensures
        text@ == seconds_text(elapsed_ms),
{
    let whole: u64 = elapsed_ms / 100;
    let tenths: u64 = if elapsed_ms % 100 >= 50 {
        whole + 1
    } else {
        whole
    };
    let mut text = decimal_string((tenths / 10) as u128);
    text.append(".");
    text.append(decimal_string((tenths % 10) as u128).as_str());
    proof {
        reveal_strlit(".");
        assert("."@ =~= seq!['.']);
    }
    text
}

fn warning_text(name: &str, settings: &TimeoutSettings, elapsed_ms: u64) -> (text: String)
    ensures
        text@ == warning_message(name@, *settings, elapsed_ms),
{
    let limit: u64 = match settings.ceiling_seconds {
        Some(seconds) => seconds,
        None => 0,
    };
    let mut text = String::from_str(name);
    text.append(" has run for ");
    text.append(seconds_string(elapsed_ms).as_str());
    text.append("s (");
    text.append(settings.category.label());
    text.append(" ceiling: ");
    text.append(decimal_string(limit as u128).as_str());
    text.append("s). Press Ctrl+C to cancel or adjust [timeouts] in vtcode.toml.");
    text
}

fn launch(actions: &mut Vec<PipelineAction>, name: &str, elapsed_ms: u64)
    ensures
        action_views(final(actions)@) == action_views(old(actions)@) + launch_actions(
            name@,
            elapsed_ms,
        ),
{
    let ghost before = action_views(actions@);
    let first = PipelineAction::SetMessage(message("Executing ", name, "..."));
    let second = PipelineAction::SetProgress(estimate_progress(elapsed_ms));
    let ghost first_view = first@;
    let ghost second_view = second@;
    actions.push(first);
    actions.push(second);
    actions.push(PipelineAction::StartTool);
    proof {
        assert(action_views(actions@) =~= before + seq![
            first_view,
            second_view,
            ActionView::StartTool,
        ]);
    }
}

fn push_action(actions: &mut Vec<PipelineAction>, action: PipelineAction)
    ensures
        action_views(final(actions)@) == action_views(old(actions)@).push(action@),
{
    let ghost before = action_views(actions@);
    actions.push(action);
    proof {
        assert(action_views(actions@) =~= before.push(action@));
    }
}

impl ToolPipeline {
    /// Begins the invocation of the tool `name` under `settings`.
    pub fn start(name: String, settings: TimeoutSettings) -> (r: (ToolPipeline, Vec<PipelineAction>))
        ensures
            r.0@ == (PipelineView { name: name@, settings, phase: PhaseView::Preparing }),
            action_views(r.1@) == opening_actions(name@),
    {
        let mut actions: Vec<PipelineAction> = Vec::new();
        proof {
            assert(action_views(actions@) =~= Seq::<ActionView>::empty());
        }
        push_action(
            &mut actions,
            PipelineAction::SetMessage(message("Preparing ", name.as_str(), "...")),
        );
        push_action(&mut actions, PipelineAction::SetProgress(5));
        push_action(&mut actions, PipelineAction::Sleep { millis: DISPLAY_PAUSE_MS });
        proof {
            assert(action_views(actions@) =~= opening_actions(name@));
        }
        (ToolPipeline { name, settings, phase: Phase::Preparing }, actions)
    }

    /// Whether the invocation is over.
    pub fn is_finished(&self) -> (r: bool)
        ensures
            r == (self@.phase is Finished),
    {
        match self.phase {
            Phase::Finished => true,
            _ => false,
        }
    }

    /// Takes in what happened and says what to do next.
    pub fn step(self, event: PipelineEvent) -> (r: (ToolPipeline, Vec<PipelineAction>))
        ensures
            r.0@ == stepped(self@, event@).0,
            action_views(r.1@) == stepped(self@, event@).1,
    {
        let ToolPipeline { name, settings, phase } = self;
        let mut actions: Vec<PipelineAction> = Vec::new();
        proof {
            assert(action_views(actions@) =~= Seq::<ActionView>::empty());
            reveal_strlit("");
            assert(""@ =~= Seq::<char>::empty());
        }
        match (phase, event) {
            (Phase::Preparing, PipelineEvent::Prepared { bits, elapsed_ms }) => {
                if bits.any() {
                    push_action(&mut actions, PipelineAction::Finish(ToolExecutionStatus::Cancelled));
                    proof {
                        assert(action_views(actions@) =~= seq![
                            ActionView::Finish(StatusView::Cancelled),
                        ]);
                    }
                    (ToolPipeline { name, settings, phase: Phase::Finished }, actions)
                } else {
                    push_action(
                        &mut actions,
                        PipelineAction::SetMessage(
                            message("Setting up ", name.as_str(), " execution..."),
                        ),
                    );
                    push_action(&mut actions, PipelineAction::SetProgress(20));
                    proof {
                        assert(action_views(actions@) =~= seq![
                            ActionView::SetMessage(setup_message(name@)),
                            ActionView::SetProgress(20),
                        ]);
                    }
                    launch(&mut actions, name.as_str(), elapsed_ms);
                    (ToolPipeline { name, settings, phase: Phase::Starting }, actions)
                }
            },
            (Phase::Starting, PipelineEvent::Started { bits }) => {
                if bits.any() {
                    push_action(&mut actions, PipelineAction::CancelTool);
                    push_action(&mut actions, PipelineAction::Finish(ToolExecutionStatus::Cancelled));
                    proof {
                        assert(action_views(actions@) =~= seq![
                            ActionView::CancelTool,
                            ActionView::Finish(StatusView::Cancelled),
                        ]);
                    }
                    (ToolPipeline { name, settings, phase: Phase::Finished }, actions)
                } else {
                    let wait = PipelineAction::Await {
                        timeout_ms: settings.timeout_ms(),
                        warning_ms: settings.warning_ms(),
                    };
                    push_action(&mut actions, wait);
                    proof {
                        assert(action_views(actions@) =~= seq![
                            ActionView::Await {
                                timeout_ms: settings.spec_timeout_ms(),
                                warning_ms: settings.spec_warning_ms(),
                            },
                        ]);
                    }
                    (ToolPipeline { name, settings, phase: Phase::Executing { warned: false } }, actions)
                }
            },
            (Phase::Executing { warned }, PipelineEvent::Notified { bits, elapsed_ms }) => {
                push_action(&mut actions, PipelineAction::CancelTool);
                if bits.any() {
                    push_action(&mut actions, PipelineAction::Finish(ToolExecutionStatus::Cancelled));
                    proof {
                        assert(action_views(actions@) =~= seq![
                            ActionView::CancelTool,
                            ActionView::Finish(StatusView::Cancelled),
                        ]);
                    }
                    (ToolPipeline { name, settings, phase: Phase::Finished }, actions)
                } else {
                    proof {
                        assert(action_views(actions@) =~= seq![ActionView::CancelTool]);
                    }
                    launch(&mut actions, name.as_str(), elapsed_ms);
                    (ToolPipeline { name, settings, phase: Phase::Starting }, actions)
                }
            },
            (
                Phase::Executing { warned },
                PipelineEvent::WarningDue { elapsed_ms, current_progress },
            ) => {
                if warned || settings.warning_ms().is_none() {
                    (ToolPipeline { name, settings, phase: Phase::Executing { warned } }, actions)
                } else {
                    let text = warning_text(name.as_str(), &settings, elapsed_ms);
                    push_action(&mut actions, PipelineAction::SetMessage(text));
                    proof {
                        assert(action_views(actions@) =~= seq![
                            ActionView::SetMessage(warning_message(name@, settings, elapsed_ms)),
                        ]);
                    }
                    if current_progress < 90 {
                        push_action(&mut actions, PipelineAction::SetProgress(90));
                        proof {
                            assert(action_views(actions@) =~= seq![
                                ActionView::SetMessage(
                                    warning_message(name@, settings, elapsed_ms),
                                ),
                            ] + seq![ActionView::SetProgress(90)]);
                        }
                    } else {
                        proof {
                            assert(action_views(actions@) =~= seq![
                                ActionView::SetMessage(
                                    warning_message(name@, settings, elapsed_ms),
                                ),
                            ] + Seq::<ActionView>::empty());
                        }
                    }
                    (ToolPipeline { name, settings, phase: Phase::Executing { warned: true } }, actions)
                }
            },
            (Phase::Executing { warned }, PipelineEvent::TimedOut) => {
                if settings.ceiling_seconds.is_none() {
                    (ToolPipeline { name, settings, phase: Phase::Executing { warned } }, actions)
                } else {
                    let status = create_timeout_error(
                        name.as_str(),
                        settings.category,
                        settings.ceiling_seconds,
                    );
                    let ghost status_view = status@;
                    push_action(&mut actions, PipelineAction::CancelTool);
                    push_action(
                        &mut actions,
                        PipelineAction::SetMessage(message("", name.as_str(), " timed out")),
                    );
                    push_action(&mut actions, PipelineAction::Finish(status));
                    proof {
                        assert(""@ + name@ =~= name@);
                        assert(action_views(actions@) =~= seq![
                            ActionView::CancelTool,
                            ActionView::SetMessage(timed_out_message(name@)),
                            ActionView::Finish(status_view),
                        ]);
                    }
                    (ToolPipeline { name, settings, phase: Phase::Finished }, actions)
                }
            },
            (Phase::Executing { warned }, PipelineEvent::Succeeded(output)) => {
                push_action(
                    &mut actions,
                    PipelineAction::SetMessage(message("Processing ", name.as_str(), " results...")),
                );
                push_action(&mut actions, PipelineAction::SetProgress(90));
                push_action(
                    &mut actions,
                    PipelineAction::SetMessage(message("Finalizing ", name.as_str(), "...")),
                );
                push_action(&mut actions, PipelineAction::SetProgress(95));
                push_action(&mut actions, PipelineAction::Sleep { millis: DISPLAY_PAUSE_MS });
                proof {
                    assert(action_views(actions@) =~= seq![
                        ActionView::SetMessage(processing_message(name@)),
                        ActionView::SetProgress(90),
                        ActionView::SetMessage(finalizing_message(name@)),
                        ActionView::SetProgress(95),
                        ActionView::Sleep { millis: DISPLAY_PAUSE_MS },
                    ]);
                }
                (ToolPipeline { name, settings, phase: Phase::Finalizing { output } }, actions)
            },
            (Phase::Executing { warned }, PipelineEvent::Failed(reason)) => {
                let ghost reason_view = reason@;
                push_action(
                    &mut actions,
                    PipelineAction::SetMessage(message("Processing ", name.as_str(), " results...")),
                );
                push_action(&mut actions, PipelineAction::SetProgress(90));
                push_action(
                    &mut actions,
                    PipelineAction::SetMessage(message("", name.as_str(), " failed")),
                );
                push_action(
                    &mut actions,
                    PipelineAction::Finish(ToolExecutionStatus::Failure { error: reason }),
                );
                proof {
                    assert(""@ + name@ =~= name@);
                    assert(action_views(actions@) =~= seq![
                        ActionView::SetMessage(processing_message(name@)),
                        ActionView::SetProgress(90),
                        ActionView::SetMessage(failed_message(name@)),
                        ActionView::Finish(StatusView::Failure { error: reason_view }),
                    ]);
                }
                (ToolPipeline { name, settings, phase: Phase::Finished }, actions)
            },
            (Phase::Finalizing { output }, PipelineEvent::Finalized) => {
                let status = process_tool_output(output);
                let ghost status_view = status@;
                push_action(&mut actions, PipelineAction::SetProgress(100));
                push_action(
                    &mut actions,
                    PipelineAction::SetMessage(
                        message("", name.as_str(), " completed successfully"),
                    ),
                );
                push_action(&mut actions, PipelineAction::Finish(status));
                proof {
                    assert(""@ + name@ =~= name@);
                    assert(action_views(actions@) =~= seq![
                        ActionView::SetProgress(100),
                        ActionView::SetMessage(completed_message(name@)),
                        ActionView::Finish(status_view),
                    ]);
                }
                (ToolPipeline { name, settings, phase: Phase::Finished }, actions)
            },
            (phase, _) => (ToolPipeline { name, settings, phase }, actions),
        }
    }
}

} // verus!
