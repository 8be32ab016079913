//! The pipeline orchestrator: one finalize request moves through polishing,
//! focus yielding and injection in a fixed forward order, with a
//! single-flight guard against overlapping requests.
//!
//! The orchestrator is a state machine. The surrounding process feeds it one
//! event at a time — the finalize request, the remote reply, the settled
//! focus, the finished injection — and performs the outside work each
//! returned [`Action`] asks for. Every decision the machine takes is fixed
//! by [`step_model`].

use vstd::prelude::*;

use crate::inject::InjectionPlan;
use crate::inject::PlanView;
use crate::inject::plan_injection;
use crate::inject::plan_spec;
use crate::json::build_request_body;
use crate::json::candidate_text_of;
use crate::json::request_body_spec;
use crate::polish::OutcomeView;
use crate::polish::PolishOutcome;
use crate::polish::RemoteReply;
use crate::polish::ReplyView;
use crate::polish::build_prompt;
use crate::polish::build_url;
use crate::polish::credential_accepted;
use crate::polish::credential_ok;
use crate::polish::interpret_reply;
use crate::polish::outcome_text;
use crate::polish::polish_model;
use crate::polish::prompt_spec;
use crate::polish::url_spec;
use crate::text::blank;
use crate::text::is_blank;
use crate::text::trim_spec;

verus! {

/// How long the pipeline waits after yielding focus, so the window manager
/// can hand focus back to the previously active application.
pub const SETTLE_DELAY_MS: u64 = 800;

/// The pause between two injected characters, so the receiving application's
/// input buffer is not overwhelmed.
pub const INTER_KEY_DELAY_MS: u64 = 5;

/// Where one finalize request stands. No transition re-enters an earlier
/// phase; a request runs forward once and the machine returns to `Idle`.
pub enum Phase {
    /// No request is in flight.
    Idle,
    /// The polishing request was sent; the remote reply is awaited.
    AwaitingReply { raw: String },
    /// The final text is fixed; the window is yielding focus.
    YieldingFocus { text: String },
    /// Focus has settled; the keystrokes are being injected.
    Injecting { text: String },
}

/// The ghost image of a [`Phase`].
pub enum PhaseModel {
    Idle,
    AwaitingReply { raw: Seq<char> },
    YieldingFocus { text: Seq<char> },
    Injecting { text: Seq<char> },
}

impl View for Phase {
    type V = PhaseModel;

    open spec fn view(&self) -> PhaseModel {
        match self {
            Phase::Idle => PhaseModel::Idle,
            Phase::AwaitingReply { raw } => PhaseModel::AwaitingReply { raw: raw@ },
            Phase::YieldingFocus { text } => PhaseModel::YieldingFocus { text: text@ },
            Phase::Injecting { text } => PhaseModel::Injecting { text: text@ },
        }
    }
}

/// How a finalize request that asked for no outside work ended.
#[derive(Clone, Copy, PartialEq, Eq, Structural, Debug)]
pub enum CompletionKind {
    /// The raw text was empty or whitespace-only; nothing was done.
    BlankInput,
    /// The credential was below the minimal threshold; nothing was sent and
    /// nothing is typed. Reported as success, logged as a configuration
    /// error.
    MissingCredential,
    /// The injection finished; the request ran the whole pipeline.
    Finished,
}

/// What the surrounding process must do next on behalf of the machine.
pub enum Action {
    /// A request is already in flight; drop this one.
    Reject,
    /// The event does not belong to the current phase; do nothing.
    Ignore,
    /// The request is over; report success to the caller.
    Complete(CompletionKind),
    /// POST the body to the URL and hand the reply back as the next event.
    SendRequest { url: String, body: String },
    /// Minimize and hide the assistant's window (each best-effort), wait the
    /// settle delay, then hand back the focus-settled event. The polisher's
    /// outcome rides along for logging.
    YieldFocus { settle_delay_ms: u64, outcome: PolishOutcome },
    /// Replay the plan as synthetic key events, then hand back the
    /// injection-done event.
    Inject { plan: InjectionPlan },
}

/// The ghost image of an [`Action`].
pub enum ActionView {
    Reject,
    Ignore,
    Complete(CompletionKind),
    SendRequest { url: Seq<char>, body: Seq<char> },
    YieldFocus { settle_delay_ms: u64, outcome: OutcomeView },
    Inject { plan: PlanView },
}

impl View for Action {
    type V = ActionView;

    open spec fn view(&self) -> ActionView {
        match self {
            Action::Reject => ActionView::Reject,
            Action::Ignore => ActionView::Ignore,
            Action::Complete(k) => ActionView::Complete(*k),
            Action::SendRequest { url, body } => ActionView::SendRequest {
                url: url@,
                body: body@,
            },
            Action::YieldFocus { settle_delay_ms, outcome } => ActionView::YieldFocus {
                settle_delay_ms: *settle_delay_ms,
                outcome: outcome@,
            },
            Action::Inject { plan } => ActionView::Inject { plan: plan@ },
        }
    }
}

/// An event the surrounding process hands the machine.
pub enum EventModel {
    Finalize { raw: Seq<char>, credential: Seq<char> },
    Reply { reply: ReplyView },
    FocusSettled,
    InjectionDone,
}

/// The ghost image of an [`Orchestrator`].
pub struct OrchestratorModel {
    pub phase: PhaseModel,
    pub settle_delay_ms: u64,
    pub inter_key_delay_ms: u64,
}

/// The finalize-and-inject state machine, with its two tunable delays.
pub struct Orchestrator {
    phase: Phase,
    settle_delay_ms: u64,
    inter_key_delay_ms: u64,
}

impl View for Orchestrator {
    type V = OrchestratorModel;

    closed spec fn view(&self) -> OrchestratorModel {
        OrchestratorModel {
            phase: self.phase@,
            settle_delay_ms: self.settle_delay_ms,
            inter_key_delay_ms: self.inter_key_delay_ms,
        }
    }
}

/// Every decision the orchestrator takes, as one total step function from
/// state and event to next state and action.
pub open spec fn step_model(m: OrchestratorModel, ev: EventModel) -> (OrchestratorModel, ActionView) {
    match ev {
        EventModel::Finalize { raw, credential } => {
            if !(m.phase is Idle) {
                (m, ActionView::Reject)
            } else if blank(raw) {
                (m, ActionView::Complete(CompletionKind::BlankInput))
            } else if !credential_ok(credential) {
                (m, ActionView::Complete(CompletionKind::MissingCredential))
            } else {
                (
                    OrchestratorModel { phase: PhaseModel::AwaitingReply { raw }, ..m },
                    ActionView::SendRequest {
                        url: url_spec(credential),
                        body: request_body_spec(prompt_spec(raw)),
                    },
                )
            }
        },
        EventModel::Reply { reply } => match m.phase {
            PhaseModel::AwaitingReply { raw } => {
                let outcome = polish_model(raw, reply);
                (
                    OrchestratorModel {
                        phase: PhaseModel::YieldingFocus { text: outcome_text(outcome) },
                        ..m
                    },
                    ActionView::YieldFocus { settle_delay_ms: m.settle_delay_ms, outcome },
                )
            },
            _ => (m, ActionView::Ignore),
        },
        EventModel::FocusSettled => match m.phase {
            PhaseModel::YieldingFocus { text } => {
                (
                    OrchestratorModel { phase: PhaseModel::Injecting { text }, ..m },
                    ActionView::Inject { plan: plan_spec(text, m.inter_key_delay_ms) },
                )
            },
            _ => (m, ActionView::Ignore),
        },
        EventModel::InjectionDone => match m.phase {
            PhaseModel::Injecting { .. } => {
                (
                    OrchestratorModel { phase: PhaseModel::Idle, ..m },
                    ActionView::Complete(CompletionKind::Finished),
                )
            },
            _ => (m, ActionView::Ignore),
        },
    }
}

impl Orchestrator {
    /// An idle machine with the reference delays.
    pub fn new() -> (o: Orchestrator)
        ensures
            o@.phase is Idle,
            o@.settle_delay_ms == SETTLE_DELAY_MS,
            o@.inter_key_delay_ms == INTER_KEY_DELAY_MS,
    {
        Orchestrator {
            phase: Phase::Idle,
            settle_delay_ms: SETTLE_DELAY_MS,
            inter_key_delay_ms: INTER_KEY_DELAY_MS,
        }
    }

    /// An idle machine with chosen delays; tests inject zero delays here.
    pub fn with_delays(settle_delay_ms: u64, inter_key_delay_ms: u64) -> (o: Orchestrator)
        ensures
            o@.phase is Idle,
            o@.settle_delay_ms == settle_delay_ms,
            o@.inter_key_delay_ms == inter_key_delay_ms,
    {
        Orchestrator { phase: Phase::Idle, settle_delay_ms, inter_key_delay_ms }
    }

    /// Whether a request is mid-pipeline.
    pub fn is_busy(&self) -> (r: bool)
        ensures
            r == !(self@.phase is Idle),
    {
        match &self.phase {
            Phase::Idle => false,
            _ => true,
        }
    }

    /// A finalize request arrives. Blank input and a missing credential end
    /// the request at once with success and no outside work; a second
    /// request while one is in flight is rejected; otherwise the polishing
    /// request is composed and handed out to be sent.
    pub fn begin(&mut self, raw_text: &str, credential: &str) -> (a: Action)
        ensures
            ({
                let (m2, av) = step_model(
                    old(self)@,
                    EventModel::Finalize { raw: raw_text@, credential: credential@ },
                );
                final(self)@ == m2 && a@ == av
            }),
    {
        match &self.phase {
            Phase::Idle => {},
            _ => {
                return Action::Reject;
            },
        }
        if is_blank(raw_text) {
            return Action::Complete(CompletionKind::BlankInput);
        }
        if !credential_accepted(credential) {
            return Action::Complete(CompletionKind::MissingCredential);
        }
        let url = build_url(credential);
        let prompt = build_prompt(raw_text);
        let body = build_request_body(prompt.as_str());
        self.phase = Phase::AwaitingReply { raw: raw_text.to_owned() };
        Action::SendRequest { url, body }
    }

    /// The remote call's outcome arrives. The polisher fixes the final text
    /// — polished or fallback — and the window is asked to yield focus and
    /// wait the settle delay.
    pub fn on_reply(&mut self, reply: &RemoteReply) -> (a: Action)
        ensures
            ({
                let (m2, av) = step_model(old(self)@, EventModel::Reply { reply: reply@ });
                final(self)@ == m2 && a@ == av
            }),
    {
        match &self.phase {
            Phase::AwaitingReply { raw } => {
                let outcome = interpret_reply(raw.as_str(), reply);
                let text = match &outcome {
                    PolishOutcome::Polished(t) => t.clone(),
                    PolishOutcome::Fallback(t, _) => t.clone(),
                };
                let settle_delay_ms = self.settle_delay_ms;
                self.phase = Phase::YieldingFocus { text };
                Action::YieldFocus { settle_delay_ms, outcome }
            },
            _ => Action::Ignore,
        }
    }

    /// The settle delay has elapsed. The final text is decomposed into its
    /// injection plan and handed out to be replayed.
    pub fn on_focus_settled(&mut self) -> (a: Action)
        ensures
            ({
                let (m2, av) = step_model(old(self)@, EventModel::FocusSettled);
                final(self)@ == m2 && a@ == av
            }),
    {
        match &self.phase {
            Phase::YieldingFocus { text } => {
                let plan = plan_injection(text.as_str(), self.inter_key_delay_ms);
                let owned = text.clone();
                self.phase = Phase::Injecting { text: owned };
                Action::Inject { plan }
            },
            _ => Action::Ignore,
        }
    }

    /// The injection has been replayed. The machine returns to idle and the
    /// request is reported as a success.
    pub fn on_injection_complete(&mut self) -> (a: Action)
        ensures
            ({
                let (m2, av) = step_model(old(self)@, EventModel::InjectionDone);
                final(self)@ == m2 && a@ == av
            }),
    {
        match &self.phase {
            Phase::Injecting { .. } => {
                self.phase = Phase::Idle;
                Action::Complete(CompletionKind::Finished)
            },
            _ => Action::Ignore,
        }
    }
}

/// Law: a blank or empty raw text ends the pipeline at once. The machine
/// stays idle and asks for no network call, no focus change and no
/// injection.
pub proof fn lemma_blank_input_short_circuits(
    m: OrchestratorModel,
    raw: Seq<char>,
    credential: Seq<char>,
)
    requires
        m.phase is Idle,
        blank(raw),
    ensures
        step_model(m, EventModel::Finalize { raw, credential }).0 == m,
        step_model(m, EventModel::Finalize { raw, credential }).1 == ActionView::Complete(
            CompletionKind::BlankInput,
        ),
{
}

/// Law: a credential below the minimal threshold aborts the pipeline before
/// any network call. The machine stays idle and nothing is sent or typed —
/// unlike the remote-failure paths, which still type the raw text.
pub proof fn lemma_short_credential_aborts(
    m: OrchestratorModel,
    raw: Seq<char>,
    credential: Seq<char>,
)
    requires
        m.phase is Idle,
        !credential_ok(credential),
    ensures
        step_model(m, EventModel::Finalize { raw, credential }).0 == m,
        step_model(m, EventModel::Finalize { raw, credential }).1 matches ActionView::Complete(k)
            && k != CompletionKind::Finished,
{
}

/// Law: the pipeline is single-flight. While one request is anywhere
/// mid-pipeline, a new finalize request is rejected and changes nothing.
pub proof fn lemma_busy_rejects_second_request(
    m: OrchestratorModel,
    raw: Seq<char>,
    credential: Seq<char>,
)
    requires
        !(m.phase is Idle),
    ensures
        step_model(m, EventModel::Finalize { raw, credential }).0 == m,
        step_model(m, EventModel::Finalize { raw, credential }).1 == ActionView::Reject,
{
}

/// Law: with a non-blank raw text and an accepted credential, a successful,
/// well-formed reply runs the whole pipeline, and what is injected is
/// exactly the trimmed candidate text of the response, after the focus
/// yield. The machine ends idle again.
pub proof fn lemma_success_injects_polished(
    m: OrchestratorModel,
    raw: Seq<char>,
    credential: Seq<char>,
    body: Seq<char>,
    t: Seq<char>,
)
    requires
        m.phase is Idle,
        !blank(raw),
        credential_ok(credential),
        candidate_text_of(body) == Option::Some(t),
        trim_spec(t).len() > 0,
    ensures
        ({
            let reply = ReplyView::Response { success: true, body };
            let (m1, a1) = step_model(m, EventModel::Finalize { raw, credential });
            let (m2, a2) = step_model(m1, EventModel::Reply { reply });
            let (m3, a3) = step_model(m2, EventModel::FocusSettled);
            let (m4, a4) = step_model(m3, EventModel::InjectionDone);
            &&& a1 == ActionView::SendRequest {
                url: url_spec(credential),
                body: request_body_spec(prompt_spec(raw)),
            }
            &&& a2 == ActionView::YieldFocus {
                settle_delay_ms: m.settle_delay_ms,
                outcome: OutcomeView::Polished(trim_spec(t)),
            }
            &&& a3 == ActionView::Inject { plan: plan_spec(trim_spec(t), m.inter_key_delay_ms) }
            &&& a4 == ActionView::Complete(CompletionKind::Finished)
            &&& m4 == m
        }),
{
}

/// Law: with a non-blank raw text and an accepted credential, a failing
/// reply — transport error, non-success status, malformed body, or a blank
/// polished text — still drives the focus yield and the injection, and the
/// injected text is the raw text exactly.
pub proof fn lemma_failure_injects_raw(
    m: OrchestratorModel,
    raw: Seq<char>,
    credential: Seq<char>,
    reply: ReplyView,
)
    requires
        m.phase is Idle,
        !blank(raw),
        credential_ok(credential),
        polish_model(raw, reply) matches OutcomeView::Fallback(_, _),
    ensures
        ({
            let (m1, a1) = step_model(m, EventModel::Finalize { raw, credential });
            let (m2, a2) = step_model(m1, EventModel::Reply { reply });
            let (m3, a3) = step_model(m2, EventModel::FocusSettled);
            let (m4, a4) = step_model(m3, EventModel::InjectionDone);
            &&& a1 is SendRequest
            &&& a2 == ActionView::YieldFocus {
                settle_delay_ms: m.settle_delay_ms,
                outcome: polish_model(raw, reply),
            }
            &&& outcome_text(polish_model(raw, reply)) == raw
            &&& a3 == ActionView::Inject { plan: plan_spec(raw, m.inter_key_delay_ms) }
            &&& a4 == ActionView::Complete(CompletionKind::Finished)
            &&& m4 == m
        }),
{
}

/// Law: injection comes only after the focus yield. The one transition that
/// asks for injection is the focus-settled event in the focus-yielding
/// phase, it injects the text that phase carries, and the one transition
/// that enters the focus-yielding phase asks for the focus yield with the
/// configured settle delay.
pub proof fn lemma_focus_precedes_injection(m: OrchestratorModel, ev: EventModel)
    ensures
        step_model(m, ev).1 matches ActionView::Inject { plan } ==> ({
            &&& ev is FocusSettled
            &&& m.phase matches PhaseModel::YieldingFocus { text } && plan == plan_spec(
                text,
                m.inter_key_delay_ms,
            )
        }),
        (step_model(m, ev).0.phase is YieldingFocus && !(m.phase is YieldingFocus)) ==> ({
            &&& step_model(m, ev).1 matches ActionView::YieldFocus { settle_delay_ms, outcome }
                && settle_delay_ms == m.settle_delay_ms
        }),
{
}

} // verus!
