//! The run as a state machine: from a state and the outcome of the last
//! action to the next state and the next action.
//!
//! A run invokes the compiler, extracts the diagnostics from what it wrote,
//! reports all of them, and then takes them one by one, in their order: it
//! loads the file, asks for a summary, and reports the diagnostic with it.
//! The machine performs none of this. It names each action, and the caller
//! performs it and hands back what came of it. Extraction needs nothing
//! from outside and has no stage of its own: it is done in the step that
//! takes the outcome of the compiler.

use vstd::prelude::*;
use crate::compiler::{error_text, error_text_of};
use crate::diagnostic::{Diagnostic, DiagnosticView};
use crate::engine::regex_accepts;
use crate::enrich::{
    authorization, authorization_of, build_prompt, build_request, content_of, prompt_of,
    request_of, summary_from_response, summary_of, ChatRequest, ChatRequestView, EnrichedResult,
    EnrichedResultView, PLACEHOLDER_SUMMARY,
};
use crate::extract::{diagnostics_of_text, parse_tsc_errors, LINE_PATTERN};
use crate::json::{Json, JsonView};

verus! {

/// Why a run was given up.
#[derive(Clone, Copy, Debug, PartialEq, Eq)]
pub enum Failure {
    /// The compiler could not be started.
    CompilerNotStarted,
    /// What the compiler wrote to its error stream is not valid UTF-8.
    OutputNotText,
    /// The pattern engine refused the line pattern.
    PatternRefused,
    /// The file of a diagnostic could not be read.
    SourceUnreadable,
    /// There is no credential for the summarization service.
    CredentialMissing,
    /// The request to the summarization service failed on its way.
    TransportFailed,
    /// The event does not answer the action that was asked for.
    EventOutOfTurn,
}

/// Where a run stands.
#[derive(Clone, Copy, Debug, PartialEq, Eq)]
pub enum Stage {
    /// Nothing has been asked for yet.
    Start,
    /// The compiler was invoked; its outcome is awaited.
    Invoke,
    /// The report of all diagnostics was asked for.
    ReportAll,
    /// The file of the current diagnostic was asked for.
    LoadSource,
    /// The summary of the current diagnostic was asked for.
    Summarize,
    /// The report of the current diagnostic and its summary was asked for.
    ReportDetail,
    /// Every diagnostic was reported with its summary.
    Finished,
    /// The run was given up.
    Aborted(Failure),
}

/// What came of the last action.
#[derive(Debug, PartialEq, Eq)]
pub enum Event {
    /// The run begins.
    Started,
    /// The compiler ran: whether its exit status reports success, and the
    /// bytes that it wrote to its error stream.
    CompilerExited { succeeded: bool, error_stream: Vec<u8> },
    /// The compiler could not be started.
    CompilerNotStarted,
    /// A report was written.
    Reported,
    /// The file was read: its whole text.
    SourceLoaded(String),
    /// The file could not be read.
    SourceUnreadable,
    /// The service answered: the JSON document of its answer.
    AnswerReceived(Json),
    /// The request failed on its way, or the answer is no JSON document.
    TransportFailed,
}

/// One line of the report of all diagnostics.
#[derive(Clone, Debug, PartialEq, Eq)]
pub struct ReportEntry {
    /// The number of the diagnostic, counted from 1.
    pub number: usize,
    pub file_path: String,
    pub message: String,
}

/// The mathematical value of a [`ReportEntry`].
pub ghost struct ReportEntryView {
    pub number: int,
    pub file_path: Seq<char>,
    pub message: Seq<char>,
}

impl View for ReportEntry {
    type V = ReportEntryView;

    open spec fn view(&self) -> ReportEntryView {
        ReportEntryView {
            number: self.number as int,
            file_path: self.file_path@,
            message: self.message@,
        }
    }
}

impl DeepView for ReportEntry {
    type V = ReportEntryView;

    open spec fn deep_view(&self) -> ReportEntryView {
        self@
    }
}

/// What the caller is asked to do next.
#[derive(Debug, PartialEq, Eq)]
pub enum Action {
    /// Run the compiler in its check mode.
    InvokeCompiler,
    /// Write the report of all diagnostics.
    ReportAll(Vec<ReportEntry>),
    /// Read the file at this path.
    LoadSource(String),
    /// Send this request to the service, with this authorization header.
    Summarize { authorization: String, request: ChatRequest },
    /// Write the report of this diagnostic and its summary.
    ReportDetail(EnrichedResult),
    /// Nothing is left to do.
    Finish,
    /// Give the run up.
    Abort(Failure),
}

/// The mathematical value of an [`Action`].
pub ghost enum ActionView {
    InvokeCompiler,
    ReportAll(Seq<ReportEntryView>),
    LoadSource(Seq<char>),
    Summarize { authorization: Seq<char>, request: ChatRequestView },
    ReportDetail(EnrichedResultView),
    Finish,
    Abort(Failure),
}

impl View for Action {
    type V = ActionView;

    open spec fn view(&self) -> ActionView {
        match self {
            Action::InvokeCompiler => ActionView::InvokeCompiler,
            Action::ReportAll(entries) => ActionView::ReportAll(entries.deep_view()),
            Action::LoadSource(path) => ActionView::LoadSource(path@),
            Action::Summarize { authorization, request } => ActionView::Summarize {
                authorization: authorization@,
                request: request@,
            },
            Action::ReportDetail(result) => ActionView::ReportDetail(result@),
            Action::Finish => ActionView::Finish,
            Action::Abort(failure) => ActionView::Abort(*failure),
        }
    }
}

/// The state of a run.
pub struct Pipeline {
    credential: Option<String>,
    diagnostics: Vec<Diagnostic>,
    position: usize,
    stage: Stage,
}

/// The mathematical value of a [`Pipeline`].
pub ghost struct PipelineView {
    /// The credential for the service, if there is one.
    pub credential: Option<Seq<char>>,
    /// The diagnostics of the run, in their order.
    pub diagnostics: Seq<DiagnosticView>,
    /// The index of the current diagnostic.
    pub position: int,
    /// Where the run stands.
    pub stage: Stage,
}

impl PipelineView {
    /// There are no diagnostics before the compiler has run. The current
    /// diagnostic is the first one until the report of all is written, one
    /// of the diagnostics while one is worked on, and the end of the
    /// diagnostics when the run is finished.
    pub open spec fn wf(self) -> bool {
        &&& 0 <= self.position <= self.diagnostics.len()
        &&& match self.stage {
            Stage::Start | Stage::Invoke => self.diagnostics.len() == 0,
            Stage::ReportAll => self.position == 0,
            Stage::LoadSource | Stage::Summarize | Stage::ReportDetail => self.position
                < self.diagnostics.len(),
            Stage::Finished => self.position == self.diagnostics.len(),
            Stage::Aborted(_) => true,
        }
    }
}

/// The lines of the report of all diagnostics: one for each, numbered from 1.
pub open spec fn entries_of(diagnostics: Seq<DiagnosticView>) -> Seq<ReportEntryView> {
    Seq::new(
        diagnostics.len(),
        |i: int|
            ReportEntryView {
                number: i + 1,
                file_path: diagnostics[i].file_path,
                message: diagnostics[i].message,
            },
    )
}

/// The run is given up: nothing but that is asked from now on.
pub open spec fn abort(state: PipelineView, failure: Failure) -> (PipelineView, ActionView) {
    (PipelineView { stage: Stage::Aborted(failure), ..state }, ActionView::Abort(failure))
}

/// The run goes on with the diagnostic at `position`: its file is asked for,
/// or the run is finished where no diagnostic is left.
pub open spec fn enrich_from(state: PipelineView, position: int) -> (PipelineView, ActionView) {
    if 0 <= position < state.diagnostics.len() {
        (
            PipelineView { stage: Stage::LoadSource, position, ..state },
            ActionView::LoadSource(state.diagnostics[position].file_path),
        )
    } else {
        (
            PipelineView {
                stage: Stage::Finished,
                position: state.diagnostics.len() as int,
                ..state
            },
            ActionView::Finish,
        )
    }
}

/// The run after the compiler has exited: the diagnostics are extracted from
/// its error text and their report is asked for.
pub open spec fn after_compiler(state: PipelineView, succeeded: bool, error_stream: Seq<u8>) -> (
    PipelineView,
    ActionView,
) {
    match error_text_of(succeeded, error_stream) {
        None => abort(state, Failure::OutputNotText),
        Some(text) => if regex_accepts(LINE_PATTERN@) {
            let diagnostics = diagnostics_of_text(text);
            (
                PipelineView { stage: Stage::ReportAll, diagnostics, position: 0, ..state },
                ActionView::ReportAll(entries_of(diagnostics)),
            )
        } else {
            abort(state, Failure::PatternRefused)
        },
    }
}

/// The run after the file of the current diagnostic was read: the summary
/// is asked for, which needs the credential.
pub open spec fn after_source(state: PipelineView, source: Seq<char>) -> (
    PipelineView,
    ActionView,
) {
    match state.credential {
        None => abort(state, Failure::CredentialMissing),
        Some(credential) => (
            PipelineView { stage: Stage::Summarize, ..state },
            ActionView::Summarize {
                authorization: authorization_of(credential),
                request: request_of(prompt_of(state.diagnostics[state.position], source)),
            },
        ),
    }
}

/// The run after the service answered: whatever the answer holds, the
/// report of the current diagnostic is asked for.
pub open spec fn after_answer(state: PipelineView, answer: JsonView) -> (
    PipelineView,
    ActionView,
) {
    (
        PipelineView { stage: Stage::ReportDetail, ..state },
        ActionView::ReportDetail(
            EnrichedResultView {
                diagnostic: state.diagnostics[state.position],
                summary: summary_of(answer),
            },
        ),
    )
}

/// The next state and the next action, from a state and the outcome of the
/// last action.
pub open spec fn transition(state: PipelineView, event: Event) -> (PipelineView, ActionView) {
    match state.stage {
        Stage::Start => match event {
            Event::Started => (
                PipelineView { stage: Stage::Invoke, ..state },
                ActionView::InvokeCompiler,
            ),
            _ => abort(state, Failure::EventOutOfTurn),
        },
        Stage::Invoke => match event {
            Event::CompilerExited { succeeded, error_stream } => after_compiler(
                state,
                succeeded,
                error_stream@,
            ),
            Event::CompilerNotStarted => abort(state, Failure::CompilerNotStarted),
            _ => abort(state, Failure::EventOutOfTurn),
        },
        Stage::ReportAll => match event {
            Event::Reported => enrich_from(state, 0),
            _ => abort(state, Failure::EventOutOfTurn),
        },
        Stage::LoadSource => match event {
            Event::SourceLoaded(source) => after_source(state, source@),
            Event::SourceUnreadable => abort(state, Failure::SourceUnreadable),
            _ => abort(state, Failure::EventOutOfTurn),
        },
        Stage::Summarize => match event {
            Event::AnswerReceived(answer) => after_answer(state, answer@),
            Event::TransportFailed => abort(state, Failure::TransportFailed),
            _ => abort(state, Failure::EventOutOfTurn),
        },
        Stage::ReportDetail => match event {
            Event::Reported => enrich_from(state, state.position + 1),
            _ => abort(state, Failure::EventOutOfTurn),
        },
        Stage::Finished => (state, ActionView::Finish),
        Stage::Aborted(failure) => (state, ActionView::Abort(failure)),
    }
}

impl View for Pipeline {
    type V = PipelineView;

    closed spec fn view(&self) -> PipelineView {
        PipelineView {
            credential: self.credential.deep_view(),
            diagnostics: self.diagnostics.deep_view(),
            position: self.position as int,
            stage: self.stage,
        }
    }
}

impl Pipeline {
    /// The state of a run is always well-formed.
    #[verifier::type_invariant]
    spec fn well_formed(&self) -> bool {
        self@.wf()
    }

    /// A run that has not begun, with the credential for the service if
    /// there is one.
    pub fn new(credential: Option<String>) -> (pipeline: Pipeline)
        ensures
            pipeline@ == (PipelineView {
                credential: credential.deep_view(),
                diagnostics: Seq::empty(),
                position: 0,
                stage: Stage::Start,
            }),
    {
        let pipeline = Pipeline {
            credential,
            diagnostics: Vec::new(),
            position: 0,
            stage: Stage::Start,
        };
        proof {
            assert(pipeline.diagnostics.deep_view() =~= Seq::<DiagnosticView>::empty());
        }
        pipeline
    }

    /// Where the run stands.
    pub fn stage(&self) -> (stage: Stage)
        ensures
            stage == self@.stage,
    {
        self.stage
    }

    /// Takes the outcome of the last action and names the next one. The
    /// first event of a run is [`Event::Started`].
    pub fn step(self, event: Event) -> (next: (Pipeline, Action))
        ensures
            (next.0@, next.1@) == transition(self@, event),
            self@.wf(),
            next.0@.wf(),
    {
        proof {
            use_type_invariant(&self);
        }
        let next = match self.stage {
            Stage::Start => match event {
                Event::Started => {
                    let mut run = self;
                    run.stage = Stage::Invoke;
                    (run, Action::InvokeCompiler)
                },
                _ => self.give_up(Failure::EventOutOfTurn),
            },
            Stage::Invoke => match event {
                Event::CompilerExited { succeeded, error_stream } => self.take_compiler_output(
                    succeeded,
                    error_stream,
                ),
                Event::CompilerNotStarted => self.give_up(Failure::CompilerNotStarted),
                _ => self.give_up(Failure::EventOutOfTurn),
            },
            Stage::ReportAll => match event {
                Event::Reported => self.go_on_from(0),
                _ => self.give_up(Failure::EventOutOfTurn),
            },
            Stage::LoadSource => match event {
                Event::SourceLoaded(source) => self.take_source(source),
                Event::SourceUnreadable => self.give_up(Failure::SourceUnreadable),
                _ => self.give_up(Failure::EventOutOfTurn),
            },
            Stage::Summarize => match event {
                Event::AnswerReceived(answer) => self.take_answer(answer),
                Event::TransportFailed => self.give_up(Failure::TransportFailed),
                _ => self.give_up(Failure::EventOutOfTurn),
            },
            Stage::ReportDetail => match event {
                Event::Reported => {
                    proof {
                        assert(self.position < self.diagnostics.len());
                    }
                    let position = self.position + 1;
                    self.go_on_from(position)
                },
                _ => self.give_up(Failure::EventOutOfTurn),
            },
            Stage::Finished => (self, Action::Finish),
            Stage::Aborted(failure) => (self, Action::Abort(failure)),
        };
        proof {
            use_type_invariant(&next.0);
        }
        next
    }

    /// Gives the run up.
    fn give_up(self, failure: Failure) -> (next: (Pipeline, Action))
        ensures
            (next.0@, next.1@) == abort(self@, failure),
    {
        proof {
            use_type_invariant(&self);
        }
        let mut run = self;
        run.stage = Stage::Aborted(failure);
        (run, Action::Abort(failure))
    }

    /// Goes on with the diagnostic at `position`, or finishes the run where
    /// there is none.
    fn go_on_from(self, position: usize) -> (next: (Pipeline, Action))
        ensures
            (next.0@, next.1@) == enrich_from(self@, position as int),
    {
        proof {
            use_type_invariant(&self);
        }
        if position < self.diagnostics.len() {
            let path = self.diagnostics[position].file_path.clone();
            let run = Pipeline {
                credential: self.credential,
                diagnostics: self.diagnostics,
                position,
                stage: Stage::LoadSource,
            };
            (run, Action::LoadSource(path))
        } else {
            let position = self.diagnostics.len();
            let run = Pipeline {
                credential: self.credential,
                diagnostics: self.diagnostics,
                position,
                stage: Stage::Finished,
            };
            (run, Action::Finish)
        }
    }

    /// Extracts the diagnostics from what the compiler wrote and asks for
    /// their report.
    fn take_compiler_output(self, succeeded: bool, error_stream: Vec<u8>) -> (next: (
        Pipeline,
        Action,
    ))
        ensures
            (next.0@, next.1@) == after_compiler(self@, succeeded, error_stream@),
    {
        let text = match error_text(succeeded, error_stream) {
            Some(text) => text,
            None => return self.give_up(Failure::OutputNotText),
        };
        let diagnostics = match parse_tsc_errors(text.as_str()) {
            Some(diagnostics) => diagnostics,
            None => return self.give_up(Failure::PatternRefused),
        };
        let entries = report_entries(&diagnostics);
        let run = Pipeline {
            credential: self.credential,
            diagnostics,
            position: 0,
            stage: Stage::ReportAll,
        };
        (run, Action::ReportAll(entries))
    }

    /// Makes the request for the summary of the current diagnostic.
    fn take_source(self, source: String) -> (next: (Pipeline, Action))
        requires
            self@.stage is LoadSource,
        ensures
            (next.0@, next.1@) == after_source(self@, source@),
    {
        proof {
            use_type_invariant(&self);
        }
        let header = match &self.credential {
            Some(credential) => authorization(credential.as_str()),
            None => return self.give_up(Failure::CredentialMissing),
        };
        let prompt = build_prompt(&self.diagnostics[self.position], source.as_str());
        let request = build_request(prompt);
        let mut run = self;
        run.stage = Stage::Summarize;
        (run, Action::Summarize { authorization: header, request })
    }

    /// Reads the summary from the answer and asks for the report of the
    /// current diagnostic.
    fn take_answer(self, answer: Json) -> (next: (Pipeline, Action))
        requires
            self@.stage is Summarize,
        ensures
            (next.0@, next.1@) == after_answer(self@, answer@),
    {
        proof {
            use_type_invariant(&self);
        }
        let summary = summary_from_response(&answer);
        let diagnostic = self.diagnostics[self.position].duplicate();
        let mut run = self;
        run.stage = Stage::ReportDetail;
        (run, Action::ReportDetail(EnrichedResult { diagnostic, summary }))
    }
}

/// The state that a run is in after a sequence of events.
pub open spec fn state_after(state: PipelineView, events: Seq<Event>) -> PipelineView
    decreases events.len(),
{
    if events.len() == 0 {
        state
    } else {
        transition(state_after(state, events.drop_last()), events.last()).0
    }
}

/// No event leads out of a well-formed state.
pub proof fn lemma_transition_keeps_wf(state: PipelineView, event: Event)
    requires
        state.wf(),
    ensures
        transition(state, event).0.wf(),
{
}

/// The diagnostics are taken one at a time, in their order. Once they are
/// extracted they do not change; the current one stays, or gives way to the
/// one behind it, and that only when its own report is written.
pub proof fn lemma_one_at_a_time(state: PipelineView, event: Event)
    requires
        state.wf(),
        !(state.stage is Start),
        !(state.stage is Invoke),
    ensures
        ({
            let next = transition(state, event).0;
            &&& next.diagnostics == state.diagnostics
            &&& next.position == state.position || next.position == state.position + 1
            &&& next.position == state.position + 1 ==> state.stage is ReportDetail
                && event is Reported
        }),
{
}

/// What is asked for a diagnostic is asked for the current one: its file
/// is the one to load, the prompt is made from it, and it is the one
/// reported with the summary.
pub proof fn lemma_actions_concern_the_current(state: PipelineView, event: Event)
    requires
        state.wf(),
    ensures
        ({
            let (next, action) = transition(state, event);
            let current = next.diagnostics[next.position];
            match action {
                ActionView::LoadSource(path) => path == current.file_path,
                ActionView::Summarize { authorization, request } => {
                    &&& event matches Event::SourceLoaded(source)
                    &&& request == request_of(prompt_of(current, source@))
                },
                ActionView::ReportDetail(result) => result.diagnostic == current,
                _ => true,
            }
        }),
{
}

/// A run that was given up stays so: whatever events follow, the state
/// does not change and nothing but giving up is asked for. After a failure
/// no later diagnostic is loaded, summarized or reported.
pub proof fn lemma_abort_is_final(state: PipelineView, events: Seq<Event>, event: Event)
    requires
        state.stage is Aborted,
    ensures
        state_after(state, events) == state,
        transition(state_after(state, events), event) == (
            state,
            ActionView::Abort(state.stage->Aborted_0),
        ),
    decreases events.len(),
{
    if events.len() > 0 {
        lemma_abort_is_final(state, events.drop_last(), events.last());
    }
}

/// A run that is finished stays so.
pub proof fn lemma_finish_is_final(state: PipelineView, events: Seq<Event>, event: Event)
    requires
        state.stage is Finished,
    ensures
        state_after(state, events) == state,
        transition(state_after(state, events), event) == (state, ActionView::Finish),
    decreases events.len(),
{
    if events.len() > 0 {
        lemma_finish_is_final(state, events.drop_last(), events.last());
    }
}

/// A file that cannot be read ends the run, whichever diagnostic it
/// belongs to and however many are left.
pub proof fn lemma_unreadable_source_aborts(state: PipelineView)
    requires
        state.stage is LoadSource,
    ensures
        transition(state, Event::SourceUnreadable) == abort(state, Failure::SourceUnreadable),
{
}

/// An answer of the service never ends the run. The current diagnostic is
/// reported with the text that the answer holds as
/// `choices[0].message.content`, or with the placeholder where it holds no
/// string there.
pub proof fn lemma_answer_is_reported(state: PipelineView, answer: Json)
    requires
        state.stage is Summarize,
    ensures
        transition(state, Event::AnswerReceived(answer)).0.stage is ReportDetail,
        transition(state, Event::AnswerReceived(answer)).1 == ActionView::ReportDetail(
            EnrichedResultView {
                diagnostic: state.diagnostics[state.position],
                summary: match content_of(answer@) {
                    Some(text) => text,
                    None => PLACEHOLDER_SUMMARY@,
                },
            },
        ),
{
}

/// Makes the lines of the report of all diagnostics.
pub fn report_entries(diagnostics: &Vec<Diagnostic>) -> (entries: Vec<ReportEntry>)
    ensures
        entries.deep_view() == entries_of(diagnostics.deep_view()),
{
    let mut entries: Vec<ReportEntry> = Vec::new();
    let mut index: usize = 0;
    while index < diagnostics.len()
        invariant
            index <= diagnostics.len(),
            entries.len() == index,
            forall|i: int|
                0 <= i < index ==> (#[trigger] entries[i])@ == entries_of(
                    diagnostics.deep_view(),
                )[i],
        decreases diagnostics.len() - index,
    {
        entries.push(
            ReportEntry {
                number: index + 1,
                file_path: diagnostics[index].file_path.clone(),
                message: diagnostics[index].message.clone(),
            },
        );
        index += 1;
    }
    entries
}

} // verus!
