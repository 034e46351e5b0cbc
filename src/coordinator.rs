//! The reload state machine: it tracks whether a reload is owed, hands out
//! the sources to compile and the artifacts to build, and swaps in a new
//! pipeline only when every step succeeded. A failed attempt never discards
//! the pipeline that was built last.

use vstd::prelude::*;
use crate::compiler::{
    convert_shader, fragment_nul_message, has_nul, is_spirv, load_fragment_shader,
    load_vertex_shader, reports, vertex_nul_message, CompiledArtifact, ShaderSource,
    ToolchainError,
};
use crate::diagnostic::{Diagnostic, DiagnosticKind, ShaderStage};
use crate::template::{has_placeholder, no_placeholder_message, occurs_at, substituted};
use crate::watch::{is_content_change, WatchEvent};

verus! {

/// Where the coordinator stands between two polls.
#[derive(Clone, Debug)]
pub enum ReloadState {
    /// The held pipeline reflects the current sources.
    Clean,
    /// A reload is owed before the next draw.
    Dirty,
    /// Sources were handed out for compilation, or artifacts for building.
    Compiling,
    /// The last attempt failed with this diagnostic.
    Failed(Diagnostic),
}

/// What the caller is asked to do next.
#[derive(Clone, Debug)]
pub enum ReloadStep {
    /// Nothing is owed.
    Idle,
    /// Compile these two sources and report with `finish_compile`.
    Compile { vertex: ShaderSource, fragment: ShaderSource },
    /// Build a pipeline from these two artifacts and report with `install`.
    Build { vertex: CompiledArtifact, fragment: CompiledArtifact },
    /// The attempt failed; the held pipeline stays in use.
    Failed(Diagnostic),
}

/// The abstract state of a coordinator.
pub struct ReloadModel<P> {
    pub state: ReloadState,
    /// The shader body currently being edited.
    pub body: Seq<char>,
    /// The last pipeline built successfully, if any.
    pub pipeline: Option<P>,
    /// Reload attempts started so far.
    pub attempts: nat,
}

impl<P> ReloadModel<P> {
    /// The body was replaced by an edit.
    pub open spec fn edited(self, body: Seq<char>) -> ReloadModel<P> {
        ReloadModel { state: ReloadState::Dirty, body, ..self }
    }

    /// One notification was observed.
    pub open spec fn watched(self, e: WatchEvent) -> ReloadModel<P> {
        if is_content_change(e) {
            ReloadModel { state: ReloadState::Dirty, ..self }
        } else {
            self
        }
    }

    /// The notifications `events` were observed, in order.
    pub open spec fn watched_all(self, events: Seq<WatchEvent>) -> ReloadModel<P>
        decreases events.len(),
    {
        if events.len() == 0 {
            self
        } else {
            self.watched_all(events.drop_last()).watched(events.last())
        }
    }

    /// The state that a step leaves behind.
    pub open spec fn stepped(self, step: ReloadStep) -> ReloadModel<P> {
        match step {
            ReloadStep::Idle => self,
            ReloadStep::Compile { .. } => ReloadModel { state: ReloadState::Compiling, ..self },
            ReloadStep::Build { .. } => ReloadModel { state: ReloadState::Compiling, ..self },
            ReloadStep::Failed(d) => ReloadModel { state: ReloadState::Failed(d), ..self },
        }
    }

    /// Reload attempts that a poll starts from this state.
    pub open spec fn attempts_of_poll(self) -> nat {
        if self.state is Dirty {
            1
        } else {
            0
        }
    }

    /// A poll that answered `step`.
    pub open spec fn polled(self, step: ReloadStep) -> ReloadModel<P> {
        if self.state is Dirty {
            ReloadModel { attempts: self.attempts + 1, ..self.stepped(step) }
        } else {
            self
        }
    }

    /// The result of building a pipeline came back.
    pub open spec fn installed(self, built: Result<P, Diagnostic>) -> ReloadModel<P> {
        if self.state is Compiling {
            match built {
                Ok(p) => ReloadModel { state: ReloadState::Clean, pipeline: Some(p), ..self },
                Err(d) => ReloadModel { state: ReloadState::Failed(d), ..self },
            }
        } else {
            self
        }
    }
}

/// A poll in the `Dirty` state hands out sources to compile exactly when
/// this holds.
pub open spec fn poll_outcome_ok(vertex_source: Seq<char>, template: Seq<char>, body: Seq<char>) -> bool {
    !has_nul(vertex_source) && has_placeholder(template) && !has_nul(substituted(template, body))
}

/// The kind of diagnostic that a failed poll reports: the vertex stage's
/// failure comes first.
pub open spec fn poll_failure_kind(vertex_source: Seq<char>, template: Seq<char>) -> DiagnosticKind {
    if has_nul(vertex_source) {
        DiagnosticKind::ParseError
    } else if !has_placeholder(template) {
        DiagnosticKind::TemplateError
    } else {
        DiagnosticKind::ParseError
    }
}

/// The toolchain's outcome for one stage gives a usable artifact.
pub open spec fn artifact_ok(outcome: Result<Vec<u32>, ToolchainError>) -> bool {
    outcome matches Ok(w) && is_spirv(w@)
}

/// Observing notifications changes neither the body, the pipeline nor the
/// count of attempts, and any content change among them owes a reload.
pub proof fn lemma_watched_all<P>(m: ReloadModel<P>, events: Seq<WatchEvent>)
    ensures
        m.watched_all(events).attempts == m.attempts,
        m.watched_all(events).pipeline == m.pipeline,
        m.watched_all(events).body == m.body,
        (exists|i: int| 0 <= i < events.len() && is_content_change(#[trigger] events[i]))
            ==> m.watched_all(events).state is Dirty,
        (m.state is Dirty) ==> m.watched_all(events).state is Dirty,
    decreases events.len(),
{
    if events.len() > 0 {
        let init = events.drop_last();
        lemma_watched_all(m, init);
        if exists|i: int| 0 <= i < events.len() && is_content_change(#[trigger] events[i]) {
            let i = choose|i: int| 0 <= i < events.len() && is_content_change(#[trigger] events[i]);
            if i < events.len() - 1 {
                assert(is_content_change(init[i]));
            }
        }
    }
}

/// Debouncing: however many notifications arrive before a poll, that poll
/// starts at most one reload attempt, and exactly one where any of them
/// changed content. A second poll right after starts none.
pub proof fn lemma_debounce<P>(
    m: ReloadModel<P>,
    events: Seq<WatchEvent>,
    first: ReloadStep,
    second: ReloadStep,
)
    requires
        m.watched_all(events).state is Dirty ==> (first is Compile || first is Failed),
    ensures
        m.watched_all(events).polled(first).attempts <= m.attempts + 1,
        (exists|i: int| 0 <= i < events.len() && is_content_change(#[trigger] events[i]))
            ==> m.watched_all(events).polled(first).attempts == m.attempts + 1,
        m.watched_all(events).polled(first).polled(second).attempts == m.watched_all(
            events,
        ).polled(first).attempts,
{
    lemma_watched_all(m, events);
}

/// Failure isolation: a failed step, a failed build or a source that could
/// not be read leaves the held pipeline as it was, and a failure while
/// compiling leaves the coordinator in the failed state.
pub proof fn lemma_failure_keeps_pipeline<P>(m: ReloadModel<P>, d: Diagnostic)
    ensures
        m.stepped(ReloadStep::Failed(d)).pipeline == m.pipeline,
        m.polled(ReloadStep::Failed(d)).pipeline == m.pipeline,
        m.installed(Err(d)).pipeline == m.pipeline,
        m.state is Compiling ==> m.stepped(ReloadStep::Failed(d)).state == ReloadState::Failed(d),
        m.state is Compiling ==> m.installed(Err(d)).state == ReloadState::Failed(d),
{
}

/// Once a pipeline has been built, every transition keeps one held: only a
/// successful build replaces it.
pub proof fn lemma_pipeline_never_lost<P>(
    m: ReloadModel<P>,
    body: Seq<char>,
    events: Seq<WatchEvent>,
    step: ReloadStep,
    built: Result<P, Diagnostic>,
)
    requires
        m.pipeline is Some,
    ensures
        m.edited(body).pipeline == m.pipeline,
        m.watched_all(events).pipeline == m.pipeline,
        m.polled(step).pipeline == m.pipeline,
        m.stepped(step).pipeline == m.pipeline,
        m.installed(built).pipeline is Some,
        m.installed(built).pipeline != m.pipeline ==> built is Ok && m.installed(built).pipeline
            == Some(built->Ok_0),
{
    lemma_watched_all(m, events);
}

/// The reload cycle: an edit owes a reload from any state, a poll then
/// moves to compiling, a build that succeeds returns to clean with the new
/// pipeline held, a failure moves to failed with the old pipeline kept, and a
/// further edit leaves the failed state.
pub proof fn lemma_reload_cycle<P>(
    m: ReloadModel<P>,
    body: Seq<char>,
    compile: ReloadStep,
    build: ReloadStep,
    p: P,
    d: Diagnostic,
    next_body: Seq<char>,
)
    requires
        compile is Compile,
        build is Build,
    ensures
        m.edited(body).state is Dirty,
        m.edited(body).polled(compile).state is Compiling,
        m.edited(body).polled(compile).attempts == m.attempts + 1,
        m.edited(body).polled(compile).stepped(build).state is Compiling,
        m.edited(body).polled(compile).stepped(build).installed(Ok(p)).state is Clean,
        m.edited(body).polled(compile).stepped(build).installed(Ok(p)).pipeline == Some(p),
        m.edited(body).polled(compile).stepped(ReloadStep::Failed(d)).state == ReloadState::Failed(
            d,
        ),
        m.edited(body).polled(compile).stepped(ReloadStep::Failed(d)).pipeline == m.pipeline,
        m.edited(body).polled(ReloadStep::Failed(d)).state == ReloadState::Failed(d),
        m.edited(body).polled(ReloadStep::Failed(d)).edited(next_body).state is Dirty,
{
}

/// Substitution brings in no character that neither the template nor the
/// body holds.
proof fn lemma_substituted_no_nul(t: Seq<char>, body: Seq<char>)
    requires
        !has_nul(t),
        !has_nul(body),
    ensures
        !has_nul(substituted(t, body)),
    decreases t.len(),
{
    if t.len() > 0 {
        let r = substituted(t, body);
        if occurs_at(t, 0) {
            let rest = t.skip(9);
            assert forall|i: int| 0 <= i < rest.len() implies rest[i] != '\0' by {
                assert(rest[i] == t[i + 9]);
            }
            lemma_substituted_no_nul(rest, body);
            let tail = substituted(rest, body);
            assert forall|i: int| 0 <= i < r.len() implies r[i] != '\0' by {
                if i >= body.len() {
                    assert(r[i] == tail[i - body.len()]);
                }
            }
        } else {
            let rest = t.skip(1);
            assert forall|i: int| 0 <= i < rest.len() implies rest[i] != '\0' by {
                assert(rest[i] == t[i + 1]);
            }
            lemma_substituted_no_nul(rest, body);
            let tail = substituted(rest, body);
            assert forall|i: int| 0 <= i < r.len() implies r[i] != '\0' by {
                if i >= 1 {
                    assert(r[i] == tail[i - 1]);
                }
            }
        }
    }
}

/// The round trip, as far as it is decided here. Sources without NUL
/// characters and a template that holds the placeholder always reach the
/// compiler: a poll that owes a reload hands out both sources, the fragment
/// one being the template with the body substituted. Where the compiler then
/// returns a SPIR-V module for each, both are handed out for building, and
/// the pipeline built from them becomes the one held, in the clean state.
pub proof fn lemma_valid_sources_reach_compiler<P>(
    m: ReloadModel<P>,
    vertex_source: Seq<char>,
    template: Seq<char>,
    vertex_words: Vec<u32>,
    fragment_words: Vec<u32>,
    compile: ReloadStep,
    build: ReloadStep,
    p: P,
)
    requires
        !has_nul(vertex_source),
        !has_nul(template),
        !has_nul(m.body),
        has_placeholder(template),
        m.state is Dirty,
        is_spirv(vertex_words@),
        is_spirv(fragment_words@),
        compile is Compile,
        build is Build,
    ensures
        poll_outcome_ok(vertex_source, template, m.body),
        artifact_ok(Ok(vertex_words)) && artifact_ok(Ok(fragment_words)),
        m.polled(compile).state is Compiling,
        m.polled(compile).stepped(build).installed(Ok(p)).state is Clean,
        m.polled(compile).stepped(build).installed(Ok(p)).pipeline == Some(p),
{
    lemma_substituted_no_nul(template, m.body);
}

/// The message that a failed poll reports, the vertex stage's first.
pub open spec fn poll_failure_message(vertex_source: Seq<char>, template: Seq<char>) -> Seq<
    char,
> {
    if has_nul(vertex_source) {
        vertex_nul_message()
    } else if !has_placeholder(template) {
        no_placeholder_message()
    } else {
        fragment_nul_message()
    }
}

/// Drives reloads of a pipeline of type `P`, which the caller builds.
pub struct ReloadCoordinator<P> {
    state: ReloadState,
    body: String,
    pipeline: Option<P>,
    attempts: Ghost<nat>,
}

impl<P> View for ReloadCoordinator<P> {
    type V = ReloadModel<P>;

    closed spec fn view(&self) -> ReloadModel<P> {
        ReloadModel {
            state: self.state,
            body: self.body@,
            pipeline: self.pipeline,
            attempts: self.attempts@,
        }
    }
}

impl<P> ReloadCoordinator<P> {
    /// A coordinator for `body` that owes its first reload and holds no
    /// pipeline yet.
    pub fn new(body: String) -> (r: ReloadCoordinator<P>)
        ensures
            r@.state is Dirty,
            r@.body == body@,
            r@.pipeline is None,
            r@.attempts == 0,
    {
        ReloadCoordinator { state: ReloadState::Dirty, body, pipeline: None, attempts: Ghost(0) }
    }

    /// The current state.
    pub fn state(&self) -> (r: &ReloadState)
        ensures
            *r == self@.state,
    {
        &self.state
    }

    /// The shader body being edited.
    pub fn body(&self) -> (r: &str)
        ensures
            r@ == self@.body,
    {
        self.body.as_str()
    }

    /// The pipeline to draw with: the last one built successfully.
    pub fn pipeline(&self) -> (r: Option<&P>)
        ensures
            r matches Some(p) ==> self@.pipeline == Some(*p),
            r is None <==> self@.pipeline is None,
    {
        match &self.pipeline {
            Some(p) => Some(p),
            None => None,
        }
    }

    /// The diagnostic of the last attempt, where it failed.
    pub fn diagnostic(&self) -> (r: Option<&Diagnostic>)
        ensures
            r matches Some(d) ==> self@.state == ReloadState::Failed(*d),
            r is None <==> !(self@.state is Failed),
    {
        match &self.state {
            ReloadState::Failed(d) => Some(d),
            _ => None,
        }
    }

    /// Whether a reload is owed: the sources should be read and `poll`
    /// called.
    pub fn needs_reload(&self) -> (r: bool)
        ensures
            r == self@.state is Dirty,
    {
        match self.state {
            ReloadState::Dirty => true,
            _ => false,
        }
    }

    /// The body was edited; a reload is owed.
    pub fn edit(&mut self, body: String)
        ensures
            final(self)@ == old(self)@.edited(body@),
    {
        self.body = body;
        self.state = ReloadState::Dirty;
    }

    /// One notification was observed; a content change owes a reload.
    pub fn on_watch_event(&mut self, e: WatchEvent)
        ensures
            final(self)@ == old(self)@.watched(e),
    {
        if e.changes_content() {
            self.state = ReloadState::Dirty;
        }
    }

    /// Every notification drained from a source's queue, in order. However
    /// many there are, they owe at most one reload.
    pub fn observe(&mut self, events: &Vec<WatchEvent>)
        ensures
            final(self)@ == old(self)@.watched_all(events@),
    {
        let ghost start = self@;
        let mut i: usize = 0;
        proof {
            assert(events@.take(0) =~= Seq::<WatchEvent>::empty());
        }
        while i < events.len()
            invariant
                i <= events.len(),
                self@ == start.watched_all(events@.take(i as int)),
            decreases events.len() - i,
        {
            self.on_watch_event(events[i]);
            proof {
                assert(events@.take(i + 1).drop_last() =~= events@.take(i as int));
            }
            i = i + 1;
        }
        proof {
            assert(events@.take(events.len() as int) =~= events@);
        }
    }

    /// Starts a reload where one is owed: prepares the vertex source and the
    /// fragment source materialized from `template` with the current body,
    /// and hands both out for compilation. Both stages are prepared; where
    /// both fail, the vertex stage's diagnostic is the one reported.
    pub fn poll(&mut self, vertex_source: &str, template: &str) -> (r: ReloadStep)
        ensures
            final(self)@ == old(self)@.polled(r),
            final(self)@.attempts == old(self)@.attempts + old(self)@.attempts_of_poll(),
            !(old(self)@.state is Dirty) ==> r is Idle,
            old(self)@.state is Dirty ==> (r is Compile <==> poll_outcome_ok(
                vertex_source@,
                template@,
                old(self)@.body,
            )),
            old(self)@.state is Dirty ==> (r is Compile || r is Failed),
            r matches ReloadStep::Compile { vertex, fragment } ==> vertex.stage
                == ShaderStage::Vertex && vertex.text@ == vertex_source@ && fragment.stage
                == ShaderStage::Fragment && fragment.text@ == substituted(
                template@,
                old(self)@.body,
            ),
            r matches ReloadStep::Failed(d) ==> d.kind == poll_failure_kind(
                vertex_source@,
                template@,
            ) && d.message@ == poll_failure_message(vertex_source@, template@) && d.span is None,
            r matches ReloadStep::Failed(d) ==> d.message@.len() > 0,
    {
        if !self.needs_reload() {
            return ReloadStep::Idle;
        }
        proof {
            reveal_strlit("the vertex source holds a NUL character");
            reveal_strlit("the template holds no {content} placeholder");
            reveal_strlit("the fragment source holds a NUL character");
        }
        let vertex = load_vertex_shader(vertex_source);
        let fragment = load_fragment_shader(template, self.body.as_str());
        let step = match (vertex, fragment) {
            (Ok(v), Ok(f)) => ReloadStep::Compile { vertex: v, fragment: f },
            (Err(d), _) => ReloadStep::Failed(d),
            (_, Err(d)) => ReloadStep::Failed(d),
        };
        self.state = match &step {
            ReloadStep::Failed(d) => ReloadState::Failed(d.duplicate()),
            _ => ReloadState::Compiling,
        };
        self.attempts = Ghost(self.attempts@ + 1);
        step
    }

    /// A source could not be read where a reload was owed: the attempt fails
    /// with `d` and the held pipeline stays in use.
    pub fn fail_to_load(&mut self, d: Diagnostic)
        ensures
            final(self)@ == old(self)@.polled(ReloadStep::Failed(d)),
    {
        if self.needs_reload() {
            self.state = ReloadState::Failed(d);
            self.attempts = Ghost(self.attempts@ + 1);
        }
    }

    /// The toolchain's outcomes for the sources that `poll` handed out. Where
    /// both give artifacts they are handed out for building; else the attempt
    /// fails, reporting the vertex stage's diagnostic first. Outcomes that
    /// arrive when no compilation is pending are stale and ignored.
    pub fn finish_compile(
        &mut self,
        vertex: Result<Vec<u32>, ToolchainError>,
        fragment: Result<Vec<u32>, ToolchainError>,
    ) -> (r: ReloadStep)
        ensures
            final(self)@ == old(self)@.stepped(r),
            !(old(self)@.state is Compiling) ==> r is Idle,
            old(self)@.state is Compiling ==> (r is Build || r is Failed),
            old(self)@.state is Compiling ==> (r is Build <==> artifact_ok(vertex) && artifact_ok(
                fragment,
            )),
            r matches ReloadStep::Build { vertex: a, fragment: b } ==> a.stage == ShaderStage::Vertex
                && a.words@ == vertex->Ok_0@ && b.stage == ShaderStage::Fragment && b.words@
                == fragment->Ok_0@,
            r matches ReloadStep::Failed(d) ==> if !artifact_ok(vertex) {
                reports(vertex, d)
            } else {
                reports(fragment, d)
            },
            r matches ReloadStep::Failed(d) ==> d.message@.len() > 0,
    {
        match self.state {
            ReloadState::Compiling => {},
            _ => {
                return ReloadStep::Idle;
            },
        }
        let v = convert_shader(ShaderStage::Vertex, vertex);
        let f = convert_shader(ShaderStage::Fragment, fragment);
        let step = match (v, f) {
            (Ok(a), Ok(b)) => ReloadStep::Build { vertex: a, fragment: b },
            (Err(d), _) => ReloadStep::Failed(d),
            (_, Err(d)) => ReloadStep::Failed(d),
        };
        if let ReloadStep::Failed(d) = &step {
            self.state = ReloadState::Failed(d.duplicate());
        }
        step
    }

    /// The result of building a pipeline from the artifacts that
    /// `finish_compile` handed out. A new pipeline replaces the held one; a
    /// failure keeps it. A result that arrives when no build is pending is
    /// stale and ignored.
    pub fn install(&mut self, built: Result<P, Diagnostic>)
        ensures
            final(self)@ == old(self)@.installed(built),
    {
        match self.state {
            ReloadState::Compiling => {},
            _ => {
                return;
            },
        }
        match built {
            Ok(p) => {
                self.pipeline = Some(p);
                self.state = ReloadState::Clean;
            },
            Err(d) => {
                self.state = ReloadState::Failed(d);
            },
        }
    }
}

} // verus!
