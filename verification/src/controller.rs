//! The executable controller.

use crate::event::{ChangeEvent, ChangeEventView};
use crate::laws::{
    law_invariant_is_kept, law_poll_completes, law_poll_keeps_invariant, law_poll_takes_one_event,
};
use crate::message::{Error, ErrorView, Message, MessageView};
use crate::model::{
    carry_on, complete_poll, next, report_of, setup, stage_of_event, ActionView, Binaries,
    ControllerView, InputView, JobView, Outcomes, PhaseView,
};
use crate::path::classify;
use crate::stage::{DrawMode, ShaderStage};
use crate::text::text_of;
use crate::watch::change_of;
use notify::DebouncedEvent;
use std::collections::VecDeque;
use vstd::pervasive::unreached;
use vstd::prelude::*;
use vstd::slice::slice_to_vec;

verus! {

/// What the caller hands to the controller: a poll, or the outcome of the
/// action that the controller handed out last. Every failure carries the
/// words of whoever failed.
#[derive(Debug, PartialEq, Eq)]
pub enum Input<M> {
    /// The frame's poll; starts a reload where one is due.
    Poll,
    /// The outcome of [`Action::Read`]: the file's text.
    Source(Result<String, String>),
    /// The outcome of [`Action::Compile`]: the compiled binary.
    Binary(Result<Vec<u8>, String>),
    /// The outcome of [`Action::Destroy`].
    Destroyed(Result<(), String>),
    /// The outcome of [`Action::Create`]: the new material.
    Created(Result<M, String>),
}

impl<M> View for Input<M> {
    type V = InputView<M>;

    open spec fn view(&self) -> InputView<M> {
        match self {
            Input::Poll => InputView::Poll,
            Input::Source(Ok(source)) => InputView::Source(Ok(source@)),
            Input::Source(Err(details)) => InputView::Source(Err(details@)),
            Input::Binary(Ok(binary)) => InputView::Binary(Ok(binary@)),
            Input::Binary(Err(details)) => InputView::Binary(Err(details@)),
            Input::Destroyed(Ok(_)) => InputView::Destroyed(Ok(())),
            Input::Destroyed(Err(details)) => InputView::Destroyed(Err(details@)),
            Input::Created(Ok(material)) => InputView::Created(Ok(*material)),
            Input::Created(Err(details)) => InputView::Created(Err(details@)),
        }
    }
}

/// What the controller asks of the caller. Every action but `Finish` is
/// answered by the input of the same step of the reload; `Finish` ends the
/// poll with what it has to report.
#[derive(Clone, Debug, PartialEq, Eq)]
pub enum Action<M> {
    /// Read the text of the file at `path`.
    Read { path: String },
    /// Compile `source` as a shader of `stage`; `label` names the source in
    /// the compiler's diagnostics.
    Compile { source: String, stage: ShaderStage, label: String },
    /// Destroy `material`.
    Destroy { material: M },
    /// Create a material from the two binaries.
    Create { vertex: Vec<u8>, fragment: Vec<u8>, draw_mode: DrawMode },
    /// The poll is over.
    Finish(Option<Message>),
}

impl<M> View for Action<M> {
    type V = ActionView<M>;

    open spec fn view(&self) -> ActionView<M> {
        match self {
            Action::Read { path } => ActionView::Read { path: path@ },
            Action::Compile { source, stage, label } => ActionView::Compile {
                source: source@,
                stage: *stage,
                label: label@,
            },
            Action::Destroy { material } => ActionView::Destroy { material: *material },
            Action::Create { vertex, fragment, draw_mode } => ActionView::Create {
                vertex: vertex@,
                fragment: fragment@,
                draw_mode: *draw_mode,
            },
            Action::Finish(None) => ActionView::Finish(None),
            Action::Finish(Some(message)) => ActionView::Finish(Some(message@)),
        }
    }
}

/// The view of a step's result.
pub open spec fn result_view<M>(result: Result<Action<M>, Error>) -> Result<
    ActionView<M>,
    ErrorView,
> {
    match result {
        Ok(action) => Ok(action@),
        Err(error) => Err(error@),
    }
}

/// The view of what setting up gives.
pub open spec fn setup_view<M>(made: Result<MaterialAutoUpdate<M>, Error>) -> Result<
    ControllerView<M>,
    ErrorView,
> {
    match made {
        Ok(controller) => Ok(controller@),
        Err(error) => Err(error@),
    }
}

/// The view of what a whole poll reports.
pub open spec fn report_view(report: Result<Option<Message>, Error>) -> Result<
    Option<MessageView>,
    ErrorView,
> {
    match report {
        Ok(Some(message)) => Ok(Some(message@)),
        Ok(None) => Ok(None),
        Err(error) => Err(error@),
    }
}

/// The view of the outcome of reading a file.
pub open spec fn text_outcome_view(outcome: Result<String, String>) -> Result<
    Seq<char>,
    Seq<char>,
> {
    match outcome {
        Ok(text) => Ok(text@),
        Err(details) => Err(details@),
    }
}

/// The view of the outcome of compiling.
pub open spec fn binary_outcome_view(outcome: Result<Vec<u8>, String>) -> Result<
    Seq<u8>,
    Seq<char>,
> {
    match outcome {
        Ok(binary) => Ok(binary@),
        Err(details) => Err(details@),
    }
}

/// The view of a setup step's outcome.
pub open spec fn outcome_view(outcome: Result<(), String>) -> Result<(), Seq<char>> {
    match outcome {
        Ok(_) => Ok(()),
        Err(details) => Err(details@),
    }
}

/// The view of the first material's outcome.
pub open spec fn material_view<M>(outcome: Result<M, String>) -> Result<M, Seq<char>> {
    match outcome {
        Ok(material) => Ok(material),
        Err(details) => Err(details@),
    }
}

/// The outside world as the controller needs it: the file system, the shader
/// compiler and the rendering engine. The controller relies on nothing about
/// the answers; every failure is given in the words of whoever failed.
pub trait Host<M> {
    /// Reads the text of the file at `path`.
    fn read_source(&mut self, path: &str) -> Result<String, String>;

    /// Compiles `source` as a shader of `stage`; `label` names the source in
    /// the diagnostics.
    fn compile(&mut self, source: &str, stage: ShaderStage, label: &str) -> Result<
        Vec<u8>,
        String,
    >;

    /// Destroys a material.
    fn destroy_material(&mut self, material: M) -> Result<(), String>;

    /// Creates a material from the binaries of the two stages.
    fn create_material(&mut self, vertex: &[u8], fragment: &[u8], draw_mode: DrawMode) -> Result<
        M,
        String,
    >;
}

struct Job {
    stage: ShaderStage,
    path: String,
}

impl View for Job {
    type V = JobView;

    closed spec fn view(&self) -> JobView {
        JobView { stage: self.stage, path: self.path@ }
    }
}

enum Phase {
    Idle,
    Reading(Job),
    Compiling(Job),
    Destroying(Job),
    Creating(Job),
}

impl View for Phase {
    type V = PhaseView;

    closed spec fn view(&self) -> PhaseView {
        match self {
            Phase::Idle => PhaseView::Idle,
            Phase::Reading(job) => PhaseView::Reading(job@),
            Phase::Compiling(job) => PhaseView::Compiling(job@),
            Phase::Destroying(job) => PhaseView::Destroying(job@),
            Phase::Creating(job) => PhaseView::Creating(job@),
        }
    }
}

/// Material update tracker: the compiled binaries, the live material made
/// from them, and the change events that wait to be looked at.
pub struct MaterialAutoUpdate<M> {
    vert: Vec<u8>,
    frag: Vec<u8>,
    material: Option<M>,
    backing: Ghost<Option<Binaries>>,
    draw_mode: DrawMode,
    prefix: Option<String>,
    pending: VecDeque<ChangeEvent>,
    phase: Phase,
}

impl<M> View for MaterialAutoUpdate<M> {
    type V = ControllerView<M>;

    closed spec fn view(&self) -> ControllerView<M> {
        ControllerView {
            shaders: Binaries { vertex: self.vert@, fragment: self.frag@ },
            material: self.material,
            backing: self.backing@,
            draw_mode: self.draw_mode,
            prefix: text_of(self.prefix),
            pending: self.pending@.map_values(|event: ChangeEvent| event@),
            phase: self.phase@,
        }
    }
}

impl<M: Copy> MaterialAutoUpdate<M> {
    /// Sets the controller up from the outcomes of the three steps that the
    /// caller has made, in this order: creating the shader compiler, watching
    /// the shader directory, and creating a material from `vertex` and
    /// `fragment` with `draw_mode`. The first step that failed names the
    /// error, and no controller is made; a step that was not attempted,
    /// because an earlier one had failed, may be given as any failure.
    ///
    /// The controller takes the caller's word that `material` was made from
    /// these two binaries: from here on it keeps the live material and the
    /// binaries in step itself.
    pub fn new(
        compiler: Result<(), String>,
        watch: Result<(), String>,
        material: Result<M, String>,
        vertex: Vec<u8>,
        fragment: Vec<u8>,
        draw_mode: DrawMode,
        prefix: Option<String>,
    ) -> (made: Result<Self, Error>)
        ensures
            setup_view(made) == setup(
                outcome_view(compiler),
                outcome_view(watch),
                material_view(material),
                Binaries { vertex: vertex@, fragment: fragment@ },
                draw_mode,
                text_of(prefix),
            ),
            made matches Ok(controller) ==> controller@.inv(),
    {
        if let Err(details) = compiler {
            return Err(Error::CompilerInit { details });
        }
        if let Err(details) = watch {
            return Err(Error::WatchSetup { details });
        }
        match material {
            Err(details) => Err(Error::MaterialCreation { details }),
            Ok(material) => {
                let ghost backing = Some(Binaries { vertex: vertex@, fragment: fragment@ });
                let controller = MaterialAutoUpdate {
                    vert: vertex,
                    frag: fragment,
                    material: Some(material),
                    backing: Ghost(backing),
                    draw_mode,
                    prefix,
                    pending: VecDeque::new(),
                    phase: Phase::Idle,
                };
                assert(controller@.pending =~= Seq::empty());
                Ok(controller)
            },
        }
    }

    /// The live material, or `None` where a swap has failed and none is
    /// left.
    pub fn material(&self) -> (material: Option<M>)
        ensures
            material == self@.material,
    {
        self.material
    }

    /// The vertex binary compiled last.
    pub fn vertex(&self) -> (binary: &Vec<u8>)
        ensures
            binary@ == self@.shaders.vertex,
    {
        &self.vert
    }

    /// The fragment binary compiled last.
    pub fn fragment(&self) -> (binary: &Vec<u8>)
        ensures
            binary@ == self@.shaders.fragment,
    {
        &self.frag
    }

    /// How many change events wait to be polled.
    pub fn pending(&self) -> (count: usize)
        ensures
            count == self@.pending.len(),
    {
        self.pending.len()
    }

    /// Whether no reload is under way, so that the next input is a poll.
    pub fn is_idle(&self) -> (idle: bool)
        ensures
            idle == (self@.phase is Idle),
    {
        match self.phase {
            Phase::Idle => true,
            _ => false,
        }
    }

    /// Queues a change event behind those that already wait.
    pub fn enqueue(&mut self, event: ChangeEvent)
        ensures
            final(self)@ == old(self)@.enqueue(event@),
            old(self)@.inv() ==> final(self)@.inv(),
    {
        self.pending.push_back(event);
        assert(self@.pending =~= old(self)@.pending.push(event@));
    }

    /// Queues an event of the `notify` crate's debounced watcher, as
    /// [`MaterialAutoUpdate::enqueue`] queues a change event: one event joins
    /// the back of the queue and nothing else changes.
    pub fn observe(&mut self, event: DebouncedEvent)
        ensures
            exists|change: ChangeEventView| final(self)@ == #[trigger] old(self)@.enqueue(change),
            old(self)@.inv() ==> final(self)@.inv(),
    {
        self.enqueue(change_of(event));
    }

    /// Manually update a shader: queues a write of the file at `path`, which
    /// the polls then treat as they treat a change that was detected. Nothing
    /// is compiled here.
    pub fn manual_update(&mut self, path: &str) -> (done: Result<(), Error>)
        ensures
            done is Ok,
            final(self)@ == old(self)@.enqueue(ChangeEventView::written(path@)),
            old(self)@.inv() ==> final(self)@.inv(),
    {
        self.enqueue(ChangeEvent::written(path));
        Ok(())
    }

    /// Poll for a new shader update, and act accordingly: one whole poll,
    /// in which `host` does the outside work. At most one pending event is
    /// taken. Where it asks for a reload, the file is read and compiled and
    /// the material swapped, each step only after the one before it went
    /// well, and the poll reports how far it came; a failure on the way is
    /// reported as a message, never as an `Err`. Where no event is pending,
    /// or the event is filtered out, the poll reports nothing.
    ///
    /// What `host` answers is for `host` to decide. The poll is the one that
    /// the state machine makes in a world that gives those answers: there
    /// are outcomes for which [`complete_poll`] leads from the state before
    /// to the state after and to this report. `Err` comes only where the
    /// controller was left in the middle of a reload by calls of
    /// [`MaterialAutoUpdate::step`].
    pub fn update<H: Host<M>>(&mut self, host: &mut H) -> (report: Result<Option<Message>, Error>)
        ensures
            exists|outcomes: Outcomes<M>|
                {
                    &&& final(self)@ == (#[trigger] complete_poll(old(self)@, outcomes)).state
                    &&& report_view(report) == report_of(
                        complete_poll(old(self)@, outcomes).result,
                    )
                },
            report is Err <==> !(old(self)@.phase is Idle),
            report is Err ==> report_view(report) == Err::<Option<MessageView>, _>(
                ErrorView::UnexpectedInput,
            ) && final(self)@ == old(self)@,
            report is Ok ==> final(self)@.phase is Idle,
            old(self)@.phase is Idle && old(self)@.pending.len() == 0 ==> report_view(report)
                == Ok::<Option<MessageView>, ErrorView>(None) && final(self)@ == old(self)@,
            old(self)@.phase is Idle && old(self)@.pending.len() > 0 ==> final(self)@.pending
                == old(self)@.pending.drop_first(),
            old(self)@.phase is Idle && old(self)@.pending.len() > 0 && stage_of_event(
                old(self)@.prefix,
                old(self)@.pending[0],
            ) is None ==> report_view(report) == Ok::<Option<MessageView>, ErrorView>(None)
                && final(self)@ == old(self)@.take(),
            old(self)@.inv() ==> final(self)@.inv(),
    {
        let ghost start = self@;
        let report = self.poll_with(host);
        proof {
            let outcomes = choose|outcomes: Outcomes<M>|
                {
                    &&& self@ == (#[trigger] complete_poll(start, outcomes)).state
                    &&& report_view(report) == report_of(complete_poll(start, outcomes).result)
                };
            reveal_with_fuel(carry_on, 2);
            law_poll_completes(start, outcomes);
            law_poll_takes_one_event(start, InputView::Poll, outcomes);
            if start.inv() {
                law_poll_keeps_invariant(start, outcomes);
            }
        }
        report
    }

    /// One whole poll, as the state machine makes it.
    fn poll_with<H: Host<M>>(&mut self, host: &mut H) -> (report: Result<Option<Message>, Error>)
        ensures
            exists|outcomes: Outcomes<M>|
                {
                    &&& final(self)@ == (#[trigger] complete_poll(old(self)@, outcomes)).state
                    &&& report_view(report) == report_of(
                        complete_poll(old(self)@, outcomes).result,
                    )
                },
    {
        let ghost start = self@;
        let ghost idle = Outcomes::<M> {
            source: Err(Seq::empty()),
            binary: Err(Seq::empty()),
            teardown: Err(Seq::empty()),
            creation: Err(Seq::empty()),
        };
        proof {
            reveal_with_fuel(carry_on, 2);
        }
        match self.step(Input::Poll) {
            Ok(Action::Read { path }) => {
                let source = host.read_source(path.as_str());
                let ghost asked = Outcomes { source: text_outcome_view(source), ..idle };
                let (report, Ghost(outcomes)) = self.compile_and_swap(host, source, Ghost(asked));
                assert(self@ == complete_poll(start, outcomes).state);
                report
            },
            Ok(Action::Finish(message)) => {
                assert(self@ == complete_poll(start, idle).state);
                Ok(message)
            },
            Err(error) => {
                assert(self@ == complete_poll(start, idle).state);
                Err(error)
            },
            Ok(_) => unreached(),
        }
    }

    /// The rest of a poll from the outcome of reading the source.
    fn compile_and_swap<H: Host<M>>(
        &mut self,
        host: &mut H,
        source: Result<String, String>,
        Ghost(asked): Ghost<Outcomes<M>>,
    ) -> (done: (Result<Option<Message>, Error>, Ghost<Outcomes<M>>))
        requires
            old(self)@.phase is Reading,
            asked.source == text_outcome_view(source),
        ensures
            done.1@.source == asked.source,
            final(self)@ == carry_on(
                next(old(self)@, InputView::Source(asked.source)),
                done.1@,
                3,
            ).state,
            report_view(done.0) == report_of(
                carry_on(next(old(self)@, InputView::Source(asked.source)), done.1@, 3).result,
            ),
    {
        proof {
            reveal_with_fuel(carry_on, 2);
        }
        match self.step(Input::Source(source)) {
            Ok(Action::Compile { source, stage, label }) => {
                let binary = host.compile(source.as_str(), stage, label.as_str());
                let ghost built = Outcomes { binary: binary_outcome_view(binary), ..asked };
                self.swap(host, binary, Ghost(built))
            },
            Ok(Action::Finish(message)) => (Ok(message), Ghost(asked)),
            _ => unreached(),
        }
    }

    /// The rest of a poll from the outcome of compiling.
    fn swap<H: Host<M>>(
        &mut self,
        host: &mut H,
        binary: Result<Vec<u8>, String>,
        Ghost(asked): Ghost<Outcomes<M>>,
    ) -> (done: (Result<Option<Message>, Error>, Ghost<Outcomes<M>>))
        requires
            old(self)@.phase is Compiling,
            asked.binary == binary_outcome_view(binary),
        ensures
            done.1@.source == asked.source,
            done.1@.binary == asked.binary,
            final(self)@ == carry_on(
                next(old(self)@, InputView::Binary(asked.binary)),
                done.1@,
                2,
            ).state,
            report_view(done.0) == report_of(
                carry_on(next(old(self)@, InputView::Binary(asked.binary)), done.1@, 2).result,
            ),
    {
        proof {
            reveal_with_fuel(carry_on, 3);
        }
        match self.step(Input::Binary(binary)) {
            Ok(Action::Destroy { material }) => {
                let teardown = host.destroy_material(material);
                let ghost torn = Outcomes { teardown: outcome_view(teardown), ..asked };
                match self.step(Input::Destroyed(teardown)) {
                    Ok(Action::Create { vertex, fragment, draw_mode }) => {
                        self.create(host, vertex, fragment, draw_mode, Ghost(torn))
                    },
                    Ok(Action::Finish(message)) => (Ok(message), Ghost(torn)),
                    _ => unreached(),
                }
            },
            Ok(Action::Create { vertex, fragment, draw_mode }) => {
                self.create(host, vertex, fragment, draw_mode, Ghost(asked))
            },
            Ok(Action::Finish(message)) => (Ok(message), Ghost(asked)),
            _ => unreached(),
        }
    }

    /// The end of a poll: the creation of the material.
    fn create<H: Host<M>>(
        &mut self,
        host: &mut H,
        vertex: Vec<u8>,
        fragment: Vec<u8>,
        draw_mode: DrawMode,
        Ghost(asked): Ghost<Outcomes<M>>,
    ) -> (done: (Result<Option<Message>, Error>, Ghost<Outcomes<M>>))
        requires
            old(self)@.phase is Creating,
        ensures
            done.1@ == (Outcomes { creation: done.1@.creation, ..asked }),
            final(self)@ == next(old(self)@, InputView::Created(done.1@.creation)).state,
            next(old(self)@, InputView::Created(done.1@.creation)).result is Ok,
            next(old(self)@, InputView::Created(done.1@.creation)).result->Ok_0 is Finish,
            report_view(done.0) == report_of(
                next(old(self)@, InputView::Created(done.1@.creation)).result,
            ),
    {
        let creation = host.create_material(vertex.as_slice(), fragment.as_slice(), draw_mode);
        let ghost made = Outcomes { creation: material_view(creation), ..asked };
        match self.step(Input::Created(creation)) {
            Ok(Action::Finish(message)) => (Ok(message), Ghost(made)),
            _ => unreached(),
        }
    }

    /// Takes one input and says what to do next. Starting from
    /// [`Input::Poll`], the caller carries out each action and hands its
    /// outcome back, until the action is [`Action::Finish`]. An input that
    /// does not answer the action handed out last is turned down with
    /// [`Error::UnexpectedInput`] and changes nothing.
    pub fn step(&mut self, input: Input<M>) -> (result: Result<Action<M>, Error>)
        ensures
            final(self)@ == next(old(self)@, input@).state,
            result_view(result) == next(old(self)@, input@).result,
            old(self)@.inv() ==> final(self)@.inv(),
    {
        proof {
            if self@.inv() {
                law_invariant_is_kept(self@, input@);
            }
        }
        match input {
            Input::Poll => self.poll(),
            Input::Source(outcome) => self.source_read(outcome),
            Input::Binary(outcome) => self.compiled(outcome),
            Input::Destroyed(outcome) => self.destroyed(outcome),
            Input::Created(outcome) => self.created(outcome),
        }
    }

    fn poll(&mut self) -> (result: Result<Action<M>, Error>)
        ensures
            final(self)@ == next(old(self)@, InputView::Poll).state,
            result_view(result) == next(old(self)@, InputView::Poll).result,
    {
        if !self.is_idle() {
            return Err(Error::UnexpectedInput);
        }
        match self.pending.pop_front() {
            None => Ok(Action::Finish(None)),
            Some(event) => {
                assert(self@.pending =~= old(self)@.pending.drop_first());
                assert(event@ == old(self)@.pending[0]);
                let stage = if event.is_change() {
                    classify(&self.prefix, event.path.as_str())
                } else {
                    None
                };
                match stage {
                    None => Ok(Action::Finish(None)),
                    Some(stage) => {
                        self.phase = Phase::Reading(Job { stage, path: event.path.clone() });
                        Ok(Action::Read { path: event.path })
                    },
                }
            },
        }
    }

    fn source_read(&mut self, outcome: Result<String, String>) -> (result: Result<
        Action<M>,
        Error,
    >)
        ensures
            final(self)@ == next(old(self)@, Input::<M>::Source(outcome)@).state,
            result_view(result) == next(old(self)@, Input::<M>::Source(outcome)@).result,
    {
        let job = match &self.phase {
            Phase::Reading(job) => job.duplicate(),
            _ => { return Err(Error::UnexpectedInput); },
        };
        match outcome {
            Ok(source) => {
                let label = job.path.clone();
                let stage = job.stage;
                self.phase = Phase::Compiling(job);
                Ok(Action::Compile { source, stage, label })
            },
            Err(details) => {
                self.phase = Phase::Idle;
                Ok(Action::Finish(Some(Message::Error(Error::FileRead { path: job.path, details }))))
            },
        }
    }

    fn compiled(&mut self, outcome: Result<Vec<u8>, String>) -> (result: Result<
        Action<M>,
        Error,
    >)
        ensures
            final(self)@ == next(old(self)@, Input::<M>::Binary(outcome)@).state,
            result_view(result) == next(old(self)@, Input::<M>::Binary(outcome)@).result,
    {
        let job = match &self.phase {
            Phase::Compiling(job) => job.duplicate(),
            _ => { return Err(Error::UnexpectedInput); },
        };
        match outcome {
            Ok(binary) => {
                match job.stage {
                    ShaderStage::Vertex => { self.vert = binary; },
                    ShaderStage::Fragment => { self.frag = binary; },
                }
                match self.material {
                    Some(material) => {
                        self.phase = Phase::Destroying(job);
                        Ok(Action::Destroy { material })
                    },
                    None => {
                        self.phase = Phase::Creating(job);
                        Ok(self.create_action())
                    },
                }
            },
            Err(diagnostic) => {
                self.phase = Phase::Idle;
                Ok(
                    Action::Finish(
                        Some(
                            Message::Error(
                                Error::Compile { stage: job.stage, path: job.path, diagnostic },
                            ),
                        ),
                    ),
                )
            },
        }
    }

    fn destroyed(&mut self, outcome: Result<(), String>) -> (result: Result<Action<M>, Error>)
        ensures
            final(self)@ == next(old(self)@, Input::<M>::Destroyed(outcome)@).state,
            result_view(result) == next(old(self)@, Input::<M>::Destroyed(outcome)@).result,
    {
        let job = match &self.phase {
            Phase::Destroying(job) => job.duplicate(),
            _ => { return Err(Error::UnexpectedInput); },
        };
        self.material = None;
        self.backing = Ghost(None);
        match outcome {
            Ok(_) => {
                self.phase = Phase::Creating(job);
                Ok(self.create_action())
            },
            Err(details) => {
                self.phase = Phase::Idle;
                Ok(Action::Finish(Some(Message::Error(Error::MaterialTeardown { details }))))
            },
        }
    }

    fn created(&mut self, outcome: Result<M, String>) -> (result: Result<Action<M>, Error>)
        ensures
            final(self)@ == next(old(self)@, Input::<M>::Created(outcome)@).state,
            result_view(result) == next(old(self)@, Input::<M>::Created(outcome)@).result,
    {
        let job = match &self.phase {
            Phase::Creating(job) => job.duplicate(),
            _ => { return Err(Error::UnexpectedInput); },
        };
        self.phase = Phase::Idle;
        match outcome {
            Ok(material) => {
                self.material = Some(material);
                self.backing = Ghost(Some(Binaries { vertex: self.vert@, fragment: self.frag@ }));
                Ok(Action::Finish(Some(Message::Reloaded { stage: job.stage, path: job.path })))
            },
            Err(details) => {
                self.material = None;
                self.backing = Ghost(None);
                Ok(Action::Finish(Some(Message::Error(Error::MaterialCreation { details }))))
            },
        }
    }

    fn create_action(&self) -> (action: Action<M>)
        ensures
            action@ == self@.create_action(),
    {
        Action::Create {
            vertex: slice_to_vec(self.vert.as_slice()),
            fragment: slice_to_vec(self.frag.as_slice()),
            draw_mode: self.draw_mode,
        }
    }
}

impl Job {
    fn duplicate(&self) -> (copy: Job)
        ensures
            copy@ == self@,
    {
        Job { stage: self.stage, path: self.path.clone() }
    }
}

} // verus!
