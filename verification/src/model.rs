//! The controller as a state machine over mathematical values.
//!
//! [`next`] is the whole behaviour of the controller: from a state and one
//! input it gives the next state and what the caller is to do. The
//! executable controller is proved to follow it step by step, and the laws of
//! the library are stated and proved over it.

use crate::event::ChangeEventView;
use crate::message::{ErrorView, MessageView};
use crate::path::stage_of_path;
use crate::stage::{DrawMode, ShaderStage};
use vstd::prelude::*;

verus! {

/// The pair of compiled binaries, one for each stage.
pub struct Binaries {
    pub vertex: Seq<u8>,
    pub fragment: Seq<u8>,
}

impl Binaries {
    /// The binary of one stage.
    pub open spec fn get(self, stage: ShaderStage) -> Seq<u8> {
        match stage {
            ShaderStage::Vertex => self.vertex,
            ShaderStage::Fragment => self.fragment,
        }
    }

    /// The pair with the binary of one stage replaced and the other carried
    /// over.
    pub open spec fn replace(self, stage: ShaderStage, binary: Seq<u8>) -> Binaries {
        match stage {
            ShaderStage::Vertex => Binaries { vertex: binary, fragment: self.fragment },
            ShaderStage::Fragment => Binaries { vertex: self.vertex, fragment: binary },
        }
    }
}

/// The reload that is under way: which file, compiled as which stage.
pub struct JobView {
    pub stage: ShaderStage,
    pub path: Seq<char>,
}

/// Where the controller stands. Outside `Idle` it has handed out an action
/// and waits for that action's outcome.
pub enum PhaseView {
    /// Nothing is under way; the next input is a poll.
    Idle,
    /// The source of the job's file is being read.
    Reading(JobView),
    /// The source is being compiled.
    Compiling(JobView),
    /// The material that was live is being destroyed.
    Destroying(JobView),
    /// The material that will be live is being created.
    Creating(JobView),
}

impl PhaseView {
    /// How far a reload has come: 0 when idle, then one more for each action
    /// handed out.
    pub open spec fn rank(self) -> nat {
        match self {
            PhaseView::Idle => 0,
            PhaseView::Reading(_) => 1,
            PhaseView::Compiling(_) => 2,
            PhaseView::Destroying(_) => 3,
            PhaseView::Creating(_) => 4,
        }
    }
}

/// The controller's state. `M` is the rendering engine's material handle,
/// which the controller stores and hands back but never looks into.
pub struct ControllerView<M> {
    /// The binaries compiled last, one for each stage.
    pub shaders: Binaries,
    /// The live material, if there is one.
    pub material: Option<M>,
    /// The binaries that the live material was created from.
    pub backing: Option<Binaries>,
    /// The draw mode of every material the controller asks for.
    pub draw_mode: DrawMode,
    /// The prefix filter.
    pub prefix: Option<Seq<char>>,
    /// The change events that wait to be polled, oldest first.
    pub pending: Seq<ChangeEventView>,
    /// The reload under way.
    pub phase: PhaseView,
}

/// What the caller hands to the controller: a poll, or the outcome of the
/// action that the controller handed out last.
pub enum InputView<M> {
    Poll,
    Source(Result<Seq<char>, Seq<char>>),
    Binary(Result<Seq<u8>, Seq<char>>),
    Destroyed(Result<(), Seq<char>>),
    Created(Result<M, Seq<char>>),
}

/// What the controller asks of the caller.
pub enum ActionView<M> {
    Read { path: Seq<char> },
    Compile { source: Seq<char>, stage: ShaderStage, label: Seq<char> },
    Destroy { material: M },
    Create { vertex: Seq<u8>, fragment: Seq<u8>, draw_mode: DrawMode },
    Finish(Option<MessageView>),
}

/// One step of the controller: the state it leads to and its result.
pub struct StepView<M> {
    pub state: ControllerView<M>,
    pub result: Result<ActionView<M>, ErrorView>,
}

impl<M> ControllerView<M> {
    /// What holds of the controller between any two steps: there is a live
    /// material exactly when its binaries are on record, and while no reload
    /// is under way the live material is backed by the binaries compiled last.
    pub open spec fn inv(self) -> bool {
        &&& self.material is Some <==> self.backing is Some
        &&& (self.phase is Idle || self.phase is Reading || self.phase is Compiling)
            && self.material is Some ==> self.backing == Some(self.shaders)
        &&& self.phase is Destroying ==> self.material is Some
        &&& self.phase is Creating ==> self.material is None
    }

    /// The state with one more event at the back of the queue.
    pub open spec fn enqueue(self, event: ChangeEventView) -> ControllerView<M> {
        ControllerView { pending: self.pending.push(event), ..self }
    }

    /// The state without the oldest pending event.
    pub open spec fn take(self) -> ControllerView<M> {
        ControllerView { pending: self.pending.drop_first(), ..self }
    }

    /// The state in another phase.
    pub open spec fn at(self, phase: PhaseView) -> ControllerView<M> {
        ControllerView { phase, ..self }
    }

    /// The state without a live material.
    pub open spec fn without_material(self) -> ControllerView<M> {
        ControllerView { material: None, backing: None, ..self }
    }

    /// The step that hands out `action` and leaves the state as it is.
    pub open spec fn ask(self, action: ActionView<M>) -> StepView<M> {
        StepView { state: self, result: Ok(action) }
    }

    /// The step that ends the poll with nothing to report.
    pub open spec fn rest(self) -> StepView<M> {
        StepView { state: self.at(PhaseView::Idle), result: Ok(ActionView::Finish(None)) }
    }

    /// The step that ends the poll with a message.
    pub open spec fn report(self, message: MessageView) -> StepView<M> {
        StepView {
            state: self.at(PhaseView::Idle),
            result: Ok(ActionView::Finish(Some(message))),
        }
    }

    /// The step that turns down an input that answers nothing.
    pub open spec fn refuse(self) -> StepView<M> {
        StepView { state: self, result: Err(ErrorView::UnexpectedInput) }
    }

    /// The action that asks for a material from the binaries compiled last.
    pub open spec fn create_action(self) -> ActionView<M> {
        ActionView::Create {
            vertex: self.shaders.vertex,
            fragment: self.shaders.fragment,
            draw_mode: self.draw_mode,
        }
    }
}

/// The stage that an event asks to recompile under a prefix filter, or `None`
/// where the event is to be dropped: for its kind, for its stem, or for its
/// extension, tested in that order.
pub open spec fn stage_of_event(prefix: Option<Seq<char>>, event: ChangeEventView) -> Option<
    ShaderStage,
> {
    if event.is_change() {
        stage_of_path(prefix, event.path)
    } else {
        None
    }
}

/// A poll: takes the oldest pending event, if there is one, and either drops
/// it or starts its reload by asking for the file's source.
pub open spec fn poll<M>(s: ControllerView<M>) -> StepView<M> {
    if !(s.phase is Idle) {
        s.refuse()
    } else if s.pending.len() == 0 {
        s.rest()
    } else {
        let event = s.pending[0];
        match stage_of_event(s.prefix, event) {
            None => s.take().rest(),
            Some(stage) => s.take().at(
                PhaseView::Reading(JobView { stage, path: event.path }),
            ).ask(ActionView::Read { path: event.path }),
        }
    }
}

/// The outcome of reading the source: on success the source goes to the
/// compiler under the file's path as its label; on failure the reload ends.
pub open spec fn source_read<M>(
    s: ControllerView<M>,
    outcome: Result<Seq<char>, Seq<char>>,
) -> StepView<M> {
    match s.phase {
        PhaseView::Reading(job) => match outcome {
            Ok(source) => s.at(PhaseView::Compiling(job)).ask(
                ActionView::Compile { source, stage: job.stage, label: job.path },
            ),
            Err(details) => s.report(
                MessageView::Error(ErrorView::FileRead { path: job.path, details }),
            ),
        },
        _ => s.refuse(),
    }
}

/// The outcome of compiling: on success the binary takes its stage's place
/// and the swap begins, with the teardown of the live material or, where
/// there is none, with the creation of the new one; on failure the reload
/// ends and nothing has changed.
pub open spec fn compiled<M>(
    s: ControllerView<M>,
    outcome: Result<Seq<u8>, Seq<char>>,
) -> StepView<M> {
    match s.phase {
        PhaseView::Compiling(job) => match outcome {
            Ok(binary) => {
                let fresh = ControllerView { shaders: s.shaders.replace(job.stage, binary), ..s };
                match s.material {
                    Some(material) => fresh.at(PhaseView::Destroying(job)).ask(
                        ActionView::Destroy { material },
                    ),
                    None => fresh.at(PhaseView::Creating(job)).ask(fresh.create_action()),
                }
            },
            Err(diagnostic) => s.report(
                MessageView::Error(
                    ErrorView::Compile { stage: job.stage, path: job.path, diagnostic },
                ),
            ),
        },
        _ => s.refuse(),
    }
}

/// The outcome of the teardown: either way the material that was live is
/// given up; on success the new one is asked for, on failure the reload ends.
pub open spec fn destroyed<M>(s: ControllerView<M>, outcome: Result<(), Seq<char>>) -> StepView<
    M,
> {
    match s.phase {
        PhaseView::Destroying(job) => match outcome {
            Ok(_) => s.without_material().at(PhaseView::Creating(job)).ask(s.create_action()),
            Err(details) => s.without_material().report(
                MessageView::Error(ErrorView::MaterialTeardown { details }),
            ),
        },
        _ => s.refuse(),
    }
}

/// The outcome of the creation: on success the new material is live, backed
/// by the binaries compiled last; on failure no material is live.
pub open spec fn created<M>(s: ControllerView<M>, outcome: Result<M, Seq<char>>) -> StepView<M> {
    match s.phase {
        PhaseView::Creating(job) => match outcome {
            Ok(material) => (ControllerView {
                material: Some(material),
                backing: Some(s.shaders),
                ..s
            }).report(MessageView::Reloaded { stage: job.stage, path: job.path }),
            Err(details) => s.without_material().report(
                MessageView::Error(ErrorView::MaterialCreation { details }),
            ),
        },
        _ => s.refuse(),
    }
}

/// What setting the controller up comes to, from the outcomes of the three
/// steps of the setup in the order in which they are attempted: creating the
/// shader compiler, watching the shader directory, and creating the first
/// material from the binaries given. The first step that failed names the
/// error; where none failed the controller starts idle, with nothing pending
/// and the first material live.
pub open spec fn setup<M>(
    compiler: Result<(), Seq<char>>,
    watch: Result<(), Seq<char>>,
    material: Result<M, Seq<char>>,
    shaders: Binaries,
    draw_mode: DrawMode,
    prefix: Option<Seq<char>>,
) -> Result<ControllerView<M>, ErrorView> {
    match (compiler, watch, material) {
        (Err(details), _, _) => Err(ErrorView::CompilerInit { details }),
        (Ok(_), Err(details), _) => Err(ErrorView::WatchSetup { details }),
        (Ok(_), Ok(_), Err(details)) => Err(ErrorView::MaterialCreation { details }),
        (Ok(_), Ok(_), Ok(material)) => Ok(
            ControllerView {
                shaders,
                material: Some(material),
                backing: Some(shaders),
                draw_mode,
                prefix,
                pending: Seq::empty(),
                phase: PhaseView::Idle,
            },
        ),
    }
}

/// One step of the controller.
pub open spec fn next<M>(s: ControllerView<M>, input: InputView<M>) -> StepView<M> {
    match input {
        InputView::Poll => poll(s),
        InputView::Source(outcome) => source_read(s, outcome),
        InputView::Binary(outcome) => compiled(s, outcome),
        InputView::Destroyed(outcome) => destroyed(s, outcome),
        InputView::Created(outcome) => created(s, outcome),
    }
}

/// What the outside world answers in the course of one poll: the text of the
/// file, the compiled binary, and how the teardown and the creation of the
/// material went. An answer that is never asked for does not matter.
pub struct Outcomes<M> {
    pub source: Result<Seq<char>, Seq<char>>,
    pub binary: Result<Seq<u8>, Seq<char>>,
    pub teardown: Result<(), Seq<char>>,
    pub creation: Result<M, Seq<char>>,
}

/// The input that answers an action, or `None` for the action that ends the
/// poll.
pub open spec fn answer<M>(action: ActionView<M>, outcomes: Outcomes<M>) -> Option<InputView<M>> {
    match action {
        ActionView::Read { .. } => Some(InputView::Source(outcomes.source)),
        ActionView::Compile { .. } => Some(InputView::Binary(outcomes.binary)),
        ActionView::Destroy { .. } => Some(InputView::Destroyed(outcomes.teardown)),
        ActionView::Create { .. } => Some(InputView::Created(outcomes.creation)),
        ActionView::Finish(_) => None,
    }
}

/// Carries a poll on from `step`, answering at most `answers` actions, until
/// the poll is over or an input is turned down.
pub open spec fn carry_on<M>(step: StepView<M>, outcomes: Outcomes<M>, answers: nat) -> StepView<M>
    decreases answers,
{
    if answers == 0 {
        step
    } else {
        match step.result {
            Ok(action) => match answer(action, outcomes) {
                Some(input) => carry_on(
                    next(step.state, input),
                    outcomes,
                    (answers - 1) as nat,
                ),
                None => step,
            },
            Err(_) => step,
        }
    }
}

/// One whole poll, from [`InputView::Poll`] to the action that ends it, in a
/// world that answers with `outcomes`. No poll asks for more than four
/// answers.
pub open spec fn complete_poll<M>(s: ControllerView<M>, outcomes: Outcomes<M>) -> StepView<M> {
    carry_on(next(s, InputView::Poll), outcomes, 4)
}

/// The state after one whole poll in each of `worlds`, in their order.
pub open spec fn polls<M>(s: ControllerView<M>, worlds: Seq<Outcomes<M>>) -> ControllerView<M>
    decreases worlds.len(),
{
    if worlds.len() == 0 {
        s
    } else {
        polls(complete_poll(s, worlds[0]).state, worlds.drop_first())
    }
}

/// What a whole poll reports: the message of the action that ended it.
pub open spec fn report_of<M>(result: Result<ActionView<M>, ErrorView>) -> Result<
    Option<MessageView>,
    ErrorView,
> {
    match result {
        Ok(ActionView::Finish(message)) => Ok(message),
        Ok(_) => Err(ErrorView::UnexpectedInput),
        Err(error) => Err(error),
    }
}

} // verus!
