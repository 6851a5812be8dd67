//! Laws of the controller, proved over the state machine of [`crate::model`].
//!
//! The executable controller follows that state machine step by step, so
//! each law holds of every run of the executable controller as well.

use crate::event::{ChangeEventView, ChangeKind};
use crate::message::{ErrorView, MessageView};
use crate::model::{
    carry_on, complete_poll, next, polls, ActionView, ControllerView, InputView, Outcomes,
};
use crate::path::{path_extension, path_file_stem, stage_of_path, stem_passes};
use crate::stage::{stage_of_extension, ShaderStage};
use vstd::prelude::*;

verus! {

/// The invariant of the controller holds after every step that began with
/// it, whatever the input; and queueing an event keeps it.
pub proof fn law_invariant_is_kept<M>(s: ControllerView<M>, input: InputView<M>)
    requires
        s.inv(),
    ensures
        next(s, input).state.inv(),
        forall|event: ChangeEventView| (#[trigger] s.enqueue(event)).inv(),
{
}

/// A whole poll ends: started idle, it ends idle with the action that
/// finishes it, and started in the middle of a reload it is turned down and
/// changes nothing.
pub proof fn law_poll_completes<M>(s: ControllerView<M>, outcomes: Outcomes<M>)
    ensures
        s.phase is Idle ==> complete_poll(s, outcomes).result is Ok,
        s.phase is Idle ==> complete_poll(s, outcomes).result->Ok_0 is Finish,
        s.phase is Idle ==> complete_poll(s, outcomes).state.phase is Idle,
        !(s.phase is Idle) ==> complete_poll(s, outcomes) == s.refuse(),
{
    reveal_with_fuel(carry_on, 5);
}

/// The invariant holds after every whole poll that began with it.
pub proof fn law_poll_keeps_invariant<M>(s: ControllerView<M>, outcomes: Outcomes<M>)
    requires
        s.inv(),
    ensures
        complete_poll(s, outcomes).state.inv(),
{
    reveal_with_fuel(carry_on, 5);
}

/// A poll takes at most one event from the queue, the oldest, and leaves the
/// others in their order; no other input touches the queue.
pub proof fn law_poll_takes_one_event<M>(
    s: ControllerView<M>,
    input: InputView<M>,
    outcomes: Outcomes<M>,
)
    ensures
        input is Poll && s.phase is Idle && s.pending.len() > 0 ==> next(s, input).state.pending
            == s.pending.drop_first(),
        !(input is Poll && s.phase is Idle && s.pending.len() > 0) ==> next(s, input).state.pending
            == s.pending,
        s.phase is Idle && s.pending.len() > 0 ==> complete_poll(s, outcomes).state.pending
            == s.pending.drop_first(),
        !(s.phase is Idle && s.pending.len() > 0) ==> complete_poll(s, outcomes).state.pending
            == s.pending,
{
    reveal_with_fuel(carry_on, 5);
}

/// Every poll takes exactly one event while events wait: after as many polls
/// as there are worlds, that many of the oldest events are gone and the
/// others wait in their order. A queue of three events is empty after three
/// polls and not before.
pub proof fn law_polls_take_one_event_each<M>(s: ControllerView<M>, worlds: Seq<Outcomes<M>>)
    requires
        s.phase is Idle,
        worlds.len() <= s.pending.len(),
    ensures
        polls(s, worlds).phase is Idle,
        polls(s, worlds).pending == s.pending.skip(worlds.len() as int),
        polls(s, worlds).pending.len() == s.pending.len() - worlds.len(),
    decreases worlds.len(),
{
    if worlds.len() == 0 {
        assert(s.pending.skip(0) =~= s.pending);
    } else {
        let after = complete_poll(s, worlds[0]).state;
        law_poll_completes(s, worlds[0]);
        law_poll_takes_one_event(s, InputView::Poll, worlds[0]);
        law_polls_take_one_event_each(after, worlds.drop_first());
        assert(after.pending.skip(worlds.len() - 1) =~= s.pending.skip(worlds.len() as int));
    }
}

/// A reload only moves forward: every step that hands out an action to be
/// answered leaves the controller in a later phase than it found it. The
/// compiler in particular is asked only on leaving the phase `Reading`,
/// which only a poll enters, so that no poll compiles twice.
pub proof fn law_reload_moves_forward<M>(s: ControllerView<M>, input: InputView<M>)
    ensures
        ({
            let step = next(s, input);
            match step.result {
                Ok(ActionView::Read { .. }) => {
                    &&& input is Poll
                    &&& s.phase is Idle
                    &&& step.state.phase is Reading
                },
                Ok(ActionView::Compile { .. }) => {
                    &&& s.phase is Reading
                    &&& step.state.phase is Compiling
                },
                Ok(ActionView::Destroy { .. }) => {
                    &&& s.phase is Compiling
                    &&& step.state.phase is Destroying
                },
                Ok(ActionView::Create { .. }) => {
                    &&& s.phase is Compiling || s.phase is Destroying
                    &&& step.state.phase is Creating
                },
                Ok(ActionView::Finish(_)) => step.state.phase is Idle,
                Err(error) => error == ErrorView::UnexpectedInput && step.state == s,
            }
        }),
        next(s, input).result is Ok && !(next(s, input).result->Ok_0 is Finish) ==> s.phase.rank()
            < next(s, input).state.phase.rank(),
{
}

/// A change to a file whose extension names no shader stage is dropped by
/// the poll that takes it: the poll reports nothing, asks for nothing, and
/// leaves binaries and live material as they were.
pub proof fn law_unknown_extension_is_ignored<M>(s: ControllerView<M>, outcomes: Outcomes<M>)
    requires
        s.phase is Idle,
        s.pending.len() > 0,
        stage_of_extension(path_extension(s.pending[0].path)) is None,
    ensures
        next(s, InputView::Poll) == s.take().rest(),
        complete_poll(s, outcomes) == s.take().rest(),
        s.take().rest().result == Ok::<_, ErrorView>(ActionView::<M>::Finish(None)),
        s.take().rest().state.shaders == s.shaders,
        s.take().rest().state.material == s.material,
        s.take().rest().state.backing == s.backing,
{
    reveal_with_fuel(carry_on, 2);
}

/// Under a prefix filter, a change to a file whose stem does not begin with
/// the prefix is dropped by the poll that takes it: the poll reports nothing
/// and asks for nothing, so nothing is read or compiled.
pub proof fn law_foreign_stem_is_ignored<M>(s: ControllerView<M>, outcomes: Outcomes<M>)
    requires
        s.phase is Idle,
        s.pending.len() > 0,
        s.prefix is Some,
        !stem_passes(s.prefix, path_file_stem(s.pending[0].path)),
    ensures
        next(s, InputView::Poll) == s.take().rest(),
        complete_poll(s, outcomes) == s.take().rest(),
        s.take().rest().result == Ok::<_, ErrorView>(ActionView::<M>::Finish(None)),
        s.take().rest().state.shaders == s.shaders,
        s.take().rest().state.material == s.material,
        s.take().rest().state.backing == s.backing,
{
    reveal_with_fuel(carry_on, 2);
}

/// An event that is neither a creation nor a write is dropped by the poll
/// that takes it, whatever its path.
pub proof fn law_other_kinds_are_ignored<M>(s: ControllerView<M>, outcomes: Outcomes<M>)
    requires
        s.phase is Idle,
        s.pending.len() > 0,
        s.pending[0].kind != ChangeKind::Created,
        s.pending[0].kind != ChangeKind::Written,
    ensures
        complete_poll(s, outcomes) == s.take().rest(),
{
    reveal_with_fuel(carry_on, 2);
}

/// An event that is queued while nothing else waits is the one that the next
/// poll takes, and taking it leaves the queue empty again.
pub proof fn law_injected_event_is_taken<M>(s: ControllerView<M>, event: ChangeEventView)
    requires
        s.pending.len() == 0,
    ensures
        s.enqueue(event).pending[0] == event,
        s.enqueue(event).take() == s,
{
    assert(s.enqueue(event).pending.drop_first() =~= s.pending);
}

/// A reload that goes through: the oldest event passes the filter, the file
/// is read, its source compiles, the live material is destroyed and a new one
/// is created. The controller asks for exactly these steps, with the file's
/// path, the source it was given, the material that was live and the new
/// pair of binaries; afterwards the binary of the event's stage is the new
/// one, the other stage's binary is the old one, and the material that the
/// engine returned is live and backed by that pair.
pub proof fn law_reload_swaps_one_stage<M>(
    s: ControllerView<M>,
    stage: ShaderStage,
    live: M,
    source: Seq<char>,
    binary: Seq<u8>,
    fresh: M,
)
    requires
        s.phase is Idle,
        s.pending.len() > 0,
        s.pending[0].is_change(),
        stage_of_path(s.prefix, s.pending[0].path) == Some(stage),
        s.material == Some(live),
    ensures
        ({
            let path = s.pending[0].path;
            let outcomes = Outcomes {
                source: Ok(source),
                binary: Ok(binary),
                teardown: Ok(()),
                creation: Ok(fresh),
            };
            let read = next(s, InputView::Poll);
            let compile = next(read.state, InputView::Source(Ok(source)));
            let destroy = next(compile.state, InputView::Binary(Ok(binary)));
            let create = next(destroy.state, InputView::Destroyed(Ok(())));
            let finish = next(create.state, InputView::Created(Ok(fresh)));
            let shaders = s.shaders.replace(stage, binary);
            &&& read.result == Ok::<_, ErrorView>(ActionView::<M>::Read { path })
            &&& compile.result == Ok::<_, ErrorView>(
                ActionView::<M>::Compile { source, stage, label: path },
            )
            &&& destroy.result == Ok::<_, ErrorView>(ActionView::Destroy { material: live })
            &&& create.result == Ok::<_, ErrorView>(
                ActionView::<M>::Create {
                    vertex: shaders.vertex,
                    fragment: shaders.fragment,
                    draw_mode: s.draw_mode,
                },
            )
            &&& finish.result == Ok::<_, ErrorView>(
                ActionView::<M>::Finish(Some(MessageView::Reloaded { stage, path })),
            )
            &&& finish == complete_poll(s, outcomes)
            &&& finish.state == (ControllerView {
                shaders,
                material: Some(fresh),
                backing: Some(shaders),
                pending: s.pending.drop_first(),
                ..s
            })
            &&& shaders.get(stage) == binary
            &&& stage == ShaderStage::Vertex ==> shaders.fragment == s.shaders.fragment
            &&& stage == ShaderStage::Fragment ==> shaders.vertex == s.shaders.vertex
        }),
{
    reveal_with_fuel(carry_on, 5);
}

/// A reload whose source does not compile: the poll reports the compiler's
/// diagnostic with the stage and the path, the engine is asked for nothing,
/// and binaries and live material are what they were.
pub proof fn law_compile_error_changes_nothing<M>(
    s: ControllerView<M>,
    stage: ShaderStage,
    source: Seq<char>,
    diagnostic: Seq<char>,
    outcomes: Outcomes<M>,
)
    requires
        s.phase is Idle,
        s.pending.len() > 0,
        s.pending[0].is_change(),
        stage_of_path(s.prefix, s.pending[0].path) == Some(stage),
        outcomes.source == Ok::<_, Seq<char>>(source),
        outcomes.binary == Err::<Seq<u8>, _>(diagnostic),
    ensures
        ({
            let path = s.pending[0].path;
            let read = next(s, InputView::Poll);
            let compile = next(read.state, InputView::Source(Ok(source)));
            let finish = next(compile.state, InputView::Binary(Err(diagnostic)));
            &&& finish == complete_poll(s, outcomes)
            &&& finish.result == Ok::<_, ErrorView>(
                ActionView::<M>::Finish(
                    Some(MessageView::Error(ErrorView::Compile { stage, path, diagnostic })),
                ),
            )
            &&& finish.state == s.take()
        }),
{
    reveal_with_fuel(carry_on, 5);
}

/// A file that cannot be read ends its reload like a source that does not
/// compile: the poll reports the failure and nothing has changed.
pub proof fn law_read_error_changes_nothing<M>(
    s: ControllerView<M>,
    stage: ShaderStage,
    details: Seq<char>,
    outcomes: Outcomes<M>,
)
    requires
        s.phase is Idle,
        s.pending.len() > 0,
        s.pending[0].is_change(),
        stage_of_path(s.prefix, s.pending[0].path) == Some(stage),
        outcomes.source == Err::<Seq<char>, _>(details),
    ensures
        complete_poll(s, outcomes).result == Ok::<_, ErrorView>(
            ActionView::<M>::Finish(
                Some(MessageView::Error(ErrorView::FileRead { path: s.pending[0].path, details })),
            ),
        ),
        complete_poll(s, outcomes).state == s.take(),
{
    reveal_with_fuel(carry_on, 5);
}

/// What a poll's report says of the live material. After a report of a
/// reload, a material is live. After a report of an error, the material that
/// was live is still live exactly when the error is not a severe one; after
/// a severe error none is live. A poll with nothing to report has changed
/// neither binaries nor material.
pub proof fn law_report_tells_the_material<M>(s: ControllerView<M>, outcomes: Outcomes<M>)
    requires
        s.inv(),
        s.phase is Idle,
    ensures
        match complete_poll(s, outcomes).result {
            Ok(ActionView::Finish(Some(MessageView::Reloaded { .. }))) => {
                &&& complete_poll(s, outcomes).state.material is Some
                &&& complete_poll(s, outcomes).state.material == Some(outcomes.creation->Ok_0)
            },
            Ok(ActionView::Finish(Some(MessageView::Error(error)))) => if error.is_severe() {
                complete_poll(s, outcomes).state.material is None
            } else {
                &&& complete_poll(s, outcomes).state.material == s.material
                &&& complete_poll(s, outcomes).state.shaders == s.shaders
                &&& complete_poll(s, outcomes).state.backing == s.backing
            },
            Ok(ActionView::Finish(None)) => {
                &&& complete_poll(s, outcomes).state.material == s.material
                &&& complete_poll(s, outcomes).state.shaders == s.shaders
                &&& complete_poll(s, outcomes).state.backing == s.backing
            },
            _ => false,
        },
{
    reveal_with_fuel(carry_on, 5);
}

/// A manual update is a write that was detected: it queues the very event
/// that a write of the file would queue. And a write and a creation of one
/// file are worth the same: whichever of the two a poll takes, it takes the
/// same course in every world.
pub proof fn law_manual_update_is_a_detected_change<M>(
    s: ControllerView<M>,
    path: Seq<char>,
    outcomes: Outcomes<M>,
)
    requires
        s.phase is Idle,
    ensures
        s.enqueue(ChangeEventView::written(path)) == s.enqueue(
            ChangeEventView { kind: ChangeKind::Written, path },
        ),
        ({
            let written = ControllerView {
                pending: seq![ChangeEventView { kind: ChangeKind::Written, path }] + s.pending,
                ..s
            };
            let created = ControllerView {
                pending: seq![ChangeEventView { kind: ChangeKind::Created, path }] + s.pending,
                ..s
            };
            &&& next(written, InputView::Poll) == next(created, InputView::Poll)
            &&& complete_poll(written, outcomes) == complete_poll(created, outcomes)
        }),
{
    reveal_with_fuel(carry_on, 5);
    let written = ControllerView {
        pending: seq![ChangeEventView { kind: ChangeKind::Written, path }] + s.pending,
        ..s
    };
    let created = ControllerView {
        pending: seq![ChangeEventView { kind: ChangeKind::Created, path }] + s.pending,
        ..s
    };
    assert(written.pending.drop_first() =~= s.pending);
    assert(created.pending.drop_first() =~= s.pending);
}

/// Replacing a stage's binary and then putting the first one back restores
/// the pair: two reloads of one stage, the second of which compiles to the
/// binary that was there at the start, leave the binaries, and with them
/// what backs the live material, as they were at the start.
pub proof fn law_round_trip_restores_binaries<M>(
    s: ControllerView<M>,
    stage: ShaderStage,
    first: Outcomes<M>,
    second: Outcomes<M>,
)
    requires
        s.inv(),
        s.phase is Idle,
        s.material is Some,
        s.pending.len() >= 2,
        s.pending[0].is_change(),
        s.pending[1].is_change(),
        stage_of_path(s.prefix, s.pending[0].path) == Some(stage),
        stage_of_path(s.prefix, s.pending[1].path) == Some(stage),
        first.source is Ok && first.binary is Ok && first.teardown is Ok && first.creation is Ok,
        second.source is Ok && second.teardown is Ok && second.creation is Ok,
        second.binary == Ok::<_, Seq<char>>(s.shaders.get(stage)),
    ensures
        ({
            let changed = complete_poll(s, first).state;
            let restored = complete_poll(changed, second).state;
            &&& changed.shaders == s.shaders.replace(stage, first.binary->Ok_0)
            &&& changed.backing == Some(changed.shaders)
            &&& restored.shaders == s.shaders
            &&& restored.backing == s.backing
            &&& restored.material == Some(second.creation->Ok_0)
        }),
{
    reveal_with_fuel(carry_on, 5);
    let changed = complete_poll(s, first).state;
    assert(changed.pending[0] == s.pending[1]);
}

} // verus!
