//! Runs of the driver: what holds of every sequence of inputs the event
//! loop can feed it.

use vstd::prelude::*;

use crate::driver::Directive;
use crate::driver::Driver;
use crate::driver::Event;
use crate::driver::spec_handle_event;
use crate::driver::spec_handle_outcome;
use crate::presenter::PresentOutcome;

verus! {

/// One input to the driver: a platform event, or the outcome the GPU
/// backend reported for the frame the driver last ordered.
#[derive(Clone, Copy, PartialEq, Eq, Structural, Debug)]
pub enum Input {
    Ev(Event),
    Outcome(PresentOutcome),
}

/// The state and directive after one input.
pub open spec fn spec_step(s: Driver, input: Input) -> (Driver, Directive) {
    match input {
        Input::Ev(ev) => spec_handle_event(s, ev),
        Input::Outcome(outcome) => spec_handle_outcome(s, outcome),
    }
}

/// The driver state after a whole run of inputs.
pub open spec fn state_after(s: Driver, inputs: Seq<Input>) -> Driver
    decreases inputs.len(),
{
    if inputs.len() == 0 {
        s
    } else {
        state_after(spec_step(s, inputs[0]).0, inputs.skip(1))
    }
}

/// The directive the driver emits at position `i` of a run.
pub open spec fn directive_at(s: Driver, inputs: Seq<Input>, i: int) -> Directive
    recommends
        0 <= i < inputs.len(),
{
    spec_step(state_after(s, inputs.take(i)), inputs[i]).1
}

/// Running a sequence and then one more input is one step after the sequence.
pub proof fn lemma_state_after_push(s: Driver, inputs: Seq<Input>, input: Input)
    ensures
        state_after(s, inputs.push(input)) == spec_step(state_after(s, inputs), input).0,
    decreases inputs.len(),
{
    if inputs.len() == 0 {
        assert(inputs.push(input)[0] == input);
        assert(inputs.push(input).skip(1) =~= Seq::<Input>::empty());
        assert(state_after(spec_step(s, input).0, Seq::<Input>::empty()) == spec_step(
            s,
            input,
        ).0);
    } else {
        assert(inputs.push(input)[0] == inputs[0]);
        assert(inputs.push(input).skip(1) =~= inputs.skip(1).push(input));
        lemma_state_after_push(spec_step(s, inputs[0]).0, inputs.skip(1), input);
    }
}

/// The state after the first `i + 1` inputs is one step past the state after
/// the first `i`.
pub proof fn lemma_state_after_take_step(s: Driver, inputs: Seq<Input>, i: int)
    requires
        0 <= i < inputs.len(),
    ensures
        state_after(s, inputs.take(i + 1)) == spec_step(state_after(s, inputs.take(i)), inputs[i]).0,
{
    assert(inputs.take(i + 1) =~= inputs.take(i).push(inputs[i]));
    lemma_state_after_push(s, inputs.take(i), inputs[i]);
}

/// The configuration's dimensions stay positive across every run: one step
/// preserves well-formedness, so any sequence of inputs does.
pub proof fn lemma_wf_preserved(s: Driver, inputs: Seq<Input>)
    requires
        s.wf(),
    ensures
        state_after(s, inputs).wf(),
        forall|i: int| 0 <= i <= inputs.len() ==> #[trigger] state_after(s, inputs.take(i)).wf(),
    decreases inputs.len(),
{
    assert(inputs.take(0) =~= Seq::<Input>::empty());
    if inputs.len() > 0 {
        let s2 = spec_step(s, inputs[0]).0;
        assert(s2.wf());
        lemma_wf_preserved(s2, inputs.skip(1));
        assert forall|i: int| 0 < i <= inputs.len() implies #[trigger] state_after(
            s,
            inputs.take(i),
        ).wf() by {
            assert(inputs.take(i)[0] == inputs[0]);
            assert(inputs.take(i).skip(1) =~= inputs.skip(1).take(i - 1));
            assert(state_after(s2, inputs.skip(1).take(i - 1)).wf());
            assert(state_after(s, inputs.take(i)) == state_after(s2, inputs.take(i).skip(1)));
        }
    }
}

/// A render directive, wherever it stands in a run, carries exactly the
/// frame of the configuration current at that point: the driver never
/// renders from a stale size.
pub proof fn lemma_render_uses_current_config(s: Driver, inputs: Seq<Input>, i: int)
    requires
        0 <= i < inputs.len(),
        directive_at(s, inputs, i) is RenderFrame,
    ensures
        directive_at(s, inputs, i)->RenderFrame_0 == state_after(
            s,
            inputs.take(i),
        ).presenter.spec_frame(),
{
}

/// Exit is absorbing: once the driver has exited, no input changes its state
/// and no input draws any directive but `Idle` — in particular no frame is
/// ever rendered again.
pub proof fn lemma_exit_absorbing(s: Driver, inputs: Seq<Input>)
    requires
        s.exited,
    ensures
        state_after(s, inputs) == s,
        forall|i: int| 0 <= i < inputs.len() ==> directive_at(s, inputs, i) == Directive::Idle,
    decreases inputs.len(),
{
    if inputs.len() > 0 {
        assert(spec_step(s, inputs[0]).0 == s);
        lemma_exit_absorbing(s, inputs.skip(1));
        assert forall|i: int| 0 <= i < inputs.len() implies directive_at(s, inputs, i)
            == Directive::Idle by {
            lemma_exit_absorbing_take(s, inputs, i);
        }
    }
}

proof fn lemma_exit_absorbing_take(s: Driver, inputs: Seq<Input>, i: int)
    requires
        s.exited,
        0 <= i < inputs.len(),
    ensures
        state_after(s, inputs.take(i)) == s,
        directive_at(s, inputs, i) == Directive::Idle,
    decreases i,
{
    if i == 0 {
        assert(inputs.take(0) =~= Seq::<Input>::empty());
    } else {
        lemma_exit_absorbing_take(s, inputs, i - 1);
        lemma_state_after_take_step(s, inputs, i - 1);
    }
    assert(spec_step(s, inputs[i]).1 == Directive::Idle);
}

/// An out-of-memory outcome deterministically terminates the loop: the step
/// itself orders a fatal exit, and no later input — whatever the rest of the
/// run holds — yields another render directive.
pub proof fn lemma_out_of_memory_terminates(s: Driver, rest: Seq<Input>)
    requires
        !s.exited,
    ensures
        spec_handle_outcome(s, PresentOutcome::OutOfMemory).0.exited,
        spec_handle_outcome(s, PresentOutcome::OutOfMemory).1 == Directive::Exit(
            crate::driver::EXIT_FATAL,
        ),
        forall|i: int| 0 <= i < rest.len() ==> !(directive_at(
            spec_handle_outcome(s, PresentOutcome::OutOfMemory).0,
            rest,
            i,
        ) is RenderFrame),
{
    let s2 = spec_handle_outcome(s, PresentOutcome::OutOfMemory).0;
    lemma_exit_absorbing(s2, rest);
}

/// A lost or outdated outcome is answered by a reconfiguration directive at
/// that very step, so a reconfiguration stands between it and any later
/// render directive of the run.
pub proof fn lemma_lost_outdated_reconfigures(s: Driver, inputs: Seq<Input>, i: int, j: int)
    requires
        0 <= i < j < inputs.len(),
        inputs[i] == Input::Outcome(PresentOutcome::Lost) || inputs[i] == Input::Outcome(
            PresentOutcome::Outdated,
        ),
        !state_after(s, inputs.take(i)).exited,
        directive_at(s, inputs, j) is RenderFrame,
    ensures
        directive_at(s, inputs, i) is Configure,
        exists|k: int|
            i <= k < j && directive_at(s, inputs, k) is Configure,
{
    assert(directive_at(s, inputs, i) is Configure);
    assert(i <= i < j && directive_at(s, inputs, i) is Configure);
}

/// Whether an input is a resize event.
pub open spec fn is_resize(input: Input) -> bool {
    input matches Input::Ev(Event::Resized(_, _))
}

/// The most recently applied valid size over a run of resize inputs,
/// starting from `(width0, height0)`: a resize with a zero dimension leaves
/// it as it was.
pub open spec fn last_valid_size(width0: u32, height0: u32, inputs: Seq<Input>) -> (u32, u32)
    decreases inputs.len(),
{
    if inputs.len() == 0 {
        (width0, height0)
    } else {
        match inputs.last() {
            Input::Ev(Event::Resized(w, h)) => if w > 0 && h > 0 {
                (w, h)
            } else {
                last_valid_size(width0, height0, inputs.drop_last())
            },
            _ => last_valid_size(width0, height0, inputs.drop_last()),
        }
    }
}

/// Over any sequence of resize events, the configuration's dimensions equal
/// the most recently applied valid size — zero-dimension events are no-ops
/// on configuration state — and nothing else of the driver changes.
pub proof fn lemma_config_tracks_last_valid_resize(s: Driver, inputs: Seq<Input>)
    requires
        !s.exited,
        forall|i: int| 0 <= i < inputs.len() ==> is_resize(#[trigger] inputs[i]),
    ensures
        ({
            let t = state_after(s, inputs);
            let size = last_valid_size(s.presenter.config.width, s.presenter.config.height, inputs);
            &&& t.presenter.config.width == size.0
            &&& t.presenter.config.height == size.1
            &&& t.presenter.config.format == s.presenter.config.format
            &&& t.presenter.config.present_mode == s.presenter.config.present_mode
            &&& t.presenter.config.alpha_mode == s.presenter.config.alpha_mode
            &&& t.presenter.config.max_frame_latency == s.presenter.config.max_frame_latency
            &&& t.exited == s.exited
            &&& t.exit_code == s.exit_code
        }),
    decreases inputs.len(),
{
    if inputs.len() > 0 {
        let head = inputs.drop_last();
        let tail = inputs.last();
        assert(forall|i: int| 0 <= i < head.len() ==> is_resize(#[trigger] head[i]));
        lemma_config_tracks_last_valid_resize(s, head);
        lemma_state_after_push(s, head, tail);
        assert(head.push(tail) =~= inputs);
    }
}

/// A render directive drawn immediately after a valid resize to
/// `(width, height)` carries a frame of exactly those dimensions.
pub proof fn lemma_render_after_resize_matches(s: Driver, width: u32, height: u32)
    requires
        !s.exited,
        width > 0,
        height > 0,
    ensures
        ({
            let s2 = spec_handle_event(s, Event::Resized(width, height)).0;
            let d = spec_handle_event(s2, Event::RedrawRequested).1;
            &&& d is RenderFrame
            &&& d->RenderFrame_0.width == width
            &&& d->RenderFrame_0.height == height
        }),
{
}

/// A resize event with a zero dimension changes nothing: the driver state —
/// the configuration with it — is retained and nothing is ordered.
pub proof fn lemma_zero_resize_noop(s: Driver, width: u32, height: u32)
    requires
        !s.exited,
        width == 0 || height == 0,
    ensures
        spec_handle_event(s, Event::Resized(width, height)) == (s, Directive::Idle),
{
}

} // verus!
