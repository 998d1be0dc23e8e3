use vstd::prelude::*;

use crate::color::{hsv_to_rgb, Hsv, Rgb};
use crate::pulse::{frame_of, lemma_black_frame, PulsePair};
use crate::scene::{advance, command_for, feedback, feedback_for, next_scene, SceneCommand};

verus! {

/// Time between two samples of the input line, in milliseconds, unless the
/// caller chooses another. A press shorter than this may go unseen.
pub const POLL_PERIOD_MS: u64 = 100;

/// One sample of the button's input line. The line is pulled up, so it reads
/// low while the button is held down.
#[derive(Clone, Copy, Debug, PartialEq, Eq, Structural)]
pub enum Level {
    Low,
    High,
}

/// Whether the press that is under way has been acted upon.
#[derive(Clone, Copy, Debug, PartialEq, Eq, Structural)]
pub enum Phase {
    /// No press is under way, or none has been seen yet.
    Idle,
    /// The button is down and its press has been acted upon.
    Handled,
}

/// What the caller has to carry out after a sample.
#[derive(Clone, Copy, Debug, PartialEq, Eq, Structural)]
pub enum Action {
    /// Nothing: the button is still held down.
    Rest,
    /// The button went down: show `feedback` on the pixel, then send
    /// `command` to the lamp.
    Press { feedback: Hsv, command: SceneCommand },
    /// The button is up: show `feedback` on the pixel.
    Release { feedback: Hsv },
}

/// The controller as a value: the scene that the next press selects, and the
/// phase of the press under way.
#[derive(Clone, Copy, Debug, PartialEq, Eq, Structural)]
pub struct ControllerState {
    pub scene: u8,
    pub phase: Phase,
}

impl ControllerState {
    /// The scene is one of the two.
    pub open spec fn wf(self) -> bool {
        self.scene < 2
    }
}

/// The state of a controller that has seen no sample: scene 0, no press.
pub open spec fn initial_state() -> ControllerState {
    ControllerState { scene: 0, phase: Phase::Idle }
}

/// The request that turns the pixel off.
pub open spec fn off_request() -> Hsv {
    Hsv { h: 0, s: 0, v: 0 }
}

/// The state after a sample.
///
/// A low sample in phase `Idle` moves on to the next scene and marks the press
/// as handled; further low samples change nothing. A high sample ends the
/// press.
pub open spec fn step(state: ControllerState, level: Level) -> ControllerState {
    match level {
        Level::High => ControllerState { scene: state.scene, phase: Phase::Idle },
        Level::Low => match state.phase {
            Phase::Idle => ControllerState {
                scene: next_scene(state.scene),
                phase: Phase::Handled,
            },
            Phase::Handled => state,
        },
    }
}

/// What a sample asks the caller to do.
///
/// A low sample in phase `Idle` is a press: it selects the scene of the state
/// and shows that scene's colour. A high sample turns the pixel off.
pub open spec fn action(state: ControllerState, level: Level) -> Action {
    match level {
        Level::High => Action::Release { feedback: off_request() },
        Level::Low => match state.phase {
            Phase::Idle => Action::Press {
                feedback: feedback_for(state.scene),
                command: command_for(state.scene),
            },
            Phase::Handled => Action::Rest,
        },
    }
}

/// The state after a run of samples, the first sample first.
pub open spec fn run(state: ControllerState, levels: Seq<Level>) -> ControllerState
    decreases levels.len(),
{
    if levels.len() == 0 {
        state
    } else {
        step(run(state, levels.drop_last()), levels.last())
    }
}

/// The actions that a run of samples asks for, one per sample.
pub open spec fn trace(state: ControllerState, levels: Seq<Level>) -> Seq<Action>
    decreases levels.len(),
{
    if levels.len() == 0 {
        Seq::empty()
    } else {
        trace(state, levels.drop_last()).push(
            action(run(state, levels.drop_last()), levels.last()),
        )
    }
}

/// The commands among some actions, in order.
pub open spec fn commands(actions: Seq<Action>) -> Seq<SceneCommand>
    decreases actions.len(),
{
    if actions.len() == 0 {
        Seq::empty()
    } else {
        match actions.last() {
            Action::Press { feedback, command } => commands(actions.drop_last()).push(command),
            _ => commands(actions.drop_last()),
        }
    }
}

/// The same level, sampled `n` times in a row.
pub open spec fn held(level: Level, n: nat) -> Seq<Level> {
    Seq::new(n, |i: int| level)
}

/// The debounced button and the scene it toggles.
///
/// The caller samples the input line once per polling cycle, hands the sample
/// to [`InputController::poll`] and carries out the action it returns. A caller
/// that cannot carry an action out stops polling: the controller has moved on
/// and nothing is tried a second time.
#[derive(Debug, PartialEq, Eq)]
pub struct InputController {
    scene: u8,
    phase: Phase,
}

impl View for InputController {
    type V = ControllerState;

    closed spec fn view(&self) -> ControllerState {
        ControllerState { scene: self.scene, phase: self.phase }
    }
}

impl InputController {
    #[verifier::type_invariant]
    spec fn scene_in_domain(self) -> bool {
        self.scene < 2
    }

    /// A controller at scene 0 that has seen no press.
    pub fn new() -> (controller: InputController)
        ensures
            controller@ == initial_state(),
    {
        InputController { scene: 0, phase: Phase::Idle }
    }

    /// The scene that the next press selects.
    pub fn scene(&self) -> (scene: u8)
        ensures
            scene == self@.scene,
            scene < 2,
    {
        proof {
            use_type_invariant(self);
        }
        self.scene
    }

    /// The phase of the press under way.
    pub fn phase(&self) -> (phase: Phase)
        ensures
            phase == self@.phase,
    {
        self.phase
    }

    /// Takes one sample of the input line and says what to do about it.
    pub fn poll(&mut self, level: Level) -> (act: Action)
        ensures
            old(self)@.wf(),
            final(self)@.wf(),
            final(self)@ == step(old(self)@, level),
            act == action(old(self)@, level),
    {
        proof {
            use_type_invariant(&*self);
        }
        match level {
            Level::High => {
                self.phase = Phase::Idle;
                Action::Release { feedback: Hsv { h: 0, s: 0, v: 0 } }
            },
            Level::Low => match self.phase {
                Phase::Idle => {
                    let request: Hsv = feedback(self.scene);
                    let command: SceneCommand = SceneCommand::for_scene(self.scene);
                    self.scene = advance(self.scene);
                    self.phase = Phase::Handled;
                    Action::Press { feedback: request, command }
                },
                Phase::Handled => Action::Rest,
            },
        }
    }
}

/// A sample never takes the scene out of its domain.
pub proof fn lemma_step_keeps_scene(state: ControllerState, level: Level)
    requires
        state.wf(),
    ensures
        step(state, level).wf(),
{
}

/// Whatever colour an action asks for can be shown: the request is a valid
/// HSV triple.
pub proof fn lemma_requests_valid(state: ControllerState, level: Level)
    requires
        state.wf(),
    ensures
        action(state, level) matches Action::Press { feedback, command } ==> feedback.is_valid(),
        action(state, level) matches Action::Release { feedback } ==> feedback.is_valid(),
{
}

/// Releasing the button turns the pixel off, whatever the scene and whether or
/// not a press was under way: the colour asked for is black, and its frame
/// holds nothing but 0 bits. The scene stays and the controller is ready for
/// the next press.
pub proof fn lemma_release_turns_pixel_off(state: ControllerState)
    ensures
        action(state, Level::High) == (Action::Release { feedback: off_request() }),
        off_request().is_valid(),
        hsv_to_rgb(0, 0, 0) == (Rgb { r: 0, g: 0, b: 0 }),
        frame_of(hsv_to_rgb(0, 0, 0)) == Seq::new(24, |i: int| PulsePair::of_bit(false)),
        step(state, Level::High).phase == Phase::Idle,
        step(state, Level::High).scene == state.scene,
{
    lemma_black_frame();
}

/// Running two runs of samples one after the other is running their
/// concatenation, and the actions come out in the same order.
pub proof fn lemma_run_concat(state: ControllerState, first: Seq<Level>, second: Seq<Level>)
    ensures
        run(state, first + second) == run(run(state, first), second),
        trace(state, first + second) == trace(state, first) + trace(run(state, first), second),
    decreases second.len(),
{
    if second.len() == 0 {
        assert(first + second =~= first);
    } else {
        lemma_run_concat(state, first, second.drop_last());
        assert((first + second).drop_last() =~= first + second.drop_last());
        assert((first + second).last() == second.last());
    }
}

/// Holding the button down for any number of polling cycles, one or more,
/// counts as one press: the first sample asks for the feedback colour and the
/// command of the scene, every later sample asks for nothing, and the scene
/// moves on once.
pub proof fn lemma_hold_acts_once(state: ControllerState, n: nat)
    requires
        state.phase == Phase::Idle,
        n >= 1,
    ensures
        run(state, held(Level::Low, n)) == (ControllerState {
            scene: next_scene(state.scene),
            phase: Phase::Handled,
        }),
        trace(state, held(Level::Low, n)) == seq![
            Action::Press { feedback: feedback_for(state.scene), command: command_for(state.scene) },
        ] + Seq::new((n - 1) as nat, |i: int| Action::Rest),
        commands(trace(state, held(Level::Low, n))) == seq![command_for(state.scene)],
    decreases n,
{
    let lows = held(Level::Low, n);
    let before = lows.drop_last();
    let actions = trace(state, lows);
    assert(before =~= held(Level::Low, (n - 1) as nat));
    if n == 1 {
        assert(trace(state, before) =~= Seq::<Action>::empty());
        assert(actions.drop_last() =~= Seq::<Action>::empty());
        assert(commands(actions.drop_last()) =~= Seq::<SceneCommand>::empty());
    } else {
        lemma_hold_acts_once(state, (n - 1) as nat);
        assert(actions.last() == Action::Rest);
        assert(actions.drop_last() =~= trace(state, before));
    }
}

/// Once a press has been acted upon, holding the button further asks for
/// nothing and changes nothing, however long it lasts.
pub proof fn lemma_handled_hold_rests(state: ControllerState, n: nat)
    requires
        state.phase == Phase::Handled,
    ensures
        run(state, held(Level::Low, n)) == state,
        trace(state, held(Level::Low, n)) == Seq::new(n, |i: int| Action::Rest),
        commands(trace(state, held(Level::Low, n))) == Seq::<SceneCommand>::empty(),
    decreases n,
{
    if n > 0 {
        let lows = held(Level::Low, n);
        let before = lows.drop_last();
        let actions = trace(state, lows);
        assert(before =~= held(Level::Low, (n - 1) as nat));
        lemma_handled_hold_rests(state, (n - 1) as nat);
        assert(actions.last() == Action::Rest);
        assert(actions.drop_last() =~= trace(state, before));
    }
}

/// While the button is up the scene stays, the controller is ready for the
/// next press, and every sample asks for the pixel to be turned off.
pub proof fn lemma_hold_releases(state: ControllerState, n: nat)
    requires
        n >= 1,
    ensures
        run(state, held(Level::High, n)) == (ControllerState {
            scene: state.scene,
            phase: Phase::Idle,
        }),
        trace(state, held(Level::High, n)) == Seq::new(
            n,
            |i: int| Action::Release { feedback: off_request() },
        ),
        commands(trace(state, held(Level::High, n))) == Seq::<SceneCommand>::empty(),
    decreases n,
{
    let highs = held(Level::High, n);
    let before = highs.drop_last();
    let actions = trace(state, highs);
    assert(before =~= held(Level::High, (n - 1) as nat));
    if n == 1 {
        assert(trace(state, before) =~= Seq::<Action>::empty());
    } else {
        lemma_hold_releases(state, (n - 1) as nat);
    }
    assert(actions.last() == (Action::Release { feedback: off_request() }));
    assert(actions.drop_last() =~= trace(state, before));
    assert(commands(actions) == commands(trace(state, before)));
}

/// Two presses in a row bring the scene back to where it was, however long
/// each press is held and however long the button is up in between. After the
/// first press the scene is the other one.
pub proof fn lemma_two_presses_restore_scene(
    state: ControllerState,
    first: nat,
    gap: nat,
    second: nat,
)
    requires
        state.wf(),
        state.phase == Phase::Idle,
        first >= 1,
        gap >= 1,
        second >= 1,
    ensures
        next_scene(next_scene(state.scene)) == state.scene,
        run(state, held(Level::Low, first)).scene != state.scene,
        run(
            state,
            held(Level::Low, first) + held(Level::High, gap) + held(Level::Low, second),
        ).scene == state.scene,
{
    let down = held(Level::Low, first);
    let up = held(Level::High, gap);
    let again = held(Level::Low, second);
    lemma_hold_acts_once(state, first);
    let pressed = run(state, down);
    lemma_hold_releases(pressed, gap);
    let released = run(pressed, up);
    lemma_hold_acts_once(released, second);
    lemma_run_concat(state, down, up);
    lemma_run_concat(state, down + up, again);
}

} // verus!
