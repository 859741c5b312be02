//! The frame loop as a state machine.
//!
//! The generator never touches the strip. Each step names one thing for the
//! caller to do: hand a pixel word to the strip, or pause between frames. The
//! caller does it and steps again; if the strip fails, the caller stops
//! stepping.

use vstd::prelude::*;
use crate::animation::{
    frame_after, frame_words, led_word, next_frame, pixel_word, COLOR_SPEED, FRAME_DELAY_MS,
    PIXEL_COUNT,
};

verus! {

/// What the caller is to do before the next step.
#[derive(Clone, Copy, Debug, PartialEq, Eq, Structural)]
pub enum Action {
    /// Hand `word` to the strip, waiting for room if `blocking` is set.
    Write { word: u32, blocking: bool },
    /// Pause for `millis` milliseconds.
    Sleep { millis: u64 },
}

/// The state of a generator: whether it has been started, the frame it is
/// in, and how many LEDs of that frame have been handed out.
pub struct GeneratorState {
    pub running: bool,
    pub frame: u16,
    pub led: nat,
}

impl GeneratorState {
    /// No more LEDs have been handed out than the strip has.
    pub open spec fn valid(self) -> bool {
        self.led <= PIXEL_COUNT
    }

    /// What a step asks for in this state: nothing before the start, then
    /// the word of the next LED, and a pause once the frame is out.
    pub open spec fn action(self) -> Option<Action> {
        if !self.running {
            None
        } else if self.led < PIXEL_COUNT {
            Some(Action::Write { word: led_word(self.frame, self.led as int), blocking: true })
        } else {
            Some(Action::Sleep { millis: FRAME_DELAY_MS })
        }
    }

    /// The state a step leaves: the next LED of the frame, or after the
    /// pause the first LED of the next frame. Before the start nothing moves.
    pub open spec fn next(self) -> GeneratorState {
        if !self.running {
            self
        } else if self.led < PIXEL_COUNT {
            GeneratorState { led: self.led + 1, ..self }
        } else {
            GeneratorState { frame: frame_after(self.frame), led: 0, ..self }
        }
    }

    /// The state after `steps` steps.
    pub open spec fn after(self, steps: nat) -> GeneratorState
        decreases steps,
    {
        if steps == 0 {
            self
        } else {
            self.next().after((steps - 1) as nat)
        }
    }
}

/// The animation's frame loop, one step at a time.
pub struct Generator {
    running: bool,
    frame: u16,
    led: usize,
}

impl View for Generator {
    type V = GeneratorState;

    closed spec fn view(&self) -> GeneratorState {
        GeneratorState { running: self.running, frame: self.frame, led: self.led as nat }
    }
}

impl Generator {
    #[verifier::type_invariant]
    spec fn inv(self) -> bool {
        self.led <= PIXEL_COUNT
    }

    /// A generator at the first LED of frame 0, not yet started.
    pub fn new() -> (generator: Self)
        ensures
            generator@ == (GeneratorState { running: false, frame: 0, led: 0 }),
    {
        Generator { running: false, frame: 0, led: 0 }
    }

    /// Starts the generator. One that is running already is left as it is.
    pub fn start(&mut self)
        ensures
            final(self)@ == (GeneratorState { running: true, ..old(self)@ }),
            final(self)@.valid(),
    {
        proof {
            use_type_invariant(&*self);
        }
        self.running = true;
    }

    /// Whether the generator has been started.
    pub fn is_running(&self) -> (running: bool)
        ensures
            running == self@.running,
    {
        self.running
    }

    /// The counter of the frame the generator is in.
    pub fn frame(&self) -> (frame: u16)
        ensures
            frame == self@.frame,
    {
        self.frame
    }

    /// How many LEDs of the frame have been handed out.
    pub fn led(&self) -> (led: usize)
        ensures
            led == self@.led,
            led <= PIXEL_COUNT,
            self@.valid(),
    {
        proof {
            use_type_invariant(self);
        }
        self.led
    }

    /// Takes one step: says what the caller is to do now, and moves on.
    /// Before the start there is nothing to do and nothing moves.
    pub fn step(&mut self) -> (action: Option<Action>)
        ensures
            action == old(self)@.action(),
            final(self)@ == old(self)@.next(),
            final(self)@.valid(),
    {
        proof {
            use_type_invariant(&*self);
        }
        if !self.running {
            None
        } else if self.led < PIXEL_COUNT {
            let word = pixel_word(self.frame, self.led);
            self.led = self.led + 1;
            Some(Action::Write { word, blocking: true })
        } else {
            self.frame = next_frame(self.frame);
            self.led = 0;
            Some(Action::Sleep { millis: FRAME_DELAY_MS })
        }
    }
}

/// A step keeps a valid state valid.
pub proof fn step_keeps_valid(s: GeneratorState)
    requires
        s.valid(),
    ensures
        s.next().valid(),
{
}

/// Steps add up: `a + b` steps are `a` steps and then `b` more.
pub proof fn steps_add_up(s: GeneratorState, a: nat, b: nat)
    ensures
        s.after(a + b) == s.after(a).after(b),
    decreases a,
{
    if a > 0 {
        steps_add_up(s.next(), (a - 1) as nat, b);
    }
}

/// A generator that was never started asks for nothing and stays where it
/// is, however often it is stepped.
pub proof fn idle_generator_rests(s: GeneratorState, steps: nat)
    requires
        !s.running,
    ensures
        s.after(steps) == s,
        s.after(steps).action() is None,
    decreases steps,
{
    if steps > 0 {
        idle_generator_rests(s.next(), (steps - 1) as nat);
    }
}

/// Within a frame a running generator only moves along the strip: while LEDs
/// are left, `steps` steps hand out `steps` of them and leave the frame
/// counter alone.
pub proof fn steps_within_frame(s: GeneratorState, steps: nat)
    requires
        s.running,
        s.led + steps <= PIXEL_COUNT,
    ensures
        s.after(steps) == (GeneratorState { led: s.led + steps, ..s }),
    decreases steps,
{
    if steps > 0 {
        steps_within_frame(s.next(), (steps - 1) as nat);
    }
}

/// One turn of the frame loop. From the first LED of a frame, a running
/// generator asks for the words of that frame in strip order, each written
/// with blocking set, then for the pause, and stands at the first LED of the
/// next frame after that.
pub proof fn frame_cycle(s: GeneratorState)
    requires
        s.running,
        s.led == 0,
    ensures
        forall|k: nat|
            k < PIXEL_COUNT ==> #[trigger] s.after(k).action() == Some(
                Action::Write { word: frame_words(s.frame)[k as int], blocking: true },
            ),
        s.after(PIXEL_COUNT as nat).action() == Some(Action::Sleep { millis: FRAME_DELAY_MS }),
        s.after((PIXEL_COUNT + 1) as nat) == (GeneratorState {
            frame: frame_after(s.frame),
            led: 0,
            ..s
        }),
{
    assert forall|k: nat| k < PIXEL_COUNT implies #[trigger] s.after(k).action() == Some(
        Action::Write { word: frame_words(s.frame)[k as int], blocking: true },
    ) by {
        steps_within_frame(s, k);
    }
    steps_within_frame(s, PIXEL_COUNT as nat);
    lemma_frame_turn(s);
}

proof fn lemma_frame_turn(s: GeneratorState)
    requires
        s.running,
        s.led == 0,
    ensures
        s.after((PIXEL_COUNT + 1) as nat) == (GeneratorState {
            frame: frame_after(s.frame),
            led: 0,
            ..s
        }),
{
    steps_within_frame(s, PIXEL_COUNT as nat);
    steps_add_up(s, PIXEL_COUNT as nat, 1);
    let last = s.after(PIXEL_COUNT as nat);
    assert(last.after(1) == last.next().after(0));
}

proof fn lemma_counter_chain(frame: u16, rest: nat)
    ensures
        frame_after_many(frame_after(frame), rest) == frame_after_many(frame, rest + 1),
        frame_after_many(frame, 0) == frame,
{
    assert((rest + 1) * COLOR_SPEED == rest * COLOR_SPEED + COLOR_SPEED && 0 * COLOR_SPEED == 0)
        by (nonlinear_arith);
}

/// The frame counter `frames` frames after `frame`: `COLOR_SPEED` further
/// for each, wrapped to 16 bits.
pub open spec fn frame_after_many(frame: u16, frames: nat) -> u16 {
    ((frame + frames * COLOR_SPEED) % 0x1_0000) as u16
}

/// Any number of turns of the frame loop. From the first LED of a frame, a
/// running generator that has gone through `frames` whole frames stands at
/// the first LED again, its counter advanced by `COLOR_SPEED` for each frame
/// and wrapped to 16 bits.
pub proof fn frames_advance_counter(s: GeneratorState, frames: nat)
    requires
        s.running,
        s.led == 0,
    ensures
        s.after(frames * (PIXEL_COUNT + 1) as nat) == (GeneratorState {
            frame: frame_after_many(s.frame, frames),
            led: 0,
            ..s
        }),
    decreases frames,
{
    let turn = (PIXEL_COUNT + 1) as nat;
    if frames == 0 {
        lemma_counter_chain(s.frame, 0);
        assert(frames * turn == 0) by (nonlinear_arith)
            requires
                frames == 0,
        ;
    } else {
        let rest = (frames - 1) as nat;
        lemma_counter_chain(s.frame, rest);
        lemma_frame_turn(s);
        frames_advance_counter(s.after(turn), rest);
        assert(frames * turn == turn + rest * turn) by (nonlinear_arith)
            requires
                frames == rest + 1,
        ;
        steps_add_up(s, turn, rest * turn);
    }
}

} // verus!
