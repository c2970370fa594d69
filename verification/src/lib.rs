//! A small playback core for frame-based animations: a wraparound-safe
//! modular frame clock, a linear animation that ties a state value, a draw
//! strategy and a clock together, and a container that binds an animation to
//! a position so that routine draw calls need no placement argument.
//!
//! Timing comes from a caller-supplied tick source, rendering goes through a
//! caller-supplied draw strategy, and placement is read and written through a
//! uniform shape capability; the core itself only decides which frame is
//! current.

mod contained;
mod linear;

pub use crate::contained::BasicAnimationContainer;
pub use crate::linear::{
    AlwaysFails, DrawRecord, DrawStrategy, ImageTarget, Linear, LinearConfig, SequenceDraw,
    SequenceLen, SimpleLinearConfig,
};

use vstd::prelude::*;
use vstd::arithmetic::div_mod::{
    lemma_add_mod_noop, lemma_fundamental_div_mod_converse, lemma_mod_bound, lemma_mod_twice,
};
use core::marker::PhantomData;

verus! {

/// The index the clock lands on when `ticks` fixed intervals have elapsed
/// since it stood on `at`, for a frame count of `n`.
pub open spec fn next_frame_index(at: int, ticks: int, n: int) -> int {
    (at + ticks) % n
}

/// The total number of ticks in a sequence of poll results.
pub open spec fn sum_ticks(ticks: Seq<int>) -> int
    decreases ticks.len(),
{
    if ticks.len() == 0 {
        0
    } else {
        ticks.first() + sum_ticks(ticks.drop_first())
    }
}

/// The index the clock lands on after one `advance` per entry of `ticks`,
/// starting from `at`, for a frame count of `n`.
pub open spec fn run_clock(at: int, ticks: Seq<int>, n: int) -> int
    decreases ticks.len(),
{
    if ticks.len() == 0 {
        at
    } else {
        run_clock(next_frame_index(at, ticks.first(), n), ticks.drop_first(), n)
    }
}

/// Folding ticks into the clock one poll at a time gives the mathematically
/// correct index modulo the frame count: after any non-empty sequence of
/// advances the index equals `(at + sum of all ticks) % n`, however large the
/// cumulative tick total grows.
pub proof fn lemma_run_clock_wraparound(at: int, ticks: Seq<int>, n: int)
    requires
        n > 0,
        ticks.len() > 0,
    ensures
        run_clock(at, ticks, n) == (at + sum_ticks(ticks)) % n,
    decreases ticks.len(),
{
    let first = ticks.first();
    let rest = ticks.drop_first();
    if rest.len() == 0 {
        assert(sum_ticks(rest) == 0);
        assert(run_clock(at, ticks, n) == run_clock(next_frame_index(at, first, n), rest, n));
        assert(run_clock(next_frame_index(at, first, n), rest, n) == next_frame_index(
            at,
            first,
            n,
        ));
    } else {
        lemma_run_clock_wraparound(next_frame_index(at, first, n), rest, n);
        assert(run_clock(at, ticks, n) == ((at + first) % n + sum_ticks(rest)) % n);
        lemma_add_mod_noop((at + first) % n, sum_ticks(rest), n);
        lemma_mod_twice(at + first, n);
        lemma_add_mod_noop(at + first, sum_ticks(rest), n);
        assert(((at + first) % n + sum_ticks(rest)) % n == (at + first + sum_ticks(rest)) % n);
    }
}

/// The clock is deterministic: two runs from the same starting index, with
/// the same sequence of polled ticks and the same frame count, land on the
/// same index.
pub proof fn lemma_run_clock_deterministic(
    at1: int,
    at2: int,
    ticks1: Seq<int>,
    ticks2: Seq<int>,
    n1: int,
    n2: int,
)
    requires
        at1 == at2,
        ticks1 == ticks2,
        n1 == n2,
    ensures
        run_clock(at1, ticks1, n1) == run_clock(at2, ticks2, n2),
{
}

/// An advance that observes no elapsed ticks right after a reset stays on
/// frame 0.
pub proof fn lemma_advance_after_reset(n: int)
    requires
        n > 0,
    ensures
        next_frame_index(0, 0, n) == 0,
{
    lemma_mod_bound(0, n);
}

/// The monotonic tick source: polling atomically reports and consumes the
/// number of fixed-size intervals elapsed since the previous poll.
pub trait TickSource: Sized {
    /// The ticks accumulated so far and not yet consumed by a poll.
    spec fn pending(&self) -> int;

    /// The source as one poll leaves it.
    spec fn polled(&self) -> Self;

    /// The source as a reset leaves it.
    spec fn cleared(&self) -> Self;

    /// Report and consume the accumulated ticks. Repolling without new
    /// elapsed time yields 0.
    fn poll(&mut self) -> (t: usize)
        ensures
            t as int == old(self).pending(),
            *final(self) == old(self).polled(),
    ;

    /// Zero the accumulation.
    fn reset(&mut self)
        ensures
            *final(self) == old(self).cleared(),
            final(self).pending() == 0,
    ;
}

/// A deterministic tick source driven by a fixed script: each poll consumes
/// and yields the next entry, and 0 once the script is exhausted.
pub struct ScriptedTicks {
    pub script: Vec<usize>,
    pub pos: usize,
}

impl ScriptedTicks {
    pub fn new(script: Vec<usize>) -> (r: Self)
        ensures
            r.script == script,
            r.pos == 0,
    {
        ScriptedTicks { script, pos: 0 }
    }
}

impl TickSource for ScriptedTicks {
    open spec fn pending(&self) -> int {
        if self.pos < self.script.len() {
            self.script[self.pos as int] as int
        } else {
            0
        }
    }

    open spec fn polled(&self) -> ScriptedTicks {
        ScriptedTicks {
            script: self.script,
            pos: if self.pos < self.script.len() {
                (self.pos + 1) as usize
            } else {
                self.pos
            },
        }
    }

    open spec fn cleared(&self) -> ScriptedTicks {
        ScriptedTicks { script: self.script, pos: self.script.len() as usize }
    }

    fn poll(&mut self) -> (t: usize) {
        if self.pos < self.script.len() {
            let t = self.script[self.pos];
            self.pos = self.pos + 1;
            t
        } else {
            0
        }
    }

    fn reset(&mut self) {
        self.pos = self.script.len();
    }
}

/// A tick source fed by hand: the caller stores the ticks that its own
/// external timer reports, and the next poll consumes them. This is the
/// bridge to timers the library cannot hold itself, such as a wall-clock
/// timer owned by a rendering backend.
#[derive(Clone, Copy, PartialEq, Eq, Structural, Debug)]
pub struct ManualTicks {
    /// The ticks handed over since the last poll.
    pub count: usize,
}

impl ManualTicks {
    pub fn new() -> (r: ManualTicks)
        ensures
            r.count == 0,
    {
        ManualTicks { count: 0 }
    }

    /// Hand over the ticks an external timer reported, to be consumed by the
    /// next poll.
    pub fn supply(&mut self, ticks: usize)
        ensures
            final(self).count == ticks,
    {
        self.count = ticks;
    }
}

impl TickSource for ManualTicks {
    open spec fn pending(&self) -> int {
        self.count as int
    }

    open spec fn polled(&self) -> ManualTicks {
        ManualTicks { count: 0 }
    }

    open spec fn cleared(&self) -> ManualTicks {
        ManualTicks { count: 0 }
    }

    fn poll(&mut self) -> (t: usize) {
        let t = self.count;
        self.count = 0;
        t
    }

    fn reset(&mut self) {
        self.count = 0;
    }
}

/// The frame-count capability: reports how many frames the animation has
/// before it loops, re-evaluated from the current state on demand.
pub trait FrameCount<T> {
    /// The frame count the capability reports for a given state.
    spec fn spec_max(&self, state: T) -> int;

    fn max_frames(&self, state: &T) -> (n: usize)
        ensures
            n as int == self.spec_max(*state),
    ;
}

/// A frame count that ignores the state and always reports a fixed number.
#[derive(Clone, Copy, PartialEq, Eq, Structural, Debug)]
pub struct ConstantFrames {
    pub count: usize,
}

impl<T> FrameCount<T> for ConstantFrames {
    open spec fn spec_max(&self, _state: T) -> int {
        self.count as int
    }

    fn max_frames(&self, _state: &T) -> (n: usize) {
        self.count
    }
}

/// The wraparound-safe modular frame clock: it decides what frame the
/// animation is currently at, folding polled ticks into a bounded index, and
/// automatically wraps back to 0.
pub struct AnimationTimer<T, MaxFrames, Ticks> {
    pub timer: Ticks,
    pub at_frame: usize,
    pub max_frames: MaxFrames,
    pub _t: PhantomData<T>,
}

impl<T, MaxFrames, Ticks> AnimationTimer<T, MaxFrames, Ticks> where
    MaxFrames: FrameCount<T>,
    Ticks: TickSource,
 {
    pub fn new(max_frames: MaxFrames, timer: Ticks) -> (r: AnimationTimer<T, MaxFrames, Ticks>)
        ensures
            r.timer == timer,
            r.max_frames == max_frames,
            r.at_frame == 0,
    {
        Self { timer, max_frames, at_frame: 0, _t: PhantomData }
    }

    /// Poll the tick source once and fold the elapsed ticks into the frame
    /// index, modulo the frame count that the capability reports for the
    /// given state right now. The index stays in range whatever the elapsed
    /// tick count, even one whose addition would overflow.
    pub fn get_current_frame(&mut self, state: &T) -> (frame: usize)
        requires
            old(self).max_frames.spec_max(*state) > 0,
        ensures
            frame == final(self).at_frame,
            final(self).at_frame as int == next_frame_index(
                old(self).at_frame as int,
                old(self).timer.pending(),
                old(self).max_frames.spec_max(*state),
            ),
            0 <= (final(self).at_frame as int) < old(self).max_frames.spec_max(*state),
            final(self).max_frames == old(self).max_frames,
            final(self).timer == old(self).timer.polled(),
    {
        let ghost n_spec = self.max_frames.spec_max(*state);
        let ghost at0 = self.at_frame as int;
        let frames_passed = self.timer.poll();

        match frames_passed.checked_add(self.at_frame) {
            Some(x) => {
                let n = self.max_frames.max_frames(state);
                self.at_frame = x % n;
                proof {
                    lemma_mod_bound(x as int, n as int);
                }
            },
            None => {
                // The direct sum overflowed, and the index itself may be
                // close to the integer limit, so both summands are reduced
                // below `max_size` first; their sum then stays below
                // `2 * max_size` and one conditional subtraction brings it
                // into range without any further arithmetic that could wrap.
                let max_size = self.max_frames.max_frames(state);
                let bound_to_frame = frames_passed % max_size;
                let bound_at = self.at_frame % max_size;
                proof {
                    lemma_mod_bound(frames_passed as int, max_size as int);
                    lemma_mod_bound(at0, max_size as int);
                }
                let next = if bound_at >= max_size - bound_to_frame {
                    bound_at - (max_size - bound_to_frame)
                } else {
                    bound_at + bound_to_frame
                };
                proof {
                    lemma_fundamental_div_mod_converse(
                        bound_at + bound_to_frame,
                        n_spec,
                        if bound_at + bound_to_frame >= n_spec { 1int } else { 0int },
                        next as int,
                    );
                    lemma_add_mod_noop(at0, frames_passed as int, n_spec);
                    lemma_mod_bound(at0 + frames_passed as int, n_spec);
                }
                self.at_frame = next;
            },
        }
        self.at_frame
    }

    /// Go back to the first frame and zero the tick source's accumulation.
    /// Idempotent.
    pub fn reset(&mut self)
        ensures
            final(self).at_frame == 0,
            final(self).timer == old(self).timer.cleared(),
            final(self).timer.pending() == 0,
            final(self).max_frames == old(self).max_frames,
    {
        self.at_frame = 0;
        self.timer.reset();
    }
}

/// A position or a width/height pair, in whole pixels.
#[derive(Clone, Copy, PartialEq, Eq, Structural, Debug)]
pub struct Vector {
    pub x: i32,
    pub y: i32,
}

/// An axis-aligned rectangle: a position and a size.
#[derive(Clone, Copy, PartialEq, Eq, Structural, Debug)]
pub struct Rectangle {
    pub pos: Vector,
    pub size: Vector,
}

/// A circle: a position and a radius.
#[derive(Clone, Copy, PartialEq, Eq, Structural, Debug)]
pub struct Circle {
    pub pos: Vector,
    pub radius: i32,
}

/// A bare-bones animation: something that can be drawn at a given location.
/// Its `draw_pre` and `draw_post` name, per implementor, the condition under
/// which a draw call is allowed and the exact effect one call has.
pub trait BasicAnimation<Size, Combined, Gfx, E>: Sized where Combined: AnimationShape<Size> {
    /// When a draw call is allowed.
    spec fn draw_pre(&self) -> bool;

    /// What one draw call does: how the animation and the render target
    /// change, and what result comes back.
    spec fn draw_post(
        &self,
        new: Self,
        old_gfx: Gfx,
        new_gfx: Gfx,
        location: Combined,
        r: Result<(), E>,
    ) -> bool;

    /// Draw the animation at the given location.
    fn draw(&mut self, gfx: &mut Gfx, location: Combined) -> (r: Result<(), E>)
        requires
            old(self).draw_pre(),
        ensures
            old(self).draw_post(*final(self), *old(gfx), *final(gfx), location, r),
    ;

    /// Turn the animation into a `ContainedAnimation` at the given location.
    ///
    /// This can make it easier to draw if the location (almost) never
    /// changes.
    fn contain(self, location: Combined) -> (r: BasicAnimationContainer<Self, Size, Combined>)
        ensures
            r.animation == self,
            r.location == location,
    {
        BasicAnimationContainer { location, animation: self, _size: PhantomData }
    }
}

/// The same as `BasicAnimation`, but in control of its own position: draw
/// calls need no location argument, and the held shape can still be read and
/// written, without ever touching the playback state.
pub trait ContainedAnimation<Size, Combined, Gfx, E>: Sized where
    Combined: AnimationShape<Size>,
 {
    /// The shape the animation currently holds.
    spec fn spec_shape(&self) -> Combined;

    /// When a draw call is allowed.
    spec fn draw_pre(&self) -> bool;

    /// What one draw call does.
    spec fn draw_post(&self, new: Self, old_gfx: Gfx, new_gfx: Gfx, r: Result<(), E>) -> bool;

    /// Draw the animation at the held shape. The held shape itself is left
    /// unchanged.
    fn draw(&mut self, gfx: &mut Gfx) -> (r: Result<(), E>)
        requires
            old(self).draw_pre(),
        ensures
            old(self).draw_post(*final(self), *old(gfx), *final(gfx), r),
            final(self).spec_shape() == old(self).spec_shape(),
    ;

    /// Move the held shape; size and playback state stay as they were.
    fn set_location(&mut self, location: Vector)
        ensures
            final(self).spec_shape().spec_location() == location,
            final(self).spec_shape().spec_size() == old(self).spec_shape().spec_size(),
            final(self).draw_pre() == old(self).draw_pre(),
    ;

    /// Resize the held shape; position and playback state stay as they were.
    fn set_size(&mut self, size: Size)
        ensures
            final(self).spec_shape().spec_size() == size,
            final(self).spec_shape().spec_location() == old(self).spec_shape().spec_location(),
            final(self).draw_pre() == old(self).draw_pre(),
    ;

    /// A copy of the held shape, as it would be used by the next draw call.
    fn get_draw_pos(&self) -> (r: Combined)
        ensures
            r == self.spec_shape(),
    ;

    fn get_position(&self) -> (l: Vector)
        ensures
            l == self.spec_shape().spec_location(),
    ;

    fn get_size(&self) -> (s: Size)
        ensures
            s == self.spec_shape().spec_size(),
    ;
}

/// Implemented when outside sources can change the state the animation is
/// in. `spec_state` names, per implementor, the state that the accessors
/// read and write.
pub trait EditableState<T>: Sized {
    /// The state the animation currently holds.
    spec fn spec_state(&self) -> T;

    fn set_state(&mut self, new_state: T)
        ensures
            final(self).spec_state() == new_state,
    ;

    fn get_state(&self) -> (r: &T)
        ensures
            *r == self.spec_state(),
    ;
}

/// Implemented when an animation can be reset (go back to the first frame).
/// `spec_reset` names, per implementor, the exact relation between the value
/// before and after a reset.
pub trait Resetable: Sized {
    /// How the value after a reset relates to the value before it.
    spec fn spec_reset(&self, new: Self) -> bool;

    fn reset(&mut self)
        ensures
            old(self).spec_reset(*final(self)),
    ;
}

/// The capability that lets animations read and write a location and a
/// size-like quantity uniformly over several shape kinds, so that an
/// animation can be based on rectangles, circles, and so on.
pub trait AnimationShape<Size>: Sized {
    /// The size-like quantity the shape carries (a pair for rectangles, a
    /// radius for circles).
    spec fn spec_size(&self) -> Size;

    /// The position the shape carries.
    spec fn spec_location(&self) -> Vector;

    fn get_size(&self) -> (s: Size)
        ensures
            s == self.spec_size(),
    ;

    fn get_location(&self) -> (l: Vector)
        ensures
            l == self.spec_location(),
    ;

    fn set_size(&mut self, size: Size)
        ensures
            final(self).spec_size() == size,
            final(self).spec_location() == old(self).spec_location(),
    ;

    fn set_location(&mut self, location: Vector)
        ensures
            final(self).spec_location() == location,
            final(self).spec_size() == old(self).spec_size(),
    ;

    /// A cheap copy of both fields as of the call.
    fn get_both(&self) -> (r: Self)
        ensures
            r == *self,
    ;
}

impl AnimationShape<Vector> for Rectangle {
    open spec fn spec_size(&self) -> Vector {
        self.size
    }

    open spec fn spec_location(&self) -> Vector {
        self.pos
    }

    fn get_size(&self) -> (s: Vector) {
        self.size
    }

    fn get_location(&self) -> (l: Vector) {
        self.pos
    }

    fn set_size(&mut self, size: Vector) {
        self.size = size;
    }

    fn set_location(&mut self, location: Vector) {
        self.pos = location;
    }

    fn get_both(&self) -> (r: Self) {
        *self
    }
}

impl AnimationShape<i32> for Circle {
    open spec fn spec_size(&self) -> i32 {
        self.radius
    }

    open spec fn spec_location(&self) -> Vector {
        self.pos
    }

    fn get_size(&self) -> (s: i32) {
        self.radius
    }

    fn get_location(&self) -> (l: Vector) {
        self.pos
    }

    fn set_size(&mut self, size: i32) {
        self.radius = size;
    }

    fn set_location(&mut self, location: Vector) {
        self.pos = location;
    }

    fn get_both(&self) -> (r: Self) {
        *self
    }
}

} // verus!
