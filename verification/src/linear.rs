//! The linear animation systems: a draw-strategy capability, the sequence
//! specialization that renders a list of frame resources in order, and the
//! `Linear` backbone that ties a state value, a draw strategy and the frame
//! clock together into a drawable, resettable unit.

use crate::{
    next_frame_index, AnimationTimer, BasicAnimation, EditableState, FrameCount, Rectangle,
    Resetable, TickSource, Vector,
};
use vstd::prelude::*;

verus! {

/// The render-target capability that the sequence specialization draws
/// through: "draw this frame resource at this rectangle". A target records,
/// abstractly, the sequence of draw operations it has received.
pub trait ImageTarget<R>: Sized {
    /// The draw operations the target has received so far, each a frame
    /// resource and the rectangle it was drawn at.
    spec fn drawn(&self) -> Seq<(R, Rectangle)>;

    fn draw_image(&mut self, image: &R, location: Rectangle)
        ensures
            final(self).drawn() == old(self).drawn().push((*image, location)),
    ;
}

/// An `ImageTarget` that simply records every draw operation it receives, in
/// order.
pub struct DrawRecord<R> {
    pub entries: Vec<(R, Rectangle)>,
}

impl<R> DrawRecord<R> {
    pub fn new() -> (r: DrawRecord<R>)
        ensures
            r.entries@ == Seq::<(R, Rectangle)>::empty(),
    {
        DrawRecord { entries: Vec::new() }
    }
}

impl<R: Copy> ImageTarget<R> for DrawRecord<R> {
    open spec fn drawn(&self) -> Seq<(R, Rectangle)> {
        self.entries@
    }

    fn draw_image(&mut self, image: &R, location: Rectangle) {
        self.entries.push((*image, location));
    }
}

/// The draw-strategy capability: the function that actually draws the
/// current animation frame, given the state, the frame index, a render
/// target and a location. It may mutate the state as a side effect.
pub trait DrawStrategy<T, Gfx, E> {
    /// The frame indices the strategy may be handed for a given state. The
    /// frame count and this range must agree (see `Linear::wf`); handing the
    /// strategy an index outside it is a contract violation, not a
    /// recoverable error.
    spec fn frame_in_range(&self, state: T, frame: int) -> bool;

    /// What one strategy call does: how the state and the target change and
    /// what result comes back, for the frame index it was handed.
    spec fn strategy_post(
        &self,
        old_state: T,
        new_state: T,
        old_gfx: Gfx,
        new_gfx: Gfx,
        frame: int,
        location: Rectangle,
        r: Result<(), E>,
    ) -> bool;

    fn draw_frame(&self, state: &mut T, frame: usize, gfx: &mut Gfx, location: Rectangle) -> (r:
        Result<(), E>)
        requires
            self.frame_in_range(*old(state), frame as int),
        ensures
            self.strategy_post(
                *old(state),
                *final(state),
                *old(gfx),
                *final(gfx),
                frame as int,
                location,
                r,
            ),
    ;
}

/// The draw strategy of the sequence specialization: the state is an ordered
/// sequence of frame resources, and drawing frame `i` issues one draw-image
/// operation for the `i`-th resource. It never mutates the state and never
/// fails.
pub struct SequenceDraw;

impl<R, Gfx: ImageTarget<R>, E> DrawStrategy<Vec<R>, Gfx, E> for SequenceDraw {
    open spec fn frame_in_range(&self, state: Vec<R>, frame: int) -> bool {
        0 <= frame < state.len()
    }

    open spec fn strategy_post(
        &self,
        old_state: Vec<R>,
        new_state: Vec<R>,
        old_gfx: Gfx,
        new_gfx: Gfx,
        frame: int,
        location: Rectangle,
        r: Result<(), E>,
    ) -> bool {
        &&& new_state == old_state
        &&& new_gfx.drawn() == old_gfx.drawn().push((old_state[frame], location))
        &&& r is Ok
    }

    fn draw_frame(&self, state: &mut Vec<R>, frame: usize, gfx: &mut Gfx, location: Rectangle) -> (
        r: Result<(), E>) {
        gfx.draw_image(&state[frame], location);
        Ok(())
    }
}

/// A draw strategy that draws nothing and reports every call as a failure:
/// a stub for driving an animation where no backend is available. The error
/// propagates to the caller of `draw` verbatim, and the state and the
/// target are left untouched.
pub struct AlwaysFails;

impl<T, Gfx> DrawStrategy<T, Gfx, ()> for AlwaysFails {
    open spec fn frame_in_range(&self, _state: T, _frame: int) -> bool {
        true
    }

    open spec fn strategy_post(
        &self,
        old_state: T,
        new_state: T,
        old_gfx: Gfx,
        new_gfx: Gfx,
        _frame: int,
        _location: Rectangle,
        r: Result<(), ()>,
    ) -> bool {
        &&& new_state == old_state
        &&& new_gfx == old_gfx
        &&& r is Err
    }

    fn draw_frame(&self, _state: &mut T, _frame: usize, _gfx: &mut Gfx, _location: Rectangle) -> (
        r: Result<(), ()>) {
        Err(())
    }
}

/// The frame count of the sequence specialization: the length of the
/// sequence of frame resources.
#[derive(Clone, Copy, PartialEq, Eq, Structural)]
pub struct SequenceLen;

impl<R> FrameCount<Vec<R>> for SequenceLen {
    open spec fn spec_max(&self, state: Vec<R>) -> int {
        state.len() as int
    }

    fn max_frames(&self, state: &Vec<R>) -> (n: usize) {
        state.len()
    }
}

/// The easiest animation system: it renders the frame resources in order,
/// switching to the next one based on the tick source's speed.
pub struct SimpleLinearConfig<R, Ticks> {
    /// The frame resources that make up the animation.
    pub images: Vec<R>,
    /// Controls how fast the animation plays.
    pub timing: Ticks,
}

impl<R, Ticks: TickSource> SimpleLinearConfig<R, Ticks> {
    /// Turn the config into an actual animation struct.
    pub fn into_animation(self) -> (r: Linear<Vec<R>, SequenceDraw, SequenceLen, Ticks>)
        ensures
            r.state == self.images,
            r.draw == SequenceDraw,
            r.clock.at_frame == 0,
            r.clock.max_frames == SequenceLen,
            r.clock.timer == self.timing,
    {
        Linear::new(
            LinearConfig {
                begin_state: self.images,
                timing: self.timing,
                draw: SequenceDraw,
                max_frames: SequenceLen,
            },
        )
    }
}

/// The sequence specialization always keeps its frame count and its draw
/// strategy in agreement: every index under the sequence length is in the
/// strategy's range, so a `Linear` made from a `SimpleLinearConfig` is
/// well-formed from the start.
pub proof fn lemma_simple_linear_wf<R, Gfx: ImageTarget<R>, E, Ticks: TickSource>(
    animation: Linear<Vec<R>, SequenceDraw, SequenceLen, Ticks>,
)
    ensures
        animation.wf::<Gfx, E>(),
{
}

/// A more advanced animation than `SimpleLinearConfig`: the same idea, but
/// with full control over the state, the draw strategy and the frame count.
pub struct LinearConfig<T, DrawFunc, MaxFrames, Ticks> {
    /// Data needed to draw the animation. This can be mutated during draw
    /// calls if needed.
    pub begin_state: T,
    /// Controls how fast the animation plays.
    pub timing: Ticks,
    /// The strategy that will actually draw the current animation frame.
    pub draw: DrawFunc,
    /// How many frames the animation has before it loops.
    pub max_frames: MaxFrames,
}

impl<T, DrawFunc, MaxFrames, Ticks> LinearConfig<T, DrawFunc, MaxFrames, Ticks> where
    MaxFrames: FrameCount<T>,
    Ticks: TickSource,
 {
    /// Turn the config into an actual animation.
    pub fn into_animation(self) -> (r: Linear<T, DrawFunc, MaxFrames, Ticks>)
        ensures
            r.state == self.begin_state,
            r.draw == self.draw,
            r.clock.at_frame == 0,
            r.clock.max_frames == self.max_frames,
            r.clock.timer == self.timing,
    {
        Linear::new(self)
    }
}

/// The backbone of both linear animation systems: a state value, a draw
/// strategy and a frame clock. On each draw request it advances the clock
/// and invokes the strategy with the resulting frame index.
pub struct Linear<T, DrawFunc, MaxFrames, Ticks> {
    pub state: T,
    pub draw: DrawFunc,
    pub clock: AnimationTimer<T, MaxFrames, Ticks>,
}

impl<T, DrawFunc, MaxFrames, Ticks> Linear<T, DrawFunc, MaxFrames, Ticks> where
    MaxFrames: FrameCount<T>,
    Ticks: TickSource,
 {
    /// The frame count and the draw strategy agree: every index under the
    /// frame count of any state is in the strategy's range, so the index the
    /// clock produces can always be handed to the strategy.
    pub open spec fn wf<Gfx, E>(&self) -> bool where DrawFunc: DrawStrategy<T, Gfx, E> {
        forall|s: T, f: int|
            0 <= f < self.clock.max_frames.spec_max(s) ==> #[trigger] self.draw.frame_in_range(
                s,
                f,
            )
    }

    /// Create a new animation.
    pub fn new(config: LinearConfig<T, DrawFunc, MaxFrames, Ticks>) -> (r: Linear<
        T,
        DrawFunc,
        MaxFrames,
        Ticks,
    >)
        ensures
            r.state == config.begin_state,
            r.draw == config.draw,
            r.clock.at_frame == 0,
            r.clock.max_frames == config.max_frames,
            r.clock.timer == config.timing,
    {
        let LinearConfig { begin_state, timing, draw, max_frames } = config;
        Self { state: begin_state, draw, clock: AnimationTimer::new(max_frames, timing) }
    }

    /// Draw the animation.
    pub fn draw<Gfx, E>(&mut self, gfx: &mut Gfx, location: Rectangle) -> (r: Result<
        (),
        E,
    >) where DrawFunc: DrawStrategy<T, Gfx, E>
        requires
            old(self).wf::<Gfx, E>(),
            old(self).clock.max_frames.spec_max(old(self).state) > 0,
        ensures
            old(self).draw_post(*final(self), *old(gfx), *final(gfx), location, r),
    {
        <Self as BasicAnimation<Vector, Rectangle, Gfx, E>>::draw(self, gfx, location)
    }

    /// Turn the animation into a contained animation at the given location.
    pub fn contain(self, location: Rectangle) -> (r: crate::BasicAnimationContainer<
        Self,
        Vector,
        Rectangle,
    >)
        ensures
            r.animation == self,
            r.location == location,
    {
        crate::BasicAnimationContainer {
            location,
            animation: self,
            _size: core::marker::PhantomData,
        }
    }
}

impl<T, DrawFunc, MaxFrames, Ticks, Gfx, E> BasicAnimation<Vector, Rectangle, Gfx, E> for Linear<
    T,
    DrawFunc,
    MaxFrames,
    Ticks,
> where
    DrawFunc: DrawStrategy<T, Gfx, E>,
    MaxFrames: FrameCount<T>,
    Ticks: TickSource,
 {
    open spec fn draw_pre(&self) -> bool {
        &&& self.wf::<Gfx, E>()
        &&& self.clock.max_frames.spec_max(self.state) > 0
    }

    open spec fn draw_post(
        &self,
        new: Self,
        old_gfx: Gfx,
        new_gfx: Gfx,
        location: Rectangle,
        r: Result<(), E>,
    ) -> bool {
        let n = self.clock.max_frames.spec_max(self.state);
        let f = next_frame_index(self.clock.at_frame as int, self.clock.timer.pending(), n);
        &&& new.clock.at_frame as int == f
        &&& 0 <= f < n
        &&& self.draw.strategy_post(self.state, new.state, old_gfx, new_gfx, f, location, r)
        &&& new.draw == self.draw
        &&& new.clock.max_frames == self.clock.max_frames
        &&& new.clock.timer == self.clock.timer.polled()
        &&& new.wf::<Gfx, E>()
    }

    fn draw(&mut self, gfx: &mut Gfx, location: Rectangle) -> (r: Result<(), E>) {
        let frame = self.clock.get_current_frame(&self.state);
        self.draw.draw_frame(&mut self.state, frame, gfx, location)
    }
}

impl<T, DrawFunc, MaxFrames, Ticks> Resetable for Linear<T, DrawFunc, MaxFrames, Ticks> where
    MaxFrames: FrameCount<T>,
    Ticks: TickSource,
 {
    open spec fn spec_reset(&self, new: Self) -> bool {
        &&& new.clock.at_frame == 0
        &&& new.clock.timer == self.clock.timer.cleared()
        &&& new.clock.timer.pending() == 0
        &&& new.clock.max_frames == self.clock.max_frames
        &&& new.state == self.state
        &&& new.draw == self.draw
    }

    fn reset(&mut self) {
        self.clock.reset()
    }
}

impl<T, DrawFunc, MaxFrames, Ticks> EditableState<T> for Linear<T, DrawFunc, MaxFrames, Ticks> {
    open spec fn spec_state(&self) -> T {
        self.state
    }

    fn set_state(&mut self, new_state: T)
        ensures
            final(self).clock == old(self).clock,
            final(self).draw == old(self).draw,
    {
        self.state = new_state;
    }

    fn get_state(&self) -> (r: &T) {
        &self.state
    }
}

} // verus!
