//! The container that turns a `BasicAnimation` into a `ContainedAnimation`:
//! it binds the animation to a shape so that draw calls need no location
//! argument, forwards the optional reset and editable-state capabilities of
//! the animation it wraps, and can be unpacked back into its two parts.

use crate::{
    AnimationShape, BasicAnimation, ContainedAnimation, EditableState, Resetable, Vector,
};
use core::marker::PhantomData;
use vstd::prelude::*;

verus! {

/// The struct used to turn a `BasicAnimation` into a `ContainedAnimation`.
pub struct BasicAnimationContainer<Animation, Size, Combined> {
    pub animation: Animation,
    pub location: Combined,
    pub _size: PhantomData<Size>,
}

impl<Animation, Size, Combined, Gfx, E> ContainedAnimation<
    Size,
    Combined,
    Gfx,
    E,
> for BasicAnimationContainer<Animation, Size, Combined> where
    Animation: BasicAnimation<Size, Combined, Gfx, E>,
    Combined: AnimationShape<Size>,
 {
    open spec fn spec_shape(&self) -> Combined {
        self.location
    }

    open spec fn draw_pre(&self) -> bool {
        self.animation.draw_pre()
    }

    open spec fn draw_post(&self, new: Self, old_gfx: Gfx, new_gfx: Gfx, r: Result<(), E>) -> bool {
        &&& self.animation.draw_post(new.animation, old_gfx, new_gfx, self.location, r)
        &&& new.location == self.location
    }

    fn draw(&mut self, gfx: &mut Gfx) -> (r: Result<(), E>) {
        let location = self.location.get_both();
        self.animation.draw(gfx, location)
    }

    fn set_location(&mut self, location: Vector) {
        self.location.set_location(location);
    }

    fn set_size(&mut self, size: Size) {
        self.location.set_size(size);
    }

    fn get_draw_pos(&self) -> (r: Combined) {
        self.location.get_both()
    }

    fn get_position(&self) -> (l: Vector) {
        self.location.get_location()
    }

    fn get_size(&self) -> (s: Size) {
        self.location.get_size()
    }
}

impl<Animation, Size, Combined> Resetable for BasicAnimationContainer<
    Animation,
    Size,
    Combined,
> where Animation: Resetable {
    open spec fn spec_reset(&self, new: Self) -> bool {
        &&& self.animation.spec_reset(new.animation)
        &&& new.location == self.location
    }

    fn reset(&mut self) {
        self.animation.reset()
    }
}

impl<Animation, Size, Combined> BasicAnimationContainer<Animation, Size, Combined> {
    /// Turns the `ContainedAnimation` back into the animation and the shape
    /// it was holding, so that the caller can drive them independently
    /// again.
    pub fn unpack(self) -> (r: (Animation, Combined))
        ensures
            r.0 == self.animation,
            r.1 == self.location,
    {
        (self.animation, self.location)
    }
}

impl<Animation, Size, Combined> BasicAnimationContainer<Animation, Size, Combined> where
    Combined: AnimationShape<Size>,
 {
    /// Move the held shape; its size and the wrapped animation stay as they
    /// were.
    pub fn set_location(&mut self, location: Vector)
        ensures
            final(self).location.spec_location() == location,
            final(self).location.spec_size() == old(self).location.spec_size(),
            final(self).animation == old(self).animation,
    {
        self.location.set_location(location);
    }

    /// Resize the held shape; its position and the wrapped animation stay as
    /// they were.
    pub fn set_size(&mut self, size: Size)
        ensures
            final(self).location.spec_size() == size,
            final(self).location.spec_location() == old(self).location.spec_location(),
            final(self).animation == old(self).animation,
    {
        self.location.set_size(size);
    }

    /// A copy of the held shape, as the next draw call would use it.
    pub fn get_draw_pos(&self) -> (r: Combined)
        ensures
            r == self.location,
    {
        self.location.get_both()
    }

    pub fn get_position(&self) -> (l: Vector)
        ensures
            l == self.location.spec_location(),
    {
        self.location.get_location()
    }

    pub fn get_size(&self) -> (s: Size)
        ensures
            s == self.location.spec_size(),
    {
        self.location.get_size()
    }
}

impl<Animation, T, Size, Combined> EditableState<T> for BasicAnimationContainer<
    Animation,
    Size,
    Combined,
> where Animation: EditableState<T> {
    open spec fn spec_state(&self) -> T {
        self.animation.spec_state()
    }

    fn set_state(&mut self, new_state: T)
        ensures
            final(self).location == old(self).location,
    {
        self.animation.set_state(new_state)
    }

    fn get_state(&self) -> (r: &T) {
        self.animation.get_state()
    }
}

} // verus!
