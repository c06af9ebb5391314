//! A canvas: an element that hands its bounds to two callbacks, one when
//! they are known and one when it is painted, for custom drawing without a
//! custom element.
use vstd::prelude::*;
use crate::geometry::Bounds;

verus! {

/// Layout style of a canvas: a fixed width and height in pixels, or, where
/// none is set, the size its parent gives it.
#[derive(Clone, Copy, Debug, PartialEq, Eq, Structural)]
pub struct Style {
    pub width: Option<i64>,
    pub height: Option<i64>,
}

impl Default for Style {
    fn default() -> (r: Self)
        ensures
            r.width is None,
            r.height is None,
    {
        Style { width: None, height: None }
    }
}

/// A canvas element. `P` runs once the bounds are known and its result
/// goes to `Q`, which runs when the canvas is painted.
pub struct Canvas<P, Q> {
    pub prepaint: Option<P>,
    pub paint: Option<Q>,
    pub style: Style,
}

/// A canvas with the given callbacks and no size of its own.
pub fn canvas<P, Q>(prepaint: P, paint: Q) -> (r: Canvas<P, Q>)
    ensures
        r.prepaint == Some(prepaint),
        r.paint == Some(paint),
        r.style == (Style { width: None, height: None }),
{
    Canvas { prepaint: Some(prepaint), paint: Some(paint), style: Style { width: None, height: None } }
}

impl<P, Q> Canvas<P, Q> {
    /// The style the canvas is laid out with.
    pub fn request_layout(&self) -> (r: Style)
        ensures
            r == self.style,
    {
        self.style
    }

    /// The style to change, in place.
    pub fn style(&mut self) -> (r: &mut Style)
        ensures
            *r == old(self).style,
            final(self).style == *final(r),
            final(self).prepaint == old(self).prepaint,
            final(self).paint == old(self).paint,
    {
        &mut self.style
    }

    /// Runs the first callback on the canvas's bounds, once.
    pub fn prepaint<T>(&mut self, bounds: Bounds) -> (r: Option<T>) where P: FnOnce(Bounds) -> T
        requires
            old(self).prepaint matches Some(f) && f.requires((bounds,)),
        ensures
            r matches Some(t) && old(self).prepaint->Some_0.ensures((bounds,), t),
            final(self).prepaint is None,
            final(self).paint == old(self).paint,
            final(self).style == old(self).style,
    {
        let f = self.prepaint.take().unwrap();
        Some(f(bounds))
    }

    /// Runs the second callback on the bounds and the first one's result,
    /// once.
    pub fn paint<T>(&mut self, bounds: Bounds, state: &mut Option<T>) where Q: FnOnce(Bounds, T)
        requires
            old(self).paint is Some,
            *old(state) is Some,
            old(self).paint->Some_0.requires((bounds, (*old(state))->Some_0)),
        ensures
            old(self).paint->Some_0.ensures((bounds, (*old(state))->Some_0), ()),
            final(self).paint is None,
            final(self).prepaint == old(self).prepaint,
            final(self).style == old(self).style,
            *final(state) is None,
    {
        let t = state.take().unwrap();
        let g = self.paint.take().unwrap();
        g(bounds, t)
    }
}

} // verus!
