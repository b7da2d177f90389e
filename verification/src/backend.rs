//! Render backends and the record of what they are asked to do.
//!
//! The widget manager drives a backend each run: one frame presentation,
//! then one draw per matching entity that has both a drawable and a
//! selector, and a diagnostic note for every visited entity. The trait
//! states each call as an append to an abstract log of effects, so callers
//! can reason about exactly what a run performs. `RecordingBackend` is an
//! in-memory backend whose log is its recorded event list; platform
//! backends (windows, consoles) live outside the verified library and
//! present the recorded effects.

use vstd::prelude::*;
use crate::structs::Rect;
use crate::theme::{Selector, SelectorView};
use crate::widget::Drawable;
use crate::world::Entity;

verus! {

/// One observable action of a render backend, in the order performed.
#[verifier::ext_equal]
pub enum Effect {
    /// One frame was presented.
    Frame,
    /// The window bounds were applied.
    BoundsSet(Rect),
    /// A drawable with the given operation was painted under a selector.
    Draw(u64, SelectorView),
    /// An entity was visited by the render pass, with its selector if any
    /// (the diagnostic side channel).
    Visited(Entity, Option<SelectorView>),
}

/// The view of an optional borrowed selector.
pub open spec fn selector_of(s: Option<&Selector>) -> Option<SelectorView> {
    match s {
        Some(x) => Some(x@),
        None => None,
    }
}

/// What a render backend must provide. `render` presents exactly one frame
/// per call (an explicit per-tick call: the caller owns the frame loop);
/// `draw` interprets a drawable's operation code under a selector; `visit`
/// is the observability channel for the per-entity diagnostic.
pub trait RenderBackend: Sized {
    /// The observable actions this backend has performed, in order.
    spec fn log(&self) -> Seq<Effect>;

    /// Presents the current frame, exactly once.
    fn render(&mut self)
        ensures
            final(self).log() == old(self).log().push(Effect::Frame),
    ;

    /// Applies window position and size before first use.
    fn bounds(&mut self, bounds: &Rect)
        ensures
            final(self).log() == old(self).log().push(Effect::BoundsSet(*bounds)),
    ;

    /// Paints one drawable, styled by `selector`.
    fn draw(&mut self, drawable: &Drawable, selector: &Selector)
        ensures
            final(self).log() == old(self).log().push(Effect::Draw(drawable.op, selector@)),
    ;

    /// Notes that the render pass visited an entity, with its selector if
    /// it has one.
    fn visit(&mut self, entity: Entity, selector: Option<&Selector>)
        ensures
            final(self).log() == old(self).log().push(
                Effect::Visited(entity, selector_of(selector)),
            ),
    ;
}

impl Drawable {
    /// Invokes this drawable's paint behavior, styled by `selector`: the
    /// backend interprets the operation code (the paint routine itself is
    /// backend work, not component data).
    pub fn draw<R: RenderBackend>(&self, selector: &Selector, backend: &mut R)
        ensures
            final(backend).log() == old(backend).log().push(
                Effect::Draw(self.op, selector@),
            ),
    {
        backend.draw(self, selector);
    }
}

/// One recorded backend action, inspectable after a run.
#[derive(Debug, PartialEq)]
pub enum RecordedEffect {
    Frame,
    BoundsSet(Rect),
    Draw(u64, Selector),
    Visited(usize, Option<Selector>),
}

impl View for RecordedEffect {
    type V = Effect;

    open spec fn view(&self) -> Effect {
        match self {
            RecordedEffect::Frame => Effect::Frame,
            RecordedEffect::BoundsSet(r) => Effect::BoundsSet(*r),
            RecordedEffect::Draw(op, s) => Effect::Draw(*op, s@),
            RecordedEffect::Visited(e, s) => Effect::Visited(
                *e,
                match s {
                    Some(x) => Some(x@),
                    None => None,
                },
            ),
        }
    }
}

/// A backend that performs no platform work: it records every action, in
/// order, for inspection. Its log is exactly its event list.
#[derive(Debug)]
pub struct RecordingBackend {
    pub events: Vec<RecordedEffect>,
}

impl RecordingBackend {
    pub fn new() -> (b: RecordingBackend)
        ensures
            b.log() == Seq::<Effect>::empty(),
            b.events@ == Seq::<RecordedEffect>::empty(),
    {
        let b = RecordingBackend { events: Vec::new() };
        proof {
            assert(b.log() =~= Seq::<Effect>::empty());
        }
        b
    }
}

impl RenderBackend for RecordingBackend {
    open spec fn log(&self) -> Seq<Effect> {
        self.events@.map_values(|e: RecordedEffect| e@)
    }

    fn render(&mut self) {
        self.events.push(RecordedEffect::Frame);
        proof {
            assert(final(self).log() =~= old(self).log().push(Effect::Frame));
        }
    }

    fn bounds(&mut self, bounds: &Rect) {
        self.events.push(RecordedEffect::BoundsSet(*bounds));
        proof {
            assert(final(self).log() =~= old(self).log().push(Effect::BoundsSet(*bounds)));
        }
    }

    fn draw(&mut self, drawable: &Drawable, selector: &Selector) {
        self.events.push(RecordedEffect::Draw(drawable.op, selector.duplicate()));
        proof {
            assert(final(self).log() =~= old(self).log().push(
                Effect::Draw(drawable.op, selector@),
            ));
        }
    }

    fn visit(&mut self, entity: Entity, selector: Option<&Selector>) {
        let noted = match selector {
            Some(s) => Some(s.duplicate()),
            None => None,
        };
        self.events.push(RecordedEffect::Visited(entity, noted));
        proof {
            assert(final(self).log() =~= old(self).log().push(
                Effect::Visited(entity, selector_of(selector)),
            ));
        }
    }
}

} // verus!
