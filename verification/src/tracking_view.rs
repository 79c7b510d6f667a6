//! Mouse tracking views (an `NSView` with an `NSTrackingArea`): the element
//! builder and the steps that create or update the native view on each paint.

use vstd::prelude::*;
use crate::element_id::{ElementId, ElementIdView};

verus! {

/// Emitted when the mouse enters the view.
pub struct TrackingMouseEnterEvent;

/// Emitted when the mouse leaves the view.
pub struct TrackingMouseExitEvent;

/// Emitted when the mouse moves inside the view; `P` is the type of a point in
/// the view's local coordinates, which the library carries without reading.
pub struct TrackingMouseMoveEvent<P> {
    /// The mouse position in the view's local coordinates.
    pub position: P,
}

/// One operation on the native tracking view, performed in order by the glue.
#[derive(Clone, Copy, Debug, PartialEq, Eq, Structural)]
pub enum TrackingStep {
    /// Create a new native tracking view.
    Create,
    /// Install the listeners as the view's callbacks.
    SetCallbacks,
    /// Add the view to the parent view.
    Attach,
    /// Move the view to the element's bounds.
    SetFrame,
}

/// The steps of one paint: an existing view is moved and, when the element has
/// any listener, given the new callbacks; a new view is created with the
/// callbacks, attached and moved.
pub open spec fn tracking_steps(view_exists: bool, has_listener: bool) -> Seq<TrackingStep> {
    if view_exists {
        if has_listener {
            seq![TrackingStep::SetFrame, TrackingStep::SetCallbacks]
        } else {
            seq![TrackingStep::SetFrame]
        }
    } else {
        seq![TrackingStep::Create, TrackingStep::SetCallbacks, TrackingStep::Attach, TrackingStep::SetFrame]
    }
}

/// The callbacks installed on the native view.
pub struct TrackingViewCallbacks<E, X, M> {
    pub on_enter: Option<E>,
    pub on_exit: Option<X>,
    pub on_move: Option<M>,
}

/// The steps of one paint and the callbacks `SetCallbacks` installs.
pub struct TrackingPaint<E, X, M> {
    pub steps: Vec<TrackingStep>,
    pub callbacks: TrackingViewCallbacks<E, X, M>,
}

/// A native mouse tracking view; `E`, `X` and `M` are the types of its enter,
/// exit and move listeners.
pub struct NativeTrackingView<E, X, M> {
    id: ElementId,
    on_mouse_enter: Option<E>,
    on_mouse_exit: Option<X>,
    on_mouse_move: Option<M>,
}

/// The state of a [`NativeTrackingView`].
pub struct NativeTrackingViewView<E, X, M> {
    pub id: ElementIdView,
    pub on_mouse_enter: Option<E>,
    pub on_mouse_exit: Option<X>,
    pub on_mouse_move: Option<M>,
}

impl<E, X, M> View for NativeTrackingView<E, X, M> {
    type V = NativeTrackingViewView<E, X, M>;

    closed spec fn view(&self) -> NativeTrackingViewView<E, X, M> {
        NativeTrackingViewView {
            id: self.id@,
            on_mouse_enter: self.on_mouse_enter,
            on_mouse_exit: self.on_mouse_exit,
            on_mouse_move: self.on_mouse_move,
        }
    }
}

/// Creates a tracking view with no listeners.
pub fn native_tracking_view<E, X, M>(id: ElementId) -> (t: NativeTrackingView<E, X, M>)
    ensures
        t@ == (NativeTrackingViewView::<E, X, M> {
            id: id@,
            on_mouse_enter: None,
            on_mouse_exit: None,
            on_mouse_move: None,
        }),
{
    NativeTrackingView { id, on_mouse_enter: None, on_mouse_exit: None, on_mouse_move: None }
}

impl<E, X, M> NativeTrackingView<E, X, M> {
    /// Registers the listener called when the mouse enters.
    pub fn on_mouse_enter(self, handler: E) -> (t: Self)
        ensures
            t@ == (NativeTrackingViewView { on_mouse_enter: Some(handler), ..self@ }),
    {
        let mut t = self;
        t.on_mouse_enter = Some(handler);
        t
    }

    /// Registers the listener called when the mouse leaves.
    pub fn on_mouse_exit(self, handler: X) -> (t: Self)
        ensures
            t@ == (NativeTrackingViewView { on_mouse_exit: Some(handler), ..self@ }),
    {
        let mut t = self;
        t.on_mouse_exit = Some(handler);
        t
    }

    /// Registers the listener called when the mouse moves inside.
    pub fn on_mouse_move(self, handler: M) -> (t: Self)
        ensures
            t@ == (NativeTrackingViewView { on_mouse_move: Some(handler), ..self@ }),
    {
        let mut t = self;
        t.on_mouse_move = Some(handler);
        t
    }

    /// The identifier of the element.
    pub fn id(&self) -> (id: ElementId)
        ensures
            id@ == self@.id,
    {
        self.id.duplicate()
    }

    /// Width and height requested where the style leaves them automatic.
    pub fn intrinsic_size(&self) -> (size: (u64, u64))
        ensures
            size == (100u64, 100u64),
    {
        (100, 100)
    }

    /// Plans one paint of the element, given whether a native view remains from
    /// an earlier paint. The listeners move into the plan.
    pub fn take_paint(&mut self, view_exists: bool) -> (p: TrackingPaint<E, X, M>)
        ensures
            final(self)@ == (NativeTrackingViewView {
                on_mouse_enter: None,
                on_mouse_exit: None,
                on_mouse_move: None,
                ..old(self)@
            }),
            p.steps@ == tracking_steps(
                view_exists,
                old(self)@.on_mouse_enter is Some || old(self)@.on_mouse_exit is Some
                    || old(self)@.on_mouse_move is Some,
            ),
            p.callbacks.on_enter == old(self)@.on_mouse_enter,
            p.callbacks.on_exit == old(self)@.on_mouse_exit,
            p.callbacks.on_move == old(self)@.on_mouse_move,
    {
        let on_enter = self.on_mouse_enter.take();
        let on_exit = self.on_mouse_exit.take();
        let on_move = self.on_mouse_move.take();
        let has_listener = on_enter.is_some() || on_exit.is_some() || on_move.is_some();
        let mut steps: Vec<TrackingStep> = Vec::new();
        if view_exists {
            steps.push(TrackingStep::SetFrame);
            if has_listener {
                steps.push(TrackingStep::SetCallbacks);
            }
        } else {
            steps.push(TrackingStep::Create);
            steps.push(TrackingStep::SetCallbacks);
            steps.push(TrackingStep::Attach);
            steps.push(TrackingStep::SetFrame);
        }
        assert(steps@ =~= tracking_steps(view_exists, has_listener));
        TrackingPaint {
            steps,
            callbacks: TrackingViewCallbacks { on_enter, on_exit, on_move },
        }
    }
}

/// The callbacks are installed exactly when the view is new or the element has
/// a listener, and a repaint of an existing view without listeners only moves it.
pub proof fn lemma_tracking_callbacks_installed(view_exists: bool, has_listener: bool)
    ensures
        tracking_steps(view_exists, has_listener).contains(TrackingStep::SetCallbacks) <==> (!view_exists
            || has_listener),
        tracking_steps(true, false) == seq![TrackingStep::SetFrame],
{
    let s = tracking_steps(view_exists, has_listener);
    if !view_exists || has_listener {
        assert(s.len() >= 2 && s[1] == TrackingStep::SetCallbacks);
        assert(s.contains(TrackingStep::SetCallbacks));
    } else {
        assert(s == seq![TrackingStep::SetFrame]);
        assert(!s.contains(TrackingStep::SetCallbacks)) by {
            if s.contains(TrackingStep::SetCallbacks) {
                let k = choose|k: int| 0 <= k < s.len() && s[k] == TrackingStep::SetCallbacks;
                assert(s[k] == TrackingStep::SetFrame);
            }
        }
    }
}

} // verus!
