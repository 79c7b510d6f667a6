//! Decisions of the iOS platform glue: dispatch queue priorities and delays,
//! touch tracking, gesture phases, keyboard proxy input and the software
//! keyboard, appearance, thermal state, scene lifecycle and frame requests.

use vstd::prelude::*;

verus! {

/// Priority of a task handed to the dispatcher.
#[derive(Clone, Copy, Debug, PartialEq, Eq, Structural)]
pub enum Priority {
    /// Real-time audio work, run on its own thread rather than a queue.
    RealtimeAudio,
    High,
    Medium,
    Low,
}

/// `DISPATCH_QUEUE_PRIORITY_HIGH`.
pub const DISPATCH_QUEUE_PRIORITY_HIGH: isize = 2;

/// `DISPATCH_QUEUE_PRIORITY_DEFAULT`.
pub const DISPATCH_QUEUE_PRIORITY_DEFAULT: isize = 0;

/// `DISPATCH_QUEUE_PRIORITY_LOW`.
pub const DISPATCH_QUEUE_PRIORITY_LOW: isize = -2;

/// The global queue priority a task priority is dispatched at. Real-time audio
/// work never goes through a queue.
pub fn queue_priority(priority: Priority) -> (p: isize)
    requires
        priority != Priority::RealtimeAudio,
    ensures
        p == (match priority {
            Priority::High => DISPATCH_QUEUE_PRIORITY_HIGH,
            Priority::Medium => DISPATCH_QUEUE_PRIORITY_DEFAULT,
            _ => DISPATCH_QUEUE_PRIORITY_LOW,
        }),
{
    match priority {
        Priority::High => DISPATCH_QUEUE_PRIORITY_HIGH,
        Priority::Medium => DISPATCH_QUEUE_PRIORITY_DEFAULT,
        _ => DISPATCH_QUEUE_PRIORITY_LOW,
    }
}

/// The `dispatch_time` delta for a delay of `nanos` nanoseconds, saturated at
/// `i64::MAX`.
pub fn duration_to_dispatch_delta(nanos: u128) -> (d: i64)
    ensures
        d == (if nanos > i64::MAX as u128 { i64::MAX as int } else { nanos as int }),
{
    if nanos > (i64::MAX as u128) {
        i64::MAX
    } else {
        nanos as i64
    }
}

/// Phase of a touch-driven scroll.
#[derive(Clone, Copy, Debug, PartialEq, Eq, Structural)]
pub enum TouchPhase {
    Started,
    Moved,
    Ended,
}

/// The scroll phase for a `UIGestureRecognizerState`: began, changed, and
/// ended or cancelled; no scroll event for any other state.
pub fn gesture_touch_phase(gesture_state: isize) -> (p: Option<TouchPhase>)
    ensures
        p == (if gesture_state == 1 {
            Some(TouchPhase::Started)
        } else if gesture_state == 2 {
            Some(TouchPhase::Moved)
        } else if gesture_state == 3 || gesture_state == 4 {
            Some(TouchPhase::Ended)
        } else {
            None::<TouchPhase>
        }),
{
    if gesture_state == 1 {
        Some(TouchPhase::Started)
    } else if gesture_state == 2 {
        Some(TouchPhase::Moved)
    } else if gesture_state == 3 || gesture_state == 4 {
        Some(TouchPhase::Ended)
    } else {
        None
    }
}

/// The touch a window follows as its mouse: the first touch of a gesture is
/// followed until the gesture ends, and other fingers are ignored.
pub struct TouchTracker {
    followed: Option<u64>,
}

impl View for TouchTracker {
    type V = Option<u64>;

    closed spec fn view(&self) -> Option<u64> {
        self.followed
    }
}

/// The touch followed among the current `touches`, and the touch followed
/// afterwards.
pub open spec fn primary_touch_spec(followed: Option<u64>, touches: Seq<u64>) -> (Option<u64>, Option<u64>) {
    if touches.len() == 0 {
        (None, followed)
    } else {
        match followed {
            Some(t) => if touches.contains(t) {
                (Some(t), followed)
            } else {
                (None, followed)
            },
            None => (Some(touches[0]), Some(touches[0])),
        }
    }
}

impl TouchTracker {
    /// A tracker following no touch.
    pub fn new() -> (t: Self)
        ensures
            t@ is None,
    {
        TouchTracker { followed: None }
    }

    /// The touch to report among the touches of an event (identified by
    /// number), starting to track the first one when none is followed.
    pub fn primary_touch(&mut self, touches: &[u64]) -> (r: Option<u64>)
        ensures
            (r, final(self)@) == primary_touch_spec(old(self)@, touches@),
    {
        if touches.len() == 0 {
            return None;
        }
        match self.followed {
            Some(t) => {
                let mut i: usize = 0;
                while i < touches.len()
                    invariant
                        i <= touches@.len(),
                        touches@.len() > 0,
                        *self == *old(self),
                        old(self)@ == Some(t),
                        forall|j: int| 0 <= j < i ==> touches@[j] != t,
                    decreases touches@.len() - i,
                {
                    if touches[i] == t {
                        assert(touches@.contains(t)) by {
                            assert(touches@[i as int] == t);
                        }
                        return Some(t);
                    }
                    i = i + 1;
                }
                None
            },
            None => {
                let first = touches[0];
                self.followed = Some(first);
                Some(first)
            },
        }
    }

    /// Stops following the touch, when the gesture ends or is cancelled.
    pub fn release(&mut self)
        ensures
            final(self)@ is None,
    {
        self.followed = None;
    }
}

/// Once a touch is followed, it stays the one reported until released: later
/// events report it while it is present, and nothing while it is absent.
pub proof fn lemma_tracked_touch_is_stable(t: u64, touches: Seq<u64>)
    ensures
        primary_touch_spec(Some(t), touches).1 == Some(t),
        primary_touch_spec(Some(t), touches).0 is Some ==> primary_touch_spec(
            Some(t),
            touches,
        ).0 == Some(t),
{
}

/// What a change reported by the hidden keyboard proxy field becomes.
pub enum KeyboardProxyInput {
    /// An empty replacement: the user deleted backwards.
    Backspace,
    /// Text handed to the focused input handler.
    ReplaceText(String),
    /// Text sent as a key press, without an input handler.
    Typed(String),
}

/// The input for a replacement string typed into the keyboard proxy: an empty
/// string is a backspace; other text goes to the input handler if there is
/// one, else becomes a key press.
pub fn keyboard_proxy_input(replacement: String, has_input_handler: bool) -> (i: KeyboardProxyInput)
    ensures
        replacement@.len() == 0 ==> i is Backspace,
        replacement@.len() > 0 && has_input_handler ==> (i matches KeyboardProxyInput::ReplaceText(
            t,
        ) && t@ == replacement@),
        replacement@.len() > 0 && !has_input_handler ==> (i matches KeyboardProxyInput::Typed(t)
            && t@ == replacement@),
{
    if replacement.as_str().is_empty() {
        KeyboardProxyInput::Backspace
    } else if has_input_handler {
        KeyboardProxyInput::ReplaceText(replacement)
    } else {
        KeyboardProxyInput::Typed(replacement)
    }
}

/// System appearance of a window.
#[derive(Clone, Copy, Debug, PartialEq, Eq, Structural)]
pub enum WindowAppearance {
    Light,
    VibrantLight,
    Dark,
    VibrantDark,
}

/// The appearance for a `UIUserInterfaceStyle`: dark for 2, light otherwise.
pub fn appearance_for_style(style: isize) -> (a: WindowAppearance)
    ensures
        a == (if style == 2 { WindowAppearance::Dark } else { WindowAppearance::Light }),
{
    if style == 2 {
        WindowAppearance::Dark
    } else {
        WindowAppearance::Light
    }
}

/// Whether a trait collection change is an appearance change to report: always
/// when there is no previous collection, else when the style differs.
pub fn appearance_changed(current_style: isize, previous_style: Option<isize>) -> (changed: bool)
    ensures
        changed == (match previous_style {
            Some(p) => p != current_style,
            None => true,
        }),
{
    match previous_style {
        Some(p) => p != current_style,
        None => true,
    }
}

/// Thermal state of the device.
#[derive(Clone, Copy, Debug, PartialEq, Eq, Structural)]
pub enum ThermalState {
    Nominal,
    Fair,
    Serious,
    Critical,
}

/// The thermal state for an `NSProcessInfoThermalState` value; nominal for
/// any value not known.
pub fn thermal_state_from_raw(raw: isize) -> (s: ThermalState)
    ensures
        s == (if raw == 1 {
            ThermalState::Fair
        } else if raw == 2 {
            ThermalState::Serious
        } else if raw == 3 {
            ThermalState::Critical
        } else {
            ThermalState::Nominal
        }),
{
    if raw == 1 {
        ThermalState::Fair
    } else if raw == 2 {
        ThermalState::Serious
    } else if raw == 3 {
        ThermalState::Critical
    } else {
        ThermalState::Nominal
    }
}

/// Drives the display link's frame requests: the first frame is rendered even
/// when nothing asks for it, later frames only on demand.
pub struct FrameRequester {
    first_frame_done: bool,
}

impl View for FrameRequester {
    type V = bool;

    /// Whether a frame was already requested.
    closed spec fn view(&self) -> bool {
        self.first_frame_done
    }
}

/// One frame request from a requester that has (`done`) or has not asked
/// before: whether it forces a render, and whether it has asked afterwards.
pub open spec fn frame_step(done: bool) -> (bool, bool) {
    (!done, true)
}

/// Whether a new requester has asked for a frame after `k` requests.
pub open spec fn frames_done(k: nat) -> bool
    decreases k,
{
    if k == 0 {
        false
    } else {
        frame_step(frames_done((k - 1) as nat)).1
    }
}

impl FrameRequester {
    /// A requester that has not requested a frame yet.
    pub fn new() -> (r: Self)
        ensures
            r@ == frames_done(0),
    {
        FrameRequester { first_frame_done: false }
    }

    /// Starts the next frame request; whether it forces a render.
    pub fn next_frame(&mut self) -> (force_render: bool)
        ensures
            (force_render, final(self)@) == frame_step(old(self)@),
    {
        let force = !self.first_frame_done;
        self.first_frame_done = true;
        force
    }
}

/// Of the frames a new requester asks for, exactly the first forces a render.
pub proof fn lemma_only_first_frame_forced(k: nat)
    ensures
        frame_step(frames_done(k)).0 == (k == 0),
{
    if k > 0 {
        assert(frames_done(k) == frame_step(frames_done((k - 1) as nat)).1);
    }
}

/// A scene lifecycle notification.
#[derive(Clone, Copy, Debug, PartialEq, Eq, Structural)]
pub enum SceneEvent {
    DidActivate,
    WillDeactivate,
    DidEnterBackground,
    WillEnterForeground,
}

/// What the window does on a lifecycle notification: the active state it
/// records and reports to its listener, and whether the display link is paused
/// or resumed.
#[derive(Clone, Copy, Debug, PartialEq, Eq, Structural)]
pub struct SceneResponse {
    pub active: Option<bool>,
    pub pause_display_link: Option<bool>,
}

/// The response to a notification: activation and deactivation set and report
/// the active state; the background pauses the display link, the foreground
/// resumes it.
pub fn scene_response(event: SceneEvent) -> (r: SceneResponse)
    ensures
        r == (match event {
            SceneEvent::DidActivate => SceneResponse { active: Some(true), pause_display_link: None },
            SceneEvent::WillDeactivate => SceneResponse { active: Some(false), pause_display_link: None },
            SceneEvent::DidEnterBackground => SceneResponse { active: None, pause_display_link: Some(true) },
            SceneEvent::WillEnterForeground => SceneResponse { active: None, pause_display_link: Some(false) },
        }),
{
    match event {
        SceneEvent::DidActivate => SceneResponse { active: Some(true), pause_display_link: None },
        SceneEvent::WillDeactivate => SceneResponse { active: Some(false), pause_display_link: None },
        SceneEvent::DidEnterBackground => SceneResponse { active: None, pause_display_link: Some(true) },
        SceneEvent::WillEnterForeground => SceneResponse { active: None, pause_display_link: Some(false) },
    }
}

/// What becomes of the software keyboard when the window's input handler is
/// set or taken: `Some(true)` to show it (make the hidden field first
/// responder), `Some(false)` to hide it, `None` to leave it. Setting a handler
/// shows the keyboard; taking one hides it only when there was one. Nothing
/// happens without the hidden field.
pub fn keyboard_request(setting: bool, had_handler: bool, has_proxy: bool) -> (r: Option<bool>)
    ensures
        r == (if !has_proxy {
            None
        } else if setting {
            Some(true)
        } else if had_handler {
            Some(false)
        } else {
            None
        }),
{
    if !has_proxy {
        None
    } else if setting {
        Some(true)
    } else if had_handler {
        Some(false)
    } else {
        None
    }
}

} // verus!
