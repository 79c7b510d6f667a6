//! Switches (`NSSwitch`): the element builder and the steps that create or
//! update the native switch on each paint.

use vstd::prelude::*;
use crate::element_id::{ElementId, ElementIdView};
use crate::paint_plan::{push_if, lemma_fold_push, lemma_fold_push_if, lemma_fold_single};

verus! {

/// Emitted when the user flips a switch.
pub struct SwitchChangeEvent {
    pub checked: bool,
}

/// What the element remembers between paints about the native switch it owns.
#[derive(Clone, Copy, Debug, PartialEq, Eq, Structural)]
pub struct SwitchControlState {
    /// The checked state last written to the native switch.
    pub current_checked: bool,
}

/// One operation on the native switch, performed in order by the platform glue.
#[derive(Clone, Copy, Debug, PartialEq, Eq, Structural)]
pub enum SwitchStep {
    /// Create a new native switch.
    Create,
    /// Write the checked state.
    SetChecked(bool),
    /// Write the enabled state.
    SetEnabled(bool),
    /// Add the switch to the parent view.
    Attach,
    /// Move the switch to the element's bounds.
    SetFrame,
    /// Release the action target bound on an earlier paint.
    ReleaseAction,
    /// Bind the element's listener as the switch's action.
    BindAction,
}

/// The steps of one paint, given what was remembered from the previous one.
pub open spec fn switch_steps(
    prev: Option<SwitchControlState>,
    checked: bool,
    disabled: bool,
    has_listener: bool,
) -> Seq<SwitchStep> {
    match prev {
        Some(state) => {
            let s1 = seq![SwitchStep::SetFrame];
            let s2 = if state.current_checked != checked {
                s1.push(SwitchStep::SetChecked(checked))
            } else {
                s1
            };
            let s3 = s2.push(SwitchStep::SetEnabled(!disabled));
            if has_listener {
                s3.push(SwitchStep::ReleaseAction).push(SwitchStep::BindAction)
            } else {
                s3
            }
        },
        None => {
            let s = seq![
                SwitchStep::Create,
                SwitchStep::SetChecked(checked),
                SwitchStep::SetEnabled(!disabled),
                SwitchStep::Attach,
                SwitchStep::SetFrame,
            ];
            if has_listener {
                s.push(SwitchStep::BindAction)
            } else {
                s
            }
        },
    }
}

/// The steps of one paint and the state remembered for the next one; the
/// listener, if any, is the one `BindAction` binds.
pub struct SwitchPaint<L> {
    pub steps: Vec<SwitchStep>,
    pub state: SwitchControlState,
    pub on_change: Option<L>,
}

/// A native switch; `L` is the type of its change listener.
pub struct NativeSwitch<L> {
    id: ElementId,
    checked: bool,
    on_change: Option<L>,
    disabled: bool,
}

/// The state of a [`NativeSwitch`].
pub struct NativeSwitchView<L> {
    pub id: ElementIdView,
    pub checked: bool,
    pub on_change: Option<L>,
    pub disabled: bool,
}

impl<L> View for NativeSwitch<L> {
    type V = NativeSwitchView<L>;

    closed spec fn view(&self) -> NativeSwitchView<L> {
        NativeSwitchView {
            id: self.id@,
            checked: self.checked,
            on_change: self.on_change,
            disabled: self.disabled,
        }
    }
}

/// Creates an off, enabled switch with no listener.
pub fn native_switch<L>(id: ElementId) -> (s: NativeSwitch<L>)
    ensures
        s@ == (NativeSwitchView::<L> { id: id@, checked: false, on_change: None, disabled: false }),
{
    NativeSwitch { id, checked: false, on_change: None, disabled: false }
}

impl<L> NativeSwitch<L> {
    /// Sets whether the switch is on.
    pub fn checked(self, checked: bool) -> (s: Self)
        ensures
            s@ == (NativeSwitchView { checked: checked, ..self@ }),
    {
        let mut s = self;
        s.checked = checked;
        s
    }

    /// Registers the listener called when the user flips the switch.
    pub fn on_change(self, listener: L) -> (s: Self)
        ensures
            s@ == (NativeSwitchView { on_change: Some(listener), ..self@ }),
    {
        let mut s = self;
        s.on_change = Some(listener);
        s
    }

    /// Sets whether the switch is disabled.
    pub fn disabled(self, disabled: bool) -> (s: Self)
        ensures
            s@ == (NativeSwitchView { disabled: disabled, ..self@ }),
    {
        let mut s = self;
        s.disabled = disabled;
        s
    }

    /// The identifier of the element.
    pub fn id(&self) -> (id: ElementId)
        ensures
            id@ == self@.id,
    {
        self.id.duplicate()
    }

    /// Width and height requested where the style leaves them automatic.
    pub fn intrinsic_size(&self) -> (size: (u64, u64))
        ensures
            size == (38u64, 22u64),
    {
        (38, 22)
    }

    /// Plans one paint: the steps that bring the native switch (new or
    /// remembered from `prev`) in line with the element, and the state to
    /// remember. The listener moves into the plan.
    pub fn take_paint(&mut self, prev: Option<SwitchControlState>) -> (p: SwitchPaint<L>)
        ensures
            final(self)@ == (NativeSwitchView { on_change: None, ..old(self)@ }),
            p.steps@ == switch_steps(
                prev,
                old(self)@.checked,
                old(self)@.disabled,
                old(self)@.on_change is Some,
            ),
            p.state == (SwitchControlState { current_checked: old(self)@.checked }),
            p.on_change == old(self)@.on_change,
    {
        let on_change = self.on_change.take();
        let has_listener = on_change.is_some();
        let checked = self.checked;
        let mut steps: Vec<SwitchStep> = Vec::new();
        match prev {
            Some(state) => {
                steps.push(SwitchStep::SetFrame);
                if state.current_checked != checked {
                    steps.push(SwitchStep::SetChecked(checked));
                }
                steps.push(SwitchStep::SetEnabled(!self.disabled));
                if has_listener {
                    steps.push(SwitchStep::ReleaseAction);
                    steps.push(SwitchStep::BindAction);
                }
            },
            None => {
                steps.push(SwitchStep::Create);
                steps.push(SwitchStep::SetChecked(checked));
                steps.push(SwitchStep::SetEnabled(!self.disabled));
                steps.push(SwitchStep::Attach);
                steps.push(SwitchStep::SetFrame);
                if has_listener {
                    steps.push(SwitchStep::BindAction);
                }
            },
        }
        assert(steps@ =~= switch_steps(prev, checked, self.disabled, has_listener));
        SwitchPaint { steps, state: SwitchControlState { current_checked: checked }, on_change }
    }
}

/// After any paint, the remembered state is the element's checked state, and the
/// native checked state is written exactly when it differs from the remembered
/// one (always, for a newly created switch).
pub proof fn lemma_switch_paint_syncs_checked(
    prev: Option<SwitchControlState>,
    checked: bool,
    disabled: bool,
    has_listener: bool,
)
    ensures
        switch_steps(prev, checked, disabled, has_listener).contains(SwitchStep::SetChecked(checked))
            <==> (prev is None || prev->0.current_checked != checked),
        !switch_steps(prev, checked, disabled, has_listener).contains(SwitchStep::SetChecked(!checked)),
        switch_steps(prev, checked, disabled, has_listener).contains(SwitchStep::BindAction)
            <==> has_listener,
{
    let s = switch_steps(prev, checked, disabled, has_listener);
    match prev {
        Some(state) => {
            if state.current_checked != checked {
                assert(s[1] == SwitchStep::SetChecked(checked));
            }
            if has_listener {
                assert(s[s.len() - 1] == SwitchStep::BindAction);
            }
        },
        None => {
            assert(s[1] == SwitchStep::SetChecked(checked));
            if has_listener {
                assert(s[5] == SwitchStep::BindAction);
            }
        },
    }
}

/// What a native switch shows: its checked and enabled states, and whether the
/// element's listener is its bound action.
pub struct SwitchNative {
    pub checked: bool,
    pub enabled: bool,
    pub listener_bound: bool,
}

/// What one step does to the native switch. Creating a switch yields one whose
/// states are unknown, so `Create` leaves the model as it is.
pub open spec fn switch_apply(n: SwitchNative, step: SwitchStep) -> SwitchNative {
    match step {
        SwitchStep::SetChecked(c) => SwitchNative { checked: c, ..n },
        SwitchStep::SetEnabled(e) => SwitchNative { enabled: e, ..n },
        SwitchStep::ReleaseAction => SwitchNative { listener_bound: false, ..n },
        SwitchStep::BindAction => SwitchNative { listener_bound: true, ..n },
        _ => n,
    }
}

/// The native switch after the steps, in order.
pub open spec fn switch_apply_all(n: SwitchNative, steps: Seq<SwitchStep>) -> SwitchNative {
    steps.fold_left(n, |m: SwitchNative, s: SwitchStep| switch_apply(m, s))
}

/// After the steps of any paint, the native switch is checked as the element
/// is, enabled exactly when the element is not disabled (a new switch too,
/// whatever it started with), and a listener the element has is bound; an
/// existing switch is assumed to show the remembered checked state.
pub proof fn lemma_switch_paint_applies(
    prev: Option<SwitchControlState>,
    checked: bool,
    disabled: bool,
    has_listener: bool,
    start: SwitchNative,
)
    requires
        prev is Some ==> start.checked == prev->0.current_checked,
    ensures
        ({
            let end = switch_apply_all(start, switch_steps(prev, checked, disabled, has_listener));
            &&& end.checked == checked
            &&& end.enabled == !disabled
            &&& has_listener ==> end.listener_bound
        }),
{
    let f = |m: SwitchNative, s: SwitchStep| switch_apply(m, s);
    let set_checked = SwitchStep::SetChecked(checked);
    let set_enabled = SwitchStep::SetEnabled(!disabled);
    match prev {
        Some(state) => {
            let s1 = seq![SwitchStep::SetFrame];
            lemma_fold_single(SwitchStep::SetFrame, start, f);
            let c = state.current_checked != checked;
            lemma_fold_push_if(s1, c, set_checked, start, f);
            let s2 = push_if(s1, c, set_checked);
            lemma_fold_push(s2, set_enabled, start, f);
            let s3 = s2.push(set_enabled);
            lemma_fold_push(s3, SwitchStep::ReleaseAction, start, f);
            lemma_fold_push(s3.push(SwitchStep::ReleaseAction), SwitchStep::BindAction, start, f);
        },
        None => {
            let s0 = seq![SwitchStep::Create];
            lemma_fold_single(SwitchStep::Create, start, f);
            lemma_fold_push(s0, set_checked, start, f);
            let s1 = s0.push(set_checked);
            lemma_fold_push(s1, set_enabled, start, f);
            let s2 = s1.push(set_enabled);
            lemma_fold_push(s2, SwitchStep::Attach, start, f);
            let s3 = s2.push(SwitchStep::Attach);
            lemma_fold_push(s3, SwitchStep::SetFrame, start, f);
            let s4 = s3.push(SwitchStep::SetFrame);
            assert(s4 =~= seq![
                SwitchStep::Create,
                set_checked,
                set_enabled,
                SwitchStep::Attach,
                SwitchStep::SetFrame,
            ]);
            lemma_fold_push(s4, SwitchStep::BindAction, start, f);
        },
    }
}

} // verus!
