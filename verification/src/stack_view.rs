//! Stack views (`NSStackView`): the native values of orientation, distribution
//! and alignment, and the steps that create or update the native view on each
//! paint.

use vstd::prelude::*;
use crate::paint_plan::{OpaqueSetting, push_if, lemma_fold_push, lemma_fold_push_if, lemma_fold_single};

verus! {

/// Orientation of a stack view.
#[derive(Clone, Copy, Debug, PartialEq, Eq, Structural)]
pub enum NativeStackOrientation {
    /// Items arranged left to right.
    Horizontal,
    /// Items arranged top to bottom.
    Vertical,
}

impl Default for NativeStackOrientation {
    fn default() -> (s: Self)
        ensures
            s == NativeStackOrientation::Horizontal,
    {
        NativeStackOrientation::Horizontal
    }
}

/// The `NSUserInterfaceLayoutOrientation` value.
pub open spec fn stack_orientation_raw(s: NativeStackOrientation) -> i64 {
    match s {
        NativeStackOrientation::Horizontal => 0,
        NativeStackOrientation::Vertical => 1,
    }
}

impl NativeStackOrientation {
    /// The `NSUserInterfaceLayoutOrientation` value.
    pub fn to_raw(self) -> (r: i64)
        ensures
            r == stack_orientation_raw(self),
    {
        match self {
            NativeStackOrientation::Horizontal => 0,
            NativeStackOrientation::Vertical => 1,
        }
    }
}

/// Distribution of a stack view's subviews.
#[derive(Clone, Copy, Debug, PartialEq, Eq, Structural)]
pub enum NativeStackDistribution {
    /// Clustered at gravity areas.
    GravityAreas,
    /// Equal centering between subviews.
    EqualCentering,
    /// Equal spacing between subviews.
    EqualSpacing,
    /// Fill the available space.
    Fill,
    /// Fill equally across subviews.
    FillEqually,
    /// Fill in proportion to intrinsic size.
    FillProportionally,
}

impl Default for NativeStackDistribution {
    fn default() -> (s: Self)
        ensures
            s == NativeStackDistribution::GravityAreas,
    {
        NativeStackDistribution::GravityAreas
    }
}

/// The `NSStackViewDistribution` value.
pub open spec fn stack_distribution_raw(s: NativeStackDistribution) -> i64 {
    match s {
        NativeStackDistribution::GravityAreas => 0,
        NativeStackDistribution::EqualCentering => 1,
        NativeStackDistribution::EqualSpacing => 2,
        NativeStackDistribution::Fill => 3,
        NativeStackDistribution::FillEqually => 4,
        NativeStackDistribution::FillProportionally => 5,
    }
}

impl NativeStackDistribution {
    /// The `NSStackViewDistribution` value.
    pub fn to_raw(self) -> (r: i64)
        ensures
            r == stack_distribution_raw(self),
    {
        match self {
            NativeStackDistribution::GravityAreas => 0,
            NativeStackDistribution::EqualCentering => 1,
            NativeStackDistribution::EqualSpacing => 2,
            NativeStackDistribution::Fill => 3,
            NativeStackDistribution::FillEqually => 4,
            NativeStackDistribution::FillProportionally => 5,
        }
    }
}

/// Alignment of a stack view's subviews (an `NSLayoutAttribute`).
#[derive(Clone, Copy, Debug, PartialEq, Eq, Structural)]
pub enum NativeStackAlignment {
    /// Top edges, for horizontal stacks.
    Top,
    /// Bottom edges, for horizontal stacks.
    Bottom,
    /// Leading edges, for vertical stacks.
    Leading,
    /// Trailing edges, for vertical stacks.
    Trailing,
    /// Vertical centers, for horizontal stacks.
    CenterY,
    /// Horizontal centers, for vertical stacks.
    CenterX,
}

impl Default for NativeStackAlignment {
    fn default() -> (s: Self)
        ensures
            s == NativeStackAlignment::CenterY,
    {
        NativeStackAlignment::CenterY
    }
}

/// The `NSLayoutAttribute` value.
pub open spec fn stack_alignment_raw(s: NativeStackAlignment) -> i64 {
    match s {
        NativeStackAlignment::Top => 3,
        NativeStackAlignment::Bottom => 4,
        NativeStackAlignment::Leading => 5,
        NativeStackAlignment::Trailing => 6,
        NativeStackAlignment::CenterY => 10,
        NativeStackAlignment::CenterX => 9,
    }
}

impl NativeStackAlignment {
    /// The `NSLayoutAttribute` value.
    pub fn to_raw(self) -> (r: i64)
        ensures
            r == stack_alignment_raw(self),
    {
        match self {
            NativeStackAlignment::Top => 3,
            NativeStackAlignment::Bottom => 4,
            NativeStackAlignment::Leading => 5,
            NativeStackAlignment::Trailing => 6,
            NativeStackAlignment::CenterY => 10,
            NativeStackAlignment::CenterX => 9,
        }
    }
}

/// The settings of a stack view that are compared between paints.
#[derive(Clone, Copy, Debug, PartialEq, Eq, Structural)]
pub struct StackViewSettings {
    pub distribution: NativeStackDistribution,
    pub alignment: NativeStackAlignment,
}

/// One operation on the native stack view, performed in order by the glue.
#[derive(Clone, Copy, Debug, PartialEq, Eq, Structural)]
pub enum StackViewStep {
    /// Create a new native view with the `NSUserInterfaceLayoutOrientation` value.
    Create(i64),
    /// Write the element's spacing.
    SetSpacing,
    /// Write the `NSStackViewDistribution` value.
    SetDistribution(i64),
    /// Write the `NSLayoutAttribute` value of the alignment.
    SetAlignment(i64),
    /// Write the element's edge insets.
    SetEdgeInsets,
    /// Add the view to the parent view.
    Attach,
    /// Move the view to the element's bounds.
    SetFrame,
}

/// The steps of one paint, given the settings remembered from the previous one
/// (none for a view not yet created). The orientation is used only when the
/// view is created.
pub open spec fn stack_view_steps(
    prev: Option<StackViewSettings>,
    orientation: NativeStackOrientation,
    desired: StackViewSettings,
    spacing: OpaqueSetting,
    edge_insets: OpaqueSetting,
) -> Seq<StackViewStep> {
    let distribution = StackViewStep::SetDistribution(stack_distribution_raw(desired.distribution));
    let alignment = StackViewStep::SetAlignment(stack_alignment_raw(desired.alignment));
    match prev {
        Some(p) => {
            let s2 = push_if(seq![StackViewStep::SetFrame], spacing.changed && spacing.present, StackViewStep::SetSpacing);
            let s3 = push_if(s2, p.distribution != desired.distribution, distribution);
            let s4 = push_if(s3, p.alignment != desired.alignment, alignment);
            push_if(s4, edge_insets.changed && edge_insets.present, StackViewStep::SetEdgeInsets)
        },
        None => {
            let s1 = seq![StackViewStep::Create(stack_orientation_raw(orientation))];
            let s2 = push_if(s1, spacing.present, StackViewStep::SetSpacing).push(distribution).push(alignment);
            push_if(s2, edge_insets.present, StackViewStep::SetEdgeInsets).push(StackViewStep::Attach).push(
                StackViewStep::SetFrame,
            )
        },
    }
}

/// The steps of one paint of a stack view and the settings to remember for the
/// next one.
pub struct StackViewPaint {
    pub steps: Vec<StackViewStep>,
    pub settings: StackViewSettings,
}

/// Plans one paint of a stack view: the steps that bring the native view (new,
/// or remembered as `prev`) in line with the element, and the settings the view
/// shows afterwards, to remember for the next paint.
pub fn stack_view_paint(
    prev: Option<StackViewSettings>,
    orientation: NativeStackOrientation,
    desired: StackViewSettings,
    spacing: OpaqueSetting,
    edge_insets: OpaqueSetting,
) -> (p: StackViewPaint)
    ensures
        p.steps@ == stack_view_steps(prev, orientation, desired, spacing, edge_insets),
        p.settings == desired,
{
    let mut steps: Vec<StackViewStep> = Vec::new();
    match prev {
        Some(p) => {
            steps.push(StackViewStep::SetFrame);
            if spacing.changed && spacing.present {
                steps.push(StackViewStep::SetSpacing);
            }
            if p.distribution != desired.distribution {
                steps.push(StackViewStep::SetDistribution(desired.distribution.to_raw()));
            }
            if p.alignment != desired.alignment {
                steps.push(StackViewStep::SetAlignment(desired.alignment.to_raw()));
            }
            if edge_insets.changed && edge_insets.present {
                steps.push(StackViewStep::SetEdgeInsets);
            }
        },
        None => {
            steps.push(StackViewStep::Create(orientation.to_raw()));
            if spacing.present {
                steps.push(StackViewStep::SetSpacing);
            }
            steps.push(StackViewStep::SetDistribution(desired.distribution.to_raw()));
            steps.push(StackViewStep::SetAlignment(desired.alignment.to_raw()));
            if edge_insets.present {
                steps.push(StackViewStep::SetEdgeInsets);
            }
            steps.push(StackViewStep::Attach);
            steps.push(StackViewStep::SetFrame);
        },
    }
    assert(steps@ =~= stack_view_steps(prev, orientation, desired, spacing, edge_insets));
    StackViewPaint { steps, settings: desired }
}

/// What a native stack view shows: its raw orientation, distribution and
/// alignment, and whether its spacing and edge insets are the element's.
pub struct StackViewNative {
    pub orientation: i64,
    pub distribution: i64,
    pub alignment: i64,
    pub spacing_current: bool,
    pub insets_current: bool,
}

/// What one step does to the native view.
pub open spec fn stack_view_apply(n: StackViewNative, step: StackViewStep) -> StackViewNative {
    match step {
        StackViewStep::Create(o) => StackViewNative { orientation: o, ..n },
        StackViewStep::SetSpacing => StackViewNative { spacing_current: true, ..n },
        StackViewStep::SetDistribution(d) => StackViewNative { distribution: d, ..n },
        StackViewStep::SetAlignment(a) => StackViewNative { alignment: a, ..n },
        StackViewStep::SetEdgeInsets => StackViewNative { insets_current: true, ..n },
        _ => n,
    }
}

/// The native view after the steps, in order.
pub open spec fn stack_view_apply_all(n: StackViewNative, steps: Seq<StackViewStep>) -> StackViewNative {
    steps.fold_left(n, |m: StackViewNative, s: StackViewStep| stack_view_apply(m, s))
}

/// After the steps of a paint, the native view shows the element's
/// distribution and alignment and every spacing or inset the element sets: a
/// new view whatever it started with, an existing view when it showed the
/// remembered settings. A new view gets the element's orientation; an existing
/// one keeps the orientation it was created with.
pub proof fn lemma_stack_view_paint_applies(
    prev: Option<StackViewSettings>,
    orientation: NativeStackOrientation,
    desired: StackViewSettings,
    spacing: OpaqueSetting,
    edge_insets: OpaqueSetting,
    start: StackViewNative,
)
    requires
        prev is Some ==> {
            &&& start.distribution == stack_distribution_raw(prev->0.distribution)
            &&& start.alignment == stack_alignment_raw(prev->0.alignment)
            &&& start.spacing_current == !spacing.changed
            &&& start.insets_current == !edge_insets.changed
        },
    ensures
        ({
            let end = stack_view_apply_all(
                start,
                stack_view_steps(prev, orientation, desired, spacing, edge_insets),
            );
            &&& end.distribution == stack_distribution_raw(desired.distribution)
            &&& end.alignment == stack_alignment_raw(desired.alignment)
            &&& spacing.present ==> end.spacing_current
            &&& edge_insets.present ==> end.insets_current
            &&& end.orientation == (if prev is Some {
                start.orientation
            } else {
                stack_orientation_raw(orientation)
            })
        }),
{
    let f = |m: StackViewNative, s: StackViewStep| stack_view_apply(m, s);
    let distribution = StackViewStep::SetDistribution(stack_distribution_raw(desired.distribution));
    let alignment = StackViewStep::SetAlignment(stack_alignment_raw(desired.alignment));
    match prev {
        Some(p) => {
            let s1 = seq![StackViewStep::SetFrame];
            lemma_fold_single(StackViewStep::SetFrame, start, f);
            let c2 = spacing.changed && spacing.present;
            lemma_fold_push_if(s1, c2, StackViewStep::SetSpacing, start, f);
            let s2 = push_if(s1, c2, StackViewStep::SetSpacing);
            lemma_fold_push_if(s2, p.distribution != desired.distribution, distribution, start, f);
            let s3 = push_if(s2, p.distribution != desired.distribution, distribution);
            lemma_fold_push_if(s3, p.alignment != desired.alignment, alignment, start, f);
            let s4 = push_if(s3, p.alignment != desired.alignment, alignment);
            lemma_fold_push_if(
                s4,
                edge_insets.changed && edge_insets.present,
                StackViewStep::SetEdgeInsets,
                start,
                f,
            );
        },
        None => {
            let create = StackViewStep::Create(stack_orientation_raw(orientation));
            let s1 = seq![create];
            lemma_fold_single(create, start, f);
            lemma_fold_push_if(s1, spacing.present, StackViewStep::SetSpacing, start, f);
            let s2 = push_if(s1, spacing.present, StackViewStep::SetSpacing);
            lemma_fold_push(s2, distribution, start, f);
            lemma_fold_push(s2.push(distribution), alignment, start, f);
            let s3 = s2.push(distribution).push(alignment);
            lemma_fold_push_if(s3, edge_insets.present, StackViewStep::SetEdgeInsets, start, f);
            let s4 = push_if(s3, edge_insets.present, StackViewStep::SetEdgeInsets);
            lemma_fold_push(s4, StackViewStep::Attach, start, f);
            lemma_fold_push(s4.push(StackViewStep::Attach), StackViewStep::SetFrame, start, f);
        },
    }
}

/// A repaint of a view whose settings did not change only moves the view.
pub proof fn lemma_stack_view_repaint_unchanged(
    orientation: NativeStackOrientation,
    settings: StackViewSettings,
    spacing_present: bool,
    insets_present: bool,
)
    ensures
        stack_view_steps(
            Some(settings),
            orientation,
            settings,
            OpaqueSetting { present: spacing_present, changed: false },
            OpaqueSetting { present: insets_present, changed: false },
        ) == seq![StackViewStep::SetFrame],
{
}

} // verus!
