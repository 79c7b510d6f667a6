//! Window toolbars (`NSToolbar`): the item identifier lists a toolbar offers,
//! and the native values of its display and group modes.

use vstd::prelude::*;

verus! {

/// Identifies a toolbar item: one of the window's own items, or a standard item.
#[derive(Clone, Debug, PartialEq, Eq)]
pub enum WindowToolbarItemIdentifier {
    /// An item defined by the window, by its identifier.
    Custom(String),
    /// A fixed space.
    Space,
    /// A flexible space.
    FlexibleSpace,
    /// A separator.
    Separator,
    /// The sidebar toggle.
    ToggleSidebar,
    /// The separator that tracks the sidebar's divider.
    SidebarTrackingSeparator,
}

/// The mathematical value of a [`WindowToolbarItemIdentifier`].
pub enum ToolbarIdView {
    Custom(Seq<char>),
    Space,
    FlexibleSpace,
    Separator,
    ToggleSidebar,
    SidebarTrackingSeparator,
}

impl View for WindowToolbarItemIdentifier {
    type V = ToolbarIdView;

    open spec fn view(&self) -> ToolbarIdView {
        match self {
            WindowToolbarItemIdentifier::Custom(s) => ToolbarIdView::Custom(s@),
            WindowToolbarItemIdentifier::Space => ToolbarIdView::Space,
            WindowToolbarItemIdentifier::FlexibleSpace => ToolbarIdView::FlexibleSpace,
            WindowToolbarItemIdentifier::Separator => ToolbarIdView::Separator,
            WindowToolbarItemIdentifier::ToggleSidebar => ToolbarIdView::ToggleSidebar,
            WindowToolbarItemIdentifier::SidebarTrackingSeparator => ToolbarIdView::SidebarTrackingSeparator,
        }
    }
}

/// The values of a list of identifiers.
pub open spec fn ids_view(ids: Seq<WindowToolbarItemIdentifier>) -> Seq<ToolbarIdView> {
    ids.map_values(|i: WindowToolbarItemIdentifier| i@)
}

impl WindowToolbarItemIdentifier {
    /// Whether two identifiers name the same item.
    pub fn same_as(&self, other: &Self) -> (r: bool)
        ensures
            r == (self@ == other@),
    {
        match (self, other) {
            (WindowToolbarItemIdentifier::Custom(a), WindowToolbarItemIdentifier::Custom(b)) => {
                *a == *b
            },
            (WindowToolbarItemIdentifier::Space, WindowToolbarItemIdentifier::Space) => true,
            (WindowToolbarItemIdentifier::FlexibleSpace, WindowToolbarItemIdentifier::FlexibleSpace) => true,
            (WindowToolbarItemIdentifier::Separator, WindowToolbarItemIdentifier::Separator) => true,
            (WindowToolbarItemIdentifier::ToggleSidebar, WindowToolbarItemIdentifier::ToggleSidebar) => true,
            (
                WindowToolbarItemIdentifier::SidebarTrackingSeparator,
                WindowToolbarItemIdentifier::SidebarTrackingSeparator,
            ) => true,
            _ => false,
        }
    }

    /// A copy of this identifier.
    pub fn duplicate(&self) -> (r: Self)
        ensures
            r@ == self@,
    {
        match self {
            WindowToolbarItemIdentifier::Custom(s) => WindowToolbarItemIdentifier::Custom(s.clone()),
            WindowToolbarItemIdentifier::Space => WindowToolbarItemIdentifier::Space,
            WindowToolbarItemIdentifier::FlexibleSpace => WindowToolbarItemIdentifier::FlexibleSpace,
            WindowToolbarItemIdentifier::Separator => WindowToolbarItemIdentifier::Separator,
            WindowToolbarItemIdentifier::ToggleSidebar => WindowToolbarItemIdentifier::ToggleSidebar,
            WindowToolbarItemIdentifier::SidebarTrackingSeparator => WindowToolbarItemIdentifier::SidebarTrackingSeparator,
        }
    }
}

/// `ids` with `id` appended unless it already occurs.
pub open spec fn push_unique(ids: Seq<ToolbarIdView>, id: ToolbarIdView) -> Seq<ToolbarIdView> {
    if ids.contains(id) {
        ids
    } else {
        ids.push(id)
    }
}

/// `ids` with each of `more`, in order, appended unless it already occurs.
pub open spec fn push_unique_all(ids: Seq<ToolbarIdView>, more: Seq<ToolbarIdView>) -> Seq<ToolbarIdView>
    decreases more.len(),
{
    if more.len() == 0 {
        ids
    } else {
        push_unique(push_unique_all(ids, more.drop_last()), more.last())
    }
}

/// Whether `ids` already holds an identifier naming the same item as `id`.
fn contains_identifier(ids: &Vec<WindowToolbarItemIdentifier>, id: &WindowToolbarItemIdentifier) -> (r:
    bool)
    ensures
        r == ids_view(ids@).contains(id@),
{
    let mut i: usize = 0;
    while i < ids.len()
        invariant
            i <= ids@.len(),
            forall|j: int| 0 <= j < i ==> ids@[j]@ != id@,
        decreases ids@.len() - i,
    {
        if ids[i].same_as(id) {
            assert(ids_view(ids@)[i as int] == id@);
            return true;
        }
        i = i + 1;
    }
    assert(!ids_view(ids@).contains(id@)) by {
        if ids_view(ids@).contains(id@) {
            let k = choose|k: int| 0 <= k < ids_view(ids@).len() && ids_view(ids@)[k] == id@;
            assert(ids@[k]@ == id@);
        }
    }
    false
}

/// Appends `identifier` to `identifiers` unless an identifier naming the same
/// item is already there.
pub fn push_unique_identifier(
    identifiers: &mut Vec<WindowToolbarItemIdentifier>,
    identifier: WindowToolbarItemIdentifier,
)
    ensures
        ids_view(final(identifiers)@) == push_unique(ids_view(old(identifiers)@), identifier@),
{
    if !contains_identifier(identifiers, &identifier) {
        let ghost before = identifiers@;
        identifiers.push(identifier);
        assert(ids_view(identifiers@) =~= ids_view(before).push(identifier@));
    }
}

/// Appends each of `more`, in order, unless it already occurs.
fn push_unique_identifiers(
    identifiers: &mut Vec<WindowToolbarItemIdentifier>,
    more: &Vec<WindowToolbarItemIdentifier>,
)
    ensures
        ids_view(final(identifiers)@) == push_unique_all(ids_view(old(identifiers)@), ids_view(more@)),
{
    let ghost start = ids_view(identifiers@);
    let mut i: usize = 0;
    while i < more.len()
        invariant
            i <= more@.len(),
            ids_view(identifiers@) == push_unique_all(start, ids_view(more@).take(i as int)),
        decreases more@.len() - i,
    {
        let ghost taken = ids_view(more@).take(i as int + 1);
        assert(taken.drop_last() =~= ids_view(more@).take(i as int));
        assert(taken.last() == more@[i as int]@);
        push_unique_identifier(identifiers, more[i].duplicate());
        i = i + 1;
    }
    assert(ids_view(more@).take(more@.len() as int) =~= ids_view(more@));
}

/// A copy of a list of identifiers.
fn duplicate_identifiers(ids: &Vec<WindowToolbarItemIdentifier>) -> (r: Vec<WindowToolbarItemIdentifier>)
    ensures
        ids_view(r@) == ids_view(ids@),
{
    let mut r: Vec<WindowToolbarItemIdentifier> = Vec::new();
    let mut i: usize = 0;
    while i < ids.len()
        invariant
            i <= ids@.len(),
            r@.len() == i,
            forall|j: int| 0 <= j < i ==> #[trigger] r@[j]@ == ids@[j]@,
        decreases ids@.len() - i,
    {
        r.push(ids[i].duplicate());
        i = i + 1;
    }
    assert(ids_view(r@) =~= ids_view(ids@));
    r
}

/// The identifiers of the window's own items.
pub open spec fn custom_ids(item_ids: Seq<Seq<char>>) -> Seq<ToolbarIdView> {
    item_ids.map_values(|s: Seq<char>| ToolbarIdView::Custom(s))
}

/// The items shown by default: those asked for, or else all of the window's own.
pub open spec fn default_ids(item_ids: Seq<Seq<char>>, requested: Seq<ToolbarIdView>) -> Seq<ToolbarIdView> {
    if requested.len() == 0 {
        custom_ids(item_ids)
    } else {
        requested
    }
}

/// The items the user may add: those asked for (or else the defaults), then
/// every own, default and selectable item not already listed.
pub open spec fn allowed_ids(
    item_ids: Seq<Seq<char>>,
    default_requested: Seq<ToolbarIdView>,
    allowed_requested: Seq<ToolbarIdView>,
    selectable: Seq<ToolbarIdView>,
) -> Seq<ToolbarIdView> {
    let defaults = default_ids(item_ids, default_requested);
    let base = if allowed_requested.len() == 0 {
        defaults
    } else {
        allowed_requested
    };
    push_unique_all(push_unique_all(push_unique_all(base, custom_ids(item_ids)), defaults), selectable)
}

/// The identifier lists a toolbar hands to `NSToolbar`.
pub struct ToolbarIdentifiers {
    pub allowed: Vec<WindowToolbarItemIdentifier>,
    pub default: Vec<WindowToolbarItemIdentifier>,
    pub selectable: Vec<WindowToolbarItemIdentifier>,
}

/// Computes the allowed, default and selectable identifier lists of a toolbar
/// from the identifiers of its own items and the lists the window asked for.
pub fn toolbar_identifiers(
    item_ids: &[&str],
    default_item_identifiers: Vec<WindowToolbarItemIdentifier>,
    allowed_item_identifiers: Vec<WindowToolbarItemIdentifier>,
    selectable_item_identifiers: Vec<WindowToolbarItemIdentifier>,
) -> (r: ToolbarIdentifiers)
    ensures
        ids_view(r.default@) == default_ids(
            item_ids@.map_values(|s: &str| s@),
            ids_view(default_item_identifiers@),
        ),
        ids_view(r.allowed@) == allowed_ids(
            item_ids@.map_values(|s: &str| s@),
            ids_view(default_item_identifiers@),
            ids_view(allowed_item_identifiers@),
            ids_view(selectable_item_identifiers@),
        ),
        ids_view(r.selectable@) == ids_view(selectable_item_identifiers@),
{
    let ghost names = item_ids@.map_values(|s: &str| s@);
    let mut custom: Vec<WindowToolbarItemIdentifier> = Vec::new();
    let mut i: usize = 0;
    while i < item_ids.len()
        invariant
            i <= item_ids@.len(),
            names == item_ids@.map_values(|s: &str| s@),
            custom@.len() == i,
            forall|j: int| 0 <= j < i ==> #[trigger] custom@[j]@ == ToolbarIdView::Custom(names[j]),
        decreases item_ids@.len() - i,
    {
        custom.push(WindowToolbarItemIdentifier::Custom(item_ids[i].to_owned()));
        i = i + 1;
    }
    assert(ids_view(custom@) =~= custom_ids(names));
    let default = if default_item_identifiers.len() == 0 {
        duplicate_identifiers(&custom)
    } else {
        default_item_identifiers
    };
    let mut allowed = if allowed_item_identifiers.len() == 0 {
        duplicate_identifiers(&default)
    } else {
        allowed_item_identifiers
    };
    push_unique_identifiers(&mut allowed, &custom);
    push_unique_identifiers(&mut allowed, &default);
    push_unique_identifiers(&mut allowed, &selectable_item_identifiers);
    ToolbarIdentifiers { allowed, default, selectable: selectable_item_identifiers }
}

/// Appending without repeats keeps what was there, in place, and ends up
/// holding every appended identifier; it repeats nothing that was unique.
pub proof fn lemma_push_unique_all(ids: Seq<ToolbarIdView>, more: Seq<ToolbarIdView>)
    ensures
        push_unique_all(ids, more).len() >= ids.len(),
        push_unique_all(ids, more).subrange(0, ids.len() as int) == ids,
        forall|x: ToolbarIdView| ids.contains(x) ==> push_unique_all(ids, more).contains(x),
        forall|x: ToolbarIdView| more.contains(x) ==> push_unique_all(ids, more).contains(x),
        forall|x: ToolbarIdView|
            push_unique_all(ids, more).contains(x) ==> ids.contains(x) || more.contains(x),
        ids.no_duplicates() ==> push_unique_all(ids, more).no_duplicates(),
    decreases more.len(),
{
    if more.len() > 0 {
        let prev = push_unique_all(ids, more.drop_last());
        lemma_push_unique_all(ids, more.drop_last());
        let last = more.last();
        let r = push_unique_all(ids, more);
        assert(r == push_unique(prev, last));
        if prev.contains(last) {
            assert(r == prev);
        } else {
            assert(r == prev.push(last));
            assert(r.subrange(0, ids.len() as int) =~= prev.subrange(0, ids.len() as int));
            assert(r.contains(last)) by {
                assert(r[prev.len() as int] == last);
            }
            assert forall|x: ToolbarIdView| prev.contains(x) implies r.contains(x) by {
                let k = choose|k: int| 0 <= k < prev.len() && prev[k] == x;
                assert(r[k] == x);
            }
            assert forall|x: ToolbarIdView| r.contains(x) implies prev.contains(x) || x == last by {
                let k = choose|k: int| 0 <= k < r.len() && r[k] == x;
                if k < prev.len() {
                    assert(prev[k] == x);
                }
            }
        }
        assert forall|x: ToolbarIdView| more.contains(x) implies r.contains(x) by {
            let k = choose|k: int| 0 <= k < more.len() && more[k] == x;
            if k < more.len() - 1 {
                assert(more.drop_last()[k] == x);
                assert(more.drop_last().contains(x));
            }
        }
        assert forall|x: ToolbarIdView| r.contains(x) implies ids.contains(x) || more.contains(x) by {
            if prev.contains(x) {
                if more.drop_last().contains(x) {
                    let k = choose|k: int| 0 <= k < more.drop_last().len() && more.drop_last()[k] == x;
                    assert(more[k] == x);
                }
            } else {
                assert(more[more.len() - 1] == x);
            }
        }
    }
}

/// The toolbar offers every item of the window, every default item and every
/// selectable item; it lists first, unchanged, the items asked for (or the
/// defaults), and repeats none of them when those had no repeats.
pub proof fn lemma_allowed_ids_cover(
    item_ids: Seq<Seq<char>>,
    default_requested: Seq<ToolbarIdView>,
    allowed_requested: Seq<ToolbarIdView>,
    selectable: Seq<ToolbarIdView>,
)
    ensures
        ({
            let allowed = allowed_ids(item_ids, default_requested, allowed_requested, selectable);
            let defaults = default_ids(item_ids, default_requested);
            let base = if allowed_requested.len() == 0 {
                defaults
            } else {
                allowed_requested
            };
            &&& forall|x: ToolbarIdView| custom_ids(item_ids).contains(x) ==> allowed.contains(x)
            &&& forall|x: ToolbarIdView| defaults.contains(x) ==> allowed.contains(x)
            &&& forall|x: ToolbarIdView| selectable.contains(x) ==> allowed.contains(x)
            &&& allowed.subrange(0, base.len() as int) == base
            &&& base.no_duplicates() ==> allowed.no_duplicates()
        }),
{
    let defaults = default_ids(item_ids, default_requested);
    let base = if allowed_requested.len() == 0 {
        defaults
    } else {
        allowed_requested
    };
    let a1 = push_unique_all(base, custom_ids(item_ids));
    let a2 = push_unique_all(a1, defaults);
    let a3 = push_unique_all(a2, selectable);
    lemma_push_unique_all(base, custom_ids(item_ids));
    lemma_push_unique_all(a1, defaults);
    lemma_push_unique_all(a2, selectable);
    assert(a3.subrange(0, base.len() as int) =~= a2.subrange(0, a1.len() as int).subrange(
        0,
        base.len() as int,
    )) by {
        assert(a3.subrange(0, a2.len() as int) == a2);
        assert(a2.subrange(0, a1.len() as int) == a1);
    }
}

/// How toolbar items are shown.
#[derive(Clone, Copy, Debug, PartialEq, Eq, Structural)]
pub enum WindowToolbarDisplayMode {
    Default,
    IconAndLabel,
    IconOnly,
    LabelOnly,
}

/// The `NSToolbarDisplayMode` value of a display mode.
pub open spec fn display_mode_raw(m: WindowToolbarDisplayMode) -> i64 {
    match m {
        WindowToolbarDisplayMode::Default => 0,
        WindowToolbarDisplayMode::IconAndLabel => 1,
        WindowToolbarDisplayMode::IconOnly => 2,
        WindowToolbarDisplayMode::LabelOnly => 3,
    }
}

/// The `NSToolbarDisplayMode` value of a display mode.
pub fn toolbar_display_mode(display_mode: WindowToolbarDisplayMode) -> (r: i64)
    ensures
        r == display_mode_raw(display_mode),
{
    match display_mode {
        WindowToolbarDisplayMode::Default => 0,
        WindowToolbarDisplayMode::IconAndLabel => 1,
        WindowToolbarDisplayMode::IconOnly => 2,
        WindowToolbarDisplayMode::LabelOnly => 3,
    }
}

/// How many items of a toolbar group can be selected.
#[derive(Clone, Copy, Debug, PartialEq, Eq, Structural)]
pub enum WindowToolbarGroupSelectionMode {
    SelectOne,
    SelectAny,
    Momentary,
}

/// The `NSToolbarItemGroupSelectionMode` value of a selection mode.
pub open spec fn group_selection_mode_raw(m: WindowToolbarGroupSelectionMode) -> i64 {
    match m {
        WindowToolbarGroupSelectionMode::SelectOne => 0,
        WindowToolbarGroupSelectionMode::SelectAny => 1,
        WindowToolbarGroupSelectionMode::Momentary => 2,
    }
}

/// The `NSToolbarItemGroupSelectionMode` value of a selection mode.
pub fn toolbar_group_selection_mode(selection_mode: WindowToolbarGroupSelectionMode) -> (r: i64)
    ensures
        r == group_selection_mode_raw(selection_mode),
{
    match selection_mode {
        WindowToolbarGroupSelectionMode::SelectOne => 0,
        WindowToolbarGroupSelectionMode::SelectAny => 1,
        WindowToolbarGroupSelectionMode::Momentary => 2,
    }
}

/// How a toolbar group shows its items.
#[derive(Clone, Copy, Debug, PartialEq, Eq, Structural)]
pub enum WindowToolbarGroupControlRepresentation {
    Automatic,
    Expanded,
    Collapsed,
}

/// The `NSToolbarItemGroupControlRepresentation` value of a representation.
pub open spec fn group_representation_raw(r: WindowToolbarGroupControlRepresentation) -> i64 {
    match r {
        WindowToolbarGroupControlRepresentation::Automatic => 0,
        WindowToolbarGroupControlRepresentation::Expanded => 1,
        WindowToolbarGroupControlRepresentation::Collapsed => 2,
    }
}

/// The `NSToolbarItemGroupControlRepresentation` value of a representation.
pub fn toolbar_group_control_representation(
    representation: WindowToolbarGroupControlRepresentation,
) -> (r: i64)
    ensures
        r == group_representation_raw(representation),
{
    match representation {
        WindowToolbarGroupControlRepresentation::Automatic => 0,
        WindowToolbarGroupControlRepresentation::Expanded => 1,
        WindowToolbarGroupControlRepresentation::Collapsed => 2,
    }
}

} // verus!
