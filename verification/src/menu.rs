//! Menus: menu item trees, their conversion to the native layer's menu data,
//! and the menu button / context menu element.

use vstd::prelude::*;
use crate::element_id::{ElementId, ElementIdView};
use crate::layout::{byte_len, fit_label_width, label_width};
use crate::text::opt_view;

verus! {

/// An entry of a native menu.
#[derive(Debug, PartialEq, Eq)]
pub enum NativeMenuItem {
    /// A selectable entry.
    Action { title: String, enabled: bool },
    /// An entry opening a nested menu.
    Submenu { title: String, enabled: bool, items: Vec<NativeMenuItem> },
    /// A separator line.
    Separator,
}

/// The mathematical value of a [`NativeMenuItem`].
pub enum MenuItemView {
    Action { title: Seq<char>, enabled: bool },
    Submenu { title: Seq<char>, enabled: bool, items: Seq<MenuItemView> },
    Separator,
}

/// The value of a menu item, with its nested items.
pub open spec fn menu_item_view(item: NativeMenuItem) -> MenuItemView
    decreases item,
{
    match item {
        NativeMenuItem::Action { title, enabled } => MenuItemView::Action { title: title@, enabled },
        NativeMenuItem::Submenu { title, enabled, items } => MenuItemView::Submenu {
            title: title@,
            enabled,
            items: Seq::new(
                items@.len(),
                |k: int|
                    if 0 <= k < items@.len() {
                        menu_item_view(items@[k])
                    } else {
                        MenuItemView::Separator
                    },
            ),
        },
        NativeMenuItem::Separator => MenuItemView::Separator,
    }
}

impl View for NativeMenuItem {
    type V = MenuItemView;

    open spec fn view(&self) -> MenuItemView {
        menu_item_view(*self)
    }
}

/// The values of a list of menu items.
pub open spec fn menu_items_view(items: Seq<NativeMenuItem>) -> Seq<MenuItemView> {
    items.map_values(|i: NativeMenuItem| i@)
}

/// A menu entry as the native layer takes it: an item with an optional icon.
#[derive(Debug, PartialEq, Eq)]
pub enum NativeMenuItemData {
    Action { title: String, enabled: bool, icon: Option<String> },
    Submenu { title: String, enabled: bool, icon: Option<String>, items: Vec<NativeMenuItemData> },
    Separator,
}

/// The mathematical value of a [`NativeMenuItemData`].
pub enum MenuItemDataView {
    Action { title: Seq<char>, enabled: bool, icon: Option<Seq<char>> },
    Submenu {
        title: Seq<char>,
        enabled: bool,
        icon: Option<Seq<char>>,
        items: Seq<MenuItemDataView>,
    },
    Separator,
}

/// The value of a native menu entry, with its nested entries.
pub open spec fn menu_item_data_view(d: NativeMenuItemData) -> MenuItemDataView
    decreases d,
{
    match d {
        NativeMenuItemData::Action { title, enabled, icon } => MenuItemDataView::Action {
            title: title@,
            enabled,
            icon: opt_view(icon),
        },
        NativeMenuItemData::Submenu { title, enabled, icon, items } => MenuItemDataView::Submenu {
            title: title@,
            enabled,
            icon: opt_view(icon),
            items: Seq::new(
                items@.len(),
                |k: int|
                    if 0 <= k < items@.len() {
                        menu_item_data_view(items@[k])
                    } else {
                        MenuItemDataView::Separator
                    },
            ),
        },
        NativeMenuItemData::Separator => MenuItemDataView::Separator,
    }
}

/// The native entry for a menu item: same titles, enablement and nesting, no icons.
pub open spec fn native_entry(v: MenuItemView) -> MenuItemDataView
    decreases v,
{
    match v {
        MenuItemView::Action { title, enabled } => MenuItemDataView::Action {
            title,
            enabled,
            icon: None,
        },
        MenuItemView::Submenu { title, enabled, items } => MenuItemDataView::Submenu {
            title,
            enabled,
            icon: None,
            items: Seq::new(
                items.len(),
                |k: int|
                    if 0 <= k < items.len() {
                        native_entry(items[k])
                    } else {
                        MenuItemDataView::Separator
                    },
            ),
        },
        MenuItemView::Separator => MenuItemDataView::Separator,
    }
}

impl NativeMenuItem {
    /// An enabled action entry.
    pub fn action(title: &str) -> (m: Self)
        ensures
            m@ == (MenuItemView::Action { title: title@, enabled: true }),
    {
        NativeMenuItem::Action { title: title.to_owned(), enabled: true }
    }

    /// An enabled entry opening the given nested items.
    pub fn submenu(title: &str, items: Vec<NativeMenuItem>) -> (m: Self)
        ensures
            m@ == (MenuItemView::Submenu {
                title: title@,
                enabled: true,
                items: menu_items_view(items@),
            }),
    {
        let m = NativeMenuItem::Submenu { title: title.to_owned(), enabled: true, items };
        proof {
            let v = menu_item_view(m);
            assert(v->Submenu_items =~= menu_items_view(items@));
        }
        m
    }

    /// A separator line.
    pub fn separator() -> (m: Self)
        ensures
            m@ == MenuItemView::Separator,
    {
        NativeMenuItem::Separator
    }

    /// The same entry enabled or disabled; a separator is unchanged.
    pub fn enabled(self, enabled: bool) -> (m: Self)
        ensures
            m@ == (match self@ {
                MenuItemView::Action { title, .. } => MenuItemView::Action { title, enabled },
                MenuItemView::Submenu { title, items, .. } => MenuItemView::Submenu {
                    title,
                    enabled,
                    items,
                },
                MenuItemView::Separator => MenuItemView::Separator,
            }),
    {
        let m = match self {
            NativeMenuItem::Action { title, .. } => NativeMenuItem::Action { title, enabled },
            NativeMenuItem::Submenu { title, items, .. } => NativeMenuItem::Submenu {
                title,
                enabled,
                items,
            },
            NativeMenuItem::Separator => NativeMenuItem::Separator,
        };
        proof {
            if m is Submenu {
                assert(menu_item_view(m)->Submenu_items =~= menu_item_view(self)->Submenu_items);
            }
        }
        m
    }

    /// A deep copy of this entry.
    pub fn duplicate(&self) -> (m: Self)
        ensures
            m@ == self@,
        decreases self,
    {
        match self {
            NativeMenuItem::Action { title, enabled } => NativeMenuItem::Action {
                title: title.clone(),
                enabled: *enabled,
            },
            NativeMenuItem::Submenu { title, enabled, items } => {
                let mut copies: Vec<NativeMenuItem> = Vec::new();
                let mut i: usize = 0;
                while i < items.len()
                    invariant
                        i <= items@.len(),
                        copies@.len() == i,
                        *self == (NativeMenuItem::Submenu { title: *title, enabled: *enabled, items: *items }),
                        forall|j: int|
                            0 <= j < i ==> menu_item_view(#[trigger] copies@[j]) == menu_item_view(
                                items@[j],
                            ),
                    decreases items@.len() - i,
                {
                    proof {
                    assert(decreases_to!(*self => (*self)->Submenu_items));
                    assert(decreases_to!(*items => items@));
                    assert(decreases_to!(items@ => items@[i as int]));
                    assert(decreases_to!(*self => items@[i as int]));
                }
                    let c = items[i].duplicate();
                    copies.push(c);
                    i = i + 1;
                }
                let m = NativeMenuItem::Submenu { title: title.clone(), enabled: *enabled, items: copies };
                proof {
                    assert(menu_item_view(m)->Submenu_items =~= menu_item_view(*self)->Submenu_items);
                }
                m
            },
            NativeMenuItem::Separator => NativeMenuItem::Separator,
        }
    }
}

/// Deep copies of a list of menu items.
pub fn duplicate_items(items: &[NativeMenuItem]) -> (v: Vec<NativeMenuItem>)
    ensures
        menu_items_view(v@) =~= menu_items_view(items@),
{
    let mut v: Vec<NativeMenuItem> = Vec::new();
    let mut i: usize = 0;
    while i < items.len()
        invariant
            i <= items@.len(),
            v@.len() == i,
            forall|j: int| 0 <= j < i ==> #[trigger] v@[j]@ == items@[j]@,
        decreases items@.len() - i,
    {
        v.push(items[i].duplicate());
        i = i + 1;
    }
    v
}

/// The native entry for one menu item, with its nested items.
fn convert_item(item: &NativeMenuItem) -> (d: NativeMenuItemData)
    ensures
        menu_item_data_view(d) == native_entry(item@),
    decreases item,
{
    match item {
        NativeMenuItem::Action { title, enabled } => NativeMenuItemData::Action {
            title: title.clone(),
            enabled: *enabled,
            icon: None,
        },
        NativeMenuItem::Submenu { title, enabled, items } => {
            let mut converted: Vec<NativeMenuItemData> = Vec::new();
            let mut i: usize = 0;
            while i < items.len()
                invariant
                    i <= items@.len(),
                    converted@.len() == i,
                    *item == (NativeMenuItem::Submenu { title: *title, enabled: *enabled, items: *items }),
                    forall|j: int|
                        0 <= j < i ==> menu_item_data_view(#[trigger] converted@[j])
                            == native_entry(items@[j]@),
                decreases items@.len() - i,
            {
                proof {
                    assert(decreases_to!(*item => (*item)->Submenu_items));
                    assert(decreases_to!(*items => items@));
                    assert(decreases_to!(items@ => items@[i as int]));
                    assert(decreases_to!(*item => items@[i as int]));
                }
                let c = convert_item(&items[i]);
                converted.push(c);
                i = i + 1;
            }
            let d = NativeMenuItemData::Submenu {
                title: title.clone(),
                enabled: *enabled,
                icon: None,
                items: converted,
            };
            proof {
                let dv = menu_item_data_view(d);
                let ev = native_entry(menu_item_view(*item));
                assert(dv->Submenu_items =~= ev->Submenu_items);
            }
            d
        },
        NativeMenuItem::Separator => NativeMenuItemData::Separator,
    }
}

/// The native entries for a list of menu items, in order.
pub fn map_items(items: &[NativeMenuItem]) -> (v: Vec<NativeMenuItemData>)
    ensures
        v@.len() == items@.len(),
        forall|k: int|
            0 <= k < items@.len() ==> menu_item_data_view(#[trigger] v@[k]) == native_entry(
                items@[k]@,
            ),
{
    let mut v: Vec<NativeMenuItemData> = Vec::new();
    let mut i: usize = 0;
    while i < items.len()
        invariant
            i <= items@.len(),
            v@.len() == i,
            forall|j: int|
                0 <= j < i ==> menu_item_data_view(#[trigger] v@[j]) == native_entry(items@[j]@),
        decreases items@.len() - i,
    {
        v.push(convert_item(&items[i]));
        i = i + 1;
    }
    v
}

/// A context menu for the glue to show at `position`: the native entries and
/// the listener to call when an entry is chosen.
pub struct PopupMenuRequest<P, F> {
    pub items: Vec<NativeMenuItemData>,
    pub position: P,
    pub on_select: F,
}

/// Prepares a context menu of `items` at `position` (in the window's
/// coordinates, which the library carries without reading): the glue shows the
/// native entries and hands the outcome to [`PopupMenuRequest::finish`].
pub fn show_native_popup_menu<P, F>(items: &[NativeMenuItem], position: P, on_select: F) -> (r:
    PopupMenuRequest<P, F>)
    ensures
        r.items@.len() == items@.len(),
        forall|k: int|
            0 <= k < items@.len() ==> menu_item_data_view(#[trigger] r.items@[k]) == native_entry(
                items@[k]@,
            ),
        r.position == position,
        r.on_select == on_select,
{
    PopupMenuRequest { items: map_items(items), position, on_select }
}

impl<P, F> PopupMenuRequest<P, F> {
    /// What follows the menu: the listener and the chosen index when an entry
    /// was chosen, nothing when the menu was dismissed.
    pub fn finish(self, chosen: Option<usize>) -> (r: Option<(F, usize)>)
        ensures
            r == (match chosen {
                Some(index) => Some((self.on_select, index)),
                None => None,
            }),
    {
        match chosen {
            Some(index) => Some((self.on_select, index)),
            None => None,
        }
    }
}

/// Emitted when a menu entry is chosen; `index` counts the top-level entries.
pub struct MenuItemSelectEvent {
    pub index: usize,
}

/// Whether the element shows a pull-down button or opens as a context menu.
#[derive(Clone, Copy, Debug, PartialEq, Eq, Structural)]
pub enum NativeMenuKind {
    Button,
    Context,
}

/// Everything the native layer needs to create or update a menu button.
pub struct MenuButtonConfig<L> {
    pub title: String,
    pub context_menu: bool,
    pub items: Vec<NativeMenuItemData>,
    pub enabled: bool,
    pub on_select: Option<L>,
}

/// A native menu button or context menu; `L` is the type of its selection listener.
pub struct NativeMenuButton<L> {
    id: ElementId,
    label: String,
    items: Vec<NativeMenuItem>,
    on_select: Option<L>,
    disabled: bool,
    kind: NativeMenuKind,
}

/// The state of a [`NativeMenuButton`].
pub struct NativeMenuButtonView<L> {
    pub id: ElementIdView,
    pub label: Seq<char>,
    pub items: Seq<MenuItemView>,
    pub on_select: Option<L>,
    pub disabled: bool,
    pub kind: NativeMenuKind,
}

impl<L> View for NativeMenuButton<L> {
    type V = NativeMenuButtonView<L>;

    closed spec fn view(&self) -> NativeMenuButtonView<L> {
        NativeMenuButtonView {
            id: self.id@,
            label: self.label@,
            items: menu_items_view(self.items@),
            on_select: self.on_select,
            disabled: self.disabled,
            kind: self.kind,
        }
    }
}

/// Creates an enabled pull-down menu button over copies of `items`.
pub fn native_menu_button<L>(id: ElementId, label: &str, items: &[NativeMenuItem]) -> (m:
    NativeMenuButton<L>)
    ensures
        m@ == (NativeMenuButtonView::<L> {
            id: id@,
            label: label@,
            items: menu_items_view(items@),
            on_select: None,
            disabled: false,
            kind: NativeMenuKind::Button,
        }),
{
    NativeMenuButton {
        id,
        label: label.to_owned(),
        items: duplicate_items(items),
        on_select: None,
        disabled: false,
        kind: NativeMenuKind::Button,
    }
}

/// Creates an enabled context menu over copies of `items`.
pub fn native_context_menu<L>(id: ElementId, label: &str, items: &[NativeMenuItem]) -> (m:
    NativeMenuButton<L>)
    ensures
        m@ == (NativeMenuButtonView::<L> {
            id: id@,
            label: label@,
            items: menu_items_view(items@),
            on_select: None,
            disabled: false,
            kind: NativeMenuKind::Context,
        }),
{
    NativeMenuButton {
        id,
        label: label.to_owned(),
        items: duplicate_items(items),
        on_select: None,
        disabled: false,
        kind: NativeMenuKind::Context,
    }
}

impl<L> NativeMenuButton<L> {
    /// Registers the listener called when an entry is chosen.
    pub fn on_select(self, listener: L) -> (m: Self)
        ensures
            m@ == (NativeMenuButtonView { on_select: Some(listener), ..self@ }),
    {
        let mut m = self;
        m.on_select = Some(listener);
        m
    }

    /// Sets whether the button is disabled.
    pub fn disabled(self, disabled: bool) -> (m: Self)
        ensures
            m@ == (NativeMenuButtonView { disabled: disabled, ..self@ }),
    {
        let mut m = self;
        m.disabled = disabled;
        m
    }

    /// The identifier of the element.
    pub fn id(&self) -> (id: ElementId)
        ensures
            id@ == self@.id,
    {
        self.id.duplicate()
    }

    /// Width and height requested where the style leaves them automatic: eight
    /// pixels per label byte plus 40, at least 140, by 26 high.
    pub fn intrinsic_size(&self) -> (size: (u64, u64))
        ensures
            size == (label_width(byte_len(self@.label), 40, 140), 26u64),
    {
        (fit_label_width(self.label.as_str(), 40, 140), 26)
    }

    /// The configuration handed to the native layer when painted, with the
    /// items converted to native entries. The listener moves into it.
    pub fn take_config(&mut self) -> (c: MenuButtonConfig<L>)
        ensures
            final(self)@ == (NativeMenuButtonView { on_select: None, ..old(self)@ }),
            c.title@ == old(self)@.label,
            c.context_menu == (old(self)@.kind == NativeMenuKind::Context),
            c.items@.len() == old(self)@.items.len(),
            forall|k: int|
                0 <= k < c.items@.len() ==> menu_item_data_view(#[trigger] c.items@[k])
                    == native_entry(old(self)@.items[k]),
            c.enabled == !old(self)@.disabled,
            c.on_select == old(self)@.on_select,
    {
        let on_select = self.on_select.take();
        let items = map_items(self.items.as_slice());
        MenuButtonConfig {
            title: self.label.clone(),
            context_menu: self.kind == NativeMenuKind::Context,
            items,
            enabled: !self.disabled,
            on_select,
        }
    }
}

/// Converting a menu item keeps its kind, title and enabled flag (for actions
/// and submenus alike), gives it no icon, and converts a submenu's entries one
/// for one, in order.
pub proof fn lemma_native_entry_keeps_items(v: MenuItemView)
    ensures
        (v is Action) == (native_entry(v) is Action),
        (v is Submenu) == (native_entry(v) is Submenu),
        (v is Separator) == (native_entry(v) is Separator),
        v matches MenuItemView::Action { title, enabled } ==> (native_entry(v) matches MenuItemDataView::Action {
            title: t,
            enabled: e,
            icon: i,
        } && t == title && e == enabled && i is None),
        v matches MenuItemView::Submenu { title, enabled, items } ==> (native_entry(v) matches MenuItemDataView::Submenu {
            title: t,
            enabled: e,
            icon: i,
            items: entries,
        } && t == title && e == enabled && i is None && entries.len() == items.len() && forall|k: int|
            0 <= k < items.len() ==> #[trigger] entries[k] == native_entry(items[k])),
{
}

} // verus!
