//! Collection views (`NSCollectionView`): the item presentation chosen on the
//! element and the one understood by the native layer, what each item shows,
//! and which item the native collection selects.

use vstd::prelude::*;
use vstd::std_specs::convert::FromSpecImpl;
use crate::native_index::native_index_in;

verus! {

/// Emitted when an item is clicked.
pub struct CollectionSelectEvent {
    /// Zero-based item index.
    pub index: usize,
}

/// Presentation of the items, chosen on the element.
#[derive(Clone, Copy, Debug, PartialEq, Eq, Structural)]
pub enum NativeCollectionItemStyle {
    /// Plain labels with native selection.
    Label,
    /// Card-like cells.
    Card,
}

impl Default for NativeCollectionItemStyle {
    fn default() -> (s: Self)
        ensures
            s == NativeCollectionItemStyle::Card,
    {
        NativeCollectionItemStyle::Card
    }
}

/// Presentation of the items, as the native layer takes it.
#[derive(Clone, Copy, Debug, PartialEq, Eq, Structural)]
pub enum CollectionItemStyle {
    Label,
    Card,
}

/// The native presentation for an element presentation.
pub open spec fn native_item_style(s: NativeCollectionItemStyle) -> CollectionItemStyle {
    match s {
        NativeCollectionItemStyle::Label => CollectionItemStyle::Label,
        NativeCollectionItemStyle::Card => CollectionItemStyle::Card,
    }
}

impl From<NativeCollectionItemStyle> for CollectionItemStyle {
    fn from(s: NativeCollectionItemStyle) -> (r: Self) {
        match s {
            NativeCollectionItemStyle::Label => CollectionItemStyle::Label,
            NativeCollectionItemStyle::Card => CollectionItemStyle::Card,
        }
    }
}

impl FromSpecImpl<NativeCollectionItemStyle> for CollectionItemStyle {
    open spec fn obeys_from_spec() -> bool {
        true
    }

    open spec fn from_spec(s: NativeCollectionItemStyle) -> CollectionItemStyle {
        native_item_style(s)
    }
}

/// How the native view draws the item at a reported index.
pub struct CollectionItemContent {
    pub title: String,
    pub selected: bool,
}

/// The content of the item at native index `index`: its title, and whether it
/// is the selected one; nothing for an index that names no item.
pub fn collection_item_content(items: &Vec<String>, selected: Option<usize>, index: i64) -> (c:
    Option<CollectionItemContent>)
    ensures
        c.is_some() == (0 <= index < items@.len()),
        c matches Some(content) ==> content.title@ == items@[index as int]@ && content.selected == (
        selected == Some(index as usize)),
{
    match native_index_in(index, items.len()) {
        Some(i) => Some(CollectionItemContent { title: items[i].clone(), selected: selected == Some(i) }),
        None => None,
    }
}

/// The item the native collection selects: the requested one when it names an
/// item, none otherwise.
pub fn collection_selection(selected: Option<usize>, len: usize) -> (r: Option<usize>)
    ensures
        r == (match selected {
            Some(i) => if i < len { Some(i) } else { None },
            None => None,
        }),
{
    match selected {
        Some(i) => if i < len { Some(i) } else { None },
        None => None,
    }
}

} // verus!
