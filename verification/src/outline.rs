//! Outline views (`NSOutlineView`): tree nodes, their conversion to the native
//! layer's node data, and the native value of the selection highlight.

use vstd::prelude::*;

verus! {

/// A node of an outline tree.
#[derive(Debug, PartialEq, Eq)]
pub struct NativeOutlineNode {
    /// Label shown for this row.
    pub title: String,
    /// Child nodes under this row.
    pub children: Vec<NativeOutlineNode>,
}

/// The mathematical value of an outline node.
pub struct OutlineNodeView {
    pub title: Seq<char>,
    pub children: Seq<OutlineNodeView>,
}

/// The value of a node with its subtree.
pub open spec fn outline_node_view(node: NativeOutlineNode) -> OutlineNodeView
    decreases node,
{
    OutlineNodeView {
        title: node.title@,
        children: Seq::new(
            node.children@.len(),
            |k: int|
                if 0 <= k < node.children@.len() {
                    outline_node_view(node.children@[k])
                } else {
                    OutlineNodeView { title: Seq::empty(), children: Seq::empty() }
                },
        ),
    }
}

impl View for NativeOutlineNode {
    type V = OutlineNodeView;

    open spec fn view(&self) -> OutlineNodeView {
        outline_node_view(*self)
    }
}

/// The values of a list of nodes.
pub open spec fn outline_nodes_view(nodes: Seq<NativeOutlineNode>) -> Seq<OutlineNodeView> {
    nodes.map_values(|n: NativeOutlineNode| n@)
}

impl NativeOutlineNode {
    /// A node without children.
    pub fn leaf(title: &str) -> (n: Self)
        ensures
            n@ == (OutlineNodeView { title: title@, children: Seq::empty() }),
    {
        let n = NativeOutlineNode { title: title.to_owned(), children: Vec::new() };
        assert(outline_node_view(n).children =~= Seq::<OutlineNodeView>::empty());
        n
    }

    /// A node with the given children.
    pub fn branch(title: &str, children: Vec<NativeOutlineNode>) -> (n: Self)
        ensures
            n@ == (OutlineNodeView { title: title@, children: outline_nodes_view(children@) }),
    {
        let n = NativeOutlineNode { title: title.to_owned(), children };
        assert(outline_node_view(n).children =~= outline_nodes_view(children@));
        n
    }
}

/// A node as the native layer takes it.
#[derive(Debug, PartialEq, Eq)]
pub struct NativeOutlineNodeData {
    pub title: String,
    pub children: Vec<NativeOutlineNodeData>,
}

/// The value of a native node with its subtree.
pub open spec fn outline_data_view(node: NativeOutlineNodeData) -> OutlineNodeView
    decreases node,
{
    OutlineNodeView {
        title: node.title@,
        children: Seq::new(
            node.children@.len(),
            |k: int|
                if 0 <= k < node.children@.len() {
                    outline_data_view(node.children@[k])
                } else {
                    OutlineNodeView { title: Seq::empty(), children: Seq::empty() }
                },
        ),
    }
}

/// The native node for a node, with its subtree.
fn convert_node(node: &NativeOutlineNode) -> (d: NativeOutlineNodeData)
    ensures
        outline_data_view(d) == node@,
    decreases node,
{
    let mut children: Vec<NativeOutlineNodeData> = Vec::new();
    let mut i: usize = 0;
    while i < node.children.len()
        invariant
            i <= node.children@.len(),
            children@.len() == i,
            forall|j: int|
                0 <= j < i ==> outline_data_view(#[trigger] children@[j]) == outline_node_view(
                    node.children@[j],
                ),
        decreases node.children@.len() - i,
    {
        proof {
            assert(decreases_to!(*node => node.children));
            assert(decreases_to!(node.children => node.children@));
            assert(decreases_to!(node.children@ => node.children@[i as int]));
        }
        children.push(convert_node(&node.children[i]));
        i = i + 1;
    }
    let d = NativeOutlineNodeData { title: node.title.clone(), children };
    assert(outline_data_view(d).children =~= outline_node_view(*node).children);
    d
}

/// The native nodes for a forest of nodes: same titles, same shape.
pub fn map_nodes(nodes: &[NativeOutlineNode]) -> (v: Vec<NativeOutlineNodeData>)
    ensures
        v@.len() == nodes@.len(),
        forall|k: int| 0 <= k < nodes@.len() ==> outline_data_view(#[trigger] v@[k]) == nodes@[k]@,
{
    let mut v: Vec<NativeOutlineNodeData> = Vec::new();
    let mut i: usize = 0;
    while i < nodes.len()
        invariant
            i <= nodes@.len(),
            v@.len() == i,
            forall|j: int| 0 <= j < i ==> outline_data_view(#[trigger] v@[j]) == nodes@[j]@,
        decreases nodes@.len() - i,
    {
        v.push(convert_node(&nodes[i]));
        i = i + 1;
    }
    v
}

/// Emitted when a row is selected.
pub struct OutlineRowSelectEvent {
    /// Zero-based row index among the visible rows.
    pub index: usize,
    /// Title of the selected row.
    pub title: String,
}

/// Selection highlight of an outline view.
#[derive(Clone, Copy, Debug, PartialEq, Eq, Structural)]
pub enum NativeOutlineHighlight {
    /// The standard highlight.
    Regular,
    /// The translucent source-list highlight.
    SourceList,
    /// No highlight.
    NoHighlight,
}

impl Default for NativeOutlineHighlight {
    fn default() -> (h: Self)
        ensures
            h == NativeOutlineHighlight::Regular,
    {
        NativeOutlineHighlight::Regular
    }
}

/// The `NSTableViewSelectionHighlightStyle` value of a highlight.
pub open spec fn outline_highlight_raw(h: NativeOutlineHighlight) -> i64 {
    match h {
        NativeOutlineHighlight::Regular => 0,
        NativeOutlineHighlight::SourceList => 1,
        NativeOutlineHighlight::NoHighlight => -1i64,
    }
}

impl NativeOutlineHighlight {
    /// The `NSTableViewSelectionHighlightStyle` value.
    pub fn to_ns_style(self) -> (r: i64)
        ensures
            r == outline_highlight_raw(self),
    {
        match self {
            NativeOutlineHighlight::Regular => 0,
            NativeOutlineHighlight::SourceList => 1,
            NativeOutlineHighlight::NoHighlight => -1,
        }
    }
}

} // verus!
