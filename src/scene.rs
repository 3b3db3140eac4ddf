use vstd::prelude::*;

use crate::options::{Alignment, Justification, alignment_name, justification_name};

verus! {

/// A colour of the showcase's palette.
#[derive(Clone, Copy, Debug, PartialEq, Eq, Structural)]
pub enum Palette {
    /// Marks everything that names an alignment.
    AlignmentAccent,
    /// Marks everything that names a justification.
    JustificationAccent,
    /// Background of one sample cell.
    DarkGray,
    /// Background of the grid, and the colour of all text.
    Black,
}

/// Where a node stands among the columns of its grid.
#[derive(Clone, Copy, Debug, PartialEq, Eq, Structural)]
pub enum ColumnPlacement {
    /// Starts at the given column line; lines count from 1.
    StartAt(u16),
    /// Spans the given number of columns from wherever auto-placement puts it.
    Span(u16),
}

/// What a text node shows.
#[derive(Clone, Copy, Debug, PartialEq, Eq, Structural)]
pub enum Label {
    AlignmentHeading,
    JustificationHeading,
    AlignmentName(Alignment),
    JustificationName(Justification),
}

/// The text that a label stands for.
pub open spec fn label_text(l: Label) -> &'static str {
    match l {
        Label::AlignmentHeading => "AlignItems",
        Label::JustificationHeading => "JustifyContent",
        Label::AlignmentName(a) => alignment_name(a),
        Label::JustificationName(j) => justification_name(j),
    }
}

impl Label {
    /// The text shown: a heading's title, or the variant name of an option.
    pub fn text(&self) -> (r: &'static str)
        ensures
            r == label_text(*self),
    {
        match self {
            Label::AlignmentHeading => "AlignItems",
            Label::JustificationHeading => "JustifyContent",
            Label::AlignmentName(a) => a.name(),
            Label::JustificationName(j) => j.name(),
        }
    }
}

/// Track layout of a grid container, in whole pixels.
///
/// The first row is sized to its content; the remaining `rows - 1` rows have
/// `row_height_px` each. All `columns` have `column_width_px` each.
#[derive(Clone, Copy, Debug, PartialEq, Eq, Structural)]
pub struct GridStyle {
    pub columns: u16,
    pub column_width_px: u16,
    pub rows: u16,
    pub row_height_px: u16,
    pub gap_px: u16,
    pub padding_px: u16,
}

/// The kind of a scene node and the style that goes with it.
#[derive(Clone, Copy, Debug, PartialEq, Eq, Structural)]
pub enum NodeKind {
    /// The 2D camera through which everything is seen.
    Camera,
    /// A flex container filling the whole window.
    Screen { justify: Justification, align: Alignment },
    /// A grid container with a background colour.
    Grid { style: GridStyle, background: Palette },
    /// A coloured heading box of the grid's first row, centring its text.
    Heading { background: Palette, column: ColumnPlacement },
    /// An empty grid item.
    Filler { column: ColumnPlacement },
    /// A column flex container laid out with one alignment and one justification.
    Sample { align: Alignment, justify: Justification, gap_px: u16, background: Palette },
    /// A coloured box with padding that centres its text.
    Swatch { background: Palette },
    /// A line of text.
    Text { label: Label, font_size: u16, color: Palette },
}

/// One node of the scene tree.
#[derive(Clone, Copy, Debug, PartialEq, Eq, Structural)]
pub struct Node {
    /// Index of the enclosing node, or `None` for a top-level node.
    pub parent: Option<usize>,
    pub kind: NodeKind,
}

/// A scene tree held as an arena: nodes are numbered in the order of their
/// creation, and a node's parent always comes before it.
pub struct Scene {
    nodes: Vec<Node>,
}

/// Every parent named in `nodes` was created before its child.
pub open spec fn parents_precede(nodes: Seq<Node>) -> bool {
    forall|i: int|
        0 <= i < nodes.len() ==> match #[trigger] nodes[i].parent {
            Some(p) => p < i,
            None => true,
        }
}

impl View for Scene {
    type V = Seq<Node>;

    closed spec fn view(&self) -> Seq<Node> {
        self.nodes@
    }
}

impl Scene {
    /// The well-formedness of the arena.
    pub open spec fn wf(&self) -> bool {
        parents_precede(self@)
    }

    /// An empty scene.
    pub fn new() -> (r: Scene)
        ensures
            r@ == Seq::<Node>::empty(),
            r.wf(),
    {
        Scene { nodes: Vec::new() }
    }

    /// The number of nodes created so far.
    pub fn len(&self) -> (r: usize)
        ensures
            r == self@.len(),
    {
        self.nodes.len()
    }

    /// The node with index `i`.
    pub fn node(&self, i: usize) -> (r: Node)
        requires
            i < self@.len(),
        ensures
            r == self@[i as int],
    {
        self.nodes[i]
    }

    /// Creates a node under `parent` (or at the top level) and returns its index.
    pub fn spawn(&mut self, parent: Option<usize>, kind: NodeKind) -> (r: usize)
        requires
            old(self).wf(),
            match parent {
                Some(p) => p < old(self)@.len(),
                None => true,
            },
        ensures
            final(self).wf(),
            r == old(self)@.len(),
            final(self)@ == old(self)@.push(Node { parent, kind }),
    {
        let r = self.nodes.len();
        self.nodes.push(Node { parent, kind });
        r
    }

    /// The indices of the direct children of node `p`, in creation order.
    pub fn children(&self, p: usize) -> (r: Vec<usize>)
        ensures
            forall|k: int| 0 <= k < r@.len() ==> r@[k] < self@.len(),
            forall|k: int| 0 <= k < r@.len() ==> self@[#[trigger] r@[k] as int].parent == Some(p),
            forall|k: int, l: int| 0 <= k < l < r@.len() ==> r@[k] < r@[l],
            forall|i: int|
                0 <= i < self@.len() && #[trigger] self@[i].parent == Some(p) ==> r@.contains(
                    i as usize,
                ),
    {
        let mut r: Vec<usize> = Vec::new();
        let mut i: usize = 0;
        while i < self.nodes.len()
            invariant
                i <= self@.len(),
                forall|k: int| 0 <= k < r@.len() ==> r@[k] < i,
                forall|k: int|
                    0 <= k < r@.len() ==> self@[#[trigger] r@[k] as int].parent == Some(p),
                forall|k: int, l: int| 0 <= k < l < r@.len() ==> r@[k] < r@[l],
                forall|j: int|
                    0 <= j < i && #[trigger] self@[j].parent == Some(p) ==> r@.contains(
                        j as usize,
                    ),
            decreases self@.len() - i,
        {
            let ghost before = r@;
            if self.nodes[i].parent == Some(p) {
                r.push(i);
                assert(r@[r@.len() - 1] == i);
            }
            proof {
                assert forall|j: int|
                    0 <= j < i + 1 && #[trigger] self@[j].parent == Some(p) implies r@.contains(
                    j as usize,
                ) by {
                    if j == i {
                        assert(r@[r@.len() - 1] == i);
                    } else {
                        assert(before.contains(j as usize));
                        let k = choose|k: int| 0 <= k < before.len() && before[k] == j as usize;
                        assert(r@[k] == j as usize);
                    }
                }
            }
            i = i + 1;
        }
        r
    }
}

} // verus!
