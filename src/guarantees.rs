use vstd::prelude::*;

use vstd::arithmetic::div_mod::lemma_fundamental_div_mod;

use crate::layout::{
    HEADER_NODES,
    LARGE_FONT,
    SAMPLE_GAP_PX,
    SAMPLE_NODES,
    SMALL_FONT,
    alignment_heading_column,
    filler_span,
    justification_heading_column,
    lemma_sample_node,
    lemma_sample_pair,
    lemma_showcase_size,
    sample_alignment,
    sample_justification,
    sample_start,
    showcase_added,
    showcase_len,
    showcase_node,
};
use crate::options::{
    Alignment,
    Justification,
    alignment_index,
    alignment_order,
    justification_index,
    justification_order,
    lemma_alignment_index,
    lemma_alignment_order_indexed,
    lemma_justification_index,
    lemma_justification_order_indexed,
};
use crate::scene::{ColumnPlacement, Label, Node, NodeKind, Palette};

verus! {

/// The node is the sample that shows `a` together with `j`.
pub open spec fn is_sample_for(n: Node, a: Alignment, j: Justification) -> bool {
    match n.kind {
        NodeKind::Sample { align, justify, .. } => align == a && justify == j,
        _ => false,
    }
}

/// Where, counted from the showcase's first node, the sample for `a` and `j` stands.
pub open spec fn sample_position(a: Alignment, j: Justification) -> int {
    sample_start(justification_index(j) * alignment_order().len() + alignment_index(a))
}

/// The node with its parent index moved on by `d`.
pub open spec fn shifted(n: Node, d: int) -> Node {
    Node {
        parent: match n.parent {
            Some(p) => Some((p + d) as usize),
            None => None,
        },
        kind: n.kind,
    }
}

/// Decomposes a showcase index past the header into its sample and the node
/// within that sample.
proof fn lemma_split_index(i: int)
    requires
        HEADER_NODES <= i < showcase_len(),
    ensures
        0 <= (i - HEADER_NODES) / (SAMPLE_NODES as int) < alignment_order().len()
            * justification_order().len(),
        0 <= (i - HEADER_NODES) % (SAMPLE_NODES as int) < SAMPLE_NODES,
        i == sample_start((i - HEADER_NODES) / (SAMPLE_NODES as int)) + (i - HEADER_NODES)
            % (SAMPLE_NODES as int),
{
    lemma_showcase_size();
    lemma_fundamental_div_mod(i - HEADER_NODES, (SAMPLE_NODES as int));
}

/// Every pair of an alignment and a justification has exactly one sample in
/// the showcase, and that sample holds one text with the alignment's name and
/// one with the justification's name, each on a swatch of its own.
pub proof fn lemma_one_sample_per_pair(base: int, a: Alignment, j: Justification)
    ensures
        0 <= sample_position(a, j) < showcase_len(),
        is_sample_for(showcase_node(base, sample_position(a, j)), a, j),
        forall|i: int|
            0 <= i < showcase_len() && is_sample_for(#[trigger] showcase_node(base, i), a, j)
                ==> i == sample_position(a, j),
        showcase_node(base, sample_position(a, j) + 1) == (Node {
            parent: Some((base + sample_position(a, j)) as usize),
            kind: NodeKind::Swatch { background: Palette::AlignmentAccent },
        }),
        showcase_node(base, sample_position(a, j) + 2) == (Node {
            parent: Some((base + sample_position(a, j) + 1) as usize),
            kind: NodeKind::Text {
                label: Label::AlignmentName(a),
                font_size: LARGE_FONT,
                color: Palette::Black,
            },
        }),
        showcase_node(base, sample_position(a, j) + 3) == (Node {
            parent: Some((base + sample_position(a, j)) as usize),
            kind: NodeKind::Swatch { background: Palette::JustificationAccent },
        }),
        showcase_node(base, sample_position(a, j) + 4) == (Node {
            parent: Some((base + sample_position(a, j) + 3) as usize),
            kind: NodeKind::Text {
                label: Label::JustificationName(j),
                font_size: SMALL_FONT,
                color: Palette::Black,
            },
        }),
{
    lemma_showcase_size();
    lemma_alignment_index(a);
    lemma_justification_index(j);
    let n = alignment_order().len() as int;
    let ai = alignment_index(a);
    let ji = justification_index(j);
    let k = ji * n + ai;
    assert(0 <= k < 72) by (nonlinear_arith)
        requires
            k == ji * n + ai,
            n == 8,
            0 <= ji < 9,
            0 <= ai < 8,
    ;
    lemma_sample_pair(ji, ai);
    lemma_sample_node(base, k, 0);
    lemma_sample_node(base, k, 1);
    lemma_sample_node(base, k, 2);
    lemma_sample_node(base, k, 3);
    lemma_sample_node(base, k, 4);
    assert forall|i: int|
        0 <= i < showcase_len() && is_sample_for(#[trigger] showcase_node(base, i), a, j) implies i
        == sample_position(a, j) by {
        lemma_split_index(i);
        let k2 = (i - HEADER_NODES) / (SAMPLE_NODES as int);
        let r2 = (i - HEADER_NODES) % (SAMPLE_NODES as int);
        lemma_sample_node(base, k2, r2);
        lemma_fundamental_div_mod(k2, n);
        assert(0 <= k2 / n < 9) by (nonlinear_arith)
            requires
                n == 8,
                0 <= k2 < 72,
        ;
        lemma_alignment_order_indexed(k2 % n);
        lemma_justification_order_indexed(k2 / n);
    }
}

/// The grid has one column per alignment and one more for the labels, and one
/// row per justification and one more for the headings.
pub proof fn lemma_grid_dimensions(base: int)
    ensures
        match showcase_node(base, 2).kind {
            NodeKind::Grid { style, background } => {
                &&& style.columns == alignment_order().len() + 1
                &&& style.rows == justification_order().len() + 1
                &&& background == Palette::Black
            },
            _ => false,
        },
        showcase_node(base, 2).parent == Some((base + 1) as usize),
{
    lemma_showcase_size();
}

/// The heading columns depend on the number of alignments alone, wherever the
/// showcase is added: the alignment heading starts at column line 4, the
/// justification heading at 5, and the filler spans 3 columns.
pub proof fn lemma_heading_columns(base: int)
    ensures
        alignment_heading_column(alignment_order().len() as int) == 4,
        justification_heading_column(alignment_order().len() as int) == 5,
        filler_span(alignment_order().len() as int) == 3,
        showcase_node(base, 3).kind == (NodeKind::Heading {
            background: Palette::AlignmentAccent,
            column: ColumnPlacement::StartAt(4),
        }),
        showcase_node(base, 5).kind == (NodeKind::Heading {
            background: Palette::JustificationAccent,
            column: ColumnPlacement::StartAt(5),
        }),
        showcase_node(base, 7).kind == (NodeKind::Filler { column: ColumnPlacement::Span(3) }),
{
    lemma_showcase_size();
}

/// Samples follow the declared orders: the one at row `ji` and column `ai` of
/// the grid shows the `ai`-th alignment and the `ji`-th justification.
pub proof fn lemma_grid_order(base: int, ji: int, ai: int)
    requires
        0 <= ji < justification_order().len(),
        0 <= ai < alignment_order().len(),
    ensures
        showcase_node(base, sample_start(ji * alignment_order().len() + ai)) == (Node {
            parent: Some((base + 2) as usize),
            kind: NodeKind::Sample {
                align: alignment_order()[ai],
                justify: justification_order()[ji],
                gap_px: SAMPLE_GAP_PX,
                background: Palette::DarkGray,
            },
        }),
{
    lemma_showcase_size();
    let n = alignment_order().len() as int;
    assert(0 <= ji * n + ai) by (nonlinear_arith)
        requires
            0 <= ji,
            0 <= ai,
            0 <= n,
    ;
    lemma_sample_pair(ji, ai);
    lemma_sample_node(base, ji * n + ai, 0);
}

/// Each node of a showcase has no parent or one inside the same showcase that
/// comes before it.
pub proof fn lemma_parents_inside(base: int, i: int)
    requires
        0 <= base,
        base + showcase_len() <= usize::MAX,
        0 <= i < showcase_len(),
    ensures
        match showcase_node(base, i).parent {
            Some(p) => base <= p < base + i,
            None => true,
        },
{
    lemma_showcase_size();
    if i >= HEADER_NODES {
        lemma_split_index(i);
        let k = (i - HEADER_NODES) / (SAMPLE_NODES as int);
        let r = (i - HEADER_NODES) % (SAMPLE_NODES as int);
        lemma_sample_node(base, k, r);
    }
}

/// A showcase added further on is the same showcase with every parent index
/// moved on by the distance.
pub proof fn lemma_showcase_shift(base: int, d: int, i: int)
    requires
        0 <= base,
        0 <= d,
        base + d + showcase_len() <= usize::MAX,
        0 <= i < showcase_len(),
    ensures
        showcase_node(base + d, i) == shifted(showcase_node(base, i), d),
{
    lemma_showcase_size();
    lemma_parents_inside(base, i);
    lemma_parents_inside(base + d, i);
    if i >= HEADER_NODES {
        lemma_split_index(i);
        let k = (i - HEADER_NODES) / (SAMPLE_NODES as int);
        let r = (i - HEADER_NODES) % (SAMPLE_NODES as int);
        lemma_sample_node(base, k, r);
        lemma_sample_node(base + d, k, r);
    }
}

/// Adding the showcase twice gives two full, independent copies: the first is
/// kept as it was, the second repeats it node by node with its parents moved
/// on by one showcase, no node of the second has a parent outside it, and each
/// copy holds its own sample for every pair.
pub proof fn lemma_added_twice(s0: Seq<Node>, s1: Seq<Node>, s2: Seq<Node>)
    requires
        showcase_added(s0, s1),
        showcase_added(s1, s2),
        s0.len() + 2 * showcase_len() <= usize::MAX,
    ensures
        s2.len() == s0.len() + 2 * showcase_len(),
        forall|i: int| 0 <= i < s0.len() ==> s2[i] == s0[i],
        forall|i: int|
            0 <= i < showcase_len() ==> s2[s0.len() + i] == showcase_node(s0.len() as int, i),
        forall|i: int|
            0 <= i < showcase_len() ==> #[trigger] s2[s1.len() + i] == shifted(
                s2[s0.len() + i],
                showcase_len(),
            ),
        forall|i: int|
            0 <= i < showcase_len() ==> match #[trigger] s2[s1.len() + i].parent {
                Some(p) => s1.len() <= p < s1.len() + i,
                None => true,
            },
        forall|a: Alignment, j: Justification|
            is_sample_for(s2[s0.len() + #[trigger] sample_position(a, j)], a, j)
                && is_sample_for(s2[s1.len() + sample_position(a, j)], a, j),
{
    let l = showcase_len();
    assert forall|i: int| 0 <= i < l implies s2[s0.len() + i] == showcase_node(
        s0.len() as int,
        i,
    ) by {
        assert(s2[s0.len() + i] == s1[s0.len() + i]);
    }
    assert forall|i: int| 0 <= i < l implies #[trigger] s2[s1.len() + i] == shifted(
        s2[s0.len() + i],
        l,
    ) by {
        assert(s2[s0.len() + i] == s1[s0.len() + i]);
        lemma_showcase_shift(s0.len() as int, l, i);
    }
    assert forall|i: int| 0 <= i < l implies match #[trigger] s2[s1.len() + i].parent {
        Some(p) => s1.len() <= p < s1.len() + i,
        None => true,
    } by {
        lemma_parents_inside(s1.len() as int, i);
    }
    assert forall|a: Alignment, j: Justification|
        is_sample_for(s2[s0.len() + #[trigger] sample_position(a, j)], a, j) && is_sample_for(
            s2[s1.len() + sample_position(a, j)],
            a,
            j,
        ) by {
        lemma_one_sample_per_pair(s0.len() as int, a, j);
        lemma_one_sample_per_pair(s1.len() as int, a, j);
        let q = sample_position(a, j);
        assert(s2[s0.len() + q] == s1[s0.len() + q]);
        assert(s1[s0.len() + q] == showcase_node(s0.len() as int, q));
        assert(s2[s1.len() + q] == showcase_node(s1.len() as int, q));
    }
}

} // verus!
