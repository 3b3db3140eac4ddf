use vstd::prelude::*;

use vstd::arithmetic::div_mod::lemma_fundamental_div_mod_converse;

use crate::options::{
    Alignment,
    Justification,
    alignment_order,
    justification_order,
    all_alignments,
    all_justifications,
};
use crate::scene::{ColumnPlacement, GridStyle, Label, Node, NodeKind, Palette, Scene};

verus! {

/// Width of every column of the showcase grid.
pub const COLUMN_WIDTH_PX: u16 = 100;

/// Height of every row of the showcase grid but the heading row.
pub const ROW_HEIGHT_PX: u16 = 80;

/// Space between the cells of the showcase grid.
pub const GRID_GAP_PX: u16 = 5;

/// Space between the showcase grid's border and its cells.
pub const GRID_PADDING_PX: u16 = 10;

/// Space between the two swatches of one sample.
pub const SAMPLE_GAP_PX: u16 = 3;

/// Font size of the headings and of the alignment names.
pub const LARGE_FONT: u16 = 14;

/// Font size of the justification names.
pub const SMALL_FONT: u16 = 12;

/// Nodes that come before the samples: the camera, the screen, the grid, two
/// headings with their texts and the filler.
pub const HEADER_NODES: usize = 8;

/// Nodes of one sample: the sample itself and two swatches with their texts.
pub const SAMPLE_NODES: usize = 5;

/// The number of samples: one for each pair of an alignment and a justification.
pub open spec fn sample_count() -> int {
    (alignment_order().len() * justification_order().len()) as int
}

/// The number of nodes that one showcase adds to a scene.
pub open spec fn showcase_len() -> int {
    HEADER_NODES + SAMPLE_NODES * sample_count()
}

/// The column line at which the alignment heading starts, for `n` alignments.
pub open spec fn alignment_heading_column(n: int) -> int {
    n / 2
}

/// The column line at which the justification heading starts, for `n` alignments.
pub open spec fn justification_heading_column(n: int) -> int {
    1 + n / 2
}

/// The columns that the filler spans, for `n` alignments.
pub open spec fn filler_span(n: int) -> int {
    n - (1 + n / 2)
}

/// The track layout of the showcase grid: a label column beside one column per
/// alignment, and a heading row above one row per justification.
pub open spec fn showcase_grid_style() -> GridStyle {
    GridStyle {
        columns: (alignment_order().len() + 1) as u16,
        column_width_px: COLUMN_WIDTH_PX,
        rows: (justification_order().len() + 1) as u16,
        row_height_px: ROW_HEIGHT_PX,
        gap_px: GRID_GAP_PX,
        padding_px: GRID_PADDING_PX,
    }
}

/// Node `r` (below `SAMPLE_NODES`) of the sample for `a` and `j` whose own index
/// is `cell`, inside the grid with index `grid`.
pub open spec fn sample_part(grid: int, cell: int, a: Alignment, j: Justification, r: int) -> Node {
    if r == 0 {
        Node {
            parent: Some(grid as usize),
            kind: NodeKind::Sample {
                align: a,
                justify: j,
                gap_px: SAMPLE_GAP_PX,
                background: Palette::DarkGray,
            },
        }
    } else if r == 1 {
        Node {
            parent: Some(cell as usize),
            kind: NodeKind::Swatch { background: Palette::AlignmentAccent },
        }
    } else if r == 2 {
        Node {
            parent: Some((cell + 1) as usize),
            kind: NodeKind::Text {
                label: Label::AlignmentName(a),
                font_size: LARGE_FONT,
                color: Palette::Black,
            },
        }
    } else if r == 3 {
        Node {
            parent: Some(cell as usize),
            kind: NodeKind::Swatch { background: Palette::JustificationAccent },
        }
    } else {
        Node {
            parent: Some((cell + 3) as usize),
            kind: NodeKind::Text {
                label: Label::JustificationName(j),
                font_size: SMALL_FONT,
                color: Palette::Black,
            },
        }
    }
}

/// The alignment of sample number `k`: alignments vary fastest.
pub open spec fn sample_alignment(k: int) -> Alignment {
    alignment_order()[k % (alignment_order().len() as int)]
}

/// The justification of sample number `k`: one grid row per justification.
pub open spec fn sample_justification(k: int) -> Justification {
    justification_order()[k / (alignment_order().len() as int)]
}

/// The index, counted from the showcase's first node, at which sample `k` starts.
pub open spec fn sample_start(k: int) -> int {
    HEADER_NODES + SAMPLE_NODES * k
}

/// Node number `i` of a showcase whose first node gets index `base`.
pub open spec fn showcase_node(base: int, i: int) -> Node {
    let grid = base + 2;
    let n = alignment_order().len() as int;
    if i == 0 {
        Node { parent: None, kind: NodeKind::Camera }
    } else if i == 1 {
        Node {
            parent: None,
            kind: NodeKind::Screen { justify: Justification::Center, align: Alignment::Start },
        }
    } else if i == 2 {
        Node {
            parent: Some((base + 1) as usize),
            kind: NodeKind::Grid { style: showcase_grid_style(), background: Palette::Black },
        }
    } else if i == 3 {
        Node {
            parent: Some(grid as usize),
            kind: NodeKind::Heading {
                background: Palette::AlignmentAccent,
                column: ColumnPlacement::StartAt(alignment_heading_column(n) as u16),
            },
        }
    } else if i == 4 {
        Node {
            parent: Some((base + 3) as usize),
            kind: NodeKind::Text {
                label: Label::AlignmentHeading,
                font_size: LARGE_FONT,
                color: Palette::Black,
            },
        }
    } else if i == 5 {
        Node {
            parent: Some(grid as usize),
            kind: NodeKind::Heading {
                background: Palette::JustificationAccent,
                column: ColumnPlacement::StartAt(justification_heading_column(n) as u16),
            },
        }
    } else if i == 6 {
        Node {
            parent: Some((base + 5) as usize),
            kind: NodeKind::Text {
                label: Label::JustificationHeading,
                font_size: LARGE_FONT,
                color: Palette::Black,
            },
        }
    } else if i == 7 {
        Node {
            parent: Some(grid as usize),
            kind: NodeKind::Filler { column: ColumnPlacement::Span(filler_span(n) as u16) },
        }
    } else {
        let k = (i - HEADER_NODES) / SAMPLE_NODES as int;
        let r = (i - HEADER_NODES) % SAMPLE_NODES as int;
        sample_part(
            grid,
            base + sample_start(k),
            sample_alignment(k),
            sample_justification(k),
            r,
        )
    }
}

/// The showcase's sizes: eight alignments, nine justifications, and so
/// seventy-two samples in 368 nodes.
pub proof fn lemma_showcase_size()
    ensures
        alignment_order().len() == 8,
        justification_order().len() == 9,
        sample_count() == 72,
        showcase_len() == 368,
{
}

/// `after` is `before` with one showcase added at its end.
pub open spec fn showcase_added(before: Seq<Node>, after: Seq<Node>) -> bool {
    &&& after.len() == before.len() + showcase_len()
    &&& forall|i: int| 0 <= i < before.len() ==> after[i] == before[i]
    &&& forall|i: int|
        0 <= i < showcase_len() ==> after[before.len() + i] == showcase_node(before.len() as int, i)
}

/// Node `r` of sample `k` stands at `sample_start(k) + r` of the showcase.
pub proof fn lemma_sample_node(base: int, k: int, r: int)
    requires
        0 <= k,
        0 <= r < SAMPLE_NODES,
    ensures
        showcase_node(base, sample_start(k) + r) == sample_part(
            base + 2,
            base + sample_start(k),
            sample_alignment(k),
            sample_justification(k),
            r,
        ),
{
    lemma_fundamental_div_mod_converse(SAMPLE_NODES * k + r, SAMPLE_NODES as int, k, r);
}

/// The sample in grid row `ji` and column `ai`, numbered `ji * n + ai` for `n`
/// alignments, shows the `ai`-th alignment and the `ji`-th justification.
pub proof fn lemma_sample_pair(ji: int, ai: int)
    requires
        0 <= ji,
        0 <= ai < alignment_order().len(),
    ensures
        sample_alignment(ji * alignment_order().len() + ai) == alignment_order()[ai],
        sample_justification(ji * alignment_order().len() + ai) == justification_order()[ji],
{
    let n = alignment_order().len() as int;
    lemma_fundamental_div_mod_converse(ji * n + ai, n, ji, ai);
}

/// The heading columns for `alignment_count` alignments: the alignment heading
/// starts at the middle column line, the justification heading right after it,
/// and the filler spans the columns that are left of the alignments' width.
pub fn header_columns(alignment_count: u16) -> (r: (u16, u16, u16))
    requires
        alignment_count >= 1,
    ensures
        r.0 == alignment_heading_column(alignment_count as int),
        r.1 == justification_heading_column(alignment_count as int),
        r.2 == filler_span(alignment_count as int),
{
    let half = alignment_count / 2;
    (half, 1 + half, alignment_count - (1 + half))
}

/// The number of nodes that `spawn_layout` adds, which the scene must have
/// room for.
pub fn showcase_node_count() -> (r: usize)
    ensures
        r == showcase_len(),
{
    proof {
        lemma_showcase_size();
    }
    let samples = all_alignments().len() * all_justifications().len();
    HEADER_NODES + SAMPLE_NODES * samples
}

/// Adds one sample for `a` and `j` under the grid with index `grid`: a dark cell
/// with two stacked swatches, one naming the alignment and one naming the
/// justification.
pub fn spawn_sample(scene: &mut Scene, grid: usize, a: Alignment, j: Justification) -> (r: usize)
    requires
        old(scene).wf(),
        grid < old(scene)@.len(),
        old(scene)@.len() + SAMPLE_NODES <= usize::MAX,
    ensures
        final(scene).wf(),
        r == old(scene)@.len(),
        final(scene)@.len() == old(scene)@.len() + SAMPLE_NODES,
        forall|i: int| 0 <= i < old(scene)@.len() ==> final(scene)@[i] == old(scene)@[i],
        forall|q: int|
            0 <= q < SAMPLE_NODES ==> final(scene)@[r + q] == sample_part(
                grid as int,
                r as int,
                a,
                j,
                q,
            ),
{
    let cell = scene.spawn(
        Some(grid),
        NodeKind::Sample {
            align: a,
            justify: j,
            gap_px: SAMPLE_GAP_PX,
            background: Palette::DarkGray,
        },
    );
    let align_swatch = scene.spawn(
        Some(cell),
        NodeKind::Swatch { background: Palette::AlignmentAccent },
    );
    scene.spawn(
        Some(align_swatch),
        NodeKind::Text {
            label: Label::AlignmentName(a),
            font_size: LARGE_FONT,
            color: Palette::Black,
        },
    );
    let justify_swatch = scene.spawn(
        Some(cell),
        NodeKind::Swatch { background: Palette::JustificationAccent },
    );
    scene.spawn(
        Some(justify_swatch),
        NodeKind::Text {
            label: Label::JustificationName(j),
            font_size: SMALL_FONT,
            color: Palette::Black,
        },
    );
    cell
}

/// Adds the whole showcase to `scene`: a camera; a screen-filling container
/// that centres its content at the top; inside it the grid, which holds the two
/// headings with their texts, a filler that completes the heading row, and then
/// one sample for every justification (outer) and alignment (inner), each in
/// declaration order.
pub fn spawn_layout(scene: &mut Scene)
    requires
        old(scene).wf(),
        old(scene)@.len() + showcase_len() <= usize::MAX,
    ensures
        final(scene).wf(),
        showcase_added(old(scene)@, final(scene)@),
{
    let ghost start = scene@;
    let base = scene.len();
    let alignments = all_alignments();
    let justifications = all_justifications();
    scene.spawn(None, NodeKind::Camera);
    let screen = scene.spawn(
        None,
        NodeKind::Screen { justify: Justification::Center, align: Alignment::Start },
    );
    let row_len = alignments.len() as u16;
    let style = GridStyle {
        columns: row_len + 1,
        column_width_px: COLUMN_WIDTH_PX,
        rows: justifications.len() as u16 + 1,
        row_height_px: ROW_HEIGHT_PX,
        gap_px: GRID_GAP_PX,
        padding_px: GRID_PADDING_PX,
    };
    let grid = scene.spawn(Some(screen), NodeKind::Grid { style, background: Palette::Black });
    let (align_column, justify_column, filler) = header_columns(row_len);
    let align_heading = scene.spawn(
        Some(grid),
        NodeKind::Heading {
            background: Palette::AlignmentAccent,
            column: ColumnPlacement::StartAt(align_column),
        },
    );
    scene.spawn(
        Some(align_heading),
        NodeKind::Text {
            label: Label::AlignmentHeading,
            font_size: LARGE_FONT,
            color: Palette::Black,
        },
    );
    let justify_heading = scene.spawn(
        Some(grid),
        NodeKind::Heading {
            background: Palette::JustificationAccent,
            column: ColumnPlacement::StartAt(justify_column),
        },
    );
    scene.spawn(
        Some(justify_heading),
        NodeKind::Text {
            label: Label::JustificationHeading,
            font_size: LARGE_FONT,
            color: Palette::Black,
        },
    );
    scene.spawn(Some(grid), NodeKind::Filler { column: ColumnPlacement::Span(filler) });
    assert forall|i: int| 0 <= i < HEADER_NODES implies scene@[base + i] == showcase_node(
        base as int,
        i,
    ) by {}
    let ghost n = alignments@.len() as int;
    let mut ji: usize = 0;
    while ji < justifications.len()
        invariant
            scene.wf(),
            alignments@ == alignment_order(),
            justifications@ == justification_order(),
            n == alignment_order().len(),
            base == start.len(),
            grid == base + 2,
            start.len() + showcase_len() <= usize::MAX,
            ji <= justifications@.len(),
            scene@.len() == base + sample_start(ji * n),
            forall|i: int| 0 <= i < base ==> scene@[i] == start[i],
            forall|i: int|
                0 <= i < sample_start(ji * n) ==> scene@[base + i] == showcase_node(
                    base as int,
                    i,
                ),
        decreases justifications@.len() - ji,
    {
        let mut ai: usize = 0;
        while ai < alignments.len()
            invariant
                scene.wf(),
                alignments@ == alignment_order(),
                justifications@ == justification_order(),
                n == alignment_order().len(),
                base == start.len(),
                grid == base + 2,
                start.len() + showcase_len() <= usize::MAX,
                ji < justifications@.len(),
                ai <= alignments@.len(),
                scene@.len() == base + sample_start(ji * n + ai),
                forall|i: int| 0 <= i < base ==> scene@[i] == start[i],
                forall|i: int|
                    0 <= i < sample_start(ji * n + ai) ==> scene@[base + i] == showcase_node(
                        base as int,
                        i,
                    ),
            decreases alignments@.len() - ai,
        {
            let ghost k = ji * n + ai;
            proof {
                lemma_showcase_size();
                assert(k + 1 <= sample_count()) by (nonlinear_arith)
                    requires
                        k == ji * n + ai,
                        ji < 9,
                        ai < n,
                        n == 8,
                        sample_count() == 72,
                ;
            }
            let ghost before = scene@;
            let cell = spawn_sample(scene, grid, alignments[ai], justifications[ji]);
            proof {
                lemma_sample_pair(ji as int, ai as int);
                assert forall|i: int|
                    0 <= i < sample_start(k + 1) implies scene@[base + i] == showcase_node(
                    base as int,
                    i,
                ) by {
                    if i >= sample_start(k) {
                        let q = i - sample_start(k);
                        lemma_sample_node(base as int, k, q);
                        assert(scene@[cell + q] == sample_part(
                            grid as int,
                            cell as int,
                            alignments@[ai as int],
                            justifications@[ji as int],
                            q,
                        ));
                    } else {
                        assert(before[base + i] == showcase_node(base as int, i));
                    }
                }
            }
            ai = ai + 1;
        }
        assert((ji + 1) * n == ji * n + n) by (nonlinear_arith);
        ji = ji + 1;
    }
    proof {
        lemma_showcase_size();
    }
    assert(ji * n == sample_count()) by (nonlinear_arith)
        requires
            ji == 9,
            n == 8,
            sample_count() == 72,
    ;
}

} // verus!
