use layout_showcase::layout::{header_columns, showcase_node_count, spawn_layout, spawn_sample};
use layout_showcase::options::{all_alignments, all_justifications, Alignment, Justification};
use layout_showcase::scene::{ColumnPlacement, GridStyle, Label, Node, NodeKind, Palette, Scene};

const SHOWCASE_NODES: usize = 368;

fn built() -> Scene {
    let mut scene = Scene::new();
    spawn_layout(&mut scene);
    scene
}

fn samples_for(scene: &Scene, a: Alignment, j: Justification) -> Vec<usize> {
    (0..scene.len())
        .filter(|&i| {
            matches!(scene.node(i).kind,
                NodeKind::Sample { align, justify, .. } if align == a && justify == j)
        })
        .collect()
}

fn text_of(scene: &Scene, swatch: usize) -> String {
    let texts = scene.children(swatch);
    assert_eq!(texts.len(), 1);
    match scene.node(texts[0]).kind {
        NodeKind::Text { label, .. } => label.text().to_string(),
        other => panic!("expected a text, found {other:?}"),
    }
}

#[test]
fn alignments_come_in_declared_order() {
    assert_eq!(
        all_alignments(),
        vec![
            Alignment::Default,
            Alignment::Baseline,
            Alignment::Start,
            Alignment::FlexStart,
            Alignment::Center,
            Alignment::FlexEnd,
            Alignment::End,
            Alignment::Stretch,
        ]
    );
}

#[test]
fn justifications_come_in_declared_order() {
    assert_eq!(
        all_justifications(),
        vec![
            Justification::Default,
            Justification::Start,
            Justification::FlexStart,
            Justification::Center,
            Justification::FlexEnd,
            Justification::End,
            Justification::SpaceEvenly,
            Justification::SpaceAround,
            Justification::SpaceBetween,
        ]
    );
}

#[test]
fn option_names_are_variant_names() {
    let names: Vec<&str> = all_alignments().iter().map(|a| a.name()).collect();
    assert_eq!(
        names,
        vec!["Default", "Baseline", "Start", "FlexStart", "Center", "FlexEnd", "End", "Stretch"]
    );
    let names: Vec<&str> = all_justifications().iter().map(|j| j.name()).collect();
    assert_eq!(
        names,
        vec![
            "Default",
            "Start",
            "FlexStart",
            "Center",
            "FlexEnd",
            "End",
            "SpaceEvenly",
            "SpaceAround",
            "SpaceBetween"
        ]
    );
}

#[test]
fn label_texts() {
    assert_eq!(Label::AlignmentHeading.text(), "AlignItems");
    assert_eq!(Label::JustificationHeading.text(), "JustifyContent");
    assert_eq!(Label::AlignmentName(Alignment::Baseline).text(), "Baseline");
    assert_eq!(Label::JustificationName(Justification::SpaceAround).text(), "SpaceAround");
}

#[test]
fn heading_columns_for_eight_alignments() {
    assert_eq!(header_columns(8), (4, 5, 3));
}

#[test]
fn heading_columns_for_other_counts() {
    assert_eq!(header_columns(1), (0, 1, 0));
    assert_eq!(header_columns(9), (4, 5, 4));
    assert_eq!(header_columns(u16::MAX), (32767, 32768, 32767));
}

#[test]
fn heading_columns_are_the_same_on_every_call() {
    assert_eq!(header_columns(8), header_columns(8));
    let first = built();
    let second = built();
    for i in [3, 5, 7] {
        assert_eq!(first.node(i), second.node(i));
    }
}

#[test]
fn showcase_adds_its_node_count() {
    assert_eq!(showcase_node_count(), SHOWCASE_NODES);
    assert_eq!(built().len(), SHOWCASE_NODES);
}

#[test]
fn showcase_top_of_tree() {
    let scene = built();
    assert_eq!(scene.node(0), Node { parent: None, kind: NodeKind::Camera });
    assert_eq!(
        scene.node(1),
        Node {
            parent: None,
            kind: NodeKind::Screen { justify: Justification::Center, align: Alignment::Start },
        }
    );
    assert_eq!(scene.children(1), vec![2]);
}

#[test]
fn grid_has_a_column_per_alignment_and_a_row_per_justification_plus_one() {
    let scene = built();
    match scene.node(2).kind {
        NodeKind::Grid { style, background } => {
            assert_eq!(style.columns as usize, all_alignments().len() + 1);
            assert_eq!(style.rows as usize, all_justifications().len() + 1);
            assert_eq!(
                style,
                GridStyle {
                    columns: 9,
                    column_width_px: 100,
                    rows: 10,
                    row_height_px: 80,
                    gap_px: 5,
                    padding_px: 10,
                }
            );
            assert_eq!(background, Palette::Black);
        }
        other => panic!("expected the grid, found {other:?}"),
    }
}

#[test]
fn headings_and_filler() {
    let scene = built();
    assert_eq!(
        scene.node(3),
        Node {
            parent: Some(2),
            kind: NodeKind::Heading {
                background: Palette::AlignmentAccent,
                column: ColumnPlacement::StartAt(4),
            },
        }
    );
    assert_eq!(text_of(&scene, 3), "AlignItems");
    assert_eq!(
        scene.node(5),
        Node {
            parent: Some(2),
            kind: NodeKind::Heading {
                background: Palette::JustificationAccent,
                column: ColumnPlacement::StartAt(5),
            },
        }
    );
    assert_eq!(text_of(&scene, 5), "JustifyContent");
    assert_eq!(
        scene.node(7),
        Node { parent: Some(2), kind: NodeKind::Filler { column: ColumnPlacement::Span(3) } }
    );
    assert!(scene.children(7).is_empty());
}

#[test]
fn exactly_one_sample_per_pair_labelled_with_both_names() {
    let scene = built();
    let mut total = 0;
    for j in all_justifications() {
        for a in all_alignments() {
            let found = samples_for(&scene, a, j);
            assert_eq!(found.len(), 1, "{a:?} {j:?}");
            let swatches = scene.children(found[0]);
            assert_eq!(swatches.len(), 2);
            assert_eq!(text_of(&scene, swatches[0]), a.name());
            assert_eq!(text_of(&scene, swatches[1]), j.name());
            total += 1;
        }
    }
    assert_eq!(total, 72);
    assert_eq!(scene.children(2).len(), 3 + 72);
}

#[test]
fn sample_styles() {
    let scene = built();
    let cell = samples_for(&scene, Alignment::Stretch, Justification::SpaceEvenly)[0];
    assert_eq!(
        scene.node(cell).kind,
        NodeKind::Sample {
            align: Alignment::Stretch,
            justify: Justification::SpaceEvenly,
            gap_px: 3,
            background: Palette::DarkGray,
        }
    );
    let swatches = scene.children(cell);
    assert_eq!(scene.node(swatches[0]).kind, NodeKind::Swatch { background: Palette::AlignmentAccent });
    assert_eq!(
        scene.node(swatches[1]).kind,
        NodeKind::Swatch { background: Palette::JustificationAccent }
    );
    assert_eq!(
        scene.node(swatches[0] + 1).kind,
        NodeKind::Text {
            label: Label::AlignmentName(Alignment::Stretch),
            font_size: 14,
            color: Palette::Black,
        }
    );
    assert_eq!(
        scene.node(swatches[1] + 1).kind,
        NodeKind::Text {
            label: Label::JustificationName(Justification::SpaceEvenly),
            font_size: 12,
            color: Palette::Black,
        }
    );
}

#[test]
fn samples_follow_declared_order() {
    let scene = built();
    let mut seen = Vec::new();
    for child in scene.children(2) {
        if let NodeKind::Sample { align, justify, .. } = scene.node(child).kind {
            seen.push((justify, align));
        }
    }
    let mut expected = Vec::new();
    for j in all_justifications() {
        for a in all_alignments() {
            expected.push((j, a));
        }
    }
    assert_eq!(seen, expected);
    assert_eq!(seen[0], (Justification::Default, Alignment::Default));
    assert_eq!(seen[1], (Justification::Default, Alignment::Baseline));
    assert_eq!(seen[8], (Justification::Start, Alignment::Default));
    assert_eq!(seen[71], (Justification::SpaceBetween, Alignment::Stretch));
}

#[test]
fn building_twice_gives_two_independent_copies() {
    let mut scene = Scene::new();
    spawn_layout(&mut scene);
    spawn_layout(&mut scene);
    assert_eq!(scene.len(), 2 * SHOWCASE_NODES);
    for i in 0..SHOWCASE_NODES {
        let first = scene.node(i);
        let second = scene.node(SHOWCASE_NODES + i);
        assert_eq!(first.kind, second.kind);
        assert_eq!(first.parent.map(|p| p + SHOWCASE_NODES), second.parent);
        if let Some(p) = second.parent {
            assert!(p >= SHOWCASE_NODES);
        }
    }
    for j in all_justifications() {
        for a in all_alignments() {
            assert_eq!(samples_for(&scene, a, j).len(), 2);
        }
    }
}

#[test]
fn showcase_after_existing_nodes_keeps_them() {
    let mut scene = Scene::new();
    let top = scene.spawn(None, NodeKind::Camera);
    scene.spawn(Some(top), NodeKind::Swatch { background: Palette::Black });
    spawn_layout(&mut scene);
    assert_eq!(scene.len(), 2 + SHOWCASE_NODES);
    assert_eq!(scene.node(1), Node { parent: Some(0), kind: NodeKind::Swatch { background: Palette::Black } });
    assert_eq!(scene.node(4).parent, Some(3));
    assert_eq!(scene.children(0), vec![1]);
}

#[test]
fn spawn_numbers_nodes_in_order() {
    let mut scene = Scene::new();
    assert_eq!(scene.len(), 0);
    let a = scene.spawn(None, NodeKind::Camera);
    let b = scene.spawn(Some(a), NodeKind::Filler { column: ColumnPlacement::Span(2) });
    let c = scene.spawn(Some(a), NodeKind::Filler { column: ColumnPlacement::StartAt(1) });
    let d = scene.spawn(Some(b), NodeKind::Camera);
    assert_eq!((a, b, c, d), (0, 1, 2, 3));
    assert_eq!(scene.children(a), vec![1, 2]);
    assert_eq!(scene.children(b), vec![3]);
    assert!(scene.children(d).is_empty());
    assert!(scene.children(10).is_empty());
}

#[test]
fn spawn_sample_adds_five_nodes() {
    let mut scene = Scene::new();
    let grid = scene.spawn(None, NodeKind::Camera);
    let cell = spawn_sample(&mut scene, grid, Alignment::Center, Justification::End);
    assert_eq!(cell, 1);
    assert_eq!(scene.len(), 6);
    assert_eq!(scene.node(1).parent, Some(0));
    assert_eq!(scene.node(2).parent, Some(1));
    assert_eq!(scene.node(3).parent, Some(2));
    assert_eq!(scene.node(4).parent, Some(1));
    assert_eq!(scene.node(5).parent, Some(4));
    assert_eq!(text_of(&scene, 2), "Center");
    assert_eq!(text_of(&scene, 4), "End");
}
