use vstd::prelude::*;

verus! {

/// Cross-axis placement policy of the items inside a container.
#[derive(Clone, Copy, Debug, PartialEq, Eq, Structural)]
pub enum Alignment {
    Default,
    Baseline,
    Start,
    FlexStart,
    Center,
    FlexEnd,
    End,
    Stretch,
}

/// Main-axis placement and spacing policy of the items inside a container.
#[derive(Clone, Copy, Debug, PartialEq, Eq, Structural)]
pub enum Justification {
    Default,
    Start,
    FlexStart,
    Center,
    FlexEnd,
    End,
    SpaceEvenly,
    SpaceAround,
    SpaceBetween,
}

/// Every alignment, in declaration order.
pub open spec fn alignment_order() -> Seq<Alignment> {
    seq![
        Alignment::Default,
        Alignment::Baseline,
        Alignment::Start,
        Alignment::FlexStart,
        Alignment::Center,
        Alignment::FlexEnd,
        Alignment::End,
        Alignment::Stretch,
    ]
}

/// Every justification, in declaration order.
pub open spec fn justification_order() -> Seq<Justification> {
    seq![
        Justification::Default,
        Justification::Start,
        Justification::FlexStart,
        Justification::Center,
        Justification::FlexEnd,
        Justification::End,
        Justification::SpaceEvenly,
        Justification::SpaceAround,
        Justification::SpaceBetween,
    ]
}

/// Position of an alignment in declaration order.
pub open spec fn alignment_index(a: Alignment) -> int {
    match a {
        Alignment::Default => 0,
        Alignment::Baseline => 1,
        Alignment::Start => 2,
        Alignment::FlexStart => 3,
        Alignment::Center => 4,
        Alignment::FlexEnd => 5,
        Alignment::End => 6,
        Alignment::Stretch => 7,
    }
}

/// Position of a justification in declaration order.
pub open spec fn justification_index(j: Justification) -> int {
    match j {
        Justification::Default => 0,
        Justification::Start => 1,
        Justification::FlexStart => 2,
        Justification::Center => 3,
        Justification::FlexEnd => 4,
        Justification::End => 5,
        Justification::SpaceEvenly => 6,
        Justification::SpaceAround => 7,
        Justification::SpaceBetween => 8,
    }
}

/// The label under which an alignment is shown: its variant name.
pub open spec fn alignment_name(a: Alignment) -> &'static str {
    match a {
        Alignment::Default => "Default",
        Alignment::Baseline => "Baseline",
        Alignment::Start => "Start",
        Alignment::FlexStart => "FlexStart",
        Alignment::Center => "Center",
        Alignment::FlexEnd => "FlexEnd",
        Alignment::End => "End",
        Alignment::Stretch => "Stretch",
    }
}

/// The label under which a justification is shown: its variant name.
pub open spec fn justification_name(j: Justification) -> &'static str {
    match j {
        Justification::Default => "Default",
        Justification::Start => "Start",
        Justification::FlexStart => "FlexStart",
        Justification::Center => "Center",
        Justification::FlexEnd => "FlexEnd",
        Justification::End => "End",
        Justification::SpaceEvenly => "SpaceEvenly",
        Justification::SpaceAround => "SpaceAround",
        Justification::SpaceBetween => "SpaceBetween",
    }
}

/// Each alignment sits in the declared order exactly at its index.
pub proof fn lemma_alignment_index(a: Alignment)
    ensures
        0 <= alignment_index(a) < alignment_order().len(),
        alignment_order()[alignment_index(a)] == a,
{
}

/// Each justification sits in the declared order exactly at its index.
pub proof fn lemma_justification_index(j: Justification)
    ensures
        0 <= justification_index(j) < justification_order().len(),
        justification_order()[justification_index(j)] == j,
{
}

/// The declared order lists each alignment once: its index is its position.
pub proof fn lemma_alignment_order_indexed(i: int)
    requires
        0 <= i < alignment_order().len(),
    ensures
        alignment_index(alignment_order()[i]) == i,
{
}

/// The declared order lists each justification once: its index is its position.
pub proof fn lemma_justification_order_indexed(i: int)
    requires
        0 <= i < justification_order().len(),
    ensures
        justification_index(justification_order()[i]) == i,
{
}

/// All alignments, in declaration order.
pub fn all_alignments() -> (r: Vec<Alignment>)
    ensures
        r@ == alignment_order(),
{
    let r = vec![
        Alignment::Default,
        Alignment::Baseline,
        Alignment::Start,
        Alignment::FlexStart,
        Alignment::Center,
        Alignment::FlexEnd,
        Alignment::End,
        Alignment::Stretch,
    ];
    assert(r@ =~= alignment_order());
    r
}

/// All justifications, in declaration order.
pub fn all_justifications() -> (r: Vec<Justification>)
    ensures
        r@ == justification_order(),
{
    let r = vec![
        Justification::Default,
        Justification::Start,
        Justification::FlexStart,
        Justification::Center,
        Justification::FlexEnd,
        Justification::End,
        Justification::SpaceEvenly,
        Justification::SpaceAround,
        Justification::SpaceBetween,
    ];
    assert(r@ =~= justification_order());
    r
}

impl Alignment {
    /// The variant name, as shown on a swatch.
    pub fn name(&self) -> (r: &'static str)
        ensures
            r == alignment_name(*self),
    {
        match self {
            Alignment::Default => "Default",
            Alignment::Baseline => "Baseline",
            Alignment::Start => "Start",
            Alignment::FlexStart => "FlexStart",
            Alignment::Center => "Center",
            Alignment::FlexEnd => "FlexEnd",
            Alignment::End => "End",
            Alignment::Stretch => "Stretch",
        }
    }
}

impl Justification {
    /// The variant name, as shown on a swatch.
    pub fn name(&self) -> (r: &'static str)
        ensures
            r == justification_name(*self),
    {
        match self {
            Justification::Default => "Default",
            Justification::Start => "Start",
            Justification::FlexStart => "FlexStart",
            Justification::Center => "Center",
            Justification::FlexEnd => "FlexEnd",
            Justification::End => "End",
            Justification::SpaceEvenly => "SpaceEvenly",
            Justification::SpaceAround => "SpaceAround",
            Justification::SpaceBetween => "SpaceBetween",
        }
    }
}

} // verus!
