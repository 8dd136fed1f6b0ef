use vstd::prelude::*;

verus! {

/// Placement relative to the parent bounds; for example, `RightTop` sits to the
/// right of the parent and aligns to its top edge.
#[derive(Clone, Copy, Debug, Eq, PartialEq, Structural)]
pub enum PopoverPosition {
    Left,
    LeftTop,
    LeftBottom,
    Right,
    RightTop,
    RightBottom,
    TopLeft,
    TopCenter,
    TopRight,
    BottomLeft,
    BottomCenter,
    BottomRight,
}

impl Default for PopoverPosition {
    fn default() -> (p: Self)
        ensures
            p == PopoverPosition::BottomCenter,
    {
        PopoverPosition::BottomCenter
    }
}

/// The side of the parent a popover opens on.
#[derive(Clone, Copy, Debug, Eq, PartialEq, Structural)]
pub enum Side {
    Left,
    Right,
    Top,
    Bottom,
}

/// How a popover lines up with its parent along the edge it opens on:
/// with the parent's start (left or top) edge, its middle, or its end
/// (right or bottom) edge.
#[derive(Clone, Copy, Debug, Eq, PartialEq, Structural)]
pub enum Alignment {
    Start,
    Center,
    End,
}

/// A horizontal edge of a box.
#[derive(Clone, Copy, Debug, Eq, PartialEq, Structural)]
pub enum HorizontalEdge {
    Left,
    Right,
}

/// A vertical edge of a box.
#[derive(Clone, Copy, Debug, Eq, PartialEq, Structural)]
pub enum VerticalEdge {
    Top,
    Bottom,
}

/// How far the zero-sized anchor sits from the parent's edge it is pinned to:
/// on the edge itself, or half of the parent's extent away from it.
#[derive(Clone, Copy, Debug, Eq, PartialEq, Structural)]
pub enum AnchorInset {
    Flush,
    Middle,
}

/// The margin the content gets on the edge it is pinned to: none, the
/// popover's edge offset, or minus half of its own extent (which centres it
/// on the anchor).
#[derive(Clone, Copy, Debug, Eq, PartialEq, Structural)]
pub enum ContentMargin {
    Zero,
    EdgeOffset,
    BackHalf,
}

/// Layout along the horizontal axis: the anchor is pinned to `anchor_edge`
/// of the parent at `anchor_inset`; the content is pinned with its
/// `content_edge` to the anchor and carries `content_margin` on that edge.
#[derive(Clone, Copy, Debug, Eq, PartialEq, Structural)]
pub struct HorizontalPlacement {
    pub anchor_edge: HorizontalEdge,
    pub anchor_inset: AnchorInset,
    pub content_edge: HorizontalEdge,
    pub content_margin: ContentMargin,
}

/// Layout along the vertical axis, read as [`HorizontalPlacement`].
#[derive(Clone, Copy, Debug, Eq, PartialEq, Structural)]
pub struct VerticalPlacement {
    pub anchor_edge: VerticalEdge,
    pub anchor_inset: AnchorInset,
    pub content_edge: VerticalEdge,
    pub content_margin: ContentMargin,
}

/// The full layout of a popover's anchor and content.
#[derive(Clone, Copy, Debug, Eq, PartialEq, Structural)]
pub struct AnchorPlacement {
    pub horizontal: HorizontalPlacement,
    pub vertical: VerticalPlacement,
}

/// The side of the parent a position names.
pub open spec fn side_of(p: PopoverPosition) -> Side {
    match p {
        PopoverPosition::Left | PopoverPosition::LeftTop | PopoverPosition::LeftBottom => Side::Left,
        PopoverPosition::Right | PopoverPosition::RightTop | PopoverPosition::RightBottom => Side::Right,
        PopoverPosition::TopLeft | PopoverPosition::TopCenter | PopoverPosition::TopRight => Side::Top,
        PopoverPosition::BottomLeft | PopoverPosition::BottomCenter | PopoverPosition::BottomRight => Side::Bottom,
    }
}

/// The alignment a position names (no suffix on `Left`/`Right` means centred).
pub open spec fn alignment_of(p: PopoverPosition) -> Alignment {
    match p {
        PopoverPosition::LeftTop | PopoverPosition::RightTop | PopoverPosition::TopLeft
        | PopoverPosition::BottomLeft => Alignment::Start,
        PopoverPosition::Left | PopoverPosition::Right | PopoverPosition::TopCenter
        | PopoverPosition::BottomCenter => Alignment::Center,
        PopoverPosition::LeftBottom | PopoverPosition::RightBottom | PopoverPosition::TopRight
        | PopoverPosition::BottomRight => Alignment::End,
    }
}

/// The position that opens on `side` with `alignment`.
pub open spec fn position_of(side: Side, alignment: Alignment) -> PopoverPosition {
    match (side, alignment) {
        (Side::Left, Alignment::Start) => PopoverPosition::LeftTop,
        (Side::Left, Alignment::Center) => PopoverPosition::Left,
        (Side::Left, Alignment::End) => PopoverPosition::LeftBottom,
        (Side::Right, Alignment::Start) => PopoverPosition::RightTop,
        (Side::Right, Alignment::Center) => PopoverPosition::Right,
        (Side::Right, Alignment::End) => PopoverPosition::RightBottom,
        (Side::Top, Alignment::Start) => PopoverPosition::TopLeft,
        (Side::Top, Alignment::Center) => PopoverPosition::TopCenter,
        (Side::Top, Alignment::End) => PopoverPosition::TopRight,
        (Side::Bottom, Alignment::Start) => PopoverPosition::BottomLeft,
        (Side::Bottom, Alignment::Center) => PopoverPosition::BottomCenter,
        (Side::Bottom, Alignment::End) => PopoverPosition::BottomRight,
    }
}

/// Outside the parent on `edge`: the anchor sits on that edge and the content
/// hangs off it by its opposite edge, pushed away by the edge offset.
pub open spec fn beside_horizontally(edge: HorizontalEdge) -> HorizontalPlacement {
    HorizontalPlacement {
        anchor_edge: edge,
        anchor_inset: AnchorInset::Flush,
        content_edge: match edge {
            HorizontalEdge::Left => HorizontalEdge::Right,
            HorizontalEdge::Right => HorizontalEdge::Left,
        },
        content_margin: ContentMargin::EdgeOffset,
    }
}

/// Along the parent horizontally with the given alignment.
pub open spec fn aligned_horizontally(alignment: Alignment) -> HorizontalPlacement {
    match alignment {
        Alignment::Start => HorizontalPlacement {
            anchor_edge: HorizontalEdge::Left,
            anchor_inset: AnchorInset::Flush,
            content_edge: HorizontalEdge::Left,
            content_margin: ContentMargin::Zero,
        },
        Alignment::Center => HorizontalPlacement {
            anchor_edge: HorizontalEdge::Left,
            anchor_inset: AnchorInset::Middle,
            content_edge: HorizontalEdge::Left,
            content_margin: ContentMargin::BackHalf,
        },
        Alignment::End => HorizontalPlacement {
            anchor_edge: HorizontalEdge::Right,
            anchor_inset: AnchorInset::Flush,
            content_edge: HorizontalEdge::Right,
            content_margin: ContentMargin::Zero,
        },
    }
}

/// Outside the parent on `edge`, read as [`beside_horizontally`].
pub open spec fn beside_vertically(edge: VerticalEdge) -> VerticalPlacement {
    VerticalPlacement {
        anchor_edge: edge,
        anchor_inset: AnchorInset::Flush,
        content_edge: match edge {
            VerticalEdge::Top => VerticalEdge::Bottom,
            VerticalEdge::Bottom => VerticalEdge::Top,
        },
        content_margin: ContentMargin::EdgeOffset,
    }
}

/// Along the parent vertically with the given alignment.
pub open spec fn aligned_vertically(alignment: Alignment) -> VerticalPlacement {
    match alignment {
        Alignment::Start => VerticalPlacement {
            anchor_edge: VerticalEdge::Top,
            anchor_inset: AnchorInset::Flush,
            content_edge: VerticalEdge::Top,
            content_margin: ContentMargin::Zero,
        },
        Alignment::Center => VerticalPlacement {
            anchor_edge: VerticalEdge::Top,
            anchor_inset: AnchorInset::Middle,
            content_edge: VerticalEdge::Top,
            content_margin: ContentMargin::BackHalf,
        },
        Alignment::End => VerticalPlacement {
            anchor_edge: VerticalEdge::Bottom,
            anchor_inset: AnchorInset::Flush,
            content_edge: VerticalEdge::Bottom,
            content_margin: ContentMargin::Zero,
        },
    }
}

/// The layout of a popover that opens on `side` with `alignment`.
pub open spec fn placement_for(side: Side, alignment: Alignment) -> AnchorPlacement {
    match side {
        Side::Left => AnchorPlacement {
            horizontal: beside_horizontally(HorizontalEdge::Left),
            vertical: aligned_vertically(alignment),
        },
        Side::Right => AnchorPlacement {
            horizontal: beside_horizontally(HorizontalEdge::Right),
            vertical: aligned_vertically(alignment),
        },
        Side::Top => AnchorPlacement {
            horizontal: aligned_horizontally(alignment),
            vertical: beside_vertically(VerticalEdge::Top),
        },
        Side::Bottom => AnchorPlacement {
            horizontal: aligned_horizontally(alignment),
            vertical: beside_vertically(VerticalEdge::Bottom),
        },
    }
}

/// Lays out a popover's anchor and content for `position`: the content sits
/// outside the parent on the side the position names, separated from it by the
/// edge offset, and lines up with the parent as the position's alignment says.
pub fn anchor_placement(position: PopoverPosition) -> (placement: AnchorPlacement)
    ensures
        placement == placement_for(side_of(position), alignment_of(position)),
        (position == PopoverPosition::Left || position == PopoverPosition::LeftTop
            || position == PopoverPosition::LeftBottom) ==> placement.horizontal == (HorizontalPlacement {
            anchor_edge: HorizontalEdge::Left,
            anchor_inset: AnchorInset::Flush,
            content_edge: HorizontalEdge::Right,
            content_margin: ContentMargin::EdgeOffset,
        }),
        (position == PopoverPosition::Right || position == PopoverPosition::RightTop
            || position == PopoverPosition::RightBottom) ==> placement.horizontal == (HorizontalPlacement {
            anchor_edge: HorizontalEdge::Right,
            anchor_inset: AnchorInset::Flush,
            content_edge: HorizontalEdge::Left,
            content_margin: ContentMargin::EdgeOffset,
        }),
        (position == PopoverPosition::TopLeft || position == PopoverPosition::TopCenter
            || position == PopoverPosition::TopRight) ==> placement.vertical == (VerticalPlacement {
            anchor_edge: VerticalEdge::Top,
            anchor_inset: AnchorInset::Flush,
            content_edge: VerticalEdge::Bottom,
            content_margin: ContentMargin::EdgeOffset,
        }),
        (position == PopoverPosition::BottomLeft || position == PopoverPosition::BottomCenter
            || position == PopoverPosition::BottomRight) ==> placement.vertical == (VerticalPlacement {
            anchor_edge: VerticalEdge::Bottom,
            anchor_inset: AnchorInset::Flush,
            content_edge: VerticalEdge::Top,
            content_margin: ContentMargin::EdgeOffset,
        }),
        (position == PopoverPosition::TopLeft || position == PopoverPosition::BottomLeft)
            ==> placement.horizontal == (HorizontalPlacement {
            anchor_edge: HorizontalEdge::Left,
            anchor_inset: AnchorInset::Flush,
            content_edge: HorizontalEdge::Left,
            content_margin: ContentMargin::Zero,
        }),
        (position == PopoverPosition::TopCenter || position == PopoverPosition::BottomCenter)
            ==> placement.horizontal == (HorizontalPlacement {
            anchor_edge: HorizontalEdge::Left,
            anchor_inset: AnchorInset::Middle,
            content_edge: HorizontalEdge::Left,
            content_margin: ContentMargin::BackHalf,
        }),
        (position == PopoverPosition::TopRight || position == PopoverPosition::BottomRight)
            ==> placement.horizontal == (HorizontalPlacement {
            anchor_edge: HorizontalEdge::Right,
            anchor_inset: AnchorInset::Flush,
            content_edge: HorizontalEdge::Right,
            content_margin: ContentMargin::Zero,
        }),
        (position == PopoverPosition::LeftTop || position == PopoverPosition::RightTop)
            ==> placement.vertical == (VerticalPlacement {
            anchor_edge: VerticalEdge::Top,
            anchor_inset: AnchorInset::Flush,
            content_edge: VerticalEdge::Top,
            content_margin: ContentMargin::Zero,
        }),
        (position == PopoverPosition::Left || position == PopoverPosition::Right)
            ==> placement.vertical == (VerticalPlacement {
            anchor_edge: VerticalEdge::Top,
            anchor_inset: AnchorInset::Middle,
            content_edge: VerticalEdge::Top,
            content_margin: ContentMargin::BackHalf,
        }),
        (position == PopoverPosition::LeftBottom || position == PopoverPosition::RightBottom)
            ==> placement.vertical == (VerticalPlacement {
            anchor_edge: VerticalEdge::Bottom,
            anchor_inset: AnchorInset::Flush,
            content_edge: VerticalEdge::Bottom,
            content_margin: ContentMargin::Zero,
        }),
{
    let horizontal = match position {
        PopoverPosition::Left | PopoverPosition::LeftTop | PopoverPosition::LeftBottom => {
            HorizontalPlacement {
                anchor_edge: HorizontalEdge::Left,
                anchor_inset: AnchorInset::Flush,
                content_edge: HorizontalEdge::Right,
                content_margin: ContentMargin::EdgeOffset,
            }
        },
        PopoverPosition::Right | PopoverPosition::RightTop | PopoverPosition::RightBottom => {
            HorizontalPlacement {
                anchor_edge: HorizontalEdge::Right,
                anchor_inset: AnchorInset::Flush,
                content_edge: HorizontalEdge::Left,
                content_margin: ContentMargin::EdgeOffset,
            }
        },
        PopoverPosition::TopLeft | PopoverPosition::BottomLeft => HorizontalPlacement {
            anchor_edge: HorizontalEdge::Left,
            anchor_inset: AnchorInset::Flush,
            content_edge: HorizontalEdge::Left,
            content_margin: ContentMargin::Zero,
        },
        PopoverPosition::TopCenter | PopoverPosition::BottomCenter => HorizontalPlacement {
            anchor_edge: HorizontalEdge::Left,
            anchor_inset: AnchorInset::Middle,
            content_edge: HorizontalEdge::Left,
            content_margin: ContentMargin::BackHalf,
        },
        PopoverPosition::TopRight | PopoverPosition::BottomRight => HorizontalPlacement {
            anchor_edge: HorizontalEdge::Right,
            anchor_inset: AnchorInset::Flush,
            content_edge: HorizontalEdge::Right,
            content_margin: ContentMargin::Zero,
        },
    };
    let vertical = match position {
        PopoverPosition::TopLeft | PopoverPosition::TopCenter | PopoverPosition::TopRight => {
            VerticalPlacement {
                anchor_edge: VerticalEdge::Top,
                anchor_inset: AnchorInset::Flush,
                content_edge: VerticalEdge::Bottom,
                content_margin: ContentMargin::EdgeOffset,
            }
        },
        PopoverPosition::BottomLeft | PopoverPosition::BottomCenter
        | PopoverPosition::BottomRight => VerticalPlacement {
            anchor_edge: VerticalEdge::Bottom,
            anchor_inset: AnchorInset::Flush,
            content_edge: VerticalEdge::Top,
            content_margin: ContentMargin::EdgeOffset,
        },
        PopoverPosition::LeftTop | PopoverPosition::RightTop => VerticalPlacement {
            anchor_edge: VerticalEdge::Top,
            anchor_inset: AnchorInset::Flush,
            content_edge: VerticalEdge::Top,
            content_margin: ContentMargin::Zero,
        },
        PopoverPosition::Left | PopoverPosition::Right => VerticalPlacement {
            anchor_edge: VerticalEdge::Top,
            anchor_inset: AnchorInset::Middle,
            content_edge: VerticalEdge::Top,
            content_margin: ContentMargin::BackHalf,
        },
        PopoverPosition::LeftBottom | PopoverPosition::RightBottom => VerticalPlacement {
            anchor_edge: VerticalEdge::Bottom,
            anchor_inset: AnchorInset::Flush,
            content_edge: VerticalEdge::Bottom,
            content_margin: ContentMargin::Zero,
        },
    };
    AnchorPlacement { horizontal, vertical }
}

/// Each position names exactly one side and one alignment, and every pairing
/// of a side with an alignment is a position: the twelve positions are the
/// twelve pairs.
pub proof fn lemma_position_names_side_and_alignment(p: PopoverPosition, side: Side, alignment: Alignment)
    ensures
        position_of(side_of(p), alignment_of(p)) == p,
        side_of(position_of(side, alignment)) == side,
        alignment_of(position_of(side, alignment)) == alignment,
{
}

/// Different positions lay a popover out differently.
pub proof fn lemma_placement_injective(p: PopoverPosition, q: PopoverPosition)
    requires
        p != q,
    ensures
        placement_for(side_of(p), alignment_of(p)) != placement_for(side_of(q), alignment_of(q)),
{
}

/// The edge offset separates the content from the parent on exactly one axis,
/// the one the position's side lies on; the other axis never carries it.
pub proof fn lemma_edge_offset_on_side_axis_only(p: PopoverPosition)
    ensures
        ({
            let placement = placement_for(side_of(p), alignment_of(p));
            let horizontal_side = side_of(p) == Side::Left || side_of(p) == Side::Right;
            &&& (placement.horizontal.content_margin == ContentMargin::EdgeOffset) == horizontal_side
            &&& (placement.vertical.content_margin == ContentMargin::EdgeOffset) == !horizontal_side
        }),
{
}

/// On the side's axis the content faces the parent with the edge opposite the
/// anchor's, so it lies outside the parent; on the other axis the content is
/// pinned by the same edge as the anchor.
pub proof fn lemma_content_outside_parent(p: PopoverPosition)
    ensures
        ({
            let placement = placement_for(side_of(p), alignment_of(p));
            let horizontal_side = side_of(p) == Side::Left || side_of(p) == Side::Right;
            &&& horizontal_side ==> placement.horizontal.anchor_edge != placement.horizontal.content_edge
            &&& horizontal_side ==> placement.vertical.anchor_edge == placement.vertical.content_edge
            &&& !horizontal_side ==> placement.vertical.anchor_edge != placement.vertical.content_edge
            &&& !horizontal_side ==> placement.horizontal.anchor_edge == placement.horizontal.content_edge
        }),
{
}

/// The layout of a position, as [`anchor_placement`] gives it.
pub open spec fn layout(p: PopoverPosition) -> AnchorPlacement {
    placement_for(side_of(p), alignment_of(p))
}

/// A popover above and one below the parent line up with it in the same way
/// when their names give the same alignment; so do one on the left and one on
/// the right.
pub proof fn lemma_opposite_sides_share_alignment()
    ensures
        layout(PopoverPosition::TopLeft).horizontal == layout(PopoverPosition::BottomLeft).horizontal,
        layout(PopoverPosition::TopCenter).horizontal == layout(PopoverPosition::BottomCenter).horizontal,
        layout(PopoverPosition::TopRight).horizontal == layout(PopoverPosition::BottomRight).horizontal,
        layout(PopoverPosition::LeftTop).vertical == layout(PopoverPosition::RightTop).vertical,
        layout(PopoverPosition::Left).vertical == layout(PopoverPosition::Right).vertical,
        layout(PopoverPosition::LeftBottom).vertical == layout(PopoverPosition::RightBottom).vertical,
{
}

/// A popover aligned to the parent's start (left or top) edge is pinned, anchor
/// and content alike, by that edge; one aligned to the end (right or bottom)
/// edge by that edge; and the two are mirror images of each other.
pub proof fn lemma_alignment_pins_named_edge()
    ensures
        ({
            let l = layout(PopoverPosition::BottomLeft).horizontal;
            let r = layout(PopoverPosition::BottomRight).horizontal;
            &&& l.anchor_edge == HorizontalEdge::Left && l.content_edge == HorizontalEdge::Left
            &&& r.anchor_edge == HorizontalEdge::Right && r.content_edge == HorizontalEdge::Right
            &&& l.anchor_inset == r.anchor_inset && l.content_margin == r.content_margin
        }),
        ({
            let l = layout(PopoverPosition::TopLeft).horizontal;
            let r = layout(PopoverPosition::TopRight).horizontal;
            &&& l.anchor_edge == HorizontalEdge::Left && l.content_edge == HorizontalEdge::Left
            &&& r.anchor_edge == HorizontalEdge::Right && r.content_edge == HorizontalEdge::Right
            &&& l.anchor_inset == r.anchor_inset && l.content_margin == r.content_margin
        }),
        ({
            let t = layout(PopoverPosition::LeftTop).vertical;
            let b = layout(PopoverPosition::LeftBottom).vertical;
            &&& t.anchor_edge == VerticalEdge::Top && t.content_edge == VerticalEdge::Top
            &&& b.anchor_edge == VerticalEdge::Bottom && b.content_edge == VerticalEdge::Bottom
            &&& t.anchor_inset == b.anchor_inset && t.content_margin == b.content_margin
        }),
        ({
            let t = layout(PopoverPosition::RightTop).vertical;
            let b = layout(PopoverPosition::RightBottom).vertical;
            &&& t.anchor_edge == VerticalEdge::Top && t.content_edge == VerticalEdge::Top
            &&& b.anchor_edge == VerticalEdge::Bottom && b.content_edge == VerticalEdge::Bottom
            &&& t.anchor_inset == b.anchor_inset && t.content_margin == b.content_margin
        }),
        layout(PopoverPosition::BottomLeft).horizontal.content_margin == ContentMargin::Zero,
        layout(PopoverPosition::LeftTop).vertical.content_margin == ContentMargin::Zero,
{
}

/// A centred popover hangs from the middle of the parent and is pulled back by
/// half its own extent, on whichever axis it is centred.
pub proof fn lemma_center_alignment_centres()
    ensures
        forall|p: PopoverPosition|
            (p == PopoverPosition::TopCenter || p == PopoverPosition::BottomCenter) ==> {
                &&& (#[trigger] layout(p)).horizontal.anchor_inset == AnchorInset::Middle
                &&& layout(p).horizontal.content_margin == ContentMargin::BackHalf
                &&& layout(p).vertical.anchor_inset == AnchorInset::Flush
            },
        forall|p: PopoverPosition|
            (p == PopoverPosition::Left || p == PopoverPosition::Right) ==> {
                &&& (#[trigger] layout(p)).vertical.anchor_inset == AnchorInset::Middle
                &&& layout(p).vertical.content_margin == ContentMargin::BackHalf
                &&& layout(p).horizontal.anchor_inset == AnchorInset::Flush
            },
{
}

} // verus!
