use hummingbird::devices::format::{BufferSize, ChannelSpec, SampleFormat};
use hummingbird::ui::components::popover::{
    anchor_placement, AnchorInset, ContentMargin, HorizontalEdge, PopoverPosition, VerticalEdge,
};

#[test]
fn channel_count_reads_the_count() {
    assert_eq!(ChannelSpec::Count(2).count(), 2);
    assert_eq!(ChannelSpec::Count(0).count(), 0);
    assert_eq!(ChannelSpec::Count(u16::MAX).count(), u16::MAX);
}

#[test]
fn format_enums_compare_by_value() {
    assert_eq!(BufferSize::Range(64, 4096), BufferSize::Range(64, 4096));
    assert_ne!(BufferSize::Fixed(512), BufferSize::Unknown);
    assert_ne!(SampleFormat::Signed16, SampleFormat::Unsigned16);
}

#[test]
fn default_position_is_bottom_center() {
    assert_eq!(PopoverPosition::default(), PopoverPosition::BottomCenter);
}

#[test]
fn right_top_sits_right_and_aligns_top() {
    let p = anchor_placement(PopoverPosition::RightTop);
    assert_eq!(p.horizontal.anchor_edge, HorizontalEdge::Right);
    assert_eq!(p.horizontal.anchor_inset, AnchorInset::Flush);
    assert_eq!(p.horizontal.content_edge, HorizontalEdge::Left);
    assert_eq!(p.horizontal.content_margin, ContentMargin::EdgeOffset);
    assert_eq!(p.vertical.anchor_edge, VerticalEdge::Top);
    assert_eq!(p.vertical.anchor_inset, AnchorInset::Flush);
    assert_eq!(p.vertical.content_edge, VerticalEdge::Top);
    assert_eq!(p.vertical.content_margin, ContentMargin::Zero);
}

#[test]
fn bottom_center_hangs_below_and_centres() {
    let p = anchor_placement(PopoverPosition::BottomCenter);
    assert_eq!(p.horizontal.anchor_edge, HorizontalEdge::Left);
    assert_eq!(p.horizontal.anchor_inset, AnchorInset::Middle);
    assert_eq!(p.horizontal.content_edge, HorizontalEdge::Left);
    assert_eq!(p.horizontal.content_margin, ContentMargin::BackHalf);
    assert_eq!(p.vertical.anchor_edge, VerticalEdge::Bottom);
    assert_eq!(p.vertical.anchor_inset, AnchorInset::Flush);
    assert_eq!(p.vertical.content_edge, VerticalEdge::Top);
    assert_eq!(p.vertical.content_margin, ContentMargin::EdgeOffset);
}

#[test]
fn left_is_vertically_centred() {
    let p = anchor_placement(PopoverPosition::Left);
    assert_eq!(p.horizontal.anchor_edge, HorizontalEdge::Left);
    assert_eq!(p.horizontal.content_edge, HorizontalEdge::Right);
    assert_eq!(p.horizontal.content_margin, ContentMargin::EdgeOffset);
    assert_eq!(p.vertical.anchor_edge, VerticalEdge::Top);
    assert_eq!(p.vertical.anchor_inset, AnchorInset::Middle);
    assert_eq!(p.vertical.content_margin, ContentMargin::BackHalf);
}

#[test]
fn top_right_and_left_bottom_align_to_the_end() {
    let p = anchor_placement(PopoverPosition::TopRight);
    assert_eq!(p.horizontal.anchor_edge, HorizontalEdge::Right);
    assert_eq!(p.horizontal.content_edge, HorizontalEdge::Right);
    assert_eq!(p.horizontal.content_margin, ContentMargin::Zero);
    assert_eq!(p.vertical.anchor_edge, VerticalEdge::Top);
    assert_eq!(p.vertical.content_edge, VerticalEdge::Bottom);
    assert_eq!(p.vertical.content_margin, ContentMargin::EdgeOffset);

    let q = anchor_placement(PopoverPosition::LeftBottom);
    assert_eq!(q.vertical.anchor_edge, VerticalEdge::Bottom);
    assert_eq!(q.vertical.content_edge, VerticalEdge::Bottom);
    assert_eq!(q.vertical.content_margin, ContentMargin::Zero);
}

const ALL_POSITIONS: [PopoverPosition; 12] = [
    PopoverPosition::Left,
    PopoverPosition::LeftTop,
    PopoverPosition::LeftBottom,
    PopoverPosition::Right,
    PopoverPosition::RightTop,
    PopoverPosition::RightBottom,
    PopoverPosition::TopLeft,
    PopoverPosition::TopCenter,
    PopoverPosition::TopRight,
    PopoverPosition::BottomLeft,
    PopoverPosition::BottomCenter,
    PopoverPosition::BottomRight,
];

#[test]
fn edge_offset_is_applied_on_exactly_one_axis() {
    for position in ALL_POSITIONS {
        let p = anchor_placement(position);
        let horizontal = p.horizontal.content_margin == ContentMargin::EdgeOffset;
        let vertical = p.vertical.content_margin == ContentMargin::EdgeOffset;
        assert!(horizontal != vertical, "{:?}", position);
    }
}

#[test]
fn every_position_has_its_own_layout() {
    for (i, a) in ALL_POSITIONS.iter().enumerate() {
        for b in ALL_POSITIONS.iter().skip(i + 1) {
            assert_ne!(anchor_placement(*a), anchor_placement(*b), "{:?} {:?}", a, b);
        }
    }
}
