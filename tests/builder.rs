use collider_gen::anchor::Anchor;
use collider_gen::builder::Builder;
use collider_gen::collider::{AbstractCollider, ColliderType};
use collider_gen::heightfield::heights_and_scale;

fn square(n: u32) -> Vec<(u32, u32)> {
    vec![(0, 0), (n, 0), (n, n), (0, n)]
}

#[test]
fn absolute_keeps_points() {
    let c = vec![(3, 7), (0, 0), (9, 2)];
    assert_eq!(Anchor::AbsoluteCenter.translate(&c), vec![(3, 7), (0, 0), (9, 2)]);
}

#[test]
fn center_offset_floors() {
    assert_eq!(Anchor::Center(5, 7).resolve_offset(), (-3, -2));
    assert_eq!(Anchor::HorisontalCenter(9).resolve_offset(), (-4, 0));
    assert_eq!(Anchor::VerticalCenter(9).resolve_offset(), (0, -4));
    assert_eq!(Anchor::Center(0, 0).resolve_offset(), (0, 0));
    assert_eq!(Anchor::Center(5, 7).translate(&vec![(1, 1)]), vec![(-2, -1)]);
}

#[test]
fn scenario_centered_square() {
    let b = Builder::new(10, 10).polyline();
    match b.single(Some(square(10))) {
        Some(AbstractCollider::Polyline(p)) => assert_eq!(p, vec![(-5, -5), (5, -5), (5, 5), (-5, 5)]),
        other => panic!("unexpected {:?}", other),
    }
}

#[test]
fn scenario_absolute_square() {
    let b = Builder::new(10, 10).absolute();
    match b.single(Some(square(10))) {
        Some(AbstractCollider::Polyline(p)) => assert_eq!(p, vec![(0, 0), (10, 0), (10, 10), (0, 10)]),
        other => panic!("unexpected {:?}", other),
    }
}

#[test]
fn scenario_empty_mask() {
    for t in [ColliderType::Polyline, ColliderType::ConvexPolyline, ColliderType::ConvexHull, ColliderType::Heightfield] {
        let b = Builder::new(10, 10).with_type(t);
        assert!(b.single(None).is_none());
        assert!(b.multiple(&vec![]).is_empty());
    }
}

#[test]
fn scenario_heightfield_block() {
    let b = Builder::new(4, 2).heightfield().absolute();
    match b.single(Some(vec![(0, 0), (4, 0), (4, 2), (0, 2)])) {
        Some(AbstractCollider::Heightfield(h, s)) => {
            assert_eq!(h, vec![2, 2, 2, 2]);
            assert!(s.0 > 0 && s.1 > 0);
        }
        other => panic!("unexpected {:?}", other),
    }
}

#[test]
fn heightfield_degenerate_contour() {
    let (h, s) = heights_and_scale(&vec![(3, 3)], Anchor::AbsoluteCenter);
    assert_eq!(h, vec![0]);
    assert!(s.0 >= 1 && s.1 >= 1);
}

#[test]
fn multiple_counts_contours() {
    let b = Builder::new(10, 10).convex_hull();
    let r = b.multiple(&vec![square(2), square(3), square(4)]);
    assert_eq!(r.len(), 3);
    assert!(matches!(r[1], AbstractCollider::ConvexHull(_)));
}

#[test]
fn setters_replace_one_field() {
    let b = Builder::new(6, 4);
    assert_eq!(b.anchor(), Anchor::Center(4, 6));
    assert_eq!(b.collider_type(), ColliderType::Polyline);
    let b = b.vertical(8).convex_polyline();
    assert_eq!(b.anchor(), Anchor::VerticalCenter(8));
    assert_eq!(b.collider_type(), ColliderType::ConvexPolyline);
    assert_eq!(b.horisontal(2).anchor(), Anchor::HorisontalCenter(2));
    assert_eq!(b.center(6, 4).anchor(), Anchor::Center(4, 6));
    assert_eq!(b.width, 6);
}

#[test]
fn background_mask_traces_nothing() {
    for t in [ColliderType::Polyline, ColliderType::Heightfield] {
        let b = Builder::new(10, 10).with_type(t);
        assert!(b.single_from_mask(&vec![0u8; 100]).is_none());
        assert!(b.multiple_from_mask(&vec![0u8; 100]).is_empty());
    }
}

#[test]
fn foreground_mask_traces_one_contour() {
    let b = Builder::new(10, 10).absolute();
    let all = b.multiple_from_mask(&vec![255u8; 100]);
    assert_eq!(all.len(), 1);
    match b.single_from_mask(&vec![255u8; 100]) {
        Some(AbstractCollider::Polyline(p)) => {
            assert!(p.len() >= 4);
            assert!(p.iter().all(|&(x, y)| (0..=10).contains(&x) && (0..=10).contains(&y)));
        }
        other => panic!("unexpected {:?}", other),
    }
}

#[test]
fn mask_of_wrong_size_is_ignored() {
    let b = Builder::new(10, 10);
    assert!(b.single_from_mask(&vec![255u8; 99]).is_none());
    assert!(b.multiple_from_mask(&vec![]).is_empty());
    assert!(Builder::new(0, 0).single_from_mask(&vec![]).is_none());
}

#[test]
fn heightfield_follows_slanted_edge() {
    let (h, s) = heights_and_scale(&vec![(0, 0), (4, 4), (0, 4)], Anchor::AbsoluteCenter);
    assert_eq!(h, vec![4, 3, 2, 1]);
    assert_eq!(s, (4, 4));
}

#[test]
fn heightfield_keeps_topmost_crossing() {
    // A "C" shape open to the right: column 1 is crossed at y = 0 and again lower down.
    let c = vec![(0, 0), (3, 0), (3, 1), (1, 1), (1, 3), (3, 3), (3, 4), (0, 4)];
    let (h, s) = heights_and_scale(&c, Anchor::Center(4, 4));
    assert_eq!(h, vec![4, 4, 4]);
    assert_eq!(s, (3, 4));
}

#[test]
fn heightfield_zero_width_is_single_zero() {
    let (h, s) = heights_and_scale(&vec![(2, 0), (2, 5)], Anchor::AbsoluteCenter);
    assert_eq!(h, vec![0]);
    assert_eq!(s, (1, 5));
}
