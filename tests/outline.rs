use rigid_collide::outline::{fan_order, FanPoint, RimDirection, ShapeKind, Sign};

fn v(s: Sign) -> i32 {
    match s {
        Sign::Minus => -1,
        Sign::Zero => 0,
        Sign::Plus => 1,
    }
}

fn cross(a: RimDirection, b: RimDirection) -> i32 {
    v(a.x) * v(b.y) - v(a.y) * v(b.x)
}

#[test]
fn vertex_counts() {
    assert_eq!(ShapeKind::Box.number_of_vertices(), Some(4));
    assert_eq!(ShapeKind::Disc.number_of_vertices(), Some(8));
    assert_eq!(ShapeKind::HalfPlane.number_of_vertices(), None);
}

#[test]
fn box_rim_from_top_right_counter_clockwise() {
    let r = ShapeKind::Box.rim_directions();
    let got: Vec<(i32, i32)> = r.iter().map(|d| (v(d.x), v(d.y))).collect();
    assert_eq!(got, vec![(1, 1), (-1, 1), (-1, -1), (1, -1)]);
}

#[test]
fn disc_rim_from_top_clockwise() {
    let r = ShapeKind::Disc.rim_directions();
    let got: Vec<(i32, i32)> = r.iter().map(|d| (v(d.x), v(d.y))).collect();
    assert_eq!(
        got,
        vec![(0, 1), (1, 1), (1, 0), (1, -1), (0, -1), (-1, -1), (-1, 0), (-1, 1)]
    );
}

#[test]
fn half_plane_has_no_rim() {
    assert!(ShapeKind::HalfPlane.rim_directions().is_empty());
}

#[test]
fn rims_turn_one_way_and_do_not_repeat() {
    for kind in [ShapeKind::Box, ShapeKind::Disc] {
        let r = ShapeKind::rim_directions(&kind);
        let n = r.len();
        let first = cross(r[0], r[1]);
        for i in 0..n {
            assert!(cross(r[i], r[(i + 1) % n]) * first > 0);
            for j in (i + 1)..n {
                assert_ne!(r[i], r[j]);
            }
        }
    }
}

#[test]
fn fan_without_rim_is_the_centre() {
    assert_eq!(fan_order(0), vec![FanPoint::Centre]);
}

#[test]
fn fan_over_box_rim() {
    assert_eq!(
        fan_order(4),
        vec![
            FanPoint::Centre,
            FanPoint::Rim(0),
            FanPoint::Rim(1),
            FanPoint::Rim(2),
            FanPoint::Rim(3),
            FanPoint::Rim(0)
        ]
    );
}

#[test]
fn fan_over_disc_rim_is_closed() {
    let f = fan_order(8);
    assert_eq!(f.len(), 10);
    assert_eq!(f[0], FanPoint::Centre);
    assert_eq!(f[9], f[1]);
    for k in 0..8 {
        assert_eq!(f[k + 1], FanPoint::Rim(k));
    }
}

#[test]
fn fan_over_one_point() {
    assert_eq!(
        fan_order(1),
        vec![FanPoint::Centre, FanPoint::Rim(0), FanPoint::Rim(0)]
    );
}
