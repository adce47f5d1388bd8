//! Scenario tests over fixed-point coordinates: forward mapping of nested
//! rectangles under perspective and rotation, inverse mapping with known
//! depth, and screen-space ray casting.

use transformator::{Transform, SCALE};

/// A coordinate in fixed-point units.
fn f(v: f64) -> i64 {
    (v * SCALE as f64).round() as i64
}

/// Homogeneous world-space depth of a local plane point, read off the
/// composed world matrix.
fn world_z(t: &Transform, x: i64, y: i64) -> i64 {
    let m = t.rows_world();
    let s = SCALE as i128;
    let hz = x as i128 * m[0][2] as i128 + y as i128 * m[1][2] as i128 + s * m[3][2] as i128;
    let hw = x as i128 * m[0][3] as i128 + y as i128 * m[1][3] as i128 + s * m[3][3] as i128;
    (hz * s / hw) as i64
}

#[test]
fn test_a() {
    // Rotates the main rectangle around the X axis and checks that inner
    // rects are correctly transformed as well.
    let viewport_center = (f(400.0), f(300.0));
    let rect_size = (f(100.0), f(100.0));
    let inner_rect_size = (f(35.0), f(80.0));

    let parent = Transform::new()
        .with_position_relative_to_parent(viewport_center.0 - f(50.0), viewport_center.1 - f(50.0))
        .with_parent_container_perspective(f(500.0), viewport_center.0, viewport_center.1)
        .with_origin(f(50.0), f(50.0))
        .then_rotate_x_deg(f(45.0))
        .compose_2(&Transform::new());

    // Inner rectangles inherit parent transform and sit inside with 10px padding.
    let child1 = Transform::new()
        .with_position_relative_to_parent(f(10.0), f(10.0))
        .compose_2(&parent);

    let child2 = Transform::new()
        .with_position_relative_to_parent(f(55.0), f(10.0))
        .compose_2(&parent);

    let rect_corners_after_transform_expected =
        [(f(346.0), f(264.0)), (f(455.0), f(264.0)), (f(465.0), f(348.0)), (f(336.0), f(348.0))];

    let inner_rect_after_transform_expected =
        [(f(355.0), f(270.0)), (f(395.0), f(270.0)), (f(394.0), f(338.0)), (f(348.0), f(338.0))];

    let inner_rect2_after_transform_expected =
        [(f(406.0), f(270.0)), (f(446.0), f(270.0)), (f(453.0), f(338.0)), (f(405.0), f(338.0))];

    let actual_rect_corners = [
        parent.transform_local_point2d_to_world(0, 0),
        parent.transform_local_point2d_to_world(rect_size.0, 0),
        parent.transform_local_point2d_to_world(rect_size.0, rect_size.1),
        parent.transform_local_point2d_to_world(0, rect_size.1),
    ];
    println!("Actual rect corners: {:?}", actual_rect_corners);

    for (actual, expected) in actual_rect_corners
        .iter()
        .zip(rect_corners_after_transform_expected.iter())
    {
        let dx = (actual.0 - expected.0).abs();
        let dy = (actual.1 - expected.1).abs();
        assert!(
            dx < 5 * SCALE && dy < 5 * SCALE,
            "Parent rect corner deviated: got {:?}, expected {:?}, delta=({},{})",
            actual,
            expected,
            dx,
            dy
        );
    }

    let inner_rect1_corners = [
        child1.transform_local_point2d_to_world(0, 0),
        child1.transform_local_point2d_to_world(inner_rect_size.0, 0),
        child1.transform_local_point2d_to_world(inner_rect_size.0, inner_rect_size.1),
        child1.transform_local_point2d_to_world(0, inner_rect_size.1),
    ];
    println!("Child 1 rect corners: {:?}", inner_rect1_corners);

    for (actual, expected) in inner_rect1_corners
        .iter()
        .zip(inner_rect_after_transform_expected.iter())
    {
        let dx = (actual.0 - expected.0).abs();
        let dy = (actual.1 - expected.1).abs();
        assert!(
            dx < 5 * SCALE && dy < 5 * SCALE,
            "Child 1 rect corner deviated: got {:?}, expected {:?}, delta=({},{})",
            actual,
            expected,
            dx,
            dy
        );
    }

    let inner_rect2_corners = [
        child2.transform_local_point2d_to_world(0, 0),
        child2.transform_local_point2d_to_world(inner_rect_size.0, 0),
        child2.transform_local_point2d_to_world(inner_rect_size.0, inner_rect_size.1),
        child2.transform_local_point2d_to_world(0, inner_rect_size.1),
    ];
    println!("Child 2 rect corners: {:?}", inner_rect2_corners);

    for (actual, expected) in inner_rect2_corners
        .iter()
        .zip(inner_rect2_after_transform_expected.iter())
    {
        let dx = (actual.0 - expected.0).abs();
        let dy = (actual.1 - expected.1).abs();
        assert!(
            dx < 5 * SCALE && dy < 5 * SCALE,
            "Child 2 rect corner deviated: got {:?}, expected {:?}, delta=({},{})",
            actual,
            expected,
            dx,
            dy
        );
    }
}

#[test]
fn test_b() {
    // Rotates the main rectangle around both X and Y axes and checks that
    // inner rects are correctly transformed as well.
    let viewport_center = (f(400.0), f(300.0));
    let rect_size = (f(100.0), f(100.0));
    let inner_rect_size = (f(35.0), f(80.0));

    let parent = Transform::new()
        .with_position_relative_to_parent(viewport_center.0 - f(50.0), viewport_center.1 - f(50.0))
        .with_parent_container_perspective(f(500.0), viewport_center.0, viewport_center.1)
        .then_rotate_y_deg(f(30.0))
        .then_rotate_x_deg(f(45.0))
        .with_origin(f(50.0), f(50.0))
        .compose_2(&Transform::new());

    let child1 = Transform::new()
        .with_position_relative_to_parent(f(10.0), f(10.0))
        .compose_2(&parent);

    let child2 = Transform::new()
        .with_position_relative_to_parent(f(55.0), f(10.0))
        .compose_2(&parent);

    let rect_corners_after_transform_expected =
        [(f(352.0), f(242.0)), (f(446.0), f(285.0)), (f(455.0), f(369.0)), (f(342.0), f(327.0))];

    let inner_rect_after_transform_expected =
        [(f(360.0), f(253.0)), (f(395.0), f(268.0)), (f(395.0), f(338.0)), (f(353.0), f(321.0))];

    let inner_rect2_after_transform_expected =
        [(f(405.0), f(272.0)), (f(439.0), f(287.0)), (f(446.0), f(356.0)), (f(405.0), f(341.0))];

    let actual_rect_corners = [
        parent.transform_local_point2d_to_world(0, 0),
        parent.transform_local_point2d_to_world(rect_size.0, 0),
        parent.transform_local_point2d_to_world(rect_size.0, rect_size.1),
        parent.transform_local_point2d_to_world(0, rect_size.1),
    ];
    println!("Actual rect corners: {:?}", actual_rect_corners);

    for (actual, expected) in actual_rect_corners
        .iter()
        .zip(rect_corners_after_transform_expected.iter())
    {
        let dx = (actual.0 - expected.0).abs();
        let dy = (actual.1 - expected.1).abs();
        assert!(
            dx < 5 * SCALE && dy < 5 * SCALE,
            "Parent rect corner deviated: got {:?}, expected {:?}, delta=({},{})",
            actual,
            expected,
            dx,
            dy
        );
    }

    let inner_rect1_corners = [
        child1.transform_local_point2d_to_world(0, 0),
        child1.transform_local_point2d_to_world(inner_rect_size.0, 0),
        child1.transform_local_point2d_to_world(inner_rect_size.0, inner_rect_size.1),
        child1.transform_local_point2d_to_world(0, inner_rect_size.1),
    ];
    println!("Child 1 rect corners: {:?}", inner_rect1_corners);

    for (actual, expected) in inner_rect1_corners
        .iter()
        .zip(inner_rect_after_transform_expected.iter())
    {
        let dx = (actual.0 - expected.0).abs();
        let dy = (actual.1 - expected.1).abs();
        assert!(
            dx < 5 * SCALE && dy < 5 * SCALE,
            "Child 1 rect corner deviated: got {:?}, expected {:?}, delta=({},{})",
            actual,
            expected,
            dx,
            dy
        );
    }

    let inner_rect2_corners = [
        child2.transform_local_point2d_to_world(0, 0),
        child2.transform_local_point2d_to_world(inner_rect_size.0, 0),
        child2.transform_local_point2d_to_world(inner_rect_size.0, inner_rect_size.1),
        child2.transform_local_point2d_to_world(0, inner_rect_size.1),
    ];
    println!("Child 2 rect corners: {:?}", inner_rect2_corners);

    for (actual, expected) in inner_rect2_corners
        .iter()
        .zip(inner_rect2_after_transform_expected.iter())
    {
        let dx = (actual.0 - expected.0).abs();
        let dy = (actual.1 - expected.1).abs();
        assert!(
            dx < 5 * SCALE && dy < 5 * SCALE,
            "Child 2 rect corner deviated: got {:?}, expected {:?}, delta=({},{})",
            actual,
            expected,
            dx,
            dy
        );
    }
}

#[test]
fn test_c() {
    // Rotates the main rectangle around both X and Y, and the inner
    // rectangles around Y, to check that all rotations compose correctly.
    let viewport_center = (f(400.0), f(300.0));
    let rect_size = (f(100.0), f(100.0));
    let inner_rect_size = (f(35.0), f(80.0));

    let parent = Transform::new()
        .with_position_relative_to_parent(viewport_center.0 - f(50.0), viewport_center.1 - f(50.0))
        .with_parent_container_perspective(f(500.0), viewport_center.0, viewport_center.1)
        .then_rotate_y_deg(f(30.0))
        .then_rotate_x_deg(f(45.0))
        .with_origin(f(50.0), f(50.0))
        .compose_2(&Transform::new());

    let child1 = Transform::new()
        .with_position_relative_to_parent(f(10.0), f(10.0))
        .then_rotate_y_deg(f(20.0))
        .with_origin(f(17.5), f(40.0))
        .compose_2(&parent);

    let rect_corners_after_transform_expected =
        [(f(352.0), f(242.0)), (f(446.0), f(285.0)), (f(455.0), f(369.0)), (f(342.0), f(327.0))];

    let inner_rect_after_transform_expected =
        [(f(364.0), f(248.0)), (f(391.0), f(272.0)), (f(390.0), f(342.0)), (f(358.0), f(317.0))];

    let actual_rect_corners = [
        parent.transform_local_point2d_to_world(0, 0),
        parent.transform_local_point2d_to_world(rect_size.0, 0),
        parent.transform_local_point2d_to_world(rect_size.0, rect_size.1),
        parent.transform_local_point2d_to_world(0, rect_size.1),
    ];
    println!("Actual rect corners: {:?}", actual_rect_corners);

    for (actual, expected) in actual_rect_corners
        .iter()
        .zip(rect_corners_after_transform_expected.iter())
    {
        let dx = (actual.0 - expected.0).abs();
        let dy = (actual.1 - expected.1).abs();
        assert!(
            dx < 5 * SCALE && dy < 5 * SCALE,
            "Parent rect corner deviated: got {:?}, expected {:?}, delta=({},{})",
            actual,
            expected,
            dx,
            dy
        );
    }

    let inner_rect1_corners = [
        child1.transform_local_point2d_to_world(0, 0),
        child1.transform_local_point2d_to_world(inner_rect_size.0, 0),
        child1.transform_local_point2d_to_world(inner_rect_size.0, inner_rect_size.1),
        child1.transform_local_point2d_to_world(0, inner_rect_size.1),
    ];
    println!("Child 1 rect corners: {:?}", inner_rect1_corners);

    for (actual, expected) in inner_rect1_corners
        .iter()
        .zip(inner_rect_after_transform_expected.iter())
    {
        let dx = (actual.0 - expected.0).abs();
        let dy = (actual.1 - expected.1).abs();
        assert!(
            dx < 5 * SCALE && dy < 5 * SCALE,
            "Child 1 rect corner deviated: got {:?}, expected {:?}, delta=({},{})",
            actual,
            expected,
            dx,
            dy
        );
    }

    // Second inner rectangle with its own rotation, further right.
    let child2 = Transform::new()
        .with_position_relative_to_parent(f(55.0), f(10.0))
        .then_rotate_y_deg(f(20.0))
        .with_origin(f(17.5), f(40.0))
        .compose_2(&parent);

    let inner_rect2_after_transform_expected =
        [(f(410.0), f(269.0)), (f(436.0), f(292.0)), (f(439.0), f(360.0)), (f(410.0), f(339.0))];

    let inner_rect2_corners = [
        child2.transform_local_point2d_to_world(0, 0),
        child2.transform_local_point2d_to_world(inner_rect_size.0, 0),
        child2.transform_local_point2d_to_world(inner_rect_size.0, inner_rect_size.1),
        child2.transform_local_point2d_to_world(0, inner_rect_size.1),
    ];

    for (actual, expected) in inner_rect2_corners
        .iter()
        .zip(inner_rect2_after_transform_expected.iter())
    {
        let dx = (actual.0 - expected.0).abs();
        let dy = (actual.1 - expected.1).abs();
        assert!(
            dx < 5 * SCALE && dy < 5 * SCALE,
            "Child 2 rect corner deviated: got {:?}, expected {:?}, delta=({},{})",
            actual,
            expected,
            dx,
            dy
        );
    }
}

#[test]
fn test_inverse() {
    let viewport_center = (f(400.0), f(300.0));
    let rect_size = (f(100.0), f(100.0));

    let parent = Transform::new()
        .with_position_relative_to_parent(viewport_center.0 - f(50.0), viewport_center.1 - f(50.0))
        .with_parent_container_perspective(f(500.0), viewport_center.0, viewport_center.1)
        .then_rotate_y_deg(f(30.0))
        .then_rotate_x_deg(f(45.0))
        .with_origin(f(50.0), f(50.0))
        .compose_2(&Transform::new());

    let rect_corners_after_transform_expected =
        [(f(352.0), f(242.0)), (f(446.0), f(285.0)), (f(455.0), f(369.0)), (f(342.0), f(327.0))];

    let actual_rect_corners = [
        parent.transform_local_point2d_to_world(0, 0),
        parent.transform_local_point2d_to_world(rect_size.0, 0),
        parent.transform_local_point2d_to_world(rect_size.0, rect_size.1),
        parent.transform_local_point2d_to_world(0, rect_size.1),
    ];
    println!("Actual rect corners: {:?}", actual_rect_corners);

    for (actual, expected) in actual_rect_corners
        .iter()
        .zip(rect_corners_after_transform_expected.iter())
    {
        let dx = (actual.0 - expected.0).abs();
        let dy = (actual.1 - expected.1).abs();
        assert!(
            dx < 5 * SCALE && dy < 5 * SCALE,
            "Parent rect corner deviated: got {:?}, expected {:?}, delta=({},{})",
            actual,
            expected,
            dx,
            dy
        );
    }

    // For perspective transforms, the inverse needs the world-space depth of
    // each point; read it off the forward homogeneous transform.
    let local_corners = [(0, 0), (f(100.0), 0), (f(100.0), f(100.0)), (0, f(100.0))];
    let world_z_coords: Vec<i64> = local_corners
        .iter()
        .map(|(x, y)| world_z(&parent, *x, *y))
        .collect();
    println!("World Z coordinates for corners: {:?}", world_z_coords);

    let inversed_parents_corners: Vec<(i64, i64)> = actual_rect_corners
        .iter()
        .zip(world_z_coords.iter())
        .map(|((x, y), z)| parent.transform_world_point_to_local(*x, *y, *z).unwrap())
        .collect();
    println!("Inversed corners: {:?}", inversed_parents_corners);

    // A hundredth of a unit, in fixed-point units.
    let tol = SCALE / 100;
    for (actual, expected) in inversed_parents_corners.iter().zip(local_corners.iter()) {
        let dx = (actual.0 - expected.0).abs();
        let dy = (actual.1 - expected.1).abs();
        assert!(
            dx < tol && dy < tol,
            "Inversed parent rect corner deviated: got {:?}, expected {:?}, delta=({},{})",
            actual,
            expected,
            dx,
            dy
        );
    }
}

#[test]
fn test_project_screen_point_to_local_2d() {
    let viewport_center = (f(400.0), f(300.0));

    let transform = Transform::new()
        .with_position_relative_to_parent(viewport_center.0 - f(50.0), viewport_center.1 - f(50.0))
        .with_parent_container_perspective(f(500.0), viewport_center.0, viewport_center.1)
        .then_rotate_y_deg(f(30.0))
        .then_rotate_x_deg(f(45.0))
        .with_origin(f(50.0), f(50.0))
        .compose_2(&Transform::new());

    let tol = SCALE / 100;

    // Ray-cast from the world image of the local origin back to local.
    let world_origin = transform.transform_local_point2d_to_world(0, 0);
    let local_back = transform
        .project_screen_point_to_local_2d((world_origin.0, world_origin.1))
        .unwrap();
    println!("Origin: world {:?} -> local {:?}", world_origin, local_back);

    let dx = local_back.0.abs();
    let dy = local_back.1.abs();
    assert!(dx < tol && dy < tol, "Origin roundtrip failed: {:?}", local_back);

    // Ray-cast from the world image of the rectangle's center back to local.
    let world_center = transform.transform_local_point2d_to_world(f(50.0), f(50.0));
    let local_center_back = transform
        .project_screen_point_to_local_2d((world_center.0, world_center.1))
        .unwrap();
    println!("Center: world {:?} -> local {:?}", world_center, local_center_back);

    let dx = (local_center_back.0 - f(50.0)).abs();
    let dy = (local_center_back.1 - f(50.0)).abs();
    assert!(dx < tol && dy < tol, "Center roundtrip failed: {:?}", local_center_back);

    // Ray-cast from the world image of the far corner back to local.
    let world_far = transform.transform_local_point2d_to_world(f(100.0), f(100.0));
    let local_far_back = transform
        .project_screen_point_to_local_2d((world_far.0, world_far.1))
        .unwrap();
    println!("Far point: world {:?} -> local {:?}", world_far, local_far_back);

    let dx = (local_far_back.0 - f(100.0)).abs();
    let dy = (local_far_back.1 - f(100.0)).abs();
    assert!(dx < tol && dy < tol, "Far point roundtrip failed: {:?}", local_far_back);
}
