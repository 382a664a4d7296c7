use jetpack_course::scene::{collider_half_extents, course_obstacles, MmVec, Obstacle, Tint};

#[test]
fn course_has_four_obstacles() {
    assert_eq!(course_obstacles().len(), 4);
}

#[test]
fn course_obstacles_stand_where_laid_out() {
    let obstacles = course_obstacles();
    assert_eq!(
        obstacles[0],
        Obstacle {
            position: MmVec { x: 5000, y: 500, z: 5000 },
            size: MmVec { x: 2000, y: 1000, z: 2000 },
            color: Tint { red_tenths: 8, green_tenths: 2, blue_tenths: 2 },
        }
    );
    assert_eq!(
        obstacles[2],
        Obstacle {
            position: MmVec { x: 0, y: 750, z: -8000 },
            size: MmVec { x: 4000, y: 1500, z: 2000 },
            color: Tint { red_tenths: 2, green_tenths: 2, blue_tenths: 8 },
        }
    );
}

#[test]
fn collider_spans_half_the_box() {
    let half = collider_half_extents(MmVec { x: 4000, y: 1500, z: 2000 });
    assert_eq!(half, MmVec { x: 2000, y: 750, z: 1000 });
    let zero = collider_half_extents(MmVec { x: 0, y: 0, z: 0 });
    assert_eq!(zero, MmVec { x: 0, y: 0, z: 0 });
}

#[test]
fn every_obstacle_collider_fits_its_box() {
    for obstacle in course_obstacles() {
        let half = collider_half_extents(obstacle.size);
        assert_eq!(half.x * 2, obstacle.size.x);
        assert_eq!(half.y * 2, obstacle.size.y);
        assert_eq!(half.z * 2, obstacle.size.z);
    }
}
