use vstd::prelude::*;

verus! {

/// A position or size on the course, in whole millimetres. The engine
/// renders in metres; one metre is a thousand millimetres, so every
/// coordinate of the course is exact here.
#[derive(Clone, Copy, Debug, PartialEq, Eq, Structural)]
pub struct MmVec {
    pub x: i64,
    pub y: i64,
    pub z: i64,
}

/// A paint colour, in tenths of full brightness per channel.
#[derive(Clone, Copy, Debug, PartialEq, Eq, Structural)]
pub struct Tint {
    pub red_tenths: u8,
    pub green_tenths: u8,
    pub blue_tenths: u8,
}

/// One fixed obstacle of the course: where its centre stands, how big
/// the box is, and how it is painted.
#[derive(Clone, Copy, Debug, PartialEq, Eq, Structural)]
pub struct Obstacle {
    pub position: MmVec,
    pub size: MmVec,
    pub color: Tint,
}

/// The course's fixed obstacles: four painted boxes around the origin.
pub open spec fn spec_course_obstacles() -> Seq<Obstacle> {
    seq![
        Obstacle {
            position: MmVec { x: 5000, y: 500, z: 5000 },
            size: MmVec { x: 2000, y: 1000, z: 2000 },
            color: Tint { red_tenths: 8, green_tenths: 2, blue_tenths: 2 },
        },
        Obstacle {
            position: MmVec { x: -5000i64, y: 1000, z: -5000i64 },
            size: MmVec { x: 3000, y: 2000, z: 3000 },
            color: Tint { red_tenths: 2, green_tenths: 8, blue_tenths: 2 },
        },
        Obstacle {
            position: MmVec { x: 0, y: 750, z: -8000i64 },
            size: MmVec { x: 4000, y: 1500, z: 2000 },
            color: Tint { red_tenths: 2, green_tenths: 2, blue_tenths: 8 },
        },
        Obstacle {
            position: MmVec { x: 8000, y: 500, z: 0 },
            size: MmVec { x: 2000, y: 1000, z: 4000 },
            color: Tint { red_tenths: 8, green_tenths: 8, blue_tenths: 2 },
        },
    ]
}

/// The course's obstacles, in the order they are spawned.
pub fn course_obstacles() -> (obstacles: Vec<Obstacle>)
    ensures
        obstacles@ == spec_course_obstacles(),
{
    let mut obstacles: Vec<Obstacle> = Vec::new();
    obstacles.push(
        Obstacle {
            position: MmVec { x: 5000, y: 500, z: 5000 },
            size: MmVec { x: 2000, y: 1000, z: 2000 },
            color: Tint { red_tenths: 8, green_tenths: 2, blue_tenths: 2 },
        },
    );
    obstacles.push(
        Obstacle {
            position: MmVec { x: -5000, y: 1000, z: -5000 },
            size: MmVec { x: 3000, y: 2000, z: 3000 },
            color: Tint { red_tenths: 2, green_tenths: 8, blue_tenths: 2 },
        },
    );
    obstacles.push(
        Obstacle {
            position: MmVec { x: 0, y: 750, z: -8000 },
            size: MmVec { x: 4000, y: 1500, z: 2000 },
            color: Tint { red_tenths: 2, green_tenths: 2, blue_tenths: 8 },
        },
    );
    obstacles.push(
        Obstacle {
            position: MmVec { x: 8000, y: 500, z: 0 },
            size: MmVec { x: 2000, y: 1000, z: 4000 },
            color: Tint { red_tenths: 8, green_tenths: 8, blue_tenths: 2 },
        },
    );
    proof {
        assert(obstacles@ =~= spec_course_obstacles());
    }
    obstacles
}

/// The box collider of a drawn box spans half its size on each axis.
pub fn collider_half_extents(size: MmVec) -> (half: MmVec)
    requires
        0 <= size.x,
        0 <= size.y,
        0 <= size.z,
    ensures
        half.x == size.x / 2,
        half.y == size.y / 2,
        half.z == size.z / 2,
{
    MmVec { x: size.x / 2, y: size.y / 2, z: size.z / 2 }
}

} // verus!
