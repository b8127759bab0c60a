use vstd::prelude::*;

verus! {

/// Half the side of the box, in scene units.
pub const HALF_LENGTH: i32 = 20;

/// Depth at which the box is centred on its way to the back wall.
pub const BOX_Z_OFFSET: i32 = -48;

/// Depth of the back wall.
pub const BOX_Z_BACK: i32 = -68;

/// Depth of the open front of the box, just behind the camera.
pub const BOX_Z_FRONT: i32 = 1;

/// The walls of the box. The front is open.
#[derive(Clone, Copy, Debug, PartialEq, Eq, Structural)]
pub enum Wall {
    Floor,
    Ceiling,
    Back,
    Left,
    Right,
}

/// The diffuse paints of the walls.
#[derive(Clone, Copy, Debug, PartialEq, Eq, Structural)]
pub enum Paint {
    Grey,
    Green,
    Red,
    Blue,
}

/// A corner of the box. The corners lie on whole scene units.
#[derive(Clone, Copy, Debug, PartialEq, Eq, Structural)]
pub struct Corner {
    pub x: i32,
    pub y: i32,
    pub z: i32,
}

/// One of the two triangles of a wall, its corners in the order that fixes
/// which side it faces.
#[derive(Clone, Copy, Debug, PartialEq, Eq, Structural)]
pub struct WallTriangle {
    pub p1: Corner,
    pub p2: Corner,
    pub p3: Corner,
    pub wall: Wall,
}

impl Wall {
    /// Floor and ceiling are grey, the back wall green, the left wall red and
    /// the right wall blue.
    pub open spec fn spec_paint(self) -> Paint {
        match self {
            Wall::Floor => Paint::Grey,
            Wall::Ceiling => Paint::Grey,
            Wall::Back => Paint::Green,
            Wall::Left => Paint::Red,
            Wall::Right => Paint::Blue,
        }
    }

    #[verifier::when_used_as_spec(spec_paint)]
    pub fn paint(self) -> (paint: Paint)
        ensures
            paint == self.spec_paint(),
    {
        match self {
            Wall::Floor => Paint::Grey,
            Wall::Ceiling => Paint::Grey,
            Wall::Back => Paint::Green,
            Wall::Left => Paint::Red,
            Wall::Right => Paint::Blue,
        }
    }

    /// Whether a point lies in the plane of the wall.
    pub open spec fn holds(self, p: Corner) -> bool {
        match self {
            Wall::Floor => p.y == -HALF_LENGTH,
            Wall::Ceiling => p.y == HALF_LENGTH,
            Wall::Back => p.z == BOX_Z_BACK,
            Wall::Left => p.x == -HALF_LENGTH,
            Wall::Right => p.x == HALF_LENGTH,
        }
    }
}

impl WallTriangle {
    /// The face normal, not normalized: the cross product of the edges from
    /// `p1` to `p2` and from `p1` to `p3`.
    pub open spec fn normal(self) -> (int, int, int) {
        let (ux, uy, uz) = (self.p2.x - self.p1.x, self.p2.y - self.p1.y, self.p2.z - self.p1.z);
        let (vx, vy, vz) = (self.p3.x - self.p1.x, self.p3.y - self.p1.y, self.p3.z - self.p1.z);
        (uy * vz - uz * vy, uz * vx - ux * vz, ux * vy - uy * vx)
    }

    /// The triangle faces the inside of the box: its normal points to the
    /// side of its plane on which the middle of the box lies.
    pub open spec fn faces_inward(self) -> bool {
        let (nx, ny, nz) = self.normal();
        // twice the way from `p1` to the middle of the box
        let (mx, my, mz) = (
            0 - 2 * self.p1.x,
            0 - 2 * self.p1.y,
            (BOX_Z_BACK + BOX_Z_FRONT) - 2 * self.p1.z,
        );
        nx * mx + ny * my + nz * mz > 0
    }

    /// The triangle has its corners at the given coordinates, `p1` first.
    pub open spec fn spans(
        self,
        x1: int,
        y1: int,
        z1: int,
        x2: int,
        y2: int,
        z2: int,
        x3: int,
        y3: int,
        z3: int,
    ) -> bool {
        &&& self.p1.x == x1 && self.p1.y == y1 && self.p1.z == z1
        &&& self.p2.x == x2 && self.p2.y == y2 && self.p2.z == z2
        &&& self.p3.x == x3 && self.p3.y == y3 && self.p3.z == z3
    }

    /// The three corners are corners of the box and lie in the plane of the
    /// triangle's wall.
    pub open spec fn on_wall(self) -> bool {
        &&& is_box_corner(self.p1) && is_box_corner(self.p2) && is_box_corner(self.p3)
        &&& self.wall.holds(self.p1) && self.wall.holds(self.p2) && self.wall.holds(self.p3)
    }
}

/// Whether a point is one of the eight corners of the box.
pub open spec fn is_box_corner(p: Corner) -> bool {
    &&& p.x == -HALF_LENGTH || p.x == HALF_LENGTH
    &&& p.y == -HALF_LENGTH || p.y == HALF_LENGTH
    &&& p.z == BOX_Z_BACK || p.z == BOX_Z_FRONT
}

/// The corner with the given coordinates.
pub open spec fn spec_corner(x: int, y: int, z: int) -> Corner {
    Corner { x: x as i32, y: y as i32, z: z as i32 }
}

/// The triangle of `wall` with the given corners.
pub open spec fn spec_wall_triangle(
    p1: Corner,
    p2: Corner,
    p3: Corner,
    wall: Wall,
) -> WallTriangle {
    WallTriangle { p1, p2, p3, wall }
}

/// The ten triangles of the box: for each wall two, floor first, then
/// ceiling, back, left and right wall.
pub open spec fn spec_cornell_box() -> Seq<WallTriangle> {
    let p0 = spec_corner(-20, -20, 1);
    let p1 = spec_corner(-20, -20, -68);
    let p2 = spec_corner(20, -20, -68);
    let p3 = spec_corner(20, -20, 1);
    let p4 = spec_corner(-20, 20, -68);
    let p5 = spec_corner(20, 20, -68);
    let p6 = spec_corner(-20, 20, 1);
    let p7 = spec_corner(20, 20, 1);
    seq![
        spec_wall_triangle(p1, p0, p2, Wall::Floor),
        spec_wall_triangle(p3, p2, p0, Wall::Floor),
        spec_wall_triangle(p4, p5, p6, Wall::Ceiling),
        spec_wall_triangle(p7, p6, p5, Wall::Ceiling),
        spec_wall_triangle(p4, p1, p2, Wall::Back),
        spec_wall_triangle(p2, p5, p4, Wall::Back),
        spec_wall_triangle(p6, p0, p4, Wall::Left),
        spec_wall_triangle(p1, p4, p0, Wall::Left),
        spec_wall_triangle(p3, p7, p2, Wall::Right),
        spec_wall_triangle(p5, p2, p7, Wall::Right),
    ]
}

/// The walls of the box, as [`spec_cornell_box`] lists them.
pub fn cornell_box() -> (triangles: Vec<WallTriangle>)
    ensures
        triangles@ == spec_cornell_box(),
{
    let z: i32 = BOX_Z_OFFSET - HALF_LENGTH;
    let p0 = Corner { x: -HALF_LENGTH, y: -HALF_LENGTH, z: BOX_Z_FRONT };
    let p1 = Corner { x: -HALF_LENGTH, y: -HALF_LENGTH, z };
    let p2 = Corner { x: HALF_LENGTH, y: -HALF_LENGTH, z };
    let p3 = Corner { x: HALF_LENGTH, y: -HALF_LENGTH, z: BOX_Z_FRONT };
    let p4 = Corner { x: -HALF_LENGTH, y: HALF_LENGTH, z };
    let p5 = Corner { x: HALF_LENGTH, y: HALF_LENGTH, z };
    let p6 = Corner { x: -HALF_LENGTH, y: HALF_LENGTH, z: BOX_Z_FRONT };
    let p7 = Corner { x: HALF_LENGTH, y: HALF_LENGTH, z: BOX_Z_FRONT };
    let mut triangles: Vec<WallTriangle> = Vec::new();
    triangles.push(WallTriangle { p1, p2: p0, p3: p2, wall: Wall::Floor });
    triangles.push(WallTriangle { p1: p3, p2, p3: p0, wall: Wall::Floor });
    triangles.push(WallTriangle { p1: p4, p2: p5, p3: p6, wall: Wall::Ceiling });
    triangles.push(WallTriangle { p1: p7, p2: p6, p3: p5, wall: Wall::Ceiling });
    triangles.push(WallTriangle { p1: p4, p2: p1, p3: p2, wall: Wall::Back });
    triangles.push(WallTriangle { p1: p2, p2: p5, p3: p4, wall: Wall::Back });
    triangles.push(WallTriangle { p1: p6, p2: p0, p3: p4, wall: Wall::Left });
    triangles.push(WallTriangle { p1, p2: p4, p3: p0, wall: Wall::Left });
    triangles.push(WallTriangle { p1: p3, p2: p7, p3: p2, wall: Wall::Right });
    triangles.push(WallTriangle { p1: p5, p2, p3: p7, wall: Wall::Right });
    assert(triangles@ =~= spec_cornell_box());
    triangles
}

/// Every triangle of the box spans corners of the box in the plane of its
/// wall and faces the inside of the box.
pub proof fn lemma_walls_face_inward(i: int)
    requires
        0 <= i < spec_cornell_box().len(),
    ensures
        spec_cornell_box()[i].on_wall(),
        spec_cornell_box()[i].faces_inward(),
{
    let t = spec_cornell_box()[i];
    assert(spec_cornell_box().len() == 10);
    assert(t.on_wall());
    assert(t.faces_inward()) by (nonlinear_arith)
        requires
            ({
            ||| t.spans(-20, -20, -68, -20, -20, 1, 20, -20, -68)
            ||| t.spans(20, -20, 1, 20, -20, -68, -20, -20, 1)
            ||| t.spans(-20, 20, -68, 20, 20, -68, -20, 20, 1)
            ||| t.spans(20, 20, 1, -20, 20, 1, 20, 20, -68)
            ||| t.spans(-20, 20, -68, -20, -20, -68, 20, -20, -68)
            ||| t.spans(20, -20, -68, 20, 20, -68, -20, 20, -68)
            ||| t.spans(-20, 20, 1, -20, -20, 1, -20, 20, -68)
            ||| t.spans(-20, -20, -68, -20, 20, -68, -20, -20, 1)
            ||| t.spans(20, -20, 1, 20, 20, 1, 20, -20, -68)
            ||| t.spans(20, 20, -68, 20, -20, -68, 20, 20, 1)
            }),
    ;
}

} // verus!
