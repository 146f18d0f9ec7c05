//! Layout of the instance grid.
//!
//! The scene draws one model many times, once per cell of a square grid centred on the
//! origin. A cell is given here by its offset from the centre in grid steps; the host
//! multiplies the offset by the spacing between instances to get the world position.
//! Every instance is turned by a fixed angle about its own normalized position, except
//! the one at the origin, whose position has no direction and which is left unturned.
use vstd::prelude::*;

verus! {

/// The number of instances in each row and column of the grid.
pub const INSTANCES_PER_ROW: u32 = 10;

/// How an instance is turned.
#[derive(Clone, Copy, Debug, PartialEq, Eq, Structural)]
pub enum CellRotation {
    /// No rotation: the instance at the origin.
    Identity,
    /// The fixed angle about the instance's own normalized position vector.
    AboutPosition,
}

/// One instance of the grid: its offset from the centre along x and z, in grid steps,
/// and its rotation.
#[derive(Clone, Copy, Debug, PartialEq, Eq, Structural)]
pub struct InstancePlacement {
    pub x: i32,
    pub z: i32,
    pub rotation: CellRotation,
}

/// The rotation of the instance at offset `(x, z)`.
pub open spec fn rotation_at(x: int, z: int) -> CellRotation {
    if x == 0 && z == 0 {
        CellRotation::Identity
    } else {
        CellRotation::AboutPosition
    }
}

/// The instance number `k` of the grid: rows run along z, cells of a row along x, and
/// each offset is the cell's number in its row or column less half the row length.
pub open spec fn placement_at(k: int) -> InstancePlacement {
    let n = INSTANCES_PER_ROW as int;
    let x = k % n - n / 2;
    let z = k / n - n / 2;
    InstancePlacement { x: x as i32, z: z as i32, rotation: rotation_at(x, z) }
}

/// The whole grid, row by row.
pub open spec fn grid() -> Seq<InstancePlacement> {
    let n = INSTANCES_PER_ROW as int;
    Seq::new((n * n) as nat, |k: int| placement_at(k))
}

pub fn cell_rotation(x: i32, z: i32) -> (r: CellRotation)
    ensures
        r == rotation_at(x as int, z as int),
{
    if x == 0 && z == 0 {
        CellRotation::Identity
    } else {
        CellRotation::AboutPosition
    }
}

/// Builds the instance grid, row after row.
pub fn create_instances() -> (r: Vec<InstancePlacement>)
    ensures
        r@ == grid(),
{
    let n: u32 = INSTANCES_PER_ROW;
    let half: i32 = (INSTANCES_PER_ROW / 2) as i32;
    let mut out: Vec<InstancePlacement> = Vec::new();
    let mut zi: u32 = 0;
    while zi < n
        invariant
            n == INSTANCES_PER_ROW,
            half == INSTANCES_PER_ROW / 2,
            zi <= n,
            out@.len() == zi * n,
            forall|k: int| 0 <= k < out@.len() ==> out@[k] == placement_at(k),
        decreases n - zi,
    {
        let mut xi: u32 = 0;
        while xi < n
            invariant
                n == INSTANCES_PER_ROW,
                half == INSTANCES_PER_ROW / 2,
                zi < n,
                xi <= n,
                out@.len() == zi * n + xi,
                forall|k: int| 0 <= k < out@.len() ==> out@[k] == placement_at(k),
            decreases n - xi,
        {
            let x: i32 = xi as i32 - half;
            let z: i32 = zi as i32 - half;
            let cell = InstancePlacement { x, z, rotation: cell_rotation(x, z) };
            assert(cell == placement_at(zi * n + xi)) by {
                let k = zi * n + xi;
                assert(k % 10 == xi as int && k / 10 == zi as int) by (nonlinear_arith)
                    requires
                        k == zi * 10 + xi,
                        0 <= xi < 10,
                        0 <= zi,
                ;
            }
            out.push(cell);
            xi = xi + 1;
        }
        zi = zi + 1;
    }
    assert(out@ =~= grid());
    out
}

/// Exactly one instance of the grid is left unturned, the one at the centre, which is at
/// the origin; every other instance is turned about its own position, which is not the
/// origin.
pub proof fn lemma_only_centre_unturned()
    ensures
        ({
            let n = INSTANCES_PER_ROW as int;
            let centre = (n / 2) * n + n / 2;
            &&& 0 <= centre < grid().len()
            &&& grid()[centre] == (InstancePlacement { x: 0, z: 0, rotation: CellRotation::Identity })
            &&& forall|k: int|
                0 <= k < grid().len() && k != centre ==> {
                    &&& (#[trigger] grid()[k]).rotation == CellRotation::AboutPosition
                    &&& (grid()[k].x != 0 || grid()[k].z != 0)
                }
        }),
{
    assert forall|k: int| 0 <= k < grid().len() && k != 55 implies {
        &&& (#[trigger] grid()[k]).rotation == CellRotation::AboutPosition
        &&& (grid()[k].x != 0 || grid()[k].z != 0)
    } by {
        assert(k % 10 - 5 != 0 || k / 10 - 5 != 0) by (nonlinear_arith)
            requires
                0 <= k < 100,
                k != 55,
        ;
    }
}

} // verus!
