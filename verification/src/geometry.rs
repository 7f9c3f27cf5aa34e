//! Tile positions, chunk (submap) coordinates, and movement directions.

use vstd::prelude::*;

verus! {

pub const SUBMAP_SIZE: i32 = 12;

#[derive(Clone, Copy, Debug, Default, PartialEq, Eq, Structural, Hash, PartialOrd, Ord)]
pub struct ChunkCoord {
    pub x: i32,
    pub y: i32,
    pub z: i32,
}

#[derive(Clone, Copy, Debug, Default, PartialEq, Eq, Structural, PartialOrd, Ord)]
pub struct LocalTileCoord {
    pub x: u8,
    pub y: u8,
}

#[derive(Clone, Copy, Debug, Default, PartialEq, Eq, Structural, PartialOrd, Ord)]
pub struct WorldPosition {
    pub x: i32,
    pub y: i32,
    pub z: i32,
}

#[derive(Clone, Copy, Debug, Default, PartialEq, Eq, Structural, PartialOrd, Ord)]
pub struct CommandSequence(pub u64);

#[derive(Clone, Copy, Debug, Default, PartialEq, Eq, Structural, PartialOrd, Ord)]
pub struct HeldInputSequence(pub u64);

/// Euclidean quotient and remainder of `value` by the submap size.
fn split_axis(value: i32) -> (r: (i32, u8))
    ensures
        r.0 == value as int / SUBMAP_SIZE as int,
        r.1 as int == value as int % SUBMAP_SIZE as int,
        r.1 < 12,
{
    if value >= 0 {
        (value / 12, (value % 12) as u8)
    } else {
        let magnitude = -(value as i64);
        let q = (magnitude + 11) / 12;
        let r = q * 12 - magnitude;
        assert(r == value as int - (-q) * 12);
        assert(0 <= r < 12);
        assert(value as int / 12 == -q) by {
            vstd::arithmetic::div_mod::lemma_fundamental_div_mod_converse(value as int, 12, -q as int, r as int);
        }
        assert(value as int % 12 == r) by {
            vstd::arithmetic::div_mod::lemma_fundamental_div_mod_converse(value as int, 12, -q as int, r as int);
        }
        ((-q) as i32, r as u8)
    }
}

impl WorldPosition {
    /// The containing chunk and the tile within it, with Euclidean division
    /// so negative coordinates map to the chunk below.
    pub fn chunk_and_local(self) -> (r: (ChunkCoord, LocalTileCoord))
        ensures
            r.0.x == self.x as int / SUBMAP_SIZE as int,
            r.0.y == self.y as int / SUBMAP_SIZE as int,
            r.0.z == self.z,
            r.1.x as int == self.x as int % SUBMAP_SIZE as int,
            r.1.y as int == self.y as int % SUBMAP_SIZE as int,
    {
        let (cx, lx) = split_axis(self.x);
        let (cy, ly) = split_axis(self.y);
        (ChunkCoord { x: cx, y: cy, z: self.z }, LocalTileCoord { x: lx, y: ly })
    }

    /// The position moved by the given deltas, or `None` when a coordinate
    /// leaves the `i32` range.
    pub fn checked_offset(self, dx: i8, dy: i8, dz: i8) -> (r: Option<Self>)
        ensures
            r is Some <==> (i32::MIN <= self.x + dx <= i32::MAX && i32::MIN <= self.y + dy
                <= i32::MAX && i32::MIN <= self.z + dz <= i32::MAX),
            r matches Some(p) ==> p.x == self.x + dx && p.y == self.y + dy && p.z == self.z + dz,
    {
        let x = self.x.checked_add(dx as i32);
        let y = self.y.checked_add(dy as i32);
        let z = self.z.checked_add(dz as i32);
        match (x, y, z) {
            (Some(x), Some(y), Some(z)) => Some(WorldPosition { x, y, z }),
            _ => None,
        }
    }
}

#[derive(Clone, Copy, Debug, PartialEq, Eq, Structural)]
pub struct HorizontalDirection {
    pub dx: i8,
    pub dy: i8,
}

pub open spec fn direction_is_valid(d: HorizontalDirection) -> bool {
    -1 <= d.dx <= 1 && -1 <= d.dy <= 1 && (d.dx != 0 || d.dy != 0)
}

impl HorizontalDirection {
    /// One of the eight king-move steps.
    pub fn is_valid(self) -> (r: bool)
        ensures
            r == direction_is_valid(self),
    {
        self.dx >= -1 && self.dx <= 1 && self.dy >= -1 && self.dy <= 1 && (self.dx != 0
            || self.dy != 0)
    }
}

} // verus!
