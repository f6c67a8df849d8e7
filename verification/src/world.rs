//! The agent's spatial state (position and facing) and the snapshots that the
//! external world and attribute collaborators supply for one tick.

use vstd::prelude::*;

verus! {

/// Represents the position of a creature within the world. Coordinates wrap
/// at the u64 boundary, mirroring fixed-width register semantics.
#[derive(Debug, Copy, Clone, PartialEq, Eq, Structural)]
pub struct CreaturePos {
    pub x: u64,
    pub y: u64,
}

/// Represents a possible direction the creature might be facing.
#[derive(Debug, Copy, Clone, PartialEq, Eq, Structural)]
pub enum CreatureDir {
    /// Facing towards the positive y direction.
    North,
    /// Facing towards the negative y direction.
    South,
    /// Facing towards the positive x direction.
    East,
    /// Facing towards the negative x direction.
    West,
}

/// What the world collaborator reports about the tiles ahead of an agent for
/// one tick: whether the next tile and the tile after it are free.
#[derive(Debug, Copy, Clone, PartialEq, Eq, Structural)]
pub struct WorldView {
    /// The tile one step ahead in the facing direction is free.
    pub front_free: bool,
    /// The tile two steps ahead in the facing direction is free.
    pub front2_free: bool,
}

/// Read-only snapshot of the externally owned agent attributes that the
/// `Store*Tmp` instruction group loads into mem TMP.
#[derive(Debug, Copy, Clone, PartialEq, Eq, Structural)]
pub struct AgentAttrs {
    /// Current health (0-max).
    pub health: u64,
    /// Current fullness (0-max).
    pub hunger: u64,
    /// Current waste (0-max).
    pub waste: u64,
    /// Line of sight color hex (3 bytes).
    pub losc: u64,
}

/// Addition on a coordinate, wrapping at the u64 boundary.
pub open spec fn wrap_add64(v: u64, n: u64) -> u64 {
    if v + n <= u64::MAX {
        (v + n) as u64
    } else {
        (v + n - 0x1_0000_0000_0000_0000) as u64
    }
}

/// Subtraction on a coordinate, wrapping at the u64 boundary.
pub open spec fn wrap_sub64(v: u64, n: u64) -> u64 {
    if v >= n {
        (v - n) as u64
    } else {
        (v - n + 0x1_0000_0000_0000_0000) as u64
    }
}

/// The position `steps` tiles ahead of `pos` in the facing direction `dir`.
pub open spec fn spec_forward(pos: CreaturePos, dir: CreatureDir, steps: u64) -> CreaturePos {
    match dir {
        CreatureDir::North => CreaturePos { x: pos.x, y: wrap_add64(pos.y, steps) },
        CreatureDir::South => CreaturePos { x: pos.x, y: wrap_sub64(pos.y, steps) },
        CreatureDir::East => CreaturePos { x: wrap_add64(pos.x, steps), y: pos.y },
        CreatureDir::West => CreaturePos { x: wrap_sub64(pos.x, steps), y: pos.y },
    }
}

/// The facing after one clockwise quarter turn (relative to looking down).
pub open spec fn spec_rotate_cw(dir: CreatureDir) -> CreatureDir {
    match dir {
        CreatureDir::North => CreatureDir::East,
        CreatureDir::East => CreatureDir::South,
        CreatureDir::South => CreatureDir::West,
        CreatureDir::West => CreatureDir::North,
    }
}

/// The facing after one counter-clockwise quarter turn.
pub open spec fn spec_rotate_ccw(dir: CreatureDir) -> CreatureDir {
    match dir {
        CreatureDir::North => CreatureDir::West,
        CreatureDir::West => CreatureDir::South,
        CreatureDir::South => CreatureDir::East,
        CreatureDir::East => CreatureDir::North,
    }
}

fn wrap_add(v: u64, n: u64) -> (r: u64)
    ensures
        r == wrap_add64(v, n),
{
    if v <= u64::MAX - n {
        v + n
    } else {
        v - (u64::MAX - n) - 1
    }
}

fn wrap_sub(v: u64, n: u64) -> (r: u64)
    ensures
        r == wrap_sub64(v, n),
{
    if v >= n {
        v - n
    } else {
        u64::MAX - n + v + 1
    }
}

impl CreaturePos {
    /// A position at the given coordinates.
    pub fn new(x: u64, y: u64) -> (r: Self)
        ensures
            r == (CreaturePos { x, y }),
    {
        CreaturePos { x, y }
    }

    /// The position `steps` tiles ahead of this one in direction `dir`.
    pub fn forward(&self, dir: CreatureDir, steps: u64) -> (r: Self)
        ensures
            r == spec_forward(*self, dir, steps),
    {
        match dir {
            CreatureDir::North => CreaturePos { x: self.x, y: wrap_add(self.y, steps) },
            CreatureDir::South => CreaturePos { x: self.x, y: wrap_sub(self.y, steps) },
            CreatureDir::East => CreaturePos { x: wrap_add(self.x, steps), y: self.y },
            CreatureDir::West => CreaturePos { x: wrap_sub(self.x, steps), y: self.y },
        }
    }
}

impl Default for CreaturePos {
    /// The origin position.
    fn default() -> (r: Self)
        ensures
            r == (CreaturePos { x: 0, y: 0 }),
    {
        CreaturePos { x: 0, y: 0 }
    }
}

impl CreatureDir {
    /// The facing after one clockwise quarter turn.
    pub fn rotate_cw(self) -> (r: Self)
        ensures
            r == spec_rotate_cw(self),
    {
        match self {
            CreatureDir::North => CreatureDir::East,
            CreatureDir::East => CreatureDir::South,
            CreatureDir::South => CreatureDir::West,
            CreatureDir::West => CreatureDir::North,
        }
    }

    /// The facing after one counter-clockwise quarter turn.
    pub fn rotate_ccw(self) -> (r: Self)
        ensures
            r == spec_rotate_ccw(self),
    {
        match self {
            CreatureDir::North => CreatureDir::West,
            CreatureDir::West => CreatureDir::South,
            CreatureDir::South => CreatureDir::East,
            CreatureDir::East => CreatureDir::North,
        }
    }
}

impl Default for CreatureDir {
    /// Creatures start out facing north.
    fn default() -> (r: Self)
        ensures
            r == CreatureDir::North,
    {
        CreatureDir::North
    }
}

} // verus!
