//! Rooms: rectangular blueprints stamped into the map.

use vstd::prelude::*;

verus! {

/// A rectangular room blueprint: dimensions only, not a placed entity.
#[derive(Debug, Clone, Copy, PartialEq, Eq, Structural)]
pub struct Room {
    /// Width of the room in tiles
    pub width: i32,
    /// Height of the room in tiles
    pub height: i32,
}

impl Room {
    /// Both extents of a well-formed room are positive.
    pub open spec fn wf(self) -> bool {
        0 < self.width && 0 < self.height
    }

    /// Creates a new room with the given positive dimensions.
    pub fn new(width: i32, height: i32) -> (room: Room)
        requires
            0 < width,
            0 < height,
        ensures
            room == (Room { width, height }),
            room.wf(),
    {
        Room { width, height }
    }

    /// The room's center coordinates under integer (floor) division.
    pub fn center(&self) -> (c: (i32, i32))
        requires
            self.wf(),
        ensures
            c.0 == self.width as int / 2,
            c.1 == self.height as int / 2,
    {
        (self.width / 2, self.height / 2)
    }
}

} // verus!
