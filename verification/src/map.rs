//! The game world: a 2D tile grid and centered room stamping.

use vstd::prelude::*;

use crate::room::Room;

verus! {

/// One cell of the map grid.
#[derive(Debug, Clone, Copy, PartialEq, Eq, Structural)]
pub enum Tile {
    /// Walkable floor tile
    Floor,
    /// Solid wall tile that blocks movement
    Wall,
    /// Door tile that can be opened/closed
    Door,
    /// Empty space (void/unused space)
    Empty,
}

/// Top-left coordinate of a span of extent `room_extent` centered in a span
/// of extent `map_extent`, halving the difference with division that
/// truncates toward zero (so an oversized room starts left of the map).
pub open spec fn centered_origin(map_extent: int, room_extent: int) -> int {
    if map_extent >= room_extent {
        (map_extent - room_extent) / 2
    } else {
        -((room_extent - map_extent) / 2)
    }
}

/// Whether (x, y) lies inside the w-by-h rectangle whose top-left corner is
/// (x0, y0).
pub open spec fn in_footprint(x0: int, y0: int, w: int, h: int, x: int, y: int) -> bool {
    x0 <= x < x0 + w && y0 <= y < y0 + h
}

/// Whether (x, y) lies on the perimeter of that rectangle (only meaningful
/// together with `in_footprint`).
pub open spec fn on_footprint_border(x0: int, y0: int, w: int, h: int, x: int, y: int) -> bool {
    y == y0 || y == y0 + h - 1 || x == x0 || x == x0 + w - 1
}

/// The tile a stamp leaves at (x, y): wall on the rectangle's border, floor
/// strictly inside it, and the prior tile everywhere else.
pub open spec fn stamped_tile(prior: Tile, x0: int, y0: int, w: int, h: int, x: int, y: int) -> Tile {
    if in_footprint(x0, y0, w, h, x, y) {
        if on_footprint_border(x0, y0, w, h, x, y) {
            Tile::Wall
        } else {
            Tile::Floor
        }
    } else {
        prior
    }
}

/// The game world map: a grid of tiles and the rooms stamped into it.
#[derive(Debug)]
pub struct GameMap {
    /// Width of the map in tiles
    pub width: i32,
    /// Height of the map in tiles
    pub height: i32,
    /// Row-major grid of tiles: `tiles[y][x]` is the tile at (x, y)
    pub tiles: Vec<Vec<Tile>>,
    /// Rooms stamped into the map, in stamping order
    pub rooms: Vec<Room>,
}

impl GameMap {
    /// The grid has positive extents and exactly matches them.
    pub open spec fn wf(self) -> bool {
        &&& 0 < self.width
        &&& 0 < self.height
        &&& self.tiles@.len() == self.height
        &&& forall|y: int| 0 <= y < self.height ==> (#[trigger] self.tiles@[y])@.len() == self.width
    }

    /// Whether (x, y) is a grid coordinate.
    pub open spec fn in_bounds(self, x: int, y: int) -> bool {
        0 <= x < self.width && 0 <= y < self.height
    }

    /// The tile at grid coordinate (x, y).
    pub open spec fn tile_at(self, x: int, y: int) -> Tile {
        self.tiles@[y]@[x]
    }

    /// Creates a map of the given positive extents, filled with `Empty`
    /// tiles and holding no rooms.
    pub fn new(width: i32, height: i32) -> (map: GameMap)
        requires
            0 < width,
            0 < height,
        ensures
            map.wf(),
            map.width == width,
            map.height == height,
            map.rooms@ == Seq::<Room>::empty(),
            forall|x: int, y: int| map.in_bounds(x, y) ==> map.tile_at(x, y) == Tile::Empty,
    {
        let w: usize = width as usize;
        let h: usize = height as usize;
        let mut tiles: Vec<Vec<Tile>> = Vec::new();
        let mut y: usize = 0;
        while y < h
            invariant
                y <= h,
                tiles@.len() == y,
                forall|i: int| 0 <= i < y ==> (#[trigger] tiles@[i])@.len() == w,
                forall|i: int, j: int| 0 <= i < y && 0 <= j < w ==> #[trigger] tiles@[i]@[j] == Tile::Empty,
            decreases h - y,
        {
            let mut row: Vec<Tile> = Vec::new();
            let mut x: usize = 0;
            while x < w
                invariant
                    x <= w,
                    row@.len() == x,
                    forall|j: int| 0 <= j < x ==> #[trigger] row@[j] == Tile::Empty,
                decreases w - x,
            {
                row.push(Tile::Empty);
                x += 1;
            }
            tiles.push(row);
            y += 1;
        }
        GameMap { width, height, tiles, rooms: Vec::new() }
    }

    /// Bounds-checked read of the tile at (x, y); `None` outside the grid.
    pub fn get_tile(&self, x: i32, y: i32) -> (t: Option<Tile>)
        requires
            self.wf(),
        ensures
            t == (if self.in_bounds(x as int, y as int) {
                Some(self.tile_at(x as int, y as int))
            } else {
                None::<Tile>
            }),
    {
        if x >= 0 && x < self.width && y >= 0 && y < self.height {
            Some(self.tiles[y as usize][x as usize])
        } else {
            None
        }
    }

    /// Bounds-checked write of the tile at (x, y); a write outside the grid
    /// changes nothing.
    pub fn set_tile(&mut self, x: i32, y: i32, tile: Tile)
        requires
            old(self).wf(),
        ensures
            final(self).wf(),
            final(self).width == old(self).width,
            final(self).height == old(self).height,
            final(self).rooms == old(self).rooms,
            forall|cx: int, cy: int| old(self).in_bounds(cx, cy) ==>
                #[trigger] final(self).tile_at(cx, cy) == (if cx == x as int && cy == y as int {
                    tile
                } else {
                    old(self).tile_at(cx, cy)
                }),
            !old(self).in_bounds(x as int, y as int) ==> *final(self) == *old(self),
    {
        if x >= 0 && x < self.width && y >= 0 && y < self.height {
            self.tiles[y as usize][x as usize] = tile;
        }
    }

    /// Stamps `room` centered in the map: walls on the rectangle's border,
    /// floor strictly inside it, unconditionally overwriting the footprint.
    /// Writes that fall outside the grid are dropped, so an oversized room
    /// is clipped rather than rejected. The room is recorded in `rooms`.
    pub fn create_room(&mut self, room: Room)
        requires
            old(self).wf(),
            room.wf(),
        ensures
            final(self).wf(),
            final(self).width == old(self).width,
            final(self).height == old(self).height,
            final(self).rooms@ == old(self).rooms@.push(room),
            forall|cx: int, cy: int| old(self).in_bounds(cx, cy) ==>
                #[trigger] final(self).tile_at(cx, cy) == stamped_tile(
                    old(self).tile_at(cx, cy),
                    centered_origin(old(self).width as int, room.width as int),
                    centered_origin(old(self).height as int, room.height as int),
                    room.width as int,
                    room.height as int,
                    cx,
                    cy,
                ),
    {
        let x0: i32 = if self.width >= room.width {
            (self.width - room.width) / 2
        } else {
            -((room.width - self.width) / 2)
        };
        let y0: i32 = if self.height >= room.height {
            (self.height - room.height) / 2
        } else {
            -((room.height - self.height) / 2)
        };
        let ghost m0: GameMap = *self;
        self.rooms.push(room);
        let x_end: i64 = x0 as i64 + room.width as i64;
        let y_end: i64 = y0 as i64 + room.height as i64;

        let mut i: i64 = y0 as i64;
        while i < y_end
            invariant
                self.wf(),
                m0.wf(),
                room.wf(),
                self.width == m0.width,
                self.height == m0.height,
                self.rooms@ == m0.rooms@.push(room),
                x0 == centered_origin(m0.width as int, room.width as int),
                y0 == centered_origin(m0.height as int, room.height as int),
                x_end == x0 + room.width,
                y_end == y0 + room.height,
                y0 <= i <= y_end,
                forall|cx: int, cy: int| m0.in_bounds(cx, cy) ==>
                    #[trigger] self.tile_at(cx, cy) == (if in_footprint(
                        x0 as int, y0 as int, room.width as int, room.height as int, cx, cy,
                    ) && cy < i {
                        if on_footprint_border(
                            x0 as int, y0 as int, room.width as int, room.height as int, cx, cy,
                        ) {
                            Tile::Wall
                        } else {
                            Tile::Floor
                        }
                    } else {
                        m0.tile_at(cx, cy)
                    }),
            decreases y_end - i,
        {
            let mut j: i64 = x0 as i64;
            while j < x_end
                invariant
                    self.wf(),
                    m0.wf(),
                    room.wf(),
                    self.width == m0.width,
                    self.height == m0.height,
                    self.rooms@ == m0.rooms@.push(room),
                    x0 == centered_origin(m0.width as int, room.width as int),
                    y0 == centered_origin(m0.height as int, room.height as int),
                    x_end == x0 + room.width,
                    y_end == y0 + room.height,
                    y0 <= i < y_end,
                    x0 <= j <= x_end,
                    forall|cx: int, cy: int| m0.in_bounds(cx, cy) ==>
                        #[trigger] self.tile_at(cx, cy) == (if in_footprint(
                            x0 as int, y0 as int, room.width as int, room.height as int, cx, cy,
                        ) && (cy < i || (cy == i && cx < j)) {
                            if on_footprint_border(
                                x0 as int, y0 as int, room.width as int, room.height as int, cx, cy,
                            ) {
                                Tile::Wall
                            } else {
                                Tile::Floor
                            }
                        } else {
                            m0.tile_at(cx, cy)
                        }),
                decreases x_end - j,
            {
                let t: Tile = if i == y0 as i64 || i == y_end - 1 || j == x0 as i64 || j == x_end - 1 {
                    Tile::Wall
                } else {
                    Tile::Floor
                };
                self.set_tile(j as i32, i as i32, t);
                j = j + 1;
            }
            i = i + 1;
        }
    }
}

} // verus!
