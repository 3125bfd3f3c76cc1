//! The Lights Out demo app: an 8x8 board of lights shared by everyone in a room. Toggling a tile
//! flips it and its orthogonal neighbours; the store also counts the people connected.
//!
//! Tile indices run row by row:
//!
//! ```text
//!  0  1  2  3  4  5  6  7
//!  8  9 10 11 12 13 14 15
//! ...
//! 56 57 58 59 60 61 62 63
//! ```

use vstd::prelude::*;

verus! {

/// The number of tiles on the board.
pub const BOARD_TILES: usize = 64;

/// The number of tiles in a row.
pub const ROW_WIDTH: usize = 8;

/// Whether tile `i` is flipped when tile `index` is toggled: the tile itself, the one above and
/// the one below where they exist, and the ones to its left and right within the same row.
pub open spec fn in_cross(index: int, i: int) -> bool {
    ||| i == index
    ||| (index >= 8 && i == index - 8)
    ||| (index < 56 && i == index + 8)
    ||| (index % 8 != 7 && i == index + 1)
    ||| (index % 8 != 0 && i == index - 1)
}

/// The board after toggling tile `index`; an index off the board leaves it as it is.
pub open spec fn toggled(tiles: Seq<bool>, index: int) -> Seq<bool> {
    if 0 <= index < 64 {
        Seq::new(tiles.len(), |i: int| if in_cross(index, i) { !tiles[i] } else { tiles[i] })
    } else {
        tiles
    }
}

/// The shared state of a Lights Out room.
pub struct LightsOut {
    pub tiles: Vec<bool>,
    pub people: u32,
}

impl LightsOut {
    /// Whether the board has its full 64 tiles.
    pub open spec fn wf(&self) -> bool {
        self.tiles.len() == 64
    }

    /// The initial store: every light off and nobody connected.
    pub fn init() -> (s: Self)
        ensures
            s.wf(),
            forall|i: int| 0 <= i < 64 ==> !(#[trigger] s.tiles@[i]),
            s.people == 0,
    {
        let mut tiles: Vec<bool> = Vec::new();
        while tiles.len() < BOARD_TILES
            invariant
                tiles.len() <= 64,
                forall|i: int| 0 <= i < tiles.len() ==> !(#[trigger] tiles@[i]),
            decreases 64 - tiles.len(),
        {
            tiles.push(false);
        }
        LightsOut { tiles, people: 0 }
    }

    /// The name the store is published under.
    pub fn name() -> (n: &'static str)
        ensures
            n@ == "LightsOut"@,
    {
        "LightsOut"
    }

    /// What a user is shown of the store: all of it.
    pub fn select(&self) -> (s: &Self)
        ensures
            s == self,
    {
        self
    }

    /// Flips tile `index` and its orthogonal neighbours on the board; an index off the board is
    /// ignored.
    pub fn toggle_tile(&mut self, index: usize)
        requires
            old(self).wf(),
        ensures
            final(self).wf(),
            final(self).tiles@ == toggled(old(self).tiles@, index as int),
            final(self).people == old(self).people,
    {
        if index >= BOARD_TILES {
            return;
        }
        let ghost before = self.tiles@;
        self.flip(index);
        if index >= ROW_WIDTH {
            self.flip(index - ROW_WIDTH);
        }
        if index < BOARD_TILES - ROW_WIDTH {
            self.flip(index + ROW_WIDTH);
        }
        if index % ROW_WIDTH != 7 {
            self.flip(index + 1);
        }
        if index % ROW_WIDTH != 0 {
            self.flip(index - 1);
        }
        assert(self.tiles@ =~= toggled(before, index as int));
    }

    fn flip(&mut self, i: usize)
        requires
            i < old(self).tiles.len(),
        ensures
            final(self).tiles@ == old(self).tiles@.update(i as int, !old(self).tiles@[i as int]),
            final(self).people == old(self).people,
    {
        let value = !self.tiles[i];
        self.tiles.set(i, value);
    }

    /// Counts a person joining the room.
    pub fn on_connect(&mut self)
        requires
            old(self).people < u32::MAX,
        ensures
            final(self).people == old(self).people + 1,
            final(self).tiles@ == old(self).tiles@,
    {
        self.people = self.people + 1;
    }

    /// Counts a person leaving the room.
    pub fn on_disconnect(&mut self)
        requires
            old(self).people > 0,
        ensures
            final(self).people == old(self).people - 1,
            final(self).tiles@ == old(self).tiles@,
    {
        self.people = self.people - 1;
    }
}

/// Toggling the same tile twice gives back the board as it was.
pub proof fn lemma_toggle_twice(tiles: Seq<bool>, index: int)
    ensures
        toggled(toggled(tiles, index), index) == tiles,
{
    assert(toggled(toggled(tiles, index), index) =~= tiles);
}

/// The order in which two tiles are toggled does not matter.
pub proof fn lemma_toggles_commute(tiles: Seq<bool>, a: int, b: int)
    ensures
        toggled(toggled(tiles, a), b) == toggled(toggled(tiles, b), a),
{
    assert(toggled(toggled(tiles, a), b) =~= toggled(toggled(tiles, b), a));
}

/// On the 8x8 board, toggling tile `index` flips exactly the tiles at grid distance at most one
/// from it (the tile itself and its orthogonal neighbours, rows and columns counted from tile
/// indices) and keeps every other tile: in particular the tile below is flipped for every tile
/// not on the bottom row, and the tile above for every tile not on the top row.
pub proof fn lemma_toggle_flips_grid_neighbours(tiles: Seq<bool>, index: int, i: int)
    requires
        tiles.len() == 64,
        0 <= index < 64,
        0 <= i < 64,
    ensures
        toggled(tiles, index)[i] != tiles[i] <==> grid_distance(index, i) <= 1,
        index < 56 ==> toggled(tiles, index)[index + 8] == !tiles[index + 8],
        index >= 8 ==> toggled(tiles, index)[index - 8] == !tiles[index - 8],
{
    assert(in_cross(index, i) <==> grid_distance(index, i) <= 1) by (nonlinear_arith)
        requires
            0 <= index < 64,
            0 <= i < 64,
    ;
}

/// The distance between tiles `a` and `b` walking along rows and columns of the 8-wide board.
pub open spec fn grid_distance(a: int, b: int) -> int {
    let dr = a / 8 - b / 8;
    let dc = a % 8 - b % 8;
    (if dr >= 0 { dr } else { -dr }) + (if dc >= 0 { dc } else { -dc })
}

/// A toggle only changes tiles in the cross around the toggled tile, and never the board's size.
pub proof fn lemma_toggle_is_local(tiles: Seq<bool>, index: int, i: int)
    requires
        0 <= i < tiles.len(),
        !in_cross(index, i),
    ensures
        toggled(tiles, index).len() == tiles.len(),
        toggled(tiles, index)[i] == tiles[i],
{
}

} // verus!
