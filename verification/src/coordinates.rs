//! Positions on the grid plane and Moore-neighbourhood enumeration.

use vstd::prelude::*;

verus! {

/// A column index: how many cells a position lies from the left edge.
#[derive(Debug, Clone, Copy, PartialEq, Eq, Structural)]
pub struct Column(pub u16);

/// A row index: how many cells a position lies from the top edge.
#[derive(Debug, Clone, Copy, PartialEq, Eq, Structural)]
pub struct Row(pub u16);

impl Column {
    pub fn new(column: u16) -> (c: Self)
        ensures
            c.0 == column,
    {
        Self(column)
    }

    pub fn usize(&self) -> (index: usize)
        ensures
            index == self.0 as usize,
    {
        self.0 as usize
    }

    /// Checked subtraction: `None` exactly when taking `amount` away would
    /// fall below zero.
    pub fn try_sub(self, amount: u16) -> (difference: Option<Self>)
        ensures
            self.0 >= amount ==> difference == Some(Column((self.0 - amount) as u16)),
            self.0 < amount ==> difference is None,
    {
        if self.0 >= amount {
            Some(Self(self.0 - amount))
        } else {
            None
        }
    }
}

impl Row {
    pub fn new(row: u16) -> (r: Self)
        ensures
            r.0 == row,
    {
        Self(row)
    }

    pub fn usize(&self) -> (index: usize)
        ensures
            index == self.0 as usize,
    {
        self.0 as usize
    }

    /// Checked subtraction: `None` exactly when taking `amount` away would
    /// fall below zero.
    pub fn try_sub(self, amount: u16) -> (difference: Option<Self>)
        ensures
            self.0 >= amount ==> difference == Some(Row((self.0 - amount) as u16)),
            self.0 < amount ==> difference is None,
    {
        if self.0 >= amount {
            Some(Self(self.0 - amount))
        } else {
            None
        }
    }
}

/// A position identifier: an immutable (row, column) pair.
///
/// A `Coordinates` value is a pure value, not tied to any grid; it may name
/// a position outside a particular grid's bounds.
#[derive(Debug, Clone, Copy, PartialEq, Eq, Structural)]
pub struct Coordinates {
    pub column: Column,
    pub row: Row,
}

/// True when `other` lies in the Moore neighbourhood of `center`: at most
/// one step away along each axis, and not `center` itself.
pub open spec fn is_moore_neighbour(center: Coordinates, other: Coordinates) -> bool {
    let dc = other.column.0 - center.column.0;
    let dr = other.row.0 - center.row.0;
    &&& -1 <= dc <= 1
    &&& -1 <= dr <= 1
    &&& !(dc == 0 && dr == 0)
}

/// How many Moore neighbours a position has once positions below zero are
/// omitted: 8 in the interior, 5 along one zero edge, 3 at the origin.
pub open spec fn spec_neighbour_count(center: Coordinates) -> int {
    if center.column.0 > 0 && center.row.0 > 0 {
        8
    } else if center.column.0 > 0 || center.row.0 > 0 {
        5
    } else {
        3
    }
}

impl Coordinates {
    pub fn new(column: Column, row: Row) -> (coordinates: Self)
        ensures
            coordinates.column == column,
            coordinates.row == row,
    {
        Self { column, row }
    }

    /// Returns the neighbouring coordinates: the Moore neighbourhood of
    /// `self`, with the positions that would fall below zero omitted, so a
    /// position on a zero edge has fewer neighbours. No upper bound is
    /// checked here; high-side neighbours that lie outside a particular
    /// grid are filtered out by that grid's lookup instead.
    ///
    /// The headroom required of both components is a machine limit: the
    /// high-side neighbours of a position must themselves be representable.
    pub fn neighbours(&self) -> (neighbours: Vec<Coordinates>)
        requires
            self.column.0 < u16::MAX,
            self.row.0 < u16::MAX,
        ensures
            neighbours@.len() == spec_neighbour_count(*self),
            forall|i: int, j: int|
                0 <= i < j < neighbours@.len() ==> neighbours@[i] != neighbours@[j],
            forall|other: Coordinates|
                #[trigger] neighbours@.contains(other) <==> is_moore_neighbour(*self, other),
    {
        let mut neighbours: Vec<Coordinates> = Vec::new();

        if let (Some(column), Some(row)) = (self.column.try_sub(1), self.row.try_sub(1)) {
            neighbours.push(Coordinates::new(column, row));
        }
        if let Some(column) = self.column.try_sub(1) {
            neighbours.push(Coordinates::new(column, self.row));
        }
        if let Some(column) = self.column.try_sub(1) {
            neighbours.push(Coordinates::new(column, Row(self.row.0 + 1)));
        }
        neighbours.push(Coordinates::new(self.column, Row(self.row.0 + 1)));
        neighbours.push(Coordinates::new(Column(self.column.0 + 1), Row(self.row.0 + 1)));
        neighbours.push(Coordinates::new(Column(self.column.0 + 1), self.row));
        if let Some(row) = self.row.try_sub(1) {
            neighbours.push(Coordinates::new(Column(self.column.0 + 1), row));
        }
        if let Some(row) = self.row.try_sub(1) {
            neighbours.push(Coordinates::new(self.column, row));
        }

        proof {
            let s = neighbours@;
            let c = self.column.0 as int;
            let r = self.row.0 as int;
            assert forall|other: Coordinates|
                is_moore_neighbour(*self, other) implies s.contains(other) by {
                let co = other.column.0 as int;
                let ro = other.row.0 as int;
                if c > 0 && r > 0 {
                    if co == c - 1 && ro == r - 1 {
                        assert(s[0] == other);
                    } else if co == c - 1 && ro == r {
                        assert(s[1] == other);
                    } else if co == c - 1 && ro == r + 1 {
                        assert(s[2] == other);
                    } else if co == c && ro == r + 1 {
                        assert(s[3] == other);
                    } else if co == c + 1 && ro == r + 1 {
                        assert(s[4] == other);
                    } else if co == c + 1 && ro == r {
                        assert(s[5] == other);
                    } else if co == c + 1 && ro == r - 1 {
                        assert(s[6] == other);
                    } else {
                        assert(s[7] == other);
                    }
                } else if c > 0 {
                    if co == c - 1 && ro == r {
                        assert(s[0] == other);
                    } else if co == c - 1 && ro == r + 1 {
                        assert(s[1] == other);
                    } else if co == c && ro == r + 1 {
                        assert(s[2] == other);
                    } else if co == c + 1 && ro == r + 1 {
                        assert(s[3] == other);
                    } else {
                        assert(s[4] == other);
                    }
                } else if r > 0 {
                    if co == c && ro == r + 1 {
                        assert(s[0] == other);
                    } else if co == c + 1 && ro == r + 1 {
                        assert(s[1] == other);
                    } else if co == c + 1 && ro == r {
                        assert(s[2] == other);
                    } else if co == c + 1 && ro == r - 1 {
                        assert(s[3] == other);
                    } else {
                        assert(s[4] == other);
                    }
                } else {
                    if co == c && ro == r + 1 {
                        assert(s[0] == other);
                    } else if co == c + 1 && ro == r + 1 {
                        assert(s[1] == other);
                    } else {
                        assert(s[2] == other);
                    }
                }
            }
        }
        neighbours
    }
}

} // verus!
