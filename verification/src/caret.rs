//! The caret: a document location that moves one cell or one page at a
//! time and is clamped to the viewport, never to the text under it.

use vstd::prelude::*;
use crate::terminal::{cell_of, Command, Location, Size};

verus! {

/// The edit cursor: where it stands in the document, and the size of the
/// viewport it was last told of.
#[derive(Debug, Copy, Clone, PartialEq, Eq, Structural)]
pub struct Caret {
    pub location: Location,
    pub size: Size,
}

/// The four ways a caret moves by one cell.
#[derive(Debug, Copy, Clone, PartialEq, Eq, Structural)]
pub enum Direction {
    Up,
    Down,
    Left,
    Right,
}

/// `value` brought into `[0, limit - 1]`.
pub open spec fn clamp_below(value: int, limit: int) -> int
    recommends
        limit > 0,
{
    if value < 0 {
        0
    } else if value > limit - 1 {
        limit - 1
    } else {
        value
    }
}

impl Caret {
    /// The caret stands on a cell of its viewport.
    pub open spec fn in_viewport(self) -> bool {
        self.location.y < self.size.height && self.location.x < self.size.width
    }

    /// The caret after one step in `direction`. A step that would leave the
    /// viewport is not taken. The length of the line under the caret plays
    /// no part: the caret may rest beyond the end of the text.
    pub open spec fn shifted(self, direction: Direction) -> Caret {
        let Location { x, y } = self.location;
        let location = match direction {
            Direction::Up => if y > 0 {
                Location { x, y: (y - 1) as usize }
            } else {
                self.location
            },
            Direction::Down => if y < self.size.height - 1 {
                Location { x, y: (y + 1) as usize }
            } else {
                self.location
            },
            Direction::Left => if x > 0 {
                Location { x: (x - 1) as usize, y }
            } else {
                self.location
            },
            Direction::Right => if x < self.size.width - 1 {
                Location { x: (x + 1) as usize, y }
            } else {
                self.location
            },
        };
        Caret { location, size: self.size }
    }

    /// The caret after a whole sequence of steps, taken first to last.
    pub open spec fn shifted_all(self, directions: Seq<Direction>) -> Caret
        decreases directions.len(),
    {
        if directions.len() == 0 {
            self
        } else {
            self.shifted(directions[0]).shifted_all(directions.drop_first())
        }
    }

    /// The caret in the first column of its row.
    pub open spec fn at_line_start(self) -> Caret {
        Caret { location: Location { x: 0, y: self.location.y }, size: self.size }
    }

    /// The caret in the last column of the viewport, whatever the length
    /// of the line under it; in the first column of a viewport without
    /// columns.
    pub open spec fn at_line_end(self) -> Caret {
        let x = if self.size.width == 0 {
            0
        } else {
            (self.size.width - 1) as usize
        };
        Caret { location: Location { x, y: self.location.y }, size: self.size }
    }

    /// The caret one viewport height further up, stopping at the first row.
    /// A viewport without rows leaves the caret where it is.
    pub open spec fn paged_up(self) -> Caret {
        if self.size.height == 0 {
            self
        } else {
            Caret {
                location: Location {
                    x: self.location.x,
                    y: clamp_below(self.location.y - self.size.height, self.size.height as int) as usize,
                },
                size: self.size,
            }
        }
    }

    /// The caret one viewport height further down, stopping at the last
    /// row. A viewport without rows leaves the caret where it is.
    pub open spec fn paged_down(self) -> Caret {
        if self.size.height == 0 {
            self
        } else {
            Caret {
                location: Location {
                    x: self.location.x,
                    y: clamp_below(self.location.y + self.size.height, self.size.height as int) as usize,
                },
                size: self.size,
            }
        }
    }

    /// A caret at the origin of the document, with an empty viewport.
    pub fn default() -> (caret: Caret)
        ensures
            caret.location == (Location { x: 0, y: 0 }),
            caret.size == (Size { height: 0, width: 0 }),
    {
        Caret { location: Location { x: 0, y: 0 }, size: Size { height: 0, width: 0 } }
    }

    /// Moves one cell in `direction` unless that would leave the viewport,
    /// and returns the command that puts the screen cursor where the caret
    /// now stands.
    pub fn shift(&mut self, direction: Direction) -> (command: Command)
        ensures
            *final(self) == old(self).shifted(direction),
            old(self).in_viewport() ==> final(self).in_viewport(),
            command == Command::MoveCaretTo(cell_of(final(self).location)),
    {
        match direction {
            Direction::Up => {
                if self.location.y > 0 {
                    self.location.y -= 1;
                }
            },
            Direction::Down => {
                if self.size.height > 0 && self.location.y < self.size.height - 1 {
                    self.location.y += 1;
                }
            },
            Direction::Left => {
                if self.location.x > 0 {
                    self.location.x -= 1;
                }
            },
            Direction::Right => {
                if self.size.width > 0 && self.location.x < self.size.width - 1 {
                    self.location.x += 1;
                }
            },
        }
        Command::MoveCaretTo(self.location.into())
    }

    /// Puts the caret in the first column of its row.
    pub fn go_start_of_line(&mut self)
        ensures
            *final(self) == old(self).at_line_start(),
            old(self).in_viewport() ==> final(self).in_viewport(),
    {
        self.location.x = 0;
    }

    /// Puts the caret in the last column of the viewport, whatever the
    /// length of the line under it. A viewport without columns puts it in
    /// the first column.
    pub fn go_end_of_line(&mut self)
        ensures
            *final(self) == old(self).at_line_end(),
            old(self).in_viewport() ==> final(self).in_viewport(),
    {
        self.location.x = if self.size.width == 0 {
            0
        } else {
            self.size.width - 1
        };
    }

    /// Moves the caret up by one viewport height, stopping at the first
    /// row.
    pub fn page_up(&mut self)
        ensures
            *final(self) == old(self).paged_up(),
            old(self).in_viewport() ==> final(self).in_viewport(),
    {
        if self.size.height > 0 {
            let last: usize = self.size.height - 1;
            self.location.y = if self.location.y < self.size.height {
                0
            } else if self.location.y - self.size.height > last {
                last
            } else {
                self.location.y - self.size.height
            };
        }
    }

    /// Moves the caret down by one viewport height, stopping at the last
    /// row.
    pub fn page_down(&mut self)
        ensures
            *final(self) == old(self).paged_down(),
            old(self).in_viewport() ==> final(self).in_viewport(),
    {
        if self.size.height > 0 {
            self.location.y = self.size.height - 1;
        }
    }

    /// Takes over a new viewport size. The location stays as it is, so
    /// the caret may stand outside the new viewport until it next moves.
    pub fn resize(&mut self, to: Size)
        ensures
            *final(self) == (Caret { location: old(self).location, size: to }),
    {
        self.size = to;
    }

    /// Clamped movement never leaves the viewport: a caret that stands on a
    /// cell of its viewport still does after any sequence of steps, and
    /// the viewport is the same.
    pub proof fn lemma_shifts_stay_in_viewport(self, directions: Seq<Direction>)
        requires
            self.in_viewport(),
        ensures
            self.shifted_all(directions).in_viewport(),
            self.shifted_all(directions).size == self.size,
        decreases directions.len(),
    {
        if directions.len() > 0 {
            self.shifted(directions[0]).lemma_shifts_stay_in_viewport(directions.drop_first());
        }
    }
}

} // verus!
