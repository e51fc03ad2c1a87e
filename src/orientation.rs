use vstd::prelude::*;

verus! {

/// One of eight compass headings, or `Still` for no heading at all.
/// The eight headings are numbered counter-clockwise from `Right` (0) to
/// `DownRight` (7); `Still` is numbered 8.
#[derive(Clone, Copy, Debug, PartialEq, Eq, Structural)]
pub enum Orientation {
    Right,
    UpRight,
    Up,
    UpLeft,
    Left,
    DownLeft,
    Down,
    DownRight,
    Still,
}

/// Behavioural state of an agent. The two death stances are terminal.
#[derive(Clone, Copy, Debug, PartialEq, Eq, Structural)]
pub enum Stance {
    Still,
    Walking,
    NormalDeath,
    CriticalDeath,
}

pub open spec fn is_terminal(s: Stance) -> bool {
    s == Stance::NormalDeath || s == Stance::CriticalDeath
}

impl Stance {
    pub fn is_dead(self) -> (r: bool)
        ensures
            r == is_terminal(self),
    {
        match self {
            Stance::NormalDeath | Stance::CriticalDeath => true,
            _ => false,
        }
    }
}

impl Orientation {
    pub open spec fn code_spec(self) -> nat {
        match self {
            Orientation::Right => 0,
            Orientation::UpRight => 1,
            Orientation::Up => 2,
            Orientation::UpLeft => 3,
            Orientation::Left => 4,
            Orientation::DownLeft => 5,
            Orientation::Down => 6,
            Orientation::DownRight => 7,
            Orientation::Still => 8,
        }
    }

    /// Unit vector of this heading, in thousandths on each axis (y grows
    /// upwards): 1000 along an axis, 707 on each axis for a diagonal, and zero
    /// for `Still`.
    pub open spec fn step_spec(self) -> (int, int) {
        match self {
            Orientation::Right => (1000, 0),
            Orientation::UpRight => (707, 707),
            Orientation::Up => (0, 1000),
            Orientation::UpLeft => (-707, 707),
            Orientation::Left => (-1000, 0),
            Orientation::DownLeft => (-707, -707),
            Orientation::Down => (0, -1000),
            Orientation::DownRight => (707, -707),
            Orientation::Still => (0, 0),
        }
    }

    /// The heading turned by half a circle; `Still` stays `Still`.
    pub open spec fn reversed_spec(self) -> Orientation {
        match self {
            Orientation::Right => Orientation::Left,
            Orientation::UpRight => Orientation::DownLeft,
            Orientation::Up => Orientation::Down,
            Orientation::UpLeft => Orientation::DownRight,
            Orientation::Left => Orientation::Right,
            Orientation::DownLeft => Orientation::UpRight,
            Orientation::Down => Orientation::Up,
            Orientation::DownRight => Orientation::UpLeft,
            Orientation::Still => Orientation::Still,
        }
    }

    pub fn code(self) -> (r: usize)
        ensures
            r == self.code_spec(),
    {
        match self {
            Orientation::Right => 0,
            Orientation::UpRight => 1,
            Orientation::Up => 2,
            Orientation::UpLeft => 3,
            Orientation::Left => 4,
            Orientation::DownLeft => 5,
            Orientation::Down => 6,
            Orientation::DownRight => 7,
            Orientation::Still => 8,
        }
    }

    pub fn step(self) -> (r: (i64, i64))
        ensures
            r.0 == self.step_spec().0,
            r.1 == self.step_spec().1,
    {
        match self {
            Orientation::Right => (1000, 0),
            Orientation::UpRight => (707, 707),
            Orientation::Up => (0, 1000),
            Orientation::UpLeft => (-707, 707),
            Orientation::Left => (-1000, 0),
            Orientation::DownLeft => (-707, -707),
            Orientation::Down => (0, -1000),
            Orientation::DownRight => (707, -707),
            Orientation::Still => (0, 0),
        }
    }

    pub fn reversed(self) -> (r: Orientation)
        ensures
            r == self.reversed_spec(),
    {
        match self {
            Orientation::Right => Orientation::Left,
            Orientation::UpRight => Orientation::DownLeft,
            Orientation::Up => Orientation::Down,
            Orientation::UpLeft => Orientation::DownRight,
            Orientation::Left => Orientation::Right,
            Orientation::DownLeft => Orientation::UpRight,
            Orientation::Down => Orientation::Up,
            Orientation::DownRight => Orientation::UpLeft,
            Orientation::Still => Orientation::Still,
        }
    }
}

} // verus!
