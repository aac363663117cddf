use vstd::prelude::*;

verus! {

/// The power-up the snake carries, with the ticks it has left.
#[derive(Clone, Copy, PartialEq, Eq, Structural, Debug)]
pub enum PowerupType {
    Supersnake { tick_duration: u64 },
    Slowdown { tick_duration: u64 },
    Inactive,
}

/// Ticks a Supersnake power-up lasts.
pub const SUPERSNAKE_DURATION: u64 = 100;

/// Ticks a Slowdown power-up lasts.
pub const SLOWDOWN_DURATION: u64 = 150;

impl PowerupType {
    /// An active power-up has at least one tick left.
    pub open spec fn wf(self) -> bool {
        match self {
            PowerupType::Supersnake { tick_duration } => tick_duration > 0,
            PowerupType::Slowdown { tick_duration } => tick_duration > 0,
            PowerupType::Inactive => true,
        }
    }

    /// The power-up one tick later.
    pub open spec fn ticked(self) -> PowerupType {
        match self {
            PowerupType::Supersnake { tick_duration } => if tick_duration <= 1 {
                PowerupType::Inactive
            } else {
                PowerupType::Supersnake { tick_duration: (tick_duration - 1) as u64 }
            },
            PowerupType::Slowdown { tick_duration } => if tick_duration <= 1 {
                PowerupType::Inactive
            } else {
                PowerupType::Slowdown { tick_duration: (tick_duration - 1) as u64 }
            },
            PowerupType::Inactive => PowerupType::Inactive,
        }
    }

    /// Counts one tick off the power-up; it ends when no tick is left.
    pub fn tick(self) -> (r: PowerupType)
        requires
            self.wf(),
        ensures
            r == self.ticked(),
            r.wf(),
    {
        match self {
            PowerupType::Supersnake { tick_duration } => {
                let left = tick_duration - 1;
                if left == 0 {
                    PowerupType::Inactive
                } else {
                    PowerupType::Supersnake { tick_duration: left }
                }
            },
            PowerupType::Slowdown { tick_duration } => {
                let left = tick_duration - 1;
                if left == 0 {
                    PowerupType::Inactive
                } else {
                    PowerupType::Slowdown { tick_duration: left }
                }
            },
            PowerupType::Inactive => PowerupType::Inactive,
        }
    }

    pub fn is_supersnake(&self) -> (r: bool)
        ensures
            r == (*self is Supersnake),
    {
        matches!(self, PowerupType::Supersnake { .. })
    }

    pub fn is_slowdown(&self) -> (r: bool)
        ensures
            r == (*self is Slowdown),
    {
        matches!(self, PowerupType::Slowdown { .. })
    }
}

} // verus!
