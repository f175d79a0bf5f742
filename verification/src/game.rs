//! The players of a game and the moves they make.

use vstd::prelude::*;

verus! {

/// A direction to run in.
#[derive(Debug, Clone, Copy, PartialEq, Eq, Structural)]
pub enum Direction {
    Left,
    Right,
}

/// A move of a player.
#[derive(Debug, Clone, Copy, PartialEq, Eq, Structural)]
pub enum PlayerMove {
    /// The player stays.
    Pass,
    /// The player runs in a direction.
    Run(Direction),
    /// The player appears at a place.
    Teleport { x: u32, y: u32 },
}

/// A player by name, with strength and hit points.
#[derive(Debug)]
pub struct Player {
    pub name: String,
    pub strength: u8,
    pub hit_points: u8,
}

impl Clone for Player {
    /// A player with the same name, strength and hit points.
    fn clone(&self) -> (copy: Player)
        ensures
            copy == *self,
    {
        Player { name: self.name.clone(), strength: self.strength, hit_points: self.hit_points }
    }
}

impl Default for Player {
    /// The nameless player without strength or hit points.
    fn default() -> (player: Player)
        ensures
            player.name@ == Seq::<char>::empty(),
            player.strength == 0,
            player.hit_points == 0,
    {
        Player { name: String::new(), strength: 0, hit_points: 0 }
    }
}

} // verus!
