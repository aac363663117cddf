use vstd::prelude::*;

verus! {

/// What ended a game.
#[derive(Clone, Copy, PartialEq, Eq, Structural, Debug)]
pub enum GameOverReason {
    HitWall,
    NoHead,
    AteItself,
    HitObstacle,
}

/// Where the game stands: only a game in `Playing` advances on a tick.
#[derive(Clone, Copy, PartialEq, Eq, Structural, Debug)]
pub enum GameState {
    Intro,
    Playing,
    GameOver { score: u64, reason: GameOverReason },
}

impl GameOverReason {
    /// What the player is told when the game ends this way.
    pub open spec fn text(self) -> Seq<char> {
        match self {
            GameOverReason::HitWall => "Snake hit a wall! press [R] to go back to the main menu."@,
            GameOverReason::NoHead => "No head found for the snake. press [R] to go back to the main menu."@,
            GameOverReason::AteItself => "You ate yourself! Press [R] to restart."@,
            GameOverReason::HitObstacle => "You hit an obstacle! Press [R] to restart."@,
        }
    }

    pub fn message(&self) -> (r: String)
        ensures
            r@ == self.text(),
    {
        match self {
            GameOverReason::HitWall => "Snake hit a wall! press [R] to go back to the main menu.".to_owned(),
            GameOverReason::NoHead => "No head found for the snake. press [R] to go back to the main menu.".to_owned(),
            GameOverReason::AteItself => "You ate yourself! Press [R] to restart.".to_owned(),
            GameOverReason::HitObstacle => "You hit an obstacle! Press [R] to restart.".to_owned(),
        }
    }
}

} // verus!
