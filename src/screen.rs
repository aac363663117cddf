use crate::canvas::{push_char, Canvas};
use crate::characters::Characters;
use crate::coordinate::Coordinate;
use crate::game::{Game, GameView};
use crate::game_state::{GameOverReason, GameState};
use crate::powerup::PowerupType;
use vstd::prelude::*;

verus! {

pub open spec fn digit_char(d: nat) -> char {
    if d == 0 {
        '0'
    } else if d == 1 {
        '1'
    } else if d == 2 {
        '2'
    } else if d == 3 {
        '3'
    } else if d == 4 {
        '4'
    } else if d == 5 {
        '5'
    } else if d == 6 {
        '6'
    } else if d == 7 {
        '7'
    } else if d == 8 {
        '8'
    } else {
        '9'
    }
}

/// The decimal digits of `n`, most significant first, without leading zeros.
pub open spec fn decimal(n: nat) -> Seq<char>
    decreases n,
{
    if n < 10 {
        seq![digit_char(n)]
    } else {
        decimal(n / 10).push(digit_char(n % 10))
    }
}

fn digit(d: u64) -> (r: char)
    requires
        d < 10,
    ensures
        r == digit_char(d as nat),
{
    match d {
        0 => '0',
        1 => '1',
        2 => '2',
        3 => '3',
        4 => '4',
        5 => '5',
        6 => '6',
        7 => '7',
        8 => '8',
        _ => '9',
    }
}

/// Appends the decimal digits of `n`.
fn push_decimal(s: &mut String, n: u64)
    ensures
        final(s)@ == old(s)@ + decimal(n as nat),
    decreases n,
{
    if n >= 10 {
        push_decimal(s, n / 10);
    }
    push_char(s, digit(n % 10));
    assert(final(s)@ =~= old(s)@ + decimal(n as nat));
}

/// `label` followed by the decimal digits of `n`.
fn labelled_number(label: &str, n: u64) -> (r: String)
    ensures
        r@ == label@ + decimal(n as nat),
{
    let mut s = label.to_owned();
    push_decimal(&mut s, n);
    s
}

/// The text row that tells how long the power-up lasts.
pub open spec fn powerup_text(p: PowerupType) -> Seq<char> {
    match p {
        PowerupType::Supersnake { tick_duration } => "Powerup ticks: "@ + decimal(
            tick_duration as nat,
        ),
        PowerupType::Slowdown { tick_duration } => "Powerup ticks: "@ + decimal(
            tick_duration as nat,
        ),
        PowerupType::Inactive => "Powerup ticks: No powerup active"@,
    }
}

/// `rows` show the game in play: the playfield row by row, then the score,
/// the tick interval and the power-up's remaining ticks.
pub open spec fn shows_game(rows: Seq<Seq<char>>, v: GameView) -> bool {
    &&& rows.len() == v.playfield_y + 3
    &&& forall|y: int| 0 <= y < v.playfield_y ==> #[trigger] rows[y].len() == v.playfield_x
    &&& forall|y: int, x: int|
        0 <= y < v.playfield_y && 0 <= x < v.playfield_x ==> #[trigger] rows[y][x] == v.cell_glyph(
            Coordinate { x: x as usize, y: y as usize },
        )
    &&& rows[v.playfield_y as int] == "Score: "@ + decimal(v.score as nat)
    &&& rows[v.playfield_y + 1] == "Tick speed (ms): "@ + decimal(v.tick_speed() as nat)
    &&& rows[v.playfield_y + 2] == powerup_text(v.powerup)
}

/// The welcome screen's rows.
pub open spec fn intro_rows() -> Seq<Seq<char>> {
    seq![
        "Welcome to Snake!"@,
        seq![
            Characters::SnakeBody.glyph(),
            Characters::SnakeBody.glyph(),
            Characters::SnakeHead.glyph(),
        ],
        "Use the arrow keys to move."@,
        ""@,
        seq![Characters::Apple.glyph()] + " - Eat to grow."@,
        seq![Characters::SupersnakePwrup.glyph()] + " - Eat to become invincible to obstacles."@,
        seq![Characters::SlowdownPwrup.glyph()] + " - Eat to slow down time."@,
        seq![Characters::Obstacle.glyph()] + " - Avoid or game over!"@,
        ""@,
        "Press [SPACE] to start."@,
        "You can quit at any time by pressing [ESC] in this screen."@,
    ]
}

/// The rows shown after a game ends: why, and the final score.
pub open spec fn game_over_rows(score: u64, reason: GameOverReason) -> Seq<Seq<char>> {
    seq![reason.text(), "Final score: "@ + decimal(score as nat)]
}

/// The screen of a game in play: the playfield row by row, then the score,
/// the tick interval and the power-up's remaining ticks.
pub fn playing_screen(game: &Game) -> (r: Canvas)
    requires
        game.wf(),
        game@.playfield_y <= usize::MAX - 3,
    ensures
        shows_game(r.rows(), game@),
{
    let (px, py) = game.get_playfield();
    let mut canvas = Canvas::new();
    let mut y: usize = 0;
    while y < py
        invariant
            game.wf(),
            (px, py) == (game@.playfield_x, game@.playfield_y),
            0 <= y <= py,
            canvas.rows().len() == y,
            canvas.y_res() == y,
            forall|y2: int| 0 <= y2 < y ==> #[trigger] canvas.rows()[y2].len() == px,
            forall|y2: int, x: int|
                0 <= y2 < y && 0 <= x < px ==> #[trigger] canvas.rows()[y2][x] == game@.cell_glyph(
                    Coordinate { x: x as usize, y: y2 as usize },
                ),
        decreases py - y,
    {
        let mut row: Vec<char> = Vec::new();
        let mut x: usize = 0;
        while x < px
            invariant
                game.wf(),
                0 <= x <= px,
                row@.len() == x,
                forall|x2: int|
                    0 <= x2 < x ==> #[trigger] row@[x2] == game@.cell_glyph(
                        Coordinate { x: x2 as usize, y },
                    ),
            decreases px - x,
        {
            row.push(game.glyph_at(Coordinate::new(x, y)));
            x += 1;
        }
        canvas.add_row(row);
        y += 1;
    }
    let score = labelled_number("Score: ", game.get_score());
    canvas.add_row_string(score.as_str());
    let speed = labelled_number("Tick speed (ms): ", game.get_tick_speed());
    canvas.add_row_string(speed.as_str());
    let powerup = match game.get_current_powerup() {
        PowerupType::Supersnake { tick_duration } => labelled_number(
            "Powerup ticks: ",
            *tick_duration,
        ),
        PowerupType::Slowdown { tick_duration } => labelled_number(
            "Powerup ticks: ",
            *tick_duration,
        ),
        PowerupType::Inactive => "Powerup ticks: No powerup active".to_owned(),
    };
    canvas.add_row_string(powerup.as_str());
    canvas
}

/// A text row of one glyph followed by `text`.
fn glyph_line(glyph: char, text: &str) -> (r: String)
    ensures
        r@ == seq![glyph] + text@,
{
    let mut s = String::new();
    push_char(&mut s, glyph);
    let n = text.unicode_len();
    let mut i: usize = 0;
    while i < n
        invariant
            n == text@.len(),
            0 <= i <= n,
            s@ == seq![glyph] + text@.take(i as int),
        decreases n - i,
    {
        push_char(&mut s, text.get_char(i));
        i += 1;
        assert(s@ =~= seq![glyph] + text@.take(i as int));
    }
    assert(text@.take(i as int) =~= text@);
    s
}

/// The welcome screen, which explains the glyphs and the keys.
pub fn intro_screen() -> (r: Canvas)
    ensures
        r.rows() == intro_rows(),
{
    let mut canvas = Canvas::new();
    canvas.add_row_string("Welcome to Snake!");
    canvas.add_row(
        vec![Characters::SnakeBody.value(), Characters::SnakeBody.value(), Characters::SnakeHead.value()],
    );
    canvas.add_row_string("Use the arrow keys to move.");
    canvas.add_row_string("");
    canvas.add_row_string(glyph_line(Characters::Apple.value(), " - Eat to grow.").as_str());
    canvas.add_row_string(
        glyph_line(
            Characters::SupersnakePwrup.value(),
            " - Eat to become invincible to obstacles.",
        ).as_str(),
    );
    canvas.add_row_string(
        glyph_line(Characters::SlowdownPwrup.value(), " - Eat to slow down time.").as_str(),
    );
    canvas.add_row_string(
        glyph_line(Characters::Obstacle.value(), " - Avoid or game over!").as_str(),
    );
    canvas.add_row_string("");
    canvas.add_row_string("Press [SPACE] to start.");
    canvas.add_row_string("You can quit at any time by pressing [ESC] in this screen.");
    canvas
}

/// The screen after a game ends: why, and the final score.
pub fn game_over_screen(score: u64, reason: GameOverReason) -> (r: Canvas)
    ensures
        r.rows() == game_over_rows(score, reason),
{
    let mut canvas = Canvas::new();
    canvas.add_row_string(reason.message().as_str());
    canvas.add_row_string(labelled_number("Final score: ", score).as_str());
    canvas
}

/// The screen for the game's current state.
pub fn current_screen(game: &Game) -> (r: Canvas)
    requires
        game.wf(),
        game@.playfield_y <= usize::MAX - 3,
    ensures
        match game@.state {
            GameState::Playing => shows_game(r.rows(), game@),
            GameState::Intro => r.rows() == intro_rows(),
            GameState::GameOver { score, reason } => r.rows() == game_over_rows(score, reason),
        },
{
    match game.get_state() {
        GameState::Playing => playing_screen(game),
        GameState::Intro => intro_screen(),
        GameState::GameOver { score, reason } => game_over_screen(*score, *reason),
    }
}

} // verus!
