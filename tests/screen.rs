use snake::game::Game;
use snake::game_state::GameOverReason;
use snake::powerup::PowerupType;
use snake::screen::{current_screen, game_over_screen, intro_screen, playing_screen};

#[test]
fn game_over_screen_gives_reason_and_score() {
    let canvas = game_over_screen(1234, GameOverReason::AteItself);
    assert_eq!(canvas.to_buffer(), "You ate yourself! Press [R] to restart.\nFinal score: 1234\n");
    let zero = game_over_screen(0, GameOverReason::HitWall);
    assert_eq!(
        zero.to_buffer(),
        "Snake hit a wall! press [R] to go back to the main menu.\nFinal score: 0\n"
    );
}

#[test]
fn intro_screen_explains_the_glyphs() {
    let text = intro_screen().to_buffer();
    let lines: Vec<&str> = text.lines().collect();
    assert_eq!(lines.len(), 11);
    assert_eq!(lines[0], "Welcome to Snake!");
    assert_eq!(lines[1], "\u{1F7E9}\u{1F7E9}\u{1F440}");
    assert_eq!(lines[4], "\u{1F34F} - Eat to grow.");
    assert_eq!(lines[9], "Press [SPACE] to start.");
}

#[test]
fn playing_screen_draws_snake_entities_and_status() {
    let mut game = Game::new(10, 10);
    assert!(current_screen(&game).to_buffer().starts_with("Welcome to Snake!\n"));
    game.play();
    game.next();
    game.next();
    game.grant_powerup(PowerupType::Slowdown { tick_duration: 150 });
    let text = playing_screen(&game).to_buffer();
    let lines: Vec<Vec<char>> = text.lines().map(|l| l.chars().collect()).collect();
    assert_eq!(lines.len(), 13);
    assert_eq!(lines[0][2], '\u{1F440}');
    assert_eq!(lines[5][5], '\u{1F7E5}');
    assert_eq!(lines[9].len(), 10);
    assert_eq!(lines[10].iter().collect::<String>(), format!("Score: {}", game.get_score()));
    assert_eq!(lines[11].iter().collect::<String>(), "Tick speed (ms): 250");
    assert_eq!(lines[12].iter().collect::<String>(), "Powerup ticks: 150");
    let grass = lines[..10].iter().flatten().filter(|c| **c == '\u{2795}').count();
    // Every cell without the snake or an entity shows grass.
    assert_eq!(grass, 100 - game.get_all_entities().len() - game.get_length());
}
