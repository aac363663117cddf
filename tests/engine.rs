use snake::coordinate::Coordinate;
use snake::entity_type::EntityType;
use snake::game::Game;
use snake::game_state::{GameOverReason, GameState};
use snake::powerup::PowerupType;
use snake::snake::SnakeDirection;

fn head(game: &Game) -> Coordinate {
    *game.get_snake().last().unwrap()
}

fn apples(game: &Game) -> Vec<Coordinate> {
    let mut r = Vec::new();
    for e in game.get_all_entities() {
        if let EntityType::Apple { coordinates, .. } = e {
            r.push(*coordinates);
        }
    }
    r
}

fn obstacle_column(x: usize, size: usize) -> bool {
    (5..=7).contains(&x) || (size - 8..=size - 6).contains(&x)
}

#[test]
fn new_game_waits_in_intro() {
    let mut game = Game::new(20, 20);
    assert_eq!(*game.get_state(), GameState::Intro);
    assert_eq!(game.get_snake(), &vec![Coordinate::new(0, 0)]);
    assert_eq!(game.snake_get_direction(), SnakeDirection::Right);
    assert_eq!(*game.next(), GameState::Intro);
    assert_eq!(game.get_snake(), &vec![Coordinate::new(0, 0)]);
    assert!(game.get_all_entities().is_empty());
}

#[test]
fn first_tick_moves_onto_an_empty_cell() {
    let mut game = Game::new(20, 20);
    game.play();
    assert_eq!(*game.next(), GameState::Playing);
    // Nothing was under the new head: the snake moved without growing.
    assert_eq!(game.get_snake(), &vec![Coordinate::new(1, 0)]);
    assert_eq!(game.get_length(), 1);
    assert_eq!(game.get_score(), 0);
    // The twenty obstacles, and the new apple unless an obstacle took its cell.
    let n = apples(&game).len();
    assert!(n <= 1);
    assert_eq!(game.get_all_entities().len(), 20 + n);
}

#[test]
fn obstacles_stand_in_the_corners() {
    let mut game = Game::new(20, 20);
    game.play();
    game.next();
    let mut obstacles = Vec::new();
    for e in game.get_all_entities() {
        if let EntityType::Obstacle { coordinates, .. } = e {
            obstacles.push(*coordinates);
        }
    }
    assert_eq!(obstacles.len(), 20);
    for c in [(5, 5), (5, 7), (7, 5), (14, 5), (12, 5), (14, 7), (5, 14), (5, 12), (7, 14), (14, 14), (12, 14), (14, 12)] {
        assert!(obstacles.contains(&Coordinate::new(c.0, c.1)));
    }
}

#[test]
fn length_never_shrinks_nor_jumps() {
    let mut game = Game::new(20, 20);
    game.play();
    let mut before = game.get_length();
    for _ in 0..19 {
        if *game.next() != GameState::Playing {
            break;
        }
        let after = game.get_length();
        assert!(after == before || after == before + 1);
        before = after;
    }
}

#[test]
fn reversal_is_not_taken() {
    let mut game = Game::new(20, 20);
    game.play();
    game.next();
    assert_eq!(game.snake_get_direction(), SnakeDirection::Right);
    game.snake_set_direction(SnakeDirection::Left);
    game.next();
    assert_eq!(game.snake_get_direction(), SnakeDirection::Right);
    assert_eq!(head(&game), Coordinate::new(2, 0));
    assert_eq!(*game.get_state(), GameState::Playing);
}

#[test]
fn queued_turns_are_taken_one_per_tick() {
    let mut game = Game::new(20, 20);
    game.play();
    game.next();
    game.snake_set_direction(SnakeDirection::Down);
    game.snake_set_direction(SnakeDirection::Left);
    game.next();
    assert_eq!(head(&game), Coordinate::new(1, 1));
    game.next();
    assert_eq!(game.snake_get_direction(), SnakeDirection::Left);
    assert_eq!(head(&game), Coordinate::new(0, 1));
}

#[test]
fn wall_ends_the_game() {
    let mut game = Game::new(12, 12);
    game.play();
    for _ in 0..11 {
        assert_eq!(*game.next(), GameState::Playing);
    }
    assert_eq!(head(&game), Coordinate::new(11, 0));
    let score = game.get_score();
    assert_eq!(*game.next(), GameState::GameOver { score, reason: GameOverReason::HitWall });
    // A finished game stays as it is.
    let snake = game.get_snake().clone();
    game.next();
    assert_eq!(game.get_snake(), &snake);
}

#[test]
fn wall_ends_the_game_going_up() {
    let mut game = Game::new(8, 8);
    game.play();
    game.next();
    game.snake_set_direction(SnakeDirection::Up);
    assert!(matches!(game.next(), GameState::GameOver { reason: GameOverReason::HitWall, .. }));
}

fn walk_to_obstacle(game: &mut Game) -> GameState {
    game.play();
    // Right along the top row to column five, then down onto (5, 5).
    for _ in 0..5 {
        game.next();
    }
    assert_eq!(head(game), Coordinate::new(5, 0));
    game.snake_set_direction(SnakeDirection::Down);
    for _ in 0..4 {
        assert_eq!(*game.next(), GameState::Playing);
    }
    *game.next()
}

#[test]
fn obstacle_ends_the_game() {
    let mut game = Game::new(20, 20);
    let state = walk_to_obstacle(&mut game);
    assert!(matches!(state, GameState::GameOver { reason: GameOverReason::HitObstacle, .. }));
    assert_eq!(head(&game), Coordinate::new(5, 5));
}

#[test]
fn supersnake_goes_through_obstacles() {
    let mut game = Game::new(20, 20);
    game.grant_powerup(PowerupType::Supersnake { tick_duration: 100 });
    let state = walk_to_obstacle(&mut game);
    assert_eq!(state, GameState::Playing);
    assert_eq!(head(&game), Coordinate::new(5, 5));
    assert_eq!(*game.get_current_powerup(), PowerupType::Supersnake { tick_duration: 90 });
    assert_eq!(*game.next(), GameState::Playing);
    assert_eq!(head(&game), Coordinate::new(5, 6));
}

#[test]
fn eating_an_apple_scores_one_and_keeps_the_tail() {
    let size = 20;
    for _ in 0..200 {
        let mut game = Game::new(size, size);
        game.play();
        game.next();
        let Some(&target) = apples(&game).first() else {
            continue;
        };
        if target.x < 2 || target.y == 0 || obstacle_column(target.x, size) {
            continue;
        }
        loop {
            let h = head(&game);
            let d = if h.y == 0 && h.x < target.x { SnakeDirection::Right } else { SnakeDirection::Down };
            game.snake_set_direction(d);
            let score = game.get_score();
            let length = game.get_length();
            let snake = game.get_snake().clone();
            assert_eq!(*game.next(), GameState::Playing);
            if head(&game) == target {
                assert_eq!(game.get_score(), score + 1);
                assert_eq!(game.get_length(), length + 1);
                assert_eq!(&game.get_snake()[..length], &snake[..]);
                assert!(!apples(&game).contains(&target));
                return;
            }
        }
    }
    panic!("no apple could be reached");
}

#[test]
fn start_over_resets_the_game() {
    let mut game = Game::new(20, 20);
    game.play();
    game.next();
    game.next();
    game.start_over();
    assert_eq!(*game.get_state(), GameState::Intro);
    assert_eq!(game.get_snake(), &vec![Coordinate::new(0, 0)]);
    assert_eq!(game.get_score(), 0);
    assert_eq!(*game.get_current_powerup(), PowerupType::Inactive);
    assert!(game.get_all_entities().is_empty());
}

#[test]
fn tick_speed_follows_score_and_slowdown() {
    let mut game = Game::new(20, 20);
    assert_eq!(game.get_tick_speed(), 200);
    game.grant_powerup(PowerupType::Slowdown { tick_duration: 150 });
    assert_eq!(game.get_tick_speed(), 250);
    game.grant_powerup(PowerupType::Supersnake { tick_duration: 3 });
    assert_eq!(game.get_tick_speed(), 200);
}

#[test]
fn powerup_runs_out() {
    let mut game = Game::new(20, 20);
    game.play();
    game.grant_powerup(PowerupType::Slowdown { tick_duration: 2 });
    game.next();
    assert_eq!(*game.get_current_powerup(), PowerupType::Slowdown { tick_duration: 1 });
    game.next();
    assert_eq!(*game.get_current_powerup(), PowerupType::Inactive);
}

#[test]
fn snake_body_leaves_out_the_head() {
    let mut game = Game::new(20, 20);
    assert!(game.snake_get_body().is_empty());
    assert!(!game.snake_eating_itself());
    game.play();
    game.next();
    assert_eq!(game.snake_get_head(), Some(&Coordinate::new(1, 0)));
}
