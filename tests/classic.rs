use snake::classic::{Direction, Game};

#[test]
fn should_initialise_snake() {
    let game = Game::new(5, 5);
    let snake = game.get_snake();

    assert_eq!(snake, &vec![(0, 0)]);
}

#[test]
fn should_move_snake() {
    let mut game = Game::new(5, 5);

    game.next();
    game.next();
    game.next();

    let snake = game.get_snake().last();

    assert_eq!(matches!(game.get_direction(), Direction::Right), true);
    assert_eq!(matches!(snake, Some(&(3, 0))), true);
}

#[test]
fn should_extend_snake_when_apple_eaten() {
    let mut game = Game::new(5, 5);

    game.next();

    game.remove_apple();

    game.next();
    game.next();

    let snake = game.get_snake();

    assert_eq!(matches!(game.get_direction(), Direction::Right), true);
    assert_eq!(snake, &vec![(2, 0), (3, 0)]);
    assert_eq!(snake.len(), 2);
}

#[test]
fn should_detect_snake_eating_itsef() {
    let mut game = Game::new(5, 5);

    game.set_snake(vec![(0, 0), (1, 0), (2, 0), (2, 1), (1, 1), (1, 0)]);

    assert_eq!(game.snake_eating_itself(), true);
}

#[test]
fn should_detect_snake_not_eating_itsef() {
    let mut game = Game::new(5, 5);

    game.set_snake(vec![(0, 0), (1, 0), (2, 0), (2, 1), (1, 1)]);

    assert_eq!(game.snake_eating_itself(), false);
}

#[test]
fn classic_apple_starts_inside_the_field() {
    for _ in 0..50 {
        let game = Game::new(3, 2);
        let (x, y) = game.get_apple().unwrap();
        assert!(x < 3 && y < 2);
        assert_eq!(game.get_score(), 0);
    }
}

#[test]
fn classic_eating_the_apple_scores_and_grows_next_move() {
    let mut game = Game::new(5, 5);
    game.set_snake(vec![(0, 0)]);
    game.remove_apple();
    game.next();
    // Without an apple the tail stays; a new apple appears.
    assert_eq!(game.get_snake(), &vec![(0, 0), (1, 0)]);
    assert!(game.get_apple().is_some());
    game.set_snake_direction(Direction::Down);
    game.next();
    assert_eq!(game.get_snake().last(), Some(&(1, 1)));
    assert!(matches!(game.get_direction(), Direction::Down));
}

#[test]
fn classic_snake_eating_apple_checks_the_head() {
    let mut game = Game::new(5, 5);
    game.set_snake(vec![(0, 0)]);
    game.remove_apple();
    assert!(!game.snake_eating_apple());
    game.add_apple();
    let apple = game.get_apple().unwrap();
    game.set_snake(vec![apple]);
    assert!(game.snake_eating_apple());
}
