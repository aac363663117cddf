use snake::characters::Characters;
use snake::coordinate::Coordinate;
use snake::entity_manager::EntityManager;
use snake::entity_type::EntityType;
use snake::game_state::GameOverReason;
use snake::powerup::PowerupType;
use snake::snake::{advance, SnakeDirection, SnakeError};

#[test]
fn coordinates_compare_by_value() {
    let a = Coordinate::new(2, 3);
    assert_eq!(a.as_tuple(), (2, 3));
    assert!(a.intersects(&Coordinate::new(2, 3)));
    assert!(!a.intersects(&Coordinate::new(3, 2)));
    assert!(a.intersects_multiple(&[Coordinate::new(0, 0), Coordinate::new(2, 3)]));
    assert!(!a.intersects_multiple(&[Coordinate::new(0, 0), Coordinate::new(3, 2)]));
    assert!(!a.intersects_multiple(&[]));
}

#[test]
fn random_coordinate_lies_in_the_field() {
    for _ in 0..200 {
        let c = Coordinate::new_random(3, 1);
        assert!(c.x < 3);
        assert_eq!(c.y, 0);
    }
}

#[test]
fn interior_head_advances_every_way() {
    let h = Coordinate::new(1, 1);
    assert_eq!(advance(&h, SnakeDirection::Up, 3, 3), Ok(Coordinate::new(1, 0)));
    assert_eq!(advance(&h, SnakeDirection::Down, 3, 3), Ok(Coordinate::new(1, 2)));
    assert_eq!(advance(&h, SnakeDirection::Left, 3, 3), Ok(Coordinate::new(0, 1)));
    assert_eq!(advance(&h, SnakeDirection::Right, 3, 3), Ok(Coordinate::new(2, 1)));
}

#[test]
fn walls_stop_the_head() {
    let corner = Coordinate::new(0, 0);
    assert_eq!(advance(&corner, SnakeDirection::Up, 3, 3), Err(SnakeError::HitWall));
    assert_eq!(advance(&corner, SnakeDirection::Left, 3, 3), Err(SnakeError::HitWall));
    let far = Coordinate::new(2, 2);
    assert_eq!(advance(&far, SnakeDirection::Right, 3, 3), Err(SnakeError::HitWall));
    assert_eq!(advance(&far, SnakeDirection::Down, 3, 3), Err(SnakeError::HitWall));
    assert_eq!(advance(&far, SnakeDirection::Up, 3, 3), Ok(Coordinate::new(2, 1)));
    let edge = Coordinate::new(usize::MAX - 1, 0);
    assert_eq!(advance(&edge, SnakeDirection::Right, usize::MAX, 1), Err(SnakeError::HitWall));
}

#[test]
fn directions_have_opposites() {
    assert_eq!(SnakeDirection::Up.opposite(), SnakeDirection::Down);
    assert_eq!(SnakeDirection::Down.opposite(), SnakeDirection::Up);
    assert_eq!(SnakeDirection::Left.opposite(), SnakeDirection::Right);
    assert_eq!(SnakeDirection::Right.opposite(), SnakeDirection::Left);
}

#[test]
fn messages_tell_what_happened() {
    assert_eq!(SnakeError::HitWall.message(), "Snake hit a wall!");
    assert_eq!(SnakeError::NoHead.message(), "No head found for the snake.");
    assert_eq!(
        GameOverReason::HitWall.message(),
        "Snake hit a wall! press [R] to go back to the main menu."
    );
    assert_eq!(
        GameOverReason::NoHead.message(),
        "No head found for the snake. press [R] to go back to the main menu."
    );
    assert_eq!(GameOverReason::AteItself.message(), "You ate yourself! Press [R] to restart.");
    assert_eq!(GameOverReason::HitObstacle.message(), "You hit an obstacle! Press [R] to restart.");
}

#[test]
fn powerup_ticks_down_to_inactive() {
    let p = PowerupType::Supersnake { tick_duration: 2 };
    assert_eq!(p.tick(), PowerupType::Supersnake { tick_duration: 1 });
    assert_eq!(p.tick().tick(), PowerupType::Inactive);
    assert_eq!(PowerupType::Inactive.tick(), PowerupType::Inactive);
    assert_eq!(PowerupType::Slowdown { tick_duration: 1 }.tick(), PowerupType::Inactive);
    assert!(p.is_supersnake() && !p.is_slowdown());
    assert!(PowerupType::Slowdown { tick_duration: 5 }.is_slowdown());
}

#[test]
fn glyphs() {
    assert_eq!(Characters::Apple.value(), '\u{1F34F}');
    assert_eq!(Characters::SnakeHead.value(), '\u{1F440}');
    assert_eq!(Characters::Grass.value(), '\u{2795}');
    assert_eq!(Characters::Obstacle.value(), '\u{1F7E5}');
}

#[test]
fn entities_carry_cell_and_glyph() {
    let c = Coordinate::new(4, 1);
    assert_eq!(EntityType::new_apple(c), EntityType::Apple { coordinates: c, emoji: '\u{1F34F}' });
    assert_eq!(
        EntityType::new_supersnake(c),
        EntityType::SupersnakePwrup { coordinates: c, emoji: '\u{1F40D}' }
    );
    assert_eq!(EntityType::new_obstacle(c), EntityType::Obstacle { coordinates: c, emoji: '\u{1F7E5}' });
    assert_eq!(
        EntityType::new_slowdown(c),
        EntityType::SlowdownPwrup { coordinates: c, emoji: '\u{1F40C}' }
    );
    assert_eq!(EntityType::new_slowdown(c).get_coordinates(), c);
}

#[test]
fn registry_holds_one_entity_per_cell() {
    let mut m: EntityManager<EntityType> = EntityManager::new();
    let a = Coordinate::new(1, 1);
    let b = Coordinate::new(2, 1);
    assert!(m.get_entity(a).is_none());
    m.add_entity(&a, EntityType::new_apple(a));
    m.add_entity(&b, EntityType::new_apple(b));
    assert_eq!(m.apple_count(), 2);
    m.add_entity(&a, EntityType::new_obstacle(a));
    assert_eq!(m.get_entity(a), Some(&EntityType::new_obstacle(a)));
    assert_eq!(m.apple_count(), 1);
    assert_eq!(m.all().len(), 2);
    assert_eq!(m.keys().len(), 2);
    m.remove_entity(&a);
    assert!(m.get_entity(a).is_none());
    m.remove_entity(&a);
    assert_eq!(m.keys(), vec![b]);
}

#[test]
fn placement_takes_the_only_free_cell() {
    let mut m: EntityManager<EntityType> = EntityManager::new();
    let mut forbidden = Vec::new();
    for x in 0..4 {
        for y in 0..3 {
            if (x, y) != (3, 2) {
                forbidden.push(Coordinate::new(x, y));
            }
        }
    }
    let placed = m.place_avoiding(EntityType::new_apple, &forbidden, 4, 3);
    assert_eq!(placed, Some(Coordinate::new(3, 2)));
    assert_eq!(m.get_entity(Coordinate::new(3, 2)), Some(&EntityType::new_apple(Coordinate::new(3, 2))));
}

#[test]
fn placement_on_a_full_field_places_nothing() {
    let mut m: EntityManager<EntityType> = EntityManager::new();
    let mut forbidden = Vec::new();
    for x in 0..3 {
        for y in 0..3 {
            forbidden.push(Coordinate::new(x, y));
        }
    }
    assert_eq!(m.place_avoiding(EntityType::new_apple, &forbidden, 3, 3), None);
    assert!(m.all().is_empty());
    assert_eq!(m.place_avoiding(EntityType::new_apple, &[], 0, 3), None);
}

#[test]
fn placement_avoids_random_forbidden_sets() {
    let mut seed: u64 = 12345;
    for _ in 0..200 {
        let mut forbidden = Vec::new();
        for x in 0..6 {
            for y in 0..5 {
                seed = seed.wrapping_mul(6364136223846793005).wrapping_add(1442695040888963407);
                if (seed >> 33) % 4 != 0 {
                    forbidden.push(Coordinate::new(x, y));
                }
            }
        }
        if forbidden.len() == 30 {
            forbidden.pop();
        }
        let mut m: EntityManager<EntityType> = EntityManager::new();
        let c = m.place_avoiding(EntityType::new_obstacle, &forbidden, 6, 5).unwrap();
        assert!(!forbidden.contains(&c));
        assert!(c.x < 6 && c.y < 5);
        assert_eq!(m.get_entity(c), Some(&EntityType::new_obstacle(c)));
    }
}
