use where_fish::game::Config;
use where_fish::game::Effect;
use where_fish::game::Game;
use where_fish::game::Item;
use where_fish::game::Player;
use where_fish::movement::Direction;
use where_fish::movement::InputState;
use where_fish::score::format_score;
use where_fish::vector::Vec2;

fn variant(speed: u32) -> Config {
    Config { speed, pickup_threshold: 10, spawn_range: 200 }
}

fn keys(up: bool, down: bool, left: bool, right: bool) -> InputState {
    InputState { up, down, left, right }
}

fn in_area(position: Vec2, range: i64) -> bool {
    -range <= position.x && position.x <= range && -range <= position.y && position.y <= range
}

#[test]
fn a_new_game_is_empty() {
    let game = Game::new(variant(100), Vec2::new(0, 0));
    assert_eq!(game.score(), 0);
    assert!(game.items().is_empty());
    assert!(game.effects().is_empty());
    assert_eq!(game.next_id(), 0);
    assert_eq!(game.config(), variant(100));
    assert_eq!(
        game.player(),
        Player { position: Vec2::new(0, 0), facing: Direction::East, mirrored: false }
    );
}

#[test]
fn a_new_player_faces_east_unmirrored() {
    let player = Player::new(Vec2::new(-3, 8));
    assert_eq!(player.position, Vec2::new(-3, 8));
    assert_eq!(player.facing, Direction::East);
    assert!(!player.mirrored);
}

#[test]
fn spawned_items_get_handles_in_turn() {
    let mut game = Game::new(variant(100), Vec2::new(0, 0));
    assert_eq!(game.spawn_item(Vec2::new(100, 100)), 0);
    assert_eq!(game.spawn_item(Vec2::new(-50, 20)), 1);
    assert_eq!(game.spawn_item(Vec2::new(100, 100)), 2);
    assert_eq!(
        game.items(),
        &vec![
            Item { id: 0, position: Vec2::new(100, 100) },
            Item { id: 1, position: Vec2::new(-50, 20) },
            Item { id: 2, position: Vec2::new(100, 100) },
        ]
    );
    assert_eq!(game.next_id(), 3);
    assert_eq!(game.score(), 0);
    assert!(game.effects().is_empty());
}

#[test]
fn pickup_of_an_item_close_by() {
    let mut game = Game::new(variant(100), Vec2::new(0, 0));
    let old = game.spawn_item(Vec2::new(5, 5));
    assert!(game.in_reach(0));
    assert_eq!(game.pickups(), 1);
    assert!(game.can_interact());
    game.item_interact();
    assert_eq!(game.score(), 1);
    assert!(game.items().iter().all(|item| item.id != old));
    assert_eq!(game.items().len(), 1);
    assert_eq!(game.items()[0].id, 1);
    assert!(in_area(game.items()[0].position, 200));
    assert_eq!(game.effects(), &vec![Effect::PickupSound]);
    assert_eq!(game.player().position, Vec2::new(0, 0));
}

#[test]
fn no_pickup_of_an_item_far_off() {
    let mut game = Game::new(variant(100), Vec2::new(0, 0));
    game.spawn_item(Vec2::new(50, 50));
    assert!(!game.in_reach(0));
    assert_eq!(game.pickups(), 0);
    game.item_interact();
    assert_eq!(game.score(), 0);
    assert_eq!(game.items(), &vec![Item { id: 0, position: Vec2::new(50, 50) }]);
    assert!(game.effects().is_empty());
    assert_eq!(game.next_id(), 1);
}

#[test]
fn up_for_a_second_at_speed_100() {
    let mut game = Game::new(variant(100), Vec2::new(0, 0));
    assert!(game.can_move(keys(true, false, false, false), 1));
    game.player_move(keys(true, false, false, false), 1);
    assert_eq!(
        game.player(),
        Player { position: Vec2::new(0, 100), facing: Direction::North, mirrored: false }
    );
}

#[test]
fn up_keeps_an_earlier_mirroring() {
    let mut game = Game::new(variant(100), Vec2::new(0, 0));
    game.player_move(keys(false, false, false, true), 1);
    assert!(game.player().mirrored);
    game.player_move(keys(true, false, false, false), 1);
    assert_eq!(
        game.player(),
        Player { position: Vec2::new(100, 100), facing: Direction::North, mirrored: true }
    );
}

#[test]
fn up_and_right_for_a_second_at_speed_30() {
    let mut game = Game::new(variant(30), Vec2::new(0, 0));
    game.player_move(keys(true, false, false, true), 1);
    assert_eq!(
        game.player(),
        Player { position: Vec2::new(30, 30), facing: Direction::NorthEast, mirrored: true }
    );
}

#[test]
fn no_keys_held() {
    let mut game = Game::new(variant(100), Vec2::new(40, -2));
    game.player_move(keys(false, false, false, false), 1);
    assert_eq!(
        game.player(),
        Player { position: Vec2::new(40, -2), facing: Direction::Still, mirrored: false }
    );
    game.player_move(keys(false, false, false, true), 1);
    game.player_move(keys(false, false, false, false), 1);
    assert_eq!(
        game.player(),
        Player { position: Vec2::new(140, -2), facing: Direction::Still, mirrored: true }
    );
}

#[test]
fn left_unmirrors_and_faces_west() {
    let mut game = Game::new(variant(100), Vec2::new(0, 0));
    game.player_move(keys(false, false, false, true), 2);
    assert_eq!(
        game.player(),
        Player { position: Vec2::new(200, 0), facing: Direction::East, mirrored: true }
    );
    game.player_move(keys(false, true, true, false), 1);
    assert_eq!(
        game.player(),
        Player { position: Vec2::new(100, -100), facing: Direction::SouthWest, mirrored: false }
    );
}

#[test]
fn opposing_keys_stand_still() {
    let mut game = Game::new(variant(100), Vec2::new(1, 1));
    game.player_move(keys(true, true, true, true), 5);
    assert_eq!(
        game.player(),
        Player { position: Vec2::new(1, 1), facing: Direction::Still, mirrored: false }
    );
}

#[test]
fn movement_touches_nothing_but_the_player() {
    let mut game = Game::new(variant(100), Vec2::new(0, 0));
    game.spawn_item(Vec2::new(5, 5));
    game.item_interact();
    let items = game.items().clone();
    game.player_move(keys(true, false, true, false), 3);
    assert_eq!(game.items(), &items);
    assert_eq!(game.score(), 1);
    assert_eq!(game.effects(), &vec![Effect::PickupSound]);
    assert_eq!(game.next_id(), 2);
    assert_eq!(game.config(), variant(100));
}

#[test]
fn a_player_at_the_edge_of_the_plane_cannot_leave_it() {
    let game = Game::new(variant(100), Vec2::new(i64::MAX, i64::MIN));
    assert!(!game.can_move(keys(false, false, false, true), 1));
    assert!(!game.can_move(keys(false, true, false, false), 1));
    assert!(game.can_move(keys(true, false, true, false), 1));
    assert!(game.can_move(keys(false, false, false, true), 0));
    assert!(game.can_move(keys(false, false, false, false), u32::MAX));
}

#[test]
fn moved_player_by_value() {
    let player = Player::new(Vec2::new(0, 0));
    let after = player.moved(keys(false, true, false, true), 30, 2);
    assert_eq!(
        after,
        Player { position: Vec2::new(60, -60), facing: Direction::SouthEast, mirrored: true }
    );
}

#[test]
fn pickup_puts_the_successor_where_the_samples_lead() {
    let mut game = Game::new(variant(100), Vec2::new(0, 0));
    game.spawn_item(Vec2::new(5, 5));
    game.spawn_item(Vec2::new(-10, 0));
    assert!(game.pickup(0, 0xc000_0000, 0x4000_0000));
    assert_eq!(
        game.items(),
        &vec![
            Item { id: 2, position: Vec2::new(100, -100) },
            Item { id: 1, position: Vec2::new(-10, 0) },
        ]
    );
    assert_eq!(game.score(), 1);
    assert_eq!(game.next_id(), 3);
    assert_eq!(game.effects(), &vec![Effect::PickupSound]);
    assert!(game.pickup(1, 0, u32::MAX));
    assert_eq!(
        game.items(),
        &vec![
            Item { id: 2, position: Vec2::new(100, -100) },
            Item { id: 3, position: Vec2::new(-200, 199) },
        ]
    );
    assert_eq!(game.score(), 2);
    assert_eq!(game.next_id(), 4);
    assert_eq!(game.effects(), &vec![Effect::PickupSound, Effect::PickupSound]);
}

#[test]
fn pickup_of_an_item_out_of_reach_does_nothing() {
    let mut game = Game::new(variant(100), Vec2::new(0, 0));
    game.spawn_item(Vec2::new(50, 50));
    game.spawn_item(Vec2::new(0, 11));
    assert!(!game.pickup(0, 123, 456));
    assert!(!game.pickup(1, 123, 456));
    assert_eq!(
        game.items(),
        &vec![
            Item { id: 0, position: Vec2::new(50, 50) },
            Item { id: 1, position: Vec2::new(0, 11) },
        ]
    );
    assert_eq!(game.score(), 0);
    assert_eq!(game.next_id(), 2);
    assert!(game.effects().is_empty());
}

#[test]
fn a_successor_within_reach_is_picked_up_in_turn() {
    let mut game = Game::new(variant(100), Vec2::new(0, 0));
    game.spawn_item(Vec2::new(5, 5));
    assert!(game.pickup(0, 0x8000_0000, 0x8000_0000));
    assert_eq!(game.items(), &vec![Item { id: 1, position: Vec2::new(0, 0) }]);
    assert!(game.pickup(0, 0, 0));
    assert_eq!(game.items(), &vec![Item { id: 2, position: Vec2::new(-200, -200) }]);
    assert!(!game.pickup(0, 0x8000_0000, 0x8000_0000));
    assert_eq!(game.score(), 2);
}

#[test]
fn a_scan_of_no_items_changes_nothing() {
    let mut game = Game::new(variant(100), Vec2::new(0, 0));
    assert_eq!(game.pickups(), 0);
    assert!(game.can_interact());
    game.item_interact();
    assert_eq!(game.score(), 0);
    assert!(game.items().is_empty());
    assert!(game.effects().is_empty());
    assert_eq!(game.next_id(), 0);
}

#[test]
fn a_scan_picks_up_every_item_within_reach() {
    let mut game = Game::new(variant(100), Vec2::new(0, 0));
    game.spawn_item(Vec2::new(5, 5));
    game.spawn_item(Vec2::new(50, 50));
    game.spawn_item(Vec2::new(-10, 10));
    game.spawn_item(Vec2::new(0, 11));
    assert_eq!(game.pickups(), 2);
    game.item_interact();
    assert_eq!(game.score(), 2);
    assert_eq!(game.next_id(), 6);
    assert_eq!(game.effects(), &vec![Effect::PickupSound, Effect::PickupSound]);
    let items = game.items();
    assert_eq!(items.len(), 4);
    assert_eq!(items[0].id, 4);
    assert!(in_area(items[0].position, 200));
    assert_eq!(items[1], Item { id: 1, position: Vec2::new(50, 50) });
    assert_eq!(items[2].id, 5);
    assert!(in_area(items[2].position, 200));
    assert_eq!(items[3], Item { id: 3, position: Vec2::new(0, 11) });
}

#[test]
fn the_score_never_falls_and_rises_by_one_per_pickup() {
    let config = Config { speed: 100, pickup_threshold: 10, spawn_range: 20 };
    let mut game = Game::new(config, Vec2::new(0, 0));
    game.spawn_item(Vec2::new(5, 5));
    game.spawn_item(Vec2::new(15, -15));
    let steps = [
        keys(true, false, false, false),
        keys(false, true, false, true),
        keys(false, false, true, false),
        keys(false, true, false, false),
        keys(false, false, false, false),
        keys(true, false, false, true),
    ];
    let mut sounds: usize = 0;
    for round in 0..200 {
        let input = steps[round % steps.len()];
        let before = game.score();
        game.player_move(input, 0);
        assert_eq!(game.score(), before);
        let due = game.pickups();
        game.item_interact();
        assert_eq!(game.score() as usize, before as usize + due);
        assert!(game.score() >= before);
        sounds += due;
        assert_eq!(game.effects().len(), sounds);
        assert_eq!(format_score(game.score()), format!("Score: {}", before as usize + due));
    }
    assert!(game.score() > 0);
}

#[test]
fn handles_stay_distinct() {
    let config = Config { speed: 1, pickup_threshold: 1000, spawn_range: 200 };
    let mut game = Game::new(config, Vec2::new(0, 0));
    for k in 0..5 {
        game.spawn_item(Vec2::new(k, -k));
    }
    for _ in 0..20 {
        game.item_interact();
        let items = game.items();
        for (i, a) in items.iter().enumerate() {
            assert!(a.id < game.next_id());
            for b in items.iter().skip(i + 1) {
                assert_ne!(a.id, b.id);
            }
        }
    }
    assert_eq!(game.score(), 100);
    assert_eq!(game.next_id(), 105);
}

#[test]
fn successors_appear_all_over_the_spawn_area() {
    let config = Config { speed: 1, pickup_threshold: 1_000_000, spawn_range: 200_000 };
    let mut game = Game::new(config, Vec2::new(0, 0));
    game.spawn_item(Vec2::new(0, 0));
    let mut seen: Vec<Vec2> = Vec::new();
    for _ in 0..64 {
        game.item_interact();
        let position = game.items()[0].position;
        assert!(in_area(position, 200_000));
        if !seen.contains(&position) {
            seen.push(position);
        }
    }
    assert_eq!(game.score(), 64);
    assert!(seen.len() > 1);
    assert!(seen.iter().any(|p| p.x != p.y));
}

#[test]
fn drained_effects_are_gone() {
    let mut game = Game::new(variant(100), Vec2::new(0, 0));
    game.spawn_item(Vec2::new(1, 1));
    game.spawn_item(Vec2::new(2, 2));
    assert!(game.pickup(0, 7, 7));
    assert!(game.pickup(1, 7, 7));
    let items = game.items().clone();
    let effects = game.drain_effects();
    assert_eq!(effects, vec![Effect::PickupSound, Effect::PickupSound]);
    assert!(game.effects().is_empty());
    assert_eq!(game.score(), 2);
    assert_eq!(game.items(), &items);
    assert!(game.drain_effects().is_empty());
}

#[test]
fn a_frame_in_microseconds() {
    let config = Config { speed: 100, pickup_threshold: 10_000_000, spawn_range: 200_000_000 };
    let mut game = Game::new(config, Vec2::new(0, 0));
    game.spawn_item(Vec2::new(100_000_000, 100_000_000));
    for _ in 0..64 {
        game.player_move(keys(true, false, false, true), 15_625);
        game.item_interact();
    }
    assert_eq!(game.player().position, Vec2::new(100_000_000, 100_000_000));
    assert_eq!(game.score(), 1);
    assert_eq!(format_score(game.score()), "Score: 1");
}
