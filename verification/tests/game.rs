use fluffy_fiesta::entities::Spawn;
use fluffy_fiesta::game::{
    advance, ease, entity_rect, is_grounded, land, pos_for, size_for, steer, steer_in_air,
    stop_at_wall, tile_rect, Camera,
    Character, Game, SimpleSpawn, CAMERA_MARGIN_X, CAMERA_MARGIN_Y, CAMERA_UPDATE_RATE, CHAR_H,
    CHAR_W, MARGIN,
};
use fluffy_fiesta::input::{InputManager, Key};
use fluffy_fiesta::world::{
    Entity, EntityLogic, EntityPhysics, Logic, MapFactory, Tile, TileType, World, WorldView,
};

type NoFactory = fn(Tile, &TileType, (usize, usize)) -> Option<Entity>;

fn example_world() -> World<SimpleSpawn> {
    let factory: MapFactory<NoFactory> = MapFactory::example();
    factory.create(&vec![10, 11, 12, 13], 42)
}

fn still(x: i64, y: i64) -> EntityPhysics {
    EntityPhysics { pos: [x, y], speed: [0, 0] }
}

#[test]
fn constants_are_in_thousandths() {
    assert_eq!(CHAR_W, 630);
    assert_eq!(CHAR_H, 1290);
    assert_eq!(MARGIN, 50);
    assert_eq!(CAMERA_MARGIN_X, 5000);
    assert_eq!(CAMERA_MARGIN_Y, 5000);
    assert_eq!(CAMERA_UPDATE_RATE, 100);
}

#[test]
fn ease_goes_part_of_the_way() {
    // old * 0.9 + goal * 0.1
    assert_eq!(ease(0, 1000, 100), 100);
    assert_eq!(ease(1000, 0, 100), 900);
    assert_eq!(ease(-500, 500, 500), 0);
    assert_eq!(ease(200, 200, 100), 200);
    assert_eq!(ease(0, 1000, 1000), 1000);
    assert_eq!(ease(0, 1000, 0), 0);
}

#[test]
fn ease_always_moves_and_never_overshoots() {
    assert_eq!(ease(0, 1, 1), 1);
    assert_eq!(ease(0, -1, 1), -1);
    assert_eq!(ease(0, 3, 500), 2);
    assert_eq!(ease(0, -3, 500), -2);
    assert_eq!(ease(i64::MIN, i64::MAX, 1000), i64::MAX);
    assert_eq!(ease(i64::MAX, i64::MIN, 1000), i64::MIN);
    let mut value = 0;
    let mut steps = 0;
    while value != 1000 {
        let next = ease(value, 1000, 100);
        assert!(next > value && next <= 1000);
        value = next;
        steps += 1;
    }
    assert!(steps > 10);
}

#[test]
fn camera_needs_a_ratio_above_zero_and_a_rate_within_one() {
    assert!(Camera::new(750, [0, 0], 10000, 100).is_some());
    assert!(Camera::new(0, [0, 0], 10000, 100).is_none());
    assert!(Camera::new(-750, [0, 0], 10000, 100).is_none());
    assert!(Camera::new(750, [0, 0], 10000, -1).is_none());
    assert!(Camera::new(750, [0, 0], 10000, 1001).is_none());
    assert!(Camera::new(750, [0, 0], 10000, 0).is_some());
    assert!(Camera::new(750, [0, 0], 10000, 1000).is_some());
}

#[test]
fn camera_without_focus_stays() {
    let mut camera = Camera::new(750, [1234, -5678], 4321, 100).unwrap();
    camera.update(None);
    assert_eq!(camera.pos(), [1234, -5678]);
    assert_eq!(camera.size(), 4321);
    assert_eq!(camera.aspect_ratio(), 750);
    assert_eq!(camera.update_rate(), 100);
}

#[test]
fn camera_frames_one_point_with_the_margins() {
    let focus = ([15000, 1000], [15000, 1000]);
    // the box is 10 wide and 10 high; a window of 3:4 that is 10 high is 13.333 wide
    assert_eq!(size_for(&focus, 750), 13333);
    assert_eq!(pos_for(&focus, 750), [8333, -3999]);
    // a wide window sees the width of the box
    assert_eq!(size_for(&focus, 2000), 10000);
    assert_eq!(pos_for(&focus, 2000), [10000, -9000]);
}

#[test]
fn camera_frames_a_box() {
    let focus = ([10000, 10000], [40000, 20000]);
    // 40 wide with margins, 20 high with margins
    assert_eq!(size_for(&focus, 1000), 40000);
    assert_eq!(pos_for(&focus, 1000), [5000, -5000]);
    assert_eq!(size_for(&focus, 250), 80000);
    assert_eq!(pos_for(&focus, 250), [-15000, 5000]);
}

#[test]
fn camera_eases_towards_the_focus() {
    let mut camera = Camera::new(750, [0, 0], 10000, 100).unwrap();
    camera.update(Some(([15000, 1000], [15000, 1000])));
    // a tenth of the way to [8333, -3999] and to 13333
    assert_eq!(camera.pos(), [834, -400]);
    assert_eq!(camera.size(), 10334);
    camera.update(Some(([15000, 1000], [15000, 1000])));
    assert_eq!(camera.pos(), [1584, -760]);
    assert_eq!(camera.size(), 10634);
    for _ in 0..500 {
        let before = camera.pos();
        camera.update(Some(([15000, 1000], [15000, 1000])));
        assert!(before[0] <= camera.pos()[0] && camera.pos()[0] <= 8333);
        assert!(before[1] >= camera.pos()[1] && camera.pos()[1] >= -3999);
    }
    assert_eq!(camera.pos(), [8333, -3999]);
    assert_eq!(camera.size(), 13333);
}

#[test]
fn camera_rate_can_be_set_within_bounds() {
    let mut camera = Camera::new(750, [0, 0], 10000, 1000).unwrap();
    assert!(camera.set_update_rate(100));
    assert_eq!(camera.update_rate(), 100);
    assert!(!camera.set_update_rate(1001));
    assert!(!camera.set_update_rate(-1));
    assert_eq!(camera.update_rate(), 100);
}

#[test]
fn character_lands_on_solid_ground() {
    let world = example_world();
    // above the floor at (15, 1): the tile below the feet is the wall (15, 0)
    let standing = still(15000, 1000);
    assert!(is_grounded(&world.map, &standing));
    let landed = land(&world.map, &standing);
    assert_eq!(landed.pos, [15000, 1645]);
    assert_eq!(landed.speed, [0, 0]);
    // a falling character lands too, and stops falling
    let falling = EntityPhysics { pos: [15000, 1500], speed: [300, -4000] };
    assert!(is_grounded(&world.map, &falling));
    assert_eq!(land(&world.map, &falling).pos, [15000, 1645]);
    assert_eq!(land(&world.map, &falling).speed, [300, 0]);
}

#[test]
fn character_does_not_land_in_the_air_or_while_rising() {
    let world = example_world();
    let in_the_air = still(50500, 50500);
    assert!(!is_grounded(&world.map, &in_the_air));
    assert_eq!(land(&world.map, &in_the_air).pos, [50500, 50500]);
    let rising = EntityPhysics { pos: [15000, 1000], speed: [0, 51] };
    assert!(!is_grounded(&world.map, &rising));
    let barely = EntityPhysics { pos: [15000, 1000], speed: [0, 50] };
    assert!(is_grounded(&world.map, &barely));
    // lava does not carry
    assert!(!is_grounded(&world.map, &still(45000, 1000)));
    // outside the map there is no ground
    assert!(!is_grounded(&world.map, &still(-5000, 1000)));
}

#[test]
fn character_runs_and_jumps_on_the_ground() {
    let p = EntityPhysics { pos: [1, 2], speed: [123, 0] };
    assert_eq!(steer(1000, false, true, &p, 16).speed, [5000, 0]);
    assert_eq!(steer(-1000, false, true, &p, 16).speed, [-5000, 0]);
    assert_eq!(steer(500, true, true, &p, 16).speed, [2500, 5000]);
    assert_eq!(steer(0, false, true, &p, 16).speed, [0, 0]);
    assert_eq!(steer(0, false, true, &p, 16).pos, [1, 2]);
}

#[test]
fn character_is_steered_and_falls_in_the_air() {
    let p = still(0, 0);
    // 20 * 0.1 sideways, -10 * 0.1 down
    assert_eq!(steer(1000, false, false, &p, 100).speed, [2000, -1000]);
    assert_eq!(steer(-1000, true, false, &p, 100).speed, [-2000, -1000]);
    assert_eq!(steer(0, false, false, &p, 100).speed, [0, -1000]);
    assert_eq!(steer_in_air(1000, 4999, 100), 6999);
    // at running speed the stick adds nothing
    assert_eq!(steer_in_air(1000, 5000, 100), 5000);
    assert_eq!(steer_in_air(-1000, -5000, 100), -5000);
    // but it still brakes
    assert_eq!(steer_in_air(-1000, 5000, 100), 3000);
    assert_eq!(steer_in_air(500, 2500, 100), 2500);
    assert_eq!(steer_in_air(500, 2499, 100), 3499);
}

#[test]
fn character_stops_at_a_wall() {
    let world = example_world();
    // running right into the right wall (column 99)
    let right = EntityPhysics { pos: [98700, 50500], speed: [5000, 0] };
    let stopped = stop_at_wall(&world.map, &right);
    assert_eq!(stopped.pos, [98685, 50500]);
    assert_eq!(stopped.speed, [0, 0]);
    // running left into the left wall (column 0)
    let left = EntityPhysics { pos: [1300, 50500], speed: [-5000, -700] };
    let stopped = stop_at_wall(&world.map, &left);
    assert_eq!(stopped.pos, [1315, 50500]);
    assert_eq!(stopped.speed, [0, -700]);
    // in the open nothing happens
    let open = EntityPhysics { pos: [50500, 50500], speed: [5000, 0] };
    assert_eq!(stop_at_wall(&world.map, &open).pos, [50500, 50500]);
    assert_eq!(stop_at_wall(&world.map, &open).speed, [5000, 0]);
}

#[test]
fn bodies_move_at_their_speed() {
    let p = EntityPhysics { pos: [50500, 50500], speed: [2000, -1000] };
    assert_eq!(advance(&p, 100).pos, [50700, 50400]);
    assert_eq!(advance(&p, 100).speed, [2000, -1000]);
    assert_eq!(advance(&p, 0).pos, [50500, 50500]);
    assert_eq!(advance(&p, u64::MAX).pos, [i64::MAX, 50500 - i64::MAX]);
}

#[test]
fn character_update_in_the_air() {
    let mut world = example_world();
    let mut input = InputManager::new();
    input.handle_event(Key::Right, true);
    let mut focus = None;
    let mut polled = false;
    let mut physics = still(50500, 50500);
    let mut sprite = None;
    let mut character = Character::new(0, 9);
    let keep = {
        let mut view = WorldView {
            map: &mut world.map,
            entities: &mut world.entities,
            spawnables: &mut world.spawnables,
            focus: &mut focus,
            polled: &mut polled,
        };
        character.update(&mut physics, 100, &mut view, &input, &mut sprite)
    };
    assert!(keep);
    assert_eq!(character.dir, 1000);
    assert!(!character.jump);
    assert_eq!(physics.speed, [2000, -1000]);
    assert_eq!(physics.pos, [50700, 50400]);
    // the focus is where the character was when it asked
    assert_eq!(focus, Some(([50500, 50500], [50500, 50500])));
    let sprite = sprite.unwrap();
    assert_eq!(sprite.sheet, 9);
    assert_eq!(sprite.coords, [0, 0, 213, 428]);
    assert_eq!(sprite.size, [630, 1290]);
    assert_eq!(world.entities.len(), 4);
}

#[test]
fn character_update_on_the_ground() {
    let mut world = example_world();
    let mut input = InputManager::new();
    input.handle_event(Key::Left, true);
    input.handle_event(Key::Up, true);
    let mut focus = Some(([0, 0], [1000, 1000]));
    let mut polled = false;
    let mut physics = still(15000, 1000);
    let mut sprite = None;
    let mut logic = Logic::Character(Character::new(0, 9));
    {
        let mut view = WorldView {
            map: &mut world.map,
            entities: &mut world.entities,
            spawnables: &mut world.spawnables,
            focus: &mut focus,
            polled: &mut polled,
        };
        logic.update(&mut physics, 100, &mut view, &input, &mut sprite);
    }
    // landed at 1.645, running left at 5, jumping at 5, for a tenth of a second
    assert_eq!(physics.speed, [-5000, 5000]);
    assert_eq!(physics.pos, [14500, 2145]);
    assert_eq!(focus, Some(([0, 0], [15000, 1000])));
    // a character holds no round of spawning
    assert!(!polled);
    assert!(matches!(logic, Logic::Character(Character { dir: -1000, jump: true, .. })));
}

#[test]
fn new_game_spawns_the_character_and_points_the_camera() {
    let factory: MapFactory<NoFactory> = MapFactory::example();
    let input = InputManager::new();
    let game = Game::new(factory, &vec![10, 11, 12, 13], 9, 750, &input);
    assert_eq!(game.world.entities.len(), 5);
    assert!(game.world.entities[..4].iter().all(|e| matches!(e.logic, Logic::Spawn(_))));
    let character = &game.world.entities[4];
    assert!(matches!(character.logic, Logic::Character(_)));
    assert_eq!(character.physics.pos, [15000, 1645]);
    assert_eq!(character.physics.speed, [0, 0]);
    assert_eq!(character.sprite.unwrap().sheet, 9);
    assert!(game.world.spawnables.is_empty());
    // the camera went all the way to the character's spawn point
    assert_eq!(game.camera.pos(), [8333, -3999]);
    assert_eq!(game.camera.size(), 13333);
    assert_eq!(game.camera.update_rate(), 100);
    assert_eq!(game.camera.aspect_ratio(), 750);
}

#[test]
fn game_update_moves_the_character_and_the_camera() {
    let factory: MapFactory<NoFactory> = MapFactory::example();
    let mut input = InputManager::new();
    let mut game = Game::new(factory, &vec![10, 11, 12, 13], 9, 750, &input);
    input.handle_event(Key::Right, true);
    game.update(100, &mut input);
    let character = &game.world.entities[4];
    assert_eq!(character.physics.speed, [5000, 0]);
    assert_eq!(character.physics.pos, [15500, 1645]);
    // the focus was [15, 1.645]: the camera should look from [8.333, -3.354]
    assert_eq!(game.camera.pos(), [8333, -3934]);
    assert_eq!(game.camera.size(), 13333);
    game.update(100, &mut input);
    assert_eq!(game.world.entities[4].physics.pos, [16000, 1645]);
    assert_eq!(game.world.entities.len(), 5);
}

#[test]
fn world_without_entities_has_nothing_to_update() {
    let mut world = example_world();
    world.entities.clear();
    let input = InputManager::new();
    assert!(world.update(16, &input).is_none());
    assert!(world.entities.is_empty());
}

#[test]
fn spawned_entities_wait_for_their_kind() {
    let mut world = example_world();
    world.spawnables.push(SimpleSpawn::new(Logic::Spawn(Spawn::new())));
    let input = InputManager::new();
    world.update(16, &input);
    assert_eq!(world.entities.len(), 5);
    assert!(world.spawnables.is_empty());
    assert_eq!(world.entities[4].physics.pos, [15000, 1000]);
}

#[test]
fn camera_sees_the_tiles_around_it() {
    let world = example_world();
    let camera = Camera::new(750, [8333, -3999], 13333, 100).unwrap();
    let range = camera.visible_tiles(&world.map);
    // from column 7 to 8.333 + 13.333 + 1 = 22.666, from row 0 to -3.999 + 9.999 + 1 = 7.0
    assert_eq!((range.x1, range.y1, range.x2, range.y2), (7, 0, 22, 7));
    for y in range.y1..range.y2 {
        for x in range.x1..range.x2 {
            assert!(world.map.tile(x, y).is_some());
        }
    }
}

#[test]
fn camera_sees_no_tiles_beyond_the_map() {
    let world = example_world();
    let wide = Camera::new(1000, [-50000, -50000], 500000, 100).unwrap();
    let range = wide.visible_tiles(&world.map);
    assert_eq!((range.x1, range.y1, range.x2, range.y2), (0, 0, 100, 100));
    let far = Camera::new(1000, [200000, 300000], 10000, 100).unwrap();
    let range = far.visible_tiles(&world.map);
    assert_eq!((range.x1, range.y1, range.x2, range.y2), (199, 299, 100, 100));
    let edge = Camera::new(1000, [i64::MAX, i64::MIN], i64::MAX, 100).unwrap();
    let range = edge.visible_tiles(&world.map);
    assert_eq!((range.x1, range.y1), (i32::MAX - 1, 0));
    assert_eq!(range.x2, 100);
    assert_eq!(range.y2, 0);
}

#[test]
fn sprites_are_drawn_around_the_middle() {
    // the tile (3, 2), one tile large
    assert_eq!(tile_rect(3, 2, [1000, 1000]), [3000, 3000, 1000, -1000]);
    assert_eq!(tile_rect(0, 0, [500, 2000]), [250, 1500, 500, -2000]);
    // a character at (15, 1.645)
    assert_eq!(entity_rect([15000, 1645], [630, 1290]), [14685, 2290, 630, -1290]);
    assert_eq!(entity_rect([-1000, -1000], [1001, 1001]), [-1500, -500, 1001, -1001]);
}

#[test]
fn tick_updates_every_character_once_and_keeps_their_order() {
    let mut world = example_world();
    world.entities.clear();
    for (player, x) in [(0, 20500), (1, 30500), (2, 40500)] {
        world
            .entities
            .push(Entity::new([x, 50500], Logic::Character(Character::new(player, 9))));
    }
    let mut input = InputManager::new();
    input.handle_event(Key::Right, true);
    let focus = world.update(100, &input);
    // each fell and was pushed to the right for a tenth of a second, once
    let positions: Vec<[i64; 2]> = world.entities.iter().map(|e| e.physics.pos).collect();
    assert_eq!(positions, vec![[20700, 50400], [30700, 50400], [40700, 50400]]);
    let players: Vec<usize> = world
        .entities
        .iter()
        .map(|e| match &e.logic {
            Logic::Character(character) => character.player,
            Logic::Spawn(_) => usize::MAX,
        })
        .collect();
    assert_eq!(players, vec![0, 1, 2]);
    // the focus holds the places where they stood
    assert_eq!(focus, Some(([20500, 50500], [40500, 50500])));
}
