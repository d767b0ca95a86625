use fluffy_fiesta::entities::{spawn_queued, Spawn};
use fluffy_fiesta::game::{Character, SimpleSpawn};
use fluffy_fiesta::input::InputManager;
use fluffy_fiesta::vecmath::Vector2;
use fluffy_fiesta::world::{
    Entity, EntityLogic, EntityPhysics, Logic, MapFactory, Spawnable, Tile, TileType, World,
    WorldView,
};

type NoFactory = fn(Tile, &TileType, (usize, usize)) -> Option<Entity>;

/// A spawnable that answers as it is told, and counts how often it is
/// asked.
struct Scripted {
    name: u32,
    keep: bool,
    produce: bool,
    asked: u32,
}

fn scripted(name: u32, keep: bool, produce: bool) -> Scripted {
    Scripted { name, keep, produce, asked: 0 }
}

impl Spawnable for Scripted {
    fn spawn(&mut self, pos: &Vector2) -> (bool, Option<Entity>) {
        self.asked += 1;
        let produced = if self.produce {
            Some(Entity::new(*pos, Logic::Spawn(Spawn::new())))
        } else {
            None
        };
        (self.keep, produced)
    }
}

fn names(queue: &Vec<Scripted>) -> Vec<u32> {
    queue.iter().map(|s| s.name).collect()
}

fn asked(queue: &Vec<Scripted>) -> Vec<u32> {
    queue.iter().map(|s| s.asked).collect()
}

#[test]
fn first_producer_ends_the_round() {
    // two decline, the third produces, two more wait behind it
    let mut queue = vec![
        scripted(0, true, false),
        scripted(1, true, false),
        scripted(2, true, true),
        scripted(3, true, true),
        scripted(4, false, true),
    ];
    let mut entities: Vec<Entity> = Vec::new();
    spawn_queued(&mut queue, &mut entities, &[7000, 8000]);
    assert_eq!(entities.len(), 1);
    assert_eq!(entities[0].physics.pos, [7000, 8000]);
    assert_eq!(names(&queue), vec![0, 1, 2, 3, 4]);
    // those behind the producer were not asked
    assert_eq!(asked(&queue), vec![1, 1, 1, 0, 0]);
}

#[test]
fn asked_spawnables_stay_only_if_they_say_so() {
    let mut queue = vec![
        scripted(0, false, false),
        scripted(1, true, false),
        scripted(2, false, true),
        scripted(3, false, false),
        scripted(4, true, false),
    ];
    let mut entities: Vec<Entity> = Vec::new();
    spawn_queued(&mut queue, &mut entities, &[0, 0]);
    assert_eq!(entities.len(), 1);
    // 0 and 2 retire; 3 and 4 are kept whatever they would say
    assert_eq!(names(&queue), vec![1, 3, 4]);
    assert_eq!(asked(&queue), vec![1, 0, 0]);
}

#[test]
fn producer_at_the_front_is_the_only_one_asked() {
    let mut queue = vec![scripted(0, true, true), scripted(1, true, true)];
    let mut entities: Vec<Entity> = vec![Entity::new([1, 1], Logic::Spawn(Spawn::new()))];
    spawn_queued(&mut queue, &mut entities, &[2, 2]);
    assert_eq!(entities.len(), 2);
    // the new entity comes last
    assert_eq!(entities[0].physics.pos, [1, 1]);
    assert_eq!(entities[1].physics.pos, [2, 2]);
    assert_eq!(asked(&queue), vec![1, 0]);
    spawn_queued(&mut queue, &mut entities, &[3, 3]);
    assert_eq!(entities.len(), 3);
    assert_eq!(asked(&queue), vec![2, 0]);
}

#[test]
fn round_without_a_producer_asks_everyone_and_adds_nothing() {
    let mut queue =
        vec![scripted(0, true, false), scripted(1, false, false), scripted(2, true, false)];
    let mut entities: Vec<Entity> = Vec::new();
    spawn_queued(&mut queue, &mut entities, &[0, 0]);
    assert!(entities.is_empty());
    assert_eq!(names(&queue), vec![0, 2]);
    assert_eq!(asked(&queue), vec![1, 1]);
}

#[test]
fn empty_queue_changes_nothing() {
    let mut queue: Vec<Scripted> = Vec::new();
    let mut entities: Vec<Entity> = Vec::new();
    spawn_queued(&mut queue, &mut entities, &[0, 0]);
    assert!(queue.is_empty());
    assert!(entities.is_empty());
}

#[test]
fn simple_spawn_hands_over_its_logic_once() {
    let mut spawn = SimpleSpawn::new(Logic::Character(Character::new(0, 5)));
    let (keep, produced) = spawn.spawn(&[4000, 5000]);
    assert!(!keep);
    let entity = produced.unwrap();
    assert_eq!(entity.physics.pos, [4000, 5000]);
    assert_eq!(entity.physics.speed, [0, 0]);
    assert!(entity.sprite.is_none());
    assert!(matches!(entity.logic, Logic::Character(_)));
    let (keep, produced) = spawn.spawn(&[4000, 5000]);
    assert!(!keep);
    assert!(produced.is_none());
}

fn spawn_point_update(
    world: &mut World<Scripted>,
    pos: [i64; 2],
    polled: &mut bool,
) -> (bool, EntityPhysics) {
    let input = InputManager::new();
    let mut focus = None;
    let mut physics = EntityPhysics { pos, speed: [0, 0] };
    let mut sprite = None;
    let mut logic = Spawn::new();
    let keep = {
        let mut view = WorldView {
            map: &mut world.map,
            entities: &mut world.entities,
            spawnables: &mut world.spawnables,
            focus: &mut focus,
            polled,
        };
        logic.update(&mut physics, 16, &mut view, &input, &mut sprite)
    };
    assert!(sprite.is_none());
    assert!(focus.is_none());
    (keep, physics)
}

fn example_world() -> World<Scripted> {
    let factory: MapFactory<NoFactory> = MapFactory::example();
    factory.create(&vec![0, 1, 2, 3], 42)
}

#[test]
fn spawn_point_spawns_where_it_stands() {
    let mut world = example_world();
    world.spawnables.push(scripted(0, true, false));
    world.spawnables.push(scripted(1, false, true));
    world.spawnables.push(scripted(2, true, true));
    let mut polled = false;
    let (keep, physics) = spawn_point_update(&mut world, [25000, 1000], &mut polled);
    assert!(keep);
    assert!(polled);
    assert_eq!(physics.pos, [25000, 1000]);
    assert_eq!(world.entities.len(), 5);
    assert_eq!(world.entities[4].physics.pos, [25000, 1000]);
    assert_eq!(names(&world.spawnables), vec![0, 2]);
    assert_eq!(asked(&world.spawnables), vec![1, 0]);
}

#[test]
fn spawn_point_holds_no_second_round_in_a_tick() {
    let mut world = example_world();
    world.spawnables.push(scripted(0, true, true));
    world.spawnables.push(scripted(1, true, true));
    let mut polled = false;
    spawn_point_update(&mut world, [15000, 1000], &mut polled);
    assert!(polled);
    assert_eq!(world.entities.len(), 5);
    assert_eq!(asked(&world.spawnables), vec![1, 0]);
    // the next spawn point of the same tick finds the round held
    let (keep, physics) = spawn_point_update(&mut world, [25000, 1000], &mut polled);
    assert!(keep);
    assert!(polled);
    assert_eq!(physics.pos, [25000, 1000]);
    assert_eq!(world.entities.len(), 5);
    assert_eq!(names(&world.spawnables), vec![0, 1]);
    assert_eq!(asked(&world.spawnables), vec![1, 0]);
}

#[test]
fn round_without_a_producer_is_still_the_round_of_the_tick() {
    let mut world = example_world();
    world.spawnables.push(scripted(0, true, false));
    let mut polled = false;
    spawn_point_update(&mut world, [15000, 1000], &mut polled);
    assert!(polled);
    spawn_point_update(&mut world, [25000, 1000], &mut polled);
    // nobody is asked twice
    assert_eq!(asked(&world.spawnables), vec![1]);
    assert_eq!(world.entities.len(), 4);
}

#[test]
fn tick_holds_one_round_whatever_the_number_of_spawn_points() {
    let mut world = example_world();
    world.spawnables.push(scripted(0, true, true));
    world.spawnables.push(scripted(1, true, true));
    let input = InputManager::new();
    let focus = world.update(16, &input);
    assert!(focus.is_none());
    // four spawn points, one round: one entity, at the first spawn point,
    // and the spawnable behind the producer was not asked
    assert_eq!(world.entities.len(), 5);
    assert_eq!(world.entities[4].physics.pos, [15000, 1000]);
    assert_eq!(names(&world.spawnables), vec![0, 1]);
    assert_eq!(asked(&world.spawnables), vec![1, 0]);
    // the next tick holds the next round
    world.update(16, &input);
    assert_eq!(world.entities.len(), 6);
    assert_eq!(asked(&world.spawnables), vec![2, 0]);
}

#[test]
fn two_one_shot_spawns_come_one_tick_after_the_other() {
    let factory: MapFactory<NoFactory> = MapFactory::example();
    let mut world: World<SimpleSpawn> = factory.create(&vec![0, 1, 2, 3], 42);
    world.entities.truncate(2);
    world.spawnables.push(SimpleSpawn::new(Logic::Character(Character::new(0, 5))));
    world.spawnables.push(SimpleSpawn::new(Logic::Character(Character::new(1, 5))));
    let input = InputManager::new();
    world.update(16, &input);
    assert_eq!(world.entities.len(), 3);
    assert_eq!(world.spawnables.len(), 1);
    assert!(world.spawnables[0].entity_logic.is_some());
    world.update(16, &input);
    assert_eq!(world.entities.len(), 4);
    assert!(world.spawnables.is_empty());
    world.update(16, &input);
    assert_eq!(world.entities.len(), 4);
}

#[test]
fn entity_brought_behind_a_character_waits_for_the_next_tick() {
    let factory: MapFactory<NoFactory> = MapFactory::example();
    let mut world: World<SimpleSpawn> = factory.create(&vec![0, 1, 2, 3], 42);
    // a character, a spawn point, a character
    world.entities.truncate(1);
    world.entities.insert(0, Entity::new([20500, 50500], Logic::Character(Character::new(0, 9))));
    world.entities.push(Entity::new([30500, 50500], Logic::Character(Character::new(1, 9))));
    world.spawnables.push(SimpleSpawn::new(Logic::Character(Character::new(2, 9))));
    let input = InputManager::new();
    world.update(100, &input);
    let players: Vec<usize> = world
        .entities
        .iter()
        .map(|e| match &e.logic {
            Logic::Character(character) => character.player,
            Logic::Spawn(_) => usize::MAX,
        })
        .collect();
    // the newcomer stands before the entity updated last
    assert_eq!(players, vec![0, usize::MAX, 2, 1]);
    // the two that were there fell for a tenth of a second; the newcomer
    // stands where it was brought and has no sprite yet
    assert_eq!(world.entities[0].physics.pos, [20500, 50400]);
    assert_eq!(world.entities[3].physics.pos, [30500, 50400]);
    assert_eq!(world.entities[2].physics.pos, [15000, 1000]);
    assert!(world.entities[2].sprite.is_none());
    world.update(100, &input);
    assert!(world.entities[2].sprite.is_some());
}
