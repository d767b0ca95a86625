//! The base structures of the game world.
//!
//! The map is made of tiles, where each tile refers to an entry in the
//! palette of tile types. Tiles are ordered row first (Y goes from bottom
//! to top) then column (X goes from left to right).
//!
//! Apart from the static grid of tiles, entities stand for everything
//! else: characters, items, bullets. They can be at any position, and move.

use vstd::prelude::*;
use crate::entities::Spawn;
use crate::game::Character;
use crate::input::InputManager;
use crate::sprites::{SheetId, Sprite};
use crate::tick::{lemma_tick_adds_at_most_one, lemma_tick_visits_once, ticked_once};
use crate::vecmath::{Vector2, UNIT};

verus! {

/// The physical attributes of an entity.
#[derive(Clone, Copy, Debug)]
pub struct EntityPhysics {
    /// Where the entity is.
    pub pos: Vector2,
    /// How fast it moves, per second.
    pub speed: Vector2,
}

/// Definition of a tile type, referenced by tiles.
#[derive(Clone, Copy, Debug)]
pub struct TileType {
    /// Sprite for that tile.
    pub sprite: Option<Sprite>,
    /// Damage suffered from touching that tile.
    pub damage: i64,
    /// Whether entities will collide with that tile, or pass through.
    pub collide: bool,
    /// Whether an entity is associated with this tile.
    pub tile_entity: bool,
}

/// A tile in the map, just references a `TileType`.
pub type Tile = u16;

/// The map, representing the terrain at a given instant.
#[derive(Debug)]
pub struct TileMap {
    /// Width in number of tiles.
    pub width: usize,
    /// Height in number of tiles.
    pub height: usize,
    /// The tile types, referenced by the tile array.
    pub tiletypes: Vec<TileType>,
    /// The tiles, ordered Y first (bottom to top) then X (left to right).
    pub tiles: Vec<Tile>,
}

/// The tile that the coordinate `v` falls in: `v / UNIT`, rounded down.
pub open spec fn tile_of(v: int) -> int {
    v / (UNIT as int)
}

impl TileMap {
    /// There is a tile for every place of the grid, and every tile is in
    /// the palette.
    pub open spec fn wf(&self) -> bool {
        &&& self.tiles@.len() == self.width * self.height
        &&& forall|i: int|
            0 <= i < self.tiles@.len() ==> (#[trigger] self.tiles@[i]) < self.tiletypes@.len()
    }

    /// The type of the tile at column `x` of row `y`, if the grid has that
    /// place.
    pub open spec fn tile_at(&self, x: int, y: int) -> Option<TileType> {
        if 0 <= x < self.width && 0 <= y < self.height {
            Some(self.tiletypes@[self.tiles@[y * self.width + x] as int])
        } else {
            None
        }
    }

    /// The type of the tile at column `column` of row `row`; none outside
    /// the grid.
    fn lookup(&self, column: usize, row: usize) -> (r: Option<&TileType>)
        requires
            self.wf(),
        ensures
            r is Some <==> column < self.width && row < self.height,
            match r {
                Some(tiletype) => Some(*tiletype) == self.tile_at(column as int, row as int),
                None => self.tile_at(column as int, row as int) is None,
            },
    {
        if self.width > column && self.height > row {
            let total = self.tiles.len();
            assert(0 <= row * self.width <= row * self.width + column < total)
                by (nonlinear_arith)
                requires
                    0 <= column < self.width,
                    0 <= row < self.height,
                    total == self.width * self.height,
            ;
            let tile = self.tiles[row * self.width + column];
            Some(&self.tiletypes[tile as usize])
        } else {
            None
        }
    }

    /// The type of the tile at column `x` of row `y`; none outside the
    /// grid.
    pub fn tile(&self, x: i32, y: i32) -> (r: Option<&TileType>)
        requires
            self.wf(),
        ensures
            r is Some <==> 0 <= x < self.width && 0 <= y < self.height,
            match r {
                Some(tiletype) => Some(*tiletype) == self.tile_at(x as int, y as int),
                None => self.tile_at(x as int, y as int) is None,
            },
    {
        if x >= 0 && y >= 0 {
            self.lookup(x as usize, y as usize)
        } else {
            None
        }
    }

    /// The type of the tile that the position `(x, y)` falls in; none
    /// outside the grid.
    pub fn tilef(&self, x: i64, y: i64) -> (r: Option<&TileType>)
        requires
            self.wf(),
        ensures
            r is Some <==> 0 <= tile_of(x as int) < self.width && 0 <= tile_of(y as int)
                < self.height,
            match r {
                Some(tiletype) => Some(*tiletype) == self.tile_at(
                    tile_of(x as int),
                    tile_of(y as int),
                ),
                None => self.tile_at(tile_of(x as int), tile_of(y as int)) is None,
            },
    {
        if x >= 0 && y >= 0 {
            let column = (x / UNIT) as u64;
            let row = (y / UNIT) as u64;
            if column <= usize::MAX as u64 && row <= usize::MAX as u64 {
                self.lookup(column as usize, row as usize)
            } else {
                None
            }
        } else {
            None
        }
    }
}

/// What an entity does: one variant for each kind of entity.
#[derive(Debug)]
pub enum Logic {
    /// A place where queued spawns come into the world.
    Spawn(Spawn),
    /// A character that a player steers.
    Character(Character),
}

/// An entity in the world, with its physical attributes, what it does and
/// how it looks.
#[derive(Debug)]
pub struct Entity {
    pub physics: EntityPhysics,
    pub logic: Logic,
    pub sprite: Option<Sprite>,
}

impl Entity {
    /// An entity at rest at `pos` that does `logic` and has no sprite yet.
    pub fn new(pos: Vector2, logic: Logic) -> (r: Entity)
        ensures
            r == (Entity { physics: EntityPhysics { pos, speed: [0, 0] }, logic, sprite: None }),
    {
        Entity { physics: EntityPhysics { pos, speed: [0, 0] }, logic, sprite: None }
    }
}

/// Something that may bring an entity into the world.
pub trait Spawnable: Sized {
    /// Whether asking `self` for an entity at `pos` may leave it as
    /// `after` and give `(keep, produced)`. A type that does not say
    /// leaves this open.
    open spec fn may_spawn(
        &self,
        pos: Vector2,
        after: Self,
        keep: bool,
        produced: Option<Entity>,
    ) -> bool {
        arbitrary()
    }

    /// Asks for an entity at `pos`. Gives whether `self` stays queued, and
    /// the entity if there is one.
    fn spawn(&mut self, pos: &Vector2) -> (r: (bool, Option<Entity>))
        ensures
            old(self).may_spawn(*pos, *final(self), r.0, r.1),
    ;
}

/// The world: the map, what lives on it, and what waits to come into it.
#[derive(Debug)]
pub struct World<S> {
    /// The map, grid of terrain tiles.
    pub map: TileMap,
    /// The entities.
    pub entities: Vec<Entity>,
    /// The entities associated with tiles, each with the column and row of
    /// its tile. No tile has two.
    pub tile_entities: Vec<((usize, usize), Entity)>,
    /// The things that can be spawned.
    pub spawnables: Vec<S>,
}

/// What an entity may reach of the world while it is updated: everything
/// but itself.
pub struct WorldView<'a, S> {
    pub map: &'a mut TileMap,
    pub entities: &'a mut Vec<Entity>,
    pub spawnables: &'a mut Vec<S>,
    pub focus: &'a mut Option<(Vector2, Vector2)>,
    /// Whether the queue of spawns has had its round in this tick.
    pub polled: &'a mut bool,
}

/// What a view shows at one moment.
pub struct Scene<S> {
    pub map: TileMap,
    pub entities: Seq<Entity>,
    pub spawnables: Seq<S>,
    pub focus: Option<(Vector2, Vector2)>,
    /// Whether the queue of spawns has had its round in this tick.
    pub polled: bool,
}

/// The box `old` widened to hold `pos`; the box of `pos` alone where
/// there is none yet.
pub open spec fn widened(old: Option<(Vector2, Vector2)>, pos: Vector2) -> (Vector2, Vector2) {
    match old {
        Some((low, high)) => (
            [
                if pos[0] < low[0] { pos[0] } else { low[0] },
                if pos[1] < low[1] { pos[1] } else { low[1] },
            ],
            [
                if pos[0] > high[0] { pos[0] } else { high[0] },
                if pos[1] > high[1] { pos[1] } else { high[1] },
            ],
        ),
        None => (pos, pos),
    }
}

impl<'a, S> WorldView<'a, S> {
    /// What the view shows now.
    pub open spec fn scene(&self) -> Scene<S> {
        Scene {
            map: *self.map,
            entities: self.entities@,
            spawnables: self.spawnables@,
            focus: *self.focus,
            polled: *self.polled,
        }
    }

    /// Asks the camera to keep `pos` in view: the box in focus grows to
    /// hold it. The view goes on showing the same world.
    pub fn focus(&mut self, pos: &Vector2)
        ensures
            final(self).scene() == (Scene {
                focus: Some(widened(old(self).scene().focus, *pos)),
                ..old(self).scene()
            }),
            *final(final(self).map) == *final(old(self).map),
            *final(final(self).entities) == *final(old(self).entities),
            *final(final(self).spawnables) == *final(old(self).spawnables),
            *final(final(self).focus) == *final(old(self).focus),
            *final(final(self).polled) == *final(old(self).polled),
    {
        let next = match *self.focus {
            Some((low, high)) => (
                [
                    if pos[0] < low[0] { pos[0] } else { low[0] },
                    if pos[1] < low[1] { pos[1] } else { low[1] },
                ],
                [
                    if pos[0] > high[0] { pos[0] } else { high[0] },
                    if pos[1] > high[1] { pos[1] } else { high[1] },
                ],
            ),
            None => (*pos, *pos),
        };
        *self.focus = Some(next);
    }
}

/// The logic of one kind of entity.
pub trait EntityLogic<S: Spawnable>: Sized {
    /// Whether one update over `dt` may turn `self` with its `physics` and
    /// `sprite`, beside `scene`, into `after` beside `scene_after`, and
    /// answer `keep`. A type that does not say leaves this open.
    open spec fn may_update(
        &self,
        physics: EntityPhysics,
        sprite: Option<Sprite>,
        scene: Scene<S>,
        dt: u64,
        input: InputManager,
        after: (Self, EntityPhysics, Option<Sprite>),
        scene_after: Scene<S>,
        keep: bool,
    ) -> bool {
        arbitrary()
    }

    /// Lets `dt` pass for the entity whose logic this is. `entity` is its
    /// body and `sprite` its look; `world` is everything else. The answer
    /// says whether the entity wants to live on.
    ///
    /// An update takes no entity out of the world, leaves the map well
    /// formed, and leaves the view showing the same world.
    fn update(
        &mut self,
        entity: &mut EntityPhysics,
        dt: u64,
        world: &mut WorldView<'_, S>,
        input: &InputManager,
        sprite: &mut Option<Sprite>,
    ) -> (keep: bool)
        requires
            old(world).map.wf(),
        ensures
            old(self).may_update(
                *old(entity),
                *old(sprite),
                old(world).scene(),
                dt,
                *input,
                (*final(self), *final(entity), *final(sprite)),
                final(world).scene(),
                keep,
            ),
            final(world).map.wf(),
            final(world).entities@.len() >= old(world).entities@.len(),
            *final(final(world).map) == *final(old(world).map),
            *final(final(world).entities) == *final(old(world).entities),
            *final(final(world).spawnables) == *final(old(world).spawnables),
            *final(final(world).focus) == *final(old(world).focus),
            *final(final(world).polled) == *final(old(world).polled),
    ;
}

impl<S: Spawnable> EntityLogic<S> for Logic {
    /// An entity is updated as its kind says, and stays of its kind.
    open spec fn may_update(
        &self,
        physics: EntityPhysics,
        sprite: Option<Sprite>,
        scene: Scene<S>,
        dt: u64,
        input: InputManager,
        after: (Self, EntityPhysics, Option<Sprite>),
        scene_after: Scene<S>,
        keep: bool,
    ) -> bool {
        match (*self, after.0) {
            (Logic::Spawn(logic), Logic::Spawn(logic_after)) => logic.may_update(
                physics,
                sprite,
                scene,
                dt,
                input,
                (logic_after, after.1, after.2),
                scene_after,
                keep,
            ),
            (Logic::Character(logic), Logic::Character(logic_after)) => logic.may_update(
                physics,
                sprite,
                scene,
                dt,
                input,
                (logic_after, after.1, after.2),
                scene_after,
                keep,
            ),
            _ => false,
        }
    }

    fn update(
        &mut self,
        entity: &mut EntityPhysics,
        dt: u64,
        world: &mut WorldView<'_, S>,
        input: &InputManager,
        sprite: &mut Option<Sprite>,
    ) -> (keep: bool) {
        match self {
            Logic::Spawn(logic) => logic.update(entity, dt, world, input, sprite),
            Logic::Character(logic) => logic.update(entity, dt, world, input, sprite),
        }
    }
}

/// Whether the update of `one`, beside `scene`, may leave it as
/// `one_after` beside `scene_after`.
pub open spec fn turn<S: Spawnable>(
    one: Entity,
    scene: Scene<S>,
    dt: u64,
    input: InputManager,
    one_after: Entity,
    scene_after: Scene<S>,
) -> bool {
    exists|keep: bool| #[trigger]
        one.logic.may_update(
            one.physics,
            one.sprite,
            scene,
            dt,
            input,
            (one_after.logic, one_after.physics, one_after.sprite),
            scene_after,
            keep,
        )
}

/// Whether the updates for the places `i` to `n - 1` may end with `out`,
/// when `kept` has had its update and stands beside `scene`. For each
/// place in turn, the entity there changes places with the one updated
/// last, and is updated beside the others; the last one updated goes to
/// the end.
pub open spec fn rounds<S: Spawnable>(
    i: nat,
    n: nat,
    kept: Entity,
    scene: Scene<S>,
    dt: u64,
    input: InputManager,
    out: Scene<S>,
) -> bool
    decreases n - i,
{
    if i >= n {
        out == (Scene { entities: scene.entities.push(kept), ..scene })
    } else {
        exists|one_after: Entity, scene_after: Scene<S>|
            {
                &&& #[trigger] turn(
                    scene.entities[i as int],
                    Scene { entities: scene.entities.update(i as int, kept), ..scene },
                    dt,
                    input,
                    one_after,
                    scene_after,
                )
                &&& rounds(i + 1, n, one_after, scene_after, dt, input, out)
            }
    }
}

/// Whether one tick may turn `scene` into `out`: every entity is updated
/// once, beside all the others. The first entity is updated beside those
/// behind it; the entities that are there after that update get theirs,
/// place by place. What that comes to, entity by entity, is stated by
/// [`ticked_once`](crate::tick::ticked_once).
pub open spec fn ticks<S: Spawnable>(
    scene: Scene<S>,
    dt: u64,
    input: InputManager,
    out: Scene<S>,
) -> bool {
    if scene.entities.len() == 0 {
        out == scene
    } else {
        exists|one_after: Entity, scene_after: Scene<S>|
            {
                &&& #[trigger] turn(
                    scene.entities[0],
                    Scene { entities: scene.entities.skip(1), ..scene },
                    dt,
                    input,
                    one_after,
                    scene_after,
                )
                &&& rounds(0, scene_after.entities.len(), one_after, scene_after, dt, input, out)
            }
    }
}

/// Updates `one` beside the rest of the world.
fn take_turn<S: Spawnable>(
    one: &mut Entity,
    map: &mut TileMap,
    rest: &mut Vec<Entity>,
    spawnables: &mut Vec<S>,
    focus: &mut Option<(Vector2, Vector2)>,
    polled: &mut bool,
    dt: u64,
    input: &InputManager,
)
    requires
        old(map).wf(),
    ensures
        final(map).wf(),
        final(rest)@.len() >= old(rest)@.len(),
        turn(
            *old(one),
            Scene {
                map: *old(map),
                entities: old(rest)@,
                spawnables: old(spawnables)@,
                focus: *old(focus),
                polled: *old(polled),
            },
            dt,
            *input,
            *final(one),
            Scene {
                map: *final(map),
                entities: final(rest)@,
                spawnables: final(spawnables)@,
                focus: *final(focus),
                polled: *final(polled),
            },
        ),
{
    let mut view = WorldView { map, entities: rest, spawnables, focus, polled };
    let _keep = one.logic.update(&mut one.physics, dt, &mut view, input, &mut one.sprite);
}

impl<S: Spawnable> World<S> {
    /// What the world holds, with `focus` as the box in focus, and
    /// `polled` saying whether the queue of spawns has had its round.
    pub open spec fn scene(&self, focus: Option<(Vector2, Vector2)>, polled: bool) -> Scene<S> {
        Scene {
            map: self.map,
            entities: self.entities@,
            spawnables: self.spawnables@,
            focus,
            polled,
        }
    }

    /// Lets `dt` pass for every entity. Gives the box that the entities
    /// asked the camera to keep in view, if any asked.
    ///
    /// Each entity that is in the world has one update, during which it
    /// is taken out of the list of entities, so that it can change itself
    /// and the others at once. This is the walk of
    /// [`one_rest_split_iter`](crate::utils::one_rest_split_iter), written
    /// out here because an update reaches the map, the queue of spawns
    /// and the focus beside the other entities.
    ///
    /// The queue of spawns has one round at most in a tick, held by the
    /// first spawn point of the world, so that at most one entity comes
    /// into the world and no spawnable is asked twice.
    ///
    /// What the entities answer is not acted on: no entity leaves the
    /// world. The entities of the tiles have no update.
    pub fn update(&mut self, dt: u64, input: &InputManager) -> (focus: Option<(Vector2, Vector2)>)
        requires
            old(self).map.wf(),
        ensures
            final(self).map.wf(),
            (exists|polled: bool|
                {
                    &&& #[trigger] ticks(
                        old(self).scene(None, false),
                        dt,
                        *input,
                        final(self).scene(focus, polled),
                    )
                    &&& ticked_once(
                        old(self).scene(None, false),
                        dt,
                        *input,
                        final(self).scene(focus, polled),
                    )
                }),
            old(self).entities@.len() <= final(self).entities@.len() <= old(self).entities@.len()
                + 1,
            final(self).tile_entities == old(self).tile_entities,
    {
        let mut focus: Option<(Vector2, Vector2)> = None;
        let mut polled = false;
        if self.entities.len() == 0 {
            proof {
                let still = self.scene(focus, polled);
                assert(ticks(still, dt, *input, still));
                lemma_tick_visits_once(still, dt, *input, still);
            }
            return focus;
        }
        let ghost before = self.scene(None, false);
        let mut kept = self.entities.remove(0);
        take_turn(
            &mut kept,
            &mut self.map,
            &mut self.entities,
            &mut self.spawnables,
            &mut focus,
            &mut polled,
            dt,
            input,
        );
        let n = self.entities.len();
        let mut i: usize = 0;
        while i < n
            invariant
                i <= n <= self.entities@.len(),
                self.map.wf(),
                self.tile_entities == old(self).tile_entities,
                forall|out: Scene<S>|
                    rounds(
                        i as nat,
                        n as nat,
                        kept,
                        self.scene(focus, polled),
                        dt,
                        *input,
                        out,
                    ) ==> ticks(before, dt, *input, out),
            decreases n - i,
        {
            let ghost kept_before = kept;
            let ghost scene_before = self.scene(focus, polled);
            std::mem::swap(&mut self.entities[i], &mut kept);
            take_turn(
                &mut kept,
                &mut self.map,
                &mut self.entities,
                &mut self.spawnables,
                &mut focus,
                &mut polled,
                dt,
                input,
            );
            i = i + 1;
            assert forall|out: Scene<S>|
                rounds(
                    i as nat,
                    n as nat,
                    kept,
                    self.scene(focus, polled),
                    dt,
                    *input,
                    out,
                ) implies ticks(before, dt, *input, out) by {
                assert(rounds(
                    (i - 1) as nat,
                    n as nat,
                    kept_before,
                    scene_before,
                    dt,
                    *input,
                    out,
                ));
            }
        }
        self.entities.push(kept);
        proof {
            let after = self.scene(focus, polled);
            assert(ticks(before, dt, *input, after));
            lemma_tick_visits_once(before, dt, *input, after);
            lemma_tick_adds_at_most_one(before, dt, *input, after);
        }
        focus
    }
}

/// The type name of a spawn point in an entity definition.
pub const SPAWN_TYPE: &'static str = "f.spawn";

/// An entity of the initial map: the name of its kind and where it
/// stands.
pub struct EntityDefinition {
    pub type_id: String,
    pub position: Vector2,
}

impl EntityDefinition {
    /// The entity that is defined, if the kind is known.
    pub open spec fn defined(&self) -> Option<Entity> {
        if self.type_id@ == SPAWN_TYPE@ {
            Some(
                Entity {
                    physics: EntityPhysics { pos: self.position, speed: [0, 0] },
                    logic: Logic::Spawn(Spawn {  }),
                    sprite: None,
                },
            )
        } else {
            None
        }
    }

    /// Makes the entity that is defined: at rest at its position, without
    /// a sprite. There is none where the kind is not known.
    pub fn create(&self, seed: u32) -> (r: Option<Entity>)
        ensures
            r == self.defined(),
    {
        if self.type_id == SPAWN_TYPE.to_owned() {
            Some(
                Entity {
                    physics: EntityPhysics { pos: self.position, speed: [0, 0] },
                    logic: Logic::Spawn(Spawn::new()),
                    sprite: None,
                },
            )
        } else {
            None
        }
    }
}

/// The entities that `definitions` define, in order; the definitions of
/// unknown kinds are passed over.
pub open spec fn all_defined(definitions: Seq<EntityDefinition>) -> Seq<Entity>
    decreases definitions.len(),
{
    if definitions.len() == 0 {
        Seq::empty()
    } else {
        match definitions.last().defined() {
            Some(entity) => all_defined(definitions.drop_last()).push(entity),
            None => all_defined(definitions.drop_last()),
        }
    }
}

/// Definition of a tile type of the initial map. `F` makes the entity of a
/// tile of this type from the tile, its type, and its column and row.
pub struct TileTypeDefinition<F> {
    /// Image file.
    pub sprite_sheet: &'static str,
    /// Coordinates of sprite within image file.
    pub sprite_coords: [i32; 4],
    /// Damage suffered from touching that tile.
    pub damage: i64,
    /// Whether entities will collide with that tile, or pass through.
    pub collide: bool,
    /// Factory function (creates entity).
    pub tile_entity: Option<F>,
}

impl<F> TileTypeDefinition<F> {
    /// The tile type that is defined, with its sprite on `sheet`. A tile
    /// is as large as one tile.
    pub open spec fn defined(&self, sheet: SheetId) -> TileType {
        TileType {
            sprite: Some(Sprite { sheet, coords: self.sprite_coords, size: [UNIT, UNIT] }),
            damage: self.damage,
            collide: self.collide,
            tile_entity: self.tile_entity is Some,
        }
    }
}

/// Initial map definition.
///
/// This can be turned into a live world using `create()`.
pub struct MapFactory<F> {
    pub width: usize,
    pub height: usize,
    pub nb_players: usize,
    pub tiletypes: Vec<TileTypeDefinition<F>>,
    pub tiles: Vec<Tile>,
    pub entities: Vec<EntityDefinition>,
}

/// The background of the example map: sky (2) from row 70 up, castle (1)
/// below.
pub open spec fn sky_tile(x: int, y: int) -> Tile {
    if y >= 70 {
        2
    } else {
        1
    }
}

/// The example map with its walls (0) all around.
pub open spec fn walled_tile(x: int, y: int) -> Tile {
    if x == 0 || x == 99 || y == 0 || y == 99 {
        0
    } else {
        sky_tile(x, y)
    }
}

/// The example map with the lava (3) in the middle of its floor.
pub open spec fn lava_tile(x: int, y: int) -> Tile {
    if y == 0 && 40 <= x < 60 {
        3
    } else {
        walled_tile(x, y)
    }
}

/// The tile at column `x` of row `y` of the example map: a room of 100 by
/// 100 tiles, walled all around, with lava in the middle of the floor, a
/// block of wall on every fifth tile of the row above the floor, and sky
/// from row 70 up.
pub open spec fn example_tile(x: int, y: int) -> Tile {
    if y == 1 && x % 5 == 2 && x <= 92 {
        0
    } else {
        lava_tile(x, y)
    }
}

/// The image file of tile type `i` of the example map: wall, background,
/// sky and lava.
pub open spec fn example_sheet(i: int) -> &'static str {
    if i == 0 {
        "map/castleCenter.png"
    } else if i == 1 {
        "map/bg_castle.png"
    } else if i == 2 {
        "map/bg.png"
    } else {
        "map/liquidLava.png"
    }
}

/// Whether `definition` is tile type `i` of the example map. Only the
/// wall stops movement, only the lava hurts, and no type has an entity.
pub open spec fn is_example_tile_type<F>(definition: TileTypeDefinition<F>, i: int) -> bool {
    &&& definition.sprite_sheet@ == example_sheet(i)@
    &&& definition.sprite_coords@ == seq![0i32, 0i32, 256i32, 256i32]
    &&& definition.damage == (if i == 3 {
        UNIT
    } else {
        0
    })
    &&& definition.collide == (i == 0)
    &&& definition.tile_entity is None
}

/// Where spawn point `i` of the example map stands.
pub open spec fn example_spawn(i: int) -> Vector2 {
    if i == 0 {
        [15000, 1000]
    } else if i == 1 {
        [25000, 1000]
    } else if i == 2 {
        [75000, 1000]
    } else {
        [85000, 1000]
    }
}

/// The palette that turns the tile type definitions into tile types, the
/// sprite of each on the sheet at its place in `sheets`.
pub open spec fn palette_of<F>(
    tiletypes: Seq<TileTypeDefinition<F>>,
    sheets: Seq<SheetId>,
) -> Seq<TileType> {
    Seq::new(tiletypes.len(), |i: int| tiletypes[i].defined(sheets[i]))
}

/// Whether the entities of the first `cells` tiles of the grid, in the
/// order of the grid, may be `placed`: a tile has an entity where its type
/// has a factory and the factory makes one for it.
pub open spec fn places<F: Fn(Tile, &TileType, (usize, usize)) -> Option<Entity>>(
    factory: MapFactory<F>,
    palette: Seq<TileType>,
    cells: nat,
    placed: Seq<((usize, usize), Entity)>,
) -> bool
    decreases cells,
{
    if cells == 0 {
        placed.len() == 0
    } else {
        let cell = cells - 1;
        let tile = factory.tiles@[cell];
        let at = (
            (cell % (factory.width as int)) as usize,
            (cell / (factory.width as int)) as usize,
        );
        match factory.tiletypes@[tile as int].tile_entity {
            None => places(factory, palette, cell as nat, placed),
            Some(make) => {
                ||| call_ensures(make, (tile, &palette[tile as int], at), None) && places(
                    factory,
                    palette,
                    cell as nat,
                    placed,
                )
                ||| placed.len() > 0 && placed.last().0 == at && call_ensures(
                    make,
                    (tile, &palette[tile as int], at),
                    Some(placed.last().1),
                ) && places(factory, palette, cell as nat, placed.drop_last())
            },
        }
    }
}

impl<F: Fn(Tile, &TileType, (usize, usize)) -> Option<Entity>> MapFactory<F> {
    /// There is a tile for every place of the grid, and every tile has its
    /// definition.
    pub open spec fn wf(&self) -> bool {
        &&& self.tiles@.len() == self.width * self.height
        &&& forall|i: int|
            0 <= i < self.tiles@.len() ==> (#[trigger] self.tiles@[i]) < self.tiletypes@.len()
    }

    /// Whether every factory of tile entities takes every tile.
    pub open spec fn factories_take_all(&self) -> bool {
        forall|i: int, tile: Tile, tiletype: &TileType, at: (usize, usize)|
            0 <= i < self.tiletypes@.len() && (#[trigger] self.tiletypes@[i]).tile_entity is Some
                ==> #[trigger] call_requires(
                self.tiletypes@[i].tile_entity->0,
                (tile, tiletype, at),
            )
    }

    /// Create the hardcoded example map: the room of [`example_tile`] for
    /// four players, with a spawn point for each on the row above the
    /// floor, and no tile entities.
    pub fn example() -> (r: MapFactory<F>)
        ensures
            r.width == 100,
            r.height == 100,
            r.nb_players == 4,
            r.tiles@ == Seq::new(10000, |i: int| example_tile(i % 100, i / 100)),
            r.tiletypes@.len() == 4,
            forall|i: int| 0 <= i < 4 ==> is_example_tile_type(#[trigger] r.tiletypes@[i], i),
            r.entities@.len() == 4,
            forall|i: int|
                0 <= i < 4 ==> (#[trigger] r.entities@[i]).type_id@ == SPAWN_TYPE@
                    && r.entities@[i].position == example_spawn(i),
            r.wf(),
            r.factories_take_all(),
    {
        // Initialize with background color
        let mut tiles: Vec<Tile> = vec![1; 100 * 100];
        // Different background for top part
        let mut y: usize = 70;
        while y < 100
            invariant
                70 <= y <= 100,
                tiles@.len() == 10000,
                forall|i: int|
                    0 <= i < 10000 ==> (#[trigger] tiles@[i]) == if 7000 <= i < y * 100 {
                        2u16
                    } else {
                        1u16
                    },
            decreases 100 - y,
        {
            let mut x: usize = 0;
            while x < 100
                invariant
                    x <= 100,
                    70 <= y < 100,
                    tiles@.len() == 10000,
                    forall|i: int|
                        0 <= i < 10000 ==> (#[trigger] tiles@[i]) == if 7000 <= i < y * 100 + x {
                            2u16
                        } else {
                            1u16
                        },
                decreases 100 - x,
            {
                tiles[y * 100 + x] = 2;
                x = x + 1;
            }
            y = y + 1;
        }
        // Walls all around
        let mut i: usize = 0;
        while i < 100
            invariant
                i <= 100,
                tiles@.len() == 10000,
                forall|c: int|
                    0 <= c < 10000 ==> (#[trigger] tiles@[c]) == if (c / 100 == 0 && c % 100 < i)
                        || (c / 100 == 99 && c % 100 < i) || (c % 100 == 0 && c / 100 < i) || (c
                        % 100 == 99 && c / 100 < i) {
                        0u16
                    } else {
                        sky_tile(c % 100, c / 100)
                    },
            decreases 100 - i,
        {
            tiles[0 * 100 + i] = 0;
            tiles[99 * 100 + i] = 0;
            tiles[i * 100 + 0] = 0;
            tiles[i * 100 + 99] = 0;
            i = i + 1;
        }
        // Lava at the bottom
        let mut x: usize = 40;
        while x < 60
            invariant
                40 <= x <= 60,
                tiles@.len() == 10000,
                forall|c: int|
                    0 <= c < 10000 ==> (#[trigger] tiles@[c]) == if 40 <= c < x {
                        3u16
                    } else {
                        walled_tile(c % 100, c / 100)
                    },
            decreases 60 - x,
        {
            tiles[0 * 100 + x] = 3;
            x = x + 1;
        }
        // Blocks above the floor
        let mut k: usize = 0;
        while k < 19
            invariant
                k <= 19,
                tiles@.len() == 10000,
                forall|c: int|
                    0 <= c < 10000 ==> (#[trigger] tiles@[c]) == if c / 100 == 1 && (c % 100) % 5
                        == 2 && c % 100 < 2 + 5 * k {
                        0u16
                    } else {
                        lava_tile(c % 100, c / 100)
                    },
            decreases 19 - k,
        {
            tiles[1 * 100 + 2 + 5 * k] = 0;
            k = k + 1;
        }
        let tiletypes = vec![
            // Wall
            TileTypeDefinition {
                sprite_sheet: "map/castleCenter.png",
                sprite_coords: [0, 0, 256, 256],
                damage: 0,
                collide: true,
                tile_entity: None,
            },
            // Background
            TileTypeDefinition {
                sprite_sheet: "map/bg_castle.png",
                sprite_coords: [0, 0, 256, 256],
                damage: 0,
                collide: false,
                tile_entity: None,
            },
            // Sky
            TileTypeDefinition {
                sprite_sheet: "map/bg.png",
                sprite_coords: [0, 0, 256, 256],
                damage: 0,
                collide: false,
                tile_entity: None,
            },
            // Lava
            TileTypeDefinition {
                sprite_sheet: "map/liquidLava.png",
                sprite_coords: [0, 0, 256, 256],
                damage: 1000,
                collide: false,
                tile_entity: None,
            },
        ];
        let entities = vec![
            EntityDefinition { type_id: SPAWN_TYPE.to_owned(), position: [15000, 1000] },
            EntityDefinition { type_id: SPAWN_TYPE.to_owned(), position: [25000, 1000] },
            EntityDefinition { type_id: SPAWN_TYPE.to_owned(), position: [75000, 1000] },
            EntityDefinition { type_id: SPAWN_TYPE.to_owned(), position: [85000, 1000] },
        ];
        MapFactory { width: 100, height: 100, nb_players: 4, tiletypes, tiles, entities }
    }

    /// Whether `world` is what this definition makes with the sprites of
    /// the tile types on `sheets`: the grid and the tile types as defined,
    /// the entities that are defined, the entities that the tiles'
    /// factories make, and nothing waiting to be spawned.
    pub open spec fn makes<S>(&self, sheets: Seq<SheetId>, world: World<S>) -> bool {
        &&& world.map.width == self.width
        &&& world.map.height == self.height
        &&& world.map.tiles@ == self.tiles@
        &&& world.map.tiletypes@ == palette_of(self.tiletypes@, sheets)
        &&& world.entities@ == all_defined(self.entities@)
        &&& places(*self, world.map.tiletypes@, self.tiles@.len(), world.tile_entities@)
        &&& world.spawnables@.len() == 0
    }

    /// Create a live world from this map definition. The sprite of each
    /// tile type is on the sheet at its place in `sheets`.
    pub fn create<S>(&self, sheets: &Vec<SheetId>, seed: u32) -> (world: World<S>)
        requires
            self.wf(),
            sheets@.len() == self.tiletypes@.len(),
            self.factories_take_all(),
        ensures
            self.makes(sheets@, world),
            world.map.wf(),
    {
        let mut tiletypes: Vec<TileType> = Vec::new();
        let mut k: usize = 0;
        while k < self.tiletypes.len()
            invariant
                k <= self.tiletypes@.len(),
                sheets@.len() == self.tiletypes@.len(),
                tiletypes@.len() == k,
                forall|i: int|
                    0 <= i < k ==> (#[trigger] tiletypes@[i]) == self.tiletypes@[i].defined(
                        sheets@[i],
                    ),
            decreases self.tiletypes@.len() - k,
        {
            let td = &self.tiletypes[k];
            tiletypes.push(
                TileType {
                    sprite: Some(
                        Sprite { sheet: sheets[k], coords: td.sprite_coords, size: [UNIT, UNIT] },
                    ),
                    damage: td.damage,
                    collide: td.collide,
                    tile_entity: td.tile_entity.is_some(),
                },
            );
            k = k + 1;
        }
        assert(tiletypes@ =~= palette_of(self.tiletypes@, sheets@));

        let mut tile_entities: Vec<((usize, usize), Entity)> = Vec::new();
        let tiles = self.tiles.clone();
        let mut cell: usize = 0;
        while cell < tiles.len()
            invariant
                cell <= tiles@.len(),
                tiles@ == self.tiles@,
                self.wf(),
                self.factories_take_all(),
                tiletypes@.len() == self.tiletypes@.len(),
                places(*self, tiletypes@, cell as nat, tile_entities@),
            decreases tiles@.len() - cell,
        {
            let tile = tiles[cell];
            let tiletype = &self.tiletypes[tile as usize];
            assert(self.width > 0) by (nonlinear_arith)
                requires
                    self.width * self.height > 0,
            ;
            let x = cell % self.width;
            let y = cell / self.width;
            let ghost placed_before = tile_entities@;
            if let Some(factory) = &tiletype.tile_entity {
                if let Some(entity) = factory(tile, &tiletypes[tile as usize], (x, y)) {
                    tile_entities.push(((x, y), entity));
                    assert(tile_entities@.drop_last() == placed_before);
                }
            }
            cell = cell + 1;
        }

        let mut entities: Vec<Entity> = Vec::new();
        let mut e: usize = 0;
        while e < self.entities.len()
            invariant
                e <= self.entities@.len(),
                entities@ == all_defined(self.entities@.take(e as int)),
            decreases self.entities@.len() - e,
        {
            assert(self.entities@.take(e + 1).drop_last() == self.entities@.take(e as int));
            if let Some(entity) = self.entities[e].create(seed) {
                entities.push(entity);
            }
            e = e + 1;
        }
        assert(self.entities@.take(e as int) == self.entities@);

        World {
            map: TileMap { width: self.width, height: self.height, tiletypes, tiles },
            entities,
            tile_entities,
            spawnables: Vec::new(),
        }
    }
}

/// The number of the tile at the column and row `at`, counted through
/// the grid row by row.
pub open spec fn cell_of(width: int, at: (usize, usize)) -> int {
    at.1 * width + at.0
}

/// The entities of the tiles are placed in the order of the grid, each at
/// a tile of its own among the first `cells`.
pub proof fn lemma_places_in_order<F: Fn(Tile, &TileType, (usize, usize)) -> Option<Entity>>(
    factory: MapFactory<F>,
    palette: Seq<TileType>,
    cells: nat,
    placed: Seq<((usize, usize), Entity)>,
)
    requires
        factory.width > 0,
        cells <= usize::MAX,
        places(factory, palette, cells, placed),
    ensures
        forall|i: int|
            0 <= i < placed.len() ==> 0 <= #[trigger] cell_of(factory.width as int, placed[i].0)
                < cells,
        forall|i: int, j: int|
            0 <= i < j < placed.len() ==> cell_of(factory.width as int, placed[i].0) < cell_of(
                factory.width as int,
                placed[j].0,
            ),
    decreases cells,
{
    if cells > 0 {
        let cell = (cells - 1) as int;
        let width = factory.width as int;
        let at = ((cell % width) as usize, (cell / width) as usize);
        assert(cell_of(width, at) == cell) by {
            assert(0 <= cell / width <= cell) by (nonlinear_arith)
                requires
                    cell >= 0,
                    width > 0,
            ;
            assert(cell == (cell / width) * width + cell % width) by (nonlinear_arith)
                requires
                    width > 0,
            ;
        }
        if places(factory, palette, cell as nat, placed) {
            lemma_places_in_order(factory, palette, cell as nat, placed);
        } else {
            lemma_places_in_order(factory, palette, cell as nat, placed.drop_last());
            assert forall|i: int| 0 <= i < placed.len() implies 0 <= #[trigger] cell_of(
                width,
                placed[i].0,
            ) < cells by {
                if i < placed.len() - 1 {
                    assert(placed[i] == placed.drop_last()[i]);
                }
            }
            assert forall|i: int, j: int| 0 <= i < j < placed.len() implies cell_of(
                width,
                placed[i].0,
            ) < cell_of(width, placed[j].0) by {
                assert(placed[i] == placed.drop_last()[i]);
                if j < placed.len() - 1 {
                    assert(placed[j] == placed.drop_last()[j]);
                }
            }
        }
    }
}

/// No tile has two entities: the entities that the tiles' factories make
/// for a world stand at different tiles.
pub proof fn lemma_one_entity_per_tile<
    F: Fn(Tile, &TileType, (usize, usize)) -> Option<Entity>,
    S,
>(factory: MapFactory<F>, sheets: Seq<SheetId>, world: World<S>)
    requires
        factory.wf(),
        factory.makes(sheets, world),
    ensures
        forall|i: int, j: int|
            0 <= i < j < world.tile_entities@.len() ==> world.tile_entities@[i].0
                != world.tile_entities@[j].0,
{
    let placed = world.tile_entities@;
    assert(factory.tiles.len() == factory.tiles@.len());
    if factory.width > 0 {
        lemma_places_in_order(factory, world.map.tiletypes@, factory.tiles@.len(), placed);
        assert forall|i: int, j: int| 0 <= i < j < placed.len() implies placed[i].0
            != placed[j].0 by {
            assert(cell_of(factory.width as int, placed[i].0) < cell_of(
                factory.width as int,
                placed[j].0,
            ));
        }
    } else {
        assert(factory.tiles@.len() == 0) by (nonlinear_arith)
            requires
                factory.tiles@.len() == factory.width * factory.height,
                factory.width == 0,
        ;
    }
}

/// Making a world is deterministic: whatever a map definition makes with
/// the same sheets has the same grid, the same tile types and the same
/// entities.
pub proof fn lemma_create_deterministic<
    F: Fn(Tile, &TileType, (usize, usize)) -> Option<Entity>,
    S,
>(factory: MapFactory<F>, sheets: Seq<SheetId>, a: World<S>, b: World<S>)
    requires
        factory.makes(sheets, a),
        factory.makes(sheets, b),
    ensures
        a.map.width == b.map.width,
        a.map.height == b.map.height,
        a.map.tiles@ == b.map.tiles@,
        a.map.tiletypes@ == b.map.tiletypes@,
        a.entities@ == b.entities@,
        a.spawnables@ == b.spawnables@,
{
}

} // verus!
