//! The game itself: the player's character, the spawn that brings it into
//! the world, and the camera that follows it.

use vstd::prelude::*;
use crate::input::InputManager;
use crate::sprites::{SheetId, Sprite};
use crate::tick::ticked_once;
use crate::vecmath::{
    clamp, difference, div_toward_zero, product, quotient, ratio, saturate, scale, sum, vec2_add,
    vec2_scale, widen, Vector2, UNIT,
};
use crate::world::{
    ticks, tile_of, widened, Entity, EntityLogic, EntityPhysics, Logic, MapFactory,
    Scene, Spawnable, Tile, TileMap, TileType, World, WorldView,
};

verus! {

/// Width of a character.
pub const CHAR_W: i64 = 630;

/// Height of a character.
pub const CHAR_H: i64 = 1290;

/// How far beyond its body a character feels for tiles.
pub const MARGIN: i64 = 50;

/// The speed a character runs at on the ground, for a full push of the
/// stick.
pub const RUN_SPEED: i64 = 5000;

/// The upward speed a jump starts with.
pub const JUMP_SPEED: i64 = 5000;

/// The sideways acceleration of a character in the air, for a full push of
/// the stick.
pub const AIR_ACCELERATION: i64 = 20000;

/// The downward acceleration of a character in the air.
pub const GRAVITY: i64 = 10000;

/// A character lands only while it rises no faster than this.
pub const LANDING_SPEED: i64 = 50;

/// The sheet that holds the character's sprite.
pub const CHARACTER_SHEET: &'static str = "alien/green__0000_idle_1.png";

/// The place of the character's sprite in its sheet.
pub const CHARACTER_COORDS: [i32; 4] = [0, 0, 213, 428];

/// A character that a player steers.
#[derive(Clone, Copy, Debug)]
pub struct Character {
    /// The number of the player.
    pub player: usize,
    /// The axis the player last pushed sideways.
    pub dir: i64,
    /// Whether the player last asked for a jump.
    pub jump: bool,
    /// The handle of the sheet named by [`CHARACTER_SHEET`].
    pub sprite_sheet: SheetId,
}

/// 1 for a number that is not negative, -1 for a negative one.
pub open spec fn sign(v: int) -> int {
    if v >= 0 {
        1
    } else {
        -1
    }
}

/// The size of `v`.
pub open spec fn magnitude(v: int) -> int {
    if v >= 0 {
        v
    } else {
        -v
    }
}

/// `v` rounded down to a whole number.
pub open spec fn whole(v: int) -> int {
    tile_of(v) * UNIT
}

/// `dt` milliseconds as a fixed-point number of seconds.
pub open spec fn seconds(dt: u64) -> int {
    clamp(dt as int)
}

/// Whether the tile that the position `(x, y)` falls in stops movement.
pub open spec fn solid(map: TileMap, x: int, y: int) -> bool {
    match map.tile_at(tile_of(x), tile_of(y)) {
        Some(tiletype) => tiletype.collide,
        None => false,
    }
}

/// The height just below the feet of a character.
pub open spec fn feet(p: EntityPhysics) -> int {
    clamp(p.pos[1] - (CHAR_H / 2 + MARGIN))
}

/// Whether a character stands on the ground: it does not rise, and the
/// tile below its feet is solid.
pub open spec fn grounded(map: TileMap, p: EntityPhysics) -> bool {
    p.speed[1] <= LANDING_SPEED && solid(map, p.pos[0] as int, feet(p))
}

/// A character on the ground is put on top of the tile below it, and
/// falls no more.
pub open spec fn landed(map: TileMap, p: EntityPhysics) -> EntityPhysics {
    if grounded(map, p) {
        EntityPhysics {
            pos: [p.pos[0], clamp(whole(feet(p)) + UNIT + CHAR_H / 2) as i64],
            speed: [p.speed[0], 0],
        }
    } else {
        p
    }
}

/// The sideways speed of a character in the air: it gains speed the way
/// the stick is pushed until it is as fast as it would run.
pub open spec fn air_speed(dir: int, speed: int, dt: u64) -> int {
    if speed * sign(dir) < magnitude(dir) * (RUN_SPEED / UNIT) {
        clamp(speed + clamp(product(clamp(dir * (AIR_ACCELERATION / UNIT)), seconds(dt))))
    } else {
        speed
    }
}

/// The speed that the player's wishes and gravity give a character. On
/// the ground it runs as the stick says and jumps if asked; in the air it
/// is steered and falls.
pub open spec fn steered(
    dir: int,
    jump: bool,
    on_ground: bool,
    p: EntityPhysics,
    dt: u64,
) -> EntityPhysics {
    if on_ground {
        EntityPhysics {
            pos: p.pos,
            speed: [
                clamp(dir * (RUN_SPEED / UNIT)) as i64,
                if jump {
                    JUMP_SPEED
                } else {
                    p.speed[1]
                },
            ],
        }
    } else {
        EntityPhysics {
            pos: p.pos,
            speed: [
                air_speed(dir, p.speed[0] as int, dt) as i64,
                clamp(p.speed[1] + clamp(product(-GRAVITY, seconds(dt)))) as i64,
            ],
        }
    }
}

/// The place just beyond the side of a character that it moves towards.
pub open spec fn side(p: EntityPhysics) -> int {
    clamp(p.pos[0] + (CHAR_W / 2 + MARGIN) * sign(p.speed[0] as int))
}

/// Whether a character runs into a wall: the tile beyond its side is
/// solid at the height of its head or of its feet.
pub open spec fn hits_wall(map: TileMap, p: EntityPhysics) -> bool {
    ||| solid(map, side(p), clamp(p.pos[1] + (CHAR_H / 2 - MARGIN)))
    ||| solid(map, side(p), clamp(p.pos[1] - (CHAR_H / 2 - MARGIN)))
}

/// A character that runs into a wall stops beside it.
pub open spec fn stopped(map: TileMap, p: EntityPhysics) -> EntityPhysics {
    if hits_wall(map, p) {
        EntityPhysics {
            pos: [
                clamp(whole(side(p)) - sign(p.speed[0] as int) * (CHAR_W / 2 + UNIT / 2) + UNIT / 2)
                    as i64,
                p.pos[1],
            ],
            speed: [0, p.speed[1]],
        }
    } else {
        p
    }
}

/// Where a body is after moving at its speed for `dt`.
pub open spec fn moved(p: EntityPhysics, dt: u64) -> EntityPhysics {
    EntityPhysics {
        pos: [
            clamp(p.pos[0] + clamp(product(p.speed[0] as int, seconds(dt)))) as i64,
            clamp(p.pos[1] + clamp(product(p.speed[1] as int, seconds(dt)))) as i64,
        ],
        speed: p.speed,
    }
}

/// The body of a character after an update of `dt`: it lands if it stands
/// on the ground, takes the speed that `dir`, `jump` and gravity give it,
/// stops at a wall, and moves.
pub open spec fn character_moves(
    map: TileMap,
    dir: int,
    jump: bool,
    p: EntityPhysics,
    dt: u64,
) -> EntityPhysics {
    moved(stopped(map, steered(dir, jump, grounded(map, p), landed(map, p), dt)), dt)
}

/// `dt` milliseconds as a fixed-point number of seconds.
pub fn as_seconds(dt: u64) -> (r: i64)
    ensures
        r == seconds(dt),
{
    if dt > i64::MAX as u64 {
        i64::MAX
    } else {
        dt as i64
    }
}

/// `v` rounded down to a whole number, before it is narrowed.
pub fn floor_whole(v: i64) -> (r: i128)
    ensures
        r == whole(v as int),
{
    let wide = widen(v);
    if wide >= 0 {
        (wide / widen(UNIT)) * widen(UNIT)
    } else {
        -(((widen(UNIT - 1) - wide) / widen(UNIT)) * widen(UNIT))
    }
}

/// Whether the tile that the position `(x, y)` falls in stops movement.
pub fn is_solid(map: &TileMap, x: i64, y: i64) -> (r: bool)
    requires
        map.wf(),
    ensures
        r == solid(*map, x as int, y as int),
{
    match map.tilef(x, y) {
        Some(tiletype) => tiletype.collide,
        None => false,
    }
}

/// Whether a character stands on the ground.
pub fn is_grounded(map: &TileMap, p: &EntityPhysics) -> (r: bool)
    requires
        map.wf(),
    ensures
        r == grounded(*map, *p),
{
    p.speed[1] <= LANDING_SPEED && is_solid(
        map,
        p.pos[0],
        difference(p.pos[1], CHAR_H / 2 + MARGIN),
    )
}

/// Puts a character that stands on the ground on top of the tile below
/// it.
pub fn land(map: &TileMap, p: &EntityPhysics) -> (r: EntityPhysics)
    requires
        map.wf(),
    ensures
        r == landed(*map, *p),
{
    if is_grounded(map, p) {
        let below = difference(p.pos[1], CHAR_H / 2 + MARGIN);
        let top = saturate(floor_whole(below) + widen(UNIT) + widen(CHAR_H / 2));
        let r = EntityPhysics { pos: [p.pos[0], top], speed: [p.speed[0], 0] };
        r
    } else {
        *p
    }
}

/// The sideways speed of a character in the air.
pub fn steer_in_air(dir: i64, speed: i64, dt: u64) -> (r: i64)
    ensures
        r == air_speed(dir as int, speed as int, dt),
{
    let towards: i128 = if dir >= 0 {
        widen(speed)
    } else {
        -widen(speed)
    };
    let push: i128 = if dir >= 0 {
        widen(dir)
    } else {
        -widen(dir)
    };
    let run: i128 = widen(RUN_SPEED / UNIT);
    let push_in_air: i128 = widen(AIR_ACCELERATION / UNIT);
    if towards < push * run {
        let acceleration = saturate(widen(dir) * push_in_air);
        sum(speed, scale(acceleration, as_seconds(dt)))
    } else {
        speed
    }
}

/// Gives a character the speed that the player's wishes and gravity give
/// it.
pub fn steer(dir: i64, jump: bool, on_ground: bool, p: &EntityPhysics, dt: u64) -> (r:
    EntityPhysics)
    ensures
        r == steered(dir as int, jump, on_ground, *p, dt),
{
    let run: i128 = widen(RUN_SPEED / UNIT);
    let r = if on_ground {
        EntityPhysics {
            pos: p.pos,
            speed: [
                saturate(widen(dir) * run),
                if jump {
                    JUMP_SPEED
                } else {
                    p.speed[1]
                },
            ],
        }
    } else {
        EntityPhysics {
            pos: p.pos,
            speed: [
                steer_in_air(dir, p.speed[0], dt),
                sum(p.speed[1], scale(-GRAVITY, as_seconds(dt))),
            ],
        }
    };
    r
}

/// Stops a character that runs into a wall beside the wall.
pub fn stop_at_wall(map: &TileMap, p: &EntityPhysics) -> (r: EntityPhysics)
    requires
        map.wf(),
    ensures
        r == stopped(*map, *p),
{
    let facing: i128 = if p.speed[0] >= 0 {
        1
    } else {
        -1
    };
    let beyond = saturate(widen(p.pos[0]) + widen(CHAR_W / 2 + MARGIN) * facing);
    if is_solid(map, beyond, sum(p.pos[1], CHAR_H / 2 - MARGIN)) || is_solid(
        map,
        beyond,
        difference(p.pos[1], CHAR_H / 2 - MARGIN),
    ) {
        let beside = saturate(
            floor_whole(beyond) - facing * widen(CHAR_W / 2 + UNIT / 2) + widen(UNIT / 2),
        );
        let r = EntityPhysics { pos: [beside, p.pos[1]], speed: [0, p.speed[1]] };
        r
    } else {
        *p
    }
}

/// Moves a body at its speed for `dt`.
pub fn advance(p: &EntityPhysics, dt: u64) -> (r: EntityPhysics)
    ensures
        r == moved(*p, dt),
{
    let r = EntityPhysics {
        pos: vec2_add(p.pos, vec2_scale(p.speed, as_seconds(dt))),
        speed: p.speed,
    };
    assert(r.pos == moved(*p, dt).pos);
    r
}

impl Character {
    /// The character of player number `player`, whose sprite is on the
    /// sheet `sprite_sheet`.
    pub fn new(player: usize, sprite_sheet: SheetId) -> (r: Character)
        ensures
            r == (Character { player, dir: 0, jump: false, sprite_sheet }),
    {
        Character { player, dir: 0, jump: false, sprite_sheet }
    }

    /// How the character looks.
    pub open spec fn look(&self) -> Sprite {
        Sprite { sheet: self.sprite_sheet, coords: CHARACTER_COORDS, size: [CHAR_W, CHAR_H] }
    }

    /// The character after it has read the first player's controls, where
    /// there is a first player.
    pub open spec fn listening(&self, input: InputManager) -> Character {
        if input.players().len() > 0 {
            Character {
                dir: input.players()[0].x_axis() as i64,
                jump: input.players()[0].wants_jump(),
                ..*self
            }
        } else {
            *self
        }
    }
}

impl<S: Spawnable> EntityLogic<S> for Character {
    /// A character asks the camera to keep the place where it stands in
    /// view, reads the controls, moves as [`character_moves`] says, and
    /// shows its sprite. It changes nothing else and lives on.
    open spec fn may_update(
        &self,
        physics: EntityPhysics,
        sprite: Option<Sprite>,
        scene: Scene<S>,
        dt: u64,
        input: InputManager,
        after: (Self, EntityPhysics, Option<Sprite>),
        scene_after: Scene<S>,
        keep: bool,
    ) -> bool {
        let heard = self.listening(input);
        &&& keep
        &&& after.0 == heard
        &&& after.1 == character_moves(scene.map, heard.dir as int, heard.jump, physics, dt)
        &&& after.2 == Some(heard.look())
        &&& scene_after == (Scene { focus: Some(widened(scene.focus, physics.pos)), ..scene })
    }

    fn update(
        &mut self,
        entity: &mut EntityPhysics,
        dt: u64,
        world: &mut WorldView<'_, S>,
        input: &InputManager,
        sprite: &mut Option<Sprite>,
    ) -> (keep: bool) {
        // Characters should be in focus
        world.focus(&entity.pos);

        // Read input
        if let Some(i) = input.player_input(0) {
            self.dir = i.x();
            self.jump = i.jump();
        }
        // Movements

        let on_ground = is_grounded(world.map, entity);
        let on_top = land(world.map, entity);
        let steering = steer(self.dir, self.jump, on_ground, &on_top, dt);
        let beside = stop_at_wall(world.map, &steering);
        *entity = advance(&beside, dt);

        // Set sprite
        *sprite = Some(
            Sprite { sheet: self.sprite_sheet, coords: CHARACTER_COORDS, size: [CHAR_W, CHAR_H] },
        );

        true
    }
}

/// A spawn that hands over a logic made beforehand, once.
#[derive(Debug)]
pub struct SimpleSpawn {
    /// The logic of the entity to come, while it has not come.
    pub entity_logic: Option<Logic>,
}

impl SimpleSpawn {
    /// A spawn that will make an entity with `entity_logic`.
    pub fn new(entity_logic: Logic) -> (r: SimpleSpawn)
        ensures
            r == (SimpleSpawn { entity_logic: Some(entity_logic) }),
    {
        SimpleSpawn { entity_logic: Some(entity_logic) }
    }
}

impl Spawnable for SimpleSpawn {
    /// The spawn makes the entity with its logic, at rest at `pos` and
    /// without a sprite, if it still has the logic; it is spent then, and
    /// never stays queued.
    open spec fn may_spawn(
        &self,
        pos: Vector2,
        after: Self,
        keep: bool,
        produced: Option<Entity>,
    ) -> bool {
        &&& !keep
        &&& after.entity_logic is None
        &&& produced == match self.entity_logic {
            Some(logic) => Some(
                Entity { physics: EntityPhysics { pos, speed: [0, 0] }, logic, sprite: None },
            ),
            None => None,
        }
    }

    fn spawn(&mut self, pos: &Vector2) -> (r: (bool, Option<Entity>)) {
        let produced = match self.entity_logic.take() {
            Some(entity_logic) => Some(
                Entity {
                    physics: EntityPhysics { pos: *pos, speed: [0, 0] },
                    logic: entity_logic,
                    sprite: None,
                },
            ),
            None => None,
        };
        (false, produced)
    }
}

/// How far the camera looks beyond the box in focus, to the left and to
/// the right.
pub const CAMERA_MARGIN_X: i64 = 5000;

/// How far the camera looks beyond the box in focus, up and down.
pub const CAMERA_MARGIN_Y: i64 = 5000;

/// What a camera holds.
pub struct CameraState {
    /// Height of the window over its width.
    pub aspect_ratio: i64,
    /// The lower left corner of what is seen.
    pub pos: Vector2,
    /// The width of what is seen.
    pub size: i64,
    /// How much of the way to its goal the camera goes in one update,
    /// between 0 and 1.
    pub update_rate: i64,
}

/// The lower left corner of what should be seen of the box `focus`: the
/// corner of the box, and the margins beyond.
pub open spec fn framed_low(focus: (Vector2, Vector2)) -> Vector2 {
    [
        clamp(focus.0[0] - CAMERA_MARGIN_X) as i64,
        clamp(focus.0[1] - CAMERA_MARGIN_Y) as i64,
    ]
}

/// The upper right corner of what should be seen of the box `focus`.
pub open spec fn framed_high(focus: (Vector2, Vector2)) -> Vector2 {
    [
        clamp(focus.1[0] + CAMERA_MARGIN_X) as i64,
        clamp(focus.1[1] + CAMERA_MARGIN_Y) as i64,
    ]
}

/// The width a camera should see to hold the box `focus` with its
/// margins: the width of that, or the width of a window that has its
/// height, whichever is larger.
pub open spec fn desired_size(focus: (Vector2, Vector2), aspect_ratio: int) -> int
    recommends
        aspect_ratio > 0,
{
    let low = framed_low(focus);
    let high = framed_high(focus);
    let wide = clamp(high[0] - low[0]);
    let tall = clamp(quotient(clamp(high[1] - low[1]), aspect_ratio));
    if wide >= tall {
        wide
    } else {
        tall
    }
}

/// The corner a camera should look from to have the box `focus` in the
/// middle of what it sees.
pub open spec fn desired_pos(focus: (Vector2, Vector2), aspect_ratio: int) -> Vector2
    recommends
        aspect_ratio > 0,
{
    let low = framed_low(focus);
    let high = framed_high(focus);
    let size = desired_size(focus, aspect_ratio);
    [
        clamp(div_toward_zero(low[0] + high[0] - size, 2)) as i64,
        clamp(div_toward_zero(low[1] + high[1] - clamp(product(size, aspect_ratio)), 2)) as i64,
    ]
}

/// Where a value that eases from `old` towards `goal` is after one step
/// at `rate`: `old * (1 - rate) + goal * rate`, with the step rounded away
/// from zero, so that a value that is not at its goal always moves.
pub open spec fn eased(old: int, goal: int, rate: int) -> int {
    if goal >= old {
        old + ((goal - old) * rate + (UNIT - 1)) / (UNIT as int)
    } else {
        old - ((old - goal) * rate + (UNIT - 1)) / (UNIT as int)
    }
}

/// The camera after an update with `focus`. With nothing in focus it
/// stays as it is; else its corner and its width ease towards what they
/// should be for the box in focus.
pub open spec fn follows(camera: CameraState, focus: Option<(Vector2, Vector2)>) -> CameraState {
    match focus {
        None => camera,
        Some(focus) => {
            let goal = desired_pos(focus, camera.aspect_ratio as int);
            CameraState {
                pos: [
                    eased(camera.pos[0] as int, goal[0] as int, camera.update_rate as int) as i64,
                    eased(camera.pos[1] as int, goal[1] as int, camera.update_rate as int) as i64,
                ],
                size: eased(
                    camera.size as int,
                    desired_size(focus, camera.aspect_ratio as int),
                    camera.update_rate as int,
                ) as i64,
                ..camera
            }
        },
    }
}

/// A value that eases towards its goal at a rate between 0 and 1 never
/// goes past the goal, and never goes back.
pub proof fn lemma_eased_between(old: int, goal: int, rate: int)
    requires
        0 <= rate <= UNIT,
    ensures
        old <= goal ==> old <= eased(old, goal, rate) <= goal,
        old >= goal ==> goal <= eased(old, goal, rate) <= old,
{
    if goal >= old {
        let gap = goal - old;
        assert(0 <= gap * rate <= gap * UNIT) by (nonlinear_arith)
            requires
                0 <= rate <= UNIT,
                gap >= 0,
        ;
        assert(0 <= (gap * rate + (UNIT - 1)) / (UNIT as int) <= gap) by (nonlinear_arith)
            requires
                0 <= gap * rate <= gap * UNIT,
                UNIT == 1000,
        ;
    } else {
        let gap = old - goal;
        assert(0 <= gap * rate <= gap * UNIT) by (nonlinear_arith)
            requires
                0 <= rate <= UNIT,
                gap >= 0,
        ;
        assert(0 <= (gap * rate + (UNIT - 1)) / (UNIT as int) <= gap) by (nonlinear_arith)
            requires
                0 <= gap * rate <= gap * UNIT,
                UNIT == 1000,
        ;
    }
}

/// A value that is not at its goal, and eases towards it at a rate above
/// 0, moves.
pub proof fn lemma_eased_moves(old: int, goal: int, rate: int)
    requires
        0 < rate <= UNIT,
        old != goal,
    ensures
        eased(old, goal, rate) != old,
{
    if goal >= old {
        let gap = goal - old;
        assert(gap * rate >= 1) by (nonlinear_arith)
            requires
                rate >= 1,
                gap >= 1,
        ;
        assert((gap * rate + (UNIT - 1)) / (UNIT as int) >= 1) by (nonlinear_arith)
            requires
                gap * rate >= 1,
                UNIT == 1000,
        ;
    } else {
        let gap = old - goal;
        assert(gap * rate >= 1) by (nonlinear_arith)
            requires
                rate >= 1,
                gap >= 1,
        ;
        assert((gap * rate + (UNIT - 1)) / (UNIT as int) >= 1) by (nonlinear_arith)
            requires
                gap * rate >= 1,
                UNIT == 1000,
        ;
    }
}

/// Whether `after` lies on the way from `old` to `goal`, ends included.
pub open spec fn on_the_way(old: int, after: int, goal: int) -> bool {
    (old <= after <= goal) || (goal <= after <= old)
}

/// A camera with nothing in focus stays as it is. A camera with a box in
/// focus moves its corner and its width towards what they should be for
/// the box, never past it, and, at a rate above 0, each of them that is
/// not there yet does move.
pub proof fn lemma_camera_follows(camera: CameraState, focus: Option<(Vector2, Vector2)>)
    requires
        camera.aspect_ratio > 0,
        0 <= camera.update_rate <= UNIT,
    ensures
        focus is None ==> follows(camera, focus) == camera,
        focus matches Some(focus_box) ==> {
            let after = follows(camera, focus);
            let goal = desired_pos(focus_box, camera.aspect_ratio as int);
            let goal_size = desired_size(focus_box, camera.aspect_ratio as int);
            &&& on_the_way(camera.pos[0] as int, after.pos[0] as int, goal[0] as int)
            &&& on_the_way(camera.pos[1] as int, after.pos[1] as int, goal[1] as int)
            &&& on_the_way(camera.size as int, after.size as int, goal_size)
            &&& camera.update_rate > 0 ==> {
                &&& camera.pos[0] != goal[0] ==> after.pos[0] != camera.pos[0]
                &&& camera.pos[1] != goal[1] ==> after.pos[1] != camera.pos[1]
                &&& camera.size != goal_size ==> after.size != camera.size
            }
        },
{
    if let Some(focus_box) = focus {
        let rate = camera.update_rate as int;
        let goal = desired_pos(focus_box, camera.aspect_ratio as int);
        let goal_size = desired_size(focus_box, camera.aspect_ratio as int);
        lemma_eased_between(camera.pos[0] as int, goal[0] as int, rate);
        lemma_eased_between(camera.pos[1] as int, goal[1] as int, rate);
        lemma_eased_between(camera.size as int, goal_size, rate);
        if rate > 0 {
            if camera.pos[0] != goal[0] {
                lemma_eased_moves(camera.pos[0] as int, goal[0] as int, rate);
            }
            if camera.pos[1] != goal[1] {
                lemma_eased_moves(camera.pos[1] as int, goal[1] as int, rate);
            }
            if camera.size != goal_size {
                lemma_eased_moves(camera.size as int, goal_size, rate);
            }
        }
    }
}

/// Where one entity alone asks for focus, at `p`, the box in focus is the
/// point `p`, and what should be seen is that point with the margins on
/// every side.
pub proof fn lemma_focus_on_one(p: Vector2)
    ensures
        widened(None, p) == (p, p),
        framed_low(widened(None, p))[0] == clamp(p[0] - CAMERA_MARGIN_X),
        framed_low(widened(None, p))[1] == clamp(p[1] - CAMERA_MARGIN_Y),
        framed_high(widened(None, p))[0] == clamp(p[0] + CAMERA_MARGIN_X),
        framed_high(widened(None, p))[1] == clamp(p[1] + CAMERA_MARGIN_Y),
{
}

/// One step of easing from `old` towards `goal`.
pub fn ease(old: i64, goal: i64, rate: i64) -> (r: i64)
    requires
        0 <= rate <= UNIT,
    ensures
        r == eased(old as int, goal as int, rate as int),
{
    proof {
        lemma_eased_between(old as int, goal as int, rate as int);
    }
    if goal >= old {
        let gap: i128 = widen(goal) - widen(old);
        assert(0 <= gap * rate <= gap * 1000) by (nonlinear_arith)
            requires
                0 <= rate <= 1000,
                gap >= 0,
        ;
        saturate(widen(old) + (gap * widen(rate) + 999) / 1000)
    } else {
        let gap: i128 = widen(old) - widen(goal);
        assert(0 <= gap * rate <= gap * 1000) by (nonlinear_arith)
            requires
                0 <= rate <= 1000,
                gap >= 0,
        ;
        saturate(widen(old) - (gap * widen(rate) + 999) / 1000)
    }
}

/// The width a camera should see to hold the box `focus`.
pub fn size_for(focus: &(Vector2, Vector2), aspect_ratio: i64) -> (r: i64)
    requires
        aspect_ratio > 0,
    ensures
        r == desired_size(*focus, aspect_ratio as int),
{
    let low_x = difference(focus.0[0], CAMERA_MARGIN_X);
    let low_y = difference(focus.0[1], CAMERA_MARGIN_Y);
    let high_x = sum(focus.1[0], CAMERA_MARGIN_X);
    let high_y = sum(focus.1[1], CAMERA_MARGIN_Y);
    let wide = difference(high_x, low_x);
    let tall = ratio(difference(high_y, low_y), aspect_ratio);
    if wide >= tall {
        wide
    } else {
        tall
    }
}

/// The corner a camera should look from to have the box `focus` in the
/// middle.
pub fn pos_for(focus: &(Vector2, Vector2), aspect_ratio: i64) -> (r: Vector2)
    requires
        aspect_ratio > 0,
    ensures
        r == desired_pos(*focus, aspect_ratio as int),
{
    let low_x = difference(focus.0[0], CAMERA_MARGIN_X);
    let low_y = difference(focus.0[1], CAMERA_MARGIN_Y);
    let high_x = sum(focus.1[0], CAMERA_MARGIN_X);
    let high_y = sum(focus.1[1], CAMERA_MARGIN_Y);
    let size = size_for(focus, aspect_ratio);
    let r = [
        saturate((widen(low_x) + widen(high_x) - widen(size)) / 2),
        saturate((widen(low_y) + widen(high_y) - widen(scale(size, aspect_ratio))) / 2),
    ];
    r
}

/// The camera: which part of the world is seen.
#[derive(Debug)]
pub struct Camera {
    aspect_ratio: i64,
    pos: Vector2,
    size: i64,
    update_rate: i64,
}

impl Camera {
    #[verifier::type_invariant]
    spec fn in_bounds(&self) -> bool {
        &&& self.aspect_ratio > 0
        &&& 0 <= self.update_rate <= UNIT
    }

    /// What the camera holds.
    pub closed spec fn view(&self) -> CameraState {
        CameraState {
            aspect_ratio: self.aspect_ratio,
            pos: self.pos,
            size: self.size,
            update_rate: self.update_rate,
        }
    }

    /// A camera, unless the aspect ratio is not above 0 or the update
    /// rate is not between 0 and 1.
    pub fn new(aspect_ratio: i64, pos: Vector2, size: i64, update_rate: i64) -> (r: Option<Camera>)
        ensures
            r is Some <==> aspect_ratio > 0 && 0 <= update_rate <= UNIT,
            r matches Some(camera) ==> camera@ == (CameraState {
                aspect_ratio,
                pos,
                size,
                update_rate,
            }),
    {
        if aspect_ratio > 0 && 0 <= update_rate && update_rate <= UNIT {
            Some(Camera { aspect_ratio, pos, size, update_rate })
        } else {
            None
        }
    }

    /// Height of the window over its width.
    pub fn aspect_ratio(&self) -> (r: i64)
        ensures
            r == self@.aspect_ratio,
            r > 0,
    {
        proof {
            use_type_invariant(self);
        }
        self.aspect_ratio
    }

    /// The lower left corner of what is seen.
    pub fn pos(&self) -> (r: Vector2)
        ensures
            r == self@.pos,
    {
        self.pos
    }

    /// The width of what is seen.
    pub fn size(&self) -> (r: i64)
        ensures
            r == self@.size,
    {
        self.size
    }

    /// How much of the way to its goal the camera goes in one update.
    pub fn update_rate(&self) -> (r: i64)
        ensures
            r == self@.update_rate,
            0 <= r <= UNIT,
    {
        proof {
            use_type_invariant(self);
        }
        self.update_rate
    }

    /// Sets how much of the way to its goal the camera goes in one
    /// update. A rate that is not between 0 and 1 is not taken; the answer
    /// says whether the rate was.
    pub fn set_update_rate(&mut self, update_rate: i64) -> (taken: bool)
        ensures
            taken == (0 <= update_rate <= UNIT),
            final(self)@ == if taken {
                CameraState { update_rate, ..old(self)@ }
            } else {
                old(self)@
            },
    {
        proof {
            use_type_invariant(&*self);
        }
        if 0 <= update_rate && update_rate <= UNIT {
            self.update_rate = update_rate;
            true
        } else {
            false
        }
    }

    /// Turns the camera towards the box that the entities asked to be
    /// kept in view; with no box it stays as it is.
    pub fn update(&mut self, focus: Option<(Vector2, Vector2)>)
        ensures
            final(self)@ == follows(old(self)@, focus),
    {
        proof {
            use_type_invariant(&*self);
        }
        if let Some(focus) = focus {
            // Compute desired camera position
            let size = size_for(&focus, self.aspect_ratio);
            let pos = pos_for(&focus, self.aspect_ratio);

            // Update current camera position according to update rate
            let eased_pos = [
                ease(self.pos[0], pos[0], self.update_rate),
                ease(self.pos[1], pos[1], self.update_rate),
            ];
            self.pos = eased_pos;
            self.size = ease(self.size, size, self.update_rate);
        }
    }
}

/// The tiles to draw: the columns from `x1` up to `x2` and the rows from
/// `y1` up to `y2`, the upper ends left out.
#[derive(Clone, Copy, Debug)]
pub struct TileRange {
    pub x1: i32,
    pub y1: i32,
    pub x2: i32,
    pub y2: i32,
}

/// The whole part of the fixed-point number `v`, held within 32 bits.
pub open spec fn whole_part(v: int) -> int {
    let whole = div_toward_zero(v, UNIT as int);
    if whole < i32::MIN {
        i32::MIN as int
    } else if whole > i32::MAX {
        i32::MAX as int
    } else {
        whole
    }
}

/// The first column or row to draw for a camera whose corner is at `pos`
/// along that axis: the one before the corner, but none before the first.
pub open spec fn first_seen(pos: int) -> int {
    if whole_part(pos) - 1 > 0 {
        whole_part(pos) - 1
    } else {
        0
    }
}

/// The end of the columns or rows to draw for a camera that sees `extent`
/// from `pos` along that axis, where the map has `count` of them: one
/// beyond what is seen, but none beyond the last.
pub open spec fn end_seen(pos: int, extent: int, count: int) -> int {
    let beyond = whole_part(clamp(clamp(pos + extent) + UNIT));
    if beyond < count {
        beyond
    } else if count > i32::MAX {
        i32::MAX as int
    } else {
        count
    }
}

/// The tiles that a camera sees of a map.
pub open spec fn seen(camera: CameraState, map: TileMap) -> TileRange {
    TileRange {
        x1: first_seen(camera.pos[0] as int) as i32,
        y1: first_seen(camera.pos[1] as int) as i32,
        x2: end_seen(camera.pos[0] as int, camera.size as int, map.width as int) as i32,
        y2: end_seen(
            camera.pos[1] as int,
            clamp(product(camera.size as int, camera.aspect_ratio as int)),
            map.height as int,
        ) as i32,
    }
}

/// Where the sprite of the tile at column `x` of row `y` is drawn: left
/// edge, upper edge, width, and height counted downwards. The sprite is in
/// the middle of the tile.
pub open spec fn tile_frame(x: i32, y: i32, size: Vector2) -> [i64; 4] {
    [
        clamp(x * UNIT + UNIT / 2 - div_toward_zero(size[0] as int, 2)) as i64,
        clamp(y * UNIT + UNIT / 2 + div_toward_zero(size[1] as int, 2)) as i64,
        size[0],
        clamp(-size[1]) as i64,
    ]
}

/// Where the sprite of an entity at `pos` is drawn: left edge, upper edge,
/// width, and height counted downwards. The sprite is in the middle of the
/// entity.
pub open spec fn entity_frame(pos: Vector2, size: Vector2) -> [i64; 4] {
    [
        clamp(pos[0] - div_toward_zero(size[0] as int, 2)) as i64,
        clamp(pos[1] + div_toward_zero(size[1] as int, 2)) as i64,
        size[0],
        clamp(-size[1]) as i64,
    ]
}

/// The whole part of the fixed-point number `v`, held within 32 bits.
pub fn to_whole(v: i64) -> (r: i32)
    ensures
        r == whole_part(v as int),
{
    let whole = v / UNIT;
    if whole < i32::MIN as i64 {
        i32::MIN
    } else if whole > i32::MAX as i64 {
        i32::MAX
    } else {
        whole as i32
    }
}

/// The first column or row to draw.
pub fn first_to_draw(pos: i64) -> (r: i32)
    ensures
        r == first_seen(pos as int),
        r >= 0,
{
    let whole = to_whole(pos);
    if whole > 1 {
        whole - 1
    } else {
        0
    }
}

/// The end of the columns or rows to draw.
pub fn end_to_draw(pos: i64, extent: i64, count: usize) -> (r: i32)
    ensures
        r == end_seen(pos as int, extent as int, count as int),
        r <= count,
{
    let beyond = to_whole(sum(sum(pos, extent), UNIT));
    if beyond < 0 || (beyond as u64) < count as u64 {
        beyond
    } else if count as u64 > i32::MAX as u64 {
        i32::MAX
    } else {
        count as i32
    }
}

/// Where the sprite of the tile at column `x` of row `y` is drawn.
pub fn tile_rect(x: i32, y: i32, size: Vector2) -> (r: [i64; 4])
    ensures
        r == tile_frame(x, y, size),
{
    let r = [
        saturate(widen(x as i64) * 1000 + 500 - widen(size[0]) / 2),
        saturate(widen(y as i64) * 1000 + 500 + widen(size[1]) / 2),
        size[0],
        saturate(-widen(size[1])),
    ];
    r
}

/// Where the sprite of an entity at `pos` is drawn.
pub fn entity_rect(pos: Vector2, size: Vector2) -> (r: [i64; 4])
    ensures
        r == entity_frame(pos, size),
{
    let r = [
        saturate(widen(pos[0]) - widen(size[0]) / 2),
        saturate(widen(pos[1]) + widen(size[1]) / 2),
        size[0],
        saturate(-widen(size[1])),
    ];
    r
}

impl Camera {
    /// The tiles to draw: those that the camera sees, and one more on
    /// every side, as far as the map has them. Every place in the range is
    /// a place of the map.
    pub fn visible_tiles(&self, map: &TileMap) -> (r: TileRange)
        ensures
            r == seen(self@, *map),
            0 <= r.x1,
            0 <= r.y1,
            r.x2 <= map.width,
            r.y2 <= map.height,
            map.wf() ==> forall|x: int, y: int|
                r.x1 <= x < r.x2 && r.y1 <= y < r.y2 ==> (#[trigger] map.tile_at(x, y)) is Some,
    {
        TileRange {
            x1: first_to_draw(self.pos[0]),
            y1: first_to_draw(self.pos[1]),
            x2: end_to_draw(self.pos[0], self.size, map.width),
            y2: end_to_draw(self.pos[1], scale(self.size, self.aspect_ratio), map.height),
        }
    }
}

/// The width that a new game's camera sees before its first update.
pub const INITIAL_CAMERA_SIZE: i64 = 10000;

/// The rate at which the camera of a running game follows the focus.
pub const CAMERA_UPDATE_RATE: i64 = 100;

/// The seed that a new game makes its world with.
pub const WORLD_SEED: u32 = 42;

/// A game in progress: the world and the camera that looks at it.
#[derive(Debug)]
pub struct Game {
    pub world: World<SimpleSpawn>,
    pub camera: Camera,
}

impl Game {
    /// A world as `map_factory` makes it, with the first player's
    /// character waiting to be spawned.
    pub open spec fn set_up<F: Fn(Tile, &TileType, (usize, usize)) -> Option<Entity>>(
        map_factory: MapFactory<F>,
        sheets: Seq<SheetId>,
        character_sheet: SheetId,
        world: World<SimpleSpawn>,
    ) -> bool {
        exists|made: World<SimpleSpawn>|
            {
                &&& #[trigger] map_factory.makes(sheets, made)
                &&& made.map.wf()
                &&& world.map == made.map
                &&& world.entities@ == made.entities@
                &&& world.tile_entities == made.tile_entities
                &&& world.spawnables@ == seq![
                    SimpleSpawn {
                        entity_logic: Some(
                            Logic::Character(
                                Character {
                                    player: 0,
                                    dir: 0,
                                    jump: false,
                                    sprite_sheet: character_sheet,
                                },
                            ),
                        ),
                    },
                ]
            }
    }

    /// A new game on the map that `map_factory` defines, seen through a
    /// window whose height over its width is `aspect_ratio`.
    ///
    /// The world is made, the first player's character is queued to be
    /// spawned, and one tick of no time passes, in which the character
    /// comes into the world at a spawn point and the camera goes all the
    /// way to it. From then on the camera follows at
    /// [`CAMERA_UPDATE_RATE`].
    pub fn new<F: Fn(Tile, &TileType, (usize, usize)) -> Option<Entity>>(
        map_factory: MapFactory<F>,
        sheets: &Vec<SheetId>,
        character_sheet: SheetId,
        aspect_ratio: i64,
        input: &InputManager,
    ) -> (game: Game)
        requires
            map_factory.nb_players >= 1,
            map_factory.wf(),
            sheets@.len() == map_factory.tiletypes@.len(),
            map_factory.factories_take_all(),
            aspect_ratio > 0,
        ensures
            game.world.map.wf(),
            (exists|world: World<SimpleSpawn>, focus: Option<(Vector2, Vector2)>, polled: bool|
                {
                    &&& #[trigger] Game::set_up(map_factory, sheets@, character_sheet, world)
                    &&& #[trigger] ticks(
                        world.scene(None, false),
                        0,
                        *input,
                        game.world.scene(focus, polled),
                    )
                    &&& ticked_once(
                        world.scene(None, false),
                        0,
                        *input,
                        game.world.scene(focus, polled),
                    )
                    &&& game.world.tile_entities == world.tile_entities
                    &&& game.camera@ == (CameraState {
                        update_rate: CAMERA_UPDATE_RATE,
                        ..follows(
                            CameraState {
                                aspect_ratio,
                                pos: [0, 0],
                                size: INITIAL_CAMERA_SIZE,
                                update_rate: UNIT,
                            },
                            focus,
                        )
                    })
                }),
    {
        let mut world: World<SimpleSpawn> = map_factory.create(sheets, WORLD_SEED);

        let character = Character::new(0, character_sheet);
        world.spawnables.push(SimpleSpawn::new(Logic::Character(character)));
        let ghost ready = world;
        assert(ready.spawnables@ =~= seq![
            SimpleSpawn {
                entity_logic: Some(
                    Logic::Character(
                        Character { player: 0, dir: 0, jump: false, sprite_sheet: character_sheet },
                    ),
                ),
            },
        ]);
        assert(Game::set_up(map_factory, sheets@, character_sheet, ready));

        let camera = Camera {
            aspect_ratio,
            pos: [0, 0],
            size: INITIAL_CAMERA_SIZE,
            update_rate: UNIT,
        };
        let mut game = Game { world, camera };

        // Initial update: spawns characters, set camera, ...
        let focus = game.world.update(0, input);
        game.camera.update(focus);

        let _taken = game.camera.set_update_rate(CAMERA_UPDATE_RATE);

        game
    }

    /// Lets `dt` pass: every entity has its update, and the camera turns
    /// towards the box that the entities asked to be kept in view.
    pub fn update(&mut self, dt: u64, input: &mut InputManager)
        requires
            old(self).world.map.wf(),
        ensures
            final(self).world.map.wf(),
            final(self).world.tile_entities == old(self).world.tile_entities,
            old(self).world.entities@.len() <= final(self).world.entities@.len() <= old(
                self,
            ).world.entities@.len() + 1,
            final(input).players() == old(input).players(),
            (exists|focus: Option<(Vector2, Vector2)>, polled: bool|
                {
                    &&& #[trigger] ticks(
                        old(self).world.scene(None, false),
                        dt,
                        *final(input),
                        final(self).world.scene(focus, polled),
                    )
                    &&& ticked_once(
                        old(self).world.scene(None, false),
                        dt,
                        *final(input),
                        final(self).world.scene(focus, polled),
                    )
                    &&& final(self).camera@ == follows(old(self).camera@, focus)
                }),
    {
        input.update(dt);
        let focus = self.world.update(dt, input);
        self.camera.update(focus);
    }
}

} // verus!
