//! What one tick makes of a world: every entity has its update once, and
//! the queue of spawns has one round at most.

use vstd::prelude::*;
use crate::entities::{
    brought, declines, kept, lemma_polled_first_that_produces, polled, produces, spawns, Asked,
};
use crate::game::character_moves;
use crate::input::InputManager;
use crate::vecmath::Vector2;
use crate::world::{rounds, ticks, turn, widened, Entity, Logic, Scene, Spawnable, TileMap};

verus! {

/// A character's entity after its update on `map`; any other entity as it
/// is.
pub open spec fn character_after(
    entity: Entity,
    map: TileMap,
    dt: u64,
    input: InputManager,
) -> Entity {
    match entity.logic {
        Logic::Character(character) => {
            let heard = character.listening(input);
            Entity {
                physics: character_moves(map, heard.dir as int, heard.jump, entity.physics, dt),
                logic: Logic::Character(heard),
                sprite: Some(heard.look()),
            }
        },
        _ => entity,
    }
}

/// Each of `entities` after its update, in their order.
pub open spec fn updated_all(
    entities: Seq<Entity>,
    map: TileMap,
    dt: u64,
    input: InputManager,
) -> Seq<Entity> {
    Seq::new(entities.len(), |j: int| character_after(entities[j], map, dt, input))
}

/// The box in focus after each character among `entities`, in order, has
/// asked for the place where it stands, starting from `focus`.
pub open spec fn focus_on(
    entities: Seq<Entity>,
    focus: Option<(Vector2, Vector2)>,
) -> Option<(Vector2, Vector2)>
    decreases entities.len(),
{
    if entities.len() == 0 {
        focus
    } else if entities.last().logic is Character {
        Some(widened(focus_on(entities.drop_last(), focus), entities.last().physics.pos))
    } else {
        focus_on(entities.drop_last(), focus)
    }
}

/// Whether `out` is what a tick makes of `before` when the spawn point at
/// place `s`, the first of the world, holds the round of spawning and
/// `asked` is what comes of it.
///
/// The queue loses those of the spawnables asked that do not stay. Every
/// entity has had its update and they stand in their order. The entity
/// that the round brought, if any, has its update in the same tick and
/// stands last where the spawn point is the first entity of all; else it
/// waits for the next tick and stands before the entity updated last.
pub open spec fn held_round<S: Spawnable>(
    before: Scene<S>,
    s: int,
    asked: Seq<Asked<S>>,
    dt: u64,
    input: InputManager,
    out: Scene<S>,
) -> bool {
    let visited = updated_all(before.entities, before.map, dt, input);
    &&& 0 <= s < before.entities.len()
    &&& before.entities[s].logic is Spawn
    &&& forall|j: int| 0 <= j < s ==> (#[trigger] before.entities[j]).logic is Character
    &&& polled(before.spawnables, before.entities[s].physics.pos, asked)
    &&& out.polled
    &&& out.spawnables == kept(asked) + before.spawnables.skip(asked.len() as int)
    &&& if brought(asked).len() == 0 {
        &&& out.entities == visited
        &&& out.focus == focus_on(before.entities, before.focus)
    } else if s == 0 {
        &&& out.entities == visited.push(
            character_after(brought(asked)[0], before.map, dt, input),
        )
        &&& out.focus == focus_on(before.entities.push(brought(asked)[0]), before.focus)
    } else {
        &&& out.entities == visited.insert(before.entities.len() - 1, brought(asked)[0])
        &&& out.focus == focus_on(before.entities, before.focus)
    }
}

/// Whether `out` is what one tick makes of `before`. The map stays. In a
/// world without a spawn point every entity has had its update, they
/// stand in their order, and the queue of spawns is as it was; in a world
/// with one the queue has had one round, held by the first of them.
pub open spec fn ticked_once<S: Spawnable>(
    before: Scene<S>,
    dt: u64,
    input: InputManager,
    out: Scene<S>,
) -> bool {
    &&& out.map == before.map
    &&& {
        ||| {
            &&& forall|j: int|
                0 <= j < before.entities.len() ==> (#[trigger] before.entities[
                    j
                ]).logic is Character
            &&& !out.polled
            &&& out.spawnables == before.spawnables
            &&& out.entities == updated_all(before.entities, before.map, dt, input)
            &&& out.focus == focus_on(before.entities, before.focus)
        }
        ||| exists|s: int, asked: Seq<Asked<S>>| #[trigger]
            held_round(before, s, asked, dt, input, out)
    }
}

/// What the update of a character makes of it and of the scene beside it.
proof fn lemma_turn_of_character<S: Spawnable>(
    one: Entity,
    scene: Scene<S>,
    dt: u64,
    input: InputManager,
    one_after: Entity,
    scene_after: Scene<S>,
)
    requires
        one.logic is Character,
        turn(one, scene, dt, input, one_after, scene_after),
    ensures
        one_after == character_after(one, scene.map, dt, input),
        scene_after == (Scene { focus: Some(widened(scene.focus, one.physics.pos)), ..scene }),
{
}

/// What the update of a spawn point makes of it and of the scene beside
/// it.
proof fn lemma_turn_of_spawn<S: Spawnable>(
    one: Entity,
    scene: Scene<S>,
    dt: u64,
    input: InputManager,
    one_after: Entity,
    scene_after: Scene<S>,
)
    requires
        one.logic is Spawn,
        turn(one, scene, dt, input, one_after, scene_after),
    ensures
        one_after == one,
        scene.polled ==> scene_after == scene,
        !scene.polled ==> {
            &&& scene_after.map == scene.map
            &&& scene_after.focus == scene.focus
            &&& scene_after.polled
            &&& spawns(
                scene.spawnables,
                one.physics.pos,
                scene.entities,
                scene_after.spawnables,
                scene_after.entities,
            )
        },
{
}

/// The rest of a tick after the round of spawning. The entities of
/// `visit` have their update in this tick: those before place `i` have
/// had it, `last` is the one that had it last, and those behind wait for
/// theirs. The entities of `tail` stand behind them and have none.
proof fn lemma_rounds_after_round<S: Spawnable>(
    visit: Seq<Entity>,
    tail: Seq<Entity>,
    start: Scene<S>,
    i: nat,
    last: Entity,
    scene: Scene<S>,
    dt: u64,
    input: InputManager,
    out: Scene<S>,
)
    requires
        i < visit.len(),
        scene.polled,
        scene.map == start.map,
        scene.spawnables == start.spawnables,
        scene.entities.len() == visit.len() - 1 + tail.len(),
        forall|j: int|
            0 <= j < i ==> #[trigger] scene.entities[j] == character_after(
                visit[j],
                start.map,
                dt,
                input,
            ),
        last == character_after(visit[i as int], start.map, dt, input),
        forall|j: int| i <= j < visit.len() - 1 ==> #[trigger] scene.entities[j] == visit[j + 1],
        forall|j: int|
            visit.len() - 1 <= j < scene.entities.len() ==> #[trigger] scene.entities[j] == tail[j
                - (visit.len() - 1)],
        scene.focus == focus_on(visit.take(i as int + 1), start.focus),
        rounds(i, (visit.len() - 1) as nat, last, scene, dt, input, out),
    ensures
        out.map == start.map,
        out.spawnables == start.spawnables,
        out.polled,
        out.entities == updated_all(visit, start.map, dt, input).drop_last() + tail + seq![
            character_after(visit.last(), start.map, dt, input),
        ],
        out.focus == focus_on(visit, start.focus),
    decreases visit.len() - i,
{
    let n = (visit.len() - 1) as nat;
    let done = updated_all(visit, start.map, dt, input).drop_last() + tail + seq![
        character_after(visit.last(), start.map, dt, input),
    ];
    if i >= n {
        assert(visit.take(i as int + 1) == visit);
        assert(out.entities =~= done);
    } else {
        let one = scene.entities[i as int];
        let beside = Scene { entities: scene.entities.update(i as int, last), ..scene };
        let (one_after, scene_after) = choose|one_after: Entity, scene_after: Scene<S>|
            {
                &&& #[trigger] turn(one, beside, dt, input, one_after, scene_after)
                &&& rounds(i + 1, n, one_after, scene_after, dt, input, out)
            };
        assert(one == visit[i as int + 1]);
        assert(visit.take(i as int + 2).drop_last() == visit.take(i as int + 1));
        if one.logic is Character {
            lemma_turn_of_character(one, beside, dt, input, one_after, scene_after);
        } else {
            lemma_turn_of_spawn(one, beside, dt, input, one_after, scene_after);
        }
        lemma_rounds_after_round(
            visit,
            tail,
            start,
            i + 1,
            one_after,
            scene_after,
            dt,
            input,
            out,
        );
    }
}

/// The rest of a tick before the round of spawning, in a world whose
/// first entity is a character. The entities up to place `i` are
/// characters and have had their update, `last` is the one that had it
/// last, and those behind wait for theirs.
proof fn lemma_rounds_before_round<S: Spawnable>(
    before: Scene<S>,
    i: nat,
    last: Entity,
    scene: Scene<S>,
    dt: u64,
    input: InputManager,
    out: Scene<S>,
)
    requires
        i < before.entities.len(),
        !scene.polled,
        scene.map == before.map,
        scene.spawnables == before.spawnables,
        scene.entities.len() == before.entities.len() - 1,
        forall|j: int| 0 <= j <= i ==> (#[trigger] before.entities[j]).logic is Character,
        forall|j: int|
            0 <= j < i ==> #[trigger] scene.entities[j] == character_after(
                before.entities[j],
                before.map,
                dt,
                input,
            ),
        last == character_after(before.entities[i as int], before.map, dt, input),
        forall|j: int|
            i <= j < scene.entities.len() ==> #[trigger] scene.entities[j] == before.entities[j
                + 1],
        scene.focus == focus_on(before.entities.take(i as int + 1), before.focus),
        rounds(i, (before.entities.len() - 1) as nat, last, scene, dt, input, out),
    ensures
        ticked_once(before, dt, input, out),
    decreases before.entities.len() - i,
{
    let visit = before.entities;
    let n = (visit.len() - 1) as nat;
    let visited = updated_all(visit, before.map, dt, input);
    if i >= n {
        assert(visit.take(i as int + 1) == visit);
        assert(out.entities =~= visited);
    } else {
        let one = scene.entities[i as int];
        let beside = Scene { entities: scene.entities.update(i as int, last), ..scene };
        let (one_after, scene_after) = choose|one_after: Entity, scene_after: Scene<S>|
            {
                &&& #[trigger] turn(one, beside, dt, input, one_after, scene_after)
                &&& rounds(i + 1, n, one_after, scene_after, dt, input, out)
            };
        assert(one == visit[i as int + 1]);
        assert(visit.take(i as int + 2).drop_last() == visit.take(i as int + 1));
        if one.logic is Character {
            lemma_turn_of_character(one, beside, dt, input, one_after, scene_after);
            lemma_rounds_before_round(before, i + 1, one_after, scene_after, dt, input, out);
        } else {
            lemma_turn_of_spawn(one, beside, dt, input, one_after, scene_after);
            let s = i as int + 1;
            let asked = choose|asked: Seq<Asked<S>>|
                {
                    &&& #[trigger] polled(beside.spawnables, one.physics.pos, asked)
                    &&& scene_after.spawnables == kept(asked) + beside.spawnables.skip(
                        asked.len() as int,
                    )
                    &&& scene_after.entities == beside.entities + brought(asked)
                };
            let tail = brought(asked);
            let start = Scene { spawnables: scene_after.spawnables, ..before };
            lemma_rounds_after_round(
                visit,
                tail,
                start,
                i + 1,
                one_after,
                scene_after,
                dt,
                input,
                out,
            );
            assert(focus_on(visit, start.focus) == focus_on(visit, before.focus));
            if tail.len() == 0 {
                assert(out.entities =~= visited);
            } else {
                assert(out.entities =~= visited.insert(visit.len() - 1, tail[0]));
            }
            assert(held_round(before, s, asked, dt, input, out));
        }
    }
}

/// A tick gives every entity of the world its update exactly once and
/// holds at most one round of spawning: what it makes of a world is what
/// [`ticked_once`] says.
pub proof fn lemma_tick_visits_once<S: Spawnable>(
    before: Scene<S>,
    dt: u64,
    input: InputManager,
    out: Scene<S>,
)
    requires
        !before.polled,
        ticks(before, dt, input, out),
    ensures
        ticked_once(before, dt, input, out),
{
    let visited = updated_all(before.entities, before.map, dt, input);
    if before.entities.len() == 0 {
        assert(out.entities =~= visited);
    } else {
        let one = before.entities[0];
        let beside = Scene { entities: before.entities.skip(1), ..before };
        let (one_after, scene_after) = choose|one_after: Entity, scene_after: Scene<S>|
            {
                &&& #[trigger] turn(one, beside, dt, input, one_after, scene_after)
                &&& rounds(0, scene_after.entities.len(), one_after, scene_after, dt, input, out)
            };
        assert(before.entities.take(1).drop_last() == before.entities.take(0));
        assert(focus_on(before.entities.take(0), before.focus) == before.focus);
        if one.logic is Character {
            lemma_turn_of_character(one, beside, dt, input, one_after, scene_after);
            lemma_rounds_before_round(before, 0, one_after, scene_after, dt, input, out);
        } else {
            lemma_turn_of_spawn(one, beside, dt, input, one_after, scene_after);
            let asked = choose|asked: Seq<Asked<S>>|
                {
                    &&& #[trigger] polled(beside.spawnables, one.physics.pos, asked)
                    &&& scene_after.spawnables == kept(asked) + beside.spawnables.skip(
                        asked.len() as int,
                    )
                    &&& scene_after.entities == beside.entities + brought(asked)
                };
            let visit = before.entities + brought(asked);
            let start = Scene { spawnables: scene_after.spawnables, ..before };
            assert(visit.take(1).drop_last() == visit.take(0));
            assert(focus_on(visit.take(0), start.focus) == start.focus);
            lemma_rounds_after_round(
                visit,
                Seq::empty(),
                start,
                0,
                one_after,
                scene_after,
                dt,
                input,
                out,
            );
            if brought(asked).len() == 0 {
                assert(visit == before.entities);
                assert(out.entities =~= visited);
            } else {
                assert(visit == before.entities.push(brought(asked)[0]));
                assert(out.entities =~= visited.push(
                    character_after(brought(asked)[0], before.map, dt, input),
                ));
            }
            assert(held_round(before, 0, asked, dt, input, out));
        }
    }
}

/// A tick brings at most one entity into the world and takes none out.
pub proof fn lemma_tick_adds_at_most_one<S: Spawnable>(
    before: Scene<S>,
    dt: u64,
    input: InputManager,
    out: Scene<S>,
)
    requires
        ticked_once(before, dt, input, out),
    ensures
        before.entities.len() <= out.entities.len() <= before.entities.len() + 1,
{
}

/// Where the first `k` of the queued spawnables make no entity at the
/// first spawn point of the world, which is at place `s`, and the next one
/// makes one, the tick brings exactly one entity into the world, and the
/// spawnables behind that one stay queued, unchanged and in their order,
/// at the end of the queue.
pub proof fn lemma_tick_first_that_produces<S: Spawnable>(
    before: Scene<S>,
    dt: u64,
    input: InputManager,
    out: Scene<S>,
    s: int,
    k: nat,
)
    requires
        ticked_once(before, dt, input, out),
        0 <= s < before.entities.len(),
        before.entities[s].logic is Spawn,
        forall|j: int| 0 <= j < s ==> (#[trigger] before.entities[j]).logic is Character,
        k < before.spawnables.len(),
        forall|i: int|
            0 <= i < k ==> declines(
                #[trigger] before.spawnables[i],
                before.entities[s].physics.pos,
            ),
        produces(before.spawnables[k as int], before.entities[s].physics.pos),
    ensures
        out.entities.len() == before.entities.len() + 1,
        out.spawnables.len() >= before.spawnables.len() - (k + 1),
        out.spawnables.skip(out.spawnables.len() - (before.spawnables.len() - (k + 1)))
            == before.spawnables.skip(k as int + 1),
{
    let (first, asked) = choose|first: int, asked: Seq<Asked<S>>| #[trigger]
        held_round(before, first, asked, dt, input, out);
    assert(first == s) by {
        if first < s {
            assert(before.entities[first].logic is Character);
        }
        if s < first {
            assert(before.entities[s].logic is Character);
        }
    }
    lemma_polled_first_that_produces(
        before.spawnables,
        before.entities[s].physics.pos,
        asked,
        k,
    );
}

/// In a world of characters, a tick updates every entity exactly once and
/// leaves them in their order: each is what its own update makes of it,
/// the box in focus holds the place where each stood, and the map and the
/// queue of spawns stay as they are.
pub proof fn lemma_tick_of_characters<S: Spawnable>(
    before: Scene<S>,
    dt: u64,
    input: InputManager,
    out: Scene<S>,
)
    requires
        forall|j: int|
            0 <= j < before.entities.len() ==> (#[trigger] before.entities[j]).logic is Character,
        !before.polled,
        ticks(before, dt, input, out),
    ensures
        out.map == before.map,
        out.spawnables == before.spawnables,
        out.entities.len() == before.entities.len(),
        forall|j: int|
            0 <= j < before.entities.len() ==> #[trigger] out.entities[j] == character_after(
                before.entities[j],
                before.map,
                dt,
                input,
            ),
        out.focus == focus_on(before.entities, before.focus),
{
    lemma_tick_visits_once(before, dt, input, out);
}

} // verus!
