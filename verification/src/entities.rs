//! The kinds of entity that the world itself needs.

use vstd::prelude::*;
use crate::input::InputManager;
use crate::sprites::Sprite;
use crate::vecmath::Vector2;
use crate::world::{Entity, EntityLogic, EntityPhysics, Scene, Spawnable, WorldView};

verus! {

/// What came of asking one spawnable: what it became, whether it stays
/// queued, and the entity it made.
pub struct Asked<S> {
    pub after: S,
    pub keep: bool,
    pub produced: Option<Entity>,
}

/// Those that stay queued of the spawnables that were asked, in order.
pub open spec fn kept<S>(asked: Seq<Asked<S>>) -> Seq<S>
    decreases asked.len(),
{
    if asked.len() == 0 {
        Seq::empty()
    } else if asked.last().keep {
        kept(asked.drop_last()).push(asked.last().after)
    } else {
        kept(asked.drop_last())
    }
}

/// The entity that the spawnable asked last made, if it made one.
pub open spec fn brought<S>(asked: Seq<Asked<S>>) -> Seq<Entity> {
    if asked.len() > 0 && asked.last().produced is Some {
        seq![asked.last().produced->0]
    } else {
        Seq::empty()
    }
}

/// Whether `asked` may come of asking the spawnables of `queue` for an
/// entity at `pos`: they are asked in order, from the first one, until one
/// makes an entity or none is left.
pub open spec fn polled<S: Spawnable>(queue: Seq<S>, pos: Vector2, asked: Seq<Asked<S>>) -> bool {
    &&& asked.len() <= queue.len()
    &&& forall|i: int|
        0 <= i < asked.len() ==> (#[trigger] queue[i]).may_spawn(
            pos,
            asked[i].after,
            asked[i].keep,
            asked[i].produced,
        )
    &&& forall|i: int| 0 <= i < asked.len() - 1 ==> (#[trigger] asked[i]).produced is None
    &&& asked.len() < queue.len() ==> asked.len() > 0 && asked.last().produced is Some
}

/// Whether one round of spawning at `pos` may turn `queue` and `entities`
/// into `queue_after` and `entities_after`. The spawnables that were asked
/// stay if they say so; those behind them stay as they are; the entity that
/// was made, if any, comes last among the entities.
pub open spec fn spawns<S: Spawnable>(
    queue: Seq<S>,
    pos: Vector2,
    entities: Seq<Entity>,
    queue_after: Seq<S>,
    entities_after: Seq<Entity>,
) -> bool {
    exists|asked: Seq<Asked<S>>|
        {
            &&& #[trigger] polled(queue, pos, asked)
            &&& queue_after == kept(asked) + queue.skip(asked.len() as int)
            &&& entities_after == entities + brought(asked)
        }
}

/// One round of spawning at `pos`: asks the queued spawnables in order
/// until one makes an entity, which joins `entities`. At most one entity
/// comes into the world; the spawnables behind the one that made it are
/// not asked and stay queued in their order.
pub fn spawn_queued<S: Spawnable>(
    spawnables: &mut Vec<S>,
    entities: &mut Vec<Entity>,
    pos: &Vector2,
)
    ensures
        spawns(old(spawnables)@, *pos, old(entities)@, final(spawnables)@, final(entities)@),
{
    // Move out all spawnables, and put back those that stay
    let mut queue: Vec<S> = Vec::new();
    std::mem::swap(&mut queue, spawnables);
    let ghost before = queue@;
    let ghost entities_before = entities@;
    let ghost mut asked: Seq<Asked<S>> = Seq::empty();
    let mut spawned_one = false;
    for spawnable in iter: queue
        invariant
            iter.seq() == before,
            asked.len() <= iter.index(),
            !spawned_one ==> asked.len() == iter.index(),
            spawned_one ==> asked.len() > 0 && asked.last().produced is Some,
            forall|i: int|
                0 <= i < asked.len() ==> (#[trigger] before[i]).may_spawn(
                    *pos,
                    asked[i].after,
                    asked[i].keep,
                    asked[i].produced,
                ),
            forall|i: int| 0 <= i < asked.len() - 1 ==> (#[trigger] asked[i]).produced is None,
            !spawned_one && asked.len() > 0 ==> asked.last().produced is None,
            spawnables@ == kept(asked) + before.subrange(asked.len() as int, iter.index() as int),
            entities@ == entities_before + brought(asked),
    {
        let mut spawnable = spawnable;
        if spawned_one {
            spawnables.push(spawnable);
        } else {
            let ghost asked_before = asked;
            let (keep, produced) = spawnable.spawn(pos);
            proof {
                asked = asked.push(Asked { after: spawnable, keep, produced });
                assert(asked.drop_last() == asked_before);
            }
            if let Some(new_entity) = produced {
                entities.push(new_entity);
                spawned_one = true;
            }
            if keep {
                spawnables.push(spawnable);
            }
        }
    }
    assert(before.subrange(asked.len() as int, before.len() as int) == before.skip(
        asked.len() as int,
    ));
    assert(polled(before, *pos, asked));
}

/// Whether `spawnable`, asked for an entity at `pos`, makes none.
pub open spec fn declines<S: Spawnable>(spawnable: S, pos: Vector2) -> bool {
    forall|after: S, keep: bool, produced: Option<Entity>| #[trigger]
        spawnable.may_spawn(pos, after, keep, produced) ==> produced is None
}

/// Whether `spawnable`, asked for an entity at `pos`, makes one.
pub open spec fn produces<S: Spawnable>(spawnable: S, pos: Vector2) -> bool {
    forall|after: S, keep: bool, produced: Option<Entity>| #[trigger]
        spawnable.may_spawn(pos, after, keep, produced) ==> produced is Some
}

/// A round of spawning brings at most one entity into the world, behind
/// the entities that are there, and takes none out.
pub proof fn lemma_spawns_at_most_one<S: Spawnable>(
    queue: Seq<S>,
    pos: Vector2,
    entities: Seq<Entity>,
    queue_after: Seq<S>,
    entities_after: Seq<Entity>,
)
    requires
        spawns(queue, pos, entities, queue_after, entities_after),
    ensures
        entities.len() <= entities_after.len() <= entities.len() + 1,
        entities_after.subrange(0, entities.len() as int) == entities,
{
}

/// Where the first `k` of the queued spawnables make no entity and the
/// next one makes one, the round asks those and no other: it brings one
/// entity, and the spawnables behind that one stay queued, unchanged and
/// in their order, at the end of the queue.
pub proof fn lemma_polled_first_that_produces<S: Spawnable>(
    queue: Seq<S>,
    pos: Vector2,
    asked: Seq<Asked<S>>,
    k: nat,
)
    requires
        polled(queue, pos, asked),
        k < queue.len(),
        forall|i: int| 0 <= i < k ==> declines(#[trigger] queue[i], pos),
        produces(queue[k as int], pos),
    ensures
        asked.len() == k + 1,
        brought(asked).len() == 1,
        kept(asked).len() <= k + 1,
        (kept(asked) + queue.skip(asked.len() as int)).skip(kept(asked).len() as int)
            == queue.skip(k as int + 1),
{
    if asked.len() <= k {
        let last = asked.len() - 1;
        assert(queue[last].may_spawn(
            pos,
            asked[last].after,
            asked[last].keep,
            asked[last].produced,
        ));
    } else {
        assert(queue[k as int].may_spawn(
            pos,
            asked[k as int].after,
            asked[k as int].keep,
            asked[k as int].produced,
        ));
    }
    lemma_kept_is_short(asked);
    assert((kept(asked) + queue.skip(asked.len() as int)).skip(kept(asked).len() as int)
        =~= queue.skip(k as int + 1));
}

/// No more spawnables stay than were asked.
pub proof fn lemma_kept_is_short<S>(asked: Seq<Asked<S>>)
    ensures
        kept(asked).len() <= asked.len(),
    decreases asked.len(),
{
    if asked.len() > 0 {
        lemma_kept_is_short(asked.drop_last());
    }
}

/// Where the first `k` of the queued spawnables make no entity and the
/// next one makes one, a round of spawning brings exactly one entity into
/// the world, and the spawnables behind that one stay queued, unchanged
/// and in their order, at the end of the queue.
pub proof fn lemma_spawns_first_that_produces<S: Spawnable>(
    queue: Seq<S>,
    pos: Vector2,
    entities: Seq<Entity>,
    queue_after: Seq<S>,
    entities_after: Seq<Entity>,
    k: nat,
)
    requires
        spawns(queue, pos, entities, queue_after, entities_after),
        k < queue.len(),
        forall|i: int| 0 <= i < k ==> declines(#[trigger] queue[i], pos),
        produces(queue[k as int], pos),
    ensures
        entities_after.len() == entities.len() + 1,
        entities_after.drop_last() == entities,
        queue_after.len() >= queue.len() - (k + 1),
        queue_after.skip(queue_after.len() - (queue.len() - (k + 1))) == queue.skip(k as int + 1),
{
    let asked = choose|asked: Seq<Asked<S>>|
        {
            &&& #[trigger] polled(queue, pos, asked)
            &&& queue_after == kept(asked) + queue.skip(asked.len() as int)
            &&& entities_after == entities + brought(asked)
        };
    lemma_polled_first_that_produces(queue, pos, asked, k);
    assert(entities_after.drop_last() =~= entities);
}

/// A place where queued spawns come into the world.
#[derive(Debug)]
pub struct Spawn {}

impl Spawn {
    /// A spawn point.
    pub fn new() -> (r: Spawn)
        ensures
            r == (Spawn {}),
    {
        Spawn {}
    }
}

impl<S: Spawnable> EntityLogic<S> for Spawn {
    /// The first spawn point that has its update in a tick holds the
    /// round of spawning of that tick, at the place where it stands. The
    /// spawn points after it hold none, so that the queue is asked once in
    /// a tick. Nothing else changes.
    open spec fn may_update(
        &self,
        physics: EntityPhysics,
        sprite: Option<Sprite>,
        scene: Scene<S>,
        dt: u64,
        input: InputManager,
        after: (Self, EntityPhysics, Option<Sprite>),
        scene_after: Scene<S>,
        keep: bool,
    ) -> bool {
        &&& keep
        &&& after == (*self, physics, sprite)
        &&& if scene.polled {
            scene_after == scene
        } else {
            &&& scene_after.map == scene.map
            &&& scene_after.focus == scene.focus
            &&& scene_after.polled
            &&& spawns(
                scene.spawnables,
                physics.pos,
                scene.entities,
                scene_after.spawnables,
                scene_after.entities,
            )
        }
    }

    fn update(
        &mut self,
        entity: &mut EntityPhysics,
        dt: u64,
        world: &mut WorldView<'_, S>,
        input: &InputManager,
        sprite: &mut Option<Sprite>,
    ) -> (keep: bool) {
        if !*world.polled {
            *world.polled = true;
            spawn_queued(world.spawnables, world.entities, &entity.pos);
        }
        true
    }
}

} // verus!
