//! Animation playback: a policy says which states follow which, and the
//! player walks through them as time passes.
//!
//! Time is counted in whole milliseconds.

use rand::Rng;
use std::rc::Rc;
use vstd::prelude::*;
use crate::sprites::Sprite;

verus! {

/// An ordered list of frames, each shown for the same time.
pub trait Sequence {
    /// What one frame is.
    type Frame;

    /// The time each frame is shown for.
    open spec fn frame_time(&self) -> nat {
        arbitrary()
    }

    /// The time the whole sequence takes.
    open spec fn length(&self) -> nat {
        arbitrary()
    }

    /// The frame shown `time` after the sequence began, if it has one then.
    open spec fn frame_at(&self, time: nat) -> Option<Self::Frame> {
        arbitrary()
    }

    /// The time each frame is shown for.
    fn interval(&self) -> (r: u64)
        ensures
            r == self.frame_time(),
    ;

    /// The time the whole sequence takes.
    fn duration(&self) -> (r: u64)
        ensures
            r == self.length(),
    ;

    /// The frame shown `time` after the sequence began, if it has one then.
    fn get(&self, time: u64) -> (r: Option<Self::Frame>)
        ensures
            r == self.frame_at(time as nat),
    ;
}

/// A sequence can be played when it takes time and has a frame for every
/// moment before its end.
pub open spec fn playable<Q: Sequence>(seq: Q) -> bool {
    &&& seq.length() > 0
    &&& forall|t: nat| t < seq.length() ==> (#[trigger] seq.frame_at(t)) is Some
}

/// The product of a count and a time, in a width that always holds it.
fn wide_product(count: usize, time: u64) -> (r: u128)
    ensures
        r == count * time,
{
    assert(count * time <= 0xffff_ffff_ffff_ffff * 0xffff_ffff_ffff_ffff) by (nonlinear_arith)
        requires
            0 <= count <= 0xffff_ffff_ffff_ffff,
            0 <= time <= 0xffff_ffff_ffff_ffff,
    ;
    (count as u128) * (time as u128)
}

/// A sequence of sprites.
pub struct SpriteSequence {
    sprites: Vec<Sprite>,
    interval: u64,
}

impl SpriteSequence {
    #[verifier::type_invariant]
    spec fn total_fits(&self) -> bool {
        self.sprites@.len() * self.interval <= u64::MAX
    }

    /// The sprites, in the order they are shown.
    pub closed spec fn frames(&self) -> Seq<Sprite> {
        self.sprites@
    }

    /// A sequence that shows each of `sprites` for `interval`, unless the
    /// time that takes cannot be counted in 64 bits.
    pub fn new(sprites: Vec<Sprite>, interval: u64) -> (r: Option<SpriteSequence>)
        ensures
            r is Some <==> sprites@.len() * interval <= u64::MAX,
            r matches Some(seq) ==> seq.frames() == sprites@ && seq.frame_time() == interval,
    {
        let total: u128 = wide_product(sprites.len(), interval);
        if total <= u64::MAX as u128 {
            Some(SpriteSequence { sprites, interval })
        } else {
            None
        }
    }
}

impl Sequence for SpriteSequence {
    type Frame = Sprite;

    closed spec fn frame_time(&self) -> nat {
        self.interval as nat
    }

    open spec fn length(&self) -> nat {
        self.frames().len() * self.frame_time()
    }

    open spec fn frame_at(&self, time: nat) -> Option<Sprite> {
        if self.frame_time() > 0 && time / self.frame_time() < self.frames().len() {
            Some(self.frames()[(time / self.frame_time()) as int])
        } else {
            None
        }
    }

    fn interval(&self) -> (r: u64) {
        self.interval
    }

    fn duration(&self) -> (r: u64) {
        proof {
            use_type_invariant(self);
        }
        let total: u128 = wide_product(self.sprites.len(), self.interval);
        total as u64
    }

    fn get(&self, time: u64) -> (r: Option<Sprite>) {
        if self.interval == 0 {
            return None;
        }
        let index: u64 = time / self.interval;
        if index < self.sprites.len() as u64 {
            Some(self.sprites[index as usize])
        } else {
            None
        }
    }
}

/// The rules of one kind of entity: which states its animation starts
/// with, which follow, and what is shown in each.
///
/// What a policy answers may depend on chance, so the rules are stated as
/// what it may answer.
pub trait AnimationMap: Sized {
    /// What is shown in one state.
    type Sequence: Sequence;

    /// The states of the animation.
    type State: Copy;

    /// Whether an animation may begin by walking through `states`.
    open spec fn may_start_with(&self, states: Seq<Self::State>) -> bool {
        arbitrary()
    }

    /// Whether `states` may be walked through next when `current` was the
    /// state and `other` was asked for, or, with no `other`, when the
    /// states before ran out at `current`.
    open spec fn may_follow(
        &self,
        current: Self::State,
        other: Option<Self::State>,
        states: Seq<Self::State>,
    ) -> bool {
        arbitrary()
    }

    /// What is shown in `state`.
    open spec fn sequence_of(&self, state: Self::State) -> Self::Sequence {
        arbitrary()
    }

    /// The states to go through first. There is at least one.
    fn initial_states(&self) -> (states: Vec<Self::State>)
        ensures
            states@.len() > 0,
            self.may_start_with(states@),
    ;

    /// The states to go through from `current` on: towards `other` where
    /// one is given, and freely where the states before ran out. There is
    /// at least one.
    fn transition_to(&self, current: Self::State, other: Option<Self::State>) -> (states: Vec<
        Self::State,
    >)
        ensures
            states@.len() > 0,
            self.may_follow(current, other, states@),
    ;

    /// The sequence for `state`, which can be played.
    fn sequence(&self, state: Self::State) -> (seq: Rc<Self::Sequence>)
        ensures
            *seq == self.sequence_of(state),
            playable(*seq),
    ;
}

/// Where an animation stands: the states it walks through, the one it is
/// in, and the time spent in that one.
pub struct Playhead<S> {
    /// The states to walk through, in order.
    pub states: Seq<S>,
    /// Which of them is playing.
    pub index: nat,
    /// The time since that one began.
    pub time: nat,
}

/// Whether the policy answers every question in one way only.
pub open spec fn deterministic<AM: AnimationMap>(am: AM) -> bool {
    forall|current: AM::State, other: Option<AM::State>, a: Seq<AM::State>, b: Seq<AM::State>|
        #![trigger am.may_follow(current, other, a), am.may_follow(current, other, b)]
        am.may_follow(current, other, a) && am.may_follow(current, other, b) ==> a == b
}

/// The time that the sequence of `states[index]` takes.
pub open spec fn length_at<AM: AnimationMap>(am: AM, states: Seq<AM::State>, index: nat) -> nat {
    am.sequence_of(states[index as int]).length()
}

/// Whether a player that has spent `time` in `states[index]` may come to
/// rest at `to`: it leaves each state whose sequence has ended, carries
/// the time left over into the next state, and asks the policy for new
/// states when it has left the last one.
pub open spec fn settles<AM: AnimationMap>(
    am: AM,
    states: Seq<AM::State>,
    index: nat,
    time: nat,
    to: Playhead<AM::State>,
) -> bool
    decreases time,
{
    let length = length_at(am, states, index);
    if time < length {
        to == (Playhead { states, index, time })
    } else if length == 0 {
        false
    } else if index + 1 < states.len() {
        settles(am, states, index + 1, (time - length) as nat, to)
    } else {
        exists|next: Seq<AM::State>|
            next.len() > 0 && #[trigger] am.may_follow(states[index as int], None, next)
                && settles(am, next, 0, (time - length) as nat, to)
    }
}

/// Time adds up along the way: a player that may rest at `mid` after
/// `time`, and from there at `end` after `more`, may rest at `end` after
/// `time + more`.
pub proof fn lemma_settles_later<AM: AnimationMap>(
    am: AM,
    states: Seq<AM::State>,
    index: nat,
    time: nat,
    more: nat,
    mid: Playhead<AM::State>,
    end: Playhead<AM::State>,
)
    requires
        settles(am, states, index, time, mid),
        settles(am, mid.states, mid.index, mid.time + more, end),
    ensures
        settles(am, states, index, time + more, end),
    decreases time,
{
    let length = length_at(am, states, index);
    if time < length {
    } else if index + 1 < states.len() {
        lemma_settles_later(am, states, index + 1, (time - length) as nat, more, mid, end);
    } else {
        let next = choose|next: Seq<AM::State>|
            next.len() > 0 && #[trigger] am.may_follow(states[index as int], None, next)
                && settles(am, next, 0, (time - length) as nat, mid);
        lemma_settles_later(am, next, 0, (time - length) as nat, more, mid, end);
    }
}

/// Under a policy that answers in one way only, a player comes to rest in
/// one place only.
pub proof fn lemma_settles_once<AM: AnimationMap>(
    am: AM,
    states: Seq<AM::State>,
    index: nat,
    time: nat,
    a: Playhead<AM::State>,
    b: Playhead<AM::State>,
)
    requires
        deterministic(am),
        settles(am, states, index, time, a),
        settles(am, states, index, time, b),
    ensures
        a == b,
    decreases time,
{
    let length = length_at(am, states, index);
    if time < length {
    } else if index + 1 < states.len() {
        lemma_settles_once(am, states, index + 1, (time - length) as nat, a, b);
    } else {
        let next_a = choose|next: Seq<AM::State>|
            next.len() > 0 && #[trigger] am.may_follow(states[index as int], None, next)
                && settles(am, next, 0, (time - length) as nat, a);
        let next_b = choose|next: Seq<AM::State>|
            next.len() > 0 && #[trigger] am.may_follow(states[index as int], None, next)
                && settles(am, next, 0, (time - length) as nat, b);
        lemma_settles_once(am, next_a, 0, (time - length) as nat, a, b);
    }
}

/// Advancing time is associative. Under a policy that answers in one way
/// only, letting `a` pass and then `b` leaves an animation where letting
/// `a + b` pass at once leaves it.
pub proof fn lemma_update_in_parts<AM: AnimationMap>(
    am: AM,
    start: Playhead<AM::State>,
    a: nat,
    b: nat,
    mid: Playhead<AM::State>,
    in_parts: Playhead<AM::State>,
    at_once: Playhead<AM::State>,
)
    requires
        deterministic(am),
        settles(am, start.states, start.index, start.time + a, mid),
        settles(am, mid.states, mid.index, mid.time + b, in_parts),
        settles(am, start.states, start.index, start.time + a + b, at_once),
    ensures
        in_parts == at_once,
{
    lemma_settles_later(am, start.states, start.index, start.time + a, b, mid, in_parts);
    lemma_settles_once(am, start.states, start.index, start.time + a + b, in_parts, at_once);
}

/// Plays through the sequences of the states that a policy names.
#[verifier::reject_recursive_types(S)]
pub struct Animation<S: Copy, AM: AnimationMap<State = S>> {
    animation_map: AM,
    states: Vec<S>,
    state_idx: usize,
    sequence_time: u64,
}

impl<S: Copy, AM: AnimationMap<State = S>> Animation<S, AM> {
    /// The policy.
    pub closed spec fn policy(&self) -> AM {
        self.animation_map
    }

    /// Where the animation stands.
    pub closed spec fn view(&self) -> Playhead<S> {
        Playhead {
            states: self.states@,
            index: self.state_idx as nat,
            time: self.sequence_time as nat,
        }
    }

    /// The animation is in one of its states, and that state's sequence
    /// has not ended.
    pub open spec fn wf(&self) -> bool {
        &&& self@.index < self@.states.len()
        &&& self@.time < length_at(self.policy(), self@.states, self@.index)
    }

    /// An animation at the start of the first of the policy's initial
    /// states.
    pub fn new(animation_map: AM) -> (r: Animation<S, AM>)
        ensures
            r.wf(),
            r.policy() == animation_map,
            animation_map.may_start_with(r@.states),
            r@.index == 0,
            r@.time == 0,
    {
        let states = animation_map.initial_states();
        let first = states[0];
        let _first_sequence = animation_map.sequence(first);
        Animation { animation_map, states, state_idx: 0, sequence_time: 0 }
    }

    /// Breaks off what is playing and starts on the way to `state`: the
    /// policy is asked how to get there from the first of the present
    /// states, and the answer is played from its start.
    pub fn goto_state(&mut self, state: S)
        requires
            old(self).wf(),
        ensures
            final(self).wf(),
            final(self).policy() == old(self).policy(),
            old(self).policy().may_follow(old(self)@.states[0], Some(state), final(self)@.states),
            final(self)@.index == 0,
            final(self)@.time == 0,
    {
        let current = self.states[0];
        let states = self.animation_map.transition_to(current, Some(state));
        let first = states[0];
        let _first_sequence = self.animation_map.sequence(first);
        self.states = states;
        self.state_idx = 0;
        self.sequence_time = 0;
    }

    /// Lets `dt` pass. The player leaves every state whose sequence ends
    /// within that time, however many those are.
    pub fn update(&mut self, dt: u64)
        requires
            old(self).wf(),
        ensures
            final(self).wf(),
            final(self).policy() == old(self).policy(),
            settles(
                old(self).policy(),
                old(self)@.states,
                old(self)@.index,
                (old(self)@.time + dt) as nat,
                final(self)@,
            ),
    {
        let ghost am = self.animation_map;
        let ghost start = self@;
        let mut current_state = self.states[self.state_idx];
        let mut current_sequence = self.animation_map.sequence(current_state);
        let mut time: u128 = self.sequence_time as u128 + dt as u128;
        while time >= current_sequence.duration() as u128
            invariant
                self.animation_map == am,
                self.state_idx < self.states@.len(),
                current_state == self.states@[self.state_idx as int],
                *current_sequence == am.sequence_of(current_state),
                playable(*current_sequence),
                forall|to: Playhead<S>|
                    settles(am, self.states@, self.state_idx as nat, time as nat, to) ==> settles(
                        am,
                        start.states,
                        start.index,
                        (start.time + dt) as nat,
                        to,
                    ),
            decreases time,
        {
            let ghost before_states = self.states@;
            let ghost before_idx = self.state_idx as nat;
            let ghost before_time = time as nat;
            time = time - current_sequence.duration() as u128;
            let last = current_state;
            if self.state_idx >= self.states.len() - 1 {
                self.states = self.animation_map.transition_to(last, None);
                self.state_idx = 0;
            } else {
                self.state_idx = self.state_idx + 1;
            }
            current_state = self.states[self.state_idx];
            current_sequence = self.animation_map.sequence(current_state);
            assert forall|to: Playhead<S>|
                settles(am, self.states@, self.state_idx as nat, time as nat, to) implies settles(
                am,
                start.states,
                start.index,
                (start.time + dt) as nat,
                to,
            ) by {
                assert(am.may_follow(before_states[before_idx as int], None, self.states@)
                    || before_idx + 1 < before_states.len());
                assert(settles(am, before_states, before_idx, before_time, to));
            }
        }
        self.sequence_time = time as u64;
        assert(settles(am, self.states@, self.state_idx as nat, time as nat, self@));
    }

    /// The frame that is showing.
    pub fn get(&self) -> (frame: <<AM as AnimationMap>::Sequence as Sequence>::Frame)
        requires
            self.wf(),
        ensures
            Some(frame) == self.policy().sequence_of(self@.states[self@.index as int]).frame_at(
                self@.time,
            ),
    {
        let state = self.states[self.state_idx];
        let sequence = self.animation_map.sequence(state);
        let frame = sequence.get(self.sequence_time);
        frame.unwrap()
    }
}

/// The states of a character's animation.
#[derive(Debug, Clone, Copy, Hash, PartialEq, Eq)]
pub enum CharacterState {
    IdleLeft,
    IdleRight,
    IdleAnim1,
    IdleAnim2,
    RunningLeft,
    RunningRight,
    ShootingLeft,
    ShootingRight,
    ReversingLeftToRight,
    ReversingRightToLeft,
}

/// How many states a character has.
pub const CHARACTER_STATES: usize = 10;

/// The place of `state` among the states, in the order they are declared.
pub open spec fn state_index(state: CharacterState) -> int {
    match state {
        CharacterState::IdleLeft => 0,
        CharacterState::IdleRight => 1,
        CharacterState::IdleAnim1 => 2,
        CharacterState::IdleAnim2 => 3,
        CharacterState::RunningLeft => 4,
        CharacterState::RunningRight => 5,
        CharacterState::ShootingLeft => 6,
        CharacterState::ShootingRight => 7,
        CharacterState::ReversingLeftToRight => 8,
        CharacterState::ReversingRightToLeft => 9,
    }
}

/// Standing idle: five times the idle pose of the side the character
/// faces, then one of the two fidgets, the first if `first_fidget`.
pub open spec fn idle_states(right: bool, first_fidget: bool) -> Seq<CharacterState> {
    let pose = if right {
        CharacterState::IdleRight
    } else {
        CharacterState::IdleLeft
    };
    let fidget = if first_fidget {
        CharacterState::IdleAnim1
    } else {
        CharacterState::IdleAnim2
    };
    seq![pose, pose, pose, pose, pose, fidget]
}

/// Whether the character goes idle from `current`, and facing right if so.
/// It does when an idle pose is asked for, and when its states run out
/// anywhere but in running: to the left after idling or shooting to the
/// left, to the right in every other case.
pub open spec fn idle_side(current: CharacterState, other: Option<CharacterState>) -> Option<bool> {
    match other {
        Some(CharacterState::IdleLeft) => Some(false),
        Some(CharacterState::IdleRight) => Some(true),
        Some(_) => None,
        None => match current {
            CharacterState::IdleLeft | CharacterState::ShootingLeft => Some(false),
            CharacterState::RunningLeft | CharacterState::RunningRight => None,
            _ => Some(true),
        },
    }
}

/// The states that follow `current`: the idle states where the character
/// goes idle; a reversing pose before running the other way; else the
/// state asked for; and running again where running ran out.
pub open spec fn transition_states(
    current: CharacterState,
    other: Option<CharacterState>,
    first_fidget: bool,
) -> Seq<CharacterState> {
    match idle_side(current, other) {
        Some(right) => idle_states(right, first_fidget),
        None => match (current, other) {
            (CharacterState::RunningLeft, Some(CharacterState::RunningRight)) => seq![
                CharacterState::ReversingLeftToRight,
                CharacterState::RunningRight,
            ],
            (CharacterState::RunningRight, Some(CharacterState::RunningLeft)) => seq![
                CharacterState::ReversingRightToLeft,
                CharacterState::RunningLeft,
            ],
            (_, Some(state)) => seq![state],
            (state, None) => seq![state],
        },
    }
}

/// A random `bool` from `rand::thread_rng().gen::<bool>()`, the generator
/// of the calling thread. Nothing is claimed of which one comes.
#[verifier::external_body]
fn coin() -> (r: bool) {
    rand::thread_rng().gen::<bool>()
}

/// Another pointer to what `rc` points to, from `Rc::clone`.
#[verifier::external_body]
fn share<T>(rc: &Rc<T>) -> (r: Rc<T>)
    ensures
        *r == **rc,
{
    Rc::clone(rc)
}

/// A sequence of sprites that takes time has a frame for every moment
/// before its end.
pub proof fn lemma_sprites_playable(seq: SpriteSequence)
    requires
        seq.length() > 0,
    ensures
        playable(seq),
{
    let n = seq.frames().len();
    let each = seq.frame_time();
    assert(each > 0) by (nonlinear_arith)
        requires
            n * each > 0,
    ;
    assert forall|t: nat| t < seq.length() implies (#[trigger] seq.frame_at(t)) is Some by {
        assert(t / each < n) by (nonlinear_arith)
            requires
                t < n * each,
                each > 0,
        ;
    }
}

/// The animation rules of a character.
pub struct CharacterMap {
    sequences: Vec<Rc<SpriteSequence>>,
}

impl CharacterMap {
    #[verifier::type_invariant]
    spec fn every_state_plays(&self) -> bool {
        &&& self.sequences@.len() == CHARACTER_STATES
        &&& forall|i: int| 0 <= i < CHARACTER_STATES ==> playable(*#[trigger] self.sequences@[i])
    }

    /// The sequence of each state, by the place of the state.
    pub closed spec fn sequences(&self) -> Seq<Rc<SpriteSequence>> {
        self.sequences@
    }

    /// The rules of a character whose states show `sequences`, one for
    /// each state in the order the states are declared. There are none
    /// unless there is a sequence for each state and each takes time.
    pub fn new(sequences: Vec<Rc<SpriteSequence>>) -> (r: Option<CharacterMap>)
        ensures
            r is Some <==> {
                &&& sequences@.len() == CHARACTER_STATES
                &&& forall|i: int|
                    0 <= i < CHARACTER_STATES ==> (#[trigger] sequences@[i]).length() > 0
            },
            r matches Some(map) ==> map.sequences() == sequences@,
    {
        if sequences.len() != CHARACTER_STATES {
            return None;
        }
        let mut i: usize = 0;
        while i < CHARACTER_STATES
            invariant
                i <= CHARACTER_STATES,
                sequences@.len() == CHARACTER_STATES,
                forall|k: int| 0 <= k < i ==> (#[trigger] sequences@[k]).length() > 0,
            decreases CHARACTER_STATES - i,
        {
            if sequences[i].duration() == 0 {
                return None;
            }
            i = i + 1;
        }
        proof {
            assert forall|k: int| 0 <= k < CHARACTER_STATES implies playable(
                *#[trigger] sequences@[k],
            ) by {
                lemma_sprites_playable(*sequences@[k]);
            }
        }
        Some(CharacterMap { sequences })
    }

    /// The place of `state` among the states.
    pub fn index(state: CharacterState) -> (r: usize)
        ensures
            r == state_index(state),
    {
        match state {
            CharacterState::IdleLeft => 0,
            CharacterState::IdleRight => 1,
            CharacterState::IdleAnim1 => 2,
            CharacterState::IdleAnim2 => 3,
            CharacterState::RunningLeft => 4,
            CharacterState::RunningRight => 5,
            CharacterState::ShootingLeft => 6,
            CharacterState::ShootingRight => 7,
            CharacterState::ReversingLeftToRight => 8,
            CharacterState::ReversingRightToLeft => 9,
        }
    }

    /// The idle states with the fidget chosen by the caller.
    pub fn idle_with(right: bool, first_fidget: bool) -> (r: Vec<CharacterState>)
        ensures
            r@ == idle_states(right, first_fidget),
    {
        let pose = if right {
            CharacterState::IdleRight
        } else {
            CharacterState::IdleLeft
        };
        let fidget = if first_fidget {
            CharacterState::IdleAnim1
        } else {
            CharacterState::IdleAnim2
        };
        let r = vec![pose, pose, pose, pose, pose, fidget];
        r
    }

    /// The idle states with the fidget chosen by chance.
    pub fn idle(right: bool) -> (r: Vec<CharacterState>)
        ensures
            r@ == idle_states(right, true) || r@ == idle_states(right, false),
    {
        let first_fidget = coin();
        Self::idle_with(right, first_fidget)
    }

    /// Whether the character goes idle from `current`, and facing right if
    /// so.
    pub fn goes_idle(current: CharacterState, other: Option<CharacterState>) -> (r: Option<bool>)
        ensures
            r == idle_side(current, other),
    {
        match other {
            Some(CharacterState::IdleLeft) => Some(false),
            Some(CharacterState::IdleRight) => Some(true),
            Some(_) => None,
            None => match current {
                CharacterState::IdleLeft | CharacterState::ShootingLeft => Some(false),
                CharacterState::RunningLeft | CharacterState::RunningRight => None,
                _ => Some(true),
            },
        }
    }

    /// The states that follow `current`, with the fidget chosen by the
    /// caller for the case that the character goes idle.
    pub fn transition_with(
        current: CharacterState,
        other: Option<CharacterState>,
        first_fidget: bool,
    ) -> (r: Vec<CharacterState>)
        ensures
            r@ == transition_states(current, other, first_fidget),
    {
        match Self::goes_idle(current, other) {
            Some(right) => Self::idle_with(right, first_fidget),
            None => {
                let r = match (current, other) {
                    (CharacterState::RunningLeft, Some(CharacterState::RunningRight)) => {
                        vec![CharacterState::ReversingLeftToRight, CharacterState::RunningRight]
                    },
                    (CharacterState::RunningRight, Some(CharacterState::RunningLeft)) => {
                        vec![CharacterState::ReversingRightToLeft, CharacterState::RunningLeft]
                    },
                    (_, Some(state)) => vec![state],
                    (state, None) => vec![state],
                };
                r
            },
        }
    }
}

impl AnimationMap for CharacterMap {
    type Sequence = SpriteSequence;

    type State = CharacterState;

    open spec fn may_start_with(&self, states: Seq<CharacterState>) -> bool {
        states == idle_states(true, true) || states == idle_states(true, false)
    }

    open spec fn may_follow(
        &self,
        current: CharacterState,
        other: Option<CharacterState>,
        states: Seq<CharacterState>,
    ) -> bool {
        ||| states == transition_states(current, other, true)
        ||| states == transition_states(current, other, false)
    }

    open spec fn sequence_of(&self, state: CharacterState) -> SpriteSequence {
        *self.sequences()[state_index(state)]
    }

    fn initial_states(&self) -> (states: Vec<CharacterState>) {
        Self::idle(true)
    }

    fn transition_to(&self, current: CharacterState, other: Option<CharacterState>) -> (states: Vec<
        CharacterState,
    >) {
        let first_fidget = match Self::goes_idle(current, other) {
            Some(_) => coin(),
            None => true,
        };
        Self::transition_with(current, other, first_fidget)
    }

    fn sequence(&self, state: CharacterState) -> (seq: Rc<SpriteSequence>) {
        proof {
            use_type_invariant(self);
        }
        share(&self.sequences[Self::index(state)])
    }
}

/// The animation rules of every kind of entity.
pub struct AnimationManager {
    /// The rules of a character.
    pub character: CharacterMap,
}

impl AnimationManager {
    /// The rules of every kind, from the sequences of a character's
    /// states; none where [`CharacterMap::new`] gives none.
    pub fn new(character: Vec<Rc<SpriteSequence>>) -> (r: Option<AnimationManager>)
        ensures
            r is Some <==> {
                &&& character@.len() == CHARACTER_STATES
                &&& forall|i: int|
                    0 <= i < CHARACTER_STATES ==> (#[trigger] character@[i]).length() > 0
            },
            r matches Some(manager) ==> manager.character.sequences() == character@,
    {
        match CharacterMap::new(character) {
            Some(character) => Some(AnimationManager { character }),
            None => None,
        }
    }
}

} // verus!
