//! The state of a game and the steps that advance it.
//!
//! [`Game`] is the state that runs; [`World`] is its mathematical model, over
//! which every step is specified. A frame loop calls [`Game::player_move`],
//! then [`Game::item_interact`], shows [`crate::score::format_score`] of the
//! score and plays what [`Game::drain_effects`] hands out.

use vstd::prelude::*;
use crate::movement::checked_integrate;
use crate::movement::compute_direction;
use crate::movement::direction_of;
use crate::movement::facing_of;
use crate::movement::facing_spec;
use crate::movement::integrate;
use crate::movement::integrate_spec;
use crate::movement::mirror_of;
use crate::movement::mirror_spec;
use crate::movement::Direction;
use crate::movement::InputState;
use crate::pickup::check_pickup;
use crate::pickup::in_spawn_area;
use crate::pickup::sample_span;
use crate::pickup::spawn_point;
use crate::pickup::spawn_position;
use crate::pickup::within_reach;
use crate::random::next_sample;
use crate::vector::Point;
use crate::vector::Vec2;

verus! {

/// The constants of a game variant, in the units that its caller works in.
#[derive(Clone, Copy, Debug, PartialEq, Eq, Structural)]
pub struct Config {
    /// The distance that the player covers per unit of time.
    pub speed: u32,
    /// How far apart on each axis player and item may be for a pickup.
    pub pickup_threshold: i64,
    /// How far the area in which new items appear reaches from the origin
    /// to each side.
    pub spawn_range: u32,
}

/// The model of a [`Player`].
pub struct PlayerModel {
    pub position: Point,
    pub facing: Direction,
    pub mirrored: bool,
}

impl PlayerModel {
    /// Whether the place that the player would move to can be held by a
    /// [`Vec2`].
    pub open spec fn can_move(self, input: InputState, speed: int, dt: int) -> bool {
        integrate_spec(self.position, direction_of(input), speed, dt).fits()
    }

    /// The player after one tick of movement: moved along the direction that
    /// the held keys give, and facing and flip set from that direction.
    pub open spec fn moved(self, input: InputState, speed: int, dt: int) -> PlayerModel {
        PlayerModel {
            position: integrate_spec(self.position, direction_of(input), speed, dt),
            facing: facing_spec(direction_of(input)),
            mirrored: mirror_spec(direction_of(input), self.mirrored),
        }
    }
}

/// The player: where it stands, which way it faces, and whether its sprite is
/// drawn mirrored.
#[derive(Clone, Copy, Debug, PartialEq, Eq, Structural)]
pub struct Player {
    pub position: Vec2,
    pub facing: Direction,
    pub mirrored: bool,
}

impl View for Player {
    type V = PlayerModel;

    open spec fn view(&self) -> PlayerModel {
        PlayerModel { position: self.position@, facing: self.facing, mirrored: self.mirrored }
    }
}

impl Player {
    /// A player that has not moved yet: it faces east and is drawn plainly.
    pub fn new(position: Vec2) -> (player: Player)
        ensures
            player.position == position,
            player.facing == Direction::East,
            !player.mirrored,
    {
        Player { position, facing: Direction::default(), mirrored: false }
    }

    /// The player after one tick of movement under the held keys.
    pub fn moved(self, input: InputState, speed: u32, dt: u32) -> (after: Player)
        requires
            self@.can_move(input, speed as int, dt as int),
        ensures
            after@ == self@.moved(input, speed as int, dt as int),
    {
        let direction: Vec2 = compute_direction(input);
        Player {
            position: integrate(self.position, direction, speed, dt),
            facing: facing_of(direction),
            mirrored: mirror_of(direction, self.mirrored),
        }
    }
}

/// The model of an [`Item`].
pub struct ItemModel {
    pub id: nat,
    pub position: Point,
}

/// An item that lies on the plane, with the handle by which it is known.
#[derive(Clone, Copy, Debug, PartialEq, Eq, Structural)]
pub struct Item {
    pub id: u64,
    pub position: Vec2,
}

impl View for Item {
    type V = ItemModel;

    open spec fn view(&self) -> ItemModel {
        ItemModel { id: self.id as nat, position: self.position@ }
    }
}

/// The models of a sequence of items, in their order.
pub open spec fn item_models(items: Seq<Item>) -> Seq<ItemModel> {
    items.map_values(|item: Item| item@)
}

/// Something for the outside to do once, which a step has asked for.
#[derive(Clone, Copy, Debug, PartialEq, Eq, Structural)]
pub enum Effect {
    /// Play the sound of a pickup.
    PickupSound,
}

/// The sounds that `count` pickups ask for.
pub open spec fn pickup_sounds(count: nat) -> Seq<Effect> {
    Seq::new(count, |k: int| Effect::PickupSound)
}

/// Whether `position` is a place that some pair of samples leads to.
pub open spec fn spawnable(position: Point, range: int) -> bool {
    exists|sample_x: int, sample_y: int|
        0 <= sample_x < sample_span() && 0 <= sample_y < sample_span() && position
            == #[trigger] spawn_point(sample_x, sample_y, range)
}

/// The model of a [`Game`].
pub struct World {
    pub player: PlayerModel,
    /// The items that lie on the plane, in the order of their slots.
    pub items: Seq<ItemModel>,
    pub score: nat,
    /// What has been asked of the outside and not been handed over yet.
    pub effects: Seq<Effect>,
    /// The handle that the next new item gets.
    pub next_id: nat,
    pub config: Config,
}

impl World {
    /// The invariant of a game: no two items share a handle, and every handle
    /// in use is older than the next one to be given out.
    pub open spec fn wf(self) -> bool {
        &&& forall|i: int| 0 <= i < self.items.len() ==> (#[trigger] self.items[i]).id < self.next_id
        &&& forall|i: int, j: int|
            0 <= i < j < self.items.len() ==> (#[trigger] self.items[i]).id != (
            #[trigger] self.items[j]).id
    }

    /// A game that has just begun: a player at `position`, no items, no score.
    pub open spec fn initial(config: Config, position: Point) -> World {
        World {
            player: PlayerModel { position, facing: Direction::East, mirrored: false },
            items: Seq::empty(),
            score: 0,
            effects: Seq::empty(),
            next_id: 0,
            config,
        }
    }

    /// The world with one more item, at `position`, in a new last slot.
    pub open spec fn spawned(self, position: Point) -> World {
        World {
            items: self.items.push(ItemModel { id: self.next_id, position }),
            next_id: self.next_id + 1,
            ..self
        }
    }

    /// Whether the player could move under the held keys for `dt`.
    pub open spec fn can_move(self, input: InputState, dt: int) -> bool {
        self.player.can_move(input, self.config.speed as int, dt)
    }

    /// The world after the player has moved under the held keys for `dt`.
    /// Nothing but the player changes.
    pub open spec fn moved(self, input: InputState, dt: int) -> World {
        World { player: self.player.moved(input, self.config.speed as int, dt), ..self }
    }

    /// Whether the item in slot `i` is within the player's reach.
    pub open spec fn in_reach(self, i: int) -> bool {
        within_reach(
            self.player.position,
            self.items[i].position,
            self.config.pickup_threshold as int,
        )
    }

    /// The number of items within the player's reach among the first `n`.
    pub open spec fn pickups_before(self, n: int) -> nat
        decreases n,
    {
        if n <= 0 {
            0
        } else {
            self.pickups_before(n - 1) + if self.in_reach(n - 1) {
                1nat
            } else {
                0nat
            }
        }
    }

    /// The number of items within the player's reach.
    pub open spec fn pickups(self) -> nat {
        self.pickups_before(self.items.len() as int)
    }

    /// The world after the item in slot `i` has been picked up. The four
    /// effects of a pickup come together: the item is gone, a new item with a
    /// new handle lies where the two samples lead and takes over the slot, the
    /// score is one higher, and one more sound is asked for.
    pub open spec fn collected(self, i: int, sample_x: int, sample_y: int) -> World {
        World {
            items: self.items.update(
                i,
                ItemModel {
                    id: self.next_id,
                    position: spawn_point(sample_x, sample_y, self.config.spawn_range as int),
                },
            ),
            score: self.score + 1,
            effects: self.effects.push(Effect::PickupSound),
            next_id: self.next_id + 1,
            ..self
        }
    }

    /// The world after the item in slot `i` has had its turn: picked up if it
    /// is within reach, and otherwise nothing has changed.
    pub open spec fn picked(self, i: int, sample_x: int, sample_y: int) -> World {
        if self.in_reach(i) {
            self.collected(i, sample_x, sample_y)
        } else {
            self
        }
    }

    /// Whether `post` is what a scan of the first `n` slots can leave of this
    /// world. Each of those items that is within reach has been picked up:
    /// its slot holds a new item, whose handle tells how many were picked up
    /// before it and which lies where some pair of samples leads, so inside
    /// the spawn area. Every other item is as it was. Score, handles and
    /// sounds have grown by the number of pickups.
    pub open spec fn scanned(self, post: World, n: int) -> bool {
        &&& post.player == self.player
        &&& post.config == self.config
        &&& post.items.len() == self.items.len()
        &&& forall|i: int|
            0 <= i < self.items.len() ==> if i < n && self.in_reach(i) {
                &&& (#[trigger] post.items[i]).id == self.next_id + self.pickups_before(i)
                &&& spawnable(post.items[i].position, self.config.spawn_range as int)
                &&& in_spawn_area(post.items[i].position, self.config.spawn_range as int)
            } else {
                post.items[i] == self.items[i]
            }
        &&& post.score == self.score + self.pickups_before(n)
        &&& post.next_id == self.next_id + self.pickups_before(n)
        &&& post.effects == self.effects + pickup_sounds(self.pickups_before(n))
    }

    /// Whether `post` is what a scan of all items can leave of this world.
    pub open spec fn interacted(self, post: World) -> bool {
        self.scanned(post, self.items.len() as int)
    }

    /// Whether score and handles can grow by the number of pickups that are
    /// due without leaving their types.
    pub open spec fn has_room(self) -> bool {
        &&& self.score + self.pickups() <= u32::MAX
        &&& self.next_id + self.pickups() <= u64::MAX
    }

    /// The world after its pending effects have been handed over.
    pub open spec fn drained(self) -> World {
        World { effects: Seq::empty(), ..self }
    }

    /// Whether `post` is this world after a tick of movement.
    pub open spec fn is_move(self, post: World) -> bool {
        exists|input: InputState, dt: int| post == #[trigger] self.moved(input, dt)
    }

    /// Whether `post` is this world after the pickup of one of its items that
    /// is within reach.
    pub open spec fn is_pickup(self, post: World) -> bool {
        exists|i: int, sample_x: int, sample_y: int|
            0 <= i < self.items.len() && self.in_reach(i) && 0 <= sample_x < sample_span() && 0
                <= sample_y < sample_span() && post == #[trigger] self.collected(
                i,
                sample_x,
                sample_y,
            )
    }

    /// Whether `post` is this world with one more item.
    pub open spec fn is_spawn(self, post: World) -> bool {
        exists|position: Point| post == #[trigger] self.spawned(position)
    }

    /// Whether `post` can come of this world by one operation of a game,
    /// or is this world still.
    pub open spec fn steps_to(self, post: World) -> bool {
        ||| post == self
        ||| self.is_move(post)
        ||| self.is_pickup(post)
        ||| self.interacted(post)
        ||| self.is_spawn(post)
        ||| post == self.drained()
    }
}

/// A run of a game: each world comes of the one before it by one operation,
/// or is the same.
pub open spec fn is_run(worlds: Seq<World>) -> bool {
    forall|k: int| 0 <= k < worlds.len() - 1 ==> (#[trigger] worlds[k]).steps_to(worlds[k + 1])
}

/// Among the first `n` items no more than `n` are within reach, no more
/// than among all items, and among the first none.
pub proof fn lemma_pickups_before_bounds(world: World, n: int)
    requires
        0 <= n <= world.items.len(),
    ensures
        world.pickups_before(n) <= n,
        world.pickups_before(n) <= world.pickups(),
        world.pickups_before(0) == 0,
    decreases world.items.len() - n,
{
    lemma_pickups_before_at_most(world, n);
    if n < world.items.len() {
        lemma_pickups_before_bounds(world, n + 1);
    }
}

proof fn lemma_pickups_before_at_most(world: World, n: int)
    requires
        0 <= n,
    ensures
        world.pickups_before(n) <= n,
    decreases n,
{
    if n > 0 {
        lemma_pickups_before_at_most(world, n - 1);
    }
}

/// A place that samples lead to lies in the spawn area.
pub proof fn lemma_spawnable_in_area(position: Point, range: int)
    requires
        0 <= range,
        spawnable(position, range),
    ensures
        in_spawn_area(position, range),
{
    let (sample_x, sample_y) = choose|sample_x: int, sample_y: int|
        0 <= sample_x < sample_span() && 0 <= sample_y < sample_span() && position
            == #[trigger] spawn_point(sample_x, sample_y, range);
    crate::pickup::lemma_spawn_coordinate_bounds(sample_x, range);
    crate::pickup::lemma_spawn_coordinate_bounds(sample_y, range);
}

/// No operation lowers the score: movement, a new item and the handing over
/// of effects leave it, a pickup raises it by exactly one, and a scan raises
/// it by exactly the number of items within reach. So the score rises only
/// where an item is within reach, and by no more than there are.
pub proof fn lemma_step_score(pre: World, post: World)
    requires
        pre.steps_to(post),
    ensures
        pre.score <= post.score <= pre.score + pre.pickups(),
        post == pre || pre.is_move(post) || pre.is_spawn(post) || post == pre.drained()
            ==> post.score == pre.score,
        pre.is_pickup(post) ==> post.score == pre.score + 1,
        pre.interacted(post) ==> post.score == pre.score + pre.pickups(),
{
    if pre.is_pickup(post) {
        let (i, sample_x, sample_y) = choose|i: int, sample_x: int, sample_y: int|
            0 <= i < pre.items.len() && pre.in_reach(i) && 0 <= sample_x < sample_span() && 0
                <= sample_y < sample_span() && post == #[trigger] pre.collected(
                i,
                sample_x,
                sample_y,
            );
        lemma_pickups_before_step(pre, i, pre.items.len() as int);
    }
}

/// Over a run the score never falls.
pub proof fn lemma_score_never_falls(worlds: Seq<World>, i: int, j: int)
    requires
        is_run(worlds),
        0 <= i <= j < worlds.len(),
    ensures
        worlds[i].score <= worlds[j].score,
    decreases j - i,
{
    if i < j {
        lemma_score_never_falls(worlds, i, j - 1);
        lemma_step_score(worlds[j - 1], worlds[j]);
    }
}

/// Every operation keeps the invariant of a game.
pub proof fn lemma_step_keeps_wf(pre: World, post: World)
    requires
        pre.wf(),
        pre.steps_to(post),
    ensures
        post.wf(),
{
    if pre.interacted(post) {
        lemma_scanned_keeps_wf(pre, post, pre.items.len() as int);
    }
}

/// Over a run the invariant of a game is never lost.
pub proof fn lemma_run_keeps_wf(worlds: Seq<World>, i: int, j: int)
    requires
        is_run(worlds),
        0 <= i <= j < worlds.len(),
        worlds[i].wf(),
    ensures
        worlds[j].wf(),
    decreases j - i,
{
    if i < j {
        lemma_run_keeps_wf(worlds, i, j - 1);
        lemma_step_keeps_wf(worlds[j - 1], worlds[j]);
    }
}

/// A scan that finds no item within reach changes nothing.
pub proof fn lemma_idle_scan(pre: World, post: World)
    requires
        pre.interacted(post),
        pre.pickups() == 0,
    ensures
        post == pre,
{
    assert forall|i: int| 0 <= i < pre.items.len() implies #[trigger] post.items[i]
        == pre.items[i] by {
        if pre.in_reach(i) {
            lemma_pickups_before_step(pre, i, pre.items.len() as int);
        }
    }
    assert(post.items =~= pre.items);
}

proof fn lemma_scanned_keeps_wf(pre: World, post: World, n: int)
    requires
        pre.wf(),
        0 <= n <= pre.items.len(),
        pre.scanned(post, n),
    ensures
        post.wf(),
{
    assert forall|i: int| 0 <= i < post.items.len() implies (#[trigger] post.items[i]).id
        < post.next_id by {
        if i < n && pre.in_reach(i) {
            lemma_pickups_before_step(pre, i, n);
        }
    }
    assert forall|i: int, j: int| 0 <= i < j < post.items.len() implies (#[trigger] post.items[i]).id
        != (#[trigger] post.items[j]).id by {
        if j < n && pre.in_reach(i) && pre.in_reach(j) {
            lemma_pickups_before_step(pre, i, j);
        }
    }
}

/// An item within reach counts: the number of pickups before a later slot is
/// higher than before its own.
proof fn lemma_pickups_before_step(world: World, i: int, n: int)
    requires
        0 <= i < n,
        world.in_reach(i),
    ensures
        world.pickups_before(i) < world.pickups_before(n),
    decreases n - i,
{
    if i + 1 < n {
        lemma_pickups_before_step(world, i, n - 1);
    }
}

/// The state of a running game.
pub struct Game {
    player: Player,
    items: Vec<Item>,
    score: u32,
    effects: Vec<Effect>,
    next_id: u64,
    config: Config,
}

impl View for Game {
    type V = World;

    closed spec fn view(&self) -> World {
        World {
            player: self.player@,
            items: item_models(self.items@),
            score: self.score as nat,
            effects: self.effects@,
            next_id: self.next_id as nat,
            config: self.config,
        }
    }
}

impl Game {
    /// The invariant that every operation keeps.
    pub open spec fn wf(&self) -> bool {
        self@.wf()
    }

    /// A game that has just begun: a player at `position`, no items, no score.
    pub fn new(config: Config, position: Vec2) -> (game: Game)
        ensures
            game.wf(),
            game@ == World::initial(config, position@),
    {
        let game = Game {
            player: Player::new(position),
            items: Vec::new(),
            score: 0,
            effects: Vec::new(),
            next_id: 0,
            config,
        };
        assert(game@.items =~= Seq::<ItemModel>::empty());
        game
    }

    /// The player.
    pub fn player(&self) -> (player: Player)
        ensures
            player@ == self@.player,
    {
        self.player
    }

    /// The items that lie on the plane, in the order of their slots.
    pub fn items(&self) -> (items: &Vec<Item>)
        ensures
            item_models(items@) == self@.items,
    {
        &self.items
    }

    /// The score.
    pub fn score(&self) -> (score: u32)
        ensures
            score == self@.score,
    {
        self.score
    }

    /// What has been asked of the outside and not been handed over yet.
    pub fn effects(&self) -> (effects: &Vec<Effect>)
        ensures
            effects@ == self@.effects,
    {
        &self.effects
    }

    /// The handle that the next new item gets.
    pub fn next_id(&self) -> (id: u64)
        ensures
            id == self@.next_id,
    {
        self.next_id
    }

    /// The constants that the game was begun with.
    pub fn config(&self) -> (config: Config)
        ensures
            config == self@.config,
    {
        self.config
    }

    /// Puts a new item at `position`, in a new last slot, and returns its
    /// handle.
    pub fn spawn_item(&mut self, position: Vec2) -> (id: u64)
        requires
            old(self).wf(),
            old(self)@.next_id < u64::MAX,
        ensures
            final(self).wf(),
            final(self)@ == old(self)@.spawned(position@),
            id == old(self)@.next_id,
            old(self)@.steps_to(final(self)@),
    {
        let id: u64 = self.next_id;
        self.items.push(Item { id, position });
        self.next_id = id + 1;
        assert(self@.items =~= old(self)@.spawned(position@).items);
        id
    }

    /// Tells whether the player can move under the held keys for `dt`, as
    /// [`Game::player_move`] requires.
    pub fn can_move(&self, input: InputState, dt: u32) -> (ok: bool)
        ensures
            ok == self@.can_move(input, dt as int),
    {
        checked_integrate(
            self.player.position,
            compute_direction(input),
            self.config.speed,
            dt,
        ).is_some()
    }

    /// Moves the player under the held keys for `dt`, and sets its facing and
    /// flip from the direction of the movement.
    pub fn player_move(&mut self, input: InputState, dt: u32)
        requires
            old(self).wf(),
            old(self)@.can_move(input, dt as int),
        ensures
            final(self).wf(),
            final(self)@ == old(self)@.moved(input, dt as int),
            old(self)@.steps_to(final(self)@),
    {
        self.player = self.player.moved(input, self.config.speed, dt);
    }

    /// Tells whether the item in slot `index` is within the player's reach.
    pub fn in_reach(&self, index: usize) -> (near: bool)
        requires
            index < self@.items.len(),
        ensures
            near == self@.in_reach(index as int),
    {
        check_pickup(self.player.position, self.items[index].position, self.config.pickup_threshold)
    }

    /// Counts the items within the player's reach.
    pub fn pickups(&self) -> (count: usize)
        ensures
            count == self@.pickups(),
    {
        let mut count: usize = 0;
        let mut index: usize = 0;
        while index < self.items.len()
            invariant
                index <= self.items.len(),
                self.items.len() == self@.items.len(),
                count == self@.pickups_before(index as int),
                count <= index,
            decreases self.items.len() - index,
        {
            if self.in_reach(index) {
                count = count + 1;
            }
            index = index + 1;
        }
        count
    }

    /// Tells whether score and handles have room for the pickups that are
    /// due, as [`Game::item_interact`] requires.
    pub fn can_interact(&self) -> (ok: bool)
        ensures
            ok == self@.has_room(),
    {
        let due: u128 = self.pickups() as u128;
        self.score as u128 + due <= u32::MAX as u128 && self.next_id as u128 + due
            <= u64::MAX as u128
    }

    /// Carries out the four effects of a pickup on the item in slot `index`.
    fn collect(&mut self, index: usize, sample_x: u32, sample_y: u32)
        requires
            old(self).wf(),
            index < old(self)@.items.len(),
            old(self)@.score < u32::MAX,
            old(self)@.next_id < u64::MAX,
        ensures
            final(self).wf(),
            final(self)@ == old(self)@.collected(index as int, sample_x as int, sample_y as int),
    {
        let id: u64 = self.next_id;
        let position: Vec2 = spawn_position(sample_x, sample_y, self.config.spawn_range);
        self.items[index] = Item { id, position };
        self.score = self.score + 1;
        self.effects.push(Effect::PickupSound);
        self.next_id = id + 1;
        assert(self@.items =~= old(self)@.collected(
            index as int,
            sample_x as int,
            sample_y as int,
        ).items);
    }

    /// Gives the item in slot `index` its turn: if it is within the player's
    /// reach it is picked up, and its successor appears where the two samples
    /// lead; if it is not, nothing happens. Says whether it was picked up.
    pub fn pickup(&mut self, index: usize, sample_x: u32, sample_y: u32) -> (picked: bool)
        requires
            old(self).wf(),
            index < old(self)@.items.len(),
            old(self)@.in_reach(index as int) ==> old(self)@.score < u32::MAX && old(self)@.next_id
                < u64::MAX,
        ensures
            final(self).wf(),
            picked == old(self)@.in_reach(index as int),
            final(self)@ == old(self)@.picked(index as int, sample_x as int, sample_y as int),
            old(self)@.steps_to(final(self)@),
    {
        if self.in_reach(index) {
            self.collect(index, sample_x, sample_y);
            true
        } else {
            false
        }
    }

    /// Scans all items and picks up each one that is within the player's
    /// reach, putting its successor at a random place of the spawn area. An
    /// item that appears during the scan is not looked at again by it.
    pub fn item_interact(&mut self)
        requires
            old(self).wf(),
            old(self)@.has_room(),
        ensures
            final(self).wf(),
            old(self)@.interacted(final(self)@),
            old(self)@.steps_to(final(self)@),
    {
        let mut rng = rand::thread_rng();
        let mut index: usize = 0;
        while index < self.items.len()
            invariant
                self.wf(),
                old(self).wf(),
                old(self)@.has_room(),
                index <= self.items.len(),
                self.items.len() == self@.items.len(),
                old(self)@.scanned(self@, index as int),
            decreases self.items.len() - index,
        {
            proof {
                lemma_pickups_before_bounds(old(self)@, index as int + 1);
            }
            if self.in_reach(index) {
                let sample_x: u32 = next_sample(&mut rng);
                let sample_y: u32 = next_sample(&mut rng);
                self.collect(index, sample_x, sample_y);
                proof {
                    assert(self.items@.len() == item_models(self.items@).len());
                    let range: int = self@.config.spawn_range as int;
                    let place: Point = spawn_point(sample_x as int, sample_y as int, range);
                    lemma_spawnable_in_area(place, range);
                    assert(self@.effects =~= old(self)@.effects + pickup_sounds(
                        old(self)@.pickups_before(index as int + 1),
                    ));
                }
            }
            index = index + 1;
        }
    }

    /// Hands over the effects that are pending, oldest first, and forgets
    /// them.
    pub fn drain_effects(&mut self) -> (effects: Vec<Effect>)
        requires
            old(self).wf(),
        ensures
            final(self).wf(),
            effects@ == old(self)@.effects,
            final(self)@ == old(self)@.drained(),
            old(self)@.steps_to(final(self)@),
    {
        let mut effects: Vec<Effect> = Vec::new();
        std::mem::swap(&mut self.effects, &mut effects);
        effects
    }
}

} // verus!
