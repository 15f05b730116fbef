//! Lane mechanics of config-driven games: spawning entities into lanes,
//! moving players between the three lanes, resolving the entities a player
//! meets (dodge and catch), and dropping entities that have left the field.
//!
//! Entity distances are continuous and stay with the host, which reports per
//! entity which range it is in this frame; the points of an award, a
//! floating-point function of the combo, come as a table indexed by combo.
use vstd::prelude::*;
use crate::config::{GameConfig, nonzero_actions};
use crate::config_game::{ConfigGame, ConfigPlayer, Entity, MAX_ENTITIES};
use crate::PLAYER_CAPACITY;

verus! {

/// The lane a lane seed (a non-negative whole number derived from the
/// session clock) selects: -1, 0 or 1.
pub open spec fn seed_lane(seed: u8) -> i8 {
    ((seed % 3) as int - 1) as i8
}

/// The lane after a frame's moves: bit 1 of the mask steps left, bit 2
/// steps right, never beyond the outer lanes -1 and 1.
pub open spec fn moved_lane(lane: i8, mask: u32) -> i8 {
    let left = if mask & 1 != 0 {
        if lane > -1 { (lane - 1) as i8 } else { -1i8 }
    } else {
        lane
    };
    if mask & 2 != 0 {
        if left < 1 { (left + 1) as i8 } else { 1i8 }
    } else {
        left
    }
}

/// Moves a lane by a frame's action mask.
pub fn move_lane(lane: i8, mask: u32) -> (l: i8)
    ensures
        l == moved_lane(lane, mask),
{
    let left = if mask & 1 != 0 {
        if lane > -1 { lane - 1 } else { -1 }
    } else {
        lane
    };
    if mask & 2 != 0 {
        if left < 1 { left + 1 } else { 1 }
    } else {
        left
    }
}

/// The entities at indices below `count` whose `keep` flag is set, in order.
pub open spec fn kept<T>(items: Seq<T>, keep: Seq<bool>, count: int) -> Seq<T>
    decreases count,
{
    if count <= 0 {
        Seq::empty()
    } else if keep[count - 1] {
        kept(items, keep, count - 1).push(items[count - 1])
    } else {
        kept(items, keep, count - 1)
    }
}

/// Drops the items below `count` whose `keep` flag is clear, moving the
/// kept ones to the front in order; returns how many were kept. Slots from
/// the new count on are left as they were. The host runs its own per-entity
/// values through the same call so that they stay aligned with the entities.
pub fn compact_kept<T: Copy>(items: &mut [T; MAX_ENTITIES], count: usize, keep: [bool; MAX_ENTITIES]) -> (n: usize)
    requires
        count <= MAX_ENTITIES,
    ensures
        n <= count,
        final(items)@.take(n as int) == kept(old(items)@, keep@, count as int),
        forall|i: int| n <= i < MAX_ENTITIES ==> #[trigger] final(items)@[i] == old(items)@[i],
{
    let ghost before = items@;
    let mut write: usize = 0;
    let mut read: usize = 0;
    while read < count
        invariant
            count <= MAX_ENTITIES,
            write <= read <= count,
            items@.take(write as int) == kept(before, keep@, read as int),
            forall|i: int| write <= i < MAX_ENTITIES ==> #[trigger] items@[i] == before[i],
        decreases count - read,
    {
        if keep[read] {
            let item = items[read];
            items[write] = item;
            assert(items@.take(write + 1) =~= kept(before, keep@, read as int).push(before[read as int]));
            write = write + 1;
        } else {
            assert(items@.take(write as int) =~= kept(before, keep@, read + 1));
        }
        read = read + 1;
    }
    write
}

} // verus!

verus! {

impl ConfigGame {
    /// Adds an entity in the next free slot if there is one.
    pub fn spawn_entity(&mut self, lane: i8, action: u32) -> (spawned: bool)
        requires
            old(self).entity_count <= MAX_ENTITIES,
        ensures
            spawned == (old(self).entity_count < MAX_ENTITIES),
            !spawned ==> *final(self) == *old(self),
            spawned ==> {
                &&& final(self).entities@ == old(self).entities@.update(
                    old(self).entity_count as int, Entity { lane, action, resolved: false })
                &&& *final(self) == (ConfigGame {
                    entities: final(self).entities,
                    entity_count: (old(self).entity_count + 1) as usize,
                    ..*old(self)
                })
            },
    {
        if self.entity_count >= MAX_ENTITIES {
            return false;
        }
        let mut entities = self.entities;
        entities[self.entity_count] = Entity { lane, action, resolved: false };
        self.entities = entities;
        self.entity_count = self.entity_count + 1;
        true
    }

    /// The action a dodge obstacle asks for: the active action that `pick`
    /// (a whole number derived from the session clock) selects, or none.
    pub open spec fn obstacle_action(config: GameConfig, pick: usize) -> u32 {
        let actions = nonzero_actions(config.actions@);
        if actions.len() == 0 { 0 } else { actions[pick as int % actions.len() as int] }
    }

    /// Spawns a dodge obstacle in the lane `lane_seed` selects, asking for the
    /// action `pick` selects.
    pub fn spawn_obstacle(&mut self, config: &GameConfig, pick: usize, lane_seed: u8) -> (spawned: bool)
        requires
            old(self).entity_count <= MAX_ENTITIES,
        ensures
            spawned == (old(self).entity_count < MAX_ENTITIES),
            !spawned ==> *final(self) == *old(self),
            spawned ==> {
                &&& final(self).entities@ == old(self).entities@.update(old(self).entity_count as int,
                    Entity { lane: seed_lane(lane_seed), action: ConfigGame::obstacle_action(*config, pick), resolved: false })
                &&& *final(self) == (ConfigGame {
                    entities: final(self).entities,
                    entity_count: (old(self).entity_count + 1) as usize,
                    ..*old(self)
                })
            },
    {
        let actions = config.active_actions();
        let action = if actions.len() == 0 { 0 } else { actions[pick % actions.len()] };
        let lane = (lane_seed % 3) as i8 - 1;
        self.spawn_entity(lane, action)
    }

    /// Spawns a catch target (no action) in the lane `lane_seed` selects.
    pub fn spawn_target(&mut self, lane_seed: u8) -> (spawned: bool)
        requires
            old(self).entity_count <= MAX_ENTITIES,
        ensures
            spawned == (old(self).entity_count < MAX_ENTITIES),
            !spawned ==> *final(self) == *old(self),
            spawned ==> {
                &&& final(self).entities@ == old(self).entities@.update(old(self).entity_count as int,
                    Entity { lane: seed_lane(lane_seed), action: 0, resolved: false })
                &&& *final(self) == (ConfigGame {
                    entities: final(self).entities,
                    entity_count: (old(self).entity_count + 1) as usize,
                    ..*old(self)
                })
            },
    {
        let lane = (lane_seed % 3) as i8 - 1;
        self.spawn_entity(lane, 0)
    }

    /// Drops the entities whose `keep` flag is clear (the host clears it for
    /// those that have passed the player), keeping the order of the rest.
    pub fn compact_entities(&mut self, keep: [bool; MAX_ENTITIES])
        requires
            old(self).entity_count <= MAX_ENTITIES,
        ensures
            final(self).entity_count <= old(self).entity_count,
            final(self).entities@.take(final(self).entity_count as int)
                == kept(old(self).entities@, keep@, old(self).entity_count as int),
            *final(self) == (ConfigGame {
                entities: final(self).entities,
                entity_count: final(self).entity_count,
                ..*old(self)
            }),
    {
        let mut entities = self.entities;
        let n = compact_kept(&mut entities, self.entity_count, keep);
        self.entities = entities;
        self.entity_count = n;
    }
}

} // verus!

verus! {

/// What an entity does to a player sweeping past it this frame.
#[derive(Clone, Copy, Debug, PartialEq, Eq, Structural)]
pub enum Contact {
    /// Nothing happens.
    Clear,
    /// The player resolves it and scores.
    Hit,
    /// The player collides with it.
    Crash,
}

/// Dodge: an unresolved obstacle within reach is hit when the mask performs
/// its action, and crashes into the player when it is at the collision line
/// in the player's lane.
pub open spec fn dodge_contact(en: Entity, lane: i8, mask: u32, reach: bool, at_line: bool) -> Contact {
    if en.resolved || !reach {
        Contact::Clear
    } else if en.action != 0 && mask & en.action != 0 {
        Contact::Hit
    } else if at_line && en.lane == lane {
        Contact::Crash
    } else {
        Contact::Clear
    }
}

/// Catch: an unresolved target within the catch window in the player's lane
/// is caught.
pub open spec fn catch_contact(en: Entity, lane: i8, catchable: bool) -> Contact {
    if !en.resolved && catchable && en.lane == lane { Contact::Hit } else { Contact::Clear }
}

/// The contact rule of the mechanic: dodge with `a` = within reach and `b`
/// = at the collision line, or catch with `a` = within the catch window.
pub open spec fn contact_rule(dodge: bool, en: Entity, lane: i8, mask: u32, a: bool, b: bool) -> Contact {
    if dodge { dodge_contact(en, lane, mask, a, b) } else { catch_contact(en, lane, a) }
}

fn contact_of(dodge: bool, en: Entity, lane: i8, mask: u32, a: bool, b: bool) -> (c: Contact)
    ensures
        c == contact_rule(dodge, en, lane, mask, a, b),
{
    if dodge {
        if en.resolved || !a {
            Contact::Clear
        } else if en.action != 0 && mask & en.action != 0 {
            Contact::Hit
        } else if b && en.lane == lane {
            Contact::Crash
        } else {
            Contact::Clear
        }
    } else if !en.resolved && a && en.lane == lane {
        Contact::Hit
    } else {
        Contact::Clear
    }
}

impl ConfigPlayer {
    /// After a collision: combo broken, one life lost (none below zero).
    pub open spec fn crashed(self) -> ConfigPlayer {
        ConfigPlayer { combo: 0, lives: if self.lives > 0 { (self.lives - 1) as u8 } else { 0u8 }, ..self }
    }

    /// The player after meeting `contacts` in order, each hit scoring the
    /// points the table gives for the combo before it; `None` when a hit's
    /// combo has no entry in the table or its award would overflow.
    pub open spec fn after_contacts(self, contacts: Seq<Contact>, points: Seq<u32>) -> Option<ConfigPlayer>
        decreases contacts.len(),
    {
        if contacts.len() == 0 {
            Some(self)
        } else {
            let rest = contacts.drop_first();
            match contacts[0] {
                Contact::Clear => self.after_contacts(rest, points),
                Contact::Crash => self.crashed().after_contacts(rest, points),
                Contact::Hit => if self.combo < points.len() && self.can_award(points[self.combo as int]) {
                    self.awarded(points[self.combo as int]).after_contacts(rest, points)
                } else {
                    None
                },
            }
        }
    }
}

/// The entities after a pass: those with a contact are resolved.
pub open spec fn resolved_by(ents: Seq<Entity>, contacts: Seq<Contact>) -> Seq<Entity> {
    Seq::new(ents.len(), |i: int| if 0 <= i < contacts.len() && contacts[i] != Contact::Clear {
        Entity { resolved: true, ..ents[i] }
    } else {
        ents[i]
    })
}

/// The contacts a player in `lane` acting with `mask` meets along the first
/// `count` entities.
pub open spec fn pass_contacts(ents: Seq<Entity>, count: int, dodge: bool, lane: i8, mask: u32, a: Seq<bool>, b: Seq<bool>) -> Seq<Contact> {
    Seq::new(count as nat, |i: int| contact_rule(dodge, ents[i], lane, mask, a[i], b[i]))
}

/// The state of a sweep: players, entities, hit flash, miss flash.
pub type SweepState = (Seq<ConfigPlayer>, Seq<Entity>, bool, bool);

/// Players from `p` on, in order, each evaluated one moving lanes by their
/// mask and then meeting the first `count` entities as the entities stand
/// after the players before; `None` when an award cannot be made.
pub open spec fn sweep(st: SweepState, p: int, count: int, dodge: bool, masks: Seq<u32>, a: Seq<bool>, b: Seq<bool>, points: Seq<u32>) -> Option<SweepState>
    decreases 4 - p,
{
    if p >= 4 {
        Some(st)
    } else if !st.0[p].evaluated {
        sweep(st, p + 1, count, dodge, masks, a, b, points)
    } else {
        let lane = moved_lane(st.0[p].lane, masks[p]);
        let cs = pass_contacts(st.1, count, dodge, lane, masks[p], a, b);
        match (ConfigPlayer { lane, ..st.0[p] }).after_contacts(cs, points) {
            None => None,
            Some(pl) => sweep(
                (st.0.update(p, pl), resolved_by(st.1, cs), st.2 || cs.contains(Contact::Hit), st.3 || cs.contains(Contact::Crash)),
                p + 1, count, dodge, masks, a, b, points),
        }
    }
}

} // verus!

verus! {

/// One player's pass along the first `count` entities: resolves those with
/// a contact and returns the player after them with whether any hit and
/// whether any crash happened.
fn pass_entities(
    entities: &mut [Entity; MAX_ENTITIES],
    count: usize,
    player: ConfigPlayer,
    dodge: bool,
    mask: u32,
    a: [bool; MAX_ENTITIES],
    b: [bool; MAX_ENTITIES],
    points: &Vec<u32>,
) -> (r: (ConfigPlayer, bool, bool))
    requires
        count <= MAX_ENTITIES,
        player.after_contacts(pass_contacts(old(entities)@, count as int, dodge, player.lane, mask, a@, b@), points@) is Some,
    ensures
        ({
            let cs = pass_contacts(old(entities)@, count as int, dodge, player.lane, mask, a@, b@);
            &&& player.after_contacts(cs, points@) == Some(r.0)
            &&& final(entities)@ == resolved_by(old(entities)@, cs)
            &&& r.1 == cs.contains(Contact::Hit)
            &&& r.2 == cs.contains(Contact::Crash)
        }),
{
    let ghost ents0 = entities@;
    let ghost cs = pass_contacts(ents0, count as int, dodge, player.lane, mask, a@, b@);
    let lane = player.lane;
    let mut cur = player;
    let mut hit = false;
    let mut crash = false;
    let mut e: usize = 0;
    assert(cs.subrange(0, count as int) =~= cs);
    while e < count
        invariant
            e <= count <= MAX_ENTITIES,
            ents0.len() == MAX_ENTITIES,
            cs.len() == count,
            lane == player.lane,
            cs == pass_contacts(ents0, count as int, dodge, lane, mask, a@, b@),
            player.after_contacts(cs, points@) is Some,
            cur.after_contacts(cs.subrange(e as int, count as int), points@) == player.after_contacts(cs, points@),
            forall|i: int| 0 <= i < e ==> #[trigger] entities@[i] == resolved_by(ents0, cs)[i],
            forall|i: int| e <= i < MAX_ENTITIES ==> #[trigger] entities@[i] == ents0[i],
            hit == exists|i: int| 0 <= i < e && cs[i] == Contact::Hit,
            crash == exists|i: int| 0 <= i < e && cs[i] == Contact::Crash,
        decreases count - e,
    {
        let en = entities[e];
        let c = contact_of(dodge, en, lane, mask, a[e], b[e]);
        let ghost rest = cs.subrange(e as int, count as int);
        assert(rest[0] == cs[e as int]);
        assert(rest.drop_first() =~= cs.subrange(e + 1, count as int));
        assert(c == cs[e as int]);
        match c {
            Contact::Hit => {
                let pts = points[cur.combo as usize];
                let combo = cur.combo + 1;
                cur = ConfigPlayer {
                    combo,
                    best_combo: if cur.best_combo > combo { cur.best_combo } else { combo },
                    score: cur.score + pts,
                    ..cur
                };
                entities[e] = Entity { resolved: true, ..en };
                hit = true;
            },
            Contact::Crash => {
                cur = ConfigPlayer { combo: 0, lives: if cur.lives > 0 { cur.lives - 1 } else { 0 }, ..cur };
                entities[e] = Entity { resolved: true, ..en };
                crash = true;
            },
            Contact::Clear => {},
        }
        e = e + 1;
    }
    assert(cs.subrange(count as int, count as int) =~= Seq::<Contact>::empty());
    assert(entities@ =~= resolved_by(ents0, cs));
    (cur, hit, crash)
}

impl ConfigGame {
    /// The sweep of this frame from the game's current players, entities
    /// and flashes.
    pub open spec fn frame_sweep(self, dodge: bool, masks: Seq<u32>, a: Seq<bool>, b: Seq<bool>, points: Seq<u32>) -> Option<SweepState> {
        sweep((self.players@, self.entities@, self.hit_flash, self.miss_flash), 0, self.entity_count as int, dodge, masks, a, b, points)
    }

    fn sweep_players(&mut self, dodge: bool, masks: [u32; PLAYER_CAPACITY], a: [bool; MAX_ENTITIES], b: [bool; MAX_ENTITIES], points: &Vec<u32>)
        requires
            old(self).entity_count <= MAX_ENTITIES,
            old(self).frame_sweep(dodge, masks@, a@, b@, points@) is Some,
        ensures
            old(self).frame_sweep(dodge, masks@, a@, b@, points@)
                == Some((final(self).players@, final(self).entities@, final(self).hit_flash, final(self).miss_flash)),
            *final(self) == (ConfigGame {
                players: final(self).players,
                entities: final(self).entities,
                hit_flash: final(self).hit_flash,
                miss_flash: final(self).miss_flash,
                ..*old(self)
            }),
    {
        let ghost target = old(self).frame_sweep(dodge, masks@, a@, b@, points@);
        let ghost pre = *self;
        let count = self.entity_count;
        let mut players = self.players;
        let mut entities = self.entities;
        let mut hit = self.hit_flash;
        let mut miss = self.miss_flash;
        let mut p: usize = 0;
        while p < PLAYER_CAPACITY
            invariant
                p <= PLAYER_CAPACITY,
                count == pre.entity_count,
                count <= MAX_ENTITIES,
                target is Some,
                sweep((players@, entities@, hit, miss), p as int, count as int, dodge, masks@, a@, b@, points@) == target,
            decreases PLAYER_CAPACITY - p,
        {
            let player = players[p];
            if player.evaluated {
                let lane = move_lane(player.lane, masks[p]);
                let moved = ConfigPlayer { lane, ..player };
                let ghost cs = pass_contacts(entities@, count as int, dodge, lane, masks[p as int], a@, b@);
                let r = pass_entities(&mut entities, count, moved, dodge, masks[p], a, b, points);
                players[p] = r.0;
                hit = hit || r.1;
                miss = miss || r.2;
            }
            p = p + 1;
        }
        self.players = players;
        self.entities = entities;
        self.hit_flash = hit;
        self.miss_flash = miss;
    }
}

} // verus!

verus! {

/// The action mask of the whole group this frame.
pub open spec fn group_mask(triggered: Seq<u32>) -> u32 {
    triggered[0] | triggered[1] | triggered[2] | triggered[3]
}

/// Whether an unresolved entity among the first `count` fell past the
/// catch line.
pub open spec fn any_fallen(ents: Seq<Entity>, count: int, fallen: Seq<bool>) -> bool {
    exists|i: int| 0 <= i < count && !ents[i].resolved && #[trigger] fallen[i]
}

/// Catch: unresolved targets that fell past are resolved as misses; a miss
/// breaks every evaluated player's combo and flashes.
pub open spec fn after_fallen(st: SweepState, count: int, fallen: Seq<bool>) -> SweepState {
    let missed = any_fallen(st.1, count, fallen);
    (
        if missed {
            Seq::new(st.0.len(), |p: int| if st.0[p].evaluated { ConfigPlayer { combo: 0, ..st.0[p] } } else { st.0[p] })
        } else {
            st.0
        },
        Seq::new(st.1.len(), |i: int| if 0 <= i < count && !st.1[i].resolved && fallen[i] {
            Entity { resolved: true, ..st.1[i] }
        } else {
            st.1[i]
        }),
        st.2,
        st.3 || missed,
    )
}

impl ConfigGame {
    /// One dodge frame, after spawning and moving. Every evaluated player in
    /// turn steps lanes by the whole group's mask (bit 1 left, bit 2 right)
    /// and meets each unresolved obstacle within reach: performing its
    /// action resolves it and scores `points[combo]` with the combo
    /// extended; otherwise an obstacle at the collision line in the player's
    /// lane resolves as a crash, breaking the combo and costing a life.
    /// `reach[i]` and `at_line[i]` report obstacle `i`'s range.
    pub fn dodge_step(
        &mut self,
        triggered: [u32; PLAYER_CAPACITY],
        reach: [bool; MAX_ENTITIES],
        at_line: [bool; MAX_ENTITIES],
        points: &Vec<u32>,
    )
        requires
            old(self).entity_count <= MAX_ENTITIES,
            old(self).frame_sweep(true, Seq::new(4, |p: int| group_mask(triggered@)), reach@, at_line@, points@) is Some,
        ensures
            old(self).frame_sweep(true, Seq::new(4, |p: int| group_mask(triggered@)), reach@, at_line@, points@)
                == Some((final(self).players@, final(self).entities@, final(self).hit_flash, final(self).miss_flash)),
            *final(self) == (ConfigGame {
                players: final(self).players,
                entities: final(self).entities,
                hit_flash: final(self).hit_flash,
                miss_flash: final(self).miss_flash,
                ..*old(self)
            }),
    {
        let mask = triggered[0] | triggered[1] | triggered[2] | triggered[3];
        let masks = [mask; PLAYER_CAPACITY];
        assert(masks@ =~= Seq::new(4, |p: int| group_mask(triggered@)));
        self.sweep_players(true, masks, reach, at_line, points);
    }

    fn drop_fallen(&mut self, fallen: [bool; MAX_ENTITIES])
        requires
            old(self).entity_count <= MAX_ENTITIES,
        ensures
            (final(self).players@, final(self).entities@, final(self).hit_flash, final(self).miss_flash)
                == after_fallen((old(self).players@, old(self).entities@, old(self).hit_flash, old(self).miss_flash),
                    old(self).entity_count as int, fallen@),
            *final(self) == (ConfigGame {
                players: final(self).players,
                entities: final(self).entities,
                miss_flash: final(self).miss_flash,
                ..*old(self)
            }),
    {
        let ghost pre = *self;
        let count = self.entity_count;
        let mut entities = self.entities;
        let mut missed = false;
        let mut i: usize = 0;
        while i < count
            invariant
                i <= count <= MAX_ENTITIES,
                count == pre.entity_count,
                missed == exists|k: int| 0 <= k < i && !pre.entities[k].resolved && #[trigger] fallen[k],
                forall|k: int| 0 <= k < i ==> #[trigger] entities[k] == (if !pre.entities[k].resolved && fallen[k] {
                    Entity { resolved: true, ..pre.entities[k] }
                } else {
                    pre.entities[k]
                }),
                forall|k: int| i <= k < MAX_ENTITIES ==> #[trigger] entities[k] == pre.entities[k],
            decreases count - i,
        {
            let en = entities[i];
            if !en.resolved && fallen[i] {
                entities[i] = Entity { resolved: true, ..en };
                missed = true;
            }
            i = i + 1;
        }
        let mut players = self.players;
        if missed {
            let mut p: usize = 0;
            while p < PLAYER_CAPACITY
                invariant
                    p <= PLAYER_CAPACITY,
                    forall|k: int| 0 <= k < p ==> #[trigger] players[k] == (if pre.players[k].evaluated {
                        ConfigPlayer { combo: 0, ..pre.players[k] }
                    } else {
                        pre.players[k]
                    }),
                    forall|k: int| p <= k < PLAYER_CAPACITY ==> #[trigger] players[k] == pre.players[k],
                decreases PLAYER_CAPACITY - p,
            {
                let pl = players[p];
                if pl.evaluated {
                    players[p] = ConfigPlayer { combo: 0, ..pl };
                }
                p = p + 1;
            }
        }
        let ghost st = after_fallen((pre.players@, pre.entities@, pre.hit_flash, pre.miss_flash), count as int, fallen@);
        assert(missed == any_fallen(pre.entities@, count as int, fallen@));
        assert(entities@ =~= st.1);
        assert(players@ =~= st.0);
        self.players = players;
        self.entities = entities;
        if missed {
            self.miss_flash = true;
        }
    }

    /// One catch frame, after spawning and moving. Every evaluated player in
    /// turn steps lanes by their own mask and catches each unresolved target
    /// in their lane within the catch window (`catchable[i]`), scoring
    /// `points[combo]` with the combo extended. Then unresolved targets that
    /// fell past (`fallen[i]`) resolve as misses, breaking every evaluated
    /// player's combo.
    pub fn catch_step(
        &mut self,
        triggered: [u32; PLAYER_CAPACITY],
        catchable: [bool; MAX_ENTITIES],
        fallen: [bool; MAX_ENTITIES],
        points: &Vec<u32>,
    )
        requires
            old(self).entity_count <= MAX_ENTITIES,
            old(self).frame_sweep(false, triggered@, catchable@, catchable@, points@) is Some,
        ensures
            after_fallen(old(self).frame_sweep(false, triggered@, catchable@, catchable@, points@)->0,
                old(self).entity_count as int, fallen@)
                == (final(self).players@, final(self).entities@, final(self).hit_flash, final(self).miss_flash),
            *final(self) == (ConfigGame {
                players: final(self).players,
                entities: final(self).entities,
                hit_flash: final(self).hit_flash,
                miss_flash: final(self).miss_flash,
                ..*old(self)
            }),
    {
        self.sweep_players(false, triggered, catchable, catchable, points);
        self.drop_fallen(fallen);
    }
}

} // verus!

verus! {

/// What meeting entities can do to a player: lives never rise, the score
/// never falls, evaluation and lane stay.
pub proof fn lemma_contacts_bounded(pl: ConfigPlayer, cs: Seq<Contact>, points: Seq<u32>)
    requires
        pl.after_contacts(cs, points) is Some,
    ensures
        ({
            let r = pl.after_contacts(cs, points)->0;
            &&& r.lives <= pl.lives
            &&& r.score >= pl.score
            &&& r.evaluated == pl.evaluated
            &&& r.lane == pl.lane
        }),
    decreases cs.len(),
{
    if cs.len() > 0 {
        let rest = cs.drop_first();
        match cs[0] {
            Contact::Clear => lemma_contacts_bounded(pl, rest, points),
            Contact::Crash => lemma_contacts_bounded(pl.crashed(), rest, points),
            Contact::Hit => lemma_contacts_bounded(pl.awarded(points[pl.combo as int]), rest, points),
        }
    }
}

/// A sweep from player `p` on: entities keep their lane and action and stay
/// resolved once resolved; players who are not evaluated are untouched;
/// evaluated ones never gain lives nor lose score; a raised flash stays.
pub proof fn lemma_sweep_keeps(st: SweepState, p: int, count: int, dodge: bool, masks: Seq<u32>, a: Seq<bool>, b: Seq<bool>, points: Seq<u32>)
    requires
        sweep(st, p, count, dodge, masks, a, b, points) is Some,
        st.0.len() == PLAYER_CAPACITY,
        0 <= p,
        0 <= count <= st.1.len(),
    ensures
        ({
            let r = sweep(st, p, count, dodge, masks, a, b, points)->0;
            &&& r.0.len() == st.0.len()
            &&& r.1.len() == st.1.len()
            &&& forall|i: int| 0 <= i < st.1.len() ==> #[trigger] r.1[i].lane == st.1[i].lane
                && r.1[i].action == st.1[i].action && (st.1[i].resolved ==> r.1[i].resolved)
            &&& forall|q: int| 0 <= q < 4 && !st.0[q].evaluated ==> #[trigger] r.0[q] == st.0[q]
            &&& forall|q: int| 0 <= q < 4 ==> #[trigger] r.0[q].lives <= st.0[q].lives
                && r.0[q].score >= st.0[q].score && r.0[q].evaluated == st.0[q].evaluated
            &&& st.2 ==> r.2
            &&& st.3 ==> r.3
        }),
    decreases 4 - p,
{
    if p < 4 {
        if !st.0[p].evaluated {
            lemma_sweep_keeps(st, p + 1, count, dodge, masks, a, b, points);
        } else {
            let lane = moved_lane(st.0[p].lane, masks[p]);
            let cs = pass_contacts(st.1, count, dodge, lane, masks[p], a, b);
            let moved = ConfigPlayer { lane, ..st.0[p] };
            lemma_contacts_bounded(moved, cs, points);
            let pl = moved.after_contacts(cs, points)->0;
            let next = (st.0.update(p, pl), resolved_by(st.1, cs), st.2 || cs.contains(Contact::Hit), st.3 || cs.contains(Contact::Crash));
            lemma_sweep_keeps(next, p + 1, count, dodge, masks, a, b, points);
        }
    }
}

} // verus!

verus! {

impl ConfigGame {
    /// A dodge or catch sweep of a frame never un-resolves an entity nor
    /// moves it to another lane or changes its action, never touches players
    /// who are not evaluated, and never gives a life or takes score away.
    pub proof fn lemma_frame_sweep_keeps(self, dodge: bool, masks: Seq<u32>, a: Seq<bool>, b: Seq<bool>, points: Seq<u32>)
        requires
            self.entity_count <= MAX_ENTITIES,
            self.frame_sweep(dodge, masks, a, b, points) is Some,
        ensures
            ({
                let r = self.frame_sweep(dodge, masks, a, b, points)->0;
                &&& forall|i: int| 0 <= i < MAX_ENTITIES ==> #[trigger] r.1[i].lane == self.entities@[i].lane
                    && r.1[i].action == self.entities@[i].action
                    && (self.entities@[i].resolved ==> r.1[i].resolved)
                &&& forall|q: int| 0 <= q < 4 && !self.players@[q].evaluated ==> #[trigger] r.0[q] == self.players@[q]
                &&& forall|q: int| 0 <= q < 4 ==> #[trigger] r.0[q].lives <= self.players@[q].lives
                    && r.0[q].score >= self.players@[q].score
            }),
    {
        let st = (self.players@, self.entities@, self.hit_flash, self.miss_flash);
        lemma_sweep_keeps(st, 0, self.entity_count as int, dodge, masks, a, b, points);
        let r = self.frame_sweep(dodge, masks, a, b, points)->0;
        assert forall|q: int| 0 <= q < 4 implies #[trigger] r.0[q].lives <= self.players@[q].lives
            && r.0[q].score >= self.players@[q].score by {
            assert(r.0[q].lives <= st.0[q].lives);
        }
    }
}

} // verus!
