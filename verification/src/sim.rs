//! The replay orchestrator: many concurrent game machines keyed by game
//! identifier, fed one recorded event at a time, each compared against the
//! event the local model predicts.
//!
//! A failed comparison is surfaced as a divergence carrying both events and
//! commits nothing: the machine's phase and play counter, the games table
//! and the generator all stay as they were before the attempt, so a later
//! call starts from the same committed state.

use vstd::prelude::*;
use std::collections::HashMap;
use crate::errors::SimError;
use crate::events::{event_eq, events_match, spec_game_of, EventData, EventV};
use crate::game::{game_room, spec_new_game, spec_tick, wf_game, Game};
use crate::rng::{rng_inv, Rng, RngState};
use crate::roster::World;

verus! {

broadcast use vstd::std_specs::hash::group_hash_axioms;

/// The validator: one generator and one world shared by every game machine,
/// the machines keyed by game identifier.
#[derive(Debug)]
pub struct Sim {
    pub games: HashMap<u128, Game>,
    pub world: World,
    pub rng: Rng,
}

/// Every tracked machine is well formed, and so is the generator.
pub open spec fn wf_sim(s: Sim) -> bool {
    &&& forall|gid: u128| s.games@.contains_key(gid) ==> wf_game(#[trigger] s.games@[gid])
    &&& rng_inv(s.rng@)
}

/// The machine the next event would advance has room for one transition.
/// A machine not tracked yet starts fresh and always has room.
pub open spec fn can_advance(s: Sim, e: EventV) -> bool {
    match spec_game_of(e) {
        None => true,
        Some(ge) => s.games@.contains_key(ge.game_id) ==> game_room(s.games@[ge.game_id]),
    }
}

/// The machine that handles this event: the tracked one, or, for an opening
/// event of an untracked game, a fresh machine built from its payload.
pub open spec fn spec_machine_for(s: Sim, e: EventV) -> Game {
    match e {
        EventV::LetsGo { game, weather, stadium_id } => if s.games@.contains_key(game.game_id) {
            s.games@[game.game_id]
        } else {
            spec_new_game(game, weather, stadium_id)
        },
        _ => s.games@[spec_game_of(e).unwrap().game_id],
    }
}

impl Sim {
    /// A validator over a fresh generator seeded with two words, an empty
    /// games table, and the given world.
    pub fn new(s0: u64, s1: u64, world: World) -> (s: Self)
        ensures
            s.games@ == Map::<u128, Game>::empty(),
            s.world == world,
            s.rng@ == (RngState { s0, s1, cache: Seq::<u64>::empty() }),
            wf_sim(s),
    {
        Sim { games: HashMap::new(), world, rng: Rng::new(s0, s1) }
    }

    /// Validate one recorded event.
    ///
    /// An event without a per-game payload is a no-op success. Otherwise the
    /// machine for its game — created from the payload when the game is new
    /// and the event is its opening event; a new game whose first event is
    /// anything else is refused and nothing is created — advances once; the
    /// predicted event must equal the recorded one. On success the advanced
    /// machine and generator are committed; on any error, including a
    /// divergence, nothing is.
    pub fn check_next_event(&mut self, event: &EventData) -> (r: Result<(), SimError>)
        requires
            wf_sim(*old(self)),
            can_advance(*old(self), (*event)@),
        ensures
            wf_sim(*final(self)),
            final(self).world == old(self).world,
            (match spec_game_of((*event)@) {
                None => r == Ok::<(), SimError>(()) && *final(self) == *old(self),
                Some(ge) => {
                    let known = old(self).games@.contains_key(ge.game_id);
                    if !known && !((*event)@ is LetsGo) {
                        &&& r == Err::<(), SimError>(SimError::UnexpectedFirstEvent)
                        &&& *final(self) == *old(self)
                    } else {
                        let s = spec_tick(
                            spec_machine_for(*old(self), (*event)@),
                            old(self).world,
                            old(self).rng@,
                        );
                        match s.0 {
                            Err(e) => r == Err::<(), SimError>(e) && *final(self) == *old(self),
                            Ok(pred) => if event_eq(pred, (*event)@) {
                                &&& r == Ok::<(), SimError>(())
                                &&& final(self).games@ == old(self).games@.insert(ge.game_id, s.1)
                                &&& final(self).rng@ == s.2
                            } else {
                                &&& (match r {
                                    Err(e) => match e {
                                        SimError::Divergence { predicted, recorded } =>
                                            predicted@ == pred && recorded@ == (*event)@,
                                        _ => false,
                                    },
                                    Ok(_) => false,
                                })
                                &&& *final(self) == *old(self)
                            },
                        }
                    }
                },
            }),
    {
        let ge = match event.game() {
            None => {
                return Ok(());
            },
            Some(g) => *g,
        };
        let gid = ge.game_id;
        let mut machine: Game;
        match self.games.get(&gid) {
            Some(g) => {
                machine = *g;
            },
            None => {
                match event {
                    EventData::LetsGo { game, weather, stadium_id } => {
                        machine = Game::new(game, *weather, *stadium_id);
                    },
                    _ => {
                        return Err(SimError::UnexpectedFirstEvent);
                    },
                }
            },
        }
        let mut rng2 = self.rng.duplicate();
        let predicted = match machine.tick(&self.world, &mut rng2) {
            Ok(ev) => ev,
            Err(e) => {
                return Err(e);
            },
        };
        if events_match(&predicted, event) {
            self.games.insert(gid, machine);
            self.rng = rng2;
            proof {
                assert forall|g2: u128| self.games@.contains_key(g2) implies wf_game(
                    self.games@[g2],
                ) by {
                    if g2 != gid {
                        assert(old(self).games@.contains_key(g2));
                    }
                }
            }
            Ok(())
        } else {
            Err(SimError::Divergence { predicted, recorded: event.duplicate() })
        }
    }
}

} // verus!
