//! Laws of the state machine, proved from [`spec_tick`]: the turn-counter
//! discipline, the phase order, the half-inning bookkeeping with and
//! without the announcement detour, and which player the detour announces.

use vstd::prelude::*;
use crate::errors::SimError;
use crate::events::EventV;
use crate::game::{
    game_room, spec_batter_up, spec_batting, spec_bump_batting, spec_game_event,
    spec_get_batter, spec_pitching, spec_superyummy, spec_superyummy_check,
    spec_superyummy_event, spec_tick, wf_game, Game, GamePhase,
};
use crate::rng::RngState;
use crate::roster::{spec_any_has_mod, spec_find_mod, World};

verus! {

/// Law: a batter-up transition advances the batting side's turn counter by
/// exactly one — it started at -1 when the game was created — leaves the
/// fielding side's counter alone, hands the phase on to the pitch, and the
/// batter it announces is the batting team's lineup slot at the new counter
/// taken modulo the lineup length, so the order wraps cyclically; the event
/// also names the batting team's nickname.
pub proof fn lemma_batter_turns(g: Game, w: World, r: RngState)
    requires
        g.phase == GamePhase::BatterUp,
        wf_game(g),
        game_room(g),
        spec_tick(g, w, r).0 is Ok,
    ensures
        spec_batting(spec_tick(g, w, r).1).team_batter_count
            == spec_batting(g).team_batter_count + 1,
        spec_pitching(spec_tick(g, w, r).1).team_batter_count
            == spec_pitching(g).team_batter_count,
        spec_tick(g, w, r).1.phase == GamePhase::Pitch,
        ({
            let team = w.teams@[spec_batting(g).team_id];
            let count2 = spec_batting(g).team_batter_count + 1;
            let idx = count2 % (team.lineup@.len() as int);
            &&& w.teams@.contains_key(spec_batting(g).team_id)
            &&& team.lineup@.len() > 0
            &&& (match spec_tick(g, w, r).0 {
                Ok(ev) => ev matches EventV::BatterUp { batter_name, team_nickname, .. }
                    && batter_name == w.players@[team.lineup@[idx]].name@
                    && team_nickname == team.nickname@,
                Err(_) => false,
            })
        }),
{
    let s = spec_batter_up(g, w);
    let g1 = spec_bump_batting(g);
    assert(spec_get_batter(g1, w) is Ok);
}

/// Law: phase order and play bookkeeping, one transition at a time. The
/// opening phases are passed once each and hand on in order; the
/// announcement, batter-up and pitch phases hand on to batter-up, pitch and
/// the next half-inning start; the inning and batting parity move only at a
/// half-inning start; and every transition advances the play counter by
/// exactly one.
pub proof fn lemma_phase_sequence(g: Game, w: World, r: RngState)
    requires
        wf_game(g),
        game_room(g),
        spec_tick(g, w, r).0 is Ok,
    ensures
        spec_tick(g, w, r).1.play == g.play + 1,
        g.phase == GamePhase::NotStarted ==> spec_tick(g, w, r).1.phase == GamePhase::Starting,
        g.phase == GamePhase::Starting ==> spec_tick(g, w, r).1.phase
            == GamePhase::StartOfHalfInning,
        g.phase == GamePhase::SuperyummyAnnouncement ==> spec_tick(g, w, r).1.phase
            == GamePhase::BatterUp,
        g.phase == GamePhase::BatterUp ==> spec_tick(g, w, r).1.phase == GamePhase::Pitch,
        g.phase == GamePhase::Pitch ==> spec_tick(g, w, r).1.phase
            == GamePhase::StartOfHalfInning,
        g.phase != GamePhase::StartOfHalfInning ==> spec_tick(g, w, r).1.inning == g.inning
            && spec_tick(g, w, r).1.top_of_inning == g.top_of_inning,
{
}

/// Law: a half-inning start flips the batting parity, advances the inning
/// by exactly one, and emits the half-inning event with the one-indexed
/// inning and the full name of the side now batting — which is the away
/// side exactly when the new half is a top. The phase hands on to batter-up,
/// detouring through the announcement exactly when the first-half-inning
/// check answers yes; the detour changes nothing else about the event or
/// the bookkeeping.
pub proof fn lemma_half_inning_start(g: Game, w: World, r: RngState)
    requires
        g.phase == GamePhase::StartOfHalfInning,
        wf_game(g),
        game_room(g),
        spec_tick(g, w, r).0 is Ok,
    ensures
        ({
            let g2 = spec_tick(g, w, r).1;
            let top2 = !g.top_of_inning;
            let bat1 = if top2 {
                g.away.team_id
            } else {
                g.home.team_id
            };
            &&& g2.top_of_inning == top2
            &&& g2.inning == g.inning + 1
            &&& spec_batting(g2).team_id == bat1
            &&& g2.home.team_batter_count == g.home.team_batter_count
            &&& g2.away.team_batter_count == g.away.team_batter_count
            &&& w.teams@.contains_key(bat1)
            &&& spec_tick(g, w, r).0 == Ok::<EventV, SimError>(EventV::HalfInningStart {
                game: spec_game_event(g),
                top_of_inning: top2,
                inning: (g.inning + 2) as i32,
                batting_team_name: w.teams@[bat1].full_name@,
            })
            &&& (spec_superyummy_check(g, w) == Ok::<bool, SimError>(false) ==> g2.phase
                == GamePhase::BatterUp)
            &&& (spec_superyummy_check(g, w) == Ok::<bool, SimError>(true) ==> g2.phase
                == GamePhase::SuperyummyAnnouncement)
        }),
{
}

/// Law: a game whose batting side fields a carrier of the passive-feeding
/// modifier at the very first half-inning start takes the announcement
/// detour; the announcement then hands on to batter-up and names exactly
/// the first carrier in search order — the batting team's lineup then
/// rotation, then the pitching team's — with the team it was found on and
/// that player's name, and that no carrier exists is a fatal inconsistency.
pub proof fn lemma_announcement_selects_first(g: Game, w: World, r: RngState)
    requires
        wf_game(g),
        game_room(g),
    ensures
        g.phase == GamePhase::StartOfHalfInning && g.inning < 0 && spec_any_has_mod(
            w,
            spec_batting(g).team_id,
            "SUPERYUMMY"@,
        ) == Ok::<bool, SimError>(true) && spec_tick(g, w, r).0 is Ok
            ==> spec_tick(g, w, r).1.phase == GamePhase::SuperyummyAnnouncement,
        g.phase == GamePhase::SuperyummyAnnouncement && spec_tick(g, w, r).0 is Ok
            ==> spec_tick(g, w, r).1.phase == GamePhase::BatterUp,
        g.phase == GamePhase::SuperyummyAnnouncement ==> ({
            let s0 = spec_tick(g, w, r).0;
            let bat = spec_batting(g).team_id;
            let pit = spec_pitching(g).team_id;
            match spec_find_mod(w, bat, "SUPERYUMMY"@) {
                Ok(found) => match found {
                    Some(p) => s0 == Ok::<EventV, SimError>(spec_superyummy_event(g, p, bat)),
                    None => match spec_find_mod(w, pit, "SUPERYUMMY"@) {
                        Ok(found2) => match found2 {
                            Some(p) => s0 == Ok::<EventV, SimError>(
                                spec_superyummy_event(g, p, pit),
                            ),
                            None => s0 == Err::<EventV, SimError>(SimError::PhaseInconsistency),
                        },
                        Err(e) => s0 == Err::<EventV, SimError>(e),
                    },
                },
                Err(e) => s0 == Err::<EventV, SimError>(e),
            }
        }),
{
}

} // verus!
