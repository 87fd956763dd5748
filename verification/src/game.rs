//! A single game's phase state machine. Each call to [`Game::tick`] advances
//! exactly one phase transition, consumes generator draws exactly where the
//! external system does, and yields exactly one output event whose play
//! number increases by one per call.
//!
//! The whole transition relation is a spec-level function, [`spec_tick`]:
//! `tick` is proved to return its event, leave the game in its next state,
//! and leave the generator exactly as many draws ahead as it says.

use vstd::prelude::*;
use crate::errors::{LookupKind, SimError, UnmodeledKind};
use crate::events::{EventData, EventV, GameEvent, TogglePerforming, ToggleV, Weather};
use crate::pitch::{
    is_strike_roll, spec_is_strike, spec_swings_on_ball, spec_swings_on_strike,
    spec_weather_fires, swings_on_ball, swings_on_strike, weather_fires,
};
use crate::rng::{peek, step, rng_inv, Rng, RngState};
use crate::roster::{spec_any_has_mod, spec_find_mod, Player, World};

verus! {

/// The phases of a game, in the order they are first entered.
#[derive(Clone, Copy, Debug, PartialEq, Eq, Structural)]
pub enum GamePhase {
    NotStarted,
    Starting,
    StartOfHalfInning,
    SuperyummyAnnouncement,
    BatterUp,
    Pitch,
}

/// Per-game, per-side mutable state: the team and its running batter-turn
/// counter, started at -1 so that the first increment yields slot 0.
#[derive(Clone, Copy, Debug, PartialEq, Eq, Structural)]
pub struct GameByTeam {
    pub team_id: u128,
    pub team_batter_count: i64,
}

impl GameByTeam {
    /// A side at the start of a game: its turn counter at -1.
    pub fn new(team_id: u128) -> (r: Self)
        ensures
            r == (GameByTeam { team_id, team_batter_count: -1i64 }),
    {
        GameByTeam { team_id, team_batter_count: -1 }
    }
}

/// One game of the simulated sport: identity, the two sides, ambient
/// weather, current phase, play counter, and half-inning position.
#[derive(Clone, Copy, Debug, PartialEq)]
pub struct Game {
    pub game_id: u128,
    pub home: GameByTeam,
    pub away: GameByTeam,
    pub weather: Weather,
    pub stadium_id: Option<u128>,
    pub phase: GamePhase,
    pub play: i64,
    pub top_of_inning: bool,
    pub inning: i32,
}

/// The counters a game keeps are in their reachable ranges, and a game in
/// the pitch phase has a batting side whose turn counter has started.
pub open spec fn wf_game(g: Game) -> bool {
    &&& g.play >= 0
    &&& g.inning >= -1
    &&& g.home.team_batter_count >= -1
    &&& g.away.team_batter_count >= -1
    &&& (g.phase == GamePhase::Pitch ==> spec_batting(g).team_batter_count >= 0)
}

/// The counters are far enough from their machine limits for one more
/// transition.
pub open spec fn game_room(g: Game) -> bool {
    &&& g.play < i64::MAX
    &&& g.inning < i32::MAX - 1
    &&& g.home.team_batter_count < i64::MAX
    &&& g.away.team_batter_count < i64::MAX
}

/// The side at bat: away during the top of an inning, home during the bottom.
pub open spec fn spec_batting(g: Game) -> GameByTeam {
    if g.top_of_inning {
        g.away
    } else {
        g.home
    }
}

/// The side in the field.
pub open spec fn spec_pitching(g: Game) -> GameByTeam {
    if g.top_of_inning {
        g.home
    } else {
        g.away
    }
}

/// The header every event of this game carries at its current play.
pub open spec fn spec_game_event(g: Game) -> GameEvent {
    GameEvent {
        game_id: g.game_id,
        home_team: g.home.team_id,
        away_team: g.away.team_id,
        play: g.play,
    }
}

/// The game one transition later: next phase, play counter advanced.
pub open spec fn spec_advance(g: Game, next: GamePhase) -> Game {
    Game { phase: next, play: (g.play + 1) as i64, ..g }
}

/// A new game from the opening event's header, weather and stadium.
pub open spec fn spec_new_game(ge: GameEvent, weather: Weather, stadium_id: Option<u128>) -> Game {
    Game {
        game_id: ge.game_id,
        home: GameByTeam { team_id: ge.home_team, team_batter_count: -1i64 },
        away: GameByTeam { team_id: ge.away_team, team_batter_count: -1i64 },
        weather,
        stadium_id,
        phase: GamePhase::NotStarted,
        play: 0,
        top_of_inning: false,
        inning: -1i32,
    }
}

/// The static item-name table: a bat identifier and its display name.
pub open spec fn spec_item_name(key: Seq<char>) -> Option<Seq<char>> {
    if key == "AN_ACTUAL_AIRPLANE"@ {
        Some("An Actual Airplane"@)
    } else {
        None
    }
}

/// Looks a bat identifier up in the item-name table.
pub fn item_name(key: &str) -> (r: Option<String>)
    ensures
        (match r {
            Some(s) => spec_item_name(key@) == Some(s@),
            None => spec_item_name(key@) is None,
        }),
{
    let k = String::from_str(key);
    let airplane = String::from_str("AN_ACTUAL_AIRPLANE");
    if k.eq(&airplane) {
        Some(String::from_str("An Actual Airplane"))
    } else {
        None
    }
}

/// The display name a batter-up event reports for a held bat: nothing for
/// no bat or an empty one, the table entry otherwise; a bat the table does
/// not know cannot be resolved.
pub open spec fn spec_wielding(bat: Option<String>) -> Result<Option<Seq<char>>, SimError> {
    match bat {
        None => Ok(None),
        Some(b) => if b@.len() == 0 {
            Ok(None)
        } else {
            match spec_item_name(b@) {
                Some(nm) => Ok(Some(nm)),
                None => Err(SimError::RosterLookup(LookupKind::UnknownItemName)),
            }
        },
    }
}

/// Weather whose whole handling is not modeled yet: reaching a pitch under
/// it is an explicit unmodeled result.
pub open spec fn weather_is_unmodeled(w: Weather) -> bool {
    w == Weather::Snowy || w == Weather::Glitter || w == Weather::Jazz
}

/// Weather that pre-empts a pitch probabilistically: one draw is consumed
/// before every pitch under it.
pub open spec fn weather_is_rolled(w: Weather) -> bool {
    ||| w == Weather::SolarEclipse
    ||| w == Weather::Blooddrain
    ||| w == Weather::Peanuts
    ||| w == Weather::Birds
    ||| w == Weather::Feedback
    ||| w == Weather::Reverb
    ||| w == Weather::Flooding
    ||| w == Weather::Salmon
    ||| w == Weather::SupernovaEclipse
    ||| w == Weather::Night
}

/// The check made at a half-inning start: at the very first half-inning,
/// whether either side fields a player with the passive-feeding modifier —
/// the batting side first, the pitching side only if it answered no.
pub open spec fn spec_superyummy_check(g: Game, w: World) -> Result<bool, SimError> {
    if g.inning < 0 {
        match spec_any_has_mod(w, spec_batting(g).team_id, "SUPERYUMMY"@) {
            Err(e) => Err(e),
            Ok(b) => if b {
                Ok(true)
            } else {
                spec_any_has_mod(w, spec_pitching(g).team_id, "SUPERYUMMY"@)
            },
        }
    } else {
        Ok(false)
    }
}

/// The batter due up: the batting team's lineup slot at the turn counter,
/// taken modulo the lineup length.
pub open spec fn spec_get_batter(g: Game, w: World) -> Result<Player, SimError> {
    let tid = spec_batting(g).team_id;
    if !w.teams@.contains_key(tid) {
        Err(SimError::RosterLookup(LookupKind::MissingTeam))
    } else {
        let team = w.teams@[tid];
        if team.lineup@.len() == 0 {
            Err(SimError::RosterLookup(LookupKind::MissingRosterSlot))
        } else {
            let idx = spec_batting(g).team_batter_count as int % team.lineup@.len() as int;
            let pid = team.lineup@[idx];
            if !w.players@.contains_key(pid) {
                Err(SimError::RosterLookup(LookupKind::MissingPlayer))
            } else {
                Ok(w.players@[pid])
            }
        }
    }
}

/// The pitcher: the fielding team's rotation slot at its rotation counter,
/// taken modulo the rotation length.
pub open spec fn spec_get_pitcher(g: Game, w: World) -> Result<Player, SimError> {
    let tid = spec_pitching(g).team_id;
    if !w.teams@.contains_key(tid) {
        Err(SimError::RosterLookup(LookupKind::MissingTeam))
    } else {
        let team = w.teams@[tid];
        if team.rotation@.len() == 0 {
            Err(SimError::RosterLookup(LookupKind::MissingRosterSlot))
        } else {
            let idx = team.rotation_slot as int % team.rotation@.len() as int;
            let pid = team.rotation@[idx];
            if !w.players@.contains_key(pid) {
                Err(SimError::RosterLookup(LookupKind::MissingPlayer))
            } else {
                Ok(w.players@[pid])
            }
        }
    }
}

/// One transition from the not-started phase: the opening event.
pub open spec fn spec_lets_go(g: Game) -> (Result<EventV, SimError>, Game) {
    (
        Ok(EventV::LetsGo {
            game: spec_game_event(g),
            weather: g.weather,
            stadium_id: g.stadium_id,
        }),
        spec_advance(g, GamePhase::Starting),
    )
}

/// One transition from the starting phase: play ball.
pub open spec fn spec_play_ball(g: Game) -> (Result<EventV, SimError>, Game) {
    (Ok(EventV::PlayBall { game: spec_game_event(g) }), spec_advance(g, GamePhase::StartOfHalfInning))
}

/// One transition from a half-inning start: the batting parity flips, the
/// inning advances, and the phase detours through the announcement exactly
/// when the first-half-inning check answers yes. The event reports the
/// one-indexed inning and the new batting team's full name.
pub open spec fn spec_start_half_inning(g: Game, w: World) -> (Result<EventV, SimError>, Game) {
    match spec_superyummy_check(g, w) {
        Err(e) => (Err(e), g),
        Ok(announce) => {
            let top2 = !g.top_of_inning;
            let bat1 = if top2 {
                g.away.team_id
            } else {
                g.home.team_id
            };
            if !w.teams@.contains_key(bat1) {
                (Err(SimError::RosterLookup(LookupKind::MissingTeam)), g)
            } else {
                let ev = EventV::HalfInningStart {
                    game: spec_game_event(g),
                    top_of_inning: top2,
                    inning: (g.inning + 2) as i32,
                    batting_team_name: w.teams@[bat1].full_name@,
                };
                let next = if announce {
                    GamePhase::SuperyummyAnnouncement
                } else {
                    GamePhase::BatterUp
                };
                let g2 = Game {
                    phase: next,
                    play: (g.play + 1) as i64,
                    top_of_inning: top2,
                    inning: (g.inning + 1) as i32,
                    ..g
                };
                (Ok(ev), g2)
            }
        },
    }
}

/// The announcement event for a found carrier on the given team.
pub open spec fn spec_superyummy_event(g: Game, p: Player, team_id: u128) -> EventV {
    EventV::SuperyummyGameStart {
        game: spec_game_event(g),
        toggle: ToggleV {
            player_id: p.id,
            team_id,
            player_name: p.name@,
            is_overperforming: false,
            is_first_proc: true,
            sub_event: 0,
        },
    }
}

/// One transition from the announcement phase: the first carrier of the
/// passive-feeding modifier — the batting team's lineup then rotation, then
/// the pitching team's — is announced; that no carrier is found means the
/// phase was entered wrongly, a fatal inconsistency.
pub open spec fn spec_superyummy(g: Game, w: World) -> (Result<EventV, SimError>, Game) {
    let bat = spec_batting(g).team_id;
    let pit = spec_pitching(g).team_id;
    match spec_find_mod(w, bat, "SUPERYUMMY"@) {
        Err(e) => (Err(e), g),
        Ok(found) => match found {
            Some(p) => (Ok(spec_superyummy_event(g, p, bat)), spec_advance(g, GamePhase::BatterUp)),
            None => match spec_find_mod(w, pit, "SUPERYUMMY"@) {
                Err(e) => (Err(e), g),
                Ok(found2) => match found2 {
                    Some(p) => (Ok(spec_superyummy_event(g, p, pit)), spec_advance(g, GamePhase::BatterUp)),
                    None => (Err(SimError::PhaseInconsistency), g),
                },
            },
        },
    }
}

/// The game after the batting side's turn counter advances by one.
pub open spec fn spec_bump_batting(g: Game) -> Game {
    if g.top_of_inning {
        Game {
            away: GameByTeam {
                team_id: g.away.team_id,
                team_batter_count: (g.away.team_batter_count + 1) as i64,
            },
            ..g
        }
    } else {
        Game {
            home: GameByTeam {
                team_id: g.home.team_id,
                team_batter_count: (g.home.team_batter_count + 1) as i64,
            },
            ..g
        }
    }
}

/// One transition from the batter-up phase: the batting side's turn counter
/// advances by one and selects the lineup slot at the new counter modulo
/// the lineup length; the event names the batter, the team's nickname, and
/// the display name of a held bat.
pub open spec fn spec_batter_up(g: Game, w: World) -> (Result<EventV, SimError>, Game) {
    let g1 = spec_bump_batting(g);
    match spec_get_batter(g1, w) {
        Err(e) => (Err(e), g),
        Ok(batter) => {
            let tid = spec_batting(g).team_id;
            let team = w.teams@[tid];
            match spec_wielding(batter.bat) {
                Err(e) => (Err(e), g),
                Ok(wi) => {
                    let ev = EventV::BatterUp {
                        game: spec_game_event(g),
                        batter_name: batter.name@,
                        team_nickname: team.nickname@,
                        wielding_item: wi,
                    };
                    let g2 = Game { phase: GamePhase::Pitch, play: (g.play + 1) as i64, ..g1 };
                    (Ok(ev), g2)
                },
            }
        },
    }
}

/// A resolved pitch: the first draw decides the strike zone, the second
/// decides the swing against the zone-dependent threshold. A swing is an
/// explicit unmodeled result; a take is a called strike or ball whose event
/// reports the one-pitch delta of the tally it raises.
pub open spec fn spec_actual_pitch(g: Game, w: World, r: RngState) -> (Result<EventV, SimError>, Game, RngState) {
    let roll1 = peek(r);
    let r1 = step(r);
    match spec_get_batter(g, w) {
        Err(e) => (Err(e), g, r1),
        Ok(batter) => match spec_get_pitcher(g, w) {
            Err(e) => (Err(e), g, r1),
            Ok(pitcher) => {
                let strike = spec_is_strike(roll1, pitcher.ruthlessness, batter.musclitude);
                let roll2 = peek(r1);
                let r2 = step(r1);
                let swung = if strike {
                    spec_swings_on_strike(roll2, batter.divinity, batter.musclitude,
                        batter.thwackability, batter.patheticism, pitcher.ruthlessness)
                } else {
                    spec_swings_on_ball(roll2, pitcher.ruthlessness, batter.moxie, batter.patheticism)
                };
                if swung {
                    (Err(SimError::Unmodeled(UnmodeledKind::SwungPitch)), g, r2)
                } else if strike {
                    (
                        Ok(EventV::StrikeLooking { game: spec_game_event(g), balls: 0, strikes: 1 }),
                        spec_advance(g, GamePhase::StartOfHalfInning),
                        r2,
                    )
                } else {
                    (
                        Ok(EventV::Ball { game: spec_game_event(g), balls: 1, strikes: 0 }),
                        spec_advance(g, GamePhase::StartOfHalfInning),
                        r2,
                    )
                }
            },
        },
    }
}

/// One transition from the pitch phase: the ambient weather is dispatched
/// first — unmodeled weather and never-observed weather are errors, rolled
/// weather consumes one draw and pre-empts the pitch when it fires — and
/// only then is the pitch itself resolved.
pub open spec fn spec_pitch_phase(g: Game, w: World, r: RngState) -> (Result<EventV, SimError>, Game, RngState) {
    if weather_is_unmodeled(g.weather) {
        (Err(SimError::Unmodeled(UnmodeledKind::Weather(g.weather))), g, r)
    } else if g.weather is Other {
        (Err(SimError::UnknownWeather(g.weather)), g, r)
    } else if weather_is_rolled(g.weather) {
        if spec_weather_fires(peek(r)) {
            (Err(SimError::Unmodeled(UnmodeledKind::WeatherProc(g.weather))), g, step(r))
        } else {
            spec_actual_pitch(g, w, step(r))
        }
    } else {
        spec_actual_pitch(g, w, r)
    }
}

/// The whole transition relation: one phase transition from `g`, reading
/// the world and consuming draws from `r`, to the result, the next game
/// state, and the next generator state. An error leaves the game unchanged;
/// draws consumed before the error stay consumed.
pub open spec fn spec_tick(g: Game, w: World, r: RngState) -> (Result<EventV, SimError>, Game, RngState) {
    match g.phase {
        GamePhase::NotStarted => {
            let s = spec_lets_go(g);
            (s.0, s.1, r)
        },
        GamePhase::Starting => {
            let s = spec_play_ball(g);
            (s.0, s.1, r)
        },
        GamePhase::StartOfHalfInning => {
            let s = spec_start_half_inning(g, w);
            (s.0, s.1, r)
        },
        GamePhase::SuperyummyAnnouncement => {
            let s = spec_superyummy(g, w);
            (s.0, s.1, r)
        },
        GamePhase::BatterUp => {
            let s = spec_batter_up(g, w);
            (s.0, s.1, r)
        },
        GamePhase::Pitch => spec_pitch_phase(g, w, r),
    }
}

impl Game {
    /// A new game from the opening event's header, weather and stadium: not
    /// started, at play 0, before the top of the first inning, both turn
    /// counters at -1.
    pub fn new(game_event: &GameEvent, weather: Weather, stadium_id: Option<u128>) -> (g: Self)
        ensures
            g == spec_new_game(*game_event, weather, stadium_id),
            wf_game(g),
    {
        Game {
            game_id: game_event.game_id,
            home: GameByTeam::new(game_event.home_team),
            away: GameByTeam::new(game_event.away_team),
            weather,
            stadium_id,
            phase: GamePhase::NotStarted,
            play: 0,
            top_of_inning: false,
            inning: -1,
        }
    }

    /// The header of the event this transition emits.
    fn game_event(&self) -> (r: GameEvent)
        ensures
            r == spec_game_event(*self),
    {
        GameEvent {
            game_id: self.game_id,
            home_team: self.home.team_id,
            away_team: self.away.team_id,
            play: self.play,
        }
    }

    /// The side at bat.
    fn batting_team_game_data(&self) -> (r: &GameByTeam)
        ensures
            *r == spec_batting(*self),
    {
        if self.top_of_inning {
            &self.away
        } else {
            &self.home
        }
    }

    /// The side in the field.
    fn pitching_team_game_data(&self) -> (r: &GameByTeam)
        ensures
            *r == spec_pitching(*self),
    {
        if self.top_of_inning {
            &self.home
        } else {
            &self.away
        }
    }

    /// Advance one transition and emit its event, per [`spec_tick`].
    pub fn tick(&mut self, world: &World, rng: &mut Rng) -> (r: Result<EventData, SimError>)
        requires
            wf_game(*old(self)),
            game_room(*old(self)),
            rng_inv(old(rng)@),
        ensures
            ({
                let s = spec_tick(*old(self), *world, old(rng)@);
                &&& (match r {
                    Ok(e) => s.0 == Ok::<EventV, SimError>(e@),
                    Err(e) => s.0 == Err::<EventV, SimError>(e),
                })
                &&& *final(self) == s.1
                &&& final(rng)@ == s.2
            }),
            wf_game(*final(self)),
            rng_inv(final(rng)@),
    {
        match self.phase {
            GamePhase::NotStarted => Ok(self.lets_go()),
            GamePhase::Starting => Ok(self.play_ball()),
            GamePhase::StartOfHalfInning => self.start_half_inning(world),
            GamePhase::SuperyummyAnnouncement => self.superyummy_announcement(world),
            GamePhase::BatterUp => self.batter_up(world),
            GamePhase::Pitch => self.pitch(world, rng),
        }
    }

    /// The opening transition.
    fn lets_go(&mut self) -> (r: EventData)
        requires
            old(self).phase == GamePhase::NotStarted,
            wf_game(*old(self)),
            game_room(*old(self)),
        ensures
            ({
                let s = spec_lets_go(*old(self));
                &&& s.0 == Ok::<EventV, SimError>(r@)
                &&& *final(self) == s.1
            }),
    {
        let event = EventData::LetsGo {
            game: self.game_event(),
            weather: self.weather,
            stadium_id: self.stadium_id,
        };
        self.phase = GamePhase::Starting;
        self.play = self.play + 1;
        event
    }

    /// The play-ball transition.
    fn play_ball(&mut self) -> (r: EventData)
        requires
            old(self).phase == GamePhase::Starting,
            wf_game(*old(self)),
            game_room(*old(self)),
        ensures
            ({
                let s = spec_play_ball(*old(self));
                &&& s.0 == Ok::<EventV, SimError>(r@)
                &&& *final(self) == s.1
            }),
    {
        let event = EventData::PlayBall { game: self.game_event() };
        self.phase = GamePhase::StartOfHalfInning;
        self.play = self.play + 1;
        event
    }

    /// The half-inning-start transition, per [`spec_start_half_inning`].
    fn start_half_inning(&mut self, world: &World) -> (r: Result<EventData, SimError>)
        requires
            old(self).phase == GamePhase::StartOfHalfInning,
            wf_game(*old(self)),
            game_room(*old(self)),
        ensures
            ({
                let s = spec_start_half_inning(*old(self), *world);
                &&& (match r {
                    Ok(e) => s.0 == Ok::<EventV, SimError>(e@),
                    Err(e) => s.0 == Err::<EventV, SimError>(e),
                })
                &&& *final(self) == s.1
            }),
    {
        let announce: bool;
        if self.inning < 0 {
            let on_batting = match world.any_player_on_team_has_mod(
                self.batting_team_game_data().team_id, "SUPERYUMMY") {
                Ok(b) => b,
                Err(e) => {
                    return Err(e);
                },
            };
            if on_batting {
                announce = true;
            } else {
                announce = match world.any_player_on_team_has_mod(
                    self.pitching_team_game_data().team_id, "SUPERYUMMY") {
                    Ok(b) => b,
                    Err(e) => {
                        return Err(e);
                    },
                };
            }
        } else {
            announce = false;
        }
        let top2 = !self.top_of_inning;
        let bat1 = if top2 {
            self.away.team_id
        } else {
            self.home.team_id
        };
        let team = match world.get_team(bat1) {
            Some(t) => t,
            None => {
                return Err(SimError::RosterLookup(LookupKind::MissingTeam));
            },
        };
        let event = EventData::HalfInningStart {
            game: self.game_event(),
            top_of_inning: top2,
            inning: self.inning + 2,
            batting_team_name: team.full_name.clone(),
        };
        self.phase = if announce {
            GamePhase::SuperyummyAnnouncement
        } else {
            GamePhase::BatterUp
        };
        self.top_of_inning = top2;
        self.inning = self.inning + 1;
        self.play = self.play + 1;
        Ok(event)
    }

    /// The announcement transition, per [`spec_superyummy`].
    fn superyummy_announcement(&mut self, world: &World) -> (r: Result<EventData, SimError>)
        requires
            old(self).phase == GamePhase::SuperyummyAnnouncement,
            wf_game(*old(self)),
            game_room(*old(self)),
        ensures
            ({
                let s = spec_superyummy(*old(self), *world);
                &&& (match r {
                    Ok(e) => s.0 == Ok::<EventV, SimError>(e@),
                    Err(e) => s.0 == Err::<EventV, SimError>(e),
                })
                &&& *final(self) == s.1
            }),
    {
        let bat = self.batting_team_game_data().team_id;
        let pit = self.pitching_team_game_data().team_id;
        let (player, team_id): (&Player, u128) = match world.find_player_with_mod(bat, "SUPERYUMMY") {
            Err(e) => {
                return Err(e);
            },
            Ok(Some(p)) => (p, bat),
            Ok(None) => match world.find_player_with_mod(pit, "SUPERYUMMY") {
                Err(e) => {
                    return Err(e);
                },
                Ok(Some(p)) => (p, pit),
                Ok(None) => {
                    return Err(SimError::PhaseInconsistency);
                },
            },
        };
        let event = EventData::SuperyummyGameStart {
            game: self.game_event(),
            toggle: TogglePerforming {
                player_id: player.id,
                team_id,
                player_name: player.name.clone(),
                is_overperforming: false,
                is_first_proc: true,
                sub_event: 0,
            },
        };
        self.phase = GamePhase::BatterUp;
        self.play = self.play + 1;
        Ok(event)
    }

    /// The batter-up transition, per [`spec_batter_up`].
    fn batter_up(&mut self, world: &World) -> (r: Result<EventData, SimError>)
        requires
            old(self).phase == GamePhase::BatterUp,
            wf_game(*old(self)),
            game_room(*old(self)),
        ensures
            ({
                let s = spec_batter_up(*old(self), *world);
                &&& (match r {
                    Ok(e) => s.0 == Ok::<EventV, SimError>(e@),
                    Err(e) => s.0 == Err::<EventV, SimError>(e),
                })
                &&& *final(self) == s.1
            }),
            wf_game(*final(self)),
    {
        let side = self.batting_team_game_data();
        let tid = side.team_id;
        let count2 = side.team_batter_count + 1;
        let team = match world.get_team(tid) {
            Some(t) => t,
            None => {
                return Err(SimError::RosterLookup(LookupKind::MissingTeam));
            },
        };
        if team.lineup.len() == 0 {
            return Err(SimError::RosterLookup(LookupKind::MissingRosterSlot));
        }
        let idx = ((count2 as u64) % (team.lineup.len() as u64)) as usize;
        let batter_id = team.lineup[idx];
        let batter = match world.get_player(batter_id) {
            Some(p) => p,
            None => {
                return Err(SimError::RosterLookup(LookupKind::MissingPlayer));
            },
        };
        let wielding_item = match &batter.bat {
            None => None,
            Some(b) => {
                if b.as_str().is_empty() {
                    None
                } else {
                    match item_name(b.as_str()) {
                        Some(nm) => Some(nm),
                        None => {
                            return Err(SimError::RosterLookup(LookupKind::UnknownItemName));
                        },
                    }
                }
            },
        };
        let event = EventData::BatterUp {
            game: self.game_event(),
            batter_name: batter.name.clone(),
            team_nickname: team.nickname.clone(),
            wielding_item,
        };
        if self.top_of_inning {
            self.away.team_batter_count = self.away.team_batter_count + 1;
        } else {
            self.home.team_batter_count = self.home.team_batter_count + 1;
        }
        self.phase = GamePhase::Pitch;
        self.play = self.play + 1;
        Ok(event)
    }

    /// The weather dispatch before a pitch: inert weather proceeds, rolled
    /// weather consumes one draw and pre-empts when it fires, unmodeled and
    /// never-observed weather are errors.
    fn roll_weather(&self, rng: &mut Rng) -> (r: Result<(), SimError>)
        requires
            rng_inv(old(rng)@),
        ensures
            rng_inv(final(rng)@),
            weather_is_unmodeled(self.weather) ==> r
                == Err::<(), SimError>(SimError::Unmodeled(UnmodeledKind::Weather(self.weather)))
                && final(rng)@ == old(rng)@,
            self.weather is Other ==> r == Err::<(), SimError>(SimError::UnknownWeather(self.weather))
                && final(rng)@ == old(rng)@,
            weather_is_rolled(self.weather) ==> final(rng)@ == step(old(rng)@) && (if spec_weather_fires(
                peek(old(rng)@),
            ) {
                r == Err::<(), SimError>(SimError::Unmodeled(UnmodeledKind::WeatherProc(self.weather)))
            } else {
                r == Ok::<(), SimError>(())
            }),
            !weather_is_unmodeled(self.weather) && !(self.weather is Other) && !weather_is_rolled(
                self.weather,
            ) ==> r == Ok::<(), SimError>(()) && final(rng)@ == old(rng)@,
    {
        match self.weather {
            Weather::Sun2 => Ok(()),
            Weather::BlackHole => Ok(()),
            Weather::Coffee => Ok(()),
            Weather::Coffee2 => Ok(()),
            Weather::Coffee3s => Ok(()),
            Weather::PolarityPlus => Ok(()),
            Weather::PolarityMinus => Ok(()),
            Weather::Sun90 => Ok(()),
            Weather::SunPoint1 => Ok(()),
            Weather::SumSun => Ok(()),
            Weather::BlackHoleBlackHole => Ok(()),
            Weather::Snowy => Err(SimError::Unmodeled(UnmodeledKind::Weather(self.weather))),
            Weather::Glitter => Err(SimError::Unmodeled(UnmodeledKind::Weather(self.weather))),
            Weather::Jazz => Err(SimError::Unmodeled(UnmodeledKind::Weather(self.weather))),
            Weather::Other(_) => Err(SimError::UnknownWeather(self.weather)),
            Weather::SolarEclipse
            | Weather::Blooddrain
            | Weather::Peanuts
            | Weather::Birds
            | Weather::Feedback
            | Weather::Reverb
            | Weather::Flooding
            | Weather::Salmon
            | Weather::SupernovaEclipse
            | Weather::Night => {
                let roll = rng.next();
                if weather_fires(roll) {
                    Err(SimError::Unmodeled(UnmodeledKind::WeatherProc(self.weather)))
                } else {
                    Ok(())
                }
            },
        }
    }

    /// The batter due up, resolved through the world.
    fn get_batter<'a>(&self, world: &'a World) -> (r: Result<&'a Player, SimError>)
        requires
            spec_batting(*self).team_batter_count >= 0,
        ensures
            (match r {
                Ok(p) => spec_get_batter(*self, *world) == Ok::<Player, SimError>(*p),
                Err(e) => spec_get_batter(*self, *world) == Err::<Player, SimError>(e),
            }),
    {
        let side = self.batting_team_game_data();
        let team = match world.get_team(side.team_id) {
            Some(t) => t,
            None => {
                return Err(SimError::RosterLookup(LookupKind::MissingTeam));
            },
        };
        if team.lineup.len() == 0 {
            return Err(SimError::RosterLookup(LookupKind::MissingRosterSlot));
        }
        let idx = ((side.team_batter_count as u64) % (team.lineup.len() as u64)) as usize;
        let batter_id = team.lineup[idx];
        match world.get_player(batter_id) {
            Some(p) => Ok(p),
            None => Err(SimError::RosterLookup(LookupKind::MissingPlayer)),
        }
    }

    /// The pitcher, resolved through the world.
    fn get_pitcher<'a>(&self, world: &'a World) -> (r: Result<&'a Player, SimError>)
        ensures
            (match r {
                Ok(p) => spec_get_pitcher(*self, *world) == Ok::<Player, SimError>(*p),
                Err(e) => spec_get_pitcher(*self, *world) == Err::<Player, SimError>(e),
            }),
    {
        let side = self.pitching_team_game_data();
        let team = match world.get_team(side.team_id) {
            Some(t) => t,
            None => {
                return Err(SimError::RosterLookup(LookupKind::MissingTeam));
            },
        };
        if team.rotation.len() == 0 {
            return Err(SimError::RosterLookup(LookupKind::MissingRosterSlot));
        }
        let idx = ((team.rotation_slot) % (team.rotation.len() as u64)) as usize;
        let pitcher_id = team.rotation[idx];
        match world.get_player(pitcher_id) {
            Some(p) => Ok(p),
            None => Err(SimError::RosterLookup(LookupKind::MissingPlayer)),
        }
    }

    /// The pitch transition, per [`spec_pitch_phase`]: weather first, then
    /// the resolved pitch.
    fn pitch(&mut self, world: &World, rng: &mut Rng) -> (r: Result<EventData, SimError>)
        requires
            old(self).phase == GamePhase::Pitch,
            wf_game(*old(self)),
            game_room(*old(self)),
            rng_inv(old(rng)@),
        ensures
            ({
                let s = spec_pitch_phase(*old(self), *world, old(rng)@);
                &&& (match r {
                    Ok(e) => s.0 == Ok::<EventV, SimError>(e@),
                    Err(e) => s.0 == Err::<EventV, SimError>(e),
                })
                &&& *final(self) == s.1
                &&& final(rng)@ == s.2
            }),
            wf_game(*final(self)),
            rng_inv(final(rng)@),
    {
        match self.roll_weather(rng) {
            Err(e) => {
                return Err(e);
            },
            Ok(()) => {},
        }
        self.actual_pitch(world, rng)
    }

    /// The resolved pitch, per [`spec_actual_pitch`].
    fn actual_pitch(&mut self, world: &World, rng: &mut Rng) -> (r: Result<EventData, SimError>)
        requires
            old(self).phase == GamePhase::Pitch,
            wf_game(*old(self)),
            game_room(*old(self)),
            rng_inv(old(rng)@),
        ensures
            ({
                let s = spec_actual_pitch(*old(self), *world, old(rng)@);
                &&& (match r {
                    Ok(e) => s.0 == Ok::<EventV, SimError>(e@),
                    Err(e) => s.0 == Err::<EventV, SimError>(e),
                })
                &&& *final(self) == s.1
                &&& final(rng)@ == s.2
            }),
            wf_game(*final(self)),
            rng_inv(final(rng)@),
    {
        let roll1 = rng.next();
        let batter = match self.get_batter(world) {
            Ok(p) => p,
            Err(e) => {
                return Err(e);
            },
        };
        let pitcher = match self.get_pitcher(world) {
            Ok(p) => p,
            Err(e) => {
                return Err(e);
            },
        };
        let strike = is_strike_roll(roll1, pitcher.ruthlessness, batter.musclitude);
        let roll2 = rng.next();
        let swung = if strike {
            swings_on_strike(roll2, batter.divinity, batter.musclitude, batter.thwackability,
                batter.patheticism, pitcher.ruthlessness)
        } else {
            swings_on_ball(roll2, pitcher.ruthlessness, batter.moxie, batter.patheticism)
        };
        if swung {
            return Err(SimError::Unmodeled(UnmodeledKind::SwungPitch));
        }
        let event = if strike {
            EventData::StrikeLooking { game: self.game_event(), balls: 0, strikes: 1 }
        } else {
            EventData::Ball { game: self.game_event(), balls: 1, strikes: 0 }
        };
        self.phase = GamePhase::StartOfHalfInning;
        self.play = self.play + 1;
        Ok(event)
    }
}

} // verus!
