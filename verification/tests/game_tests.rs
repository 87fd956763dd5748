//! Tests of the phase state machine: phase order, turn counters, the
//! announcement detour, weather dispatch, and the item-name table.

use resim::errors::{LookupKind, SimError, UnmodeledKind};
use resim::events::{EventData, GameEvent, Weather};
use resim::game::{item_name, Game, GameByTeam, GamePhase};
use resim::rng::Rng;
use resim::roster::{Player, Team, World};

/// 1.0 in the fixed-point attribute scale.
const ONE: u64 = resim::rng::FRAC_ONE;

const HOME: u128 = 100;
const AWAY: u128 = 200;
const GID: u128 = 1;

/// A player whose pitches are always in the zone and never swung at, so
/// that every resolved pitch is a called strike and play is deterministic.
fn steady_player(id: u128, name: &str) -> Player {
    Player {
        id,
        name: name.to_string(),
        unscattered_name: None,
        elsewhere: None,
        bat: None,
        items: None,
        divinity: 0,
        moxie: 0,
        musclitude: 0,
        patheticism: ONE,
        ruthlessness: 4 * ONE,
        thwackability: 0,
        perm_attr: None,
        seas_attr: None,
        week_attr: None,
        game_attr: None,
    }
}

fn team(id: u128, full_name: &str, nickname: &str, lineup: Vec<u128>, rotation: Vec<u128>) -> Team {
    Team {
        id,
        full_name: full_name.to_string(),
        nickname: nickname.to_string(),
        scattered: None,
        lineup,
        rotation,
        rotation_slot: 0,
        perm_attr: vec![],
        seas_attr: vec![],
        week_attr: vec![],
        game_attr: vec![],
    }
}

/// A two-team world with 9-slot lineups of steady players: home players
/// 101..=109 with rotation 110, away players 201..=209 with rotation 210.
fn two_team_world() -> World {
    let mut w = World::new();
    let home_lineup: Vec<u128> = (101..=109).collect();
    let away_lineup: Vec<u128> = (201..=209).collect();
    for &pid in home_lineup.iter().chain([110].iter()) {
        w.players.insert(pid, steady_player(pid, &format!("Home Player {}", pid)));
    }
    for &pid in away_lineup.iter().chain([210].iter()) {
        w.players.insert(pid, steady_player(pid, &format!("Away Player {}", pid)));
    }
    w.teams.insert(HOME, team(HOME, "Home Full Name", "Homers", home_lineup, vec![110]));
    w.teams.insert(AWAY, team(AWAY, "Away Full Name", "Aways", away_lineup, vec![210]));
    w
}

fn opening_header() -> GameEvent {
    GameEvent { game_id: GID, home_team: HOME, away_team: AWAY, play: 0 }
}

fn new_game(weather: Weather) -> Game {
    Game::new(&opening_header(), weather, None)
}

#[test]
fn new_game_counters_start_at_minus_one() {
    let g = new_game(Weather::Sun2);
    assert_eq!(g.home.team_batter_count, -1);
    assert_eq!(g.away.team_batter_count, -1);
    assert_eq!(g.inning, -1);
    assert!(!g.top_of_inning);
    assert_eq!(g.play, 0);
    assert_eq!(g.phase, GamePhase::NotStarted);
    assert_eq!(GameByTeam::new(7).team_batter_count, -1);
}

#[test]
fn phase_sequence_without_announcement() {
    // NotStarted -> Starting -> StartOfHalfInning -> BatterUp -> Pitch ->
    // StartOfHalfInning -> ..., the inning advancing by one and the parity
    // flipping at each half-inning start.
    let w = two_team_world();
    let mut rng = Rng::new(1, 2);
    let mut g = new_game(Weather::Sun2);

    assert!(matches!(g.tick(&w, &mut rng), Ok(EventData::LetsGo { .. })));
    assert_eq!(g.phase, GamePhase::Starting);
    assert!(matches!(g.tick(&w, &mut rng), Ok(EventData::PlayBall { .. })));
    assert_eq!(g.phase, GamePhase::StartOfHalfInning);

    let mut expected_inning = 0;
    let mut expected_top = true;
    for _cycle in 0..20 {
        match g.tick(&w, &mut rng) {
            Ok(EventData::HalfInningStart { top_of_inning, inning, batting_team_name, .. }) => {
                assert_eq!(top_of_inning, expected_top);
                assert_eq!(inning, expected_inning + 1); // one-indexed
                let batting = if expected_top { "Away Full Name" } else { "Home Full Name" };
                assert_eq!(batting_team_name, batting);
            },
            other => panic!("expected a half-inning start, got {:?}", other),
        }
        assert_eq!(g.phase, GamePhase::BatterUp);
        assert_eq!(g.inning, expected_inning);
        assert_eq!(g.top_of_inning, expected_top);

        assert!(matches!(g.tick(&w, &mut rng), Ok(EventData::BatterUp { .. })));
        assert_eq!(g.phase, GamePhase::Pitch);

        match g.tick(&w, &mut rng) {
            Ok(EventData::StrikeLooking { balls, strikes, .. }) => {
                assert_eq!(balls, 0);
                assert_eq!(strikes, 1);
            },
            other => panic!("expected a called strike, got {:?}", other),
        }
        assert_eq!(g.phase, GamePhase::StartOfHalfInning);

        expected_inning += 1;
        expected_top = !expected_top;
    }
}

#[test]
fn turn_counters_advance_by_one_and_wrap() {
    // Over 20 half-innings each side bats 10 times: its counter climbs from
    // -1 by exactly one per batter-up, and the chosen lineup slot is the
    // counter modulo the 9-slot lineup, wrapping back to slot 0.
    let w = two_team_world();
    let mut rng = Rng::new(1, 2);
    let mut g = new_game(Weather::Sun2);
    g.tick(&w, &mut rng).unwrap();
    g.tick(&w, &mut rng).unwrap();

    let mut away_turns = 0i64;
    let mut home_turns = 0i64;
    for cycle in 0..20 {
        let top = cycle % 2 == 0;
        g.tick(&w, &mut rng).unwrap(); // half-inning start
        let before = if top { g.away.team_batter_count } else { g.home.team_batter_count };
        let event = g.tick(&w, &mut rng).unwrap(); // batter up
        let after = if top { g.away.team_batter_count } else { g.home.team_batter_count };
        assert_eq!(after, before + 1);
        let turns = if top { &mut away_turns } else { &mut home_turns };
        assert_eq!(after, *turns); // -1 + (turns + 1) increments
        let slot = (after as usize) % 9;
        let expected_batter = if top {
            format!("Away Player {}", 201 + slot)
        } else {
            format!("Home Player {}", 101 + slot)
        };
        match event {
            EventData::BatterUp { batter_name, team_nickname, wielding_item, .. } => {
                assert_eq!(batter_name, expected_batter);
                assert_eq!(team_nickname, if top { "Aways" } else { "Homers" });
                assert_eq!(wielding_item, None);
            },
            other => panic!("expected a batter up, got {:?}", other),
        }
        *turns += 1;
        g.tick(&w, &mut rng).unwrap(); // pitch
    }
    // both counters wrapped: the 10th turn used slot 0 again
    assert_eq!(g.away.team_batter_count, 9);
    assert_eq!(g.home.team_batter_count, 9);
}

#[test]
fn announcement_detour_selects_exact_player() {
    // The away side bats first; its fifth lineup slot carries the
    // passive-feeding modifier, so the first half-inning start detours
    // through the announcement naming exactly that player.
    let mut w = two_team_world();
    let mut carrier = steady_player(205, "Away Player 205");
    carrier.perm_attr = Some(vec!["SUPERYUMMY".to_string()]);
    w.players.insert(205, carrier);

    let mut rng = Rng::new(1, 2);
    let mut g = new_game(Weather::Sun2);
    g.tick(&w, &mut rng).unwrap();
    g.tick(&w, &mut rng).unwrap();
    assert!(matches!(g.tick(&w, &mut rng), Ok(EventData::HalfInningStart { .. })));
    assert_eq!(g.phase, GamePhase::SuperyummyAnnouncement);
    match g.tick(&w, &mut rng) {
        Ok(EventData::SuperyummyGameStart { toggle, .. }) => {
            assert_eq!(toggle.player_id, 205);
            assert_eq!(toggle.team_id, AWAY);
            assert_eq!(toggle.player_name, "Away Player 205");
            assert!(!toggle.is_overperforming);
            assert!(toggle.is_first_proc);
            assert_eq!(toggle.sub_event, 0);
        },
        other => panic!("expected the announcement, got {:?}", other),
    }
    assert_eq!(g.phase, GamePhase::BatterUp);
    assert!(matches!(g.tick(&w, &mut rng), Ok(EventData::BatterUp { .. })));
}

#[test]
fn announcement_prefers_batting_team_and_searches_pitching_team() {
    // Only a pitching-team (home) player carries the modifier: the check
    // still detours, and the announcement names the home carrier.
    let mut w = two_team_world();
    let mut carrier = steady_player(110, "Home Player 110");
    carrier.game_attr = Some(vec!["SUPERYUMMY".to_string()]);
    w.players.insert(110, carrier);

    let mut rng = Rng::new(1, 2);
    let mut g = new_game(Weather::Sun2);
    g.tick(&w, &mut rng).unwrap();
    g.tick(&w, &mut rng).unwrap();
    g.tick(&w, &mut rng).unwrap();
    assert_eq!(g.phase, GamePhase::SuperyummyAnnouncement);
    match g.tick(&w, &mut rng) {
        Ok(EventData::SuperyummyGameStart { toggle, .. }) => {
            assert_eq!(toggle.player_id, 110);
            assert_eq!(toggle.team_id, HOME);
        },
        other => panic!("expected the announcement, got {:?}", other),
    }
}

#[test]
fn no_announcement_after_first_inning() {
    // A modifier appearing after the first half-inning start does not
    // trigger the detour: the check runs only while the inning is negative.
    let mut w = two_team_world();
    let mut rng = Rng::new(1, 2);
    let mut g = new_game(Weather::Sun2);
    for _ in 0..3 {
        g.tick(&w, &mut rng).unwrap();
    }
    let mut carrier = steady_player(205, "Away Player 205");
    carrier.perm_attr = Some(vec!["SUPERYUMMY".to_string()]);
    w.players.insert(205, carrier);
    g.tick(&w, &mut rng).unwrap(); // batter up
    g.tick(&w, &mut rng).unwrap(); // pitch
    g.tick(&w, &mut rng).unwrap(); // next half-inning start
    assert_eq!(g.phase, GamePhase::BatterUp);
}

#[test]
fn announcement_without_carrier_is_inconsistent() {
    let w = two_team_world();
    let mut rng = Rng::new(1, 2);
    let mut g = new_game(Weather::Sun2);
    g.phase = GamePhase::SuperyummyAnnouncement;
    g.top_of_inning = true;
    g.inning = 0;
    g.play = 3;
    assert_eq!(g.tick(&w, &mut rng), Err(SimError::PhaseInconsistency));
    // nothing was committed
    assert_eq!(g.play, 3);
    assert_eq!(g.phase, GamePhase::SuperyummyAnnouncement);
}

#[test]
fn unknown_weather_is_fatal() {
    let w = two_team_world();
    let mut rng = Rng::new(1, 2);
    let mut g = new_game(Weather::Other(99));
    for _ in 0..4 {
        g.tick(&w, &mut rng).unwrap();
    }
    assert_eq!(g.phase, GamePhase::Pitch);
    assert_eq!(g.tick(&w, &mut rng), Err(SimError::UnknownWeather(Weather::Other(99))));
    // no draw was consumed: the buffer was never even filled
    assert_eq!(rng.cache.len(), 0);
    assert_eq!((rng.s0, rng.s1), (1, 2));
}

#[test]
fn unmodeled_weather_is_distinguishable() {
    let w = two_team_world();
    let mut rng = Rng::new(1, 2);
    let mut g = new_game(Weather::Snowy);
    for _ in 0..4 {
        g.tick(&w, &mut rng).unwrap();
    }
    assert_eq!(
        g.tick(&w, &mut rng),
        Err(SimError::Unmodeled(UnmodeledKind::Weather(Weather::Snowy)))
    );
}

#[test]
fn rolled_weather_consumes_one_extra_draw() {
    // Under an eclipse each pitch draws once for the weather before the two
    // pitch draws; under clear sun it draws only twice. Seed (1,2)'s first
    // draw is far above the pre-emption threshold, so the pitch proceeds.
    let w = two_team_world();

    let mut rng_sun = Rng::new(1, 2);
    let mut g_sun = new_game(Weather::Sun2);
    for _ in 0..5 {
        g_sun.tick(&w, &mut rng_sun).unwrap();
    }
    assert_eq!(rng_sun.cache.len(), 62);

    let mut rng_ecl = Rng::new(1, 2);
    let mut g_ecl = new_game(Weather::SolarEclipse);
    for _ in 0..4 {
        g_ecl.tick(&w, &mut rng_ecl).unwrap();
    }
    match g_ecl.tick(&w, &mut rng_ecl) {
        Ok(EventData::StrikeLooking { .. }) => {},
        other => panic!("expected the pitch to proceed, got {:?}", other),
    }
    assert_eq!(rng_ecl.cache.len(), 61);
}

#[test]
fn firing_weather_preempts_the_pitch() {
    // Seed (815, 1) was chosen so that its first draw lies below the
    // pre-emption threshold: the eclipse fires, the pitch is pre-empted
    // with an explicit unmodeled result, and only that one draw is spent.
    let w = two_team_world();
    let mut rng = Rng::new(815, 1);
    let mut g = new_game(Weather::SolarEclipse);
    for _ in 0..4 {
        g.tick(&w, &mut rng).unwrap();
    }
    let play_before = g.play;
    assert_eq!(
        g.tick(&w, &mut rng),
        Err(SimError::Unmodeled(UnmodeledKind::WeatherProc(Weather::SolarEclipse)))
    );
    assert_eq!(g.play, play_before);
    assert_eq!(g.phase, GamePhase::Pitch);
    assert_eq!(rng.cache.len(), 63);
}

#[test]
fn swung_pitch_is_an_explicit_unmodeled_result() {
    // A maximally pathetic batter against a toothless pitcher: the first
    // draw misses the zone, the ball swing threshold clamps to its maximum,
    // and seed (1,2)'s second draw falls below it — the batter swings, which
    // is not modeled yet, and the committed state is untouched.
    let mut w = two_team_world();
    let mut batter = steady_player(201, "Away Player 201");
    batter.patheticism = 4 * ONE;
    w.players.insert(201, batter);
    // the pitcher comes from the fielding team's rotation at its slot
    let mut pitcher = steady_player(110, "Home Player 110");
    pitcher.ruthlessness = 0;
    w.players.insert(110, pitcher);
    let mut rng = Rng::new(1, 2);
    let mut g = new_game(Weather::Sun2);
    for _ in 0..4 {
        g.tick(&w, &mut rng).unwrap();
    }
    let play_before = g.play;
    assert_eq!(
        g.tick(&w, &mut rng),
        Err(SimError::Unmodeled(UnmodeledKind::SwungPitch))
    );
    assert_eq!(g.play, play_before);
    assert_eq!(g.phase, GamePhase::Pitch);
    // both pitch draws were consumed before the swing was seen
    assert_eq!(rng.cache.len(), 62);
}

#[test]
fn item_table_resolves_known_bats() {
    assert_eq!(item_name("AN_ACTUAL_AIRPLANE"), Some("An Actual Airplane".to_string()));
    assert_eq!(item_name("A_MYSTERY_OAR"), None);
}

#[test]
fn batter_bat_names_resolve_through_the_table() {
    let mut w = two_team_world();
    let mut armed = steady_player(201, "Away Player 201");
    armed.bat = Some("AN_ACTUAL_AIRPLANE".to_string());
    w.players.insert(201, armed);

    let mut rng = Rng::new(1, 2);
    let mut g = new_game(Weather::Sun2);
    for _ in 0..3 {
        g.tick(&w, &mut rng).unwrap();
    }
    match g.tick(&w, &mut rng) {
        Ok(EventData::BatterUp { batter_name, wielding_item, .. }) => {
            assert_eq!(batter_name, "Away Player 201");
            assert_eq!(wielding_item, Some("An Actual Airplane".to_string()));
        },
        other => panic!("expected a batter up, got {:?}", other),
    }
}

#[test]
fn empty_bat_is_no_item_and_unknown_bat_is_an_error() {
    let mut w = two_team_world();
    let mut empty = steady_player(201, "Away Player 201");
    empty.bat = Some(String::new());
    w.players.insert(201, empty);
    let mut rng = Rng::new(1, 2);
    let mut g = new_game(Weather::Sun2);
    for _ in 0..3 {
        g.tick(&w, &mut rng).unwrap();
    }
    match g.tick(&w, &mut rng) {
        Ok(EventData::BatterUp { wielding_item, .. }) => assert_eq!(wielding_item, None),
        other => panic!("expected a batter up, got {:?}", other),
    }

    let mut unknown = steady_player(201, "Away Player 201");
    unknown.bat = Some("A_MYSTERY_OAR".to_string());
    w.players.insert(201, unknown);
    let mut rng = Rng::new(1, 2);
    let mut g = new_game(Weather::Sun2);
    for _ in 0..3 {
        g.tick(&w, &mut rng).unwrap();
    }
    assert_eq!(
        g.tick(&w, &mut rng),
        Err(SimError::RosterLookup(LookupKind::UnknownItemName))
    );
}

#[test]
fn missing_roster_entries_propagate() {
    // a world without the away team: the first half-inning start fails
    let mut w = two_team_world();
    w.teams.remove(&AWAY);
    let mut rng = Rng::new(1, 2);
    let mut g = new_game(Weather::Sun2);
    g.tick(&w, &mut rng).unwrap();
    g.tick(&w, &mut rng).unwrap();
    assert_eq!(
        g.tick(&w, &mut rng),
        Err(SimError::RosterLookup(LookupKind::MissingTeam))
    );

    // an unresolved slot in the first-half-inning scan fails that start
    let mut w = two_team_world();
    w.players.remove(&110);
    let mut rng = Rng::new(1, 2);
    let mut g = new_game(Weather::Sun2);
    g.tick(&w, &mut rng).unwrap();
    g.tick(&w, &mut rng).unwrap();
    assert_eq!(
        g.tick(&w, &mut rng),
        Err(SimError::RosterLookup(LookupKind::MissingPlayer))
    );

    // a lineup slot referencing an unknown player fails the batter's turn
    let mut w = two_team_world();
    let mut rng = Rng::new(1, 2);
    let mut g = new_game(Weather::Sun2);
    for _ in 0..3 {
        g.tick(&w, &mut rng).unwrap();
    }
    w.players.remove(&201);
    assert_eq!(
        g.tick(&w, &mut rng),
        Err(SimError::RosterLookup(LookupKind::MissingPlayer))
    );
}

#[test]
fn empty_rotation_fails_the_pitch() {
    // the fielding side has no rotation: the pitcher slot cannot be
    // resolved, and the draw for the first pitch roll stays consumed
    let mut w = two_team_world();
    w.teams.insert(HOME, team(HOME, "Home Full Name", "Homers", (101..=109).collect(), vec![]));
    let mut rng = Rng::new(1, 2);
    let mut g = new_game(Weather::Sun2);
    for _ in 0..4 {
        g.tick(&w, &mut rng).unwrap();
    }
    assert_eq!(
        g.tick(&w, &mut rng),
        Err(SimError::RosterLookup(LookupKind::MissingRosterSlot))
    );
    assert_eq!(g.phase, GamePhase::Pitch);
    assert_eq!(rng.cache.len(), 63);
}

#[test]
fn play_numbers_increase_by_one_per_event() {
    let w = two_team_world();
    let mut rng = Rng::new(1, 2);
    let mut g = new_game(Weather::Sun2);
    for expected_play in 0..30i64 {
        let event = g.tick(&w, &mut rng).unwrap();
        let header = event.game().expect("every machine event carries a game");
        assert_eq!(header.play, expected_play);
        assert_eq!(header.game_id, GID);
        assert_eq!(header.home_team, HOME);
        assert_eq!(header.away_team, AWAY);
    }
}
