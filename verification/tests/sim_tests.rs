//! Tests of the replay validator: the end-to-end opening of a game, the
//! divergence guarantee, and the unknown-game refusal.

use resim::errors::SimError;
use resim::events::{EventData, GameEvent, Weather};
use resim::roster::{Player, Team, World};
use resim::sim::Sim;

/// 1.0 in the fixed-point attribute scale.
const ONE: u64 = resim::rng::FRAC_ONE;

const HOME: u128 = 100;
const AWAY: u128 = 200;
const GID: u128 = 1;

fn steady_player(id: u128, name: &str) -> Player {
    Player {
        id,
        name: name.to_string(),
        unscattered_name: None,
        elsewhere: None,
        bat: None,
        items: None,
        divinity: 0,
        moxie: 0,
        musclitude: 0,
        patheticism: ONE,
        ruthlessness: 4 * ONE,
        thwackability: 0,
        perm_attr: None,
        seas_attr: None,
        week_attr: None,
        game_attr: None,
    }
}

fn team(id: u128, full_name: &str, nickname: &str, lineup: Vec<u128>, rotation: Vec<u128>) -> Team {
    Team {
        id,
        full_name: full_name.to_string(),
        nickname: nickname.to_string(),
        scattered: None,
        lineup,
        rotation,
        rotation_slot: 0,
        perm_attr: vec![],
        seas_attr: vec![],
        week_attr: vec![],
        game_attr: vec![],
    }
}

/// A two-team world with 9-slot lineups and no modifiers.
fn two_team_world() -> World {
    let mut w = World::new();
    let home_lineup: Vec<u128> = (101..=109).collect();
    let away_lineup: Vec<u128> = (201..=209).collect();
    for &pid in home_lineup.iter().chain([110].iter()) {
        w.players.insert(pid, steady_player(pid, &format!("Home Player {}", pid)));
    }
    for &pid in away_lineup.iter().chain([210].iter()) {
        w.players.insert(pid, steady_player(pid, &format!("Away Player {}", pid)));
    }
    w.teams.insert(HOME, team(HOME, "Home Full Name", "Homers", home_lineup, vec![110]));
    w.teams.insert(AWAY, team(AWAY, "Away Full Name", "Aways", away_lineup, vec![210]));
    w
}

fn header(play: i64) -> GameEvent {
    GameEvent { game_id: GID, home_team: HOME, away_team: AWAY, play }
}

fn opening() -> EventData {
    EventData::LetsGo { game: header(0), weather: Weather::Sun2, stadium_id: None }
}

#[test]
fn validates_recorded_opening_sequence() {
    // Seed (1, 2), a two-team game with 9-slot lineups and no modifiers:
    // the synthetic opening, play-ball, half-inning-start and batter-up
    // events are validated in order, the half-inning start reporting
    // inning 1, top, and the batter being lineup slot 0.
    let mut sim = Sim::new(1, 2, two_team_world());

    assert_eq!(sim.check_next_event(&opening()), Ok(()));
    assert_eq!(sim.check_next_event(&EventData::PlayBall { game: header(1) }), Ok(()));
    assert_eq!(
        sim.check_next_event(&EventData::HalfInningStart {
            game: header(2),
            top_of_inning: true,
            inning: 1,
            batting_team_name: "Away Full Name".to_string(),
        }),
        Ok(())
    );
    assert_eq!(
        sim.check_next_event(&EventData::BatterUp {
            game: header(3),
            batter_name: "Away Player 201".to_string(),
            team_nickname: "Aways".to_string(),
            wielding_item: None,
        }),
        Ok(())
    );
}

#[test]
fn non_game_events_are_no_op_successes() {
    let mut sim = Sim::new(1, 2, two_team_world());
    assert_eq!(sim.check_next_event(&EventData::NonGame), Ok(()));
    assert_eq!(sim.games.len(), 0);
}

#[test]
fn divergence_carries_both_events_and_commits_nothing() {
    // A recorded half-inning start with the wrong inning number diverges
    // from the prediction; the failed attempt commits nothing, so the
    // corrected event validates afterwards.
    let mut sim = Sim::new(1, 2, two_team_world());
    assert_eq!(sim.check_next_event(&opening()), Ok(()));
    assert_eq!(sim.check_next_event(&EventData::PlayBall { game: header(1) }), Ok(()));

    let wrong = EventData::HalfInningStart {
        game: header(2),
        top_of_inning: true,
        inning: 7,
        batting_team_name: "Away Full Name".to_string(),
    };
    match sim.check_next_event(&wrong) {
        Err(SimError::Divergence { predicted, recorded }) => {
            assert_eq!(recorded, wrong);
            match predicted {
                EventData::HalfInningStart { inning, top_of_inning, .. } => {
                    assert_eq!(inning, 1);
                    assert!(top_of_inning);
                },
                other => panic!("expected a predicted half-inning start, got {:?}", other),
            }
        },
        other => panic!("expected a divergence, got {:?}", other),
    }

    let right = EventData::HalfInningStart {
        game: header(2),
        top_of_inning: true,
        inning: 1,
        batting_team_name: "Away Full Name".to_string(),
    };
    assert_eq!(sim.check_next_event(&right), Ok(()));
}

#[test]
fn unknown_game_must_open_with_its_opening_event() {
    // The first recorded event of an untracked game must be its opening
    // event; anything else is refused and no machine entry is created.
    let mut sim = Sim::new(1, 2, two_team_world());
    assert_eq!(
        sim.check_next_event(&EventData::PlayBall { game: header(0) }),
        Err(SimError::UnexpectedFirstEvent)
    );
    assert_eq!(sim.games.len(), 0);
    // the opening event then starts the game from scratch
    assert_eq!(sim.check_next_event(&opening()), Ok(()));
    assert_eq!(sim.games.len(), 1);
}

#[test]
fn tick_errors_propagate_and_commit_nothing() {
    // an empty world: the third event needs the rosters and fails; the
    // failed attempt leaves the generator and the machine untouched
    let mut sim = Sim::new(1, 2, World::new());
    assert_eq!(sim.check_next_event(&opening()), Ok(()));
    assert_eq!(sim.check_next_event(&EventData::PlayBall { game: header(1) }), Ok(()));
    let half = EventData::HalfInningStart {
        game: header(2),
        top_of_inning: true,
        inning: 1,
        batting_team_name: "Away Full Name".to_string(),
    };
    let before_play = sim.games.get(&GID).unwrap().play;
    assert!(matches!(
        sim.check_next_event(&half),
        Err(SimError::RosterLookup(_))
    ));
    assert_eq!(sim.games.get(&GID).unwrap().play, before_play);
}

#[test]
fn event_kinds_name_their_variants() {
    assert_eq!(opening().kind(), "LetsGo");
    assert_eq!(EventData::NonGame.kind(), "NonGame");
    assert_eq!(EventData::PlayBall { game: header(0) }.kind(), "PlayBall");
}
