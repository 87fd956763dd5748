//! The output-event model: one tagged variant per discrete broadcastable
//! game event, each carrying the fields that describe that moment, plus the
//! per-game header with the monotonically increasing play number.
//!
//! Identifiers are 128-bit values (the wire form of an entity id); the view
//! of an event replaces every string by its character sequence, so that a
//! predicted and a recorded event compare by content.

use vstd::prelude::*;

verus! {

/// The ambient weather condition of a game. Conditions that have never been
/// observed arrive as `Other` with their raw code.
#[derive(Clone, Copy, Debug, PartialEq, Eq, Structural)]
pub enum Weather {
    Sun2,
    Snowy,
    SolarEclipse,
    Glitter,
    Blooddrain,
    Peanuts,
    Birds,
    Feedback,
    Reverb,
    BlackHole,
    Coffee,
    Coffee2,
    Coffee3s,
    Flooding,
    Salmon,
    PolarityPlus,
    PolarityMinus,
    Sun90,
    SunPoint1,
    SumSun,
    SupernovaEclipse,
    BlackHoleBlackHole,
    Jazz,
    Night,
    Other(u64),
}

/// The per-game header carried by every game event.
#[derive(Clone, Copy, Debug, PartialEq, Eq, Structural)]
pub struct GameEvent {
    pub game_id: u128,
    pub home_team: u128,
    pub away_team: u128,
    pub play: i64,
}

/// The announcement payload of a performance-modifier toggle.
#[derive(Clone, Debug, PartialEq)]
pub struct TogglePerforming {
    pub player_id: u128,
    pub team_id: u128,
    pub player_name: String,
    pub is_overperforming: bool,
    pub is_first_proc: bool,
    pub sub_event: u128,
}

/// View of [`TogglePerforming`]: the name as a character sequence.
pub struct ToggleV {
    pub player_id: u128,
    pub team_id: u128,
    pub player_name: Seq<char>,
    pub is_overperforming: bool,
    pub is_first_proc: bool,
    pub sub_event: u128,
}

impl View for TogglePerforming {
    type V = ToggleV;

    open spec fn view(&self) -> ToggleV {
        ToggleV {
            player_id: self.player_id,
            team_id: self.team_id,
            player_name: self.player_name@,
            is_overperforming: self.is_overperforming,
            is_first_proc: self.is_first_proc,
            sub_event: self.sub_event,
        }
    }
}

/// One recorded or predicted event. `NonGame` stands for any recorded event
/// that carries no per-game payload; the state machine never produces it.
#[derive(Clone, Debug, PartialEq)]
pub enum EventData {
    LetsGo { game: GameEvent, weather: Weather, stadium_id: Option<u128> },
    PlayBall { game: GameEvent },
    HalfInningStart { game: GameEvent, top_of_inning: bool, inning: i32, batting_team_name: String },
    SuperyummyGameStart { game: GameEvent, toggle: TogglePerforming },
    BatterUp { game: GameEvent, batter_name: String, team_nickname: String, wielding_item: Option<String> },
    StrikeLooking { game: GameEvent, balls: i32, strikes: i32 },
    Ball { game: GameEvent, balls: i32, strikes: i32 },
    NonGame,
}

/// View of [`EventData`]: every string replaced by its character sequence.
pub enum EventV {
    LetsGo { game: GameEvent, weather: Weather, stadium_id: Option<u128> },
    PlayBall { game: GameEvent },
    HalfInningStart { game: GameEvent, top_of_inning: bool, inning: i32, batting_team_name: Seq<char> },
    SuperyummyGameStart { game: GameEvent, toggle: ToggleV },
    BatterUp { game: GameEvent, batter_name: Seq<char>, team_nickname: Seq<char>, wielding_item: Option<Seq<char>> },
    StrikeLooking { game: GameEvent, balls: i32, strikes: i32 },
    Ball { game: GameEvent, balls: i32, strikes: i32 },
    NonGame,
}

impl View for EventData {
    type V = EventV;

    open spec fn view(&self) -> EventV {
        match *self {
            EventData::LetsGo { game, weather, stadium_id } =>
                EventV::LetsGo { game, weather, stadium_id },
            EventData::PlayBall { game } =>
                EventV::PlayBall { game },
            EventData::HalfInningStart { game, top_of_inning, inning, batting_team_name } =>
                EventV::HalfInningStart { game, top_of_inning, inning, batting_team_name: batting_team_name@ },
            EventData::SuperyummyGameStart { game, toggle } =>
                EventV::SuperyummyGameStart { game, toggle: toggle@ },
            EventData::BatterUp { game, batter_name, team_nickname, wielding_item } =>
                EventV::BatterUp {
                    game,
                    batter_name: batter_name@,
                    team_nickname: team_nickname@,
                    wielding_item: match wielding_item {
                        Some(s) => Some(s@),
                        None => None,
                    },
                },
            EventData::StrikeLooking { game, balls, strikes } =>
                EventV::StrikeLooking { game, balls, strikes },
            EventData::Ball { game, balls, strikes } =>
                EventV::Ball { game, balls, strikes },
            EventData::NonGame => EventV::NonGame,
        }
    }
}

/// The game header of the view of an event, if it carries one.
pub open spec fn spec_game_of(e: EventV) -> Option<GameEvent> {
    match e {
        EventV::LetsGo { game, .. } => Some(game),
        EventV::PlayBall { game } => Some(game),
        EventV::HalfInningStart { game, .. } => Some(game),
        EventV::SuperyummyGameStart { game, .. } => Some(game),
        EventV::BatterUp { game, .. } => Some(game),
        EventV::StrikeLooking { game, .. } => Some(game),
        EventV::Ball { game, .. } => Some(game),
        EventV::NonGame => None,
    }
}

impl EventData {
    /// The per-game header, if this event carries one.
    pub fn game(&self) -> (r: Option<&GameEvent>)
        ensures
            (match r {
                Some(g) => spec_game_of(self@) == Some(*g),
                None => spec_game_of(self@) is None,
            }),
    {
        match self {
            EventData::LetsGo { game, .. } => Some(game),
            EventData::PlayBall { game } => Some(game),
            EventData::HalfInningStart { game, .. } => Some(game),
            EventData::SuperyummyGameStart { game, .. } => Some(game),
            EventData::BatterUp { game, .. } => Some(game),
            EventData::StrikeLooking { game, .. } => Some(game),
            EventData::Ball { game, .. } => Some(game),
            EventData::NonGame => None,
        }
    }

    /// The kind of the event, as a display word.
    pub fn kind(&self) -> (r: &'static str)
        ensures
            r@ == spec_kind(self@),
    {
        match self {
            EventData::LetsGo { .. } => "LetsGo",
            EventData::PlayBall { .. } => "PlayBall",
            EventData::HalfInningStart { .. } => "HalfInningStart",
            EventData::SuperyummyGameStart { .. } => "SuperyummyGameStart",
            EventData::BatterUp { .. } => "BatterUp",
            EventData::StrikeLooking { .. } => "StrikeLooking",
            EventData::Ball { .. } => "Ball",
            EventData::NonGame => "NonGame",
        }
    }

    /// An exact copy, field for field.
    pub fn duplicate(&self) -> (r: Self)
        ensures
            r == *self,
    {
        match self {
            EventData::LetsGo { game, weather, stadium_id } =>
                EventData::LetsGo { game: *game, weather: *weather, stadium_id: *stadium_id },
            EventData::PlayBall { game } =>
                EventData::PlayBall { game: *game },
            EventData::HalfInningStart { game, top_of_inning, inning, batting_team_name } =>
                EventData::HalfInningStart {
                    game: *game,
                    top_of_inning: *top_of_inning,
                    inning: *inning,
                    batting_team_name: batting_team_name.clone(),
                },
            EventData::SuperyummyGameStart { game, toggle } =>
                EventData::SuperyummyGameStart {
                    game: *game,
                    toggle: TogglePerforming {
                        player_id: toggle.player_id,
                        team_id: toggle.team_id,
                        player_name: toggle.player_name.clone(),
                        is_overperforming: toggle.is_overperforming,
                        is_first_proc: toggle.is_first_proc,
                        sub_event: toggle.sub_event,
                    },
                },
            EventData::BatterUp { game, batter_name, team_nickname, wielding_item } =>
                EventData::BatterUp {
                    game: *game,
                    batter_name: batter_name.clone(),
                    team_nickname: team_nickname.clone(),
                    wielding_item: match wielding_item {
                        Some(s) => Some(s.clone()),
                        None => None,
                    },
                },
            EventData::StrikeLooking { game, balls, strikes } =>
                EventData::StrikeLooking { game: *game, balls: *balls, strikes: *strikes },
            EventData::Ball { game, balls, strikes } =>
                EventData::Ball { game: *game, balls: *balls, strikes: *strikes },
            EventData::NonGame => EventData::NonGame,
        }
    }
}

/// The kind of the event, as a character sequence.
pub open spec fn spec_kind(e: EventV) -> Seq<char> {
    match e {
        EventV::LetsGo { .. } => "LetsGo"@,
        EventV::PlayBall { .. } => "PlayBall"@,
        EventV::HalfInningStart { .. } => "HalfInningStart"@,
        EventV::SuperyummyGameStart { .. } => "SuperyummyGameStart"@,
        EventV::BatterUp { .. } => "BatterUp"@,
        EventV::StrikeLooking { .. } => "StrikeLooking"@,
        EventV::Ball { .. } => "Ball"@,
        EventV::NonGame => "NonGame"@,
    }
}

/// Two option-strings with the same content.
pub open spec fn opt_seq_eq(a: Option<Seq<char>>, b: Option<Seq<char>>) -> bool {
    match (a, b) {
        (None, None) => true,
        (Some(x), Some(y)) => x == y,
        _ => false,
    }
}

/// Two event views with the same content, field for field.
pub open spec fn event_eq(a: EventV, b: EventV) -> bool {
    match (a, b) {
        (EventV::LetsGo { game: g1, weather: w1, stadium_id: s1 },
         EventV::LetsGo { game: g2, weather: w2, stadium_id: s2 }) =>
            g1 == g2 && w1 == w2 && s1 == s2,
        (EventV::PlayBall { game: g1 }, EventV::PlayBall { game: g2 }) => g1 == g2,
        (EventV::HalfInningStart { game: g1, top_of_inning: t1, inning: i1, batting_team_name: n1 },
         EventV::HalfInningStart { game: g2, top_of_inning: t2, inning: i2, batting_team_name: n2 }) =>
            g1 == g2 && t1 == t2 && i1 == i2 && n1 == n2,
        (EventV::SuperyummyGameStart { game: g1, toggle: t1 },
         EventV::SuperyummyGameStart { game: g2, toggle: t2 }) =>
            g1 == g2 && t1.player_id == t2.player_id && t1.team_id == t2.team_id
                && t1.player_name == t2.player_name
                && t1.is_overperforming == t2.is_overperforming
                && t1.is_first_proc == t2.is_first_proc
                && t1.sub_event == t2.sub_event,
        (EventV::BatterUp { game: g1, batter_name: b1, team_nickname: n1, wielding_item: w1 },
         EventV::BatterUp { game: g2, batter_name: b2, team_nickname: n2, wielding_item: w2 }) =>
            g1 == g2 && b1 == b2 && n1 == n2 && opt_seq_eq(w1, w2),
        (EventV::StrikeLooking { game: g1, balls: b1, strikes: s1 },
         EventV::StrikeLooking { game: g2, balls: b2, strikes: s2 }) =>
            g1 == g2 && b1 == b2 && s1 == s2,
        (EventV::Ball { game: g1, balls: b1, strikes: s1 },
         EventV::Ball { game: g2, balls: b2, strikes: s2 }) =>
            g1 == g2 && b1 == b2 && s1 == s2,
        (EventV::NonGame, EventV::NonGame) => true,
        _ => false,
    }
}

/// Decides [`event_eq`] on two events: deep equality by content.
pub fn events_match(a: &EventData, b: &EventData) -> (r: bool)
    ensures
        r == event_eq(a@, b@),
{
    match (a, b) {
        (EventData::LetsGo { game: g1, weather: w1, stadium_id: s1 },
         EventData::LetsGo { game: g2, weather: w2, stadium_id: s2 }) =>
            *g1 == *g2 && *w1 == *w2 && opt_u128_eq(s1, s2),
        (EventData::PlayBall { game: g1 }, EventData::PlayBall { game: g2 }) => *g1 == *g2,
        (EventData::HalfInningStart { game: g1, top_of_inning: t1, inning: i1, batting_team_name: n1 },
         EventData::HalfInningStart { game: g2, top_of_inning: t2, inning: i2, batting_team_name: n2 }) =>
            *g1 == *g2 && *t1 == *t2 && *i1 == *i2 && n1.eq(n2),
        (EventData::SuperyummyGameStart { game: g1, toggle: t1 },
         EventData::SuperyummyGameStart { game: g2, toggle: t2 }) =>
            *g1 == *g2 && t1.player_id == t2.player_id && t1.team_id == t2.team_id
                && t1.player_name.eq(&t2.player_name)
                && t1.is_overperforming == t2.is_overperforming
                && t1.is_first_proc == t2.is_first_proc
                && t1.sub_event == t2.sub_event,
        (EventData::BatterUp { game: g1, batter_name: b1, team_nickname: n1, wielding_item: w1 },
         EventData::BatterUp { game: g2, batter_name: b2, team_nickname: n2, wielding_item: w2 }) =>
            *g1 == *g2 && b1.eq(b2) && n1.eq(n2) && opt_string_eq(w1, w2),
        (EventData::StrikeLooking { game: g1, balls: b1, strikes: s1 },
         EventData::StrikeLooking { game: g2, balls: b2, strikes: s2 }) =>
            *g1 == *g2 && *b1 == *b2 && *s1 == *s2,
        (EventData::Ball { game: g1, balls: b1, strikes: s1 },
         EventData::Ball { game: g2, balls: b2, strikes: s2 }) =>
            *g1 == *g2 && *b1 == *b2 && *s1 == *s2,
        (EventData::NonGame, EventData::NonGame) => true,
        _ => false,
    }
}

/// Two optional ids with the same content.
fn opt_u128_eq(a: &Option<u128>, b: &Option<u128>) -> (r: bool)
    ensures
        r == (*a == *b),
{
    match (a, b) {
        (None, None) => true,
        (Some(x), Some(y)) => *x == *y,
        _ => false,
    }
}

/// Two optional strings with the same content.
fn opt_string_eq(a: &Option<String>, b: &Option<String>) -> (r: bool)
    ensures
        r == (match (a, b) {
            (None, None) => true,
            (Some(x), Some(y)) => x@ == y@,
            _ => false,
        }),
{
    match (a, b) {
        (None, None) => true,
        (Some(x), Some(y)) => x.eq(y),
        _ => false,
    }
}

} // verus!
