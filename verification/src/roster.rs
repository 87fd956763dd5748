//! The roster data the state machine consults: teams, players, their
//! modifier tags, and the read-only world that maps entity ids to them.
//!
//! Continuous player attributes are fixed-point numbers in the generator's
//! scale ([`crate::rng::FRAC_ONE`] is 1.0): the resolution formulas compare
//! them against draws exactly, with no rounding.

use vstd::prelude::*;
use std::collections::HashMap;
use crate::errors::{LookupKind, SimError};

verus! {

broadcast use vstd::std_specs::hash::group_hash_axioms;

/// Display information of a scattered team.
#[derive(Clone, Debug, PartialEq)]
pub struct TeamScatteredInfo {
    pub full_name: String,
    pub location: String,
    pub nickname: String,
}

/// A held item. Its fields are not modeled yet.
#[derive(Clone, Debug, PartialEq)]
pub struct Item {
}

/// When a player went elsewhere.
#[derive(Clone, Copy, Debug, PartialEq, Eq, Structural)]
pub struct PlayerElsewhereInfo {
    pub day: i32,
    pub season: i32,
}

/// A team: identity, display names, cyclically indexed roster orderings,
/// and modifier tags partitioned by duration scope.
#[derive(Clone, Debug, PartialEq)]
pub struct Team {
    pub id: u128,
    pub full_name: String,
    pub nickname: String,
    pub scattered: Option<TeamScatteredInfo>,
    pub lineup: Vec<u128>,
    pub rotation: Vec<u128>,
    pub rotation_slot: u64,
    pub perm_attr: Vec<String>,
    pub seas_attr: Vec<String>,
    pub week_attr: Vec<String>,
    pub game_attr: Vec<String>,
}

/// A player: identity, display names, the continuous attributes the pitch
/// formulas read (fixed-point, `FRAC_ONE` is 1.0), a held bat, and modifier
/// tags partitioned by the four duration scopes: permanent, seasonal,
/// weekly, per-game.
#[derive(Clone, Debug, PartialEq)]
pub struct Player {
    pub id: u128,
    pub name: String,
    pub unscattered_name: Option<String>,
    pub elsewhere: Option<PlayerElsewhereInfo>,
    pub bat: Option<String>,
    pub items: Option<Vec<Item>>,
    pub divinity: u64,
    pub moxie: u64,
    pub musclitude: u64,
    pub patheticism: u64,
    pub ruthlessness: u64,
    pub thwackability: u64,
    pub perm_attr: Option<Vec<String>>,
    pub seas_attr: Option<Vec<String>>,
    pub week_attr: Option<Vec<String>>,
    pub game_attr: Option<Vec<String>>,
}

/// Whether a tag list holds the given modifier name.
pub open spec fn spec_list_has_mod(list: Option<Vec<String>>, name: Seq<char>) -> bool {
    match list {
        None => false,
        Some(v) => exists|i: int| 0 <= i < v@.len() && (#[trigger] v@[i])@ == name,
    }
}

/// Decides [`spec_list_has_mod`]: whether the optional tag list holds the name.
#[verifier::loop_isolation(false)]
pub fn list_has_mod(list: &Option<Vec<String>>, mod_name: &str) -> (r: bool)
    ensures
        r == spec_list_has_mod(*list, mod_name@),
{
    match list {
        None => false,
        Some(v) => {
            let needle = String::from_str(mod_name);
            let mut i: usize = 0;
            while i < v.len()
                invariant
                    i <= v@.len(),
                    needle@ == mod_name@,
                    forall|j: int| 0 <= j < i ==> (#[trigger] v@[j])@ != mod_name@,
                decreases v@.len() - i,
            {
                if v[i].eq(&needle) {
                    proof {
                        assert((v@[i as int])@ == mod_name@);
                    }
                    return true;
                }
                i = i + 1;
            }
            false
        },
    }
}

/// Whether the player carries the modifier in any of the four tag lists;
/// a derived, not stored, property.
pub open spec fn spec_has_mod(p: Player, name: Seq<char>) -> bool {
    ||| spec_list_has_mod(p.perm_attr, name)
    ||| spec_list_has_mod(p.seas_attr, name)
    ||| spec_list_has_mod(p.week_attr, name)
    ||| spec_list_has_mod(p.game_attr, name)
}

/// The display name of a team: the scattered name when scattered.
pub open spec fn spec_team_display_name(t: Team) -> Seq<char> {
    match t.scattered {
        Some(info) => info.full_name@,
        None => t.full_name@,
    }
}

/// The display name of a player: the unscattered name when present.
pub open spec fn spec_player_display_name(p: Player) -> Seq<char> {
    match p.unscattered_name {
        Some(n) => n@,
        None => p.name@,
    }
}

impl Team {
    /// The display line of the team.
    pub fn display(&self) -> (r: String)
        ensures
            r@ == "Team: "@ + spec_team_display_name(*self),
    {
        let name = match &self.scattered {
            Some(info) => &info.full_name,
            None => &self.full_name,
        };
        String::from_str("Team: ").concat(name.as_str())
    }
}

impl Player {
    /// Whether the player carries the modifier in any of the four tag lists.
    pub fn has_mod(&self, mod_name: &str) -> (r: bool)
        ensures
            r == spec_has_mod(*self, mod_name@),
    {
        list_has_mod(&self.perm_attr, mod_name)
            || list_has_mod(&self.seas_attr, mod_name)
            || list_has_mod(&self.week_attr, mod_name)
            || list_has_mod(&self.game_attr, mod_name)
    }

    /// The display line of the player.
    pub fn display(&self) -> (r: String)
        ensures
            r@ == "Player: "@ + spec_player_display_name(*self),
    {
        let name = match &self.unscattered_name {
            Some(n) => n,
            None => &self.name,
        };
        String::from_str("Player: ").concat(name.as_str())
    }
}

/// The roster slots of a team in search order: lineup, then rotation.
pub open spec fn spec_slots(t: Team) -> Seq<u128> {
    t.lineup@ + t.rotation@
}

/// Scan slots in order for the modifier: the first unresolved player is an
/// error, the first carrier answers true, an exhausted list answers false.
pub open spec fn spec_scan_has_mod(
    players: Map<u128, Player>,
    slots: Seq<u128>,
    name: Seq<char>,
) -> Result<bool, SimError>
    decreases slots.len(),
{
    if slots.len() == 0 {
        Ok(false)
    } else if !players.contains_key(slots[0]) {
        Err(SimError::RosterLookup(LookupKind::MissingPlayer))
    } else if spec_has_mod(players[slots[0]], name) {
        Ok(true)
    } else {
        spec_scan_has_mod(players, slots.drop_first(), name)
    }
}

/// Scan slots in order for the modifier: the first unresolved player is an
/// error, the first carrier is the answer, an exhausted list answers none.
pub open spec fn spec_scan_find_mod(
    players: Map<u128, Player>,
    slots: Seq<u128>,
    name: Seq<char>,
) -> Result<Option<Player>, SimError>
    decreases slots.len(),
{
    if slots.len() == 0 {
        Ok(None)
    } else if !players.contains_key(slots[0]) {
        Err(SimError::RosterLookup(LookupKind::MissingPlayer))
    } else if spec_has_mod(players[slots[0]], name) {
        Ok(Some(players[slots[0]]))
    } else {
        spec_scan_find_mod(players, slots.drop_first(), name)
    }
}

/// Whether any player on the team carries the modifier, scanning lineup
/// then rotation; an unresolved team or player is an error.
pub open spec fn spec_any_has_mod(w: World, team_id: u128, name: Seq<char>) -> Result<bool, SimError> {
    if !w.teams@.contains_key(team_id) {
        Err(SimError::RosterLookup(LookupKind::MissingTeam))
    } else {
        spec_scan_has_mod(w.players@, spec_slots(w.teams@[team_id]), name)
    }
}

/// The first player on the team carrying the modifier, scanning lineup then
/// rotation; an unresolved team or player is an error.
pub open spec fn spec_find_mod(w: World, team_id: u128, name: Seq<char>) -> Result<Option<Player>, SimError> {
    if !w.teams@.contains_key(team_id) {
        Err(SimError::RosterLookup(LookupKind::MissingTeam))
    } else {
        spec_scan_find_mod(w.players@, spec_slots(w.teams@[team_id]), name)
    }
}

/// Read-only access to the team and player entities of one snapshot.
#[derive(Debug)]
pub struct World {
    pub teams: HashMap<u128, Team>,
    pub players: HashMap<u128, Player>,
}

proof fn lemma_scan_has_mod_skip(players: Map<u128, Player>, slots: Seq<u128>, name: Seq<char>, i: int)
    requires
        0 <= i < slots.len(),
        players.contains_key(slots[i]),
        !spec_has_mod(players[slots[i]], name),
    ensures
        spec_scan_has_mod(players, slots.skip(i), name)
            == spec_scan_has_mod(players, slots.skip(i + 1), name),
{
    assert(slots.skip(i)[0] == slots[i]);
    assert(slots.skip(i).drop_first() =~= slots.skip(i + 1));
}

proof fn lemma_scan_find_mod_skip(players: Map<u128, Player>, slots: Seq<u128>, name: Seq<char>, i: int)
    requires
        0 <= i < slots.len(),
        players.contains_key(slots[i]),
        !spec_has_mod(players[slots[i]], name),
    ensures
        spec_scan_find_mod(players, slots.skip(i), name)
            == spec_scan_find_mod(players, slots.skip(i + 1), name),
{
    assert(slots.skip(i)[0] == slots[i]);
    assert(slots.skip(i).drop_first() =~= slots.skip(i + 1));
}

impl World {
    /// An empty snapshot.
    pub fn new() -> (w: Self)
        ensures
            w.teams@ == Map::<u128, Team>::empty(),
            w.players@ == Map::<u128, Player>::empty(),
    {
        World { teams: HashMap::new(), players: HashMap::new() }
    }

    /// The team with this id, if the snapshot holds it.
    pub fn get_team(&self, team_id: u128) -> (r: Option<&Team>)
        ensures
            (match r {
                Some(t) => self.teams@.contains_key(team_id) && *t == self.teams@[team_id],
                None => !self.teams@.contains_key(team_id),
            }),
    {
        self.teams.get(&team_id)
    }

    /// The player with this id, if the snapshot holds it.
    pub fn get_player(&self, player_id: u128) -> (r: Option<&Player>)
        ensures
            (match r {
                Some(p) => self.players@.contains_key(player_id) && *p == self.players@[player_id],
                None => !self.players@.contains_key(player_id),
            }),
    {
        self.players.get(&player_id)
    }

    /// The players at the given ids, in order, each slot left unresolved
    /// when the snapshot does not hold it.
    #[verifier::loop_isolation(false)]
    pub fn iter_players<'a>(&'a self, player_ids: &Vec<u128>) -> (r: Vec<Option<&'a Player>>)
        ensures
            r@.len() == player_ids@.len(),
            forall|i: int| 0 <= i < r@.len() ==> (match #[trigger] r@[i] {
                Some(p) => self.players@.contains_key(player_ids@[i])
                    && *p == self.players@[player_ids@[i]],
                None => !self.players@.contains_key(player_ids@[i]),
            }),
    {
        let mut out: Vec<Option<&Player>> = Vec::new();
        let mut i: usize = 0;
        while i < player_ids.len()
            invariant
                i <= player_ids@.len(),
                out@.len() == i,
                forall|j: int| 0 <= j < i ==> (match #[trigger] out@[j] {
                    Some(p) => self.players@.contains_key(player_ids@[j])
                        && *p == self.players@[player_ids@[j]],
                    None => !self.players@.contains_key(player_ids@[j]),
                }),
            decreases player_ids@.len() - i,
        {
            out.push(self.get_player(player_ids[i]));
            i = i + 1;
        }
        out
    }

    /// The roster slots of the team in search order — lineup, then
    /// rotation — or nothing if the team cannot be resolved.
    #[verifier::loop_isolation(false)]
    pub fn players_on_team(&self, team_id: u128) -> (r: Option<Vec<u128>>)
        ensures
            (match r {
                Some(v) => self.teams@.contains_key(team_id)
                    && v@ == spec_slots(self.teams@[team_id]),
                None => !self.teams@.contains_key(team_id),
            }),
    {
        let team = match self.get_team(team_id) {
            Some(t) => t,
            None => {
                return None;
            },
        };
        let mut slots: Vec<u128> = Vec::new();
        let mut i: usize = 0;
        while i < team.lineup.len()
            invariant
                i <= team.lineup@.len(),
                slots@ == team.lineup@.take(i as int),
            decreases team.lineup@.len() - i,
        {
            slots.push(team.lineup[i]);
            proof {
                assert(slots@ =~= team.lineup@.take(i + 1));
            }
            i = i + 1;
        }
        let mut j: usize = 0;
        while j < team.rotation.len()
            invariant
                j <= team.rotation@.len(),
                slots@ == team.lineup@ + team.rotation@.take(j as int),
            decreases team.rotation@.len() - j,
        {
            slots.push(team.rotation[j]);
            proof {
                assert(slots@ =~= team.lineup@ + team.rotation@.take(j + 1));
            }
            j = j + 1;
        }
        proof {
            assert(team.lineup@ =~= team.lineup@.take(team.lineup@.len() as int));
            assert(slots@ =~= spec_slots(self.teams@[team_id]));
        }
        Some(slots)
    }

    /// Whether any player on the team carries the modifier, per
    /// [`spec_any_has_mod`].
    #[verifier::loop_isolation(false)]
    pub fn any_player_on_team_has_mod(&self, team_id: u128, mod_name: &str) -> (r: Result<bool, SimError>)
        ensures
            r == spec_any_has_mod(*self, team_id, mod_name@),
    {
        let slots = match self.players_on_team(team_id) {
            Some(v) => v,
            None => {
                return Err(SimError::RosterLookup(LookupKind::MissingTeam));
            },
        };
        let ghost sv = slots@;
        proof {
            assert(sv.skip(0) =~= sv);
        }
        let mut i: usize = 0;
        while i < slots.len()
            invariant
                i <= sv.len(),
                slots@ == sv,
                spec_scan_has_mod(self.players@, sv.skip(i as int), mod_name@)
                    == spec_scan_has_mod(self.players@, sv, mod_name@),
            decreases sv.len() - i,
        {
            proof {
                assert(sv.skip(i as int)[0] == sv[i as int]);
            }
            let player = match self.get_player(slots[i]) {
                Some(p) => p,
                None => {
                    return Err(SimError::RosterLookup(LookupKind::MissingPlayer));
                },
            };
            if player.has_mod(mod_name) {
                return Ok(true);
            }
            proof {
                lemma_scan_has_mod_skip(self.players@, sv, mod_name@, i as int);
            }
            i = i + 1;
        }
        proof {
            assert(sv.skip(sv.len() as int) =~= Seq::<u128>::empty());
        }
        Ok(false)
    }

    /// The first player on the team carrying the modifier, per
    /// [`spec_find_mod`].
    #[verifier::loop_isolation(false)]
    pub fn find_player_with_mod(&self, team_id: u128, mod_name: &str) -> (r: Result<Option<&Player>, SimError>)
        ensures
            (match r {
                Ok(Some(p)) => spec_find_mod(*self, team_id, mod_name@)
                    == Ok::<Option<Player>, SimError>(Some(*p)),
                Ok(None) => spec_find_mod(*self, team_id, mod_name@)
                    == Ok::<Option<Player>, SimError>(None),
                Err(e) => spec_find_mod(*self, team_id, mod_name@)
                    == Err::<Option<Player>, SimError>(e),
            }),
    {
        let slots = match self.players_on_team(team_id) {
            Some(v) => v,
            None => {
                return Err(SimError::RosterLookup(LookupKind::MissingTeam));
            },
        };
        let ghost sv = slots@;
        proof {
            assert(sv.skip(0) =~= sv);
        }
        let mut i: usize = 0;
        while i < slots.len()
            invariant
                i <= sv.len(),
                slots@ == sv,
                spec_scan_find_mod(self.players@, sv.skip(i as int), mod_name@)
                    == spec_scan_find_mod(self.players@, sv, mod_name@),
            decreases sv.len() - i,
        {
            proof {
                assert(sv.skip(i as int)[0] == sv[i as int]);
            }
            let player = match self.get_player(slots[i]) {
                Some(p) => p,
                None => {
                    return Err(SimError::RosterLookup(LookupKind::MissingPlayer));
                },
            };
            if player.has_mod(mod_name) {
                return Ok(Some(player));
            }
            proof {
                lemma_scan_find_mod_skip(self.players@, sv, mod_name@, i as int);
            }
            i = i + 1;
        }
        proof {
            assert(sv.skip(sv.len() as int) =~= Seq::<u128>::empty());
        }
        Ok(None)
    }
}

} // verus!
