//! The error taxonomy of the replay core. Every kind is surfaced to the
//! caller; none is silently recovered from.

use vstd::prelude::*;
use crate::events::{EventData, Weather};

verus! {

/// Which reference-data lookup could not be resolved.
#[derive(Clone, Copy, Debug, PartialEq, Eq, Structural)]
pub enum LookupKind {
    /// A referenced team is not in the roster snapshot.
    MissingTeam,
    /// A referenced player is not in the roster snapshot.
    MissingPlayer,
    /// A roster-ordering slot cannot be resolved (the lineup or the
    /// rotation is empty).
    MissingRosterSlot,
    /// A held item is not in the item-name table.
    UnknownItemName,
}

/// Which recognized-but-unimplemented branch was reached.
#[derive(Clone, Copy, Debug, PartialEq, Eq, Structural)]
pub enum UnmodeledKind {
    /// The batter swung; swung-at resolution is an open extension point.
    SwungPitch,
    /// A weather condition whose whole handling is an open extension point.
    Weather(Weather),
    /// A weather pre-emption fired; the produced special event is open.
    WeatherProc(Weather),
}

/// An error of the replay core.
#[derive(Clone, Debug, PartialEq)]
pub enum SimError {
    /// A team, player, lineup slot or item name could not be resolved:
    /// the roster snapshot and the event stream have drifted apart.
    RosterLookup(LookupKind),
    /// A phase was entered whose precondition no longer holds; fatal.
    PhaseInconsistency,
    /// A recognized branch that is not yet modeled; callers may skip it.
    Unmodeled(UnmodeledKind),
    /// An ambient condition never observed before; fatal.
    UnknownWeather(Weather),
    /// The predicted event differs from the recorded one; both are carried.
    Divergence { predicted: EventData, recorded: EventData },
    /// The first recorded event of a game was not its opening event.
    UnexpectedFirstEvent,
}

} // verus!
