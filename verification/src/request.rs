//! Descriptions of the requests the resolvers decide to issue.
//!
//! A request is plain data: the network edge executes it and hands the
//! outcome back to the library. Listing requests walk under the pagination
//! engine; the others fetch a single entity by its id.

use vstd::prelude::*;

verus! {

/// Which games a root listing covers: every game, or the one supported
/// game-specific variant.
#[derive(Debug, Clone, Copy, PartialEq, Eq, Structural)]
pub enum GameScope {
    AllGames,
    Lol,
}

/// One request against the statistics service.
#[derive(Debug, Clone, PartialEq, Eq)]
pub enum Request {
    /// Paged root listings, optionally narrowed by a server-side name search.
    Leagues { scope: GameScope, search: Option<String> },
    Series { scope: GameScope, search: Option<String> },
    Tournaments { scope: GameScope, search: Option<String> },
    Matches { scope: GameScope, search: Option<String> },
    Teams { scope: GameScope, search: Option<String> },
    Players { scope: GameScope, search: Option<String> },
    /// Paged listings of the children of one parent entity.
    LeagueSeries { id: u64 },
    SeriesTournaments { id: u64 },
    TournamentTeams { id: u64 },
    TournamentMatches { id: u64 },
    /// Single-entity fetches by id.
    GetLeague { id: u64 },
    GetSeries { id: u64 },
    GetTournament { id: u64 },
    GetTeam { id: u64 },
    GetPlayer { id: u64 },
}

} // verus!
