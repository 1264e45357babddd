//! Root-level vertex origination: the named root edges, each with an
//! optional `game` discriminant and an optional `search` text filter.
//!
//! `game` unset picks the cross-game listing; `game` set to the one
//! supported value picks the game-specific listing variant; any other value
//! is no fatal error — it records one invalid-filter entry in the sink and
//! the root resolves to an empty lazy sequence.

use vstd::prelude::*;

use crate::error::{AdapterError, ErrorSink, ErrorView};
use crate::request::{GameScope, Request};
use crate::strutil::str_eq;

verus! {

/// Whether the schema has a root edge with this name.
pub open spec fn is_root_edge(e: Seq<char>) -> bool {
    e == "Leagues"@ || e == "Series"@ || e == "Tournaments"@ || e == "Matches"@ || e == "Teams"@
        || e == "Players"@
}

/// The listing request a root edge stands for, under the given scope and
/// search filter.
pub open spec fn start_request(edge: Seq<char>, scope: GameScope, search: Option<String>) -> Request {
    if edge == "Leagues"@ {
        Request::Leagues { scope, search }
    } else if edge == "Series"@ {
        Request::Series { scope, search }
    } else if edge == "Tournaments"@ {
        Request::Tournaments { scope, search }
    } else if edge == "Matches"@ {
        Request::Matches { scope, search }
    } else if edge == "Teams"@ {
        Request::Teams { scope, search }
    } else {
        Request::Players { scope, search }
    }
}

/// What resolving a root must yield, given the listing requests of its
/// cross-game and game-specific variants: the cross-game listing when no
/// game is named, the game-specific listing for the one supported game, and
/// an empty root with exactly one invalid-filter entry for any other game.
pub open spec fn start_outcome(
    game: Option<&str>,
    all_req: Request,
    lol_req: Request,
    r: Option<Request>,
    sink_before: Seq<ErrorView>,
    sink_after: Seq<ErrorView>,
) -> bool {
    match game {
        None => r == Some(all_req) && sink_after == sink_before,
        Some(g) => if g@ == "lol"@ {
            r == Some(lol_req) && sink_after == sink_before
        } else {
            r is None && sink_after == sink_before.push(ErrorView::InvalidGame(g@))
        },
    }
}

/// What resolving the root edge with the given name must yield.
pub open spec fn start_ok(
    edge: Seq<char>,
    game: Option<&str>,
    search: Option<String>,
    r: Option<Request>,
    sink_before: Seq<ErrorView>,
    sink_after: Seq<ErrorView>,
) -> bool {
    start_outcome(
        game,
        start_request(edge, GameScope::AllGames, search),
        start_request(edge, GameScope::Lol, search),
        r,
        sink_before,
        sink_after,
    )
}

/// Originates the `Leagues` root.
pub fn leagues(game: Option<&str>, search: Option<String>, sink: &mut ErrorSink) -> (r: Option<
    Request,
>)
    ensures
        start_outcome(
            game,
            Request::Leagues { scope: GameScope::AllGames, search },
            Request::Leagues { scope: GameScope::Lol, search },
            r,
            old(sink)@,
            final(sink)@,
        ),
{
    match game {
        None => Some(Request::Leagues { scope: GameScope::AllGames, search }),
        Some(g) => {
            if str_eq(g, "lol") {
                Some(Request::Leagues { scope: GameScope::Lol, search })
            } else {
                sink.push(AdapterError::InvalidGame(g.to_owned()));
                None
            }
        },
    }
}

/// Originates the `Series` root.
pub fn series(game: Option<&str>, search: Option<String>, sink: &mut ErrorSink) -> (r: Option<
    Request,
>)
    ensures
        start_outcome(
            game,
            Request::Series { scope: GameScope::AllGames, search },
            Request::Series { scope: GameScope::Lol, search },
            r,
            old(sink)@,
            final(sink)@,
        ),
{
    match game {
        None => Some(Request::Series { scope: GameScope::AllGames, search }),
        Some(g) => {
            if str_eq(g, "lol") {
                Some(Request::Series { scope: GameScope::Lol, search })
            } else {
                sink.push(AdapterError::InvalidGame(g.to_owned()));
                None
            }
        },
    }
}

/// Originates the `Tournaments` root.
pub fn tournaments(game: Option<&str>, search: Option<String>, sink: &mut ErrorSink) -> (r: Option<
    Request,
>)
    ensures
        start_outcome(
            game,
            Request::Tournaments { scope: GameScope::AllGames, search },
            Request::Tournaments { scope: GameScope::Lol, search },
            r,
            old(sink)@,
            final(sink)@,
        ),
{
    match game {
        None => Some(Request::Tournaments { scope: GameScope::AllGames, search }),
        Some(g) => {
            if str_eq(g, "lol") {
                Some(Request::Tournaments { scope: GameScope::Lol, search })
            } else {
                sink.push(AdapterError::InvalidGame(g.to_owned()));
                None
            }
        },
    }
}

/// Originates the `Matches` root.
pub fn matches(game: Option<&str>, search: Option<String>, sink: &mut ErrorSink) -> (r: Option<
    Request,
>)
    ensures
        start_outcome(
            game,
            Request::Matches { scope: GameScope::AllGames, search },
            Request::Matches { scope: GameScope::Lol, search },
            r,
            old(sink)@,
            final(sink)@,
        ),
{
    match game {
        None => Some(Request::Matches { scope: GameScope::AllGames, search }),
        Some(g) => {
            if str_eq(g, "lol") {
                Some(Request::Matches { scope: GameScope::Lol, search })
            } else {
                sink.push(AdapterError::InvalidGame(g.to_owned()));
                None
            }
        },
    }
}

/// Originates the `Teams` root.
pub fn teams(game: Option<&str>, search: Option<String>, sink: &mut ErrorSink) -> (r: Option<
    Request,
>)
    ensures
        start_outcome(
            game,
            Request::Teams { scope: GameScope::AllGames, search },
            Request::Teams { scope: GameScope::Lol, search },
            r,
            old(sink)@,
            final(sink)@,
        ),
{
    match game {
        None => Some(Request::Teams { scope: GameScope::AllGames, search }),
        Some(g) => {
            if str_eq(g, "lol") {
                Some(Request::Teams { scope: GameScope::Lol, search })
            } else {
                sink.push(AdapterError::InvalidGame(g.to_owned()));
                None
            }
        },
    }
}

/// Originates the `Players` root.
pub fn players(game: Option<&str>, search: Option<String>, sink: &mut ErrorSink) -> (r: Option<
    Request,
>)
    ensures
        start_outcome(
            game,
            Request::Players { scope: GameScope::AllGames, search },
            Request::Players { scope: GameScope::Lol, search },
            r,
            old(sink)@,
            final(sink)@,
        ),
{
    match game {
        None => Some(Request::Players { scope: GameScope::AllGames, search }),
        Some(g) => {
            if str_eq(g, "lol") {
                Some(Request::Players { scope: GameScope::Lol, search })
            } else {
                sink.push(AdapterError::InvalidGame(g.to_owned()));
                None
            }
        },
    }
}

/// Checks at run time whether the schema has a root edge with this name.
pub fn root_edge_supported(edge_name: &str) -> (r: bool)
    ensures
        r == is_root_edge(edge_name@),
{
    str_eq(edge_name, "Leagues") || str_eq(edge_name, "Series") || str_eq(edge_name, "Tournaments")
        || str_eq(edge_name, "Matches") || str_eq(edge_name, "Teams") || str_eq(
        edge_name,
        "Players",
    )
}

/// Resolves one named root edge into its starting plan: the listing request
/// to page through, or nothing when the game filter was invalid.
pub fn resolve_starting_vertices(
    edge_name: &str,
    game: Option<&str>,
    search: Option<String>,
    sink: &mut ErrorSink,
) -> (r: Option<Request>)
    requires
        is_root_edge(edge_name@),
    ensures
        start_ok(edge_name@, game, search, r, old(sink)@, final(sink)@),
{
    if str_eq(edge_name, "Leagues") {
        leagues(game, search, sink)
    } else if str_eq(edge_name, "Series") {
        series(game, search, sink)
    } else if str_eq(edge_name, "Tournaments") {
        tournaments(game, search, sink)
    } else if str_eq(edge_name, "Matches") {
        matches(game, search, sink)
    } else if str_eq(edge_name, "Teams") {
        teams(game, search, sink)
    } else {
        players(game, search, sink)
    }
}

} // verus!
