//! Per (type, edge) neighbor resolution.
//!
//! Resolving an edge on a vertex yields a *plan*: what the lazy neighbor
//! sequence of that vertex is made of. A plan is either a paged listing to
//! walk, a single-hop fetch, data already embedded in the parent payload, a
//! per-member fan-out, a winner fetch, or nothing. No network access happens
//! here; the driver executes the plan on demand and hands fetched entities
//! back to the completion functions below.

use vstd::prelude::*;

use crate::model::{same_team, League, Match, Player, Series, Team, Tournament, Vertex, WinnerRef};
use crate::request::Request;

verus! {

/// How one vertex's neighbor sequence along one edge is produced.
#[derive(Debug)]
pub enum NeighborPlan {
    /// Walk this paged listing; each item becomes one vertex.
    Paginated(Request),
    /// Issue this single fetch: one vertex on success, none on failure, and
    /// no error recorded either way.
    Direct(Request),
    /// The neighbors were already present in the parent payload.
    Embedded(Vec<Vertex>),
    /// Fetch each of these players by id, dropping the ids whose fetch
    /// fails, keeping the order, recording nothing.
    FanOutPlayers(Vec<u64>),
    /// The parent's winner union is tagged "team" with this id: fetch the
    /// team and enrich it.
    WinnerTeamFetch { id: u64 },
    /// The parent's winner union is tagged "player" with this id: fetch the
    /// player and enrich it.
    WinnerPlayerFetch { id: u64 },
    /// The edge yields no vertices and no fetch is made.
    Empty,
}

/// The mathematical image of a neighbor plan.
pub enum PlanV {
    Paginated(Request),
    Direct(Request),
    Embedded(Seq<Vertex>),
    FanOutPlayers(Seq<u64>),
    WinnerTeamFetch { id: u64 },
    WinnerPlayerFetch { id: u64 },
    Empty,
}

impl View for NeighborPlan {
    type V = PlanV;

    open spec fn view(&self) -> PlanV {
        match self {
            NeighborPlan::Paginated(r) => PlanV::Paginated(*r),
            NeighborPlan::Direct(r) => PlanV::Direct(*r),
            NeighborPlan::Embedded(vs) => PlanV::Embedded(vs@),
            NeighborPlan::FanOutPlayers(ids) => PlanV::FanOutPlayers(ids@),
            NeighborPlan::WinnerTeamFetch { id } => PlanV::WinnerTeamFetch { id: *id },
            NeighborPlan::WinnerPlayerFetch { id } => PlanV::WinnerPlayerFetch { id: *id },
            NeighborPlan::Empty => PlanV::Empty,
        }
    }
}

/// The plan an optional winner union resolves to: a tagged reference with a
/// present id becomes the matching enriching fetch; an absent union or an
/// absent id yields nothing, with no error recorded.
pub open spec fn winner_plan(w: Option<WinnerRef>) -> PlanV {
    match w {
        Some(WinnerRef::Team { id: Some(id) }) => PlanV::WinnerTeamFetch { id },
        Some(WinnerRef::Player { id: Some(id) }) => PlanV::WinnerPlayerFetch { id },
        _ => PlanV::Empty,
    }
}

/// Resolves the winner union shared by series, tournaments and matches.
pub fn resolve_winner(winner: &Option<WinnerRef>) -> (r: NeighborPlan)
    ensures
        r@ == winner_plan(*winner),
{
    match winner {
        Some(WinnerRef::Team { id: Some(id) }) => NeighborPlan::WinnerTeamFetch { id: *id },
        Some(WinnerRef::Player { id: Some(id) }) => NeighborPlan::WinnerPlayerFetch { id: *id },
        _ => NeighborPlan::Empty,
    }
}

/// Whether the schema has an edge with this name on the type with that name.
pub open spec fn is_edge_of(tname: Seq<char>, edge: Seq<char>) -> bool {
    if tname == "League"@ {
        edge == "series"@
    } else if tname == "Series"@ {
        edge == "tournaments"@ || edge == "winner"@ || edge == "league"@
    } else if tname == "Tournament"@ {
        edge == "teams"@ || edge == "matches"@ || edge == "video_game"@ || edge == "winner"@
            || edge == "league"@ || edge == "series"@
    } else if tname == "Team"@ {
        edge == "players"@
    } else if tname == "Player"@ {
        edge == "current_team"@
    } else if tname == "Match"@ {
        edge == "winner"@ || edge == "league"@ || edge == "series"@ || edge == "tournament"@
    } else if tname == "WinnerTeam"@ {
        edge == "team"@
    } else if tname == "WinnerPlayer"@ {
        edge == "player"@
    } else {
        false
    }
}

/// The plan of a league's one edge, `series`: the paged listing of the
/// league's series.
pub open spec fn league_edge_plan(l: League, edge: Seq<char>) -> PlanV {
    PlanV::Paginated(Request::LeagueSeries { id: l.id })
}

/// The plan of a series edge: `tournaments` pages through the series'
/// tournaments, `winner` resolves the winner union, and `league` is a
/// single-hop fetch of the owning league.
pub open spec fn series_edge_plan(s: Series, edge: Seq<char>) -> PlanV {
    if edge == "tournaments"@ {
        PlanV::Paginated(Request::SeriesTournaments { id: s.id })
    } else if edge == "winner"@ {
        winner_plan(s.winner)
    } else {
        PlanV::Direct(Request::GetLeague { id: s.league_id })
    }
}

/// The plan of a tournament edge: `teams` and `matches` page through the
/// tournament's children, `video_game` is embedded in the payload, `winner`
/// resolves the winner union, and `league` and `series` are single-hop
/// fetches of the owning entities.
pub open spec fn tournament_edge_plan(t: Tournament, edge: Seq<char>) -> PlanV {
    if edge == "teams"@ {
        PlanV::Paginated(Request::TournamentTeams { id: t.id })
    } else if edge == "matches"@ {
        PlanV::Paginated(Request::TournamentMatches { id: t.id })
    } else if edge == "video_game"@ {
        PlanV::Embedded(seq![Vertex::VideoGame(t.video_game)])
    } else if edge == "winner"@ {
        winner_plan(t.winner)
    } else if edge == "league"@ {
        PlanV::Direct(Request::GetLeague { id: t.league_id })
    } else {
        PlanV::Direct(Request::GetSeries { id: t.serie_id })
    }
}

/// The plan of a player's one edge, `current_team`: a single-hop fetch of
/// the referenced team, or nothing when the player has none.
pub open spec fn player_edge_plan(pl: Player, edge: Seq<char>) -> PlanV {
    match pl.current_team_id {
        Some(id) => PlanV::Direct(Request::GetTeam { id }),
        None => PlanV::Empty,
    }
}

/// The plan of a match edge: `winner` resolves the winner union, and
/// `league`, `series` and `tournament` are single-hop fetches of the owning
/// entities.
pub open spec fn match_edge_plan(m: Match, edge: Seq<char>) -> PlanV {
    if edge == "winner"@ {
        winner_plan(m.winner)
    } else if edge == "league"@ {
        PlanV::Direct(Request::GetLeague { id: m.league_id })
    } else if edge == "series"@ {
        PlanV::Direct(Request::GetSeries { id: m.serie_id })
    } else {
        PlanV::Direct(Request::GetTournament { id: m.tournament_id })
    }
}

/// What the plan of one (vertex, edge) pair must be, assuming the edge
/// belongs to the vertex's type.
///
/// Every case pins the plan exactly; the copies a plan carries are pinned
/// field by field (a team's member list by its contents).
pub open spec fn edge_plan_ok(v: Vertex, edge: Seq<char>, p: PlanV) -> bool {
    match v {
        Vertex::League(l) => p == league_edge_plan(l, edge),
        Vertex::Series(s) => p == series_edge_plan(s, edge),
        Vertex::Tournament(t) => p == tournament_edge_plan(t, edge),
        Vertex::Team(t) => p matches PlanV::FanOutPlayers(ids) && ids == t.players@,
        Vertex::Player(pl) => p == player_edge_plan(pl, edge),
        Vertex::Match(m) => p == match_edge_plan(m, edge),
        Vertex::WinnerTeam { team, .. } => p matches PlanV::Embedded(vs) && vs.len() == 1 && (
        vs[0] matches Vertex::Team(t) && same_team(team, t)),
        Vertex::WinnerPlayer { player, .. } => p == PlanV::Embedded(seq![Vertex::Player(player)]),
        _ => true,
    }
}

/// Resolves one edge on a league.
pub fn resolve_league_edge(l: &League, edge_name: &str) -> (r: NeighborPlan)
    requires
        is_edge_of("League"@, edge_name@),
    ensures
        edge_plan_ok(Vertex::League(*l), edge_name@, r@),
{
    NeighborPlan::Paginated(Request::LeagueSeries { id: l.id })
}

/// Resolves one edge on a series.
pub fn resolve_series_edge(s: &Series, edge_name: &str) -> (r: NeighborPlan)
    requires
        is_edge_of("Series"@, edge_name@),
    ensures
        edge_plan_ok(Vertex::Series(*s), edge_name@, r@),
{
    if crate::strutil::str_eq(edge_name, "tournaments") {
        NeighborPlan::Paginated(Request::SeriesTournaments { id: s.id })
    } else if crate::strutil::str_eq(edge_name, "winner") {
        resolve_winner(&s.winner)
    } else {
        NeighborPlan::Direct(Request::GetLeague { id: s.league_id })
    }
}

/// Resolves one edge on a tournament.
pub fn resolve_tournament_edge(t: &Tournament, edge_name: &str) -> (r: NeighborPlan)
    requires
        is_edge_of("Tournament"@, edge_name@),
    ensures
        edge_plan_ok(Vertex::Tournament(*t), edge_name@, r@),
{
    if crate::strutil::str_eq(edge_name, "teams") {
        NeighborPlan::Paginated(Request::TournamentTeams { id: t.id })
    } else if crate::strutil::str_eq(edge_name, "matches") {
        NeighborPlan::Paginated(Request::TournamentMatches { id: t.id })
    } else if crate::strutil::str_eq(edge_name, "video_game") {
        let mut vs: Vec<Vertex> = Vec::new();
        vs.push(Vertex::VideoGame(t.video_game.clone()));
        proof {
            assert(vs@ =~= seq![Vertex::VideoGame(t.video_game)]);
        }
        NeighborPlan::Embedded(vs)
    } else if crate::strutil::str_eq(edge_name, "winner") {
        resolve_winner(&t.winner)
    } else if crate::strutil::str_eq(edge_name, "league") {
        NeighborPlan::Direct(Request::GetLeague { id: t.league_id })
    } else {
        NeighborPlan::Direct(Request::GetSeries { id: t.serie_id })
    }
}

/// Copies a list of ids, keeping its contents.
fn clone_ids(v: &Vec<u64>) -> (r: Vec<u64>)
    ensures
        r@ == v@,
{
    let r = v.clone();
    proof {
        assert forall|i: int| 0 <= i < v@.len() implies r@[i] == v@[i] by {
            assert(cloned::<u64>(v@[i], r@[i]));
        }
        assert(r@ =~= v@);
    }
    r
}

/// Resolves one edge on a team.
pub fn resolve_team_edge(t: &Team, edge_name: &str) -> (r: NeighborPlan)
    requires
        is_edge_of("Team"@, edge_name@),
    ensures
        edge_plan_ok(Vertex::Team(*t), edge_name@, r@),
{
    NeighborPlan::FanOutPlayers(clone_ids(&t.players))
}

/// Resolves one edge on a player.
pub fn resolve_player_edge(p: &Player, edge_name: &str) -> (r: NeighborPlan)
    requires
        is_edge_of("Player"@, edge_name@),
    ensures
        edge_plan_ok(Vertex::Player(*p), edge_name@, r@),
{
    match p.current_team_id {
        Some(id) => NeighborPlan::Direct(Request::GetTeam { id }),
        None => NeighborPlan::Empty,
    }
}

/// Resolves one edge on a match.
pub fn resolve_match_edge(m: &Match, edge_name: &str) -> (r: NeighborPlan)
    requires
        is_edge_of("Match"@, edge_name@),
    ensures
        edge_plan_ok(Vertex::Match(*m), edge_name@, r@),
{
    if crate::strutil::str_eq(edge_name, "winner") {
        resolve_winner(&m.winner)
    } else if crate::strutil::str_eq(edge_name, "league") {
        NeighborPlan::Direct(Request::GetLeague { id: m.league_id })
    } else if crate::strutil::str_eq(edge_name, "series") {
        NeighborPlan::Direct(Request::GetSeries { id: m.serie_id })
    } else {
        NeighborPlan::Direct(Request::GetTournament { id: m.tournament_id })
    }
}

/// Resolves one edge on an enriched team winner: the team snapshot is
/// embedded, no fetch is made.
pub fn resolve_winner_team_edge(id: u64, team: &Team, edge_name: &str) -> (r: NeighborPlan)
    requires
        is_edge_of("WinnerTeam"@, edge_name@),
    ensures
        edge_plan_ok(Vertex::WinnerTeam { id, team: *team }, edge_name@, r@),
{
    let mut vs: Vec<Vertex> = Vec::new();
    vs.push(Vertex::Team(team.clone()));
    NeighborPlan::Embedded(vs)
}

/// Resolves one edge on an enriched player winner: the player snapshot is
/// embedded, no fetch is made.
pub fn resolve_winner_player_edge(id: u64, player: &Player, edge_name: &str) -> (r: NeighborPlan)
    requires
        is_edge_of("WinnerPlayer"@, edge_name@),
    ensures
        edge_plan_ok(Vertex::WinnerPlayer { id, player: *player }, edge_name@, r@),
{
    let mut vs: Vec<Vertex> = Vec::new();
    vs.push(Vertex::Player(player.clone()));
    proof {
        assert(vs@ =~= seq![Vertex::Player(*player)]);
    }
    NeighborPlan::Embedded(vs)
}

/// Checks at run time whether the vertex's type has an edge with the given
/// name.
pub fn has_edge(v: &Vertex, edge_name: &str) -> (r: bool)
    ensures
        r == is_edge_of(v.tag_name(), edge_name@),
{
    proof {
        crate::model::tag_names_distinct();
    }
    let e = edge_name;
    match v {
        Vertex::League(_) => crate::strutil::str_eq(e, "series"),
        Vertex::Series(_) => crate::strutil::str_eq(e, "tournaments") || crate::strutil::str_eq(
            e,
            "winner",
        ) || crate::strutil::str_eq(e, "league"),
        Vertex::Tournament(_) => crate::strutil::str_eq(e, "teams") || crate::strutil::str_eq(
            e,
            "matches",
        ) || crate::strutil::str_eq(e, "video_game") || crate::strutil::str_eq(e, "winner")
            || crate::strutil::str_eq(e, "league") || crate::strutil::str_eq(e, "series"),
        Vertex::Team(_) => crate::strutil::str_eq(e, "players"),
        Vertex::Player(_) => crate::strutil::str_eq(e, "current_team"),
        Vertex::Match(_) => crate::strutil::str_eq(e, "winner") || crate::strutil::str_eq(
            e,
            "league",
        ) || crate::strutil::str_eq(e, "series") || crate::strutil::str_eq(e, "tournament"),
        Vertex::WinnerTeam { .. } => crate::strutil::str_eq(e, "team"),
        Vertex::WinnerPlayer { .. } => crate::strutil::str_eq(e, "player"),
        _ => false,
    }
}

/// Resolves one edge on one vertex, dispatching on the vertex's tag. The
/// tags that own no edges never reach this under the stated contract; for
/// them the plan is empty.
pub fn resolve_edge(v: &Vertex, tname: &str, edge_name: &str) -> (r: NeighborPlan)
    requires
        v.tag_name() == tname@,
        is_edge_of(tname@, edge_name@),
    ensures
        edge_plan_ok(*v, edge_name@, r@),
{
    match v {
        Vertex::League(l) => resolve_league_edge(l, edge_name),
        Vertex::Series(s) => resolve_series_edge(s, edge_name),
        Vertex::Tournament(t) => resolve_tournament_edge(t, edge_name),
        Vertex::Team(t) => resolve_team_edge(t, edge_name),
        Vertex::Player(p) => resolve_player_edge(p, edge_name),
        Vertex::Match(m) => resolve_match_edge(m, edge_name),
        Vertex::WinnerTeam { id, team } => resolve_winner_team_edge(*id, team, edge_name),
        Vertex::WinnerPlayer { id, player } => resolve_winner_player_edge(*id, player, edge_name),
        _ => NeighborPlan::Empty,
    }
}

/// Completes a winner fetch tagged "team": a successful fetch yields exactly
/// one enriched vertex carrying the id and the fetched team; a failed fetch
/// yields nothing, and nothing is recorded either way.
pub fn winner_team_vertices(id: u64, fetched: Option<Team>) -> (r: Vec<Vertex>)
    ensures
        fetched matches Some(t) ==> r@ == seq![Vertex::WinnerTeam { id, team: t }],
        fetched is None ==> r@ == Seq::<Vertex>::empty(),
{
    let mut r: Vec<Vertex> = Vec::new();
    match fetched {
        Some(team) => {
            let ghost t = team;
            r.push(Vertex::WinnerTeam { id, team });
            proof {
                assert(r@ =~= seq![Vertex::WinnerTeam { id, team: t }]);
            }
        },
        None => {
            proof {
                assert(r@ =~= Seq::<Vertex>::empty());
            }
        },
    }
    r
}

/// Completes a winner fetch tagged "player": a successful fetch yields
/// exactly one enriched vertex carrying the id and the fetched player; a
/// failed fetch yields nothing, and nothing is recorded either way.
pub fn winner_player_vertices(id: u64, fetched: Option<Player>) -> (r: Vec<Vertex>)
    ensures
        fetched matches Some(p) ==> r@ == seq![Vertex::WinnerPlayer { id, player: p }],
        fetched is None ==> r@ == Seq::<Vertex>::empty(),
{
    let mut r: Vec<Vertex> = Vec::new();
    match fetched {
        Some(player) => {
            let ghost p = player;
            r.push(Vertex::WinnerPlayer { id, player });
            proof {
                assert(r@ =~= seq![Vertex::WinnerPlayer { id, player: p }]);
            }
        },
        None => {
            proof {
                assert(r@ =~= Seq::<Vertex>::empty());
            }
        },
    }
    r
}

/// The vertices a member fan-out yields for the given per-id fetch
/// outcomes: one player vertex per successful fetch, failed fetches
/// dropped, the order of the successes kept.
pub open spec fn members_of(fetched: Seq<Option<Player>>) -> Seq<Vertex>
    decreases fetched.len(),
{
    if fetched.len() == 0 {
        Seq::empty()
    } else {
        (match fetched.first() {
            Some(p) => seq![Vertex::Player(p)],
            None => Seq::<Vertex>::empty(),
        }) + members_of(fetched.drop_first())
    }
}

/// Completes a member fan-out: turns the per-id fetch outcomes, in the
/// order of the parent's member list, into player vertices, dropping the
/// ids whose fetch failed and recording nothing.
pub fn collect_members(fetched: Vec<Option<Player>>) -> (r: Vec<Vertex>)
    ensures
        r@ == members_of(fetched@),
{
    let ghost orig = fetched@;
    let mut rest = fetched;
    let mut r: Vec<Vertex> = Vec::new();
    while rest.len() > 0
        invariant
            members_of(orig) == r@ + members_of(rest@),
        decreases rest.len(),
    {
        let ghost prev = rest@;
        let ghost prev_r = r@;
        let x = rest.remove(0);
        proof {
            assert(rest@ =~= prev.drop_first());
        }
        match x {
            Some(p) => {
                r.push(Vertex::Player(p));
                proof {
                    assert(r@ + members_of(rest@) =~= prev_r + members_of(prev));
                }
            },
            None => {
                proof {
                    assert(r@ + members_of(rest@) =~= prev_r + members_of(prev));
                }
            },
        }
    }
    proof {
        assert(r@ + members_of(rest@) =~= r@);
    }
    r
}

/// Completes a single-hop fetch for a league: one vertex on success, none
/// on failure, nothing recorded.
pub fn single_league_vertex(fetched: Option<League>) -> (r: Vec<Vertex>)
    ensures
        fetched matches Some(l) ==> r@ == seq![Vertex::League(l)],
        fetched is None ==> r@ == Seq::<Vertex>::empty(),
{
    let mut r: Vec<Vertex> = Vec::new();
    match fetched {
        Some(l) => {
            let ghost lv = l;
            r.push(Vertex::League(l));
            proof {
                assert(r@ =~= seq![Vertex::League(lv)]);
            }
        },
        None => {
            proof {
                assert(r@ =~= Seq::<Vertex>::empty());
            }
        },
    }
    r
}

/// Completes a single-hop fetch for a series: one vertex on success, none
/// on failure, nothing recorded.
pub fn single_series_vertex(fetched: Option<Series>) -> (r: Vec<Vertex>)
    ensures
        fetched matches Some(s) ==> r@ == seq![Vertex::Series(s)],
        fetched is None ==> r@ == Seq::<Vertex>::empty(),
{
    let mut r: Vec<Vertex> = Vec::new();
    match fetched {
        Some(s) => {
            let ghost sv = s;
            r.push(Vertex::Series(s));
            proof {
                assert(r@ =~= seq![Vertex::Series(sv)]);
            }
        },
        None => {
            proof {
                assert(r@ =~= Seq::<Vertex>::empty());
            }
        },
    }
    r
}

/// Completes a single-hop fetch for a tournament: one vertex on success,
/// none on failure, nothing recorded.
pub fn single_tournament_vertex(fetched: Option<Tournament>) -> (r: Vec<Vertex>)
    ensures
        fetched matches Some(t) ==> r@ == seq![Vertex::Tournament(t)],
        fetched is None ==> r@ == Seq::<Vertex>::empty(),
{
    let mut r: Vec<Vertex> = Vec::new();
    match fetched {
        Some(t) => {
            let ghost tv = t;
            r.push(Vertex::Tournament(t));
            proof {
                assert(r@ =~= seq![Vertex::Tournament(tv)]);
            }
        },
        None => {
            proof {
                assert(r@ =~= Seq::<Vertex>::empty());
            }
        },
    }
    r
}

/// Completes a single-hop fetch for a team: one vertex on success, none on
/// failure, nothing recorded.
pub fn single_team_vertex(fetched: Option<Team>) -> (r: Vec<Vertex>)
    ensures
        fetched matches Some(t) ==> r@ == seq![Vertex::Team(t)],
        fetched is None ==> r@ == Seq::<Vertex>::empty(),
{
    let mut r: Vec<Vertex> = Vec::new();
    match fetched {
        Some(t) => {
            let ghost tv = t;
            r.push(Vertex::Team(t));
            proof {
                assert(r@ =~= seq![Vertex::Team(tv)]);
            }
        },
        None => {
            proof {
                assert(r@ =~= Seq::<Vertex>::empty());
            }
        },
    }
    r
}

/// Completes a single-hop fetch for a player: one vertex on success, none
/// on failure, nothing recorded.
pub fn single_player_vertex(fetched: Option<Player>) -> (r: Vec<Vertex>)
    ensures
        fetched matches Some(p) ==> r@ == seq![Vertex::Player(p)],
        fetched is None ==> r@ == Seq::<Vertex>::empty(),
{
    let mut r: Vec<Vertex> = Vec::new();
    match fetched {
        Some(p) => {
            let ghost pv = p;
            r.push(Vertex::Player(p));
            proof {
                assert(r@ =~= seq![Vertex::Player(pv)]);
            }
        },
        None => {
            proof {
                assert(r@ =~= Seq::<Vertex>::empty());
            }
        },
    }
    r
}

} // verus!
