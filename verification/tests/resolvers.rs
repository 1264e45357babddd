use trustfall_pandascore_adapter::adapter::{
    coerce_vertex, resolve_coercion, resolve_neighbors, resolve_property, vertex_tag, Context,
};
use trustfall_pandascore_adapter::edges::{
    collect_members, resolve_edge, resolve_winner, winner_player_vertices, winner_team_vertices,
    NeighborPlan,
};
use trustfall_pandascore_adapter::entrypoints::{leagues, resolve_starting_vertices, teams};
use trustfall_pandascore_adapter::error::{AdapterError, ErrorSink};
use trustfall_pandascore_adapter::field_value::FieldValue;
use trustfall_pandascore_adapter::model::{
    League, Player, Team, Timestamp, Vertex, WinnerRef,
};
use trustfall_pandascore_adapter::request::{GameScope, Request};

fn ts() -> Timestamp {
    Timestamp { secs: 1684146600, nanos: 0 }
}

fn sample_league(id: u64) -> League {
    League {
        id,
        image_url: None,
        modified_at: ts(),
        name: "LCK".to_owned(),
        slug: "lck".to_owned(),
        url: None,
    }
}

fn sample_team(id: u64, players: Vec<u64>) -> Team {
    Team {
        acronym: Some("T1".to_owned()),
        id,
        image_url: None,
        location: Some("KR".to_owned()),
        modified_at: ts(),
        name: "T1".to_owned(),
        slug: Some("t1".to_owned()),
        players,
    }
}

fn sample_player(id: u64) -> Player {
    Player {
        active: true,
        age: Some(27),
        birthday: None,
        current_team_id: None,
        first_name: Some("Sanghyeok".to_owned()),
        id,
        image_url: None,
        last_name: Some("Lee".to_owned()),
        modified_at: ts(),
        name: "Faker".to_owned(),
        nationality: Some("KR".to_owned()),
        role: Some("mid".to_owned()),
        slug: Some("faker".to_owned()),
    }
}

#[test]
fn unsupported_game_yields_empty_root_and_one_invalid_filter_error() {
    let mut sink = ErrorSink::new();
    let r = teams(Some("dota3"), None, &mut sink);
    assert!(r.is_none());
    assert_eq!(sink.len(), 1);
    match &sink.entries()[0] {
        AdapterError::InvalidGame(g) => assert_eq!(g, "dota3"),
        other => panic!("expected an invalid-game error, got {:?}", other),
    }
}

#[test]
fn supported_game_picks_the_game_specific_listing() {
    let mut sink = ErrorSink::new();
    let r = teams(Some("lol"), None, &mut sink);
    assert_eq!(r, Some(Request::Teams { scope: GameScope::Lol, search: None }));
    assert_eq!(sink.len(), 0);
}

#[test]
fn unset_game_picks_the_cross_game_listing() {
    let mut sink = ErrorSink::new();
    let r = leagues(None, Some("lck".to_owned()), &mut sink);
    assert_eq!(
        r,
        Some(Request::Leagues { scope: GameScope::AllGames, search: Some("lck".to_owned()) })
    );
    assert_eq!(sink.len(), 0);
}

#[test]
fn root_dispatch_reaches_every_listing() {
    let mut sink = ErrorSink::new();
    let r = resolve_starting_vertices("Players", Some("lol"), None, &mut sink);
    assert_eq!(r, Some(Request::Players { scope: GameScope::Lol, search: None }));
    let r = resolve_starting_vertices("Matches", None, None, &mut sink);
    assert_eq!(r, Some(Request::Matches { scope: GameScope::AllGames, search: None }));
    assert_eq!(sink.len(), 0);
}

#[test]
fn winner_team_tag_with_id_resolves_to_one_enriched_vertex() {
    let w = Some(WinnerRef::Team { id: Some(7) });
    let plan = resolve_winner(&w);
    match plan {
        NeighborPlan::WinnerTeamFetch { id } => assert_eq!(id, 7),
        other => panic!("expected a team winner fetch, got {:?}", other),
    }
    let vs = winner_team_vertices(7, Some(sample_team(7, vec![])));
    assert_eq!(vs.len(), 1);
    match &vs[0] {
        Vertex::WinnerTeam { id, team } => {
            assert_eq!(*id, 7);
            assert_eq!(team.id, 7);
        },
        other => panic!("expected an enriched team winner, got {:?}", other),
    }
}

#[test]
fn absent_winner_union_or_absent_id_yields_nothing_and_no_error() {
    assert!(matches!(resolve_winner(&None), NeighborPlan::Empty));
    assert!(matches!(
        resolve_winner(&Some(WinnerRef::Team { id: None })),
        NeighborPlan::Empty
    ));
    assert!(matches!(
        resolve_winner(&Some(WinnerRef::Player { id: None })),
        NeighborPlan::Empty
    ));
    assert!(winner_team_vertices(3, None).is_empty());
    assert!(winner_player_vertices(3, None).is_empty());
}

#[test]
fn winner_player_tag_resolves_to_one_enriched_vertex() {
    let plan = resolve_winner(&Some(WinnerRef::Player { id: Some(11) }));
    assert!(matches!(plan, NeighborPlan::WinnerPlayerFetch { id: 11 }));
    let vs = winner_player_vertices(11, Some(sample_player(11)));
    assert_eq!(vs.len(), 1);
    match &vs[0] {
        Vertex::WinnerPlayer { id, player } => {
            assert_eq!(*id, 11);
            assert_eq!(player.id, 11);
        },
        other => panic!("expected an enriched player winner, got {:?}", other),
    }
}

#[test]
fn member_fan_out_drops_failed_fetches_and_keeps_order() {
    let fetched = vec![Some(sample_player(1)), None, Some(sample_player(3))];
    let vs = collect_members(fetched);
    assert_eq!(vs.len(), 2);
    match (&vs[0], &vs[1]) {
        (Vertex::Player(a), Vertex::Player(b)) => {
            assert_eq!(a.id, 1);
            assert_eq!(b.id, 3);
        },
        other => panic!("expected two player vertices, got {:?}", other),
    }
}

#[test]
fn team_players_edge_fans_out_over_member_ids() {
    let team = sample_team(9, vec![4, 5, 6]);
    let plan = resolve_edge(&Vertex::Team(team), "Team", "players");
    match plan {
        NeighborPlan::FanOutPlayers(ids) => assert_eq!(ids, vec![4, 5, 6]),
        other => panic!("expected a member fan-out, got {:?}", other),
    }
}

#[test]
fn league_series_edge_is_a_paged_listing_of_the_parent() {
    let plan = resolve_edge(&Vertex::League(sample_league(42)), "League", "series");
    assert_eq!(plan_request(plan), Request::LeagueSeries { id: 42 });
}

fn plan_request(plan: NeighborPlan) -> Request {
    match plan {
        NeighborPlan::Paginated(r) => r,
        NeighborPlan::Direct(r) => r,
        other => panic!("expected a request-backed plan, got {:?}", other),
    }
}

#[test]
fn player_current_team_edge_is_a_silent_single_hop() {
    let mut p = sample_player(2);
    p.current_team_id = Some(77);
    let plan = resolve_edge(&Vertex::Player(p), "Player", "current_team");
    assert_eq!(plan_request(plan), Request::GetTeam { id: 77 });

    let absent = sample_player(2);
    let plan = resolve_edge(&Vertex::Player(absent), "Player", "current_team");
    assert!(matches!(plan, NeighborPlan::Empty));
}

#[test]
fn winner_team_edge_embeds_the_snapshot_without_a_fetch() {
    let v = Vertex::WinnerTeam { id: 7, team: sample_team(7, vec![1]) };
    let plan = resolve_edge(&v, "WinnerTeam", "team");
    match plan {
        NeighborPlan::Embedded(vs) => {
            assert_eq!(vs.len(), 1);
            match &vs[0] {
                Vertex::Team(t) => assert_eq!(t.id, 7),
                other => panic!("expected the embedded team, got {:?}", other),
            }
        },
        other => panic!("expected an embedded plan, got {:?}", other),
    }
}

#[test]
fn coercion_follows_the_tag_and_the_winner_hierarchy() {
    let wt = Vertex::WinnerTeam { id: 1, team: sample_team(1, vec![]) };
    assert_eq!(vertex_tag(&wt), "WinnerTeam");
    assert!(coerce_vertex(&wt, "WinnerTeam"));
    assert!(coerce_vertex(&wt, "Winner"));
    assert!(!coerce_vertex(&wt, "WinnerPlayer"));
    let l = Vertex::League(sample_league(1));
    assert!(coerce_vertex(&l, "League"));
    assert!(!coerce_vertex(&l, "Winner"));
    assert!(!coerce_vertex(&l, "Team"));
}

#[test]
fn batch_property_resolution_is_one_to_one_and_order_preserving() {
    let contexts = vec![
        Context::new(Some(Vertex::League(sample_league(5)))),
        Context::new(None),
        Context::new(Some(Vertex::League(sample_league(6)))),
    ];
    let out = resolve_property(contexts, "League", "id");
    assert_eq!(out.len(), 3);
    assert_eq!(out[0].1, FieldValue::Uint64(5));
    assert_eq!(out[1].1, FieldValue::Null);
    assert_eq!(out[2].1, FieldValue::Uint64(6));
    match out[0].0.active_vertex() {
        Some(Vertex::League(l)) => assert_eq!(l.id, 5),
        other => panic!("the first context must come back unchanged, got {:?}", other),
    }
    assert!(out[1].0.active_vertex().is_none());
}

#[test]
fn batch_neighbor_resolution_is_one_to_one_and_order_preserving() {
    let contexts = vec![
        Context::new(Some(Vertex::League(sample_league(5)))),
        Context::new(None),
    ];
    let out = resolve_neighbors(contexts, "League", "series");
    assert_eq!(out.len(), 2);
    match &out[0].1 {
        NeighborPlan::Paginated(r) => assert_eq!(*r, Request::LeagueSeries { id: 5 }),
        other => panic!("expected a paged plan, got {:?}", other),
    }
    assert!(matches!(out[1].1, NeighborPlan::Empty));
}

#[test]
fn batch_coercion_is_one_to_one_and_false_on_absent_vertices() {
    let contexts = vec![
        Context::new(Some(Vertex::WinnerTeam { id: 1, team: sample_team(1, vec![]) })),
        Context::new(None),
        Context::new(Some(Vertex::League(sample_league(2)))),
    ];
    let out = resolve_coercion(contexts, "Winner");
    let answers: Vec<bool> = out.iter().map(|(_, b)| *b).collect();
    assert_eq!(answers, vec![true, false, false]);
}

#[test]
fn error_sink_appends_and_clears() {
    let mut sink = ErrorSink::new();
    assert_eq!(sink.len(), 0);
    sink.push(AdapterError::InvalidGame("x".to_owned()));
    sink.push(AdapterError::EndpointError("y".to_owned()));
    assert_eq!(sink.len(), 2);
    assert!(matches!(&sink.entries()[0], AdapterError::InvalidGame(g) if g == "x"));
    assert!(matches!(&sink.entries()[1], AdapterError::EndpointError(c) if c == "y"));
    sink.clear();
    assert_eq!(sink.len(), 0);
}
