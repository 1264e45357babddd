use trustfall_pandascore_adapter::field_value::{FieldValue, IntoFieldValue};
use trustfall_pandascore_adapter::model::{
    DateYmd, League, Match, MatchStatus, MatchType, Player, Series, Tier, Timestamp, Tournament,
    Vertex, VideoGame, WinnerRef,
};
use trustfall_pandascore_adapter::properties::{
    resolve_league_property, resolve_match_property, resolve_player_property,
    resolve_series_property, resolve_team_property, resolve_tournament_property,
    resolve_video_game_property, resolve_winner_property, vertex_property,
};
use trustfall_pandascore_adapter::strutil::str_eq;

fn ts(secs: i64) -> Timestamp {
    Timestamp { secs, nanos: 0 }
}

fn league() -> League {
    League {
        id: 4197,
        image_url: Some("https://example.test/lck.png".to_owned()),
        modified_at: ts(1684146600),
        name: "LCK".to_owned(),
        slug: "league-of-legends-lck".to_owned(),
        url: None,
    }
}

fn series() -> Series {
    Series {
        begin_at: Some(ts(1673308800)),
        end_at: None,
        full_name: "Spring 2023".to_owned(),
        id: 5997,
        league_id: 4197,
        modified_at: ts(1684146600),
        name: None,
        season: Some("Spring".to_owned()),
        slug: "lck-spring-2023".to_owned(),
        winner: Some(WinnerRef::Team { id: Some(7) }),
        year: 2023,
    }
}

fn tournament() -> Tournament {
    Tournament {
        begin_at: Some(ts(1673308800)),
        end_at: Some(ts(1680300000)),
        detailed_stats: true,
        has_bracket: false,
        id: 8222,
        league_id: 4197,
        live_supported: true,
        modified_at: ts(1684146600),
        name: "Playoffs".to_owned(),
        prize_pool: None,
        serie_id: 5997,
        slug: "lck-spring-2023-playoffs".to_owned(),
        tier: Some(Tier::S),
        video_game: video_game(),
        winner: None,
    }
}

fn video_game() -> VideoGame {
    VideoGame {
        id: 1,
        name: "LoL".to_owned(),
        slug: "league-of-legends".to_owned(),
        current_version: Some("13.9.1".to_owned()),
    }
}

fn one_match() -> Match {
    Match {
        begin_at: Some(ts(1680291000)),
        detailed_stats: true,
        draw: false,
        end_at: None,
        forfeit: false,
        game_advantage: None,
        id: 771100,
        league_id: 4197,
        match_type: MatchType::BestOf,
        modified_at: ts(1684146600),
        name: "Grand final".to_owned(),
        number_of_games: 5,
        original_scheduled_at: Some(ts(1680290000)),
        rescheduled: Some(true),
        scheduled_at: Some(ts(1680291000)),
        serie_id: 5997,
        slug: "grand-final".to_owned(),
        status: MatchStatus::Running,
        tournament_id: 8222,
        winner: None,
    }
}

fn player() -> Player {
    Player {
        active: true,
        age: Some(27),
        birthday: Some(DateYmd { year: 1996, month: 5, day: 7 }),
        current_team_id: Some(126),
        first_name: Some("Sanghyeok".to_owned()),
        id: 14461,
        image_url: None,
        last_name: Some("Lee".to_owned()),
        modified_at: ts(1684146600),
        name: "Faker".to_owned(),
        nationality: Some("KR".to_owned()),
        role: Some("mid".to_owned()),
        slug: Some("faker".to_owned()),
    }
}

#[test]
fn ids_widen_to_one_unsigned_64_bit_value() {
    assert_eq!(resolve_league_property(&league(), "id"), FieldValue::Uint64(4197));
    assert_eq!(resolve_series_property(&series(), "year"), FieldValue::Uint64(2023));
    assert_eq!(
        resolve_match_property(&one_match(), "number_of_games"),
        FieldValue::Uint64(5)
    );
    assert_eq!(resolve_player_property(&player(), "age"), FieldValue::Uint64(27));
}

#[test]
fn timestamps_render_as_rfc3339_strings() {
    assert_eq!(
        resolve_league_property(&league(), "modified_at"),
        FieldValue::String("2023-05-15T10:30:00Z".to_owned())
    );
    assert_eq!(
        resolve_series_property(&series(), "begin_at"),
        FieldValue::String("2023-01-10T00:00:00Z".to_owned())
    );
}

#[test]
fn fractional_seconds_render_when_present() {
    let t = Timestamp { secs: 1684146600, nanos: 500_000_000 };
    assert_eq!(
        t.into_field_value(),
        FieldValue::String("2023-05-15T10:30:00.5Z".to_owned())
    );
}

#[test]
fn dates_render_as_iso8601_date_strings() {
    assert_eq!(
        resolve_player_property(&player(), "birthday"),
        FieldValue::String("1996-05-07".to_owned())
    );
    let leap = DateYmd { year: 2024, month: 2, day: 29 };
    assert_eq!(leap.into_field_value(), FieldValue::String("2024-02-29".to_owned()));
}

#[test]
fn absent_optional_fields_render_as_null() {
    assert_eq!(resolve_league_property(&league(), "url"), FieldValue::Null);
    assert_eq!(resolve_series_property(&series(), "end_at"), FieldValue::Null);
    assert_eq!(resolve_series_property(&series(), "name"), FieldValue::Null);
    assert_eq!(resolve_tournament_property(&tournament(), "prize_pool"), FieldValue::Null);
    assert_eq!(resolve_match_property(&one_match(), "game_advantage"), FieldValue::Null);
}

#[test]
fn enumerations_render_as_fixed_lowercase_tokens() {
    assert_eq!(
        resolve_tournament_property(&tournament(), "tier"),
        FieldValue::String("s".to_owned())
    );
    assert_eq!(
        resolve_match_property(&one_match(), "match_type"),
        FieldValue::String("best_of".to_owned())
    );
    assert_eq!(
        resolve_match_property(&one_match(), "match_status"),
        FieldValue::String("running".to_owned())
    );
}

#[test]
fn unrecognized_enumeration_members_render_as_the_unknown_token() {
    assert_eq!(
        MatchType::Unknown.into_field_value(),
        FieldValue::String("unknown".to_owned())
    );
    assert_eq!(
        MatchStatus::Unknown.into_field_value(),
        FieldValue::String("unknown".to_owned())
    );
}

#[test]
fn strings_and_booleans_pass_through() {
    assert_eq!(
        resolve_team_property(&team(), "name"),
        FieldValue::String("T1".to_owned())
    );
    assert_eq!(
        resolve_tournament_property(&tournament(), "detailed_stats"),
        FieldValue::Boolean(true)
    );
    assert_eq!(
        resolve_match_property(&one_match(), "draw"),
        FieldValue::Boolean(false)
    );
    assert_eq!(
        resolve_video_game_property(&video_game(), "current_version"),
        FieldValue::String("13.9.1".to_owned())
    );
}

fn team() -> trustfall_pandascore_adapter::model::Team {
    trustfall_pandascore_adapter::model::Team {
        acronym: Some("T1".to_owned()),
        id: 126,
        image_url: None,
        location: Some("KR".to_owned()),
        modified_at: ts(1684146600),
        name: "T1".to_owned(),
        slug: Some("t1".to_owned()),
        players: vec![14461],
    }
}

#[test]
fn schema_names_that_differ_from_field_names_read_the_right_fields() {
    assert_eq!(
        resolve_match_property(&one_match(), "series_id"),
        FieldValue::Uint64(5997)
    );
    assert_eq!(
        resolve_match_property(&one_match(), "league_id"),
        FieldValue::Uint64(4197)
    );
}

#[test]
fn winner_union_exposes_its_id_or_null() {
    assert_eq!(
        resolve_winner_property(&WinnerRef::Team { id: Some(7) }, "id"),
        FieldValue::Uint64(7)
    );
    assert_eq!(
        resolve_winner_property(&WinnerRef::Player { id: None }, "id"),
        FieldValue::Null
    );
}

#[test]
fn enriched_winner_shapes_expose_the_carried_id() {
    let v = Vertex::WinnerTeam { id: 7, team: team() };
    assert_eq!(vertex_property(&v, "WinnerTeam", "id"), FieldValue::Uint64(7));
    let v = Vertex::WinnerPlayer { id: 14461, player: player() };
    assert_eq!(vertex_property(&v, "WinnerPlayer", "id"), FieldValue::Uint64(14461));
}

#[test]
fn vertex_dispatch_reads_through_the_tag() {
    let v = Vertex::Tournament(tournament());
    assert_eq!(
        vertex_property(&v, "Tournament", "slug"),
        FieldValue::String("lck-spring-2023-playoffs".to_owned())
    );
}

#[test]
fn string_comparison_matches_character_for_character() {
    assert!(str_eq("winner", "winner"));
    assert!(!str_eq("winner", "winners"));
    assert!(!str_eq("winner", "league"));
    assert!(str_eq("", ""));
}
