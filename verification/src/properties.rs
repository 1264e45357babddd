//! Per-type property resolution: reading one named field of one vertex and
//! converting it to its universal value.

use vstd::prelude::*;

use crate::field_value::{FieldValue, FieldValueV, IntoFieldValue};
use crate::model::{
    clone_opt_string, League, Match, Player, Series, Team, Tournament, Vertex, VideoGame,
    WinnerRef,
};
use crate::strutil::str_eq;

verus! {

/// Whether a league has a property with this name.
pub open spec fn is_league_property(p: Seq<char>) -> bool {
    p == "id"@ || p == "image_url"@ || p == "modified_at"@ || p == "name"@ || p == "slug"@ || p
        == "url"@
}

/// The value of a league property.
pub open spec fn league_property(l: League, p: Seq<char>) -> FieldValueV {
    if p == "id"@ {
        l.id.fv_spec()
    } else if p == "image_url"@ {
        l.image_url.fv_spec()
    } else if p == "modified_at"@ {
        l.modified_at.fv_spec()
    } else if p == "name"@ {
        l.name.fv_spec()
    } else if p == "slug"@ {
        l.slug.fv_spec()
    } else {
        l.url.fv_spec()
    }
}

/// Reads one property of a league.
pub fn resolve_league_property(l: &League, property_name: &str) -> (r: FieldValue)
    requires
        is_league_property(property_name@),
        l.wf(),
    ensures
        r@ == league_property(*l, property_name@),
{
    if str_eq(property_name, "id") {
        l.id.into_field_value()
    } else if str_eq(property_name, "image_url") {
        clone_opt_string(&l.image_url).into_field_value()
    } else if str_eq(property_name, "modified_at") {
        l.modified_at.into_field_value()
    } else if str_eq(property_name, "name") {
        l.name.clone().into_field_value()
    } else if str_eq(property_name, "slug") {
        l.slug.clone().into_field_value()
    } else {
        clone_opt_string(&l.url).into_field_value()
    }
}

/// Whether a series has a property with this name.
pub open spec fn is_series_property(p: Seq<char>) -> bool {
    p == "id"@ || p == "modified_at"@ || p == "begin_at"@ || p == "end_at"@ || p == "full_name"@
        || p == "name"@ || p == "season"@ || p == "slug"@ || p == "year"@
}

/// The value of a series property.
pub open spec fn series_property(s: Series, p: Seq<char>) -> FieldValueV {
    if p == "id"@ {
        s.id.fv_spec()
    } else if p == "modified_at"@ {
        s.modified_at.fv_spec()
    } else if p == "begin_at"@ {
        s.begin_at.fv_spec()
    } else if p == "end_at"@ {
        s.end_at.fv_spec()
    } else if p == "full_name"@ {
        s.full_name.fv_spec()
    } else if p == "name"@ {
        s.name.fv_spec()
    } else if p == "season"@ {
        s.season.fv_spec()
    } else if p == "slug"@ {
        s.slug.fv_spec()
    } else {
        s.year.fv_spec()
    }
}

/// Reads one property of a series.
pub fn resolve_series_property(s: &Series, property_name: &str) -> (r: FieldValue)
    requires
        is_series_property(property_name@),
        s.wf(),
    ensures
        r@ == series_property(*s, property_name@),
{
    if str_eq(property_name, "id") {
        s.id.into_field_value()
    } else if str_eq(property_name, "modified_at") {
        s.modified_at.into_field_value()
    } else if str_eq(property_name, "begin_at") {
        s.begin_at.into_field_value()
    } else if str_eq(property_name, "end_at") {
        s.end_at.into_field_value()
    } else if str_eq(property_name, "full_name") {
        s.full_name.clone().into_field_value()
    } else if str_eq(property_name, "name") {
        clone_opt_string(&s.name).into_field_value()
    } else if str_eq(property_name, "season") {
        clone_opt_string(&s.season).into_field_value()
    } else if str_eq(property_name, "slug") {
        s.slug.clone().into_field_value()
    } else {
        s.year.into_field_value()
    }
}

/// Whether a tournament has a property with this name.
pub open spec fn is_tournament_property(p: Seq<char>) -> bool {
    p == "id"@ || p == "modified_at"@ || p == "begin_at"@ || p == "end_at"@ || p
        == "detailed_stats"@ || p == "has_bracket"@ || p == "live_supported"@ || p == "name"@ || p
        == "prize_pool"@ || p == "slug"@ || p == "tier"@
}

/// The value of a tournament property.
pub open spec fn tournament_property(t: Tournament, p: Seq<char>) -> FieldValueV {
    if p == "id"@ {
        t.id.fv_spec()
    } else if p == "modified_at"@ {
        t.modified_at.fv_spec()
    } else if p == "begin_at"@ {
        t.begin_at.fv_spec()
    } else if p == "end_at"@ {
        t.end_at.fv_spec()
    } else if p == "detailed_stats"@ {
        t.detailed_stats.fv_spec()
    } else if p == "has_bracket"@ {
        t.has_bracket.fv_spec()
    } else if p == "live_supported"@ {
        t.live_supported.fv_spec()
    } else if p == "name"@ {
        t.name.fv_spec()
    } else if p == "prize_pool"@ {
        t.prize_pool.fv_spec()
    } else if p == "slug"@ {
        t.slug.fv_spec()
    } else {
        t.tier.fv_spec()
    }
}

/// Reads one property of a tournament.
pub fn resolve_tournament_property(t: &Tournament, property_name: &str) -> (r: FieldValue)
    requires
        is_tournament_property(property_name@),
        t.wf(),
    ensures
        r@ == tournament_property(*t, property_name@),
{
    if str_eq(property_name, "id") {
        t.id.into_field_value()
    } else if str_eq(property_name, "modified_at") {
        t.modified_at.into_field_value()
    } else if str_eq(property_name, "begin_at") {
        t.begin_at.into_field_value()
    } else if str_eq(property_name, "end_at") {
        t.end_at.into_field_value()
    } else if str_eq(property_name, "detailed_stats") {
        t.detailed_stats.into_field_value()
    } else if str_eq(property_name, "has_bracket") {
        t.has_bracket.into_field_value()
    } else if str_eq(property_name, "live_supported") {
        t.live_supported.into_field_value()
    } else if str_eq(property_name, "name") {
        t.name.clone().into_field_value()
    } else if str_eq(property_name, "prize_pool") {
        clone_opt_string(&t.prize_pool).into_field_value()
    } else if str_eq(property_name, "slug") {
        t.slug.clone().into_field_value()
    } else {
        t.tier.into_field_value()
    }
}

/// Whether a match has a property with this name.
pub open spec fn is_match_property(p: Seq<char>) -> bool {
    p == "id"@ || p == "tournament_id"@ || p == "series_id"@ || p == "league_id"@ || p
        == "modified_at"@ || p == "begin_at"@ || p == "end_at"@ || p == "original_scheduled_at"@
        || p == "rescheduled"@ || p == "scheduled_at"@ || p == "detailed_stats"@ || p == "draw"@
        || p == "forfeit"@ || p == "game_advantage"@ || p == "match_type"@ || p
        == "number_of_games"@ || p == "match_status"@ || p == "name"@ || p == "slug"@
}

/// The value of a match property. The schema names `series_id` and
/// `match_status` read the record's `serie_id` and `status` fields.
pub open spec fn match_property(m: Match, p: Seq<char>) -> FieldValueV {
    if p == "id"@ {
        m.id.fv_spec()
    } else if p == "tournament_id"@ {
        m.tournament_id.fv_spec()
    } else if p == "series_id"@ {
        m.serie_id.fv_spec()
    } else if p == "league_id"@ {
        m.league_id.fv_spec()
    } else if p == "modified_at"@ {
        m.modified_at.fv_spec()
    } else if p == "begin_at"@ {
        m.begin_at.fv_spec()
    } else if p == "end_at"@ {
        m.end_at.fv_spec()
    } else if p == "original_scheduled_at"@ {
        m.original_scheduled_at.fv_spec()
    } else if p == "rescheduled"@ {
        m.rescheduled.fv_spec()
    } else if p == "scheduled_at"@ {
        m.scheduled_at.fv_spec()
    } else if p == "detailed_stats"@ {
        m.detailed_stats.fv_spec()
    } else if p == "draw"@ {
        m.draw.fv_spec()
    } else if p == "forfeit"@ {
        m.forfeit.fv_spec()
    } else if p == "game_advantage"@ {
        m.game_advantage.fv_spec()
    } else if p == "match_type"@ {
        m.match_type.fv_spec()
    } else if p == "number_of_games"@ {
        m.number_of_games.fv_spec()
    } else if p == "match_status"@ {
        m.status.fv_spec()
    } else if p == "name"@ {
        m.name.fv_spec()
    } else {
        m.slug.fv_spec()
    }
}

/// Reads one property of a match.
pub fn resolve_match_property(m: &Match, property_name: &str) -> (r: FieldValue)
    requires
        is_match_property(property_name@),
        m.wf(),
    ensures
        r@ == match_property(*m, property_name@),
{
    if str_eq(property_name, "id") {
        m.id.into_field_value()
    } else if str_eq(property_name, "tournament_id") {
        m.tournament_id.into_field_value()
    } else if str_eq(property_name, "series_id") {
        m.serie_id.into_field_value()
    } else if str_eq(property_name, "league_id") {
        m.league_id.into_field_value()
    } else if str_eq(property_name, "modified_at") {
        m.modified_at.into_field_value()
    } else if str_eq(property_name, "begin_at") {
        m.begin_at.into_field_value()
    } else if str_eq(property_name, "end_at") {
        m.end_at.into_field_value()
    } else if str_eq(property_name, "original_scheduled_at") {
        m.original_scheduled_at.into_field_value()
    } else if str_eq(property_name, "rescheduled") {
        m.rescheduled.into_field_value()
    } else if str_eq(property_name, "scheduled_at") {
        m.scheduled_at.into_field_value()
    } else if str_eq(property_name, "detailed_stats") {
        m.detailed_stats.into_field_value()
    } else if str_eq(property_name, "draw") {
        m.draw.into_field_value()
    } else if str_eq(property_name, "forfeit") {
        m.forfeit.into_field_value()
    } else if str_eq(property_name, "game_advantage") {
        m.game_advantage.into_field_value()
    } else if str_eq(property_name, "match_type") {
        m.match_type.into_field_value()
    } else if str_eq(property_name, "number_of_games") {
        m.number_of_games.into_field_value()
    } else if str_eq(property_name, "match_status") {
        m.status.into_field_value()
    } else if str_eq(property_name, "name") {
        m.name.clone().into_field_value()
    } else {
        m.slug.clone().into_field_value()
    }
}

/// Whether a team has a property with this name.
pub open spec fn is_team_property(p: Seq<char>) -> bool {
    p == "id"@ || p == "acronym"@ || p == "image_url"@ || p == "location"@ || p == "modified_at"@
        || p == "name"@ || p == "slug"@
}

/// The value of a team property.
pub open spec fn team_property(t: Team, p: Seq<char>) -> FieldValueV {
    if p == "id"@ {
        t.id.fv_spec()
    } else if p == "acronym"@ {
        t.acronym.fv_spec()
    } else if p == "image_url"@ {
        t.image_url.fv_spec()
    } else if p == "location"@ {
        t.location.fv_spec()
    } else if p == "modified_at"@ {
        t.modified_at.fv_spec()
    } else if p == "name"@ {
        t.name.fv_spec()
    } else {
        t.slug.fv_spec()
    }
}

/// Reads one property of a team.
pub fn resolve_team_property(t: &Team, property_name: &str) -> (r: FieldValue)
    requires
        is_team_property(property_name@),
        t.wf(),
    ensures
        r@ == team_property(*t, property_name@),
{
    if str_eq(property_name, "id") {
        t.id.into_field_value()
    } else if str_eq(property_name, "acronym") {
        clone_opt_string(&t.acronym).into_field_value()
    } else if str_eq(property_name, "image_url") {
        clone_opt_string(&t.image_url).into_field_value()
    } else if str_eq(property_name, "location") {
        clone_opt_string(&t.location).into_field_value()
    } else if str_eq(property_name, "modified_at") {
        t.modified_at.into_field_value()
    } else if str_eq(property_name, "name") {
        t.name.clone().into_field_value()
    } else {
        clone_opt_string(&t.slug).into_field_value()
    }
}

/// Whether a player has a property with this name.
pub open spec fn is_player_property(p: Seq<char>) -> bool {
    p == "id"@ || p == "age"@ || p == "birthday"@ || p == "first_name"@ || p == "image_url"@ || p
        == "last_name"@ || p == "modified_at"@ || p == "name"@ || p == "nationality"@ || p
        == "role"@ || p == "slug"@
}

/// The value of a player property.
pub open spec fn player_property(pl: Player, p: Seq<char>) -> FieldValueV {
    if p == "id"@ {
        pl.id.fv_spec()
    } else if p == "age"@ {
        pl.age.fv_spec()
    } else if p == "birthday"@ {
        pl.birthday.fv_spec()
    } else if p == "first_name"@ {
        pl.first_name.fv_spec()
    } else if p == "image_url"@ {
        pl.image_url.fv_spec()
    } else if p == "last_name"@ {
        pl.last_name.fv_spec()
    } else if p == "modified_at"@ {
        pl.modified_at.fv_spec()
    } else if p == "name"@ {
        pl.name.fv_spec()
    } else if p == "nationality"@ {
        pl.nationality.fv_spec()
    } else if p == "role"@ {
        pl.role.fv_spec()
    } else {
        pl.slug.fv_spec()
    }
}

/// Reads one property of a player.
pub fn resolve_player_property(pl: &Player, property_name: &str) -> (r: FieldValue)
    requires
        is_player_property(property_name@),
        pl.wf(),
    ensures
        r@ == player_property(*pl, property_name@),
{
    if str_eq(property_name, "id") {
        pl.id.into_field_value()
    } else if str_eq(property_name, "age") {
        pl.age.into_field_value()
    } else if str_eq(property_name, "birthday") {
        pl.birthday.into_field_value()
    } else if str_eq(property_name, "first_name") {
        clone_opt_string(&pl.first_name).into_field_value()
    } else if str_eq(property_name, "image_url") {
        clone_opt_string(&pl.image_url).into_field_value()
    } else if str_eq(property_name, "last_name") {
        clone_opt_string(&pl.last_name).into_field_value()
    } else if str_eq(property_name, "modified_at") {
        pl.modified_at.into_field_value()
    } else if str_eq(property_name, "name") {
        pl.name.clone().into_field_value()
    } else if str_eq(property_name, "nationality") {
        clone_opt_string(&pl.nationality).into_field_value()
    } else if str_eq(property_name, "role") {
        clone_opt_string(&pl.role).into_field_value()
    } else {
        clone_opt_string(&pl.slug).into_field_value()
    }
}

/// Whether a video game has a property with this name.
pub open spec fn is_video_game_property(p: Seq<char>) -> bool {
    p == "id"@ || p == "name"@ || p == "slug"@ || p == "current_version"@
}

/// The value of a video game property.
pub open spec fn video_game_property(g: VideoGame, p: Seq<char>) -> FieldValueV {
    if p == "id"@ {
        g.id.fv_spec()
    } else if p == "name"@ {
        g.name.fv_spec()
    } else if p == "slug"@ {
        g.slug.fv_spec()
    } else {
        g.current_version.fv_spec()
    }
}

/// Reads one property of a video game.
pub fn resolve_video_game_property(g: &VideoGame, property_name: &str) -> (r: FieldValue)
    requires
        is_video_game_property(property_name@),
    ensures
        r@ == video_game_property(*g, property_name@),
{
    if str_eq(property_name, "id") {
        g.id.into_field_value()
    } else if str_eq(property_name, "name") {
        g.name.clone().into_field_value()
    } else if str_eq(property_name, "slug") {
        g.slug.clone().into_field_value()
    } else {
        clone_opt_string(&g.current_version).into_field_value()
    }
}

/// The value of the winner union's one property, `id`: the id inside either
/// tag, or null when it is absent.
pub open spec fn winner_property(w: WinnerRef, p: Seq<char>) -> FieldValueV {
    match w {
        WinnerRef::Team { id } => id.fv_spec(),
        WinnerRef::Player { id } => id.fv_spec(),
    }
}

/// Reads the winner union's one property, `id`.
pub fn resolve_winner_property(w: &WinnerRef, property_name: &str) -> (r: FieldValue)
    requires
        property_name@ == "id"@,
    ensures
        r@ == winner_property(*w, property_name@),
{
    match w {
        WinnerRef::Team { id } => id.into_field_value(),
        WinnerRef::Player { id } => id.into_field_value(),
    }
}

/// Whether the vertex's type has a property with the given name.
pub open spec fn vertex_has_property(v: Vertex, p: Seq<char>) -> bool {
    match v {
        Vertex::League(_) => is_league_property(p),
        Vertex::Series(_) => is_series_property(p),
        Vertex::Tournament(_) => is_tournament_property(p),
        Vertex::Match(_) => is_match_property(p),
        Vertex::Team(_) => is_team_property(p),
        Vertex::Player(_) => is_player_property(p),
        Vertex::VideoGame(_) => is_video_game_property(p),
        Vertex::Winner(_) => p == "id"@,
        Vertex::WinnerTeam { .. } => p == "id"@,
        Vertex::WinnerPlayer { .. } => p == "id"@,
    }
}

/// The value of one property of one vertex; the enriched winner shapes
/// expose the id carried from the winner union.
pub open spec fn property_value(v: Vertex, p: Seq<char>) -> FieldValueV {
    match v {
        Vertex::League(l) => league_property(l, p),
        Vertex::Series(s) => series_property(s, p),
        Vertex::Tournament(t) => tournament_property(t, p),
        Vertex::Match(m) => match_property(m, p),
        Vertex::Team(t) => team_property(t, p),
        Vertex::Player(pl) => player_property(pl, p),
        Vertex::VideoGame(g) => video_game_property(g, p),
        Vertex::Winner(w) => winner_property(w, p),
        Vertex::WinnerTeam { id, .. } => id.fv_spec(),
        Vertex::WinnerPlayer { id, .. } => id.fv_spec(),
    }
}

/// Checks at run time whether the vertex's type has a property with the
/// given name.
pub fn has_property(v: &Vertex, property_name: &str) -> (r: bool)
    ensures
        r == vertex_has_property(*v, property_name@),
{
    let p = property_name;
    match v {
        Vertex::League(_) => str_eq(p, "id") || str_eq(p, "image_url") || str_eq(p, "modified_at")
            || str_eq(p, "name") || str_eq(p, "slug") || str_eq(p, "url"),
        Vertex::Series(_) => str_eq(p, "id") || str_eq(p, "modified_at") || str_eq(p, "begin_at")
            || str_eq(p, "end_at") || str_eq(p, "full_name") || str_eq(p, "name") || str_eq(
            p,
            "season",
        ) || str_eq(p, "slug") || str_eq(p, "year"),
        Vertex::Tournament(_) => str_eq(p, "id") || str_eq(p, "modified_at") || str_eq(
            p,
            "begin_at",
        ) || str_eq(p, "end_at") || str_eq(p, "detailed_stats") || str_eq(p, "has_bracket")
            || str_eq(p, "live_supported") || str_eq(p, "name") || str_eq(p, "prize_pool")
            || str_eq(p, "slug") || str_eq(p, "tier"),
        Vertex::Match(_) => str_eq(p, "id") || str_eq(p, "tournament_id") || str_eq(p, "series_id")
            || str_eq(p, "league_id") || str_eq(p, "modified_at") || str_eq(p, "begin_at")
            || str_eq(p, "end_at") || str_eq(p, "original_scheduled_at") || str_eq(
            p,
            "rescheduled",
        ) || str_eq(p, "scheduled_at") || str_eq(p, "detailed_stats") || str_eq(p, "draw")
            || str_eq(p, "forfeit") || str_eq(p, "game_advantage") || str_eq(p, "match_type")
            || str_eq(p, "number_of_games") || str_eq(p, "match_status") || str_eq(p, "name")
            || str_eq(p, "slug"),
        Vertex::Team(_) => str_eq(p, "id") || str_eq(p, "acronym") || str_eq(p, "image_url")
            || str_eq(p, "location") || str_eq(p, "modified_at") || str_eq(p, "name") || str_eq(
            p,
            "slug",
        ),
        Vertex::Player(_) => str_eq(p, "id") || str_eq(p, "age") || str_eq(p, "birthday")
            || str_eq(p, "first_name") || str_eq(p, "image_url") || str_eq(p, "last_name")
            || str_eq(p, "modified_at") || str_eq(p, "name") || str_eq(p, "nationality") || str_eq(
            p,
            "role",
        ) || str_eq(p, "slug"),
        Vertex::VideoGame(_) => str_eq(p, "id") || str_eq(p, "name") || str_eq(p, "slug")
            || str_eq(p, "current_version"),
        Vertex::Winner(_) => str_eq(p, "id"),
        Vertex::WinnerTeam { .. } => str_eq(p, "id"),
        Vertex::WinnerPlayer { .. } => str_eq(p, "id"),
    }
}

/// Reads one property of one vertex, dispatching on the vertex's tag.
pub fn vertex_property(v: &Vertex, tname: &str, property_name: &str) -> (r: FieldValue)
    requires
        v.tag_name() == tname@,
        vertex_has_property(*v, property_name@),
        v.wf(),
    ensures
        r@ == property_value(*v, property_name@),
{
    match v {
        Vertex::League(l) => resolve_league_property(l, property_name),
        Vertex::Series(s) => resolve_series_property(s, property_name),
        Vertex::Tournament(t) => resolve_tournament_property(t, property_name),
        Vertex::Match(m) => resolve_match_property(m, property_name),
        Vertex::Team(t) => resolve_team_property(t, property_name),
        Vertex::Player(pl) => resolve_player_property(pl, property_name),
        Vertex::VideoGame(g) => resolve_video_game_property(g, property_name),
        Vertex::Winner(w) => resolve_winner_property(w, property_name),
        Vertex::WinnerTeam { id, .. } => id.into_field_value(),
        Vertex::WinnerPlayer { id, .. } => id.into_field_value(),
    }
}

} // verus!
