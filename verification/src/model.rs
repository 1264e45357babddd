//! Plain-data models of the entities served by the statistics service, and
//! the tagged vertex union that the resolvers traverse.
//!
//! Entity records arrive from the network edge as plain values: timestamps
//! as seconds and nanoseconds since the Unix epoch, dates as calendar
//! components, and closed enumerations as explicit variants with an
//! `Unknown` catch-all for members this library does not recognize.

use vstd::prelude::*;

verus! {

/// An instant in time: seconds and nanoseconds since the Unix epoch.
#[derive(Debug, Clone, Copy, PartialEq, Eq, Structural)]
pub struct Timestamp {
    pub secs: i64,
    pub nanos: u32,
}

impl Timestamp {
    /// The instant lies in the range that renders as an RFC-3339 string:
    /// from year 0 through year 9999, with a well-formed nanosecond part.
    pub open spec fn valid(self) -> bool {
        &&& 0 <= self.secs <= 253402300799
        &&& self.nanos <= 999999999
    }
}

/// A pure calendar date.
#[derive(Debug, Clone, Copy, PartialEq, Eq, Structural)]
pub struct DateYmd {
    pub year: i32,
    pub month: u8,
    pub day: u8,
}

/// Whether a year is a leap year in the proleptic Gregorian calendar.
pub open spec fn is_leap_year(y: int) -> bool {
    y % 4 == 0 && (y % 100 != 0 || y % 400 == 0)
}

/// How many days the given month of the given year has.
pub open spec fn days_in_month(y: int, m: int) -> int {
    if m == 2 {
        if is_leap_year(y) {
            29
        } else {
            28
        }
    } else if m == 4 || m == 6 || m == 9 || m == 11 {
        30
    } else {
        31
    }
}

impl DateYmd {
    /// The date is a real calendar date in a year that renders as four
    /// digits in an ISO-8601 date string.
    pub open spec fn valid(self) -> bool {
        &&& 0 <= self.year <= 9999
        &&& 1 <= self.month <= 12
        &&& 1 <= self.day <= days_in_month(self.year as int, self.month as int)
    }
}

impl Timestamp {
    /// Checks at run time that the instant is renderable.
    pub fn is_valid(&self) -> (r: bool)
        ensures
            r == self.valid(),
    {
        0 <= self.secs && self.secs <= 253402300799 && self.nanos <= 999999999
    }
}

/// How many days the given month of the given year has.
#[verifier::rlimit(50)]
pub fn days_in_month_count(y: i32, m: u8) -> (r: u8)
    requires
        0 <= y,
        1 <= m <= 12,
    ensures
        r as int == days_in_month(y as int, m as int),
{
    if m == 2 {
        if y % 4 == 0 && (y % 100 != 0 || y % 400 == 0) {
            29
        } else {
            28
        }
    } else if m == 4 || m == 6 || m == 9 || m == 11 {
        30
    } else {
        31
    }
}

impl DateYmd {
    /// Checks at run time that the date is a renderable calendar date.
    pub fn is_valid(&self) -> (r: bool)
        ensures
            r == self.valid(),
    {
        0 <= self.year && self.year <= 9999 && 1 <= self.month && self.month <= 12 && 1 <= self.day
            && self.day <= days_in_month_count(self.year, self.month)
    }
}

/// The competitive tier of a tournament.
#[derive(Debug, Clone, Copy, PartialEq, Eq, Structural)]
pub enum Tier {
    Unranked,
    D,
    C,
    B,
    A,
    S,
}

/// The format of a match. `Unknown` stands for any member of the service's
/// enumeration that this library does not recognize.
#[derive(Debug, Clone, Copy, PartialEq, Eq, Structural)]
pub enum MatchType {
    AllGamesPlayed,
    BestOf,
    Custom,
    FirstTo,
    OwBestOf,
    RedBullHomeGround,
    Unknown,
}

/// The lifecycle status of a match. `Unknown` stands for any member of the
/// service's enumeration that this library does not recognize.
#[derive(Debug, Clone, Copy, PartialEq, Eq, Structural)]
pub enum MatchStatus {
    Canceled,
    Finished,
    NotStarted,
    Postponed,
    Running,
    Unknown,
}

/// The winner relation a parent record carries: a discriminated reference
/// whose id may itself be absent when the upstream data is malformed.
#[derive(Debug, Clone, Copy, PartialEq, Eq)]
pub enum WinnerRef {
    Team { id: Option<u64> },
    Player { id: Option<u64> },
}

/// An esports league.
#[derive(Debug, Clone, PartialEq, Eq)]
pub struct League {
    pub id: u64,
    pub image_url: Option<String>,
    pub modified_at: Timestamp,
    pub name: String,
    pub slug: String,
    pub url: Option<String>,
}

/// A series of tournaments within a league.
#[derive(Debug, Clone, PartialEq, Eq)]
pub struct Series {
    pub begin_at: Option<Timestamp>,
    pub end_at: Option<Timestamp>,
    pub full_name: String,
    pub id: u64,
    pub league_id: u64,
    pub modified_at: Timestamp,
    pub name: Option<String>,
    pub season: Option<String>,
    pub slug: String,
    pub winner: Option<WinnerRef>,
    pub year: u16,
}

/// The video game an event is played in, embedded in parent payloads.
#[derive(Debug, PartialEq, Eq)]
pub struct VideoGame {
    pub id: u64,
    pub name: String,
    pub slug: String,
    pub current_version: Option<String>,
}

/// A tournament within a series.
#[derive(Debug, Clone, PartialEq, Eq)]
pub struct Tournament {
    pub begin_at: Option<Timestamp>,
    pub end_at: Option<Timestamp>,
    pub detailed_stats: bool,
    pub has_bracket: bool,
    pub id: u64,
    pub league_id: u64,
    pub live_supported: bool,
    pub modified_at: Timestamp,
    pub name: String,
    pub prize_pool: Option<String>,
    pub serie_id: u64,
    pub slug: String,
    pub tier: Option<Tier>,
    pub video_game: VideoGame,
    pub winner: Option<WinnerRef>,
}

/// One match within a tournament.
#[derive(Debug, Clone, PartialEq, Eq)]
pub struct Match {
    pub begin_at: Option<Timestamp>,
    pub detailed_stats: bool,
    pub draw: bool,
    pub end_at: Option<Timestamp>,
    pub forfeit: bool,
    pub game_advantage: Option<u64>,
    pub id: u64,
    pub league_id: u64,
    pub match_type: MatchType,
    pub modified_at: Timestamp,
    pub name: String,
    pub number_of_games: u32,
    pub original_scheduled_at: Option<Timestamp>,
    pub rescheduled: Option<bool>,
    pub scheduled_at: Option<Timestamp>,
    pub serie_id: u64,
    pub slug: String,
    pub status: MatchStatus,
    pub tournament_id: u64,
    pub winner: Option<WinnerRef>,
}

/// A team, carrying the ids of its member players.
#[derive(Debug, PartialEq, Eq)]
pub struct Team {
    pub acronym: Option<String>,
    pub id: u64,
    pub image_url: Option<String>,
    pub location: Option<String>,
    pub modified_at: Timestamp,
    pub name: String,
    pub slug: Option<String>,
    pub players: Vec<u64>,
}

/// A player, carrying the id of the team they currently play for, if any.
#[derive(Debug, PartialEq, Eq)]
pub struct Player {
    pub active: bool,
    pub age: Option<u32>,
    pub birthday: Option<DateYmd>,
    pub current_team_id: Option<u64>,
    pub first_name: Option<String>,
    pub id: u64,
    pub image_url: Option<String>,
    pub last_name: Option<String>,
    pub modified_at: Timestamp,
    pub name: String,
    pub nationality: Option<String>,
    pub role: Option<String>,
    pub slug: Option<String>,
}

/// One typed node in the traversed entity graph.
///
/// The first eight variants wrap an entity record or the raw winner union;
/// the last two are the enriched winner shapes produced by winner fan-out,
/// carrying the id from the union together with the freshly fetched record.
#[derive(Debug, Clone, PartialEq, Eq)]
pub enum Vertex {
    League(League),
    Series(Series),
    Tournament(Tournament),
    Match(Match),
    Team(Team),
    Player(Player),
    VideoGame(VideoGame),
    Winner(WinnerRef),
    WinnerTeam { id: u64, team: Team },
    WinnerPlayer { id: u64, player: Player },
}

impl Clone for VideoGame {
    /// An exact copy.
    fn clone(&self) -> (r: Self)
        ensures
            r == *self,
    {
        VideoGame {
            id: self.id,
            name: self.name.clone(),
            slug: self.slug.clone(),
            current_version: clone_opt_string(&self.current_version),
        }
    }
}

/// Whether two team records carry the same data, comparing the member list
/// by its contents.
pub open spec fn same_team(a: Team, b: Team) -> bool {
    &&& a.acronym == b.acronym
    &&& a.id == b.id
    &&& a.image_url == b.image_url
    &&& a.location == b.location
    &&& a.modified_at == b.modified_at
    &&& a.name == b.name
    &&& a.slug == b.slug
    &&& a.players@ == b.players@
}

impl Clone for Team {
    /// A copy that keeps every field's contents.
    fn clone(&self) -> (r: Self)
        ensures
            same_team(*self, r),
    {
        let r = Team {
            acronym: clone_opt_string(&self.acronym),
            id: self.id,
            image_url: clone_opt_string(&self.image_url),
            location: clone_opt_string(&self.location),
            modified_at: self.modified_at,
            name: self.name.clone(),
            slug: clone_opt_string(&self.slug),
            players: self.players.clone(),
        };
        proof {
            assert forall|i: int| 0 <= i < self.players@.len() implies r.players@[i]
                == self.players@[i] by {
                assert(cloned::<u64>(self.players@[i], r.players@[i]));
            }
            assert(r.players@ =~= self.players@);
        }
        r
    }
}

impl Clone for Player {
    /// An exact copy.
    fn clone(&self) -> (r: Self)
        ensures
            r == *self,
    {
        Player {
            active: self.active,
            age: self.age,
            birthday: self.birthday,
            current_team_id: self.current_team_id,
            first_name: clone_opt_string(&self.first_name),
            id: self.id,
            image_url: clone_opt_string(&self.image_url),
            last_name: clone_opt_string(&self.last_name),
            modified_at: self.modified_at,
            name: self.name.clone(),
            nationality: clone_opt_string(&self.nationality),
            role: clone_opt_string(&self.role),
            slug: clone_opt_string(&self.slug),
        }
    }
}

/// Copies an optional string, keeping its characters.
pub fn clone_opt_string(o: &Option<String>) -> (r: Option<String>)
    ensures
        r == *o,
{
    match o {
        Some(s) => Some(s.clone()),
        None => None,
    }
}

impl League {
    /// Every timestamp the record carries renders as an RFC-3339 string.
    pub open spec fn wf(self) -> bool {
        self.modified_at.valid()
    }
}

/// Whether an optional timestamp, when present, is renderable.
pub open spec fn opt_ts_valid(t: Option<Timestamp>) -> bool {
    t matches Some(ts) ==> ts.valid()
}

impl Series {
    /// Every timestamp the record carries renders as an RFC-3339 string.
    pub open spec fn wf(self) -> bool {
        &&& self.modified_at.valid()
        &&& opt_ts_valid(self.begin_at)
        &&& opt_ts_valid(self.end_at)
    }
}

impl Tournament {
    /// Every timestamp the record carries renders as an RFC-3339 string.
    pub open spec fn wf(self) -> bool {
        &&& self.modified_at.valid()
        &&& opt_ts_valid(self.begin_at)
        &&& opt_ts_valid(self.end_at)
    }
}

impl Match {
    /// Every timestamp the record carries renders as an RFC-3339 string.
    pub open spec fn wf(self) -> bool {
        &&& self.modified_at.valid()
        &&& opt_ts_valid(self.begin_at)
        &&& opt_ts_valid(self.end_at)
        &&& opt_ts_valid(self.original_scheduled_at)
        &&& opt_ts_valid(self.scheduled_at)
    }
}

impl Team {
    /// Every timestamp the record carries renders as an RFC-3339 string.
    pub open spec fn wf(self) -> bool {
        self.modified_at.valid()
    }
}

impl Player {
    /// Every timestamp renders as an RFC-3339 string and the birthday, when
    /// present, is a real calendar date.
    pub open spec fn wf(self) -> bool {
        &&& self.modified_at.valid()
        &&& (self.birthday matches Some(d) ==> d.valid())
    }
}

/// Checks at run time that an optional timestamp, when present, is
/// renderable.
pub fn opt_ts_is_valid(t: &Option<Timestamp>) -> (r: bool)
    ensures
        r == opt_ts_valid(*t),
{
    match t {
        Some(ts) => ts.is_valid(),
        None => true,
    }
}

impl Vertex {
    /// Checks at run time that every timestamp or date inside the vertex is
    /// renderable.
    pub fn is_wf(&self) -> (r: bool)
        ensures
            r == self.wf(),
    {
        match self {
            Vertex::League(l) => l.modified_at.is_valid(),
            Vertex::Series(s) => s.modified_at.is_valid() && opt_ts_is_valid(&s.begin_at)
                && opt_ts_is_valid(&s.end_at),
            Vertex::Tournament(t) => t.modified_at.is_valid() && opt_ts_is_valid(&t.begin_at)
                && opt_ts_is_valid(&t.end_at),
            Vertex::Match(m) => m.modified_at.is_valid() && opt_ts_is_valid(&m.begin_at)
                && opt_ts_is_valid(&m.end_at) && opt_ts_is_valid(&m.original_scheduled_at)
                && opt_ts_is_valid(&m.scheduled_at),
            Vertex::Team(t) => t.modified_at.is_valid(),
            Vertex::Player(p) => p.modified_at.is_valid() && (match &p.birthday {
                Some(d) => d.is_valid(),
                None => true,
            }),
            Vertex::VideoGame(_) => true,
            Vertex::Winner(_) => true,
            Vertex::WinnerTeam { team, .. } => team.modified_at.is_valid(),
            Vertex::WinnerPlayer { player, .. } => player.modified_at.is_valid() && (
            match &player.birthday {
                Some(d) => d.is_valid(),
                None => true,
            }),
        }
    }

    /// Every timestamp or date inside the vertex is renderable.
    pub open spec fn wf(self) -> bool {
        match self {
            Vertex::League(l) => l.wf(),
            Vertex::Series(s) => s.wf(),
            Vertex::Tournament(t) => t.wf(),
            Vertex::Match(m) => m.wf(),
            Vertex::Team(t) => t.wf(),
            Vertex::Player(p) => p.wf(),
            Vertex::VideoGame(_) => true,
            Vertex::Winner(_) => true,
            Vertex::WinnerTeam { team, .. } => team.wf(),
            Vertex::WinnerPlayer { player, .. } => player.wf(),
        }
    }
}


/// Law of the vertex model: the ten schema type names are pairwise
/// distinct, so a vertex's tag determines its type. Stated as the
/// inequalities the resolvers' dispatch needs.
pub proof fn tag_names_distinct()
    ensures
        "Series"@ != "League"@,
        "Tournament"@ != "League"@,
        "Tournament"@ != "Series"@,
        "Team"@ != "League"@,
        "Team"@ != "Series"@,
        "Team"@ != "Tournament"@,
        "Player"@ != "League"@,
        "Player"@ != "Series"@,
        "Player"@ != "Tournament"@,
        "Player"@ != "Team"@,
        "Match"@ != "League"@,
        "Match"@ != "Series"@,
        "Match"@ != "Tournament"@,
        "Match"@ != "Team"@,
        "Match"@ != "Player"@,
        "WinnerTeam"@ != "League"@,
        "WinnerTeam"@ != "Series"@,
        "WinnerTeam"@ != "Tournament"@,
        "WinnerTeam"@ != "Team"@,
        "WinnerTeam"@ != "Player"@,
        "WinnerTeam"@ != "Match"@,
        "WinnerPlayer"@ != "League"@,
        "WinnerPlayer"@ != "Series"@,
        "WinnerPlayer"@ != "Tournament"@,
        "WinnerPlayer"@ != "Team"@,
        "WinnerPlayer"@ != "Player"@,
        "WinnerPlayer"@ != "Match"@,
        "WinnerPlayer"@ != "WinnerTeam"@,
        "VideoGame"@ != "League"@,
        "VideoGame"@ != "Series"@,
        "VideoGame"@ != "Tournament"@,
        "VideoGame"@ != "Team"@,
        "VideoGame"@ != "Player"@,
        "VideoGame"@ != "Match"@,
        "VideoGame"@ != "WinnerTeam"@,
        "VideoGame"@ != "WinnerPlayer"@,
        "Winner"@ != "League"@,
        "Winner"@ != "Series"@,
        "Winner"@ != "Tournament"@,
        "Winner"@ != "Team"@,
        "Winner"@ != "Player"@,
        "Winner"@ != "Match"@,
        "Winner"@ != "WinnerTeam"@,
        "Winner"@ != "WinnerPlayer"@,
{
    reveal_strlit("League");
    reveal_strlit("Series");
    reveal_strlit("Tournament");
    reveal_strlit("Team");
    reveal_strlit("Player");
    reveal_strlit("Match");
    reveal_strlit("WinnerTeam");
    reveal_strlit("WinnerPlayer");
    reveal_strlit("VideoGame");
    reveal_strlit("Winner");
    assert("Series"@[0] != "League"@[0]);
    assert("Tournament"@.len() != "League"@.len());
    assert("Tournament"@.len() != "Series"@.len());
    assert("Team"@.len() != "League"@.len());
    assert("Team"@.len() != "Series"@.len());
    assert("Team"@.len() != "Tournament"@.len());
    assert("Player"@[0] != "League"@[0]);
    assert("Player"@[0] != "Series"@[0]);
    assert("Player"@.len() != "Tournament"@.len());
    assert("Player"@.len() != "Team"@.len());
    assert("Match"@.len() != "League"@.len());
    assert("Match"@.len() != "Series"@.len());
    assert("Match"@.len() != "Tournament"@.len());
    assert("Match"@.len() != "Team"@.len());
    assert("Match"@.len() != "Player"@.len());
    assert("WinnerTeam"@.len() != "League"@.len());
    assert("WinnerTeam"@.len() != "Series"@.len());
    assert("WinnerTeam"@[0] != "Tournament"@[0]);
    assert("WinnerTeam"@.len() != "Team"@.len());
    assert("WinnerTeam"@.len() != "Player"@.len());
    assert("WinnerTeam"@.len() != "Match"@.len());
    assert("WinnerPlayer"@.len() != "League"@.len());
    assert("WinnerPlayer"@.len() != "Series"@.len());
    assert("WinnerPlayer"@.len() != "Tournament"@.len());
    assert("WinnerPlayer"@.len() != "Team"@.len());
    assert("WinnerPlayer"@.len() != "Player"@.len());
    assert("WinnerPlayer"@.len() != "Match"@.len());
    assert("WinnerPlayer"@.len() != "WinnerTeam"@.len());
    assert("VideoGame"@.len() != "League"@.len());
    assert("VideoGame"@.len() != "Series"@.len());
    assert("VideoGame"@.len() != "Tournament"@.len());
    assert("VideoGame"@.len() != "Team"@.len());
    assert("VideoGame"@.len() != "Player"@.len());
    assert("VideoGame"@.len() != "Match"@.len());
    assert("VideoGame"@.len() != "WinnerTeam"@.len());
    assert("VideoGame"@.len() != "WinnerPlayer"@.len());
    assert("Winner"@[0] != "League"@[0]);
    assert("Winner"@[0] != "Series"@[0]);
    assert("Winner"@.len() != "Tournament"@.len());
    assert("Winner"@.len() != "Team"@.len());
    assert("Winner"@[0] != "Player"@[0]);
    assert("Winner"@.len() != "Match"@.len());
    assert("Winner"@.len() != "WinnerTeam"@.len());
    assert("Winner"@.len() != "WinnerPlayer"@.len());
}

impl Vertex {
    /// The schema type name the vertex's tag corresponds to.
    pub open spec fn tag_name(self) -> Seq<char> {
        match self {
            Vertex::League(_) => "League"@,
            Vertex::Series(_) => "Series"@,
            Vertex::Tournament(_) => "Tournament"@,
            Vertex::Match(_) => "Match"@,
            Vertex::Team(_) => "Team"@,
            Vertex::Player(_) => "Player"@,
            Vertex::VideoGame(_) => "VideoGame"@,
            Vertex::Winner(_) => "Winner"@,
            Vertex::WinnerTeam { .. } => "WinnerTeam"@,
            Vertex::WinnerPlayer { .. } => "WinnerPlayer"@,
        }
    }
}

} // verus!
