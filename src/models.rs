//! The tournament records shown on the site, and the fixed sample of them.

use vstd::prelude::*;
use vstd::string::StringExecFns;
use crate::calendar::{CalendarDate, is_valid_ymd};

verus! {

/// What a team of a group is, as text and flags.
pub struct GroupTeamView {
    pub name: Seq<char>,
    pub code: Seq<char>,
    pub is_host: bool,
    pub is_debut: bool,
}

/// What a group is: its name, its note, its teams in order, and the day of its
/// first match.
pub struct GroupView {
    pub name: Seq<char>,
    pub note: Option<Seq<char>>,
    pub teams: Seq<GroupTeamView>,
    pub first_match_date: CalendarDate,
}

/// What a round of the schedule is: its name and its dates as display text.
pub struct RoundView {
    pub round_name: Seq<char>,
    pub date_range: Seq<char>,
}

/// What a tournament is, its texts as character sequences.
pub struct TournamentView {
    pub name: Seq<char>,
    pub slogan: Seq<char>,
    pub start_date: CalendarDate,
    pub end_date: CalendarDate,
    pub hosts: Seq<Seq<char>>,
    pub teams_count: u32,
    pub confed_count: u32,
    pub venues_count: u32,
    pub host_cities_count: u32,
}

/// A tournament: names, dates, hosts in order, and its headline counts.
pub struct Tournament {
    pub name: String,
    pub slogan: String,
    pub start_date: CalendarDate,
    pub end_date: CalendarDate,
    pub hosts: Vec<String>,
    pub teams_count: u32,
    pub confed_count: u32,
    pub venues_count: u32,
    pub host_cities_count: u32,
}

/// A team as shown in a group, with a three-letter code.
pub struct GroupTeam {
    pub name: String,
    pub code: String,
    pub is_host: bool,
    pub is_debut: bool,
}

/// A group: its label, an optional note, its teams in order, and the day of
/// its first match.
pub struct Group {
    pub name: String,
    pub note: Option<String>,
    pub teams: Vec<GroupTeam>,
    pub first_match_date: CalendarDate,
}

/// A round of the schedule, its dates kept as display text.
pub struct RoundSchedule {
    pub round_name: String,
    pub date_range: String,
}

/// The views of a sequence of strings.
pub open spec fn texts_view(s: Seq<String>) -> Seq<Seq<char>> {
    s.map_values(|t: String| t@)
}

pub open spec fn groups_view(s: Seq<Group>) -> Seq<GroupView> {
    s.map_values(|g: Group| g@)
}

pub open spec fn rounds_view(s: Seq<RoundSchedule>) -> Seq<RoundView> {
    s.map_values(|r: RoundSchedule| r@)
}

impl View for GroupTeam {
    type V = GroupTeamView;

    open spec fn view(&self) -> GroupTeamView {
        GroupTeamView {
            name: self.name@,
            code: self.code@,
            is_host: self.is_host,
            is_debut: self.is_debut,
        }
    }
}

impl View for Group {
    type V = GroupView;

    open spec fn view(&self) -> GroupView {
        GroupView {
            name: self.name@,
            note: match self.note {
                Some(n) => Some(n@),
                None => None,
            },
            teams: self.teams@.map_values(|t: GroupTeam| t@),
            first_match_date: self.first_match_date,
        }
    }
}

impl View for RoundSchedule {
    type V = RoundView;

    open spec fn view(&self) -> RoundView {
        RoundView { round_name: self.round_name@, date_range: self.date_range@ }
    }
}

impl View for Tournament {
    type V = TournamentView;

    open spec fn view(&self) -> TournamentView {
        TournamentView {
            name: self.name@,
            slogan: self.slogan@,
            start_date: self.start_date,
            end_date: self.end_date,
            hosts: texts_view(self.hosts@),
            teams_count: self.teams_count,
            confed_count: self.confed_count,
            venues_count: self.venues_count,
            host_cities_count: self.host_cities_count,
        }
    }
}

impl Tournament {
    /// Both dates exist, the tournament does not end before it starts, and it
    /// has at least one host.
    pub open spec fn wf(&self) -> bool {
        &&& self.start_date.wf()
        &&& self.end_date.wf()
        &&& self.start_date.is_on_or_before(self.end_date)
        &&& self.hosts@.len() > 0
    }
}

pub open spec fn team_view(name: Seq<char>, code: Seq<char>, is_host: bool, is_debut: bool) -> GroupTeamView {
    GroupTeamView { name, code, is_host, is_debut }
}

/// The sample tournament.
pub open spec fn sample_tournament_view() -> TournamentView {
    TournamentView {
        name: "2026 FIFA World Cup"@,
        slogan: "We Are 26"@,
        start_date: CalendarDate { year: 2026, month: 6, day: 11 },
        end_date: CalendarDate { year: 2026, month: 7, day: 19 },
        hosts: seq!["Canada"@, "Mexico"@, "United States"@],
        teams_count: 48,
        confed_count: 6,
        venues_count: 16,
        host_cities_count: 16,
    }
}

/// The four sample groups, in display order.
pub open spec fn sample_groups_view() -> Seq<GroupView> {
    seq![
        GroupView {
            name: "A"@,
            note: Some("Mexico opens tournament at Estadio Azteca"@),
            teams: seq![
                team_view("Mexico"@, "MEX"@, true, false),
                team_view("South Africa"@, "RSA"@, false, false),
                team_view("Poland"@, "POL"@, false, false),
                team_view("Saudi Arabia"@, "KSA"@, false, false),
            ],
            first_match_date: CalendarDate { year: 2026, month: 6, day: 11 },
        },
        GroupView {
            name: "B"@,
            note: Some("Canada opens in Toronto"@),
            teams: seq![
                team_view("Canada"@, "CAN"@, true, false),
                team_view("Argentina"@, "ARG"@, false, false),
                team_view("Morocco"@, "MAR"@, false, false),
                team_view("Peru"@, "PER"@, false, false),
            ],
            first_match_date: CalendarDate { year: 2026, month: 6, day: 12 },
        },
        GroupView {
            name: "C"@,
            note: None,
            teams: seq![
                team_view("England"@, "ENG"@, false, false),
                team_view("Denmark"@, "DEN"@, false, false),
                team_view("Slovenia"@, "SVN"@, false, false),
                team_view("Serbia"@, "SRB"@, false, false),
            ],
            first_match_date: CalendarDate { year: 2026, month: 6, day: 13 },
        },
        GroupView {
            name: "D"@,
            note: Some("United States opens in Inglewood"@),
            teams: seq![
                team_view("United States"@, "USA"@, true, false),
                team_view("Wales"@, "WAL"@, false, false),
                team_view("Panama"@, "PAN"@, false, false),
                team_view("Uzbekistan"@, "UZB"@, false, true),
            ],
            first_match_date: CalendarDate { year: 2026, month: 6, day: 14 },
        },
    ]
}

/// The nine rounds of the sample schedule, in the order they are played.
pub open spec fn sample_rounds_view() -> Seq<RoundView> {
    seq![
        RoundView { round_name: "Group stage – Matchday 1"@, date_range: "June 11–17, 2026"@ },
        RoundView { round_name: "Group stage – Matchday 2"@, date_range: "June 18–24, 2026"@ },
        RoundView { round_name: "Group stage – Matchday 3"@, date_range: "June 25–27, 2026"@ },
        RoundView { round_name: "Round of 32"@, date_range: "June 29–July 2, 2026"@ },
        RoundView { round_name: "Round of 16"@, date_range: "July 4–7, 2026"@ },
        RoundView { round_name: "Quarter-finals"@, date_range: "July 9–11, 2026"@ },
        RoundView { round_name: "Semi-finals"@, date_range: "July 14–15, 2026"@ },
        RoundView { round_name: "Third-place match"@, date_range: "July 18, 2026"@ },
        RoundView { round_name: "Final"@, date_range: "July 19, 2026"@ },
    ]
}
fn sample_date(year: i32, month: u32, day: u32) -> (r: CalendarDate)
    requires
        is_valid_ymd(year as int, month as int, day as int),
    ensures
        r == (CalendarDate { year, month, day }),
{
    CalendarDate::from_ymd_opt(year, month, day).unwrap()
}

impl GroupTeam {
    fn new(name: &str, code: &str, is_host: bool, is_debut: bool) -> (r: GroupTeam)
        ensures
            r@ == team_view(name@, code@, is_host, is_debut),
    {
        GroupTeam {
            name: String::from_str(name),
            code: String::from_str(code),
            is_host,
            is_debut,
        }
    }
}

fn sample_group_a() -> (r: Group)
    ensures
        r@ == sample_groups_view()[0],
{
    let mut teams: Vec<GroupTeam> = Vec::new();
    teams.push(GroupTeam::new("Mexico", "MEX", true, false));
    teams.push(GroupTeam::new("South Africa", "RSA", false, false));
    teams.push(GroupTeam::new("Poland", "POL", false, false));
    teams.push(GroupTeam::new("Saudi Arabia", "KSA", false, false));
    let r = Group {
        name: String::from_str("A"),
        note: Some(String::from_str("Mexico opens tournament at Estadio Azteca")),
        teams,
        first_match_date: sample_date(2026, 6, 11),
    };
    assert(r@.teams =~= sample_groups_view()[0].teams);
    r
}

fn sample_group_b() -> (r: Group)
    ensures
        r@ == sample_groups_view()[1],
{
    let mut teams: Vec<GroupTeam> = Vec::new();
    teams.push(GroupTeam::new("Canada", "CAN", true, false));
    teams.push(GroupTeam::new("Argentina", "ARG", false, false));
    teams.push(GroupTeam::new("Morocco", "MAR", false, false));
    teams.push(GroupTeam::new("Peru", "PER", false, false));
    let r = Group {
        name: String::from_str("B"),
        note: Some(String::from_str("Canada opens in Toronto")),
        teams,
        first_match_date: sample_date(2026, 6, 12),
    };
    assert(r@.teams =~= sample_groups_view()[1].teams);
    r
}

fn sample_group_c() -> (r: Group)
    ensures
        r@ == sample_groups_view()[2],
{
    let mut teams: Vec<GroupTeam> = Vec::new();
    teams.push(GroupTeam::new("England", "ENG", false, false));
    teams.push(GroupTeam::new("Denmark", "DEN", false, false));
    teams.push(GroupTeam::new("Slovenia", "SVN", false, false));
    teams.push(GroupTeam::new("Serbia", "SRB", false, false));
    let r = Group {
        name: String::from_str("C"),
        note: None,
        teams,
        first_match_date: sample_date(2026, 6, 13),
    };
    assert(r@.teams =~= sample_groups_view()[2].teams);
    r
}

fn sample_group_d() -> (r: Group)
    ensures
        r@ == sample_groups_view()[3],
{
    let mut teams: Vec<GroupTeam> = Vec::new();
    teams.push(GroupTeam::new("United States", "USA", true, false));
    teams.push(GroupTeam::new("Wales", "WAL", false, false));
    teams.push(GroupTeam::new("Panama", "PAN", false, false));
    teams.push(GroupTeam::new("Uzbekistan", "UZB", false, true));
    let r = Group {
        name: String::from_str("D"),
        note: Some(String::from_str("United States opens in Inglewood")),
        teams,
        first_match_date: sample_date(2026, 6, 14),
    };
    assert(r@.teams =~= sample_groups_view()[3].teams);
    r
}

fn sample_round(i: usize, round_name: &str, date_range: &str) -> (r: RoundSchedule)
    requires
        i < 9,
        round_name@ == sample_rounds_view()[i as int].round_name,
        date_range@ == sample_rounds_view()[i as int].date_range,
    ensures
        r@ == sample_rounds_view()[i as int],
{
    RoundSchedule { round_name: String::from_str(round_name), date_range: String::from_str(date_range) }
}
impl Tournament {
    /// The fixed tournament record.
    pub fn sample() -> (r: Tournament)
        ensures
            r@ == sample_tournament_view(),
            r.wf(),
    {
        let mut hosts: Vec<String> = Vec::new();
        hosts.push(String::from_str("Canada"));
        hosts.push(String::from_str("Mexico"));
        hosts.push(String::from_str("United States"));
        let r = Tournament {
            name: String::from_str("2026 FIFA World Cup"),
            slogan: String::from_str("We Are 26"),
            start_date: sample_date(2026, 6, 11),
            end_date: sample_date(2026, 7, 19),
            hosts,
            teams_count: 48,
            confed_count: 6,
            venues_count: 16,
            host_cities_count: 16,
        };
        assert(r@.hosts =~= sample_tournament_view().hosts);
        r
    }
}

impl Group {
    /// The fixed groups, "A" to "D" in order.
    pub fn sample_groups() -> (r: Vec<Group>)
        ensures
            groups_view(r@) == sample_groups_view(),
            r@.len() == 4,
    {
        let mut groups: Vec<Group> = Vec::new();
        groups.push(sample_group_a());
        groups.push(sample_group_b());
        groups.push(sample_group_c());
        groups.push(sample_group_d());
        assert(groups_view(groups@) =~= sample_groups_view());
        groups
    }
}

impl RoundSchedule {
    /// The fixed schedule, from the first group matchday to the final.
    pub fn sample_rounds() -> (r: Vec<RoundSchedule>)
        ensures
            rounds_view(r@) == sample_rounds_view(),
            r@.len() == 9,
    {
        let mut rounds: Vec<RoundSchedule> = Vec::new();
        rounds.push(sample_round(0, "Group stage – Matchday 1", "June 11–17, 2026"));
        rounds.push(sample_round(1, "Group stage – Matchday 2", "June 18–24, 2026"));
        rounds.push(sample_round(2, "Group stage – Matchday 3", "June 25–27, 2026"));
        rounds.push(sample_round(3, "Round of 32", "June 29–July 2, 2026"));
        rounds.push(sample_round(4, "Round of 16", "July 4–7, 2026"));
        rounds.push(sample_round(5, "Quarter-finals", "July 9–11, 2026"));
        rounds.push(sample_round(6, "Semi-finals", "July 14–15, 2026"));
        rounds.push(sample_round(7, "Third-place match", "July 18, 2026"));
        rounds.push(sample_round(8, "Final", "July 19, 2026"));
        assert(rounds_view(rounds@) =~= sample_rounds_view());
        rounds
    }
}

} // verus!
