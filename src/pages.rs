//! The values bound into each page, and the response made from a render.

use vstd::prelude::*;
use vstd::string::StringExecFns;
use crate::models::{
    Group, GroupView, RoundSchedule, RoundView, Tournament, TournamentView, groups_view,
    rounds_view, sample_groups_view, sample_rounds_view, sample_tournament_view, texts_view,
};

verus! {

/// `parts` written one after another with `sep` between each two.
pub open spec fn joined(parts: Seq<Seq<char>>, sep: Seq<char>) -> Seq<char>
    decreases parts.len(),
{
    if parts.len() == 0 {
        Seq::empty()
    } else if parts.len() == 1 {
        parts[0]
    } else {
        joined(parts.drop_last(), sep) + sep + parts.last()
    }
}

/// Title of the tournament overview page.
pub open spec fn overview_title(t: TournamentView) -> Seq<char> {
    t.name + " – Tournament Overview"@
}

/// Description of the tournament overview page: name, hosts and dates.
pub open spec fn overview_description(t: TournamentView) -> Seq<char> {
    t.name + " – hosted by "@ + joined(t.hosts, ", "@) + " from "@ + t.start_date.long_text()
        + " to "@ + t.end_date.long_text() + "."@
}

/// `parts` joined with `sep` between each two.
pub fn join_texts(parts: &Vec<String>, sep: &str) -> (r: String)
    ensures
        r@ == joined(texts_view(parts@), sep@),
{
    let mut r = String::new();
    let mut i: usize = 0;
    while i < parts.len()
        invariant
            i <= parts@.len(),
            r@ == joined(texts_view(parts@.subrange(0, i as int)), sep@),
        decreases parts@.len() - i,
    {
        proof {
            let next = texts_view(parts@.subrange(0, i as int + 1));
            assert(next.drop_last() =~= texts_view(parts@.subrange(0, i as int)));
            assert(next.last() == parts@[i as int]@);
        }
        if i > 0 {
            r.append(sep);
        }
        r.append(parts[i].as_str());
        i = i + 1;
    }
    assert(parts@.subrange(0, i as int) =~= parts@);
    r
}

impl Tournament {
    /// "<name> – Tournament Overview".
    pub fn overview_title(&self) -> (r: String)
        ensures
            r@ == overview_title(self@),
    {
        self.name.clone().concat(" – Tournament Overview")
    }

    /// "<name> – hosted by <hosts> from <start> to <end>.", the hosts joined
    /// with ", " and the dates in long form.
    pub fn overview_description(&self) -> (r: String)
        requires
            self.start_date.wf(),
            self.end_date.wf(),
        ensures
            r@ == overview_description(self@),
    {
        let mut r = self.name.clone();
        r.append(" – hosted by ");
        let hosts = join_texts(&self.hosts, ", ");
        r.append(hosts.as_str());
        r.append(" from ");
        let start = self.start_date.long_format();
        r.append(start.as_str());
        r.append(" to ");
        let end = self.end_date.long_format();
        r.append(end.as_str());
        r.append(".");
        r
    }
}

/// Texts of the home page.
pub struct HomeTemplate {
    pub title: String,
    pub description: String,
}

impl HomeTemplate {
    pub open spec fn title_text() -> Seq<char> {
        "World Cup 2026 Hub | News, Teams, Stats, History & More"@
    }

    pub open spec fn description_text() -> Seq<char> {
        "Your ultimate destination for FIFA World Cup 2026 - News, Teams, Players, Match Schedules, Venues, History Wiki and more."@
    }

    /// The home page's fixed title and description.
    pub fn home() -> (r: HomeTemplate)
        ensures
            r.title@ == Self::title_text(),
            r.description@ == Self::description_text(),
    {
        HomeTemplate {
            title: String::from_str("World Cup 2026 Hub | News, Teams, Stats, History & More"),
            description: String::from_str(
                "Your ultimate destination for FIFA World Cup 2026 - News, Teams, Players, Match Schedules, Venues, History Wiki and more.",
            ),
        }
    }
}

/// Texts of the page on the tournament's format and venues.
pub struct WorldCupInfoTemplate {
    pub title: String,
    pub description: String,
}

impl WorldCupInfoTemplate {
    pub open spec fn title_text() -> Seq<char> {
        "2026 World Cup – Format, Venues & More"@
    }

    pub open spec fn description_text() -> Seq<char> {
        "A deeper look at how the expanded 48-team World Cup works, where matches will be played, and the branding, mascots, tickets and controversies around the tournament."@
    }

    /// The info page's fixed title and description.
    pub fn info() -> (r: WorldCupInfoTemplate)
        ensures
            r.title@ == Self::title_text(),
            r.description@ == Self::description_text(),
    {
        WorldCupInfoTemplate {
            title: String::from_str("2026 World Cup – Format, Venues & More"),
            description: String::from_str(
                "A deeper look at how the expanded 48-team World Cup works, where matches will be played, and the branding, mascots, tickets and controversies around the tournament.",
            ),
        }
    }
}

/// What the tournament overview page shows.
pub struct TournamentTemplateView {
    pub title: Seq<char>,
    pub description: Seq<char>,
    pub tournament: TournamentView,
    pub groups: Seq<GroupView>,
    pub rounds: Seq<RoundView>,
}

/// Values of the tournament overview page.
pub struct TournamentTemplate {
    pub title: String,
    pub description: String,
    pub tournament: Tournament,
    pub groups: Vec<Group>,
    pub rounds: Vec<RoundSchedule>,
}

impl View for TournamentTemplate {
    type V = TournamentTemplateView;

    open spec fn view(&self) -> TournamentTemplateView {
        TournamentTemplateView {
            title: self.title@,
            description: self.description@,
            tournament: self.tournament@,
            groups: groups_view(self.groups@),
            rounds: rounds_view(self.rounds@),
        }
    }
}

/// The overview page of the sample tournament.
pub open spec fn sample_overview_view() -> TournamentTemplateView {
    TournamentTemplateView {
        title: overview_title(sample_tournament_view()),
        description: overview_description(sample_tournament_view()),
        tournament: sample_tournament_view(),
        groups: sample_groups_view(),
        rounds: sample_rounds_view(),
    }
}

impl TournamentTemplate {
    /// The sample tournament, its groups and rounds, with the title and
    /// description made from the tournament.
    pub fn overview() -> (r: TournamentTemplate)
        ensures
            r@ == sample_overview_view(),
    {
        let tournament = Tournament::sample();
        let groups = Group::sample_groups();
        let rounds = RoundSchedule::sample_rounds();
        TournamentTemplate {
            title: tournament.overview_title(),
            description: tournament.overview_description(),
            tournament,
            groups,
            rounds,
        }
    }
}

/// Building the overview page never depends on what was built before: any two
/// pages built by `TournamentTemplate::overview` hold the same values.
pub proof fn overview_is_repeatable(first: TournamentTemplate, second: TournamentTemplate)
    requires
        first@ == sample_overview_view(),
        second@ == sample_overview_view(),
    ensures
        first@ == second@,
{
}

/// The site's self-description, served as JSON.
pub struct ApiDescriptor {
    pub message: String,
    pub version: String,
    pub endpoints: Vec<String>,
}

impl ApiDescriptor {
    /// Message "World Cup 2026 Hub API", version "1.0.0", one endpoint
    /// "/api/home".
    pub fn home() -> (r: ApiDescriptor)
        ensures
            r.message@ == "World Cup 2026 Hub API"@,
            r.version@ == "1.0.0"@,
            texts_view(r.endpoints@) == seq!["/api/home"@],
    {
        let mut endpoints: Vec<String> = Vec::new();
        endpoints.push(String::from_str("/api/home"));
        let r = ApiDescriptor {
            message: String::from_str("World Cup 2026 Hub API"),
            version: String::from_str("1.0.0"),
            endpoints,
        };
        assert(texts_view(r.endpoints@) =~= seq!["/api/home"@]);
        r
    }
}

/// Status, content type and body of a page's response.
pub struct PageResponse {
    pub status: u16,
    pub content_type: String,
    pub body: String,
}

/// The response for a page: the rendered markup as HTML with status 200, or,
/// where rendering failed, status 500 with the renderer's message in the body.
pub fn page_response(rendered: Result<String, String>) -> (r: PageResponse)
    ensures
        rendered matches Ok(html) ==> r.status == 200 && r.content_type@ == "text/html"@
            && r.body@ == html@,
        rendered matches Err(e) ==> r.status == 500 && r.content_type@
            == "text/plain; charset=utf-8"@ && r.body@ == "Template error: "@ + e@,
{
    match rendered {
        Ok(html) => PageResponse { status: 200, content_type: String::from_str("text/html"), body: html },
        Err(e) => PageResponse {
            status: 500,
            content_type: String::from_str("text/plain; charset=utf-8"),
            body: String::from_str("Template error: ").concat(e.as_str()),
        },
    }
}

} // verus!
