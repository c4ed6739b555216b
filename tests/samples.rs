use worldcup_hub::{CalendarDate, Group, RoundSchedule, Tournament};

#[test]
fn tournament_sample_fields() {
    let t = Tournament::sample();
    assert_eq!(t.name, "2026 FIFA World Cup");
    assert_eq!(t.slogan, "We Are 26");
    assert_eq!(t.hosts, vec!["Canada", "Mexico", "United States"]);
    assert_eq!(t.start_date, CalendarDate { year: 2026, month: 6, day: 11 });
    assert_eq!(t.end_date, CalendarDate { year: 2026, month: 7, day: 19 });
    assert_eq!(t.teams_count, 48);
    assert_eq!(t.confed_count, 6);
    assert_eq!(t.venues_count, 16);
    assert_eq!(t.host_cities_count, 16);
}

#[test]
fn groups_sample_order_and_first_team() {
    let groups = Group::sample_groups();
    let names: Vec<&str> = groups.iter().map(|g| g.name.as_str()).collect();
    assert_eq!(names, vec!["A", "B", "C", "D"]);
    let mexico = &groups[0].teams[0];
    assert_eq!(mexico.name, "Mexico");
    assert_eq!(mexico.code, "MEX");
    assert!(mexico.is_host);
    assert!(!mexico.is_debut);
    for g in &groups {
        assert_eq!(g.teams.len(), 4);
    }
}

#[test]
fn groups_sample_notes_and_dates() {
    let groups = Group::sample_groups();
    assert_eq!(groups[0].note.as_deref(), Some("Mexico opens tournament at Estadio Azteca"));
    assert_eq!(groups[1].note.as_deref(), Some("Canada opens in Toronto"));
    assert_eq!(groups[2].note, None);
    assert_eq!(groups[3].note.as_deref(), Some("United States opens in Inglewood"));
    let days: Vec<u32> = groups.iter().map(|g| g.first_match_date.day).collect();
    assert_eq!(days, vec![11, 12, 13, 14]);
    assert!(groups.iter().all(|g| g.first_match_date.year == 2026 && g.first_match_date.month == 6));
}

#[test]
fn single_debutant_is_uzbekistan() {
    let groups = Group::sample_groups();
    let mut debutants = Vec::new();
    for g in &groups {
        for t in &g.teams {
            if t.is_debut {
                debutants.push((g.name.clone(), t.name.clone(), t.code.clone()));
            }
        }
    }
    assert_eq!(debutants, vec![("D".to_string(), "Uzbekistan".to_string(), "UZB".to_string())]);
}

#[test]
fn hosts_open_their_groups() {
    let groups = Group::sample_groups();
    let hosts: Vec<&str> = groups
        .iter()
        .flat_map(|g| g.teams.iter())
        .filter(|t| t.is_host)
        .map(|t| t.code.as_str())
        .collect();
    assert_eq!(hosts, vec!["MEX", "CAN", "USA"]);
}

#[test]
fn rounds_in_tournament_order() {
    let rounds = RoundSchedule::sample_rounds();
    let names: Vec<&str> = rounds.iter().map(|r| r.round_name.as_str()).collect();
    assert_eq!(
        names,
        vec![
            "Group stage – Matchday 1",
            "Group stage – Matchday 2",
            "Group stage – Matchday 3",
            "Round of 32",
            "Round of 16",
            "Quarter-finals",
            "Semi-finals",
            "Third-place match",
            "Final",
        ]
    );
    assert_eq!(rounds[0].date_range, "June 11–17, 2026");
    assert_eq!(rounds[3].date_range, "June 29–July 2, 2026");
    assert_eq!(rounds[8].date_range, "July 19, 2026");
}
