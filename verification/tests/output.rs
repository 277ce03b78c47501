use fbdb_webscrape::cli::{same_text, DEFAULT_FORMAT, JSON_FORMAT};
use fbdb_webscrape::{
    box_scores_url, parse_box_scores, render, render_default, render_json, BoxScore,
    FbdbSubcommand, FbdbSubcommandArgs, FbdbWebScrapeCli, OutputFormat, DEFAULT_YEAR, USER_AGENT,
};
use serde_json::Value;

fn game(date: &str, away: &str, a: i32, home: &str, h: i32) -> BoxScore {
    BoxScore::from_properties(String::from(date), String::from(away), a, String::from(home), h)
}

fn season() -> Vec<BoxScore> {
    vec![
        game("12/1/2024", "Team A", 28, "Team B", 31),
        game("12/8/2024", "Say \"Hi\"", -3, "Back\\slash\n\ttab \u{1} é 日本", 0),
        game("", "", i32::MIN, "", i32::MAX),
    ]
}

#[test]
fn format_selector_json_selects_json() {
    assert_eq!(OutputFormat::from_str("json"), Ok(OutputFormat::Json));
    assert_eq!(OutputFormat::of("json"), OutputFormat::Json);
}

#[test]
fn every_other_selector_selects_the_default_format() {
    for selector in ["", "JSON", "xml", "default", "json ", " json", "jso", "jsonn", "Json", "jsön"] {
        assert_eq!(OutputFormat::from_str(selector), Ok(OutputFormat::Default), "{:?}", selector);
        assert_eq!(OutputFormat::of(selector), OutputFormat::Default);
    }
}

#[test]
fn format_names() {
    assert_eq!(OutputFormat::Json.to_string(), "json");
    assert_eq!(OutputFormat::Default.to_string(), "default");
    assert_eq!(JSON_FORMAT, "json");
    assert_eq!(DEFAULT_FORMAT, "default");
}

#[test]
fn same_text_compares_every_character() {
    assert!(same_text("", ""));
    assert!(same_text("json", "json"));
    assert!(same_text("日本", "日本"));
    assert!(!same_text("json", "jsom"));
    assert!(!same_text("json", "jso"));
    assert!(!same_text("", "j"));
    assert!(!same_text("e\u{301}", "é"));
}

#[test]
fn default_rendering_joins_the_lines() {
    let scores = vec![game("12/1/2024", "Team A", 28, "Team B", 31), game("12/8/2024", "C", 7, "D", 3)];
    assert_eq!(
        render_default(&scores),
        "[12/1/2024] Team B 31 - Team A 28\n[12/8/2024] D 3 - C 7"
    );
    assert_eq!(render(&scores, OutputFormat::Default), Ok(render_default(&scores)));
}

#[test]
fn default_rendering_of_one_box_score_has_no_line_feed() {
    let scores = vec![game("12/1/2024", "Team A", 28, "Team B", 31)];
    assert_eq!(render_default(&scores), "[12/1/2024] Team B 31 - Team A 28");
}

#[test]
fn renderings_of_nothing() {
    let none: Vec<BoxScore> = Vec::new();
    assert_eq!(render(&none, OutputFormat::Default), Ok(String::new()));
    assert_eq!(render(&none, OutputFormat::Json), Ok(String::from("[]")));
    assert_eq!(render_default(&none), "");
    assert_eq!(render_json(&none), Ok(String::from("[]")));
}

#[test]
fn json_rendering_is_indented_and_keeps_the_order_of_the_fields() {
    let scores = vec![game("12/1/2024", "Team A", 28, "Team B", 31), game("12/8/2024", "C", -7, "D", 0)];
    let expected = "[\n  {\n    \"date\": \"12/1/2024\",\n    \"away_team\": \"Team A\",\n    \
                    \"away_score\": 28,\n    \"home_team\": \"Team B\",\n    \"home_score\": 31\n  },\n  \
                    {\n    \"date\": \"12/8/2024\",\n    \"away_team\": \"C\",\n    \
                    \"away_score\": -7,\n    \"home_team\": \"D\",\n    \"home_score\": 0\n  }\n]";
    assert_eq!(render_json(&scores), Ok(String::from(expected)));
    assert_eq!(render(&scores, OutputFormat::Json), Ok(String::from(expected)));
}

#[test]
fn json_rendering_escapes_text() {
    let scores = vec![game("a\"b", "c\\d", 1, "e\nf", 2)];
    let text = render_json(&scores).unwrap();
    assert!(text.contains("\"date\": \"a\\\"b\""));
    assert!(text.contains("\"away_team\": \"c\\\\d\""));
    assert!(text.contains("\"home_team\": \"e\\nf\""));
}

#[test]
fn json_rendering_reads_back_as_the_same_records() {
    for scores in [Vec::new(), season()] {
        let text = render(&scores, OutputFormat::Json).unwrap();
        let document: Value = serde_json::from_str(&text).unwrap();
        let items = document.as_array().unwrap();
        assert_eq!(items.len(), scores.len());
        for (item, score) in items.iter().zip(scores.iter()) {
            let object = item.as_object().unwrap();
            let keys: Vec<&str> = object.keys().map(|key| key.as_str()).collect();
            assert_eq!(keys, vec!["date", "away_team", "away_score", "home_team", "home_score"]);
            let back = BoxScore::from_properties(
                String::from(object["date"].as_str().unwrap()),
                String::from(object["away_team"].as_str().unwrap()),
                i32::try_from(object["away_score"].as_i64().unwrap()).unwrap(),
                String::from(object["home_team"].as_str().unwrap()),
                i32::try_from(object["home_score"].as_i64().unwrap()).unwrap(),
            );
            assert_eq!(back.date(), score.date());
            assert_eq!(back.away_team(), score.away_team());
            assert_eq!(back.away_score(), score.away_score());
            assert_eq!(back.home_team(), score.home_team());
            assert_eq!(back.home_score(), score.home_score());
        }
    }
}

#[test]
fn unknown_selectors_render_as_the_default_format_does() {
    let scores = season();
    let expected = render(&scores, OutputFormat::Default);
    for selector in ["", "JSON", "xml"] {
        let format = OutputFormat::from_str(selector).unwrap();
        assert_eq!(render(&scores, format), expected);
    }
    assert_ne!(render(&scores, OutputFormat::from_str("json").unwrap()), expected);
}

#[test]
fn page_to_default_rendering() {
    let html = "<html><body><table class=\"statistics\"><tr class=\"row0\">\
        <td><span class=\"hidden-xs\">12/1/2024</span></td>\
        <td><span class=\"hidden-xs\">Team A</span></td><td>28</td>\
        <td><span class=\"hidden-xs\">Team B</span></td><td>31</td></tr></table></body></html>";
    let scores = parse_box_scores(html).unwrap();
    assert_eq!(
        render(&scores, OutputFormat::Default),
        Ok(String::from("[12/1/2024] Team B 31 - Team A 28"))
    );
}

#[test]
fn page_without_tables_renders_in_both_formats() {
    let scores = parse_box_scores("<html><body></body></html>").unwrap();
    assert_eq!(scores.len(), 0);
    assert_eq!(render(&scores, OutputFormat::Default), Ok(String::new()));
    assert_eq!(render(&scores, OutputFormat::Json), Ok(String::from("[]")));
}

fn arguments(format: Option<&str>, file: Option<&str>, year: u32) -> FbdbSubcommandArgs {
    FbdbSubcommandArgs {
        output_format: format.map(String::from),
        output_file: file.map(String::from),
        year,
    }
}

#[test]
fn command_is_a_copy_of_the_subcommand() {
    let cli = FbdbWebScrapeCli {
        command: FbdbSubcommand::Boxscores(arguments(Some("json"), Some("out.json"), 1999)),
    };
    let FbdbSubcommand::Boxscores(args) = cli.command();
    assert_eq!(args.output_format.as_deref(), Some("json"));
    assert_eq!(args.output_file.as_deref(), Some("out.json"));
    assert_eq!(args.year, 1999);
    let FbdbSubcommand::Boxscores(kept) = &cli.command;
    assert_eq!(kept.output_format.as_deref(), Some("json"));
    let bare = FbdbWebScrapeCli { command: FbdbSubcommand::Boxscores(arguments(None, None, DEFAULT_YEAR)) };
    let FbdbSubcommand::Boxscores(args) = bare.command();
    assert_eq!(args.output_format, None);
    assert_eq!(args.output_file, None);
    assert_eq!(args.year, 2024);
}

#[test]
fn arguments_select_the_format() {
    assert_eq!(arguments(Some("json"), None, 2024).format(), OutputFormat::Json);
    assert_eq!(arguments(Some("JSON"), None, 2024).format(), OutputFormat::Default);
    assert_eq!(arguments(Some(""), None, 2024).format(), OutputFormat::Default);
    assert_eq!(arguments(None, None, 2024).format(), OutputFormat::Default);
}

#[test]
fn address_of_a_year() {
    assert_eq!(box_scores_url(2024), "https://www.footballdb.com/games/index.html?lg=NFL&yr=2024");
    assert_eq!(box_scores_url(0), "https://www.footballdb.com/games/index.html?lg=NFL&yr=0");
    assert_eq!(
        box_scores_url(u32::MAX),
        "https://www.footballdb.com/games/index.html?lg=NFL&yr=4294967295"
    );
    assert!(USER_AGENT.starts_with("Mozilla/5.0 "));
}
