use backlog_organizer::ambiguity::{
    ambiguity_next, find_classification, opinion_from_answer, opinion_from_parts, AmbiguityAction,
    AmbiguityEvent, AmbiguityResponse,
};
use backlog_organizer::category::{Category, Classification};
use backlog_organizer::recommend::{
    assistant_reply, candidate_profile, fallback_reply, inference_reply, lowercase_names,
    candidate_profiles, resolve_pick_lowered, StoreTags,
    recommend_next, recommendation_candidates, salvage_reply, validate_picks, GamePlaytime,
    GameRecommendation, RecommendAction, RecommendEvent, RecommendResponse,
};

fn game(appid: u64, name: &str, category: Category) -> Classification {
    Classification {
        appid,
        name: name.to_string(),
        category,
        reason: format!("rule for {name}"),
    }
}

fn library() -> Vec<Classification> {
    vec![
        game(10, "Portal", Category::Completed),
        game(20, "Hades", Category::InProgress),
        game(30, "Factorio", Category::Endless),
        game(40, "Wallpaper Engine", Category::NotAGame),
        game(50, "The Witcher 3: Wild Hunt", Category::InProgress),
        game(60, "Dota 2", Category::Endless),
    ]
}

fn pick(appid: u64, title: &str, reason: &str) -> GameRecommendation {
    GameRecommendation { appid, title: title.to_string(), reason: reason.to_string() }
}

fn triples(picks: &[GameRecommendation]) -> Vec<(u64, String, String)> {
    picks.iter().map(|p| (p.appid, p.title.clone(), p.reason.clone())).collect()
}

fn reply(action: RecommendAction) -> RecommendResponse {
    match action {
        RecommendAction::Reply(r) => r,
        _ => panic!("expected a reply"),
    }
}

fn opinion(action: AmbiguityAction) -> AmbiguityResponse {
    match action {
        AmbiguityAction::Reply(r) => r,
        _ => panic!("expected a reply"),
    }
}

#[test]
fn candidates_are_in_progress_or_endless_in_order() {
    let ids: Vec<u64> = recommendation_candidates(&library()).iter().map(|c| c.appid).collect();
    assert_eq!(ids, vec![20, 30, 50, 60]);
}

fn stores() -> Vec<StoreTags> {
    vec![
        StoreTags {
            appid: 20,
            genres: vec!["Action".to_string(), "Roguelike".to_string()],
            categories: vec!["Single-player".to_string()],
        },
        StoreTags { appid: 20, genres: vec!["Ignored".to_string()], categories: Vec::new() },
    ]
}

#[test]
fn at_most_forty_candidates_are_profiled() {
    let many: Vec<Classification> =
        (0..45).map(|i| game(i, "Game", Category::InProgress)).collect();
    let profiles = candidate_profiles(&many, &Vec::new());
    assert_eq!(profiles.len(), 40);
    assert_eq!(profiles[39].appid, 39);
    assert_eq!(candidate_profiles(&library(), &stores()).len(), 6);
}

#[test]
fn candidate_profile_joins_store_tags() {
    let p = candidate_profile(&game(20, "Hades", Category::InProgress), &stores());
    assert_eq!(p.appid, 20);
    assert_eq!(p.title, "Hades");
    assert_eq!(p.category, "IN_PROGRESS");
    assert_eq!(p.genres, "Action, Roguelike");
    assert_eq!(p.store_tags, "Single-player");
    let q = candidate_profile(&game(30, "Factorio", Category::Endless), &stores());
    assert_eq!((q.genres.as_str(), q.store_tags.as_str()), ("", ""));
}

#[test]
fn picks_matched_by_appid_take_the_library_title() {
    let out = validate_picks(&vec![pick(30, "factorio (2020)", "build")], &library());
    assert_eq!(triples(&out), vec![(30, "Factorio".to_string(), "build".to_string())]);
}

#[test]
fn picks_matched_by_title_ignore_case_and_take_the_library_id() {
    let out = validate_picks(&vec![pick(999, "HADES", "fast runs")], &library());
    assert_eq!(triples(&out), vec![(20, "Hades".to_string(), "fast runs".to_string())]);
}

#[test]
fn long_titles_match_by_prefix() {
    let out = validate_picks(&vec![pick(1, "the witcher 3", "story")], &library());
    assert_eq!(out.len(), 1);
    assert_eq!(out[0].appid, 50);
    assert_eq!(out[0].title, "The Witcher 3: Wild Hunt");
    let longer = validate_picks(&vec![pick(1, "Wallpaper Engine Pro Edition", "x")], &library());
    assert_eq!(longer[0].appid, 40);
}

#[test]
fn short_titles_do_not_match_by_prefix() {
    let out = validate_picks(&vec![pick(1, "Port", "x"), pick(2, "Dota", "y")], &library());
    assert!(out.is_empty());
}

#[test]
fn unknown_picks_are_dropped_and_order_is_kept() {
    let raw = vec![
        pick(60, "Dota", "a"),
        pick(5, "Nothing Like It At All", "b"),
        pick(10, "Portal", "c"),
    ];
    let out = validate_picks(&raw, &library());
    assert_eq!(out.iter().map(|p| p.appid).collect::<Vec<_>>(), vec![60, 10]);
    assert_eq!(out[0].title, "Dota 2");
}

#[test]
fn fallback_suggests_first_three_candidates() {
    let candidates = recommendation_candidates(&library());
    let games = vec![
        GamePlaytime { appid: 20, played: true, hours: "3.5".to_string() },
        GamePlaytime { appid: 30, played: false, hours: "0.0".to_string() },
    ];
    let r = fallback_reply(&candidates, &games);
    assert!(!r.used_llm);
    assert_eq!(r.message, "Here are some suggestions from your backlog:");
    assert_eq!(
        triples(&r.picks),
        vec![
            (
                20,
                "Hades".to_string(),
                "Started but only 3.5h played — might be worth revisiting".to_string()
            ),
            (30, "Factorio".to_string(), "Unplayed — waiting in your backlog".to_string()),
            (
                50,
                "The Witcher 3: Wild Hunt".to_string(),
                "Unplayed — waiting in your backlog".to_string()
            ),
        ]
    );
}

#[test]
fn json_answer_gives_message_and_checked_picks() {
    let text = r#"{"message": "Try these", "picks": []}"#;
    let r = inference_reply(text, &vec![pick(20, "Hades", "go"), pick(7, "Ghost", "no")], &library());
    assert!(r.used_llm);
    assert_eq!(r.message, "Try these");
    assert_eq!(triples(&r.picks), vec![(20, "Hades".to_string(), "go".to_string())]);
}

#[test]
fn json_answer_without_message_has_empty_message() {
    let r = inference_reply(r#"{"picks": [], "message": 5}"#, &Vec::new(), &library());
    assert!(r.used_llm);
    assert_eq!(r.message, "");
    let r = inference_reply("[1, 2]", &Vec::new(), &library());
    assert_eq!(r.message, "");
}

#[test]
fn answer_that_is_not_json_is_salvaged() {
    let long: String = std::iter::repeat('é').take(600).collect();
    let r = inference_reply(&long, &vec![pick(20, "Hades", "go")], &library());
    assert!(r.used_llm);
    assert!(r.picks.is_empty());
    assert_eq!(r.message.chars().count(), 500);
    let short = salvage_reply("I think Hades");
    assert_eq!(short.message, "I think Hades");
}

#[test]
fn recommendation_flow_without_candidates() {
    let lib = vec![game(10, "Portal", Category::Completed)];
    let r = reply(recommend_next(&lib, &Vec::new(), &stores(), RecommendEvent::Started));
    assert!(!r.used_llm);
    assert!(r.picks.is_empty());
    assert_eq!(r.message, "You don't have any games in your backlog or endless categories yet.");
}

#[test]
fn recommendation_flow_steps() {
    let lib = library();
    assert!(matches!(
        recommend_next(&lib, &Vec::new(), &stores(), RecommendEvent::Started),
        RecommendAction::CheckSetup
    ));
    assert!(matches!(
        recommend_next(
            &lib,
            &Vec::new(),
            &stores(),
            RecommendEvent::SetupChecked { model_ready: true, server_ready: true }
        ),
        RecommendAction::StartServer
    ));
    let fallback = reply(recommend_next(
        &lib,
        &Vec::new(),
        &stores(),
        RecommendEvent::SetupChecked { model_ready: true, server_ready: false },
    ));
    assert_eq!(fallback.picks.len(), 3);
    assert!(!fallback.used_llm);
    match recommend_next(
        &lib,
        &Vec::new(),
        &stores(),
        RecommendEvent::ServerStarted { failure: Some("no binary".to_string()) },
    ) {
        RecommendAction::Fail(e) => assert_eq!(e, "Failed to start AI engine: no binary"),
        _ => panic!("expected a failure"),
    }
    assert!(matches!(
        recommend_next(&lib, &Vec::new(), &stores(), RecommendEvent::ServerStarted { failure: None }),
        RecommendAction::WaitForServer
    ));
    match recommend_next(
        &lib,
        &Vec::new(),
        &stores(),
        RecommendEvent::ServerReady { failure: Some("timeout".to_string()) },
    ) {
        RecommendAction::Fail(e) => assert_eq!(e, "AI engine not responding: timeout"),
        _ => panic!("expected a failure"),
    }
    match recommend_next(&lib, &Vec::new(), &stores(), RecommendEvent::ServerReady { failure: None }) {
        RecommendAction::RunInference { profiles } => {
            assert_eq!(profiles.iter().map(|p| p.appid).collect::<Vec<_>>(), vec![20, 30, 50, 60]);
            assert_eq!(profiles[0].genres, "Action, Roguelike");
            assert_eq!(profiles[1].category, "ENDLESS");
        }
        _ => panic!("expected the assistant to be asked"),
    }
    match recommend_next(
        &lib,
        &Vec::new(),
        &stores(),
        RecommendEvent::InferenceFinished {
            outcome: Err("boom".to_string()),
            raw_picks: Vec::new(),
        },
    ) {
        RecommendAction::Fail(e) => assert_eq!(e, "boom"),
        _ => panic!("expected a failure"),
    }
    let r = reply(recommend_next(
        &lib,
        &Vec::new(),
        &stores(),
        RecommendEvent::InferenceFinished {
            outcome: Ok(r#"{"message":"ok"}"#.to_string()),
            raw_picks: vec![pick(60, "x", "y")],
        },
    ));
    assert_eq!(r.message, "ok");
    assert_eq!(r.picks[0].title, "Dota 2");
}

#[test]
fn game_asked_about_must_be_classified() {
    assert_eq!(find_classification(&library(), 30).unwrap().name, "Factorio");
    assert_eq!(
        find_classification(&library(), 31).err(),
        Some("Game not found in classifications".to_string())
    );
}

#[test]
fn opinion_flow_keeps_rules_without_assistant() {
    let c = game(20, "Hades", Category::InProgress);
    let o = opinion(ambiguity_next(
        &c,
        &stores(),
        AmbiguityEvent::SetupChecked { model_ready: false, server_ready: true },
    ));
    assert_eq!(o.suggested_category, "IN_PROGRESS");
    assert_eq!(o.rationale, "AI not set up. Current: rule for Hades");
    assert!(!o.used_llm);
    let o = opinion(ambiguity_next(&c, &stores(), AmbiguityEvent::ServerStarted { ok: false }));
    assert_eq!(o.rationale, "Failed to start AI engine. Using rule-based classification.");
    let o = opinion(ambiguity_next(&c, &stores(), AmbiguityEvent::ServerReady { ok: false }));
    assert_eq!(o.rationale, "AI engine not ready. Using rule-based classification.");
    let o = opinion(ambiguity_next(
        &c,
        &stores(),
        AmbiguityEvent::InferenceFinished { outcome: Err("crash".to_string()) },
    ));
    assert_eq!(o.rationale, "AI error: crash. Using rule-based.");
    assert_eq!(o.suggested_category, "IN_PROGRESS");
    assert!(matches!(
        ambiguity_next(&c, &stores(), AmbiguityEvent::SetupChecked { model_ready: true, server_ready: true }),
        AmbiguityAction::StartServer
    ));
    assert!(matches!(
        ambiguity_next(&c, &stores(), AmbiguityEvent::ServerStarted { ok: true }),
        AmbiguityAction::WaitForServer
    ));
    match ambiguity_next(&c, &stores(), AmbiguityEvent::ServerReady { ok: true }) {
        AmbiguityAction::RunInference { query } => {
            assert_eq!(query.name, "Hades");
            assert_eq!(query.genres, "Action, Roguelike");
            assert_eq!(query.categories, "Single-player");
            assert_eq!(query.category, "IN_PROGRESS");
            assert_eq!(query.reason, "rule for Hades");
        }
        _ => panic!("expected the assistant to be asked"),
    }
    let other = game(30, "Factorio", Category::Endless);
    match ambiguity_next(&other, &stores(), AmbiguityEvent::ServerReady { ok: true }) {
        AmbiguityAction::RunInference { query } => {
            assert_eq!((query.genres.as_str(), query.categories.as_str()), ("Unknown", "Unknown"));
        }
        _ => panic!("expected the assistant to be asked"),
    }
}

#[test]
fn opinion_from_assistant_answer() {
    let c = game(30, "Factorio", Category::Endless);
    let o = opinion_from_answer(&c, r#"{"suggested_category":"COMPLETED","rationale":"rolled credits"}"#);
    assert_eq!(o.suggested_category, "COMPLETED");
    assert_eq!(o.rationale, "rolled credits");
    assert!(o.used_llm);
    let o = opinion_from_answer(&c, r#"{"other": 1}"#);
    assert_eq!(o.suggested_category, "IN_PROGRESS");
    assert_eq!(o.rationale, "No rationale provided");
    assert!(o.used_llm);
    let o = opinion_from_answer(&c, "not json at all");
    assert_eq!(o.suggested_category, "ENDLESS");
    assert_eq!(o.rationale, "Failed to parse AI response. Using rule-based.");
    assert!(!o.used_llm);
}

#[test]
fn names_are_lowercased_in_order() {
    assert_eq!(
        lowercase_names(&library()),
        vec!["portal", "hades", "factorio", "wallpaper engine", "the witcher 3: wild hunt", "dota 2"]
    );
}

#[test]
fn resolving_with_given_lowercased_names() {
    let cls = vec![game(1, "Alpha", Category::InProgress), game(2, "Beta Quest", Category::Endless)];
    let names = vec!["alpha".to_string(), "beta quest".to_string()];
    let by_id = resolve_pick_lowered(&pick(2, "whatever", "r"), &"whatever".to_string(), &cls, &names);
    assert_eq!(by_id.map(|p| (p.appid, p.title)), Some((2, "Beta Quest".to_string())));
    let by_name = resolve_pick_lowered(&pick(9, "ALPHA", "r"), &"alpha".to_string(), &cls, &names);
    assert_eq!(by_name.map(|p| (p.appid, p.title)), Some((1, "Alpha".to_string())));
    let by_prefix =
        resolve_pick_lowered(&pick(9, "x", "r"), &"beta quest deluxe".to_string(), &cls, &names);
    assert_eq!(by_prefix.map(|p| p.appid), Some(2));
    let too_short = resolve_pick_lowered(&pick(9, "x", "r"), &"beta".to_string(), &cls, &names);
    assert!(too_short.is_none());
}

#[test]
fn assistant_reply_keeps_message_and_checks_picks() {
    let r = assistant_reply(Some("hi".to_string()), &vec![pick(10, "?", "why")], &library());
    assert!(r.used_llm);
    assert_eq!(r.message, "hi");
    assert_eq!(triples(&r.picks), vec![(10, "Portal".to_string(), "why".to_string())]);
    let r = assistant_reply(None, &Vec::new(), &library());
    assert_eq!(r.message, "");
    assert!(r.picks.is_empty());
}

#[test]
fn opinion_from_read_parts() {
    let c = game(40, "Wallpaper Engine", Category::NotAGame);
    let o = opinion_from_parts(&c, true, Some("ENDLESS".to_string()), None);
    assert_eq!(o.suggested_category, "ENDLESS");
    assert_eq!(o.rationale, "No rationale provided");
    assert!(o.used_llm);
    let o = opinion_from_parts(&c, false, Some("ENDLESS".to_string()), Some("x".to_string()));
    assert_eq!(o.suggested_category, "NOT_A_GAME");
    assert!(!o.used_llm);
}
