use backlog_organizer::cache::{
    cached_library, classifications_by_appid, require_not_cancelled, LIBRARY_CACHE_MAX_AGE_SECS,
};
use backlog_organizer::category::{Category, Classification};
use backlog_organizer::collections::{group_by_category, require_steam_closed};
use backlog_organizer::setup::{setup_plan, SetupStep};
use backlog_organizer::summary::summarize;
use backlog_organizer::text::{first_chars, join_with_comma, tag_list_text};

fn game(appid: u64, name: &str, category: Category) -> Classification {
    Classification {
        appid,
        name: name.to_string(),
        category,
        reason: format!("rule for {name}"),
    }
}

fn library() -> Vec<Classification> {
    vec![
        game(10, "Portal", Category::Completed),
        game(20, "Hades", Category::InProgress),
        game(30, "Factorio", Category::Endless),
        game(40, "Wallpaper Engine", Category::NotAGame),
        game(50, "Celeste", Category::InProgress),
        game(60, "Dota 2", Category::Endless),
        game(70, "Half-Life", Category::Completed),
    ]
}

#[test]
fn category_keys_are_the_stored_names() {
    assert_eq!(Category::Completed.key(), "COMPLETED");
    assert_eq!(Category::InProgress.key(), "IN_PROGRESS");
    assert_eq!(Category::Endless.key(), "ENDLESS");
    assert_eq!(Category::NotAGame.key(), "NOT_A_GAME");
}

#[test]
fn summary_counts_each_category() {
    let s = summarize(&library());
    assert_eq!(s.total, 7);
    assert_eq!(s.completed, 2);
    assert_eq!(s.in_progress, 2);
    assert_eq!(s.endless, 2);
    assert_eq!(s.not_a_game, 1);
    assert_eq!(s.completed + s.in_progress + s.endless + s.not_a_game, s.total);
}

#[test]
fn summary_of_empty_library_is_zero() {
    let s = summarize(&Vec::new());
    assert_eq!(
        (s.total, s.completed, s.in_progress, s.endless, s.not_a_game),
        (0, 0, 0, 0, 0)
    );
}

#[test]
fn groups_follow_categories_in_order() {
    let g = group_by_category(&library());
    assert_eq!(g.completed, vec![10, 70]);
    assert_eq!(g.in_progress, vec![20, 50]);
    assert_eq!(g.endless, vec![30, 60]);
    assert_eq!(g.not_a_game, vec![40]);
    assert_eq!(g.completed.len() + g.in_progress.len() + g.endless.len() + g.not_a_game.len(), 7);
    let entries = g.into_entries();
    let keys: Vec<&str> = entries.iter().map(|(k, _)| k.as_str()).collect();
    assert_eq!(keys, vec!["COMPLETED", "IN_PROGRESS", "ENDLESS", "NOT_A_GAME"]);
    assert_eq!(entries[3].1, vec![40]);
}

#[test]
fn groups_of_empty_library_are_all_present_and_empty() {
    let entries = group_by_category(&Vec::new()).into_entries();
    assert_eq!(entries.len(), 4);
    assert!(entries.iter().all(|(_, ids)| ids.is_empty()));
}

#[test]
fn writing_needs_steam_closed() {
    assert_eq!(require_steam_closed(false), Ok(()));
    assert_eq!(
        require_steam_closed(true),
        Err("Steam is currently running. Please close Steam before writing collections.".to_string())
    );
}

#[test]
fn cached_library_only_for_same_account_and_fresh() {
    assert_eq!(cached_library("765", "765", false, vec![1, 2]), Some(vec![1, 2]));
    assert_eq!(cached_library("765", "766", false, vec![1, 2]), None);
    assert_eq!(cached_library("765", "765", true, vec![1, 2]), None);
    assert_eq!(LIBRARY_CACHE_MAX_AGE_SECS, 24 * 60 * 60);
}

#[test]
fn cancelled_sync_is_an_error() {
    assert_eq!(require_not_cancelled(false), Ok(()));
    assert_eq!(require_not_cancelled(true), Err("Sync cancelled".to_string()));
}

#[test]
fn saved_classifications_keyed_by_appid_last_wins() {
    let list = vec![
        game(1, "Old name", Category::InProgress),
        game(2, "Other", Category::Endless),
        game(1, "New name", Category::Completed),
    ];
    let m = classifications_by_appid(list);
    assert_eq!(m.len(), 2);
    assert_eq!(m[&1].name, "New name");
    assert_eq!(m[&1].category, Category::Completed);
    assert_eq!(m[&2].name, "Other");
}

#[test]
fn join_and_tag_text() {
    let tags = vec!["Action".to_string(), "RPG".to_string(), "Indie".to_string()];
    assert_eq!(join_with_comma(&tags), "Action, RPG, Indie");
    assert_eq!(join_with_comma(&Vec::new()), "");
    assert_eq!(join_with_comma(&vec!["Solo".to_string()]), "Solo");
    assert_eq!(tag_list_text(Some(&tags), "Unknown"), "Action, RPG, Indie");
    assert_eq!(tag_list_text(None, "Unknown"), "Unknown");
    assert_eq!(tag_list_text(None, ""), "");
}

#[test]
fn first_chars_counts_characters() {
    assert_eq!(first_chars("héllo wörld", 4), "héll");
    assert_eq!(first_chars("abc", 10), "abc");
    assert_eq!(first_chars("", 3), "");
}

#[test]
fn setup_downloads_only_what_is_missing() {
    assert_eq!(setup_plan(true, true), Vec::<SetupStep>::new());
    assert_eq!(setup_plan(false, true), vec![SetupStep::DownloadServer]);
    assert_eq!(setup_plan(true, false), vec![SetupStep::DownloadModel]);
    assert_eq!(
        setup_plan(false, false),
        vec![SetupStep::DownloadServer, SetupStep::DownloadModel]
    );
}
