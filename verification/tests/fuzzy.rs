use fuzzy_matcher::skim::SkimMatcherV2;
use fuzzy_matcher::FuzzyMatcher;
use keyvault_tui::fuzzy::{fuzzy_filter, fuzzy_positions, rank_by_score, score_all};

fn names(list: &[&str]) -> Vec<String> {
    list.iter().map(|s| s.to_string()).collect()
}

fn secrets() -> Vec<String> {
    names(&["production-db-password", "staging-db-password", "api-key-google", "api-key-aws"])
}

fn sorted(mut list: Vec<String>) -> Vec<String> {
    list.sort();
    list
}

#[test]
fn query_db_shows_exactly_the_two_database_passwords() {
    let shown = fuzzy_filter(&secrets(), "db");
    assert_eq!(sorted(shown), names(&["production-db-password", "staging-db-password"]));
}

#[test]
fn query_google_shows_exactly_one_secret() {
    assert_eq!(fuzzy_filter(&secrets(), "google"), names(&["api-key-google"]));
}

#[test]
fn query_without_match_shows_nothing() {
    assert_eq!(fuzzy_filter(&secrets(), "xyz123"), Vec::<String>::new());
}

#[test]
fn empty_query_shows_all_in_source_order() {
    assert_eq!(fuzzy_filter(&secrets(), ""), secrets());
    assert_eq!(fuzzy_positions(&secrets(), ""), vec![0, 1, 2, 3]);
}

#[test]
fn empty_query_keeps_duplicates_and_order() {
    let list = names(&["b", "a", "b", "", "zeta"]);
    assert_eq!(fuzzy_filter(&list, ""), list);
    assert_eq!(fuzzy_filter(&Vec::new(), ""), Vec::<String>::new());
    assert_eq!(fuzzy_filter(&Vec::new(), "q"), Vec::<String>::new());
}

#[test]
fn every_shown_name_matches_and_every_match_is_shown() {
    let list = names(&["alpha", "beta", "alphabet", "gamma", "ALPHA", "a-l-p-h-a", "plah"]);
    let matcher = SkimMatcherV2::default();
    let shown = fuzzy_filter(&list, "alp");
    for name in &shown {
        assert!(matcher.fuzzy_match(name, "alp").is_some());
    }
    let expected: Vec<String> =
        list.iter().filter(|n| matcher.fuzzy_match(n, "alp").is_some()).cloned().collect();
    assert_eq!(sorted(shown), sorted(expected));
}

#[test]
fn shown_names_come_best_score_first() {
    let list = names(&["xaxbxc", "abc", "a-b-c", "zzz", "abcabc"]);
    let matcher = SkimMatcherV2::default();
    let shown = fuzzy_filter(&list, "abc");
    let scores: Vec<i64> =
        shown.iter().map(|n| matcher.fuzzy_match(n, "abc").unwrap()).collect();
    for pair in scores.windows(2) {
        assert!(pair[0] >= pair[1]);
    }
    assert!(!shown.contains(&"zzz".to_string()));
    assert_eq!(shown.len(), 4);
}

#[test]
fn scores_are_those_of_the_skim_matcher() {
    let list = names(&["production-db-password", "api-key-aws", "db"]);
    let matcher = SkimMatcherV2::default();
    let expected: Vec<Option<i64>> = list.iter().map(|n| matcher.fuzzy_match(n, "db")).collect();
    let scores = score_all(&list, "db");
    assert_eq!(scores, expected);
    assert!(scores[0].is_some());
    assert!(scores[1].is_none());
    assert!(scores[2].is_some());
}

#[test]
fn ranking_is_by_score_then_by_position() {
    let scores = vec![Some(5), None, Some(9), Some(5), Some(1)];
    assert_eq!(rank_by_score(&scores), vec![2, 0, 3, 4]);
}

#[test]
fn ranking_keeps_source_order_among_equal_scores() {
    let scores = vec![Some(7), Some(7), Some(7), None, Some(7)];
    assert_eq!(rank_by_score(&scores), vec![0, 1, 2, 4]);
    assert_eq!(rank_by_score(&vec![None, None]), Vec::<usize>::new());
    assert_eq!(rank_by_score(&Vec::new()), Vec::<usize>::new());
    assert_eq!(rank_by_score(&vec![Some(-3), Some(0), Some(i64::MAX), Some(i64::MIN)]), vec![2, 1, 0, 3]);
}

#[test]
fn positions_point_at_the_shown_names() {
    let list = secrets();
    let order = fuzzy_positions(&list, "key");
    let shown = fuzzy_filter(&list, "key");
    let picked: Vec<String> = order.iter().map(|&i| list[i].clone()).collect();
    assert_eq!(picked, shown);
    assert_eq!(sorted(shown), names(&["api-key-aws", "api-key-google"]));
}
