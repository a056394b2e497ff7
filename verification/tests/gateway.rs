use launch_focus::gateway::find_app_index;

fn names(ns: &[&str]) -> Vec<String> {
    ns.iter().map(|n| n.to_string()).collect()
}

#[test]
fn the_first_exact_match_wins() {
    let running = names(&["Mail", "Safari", "Safari", "Terminal"]);
    assert_eq!(find_app_index(&running, &"Safari".to_string()), Some(1));
}

#[test]
fn matching_is_exact_and_case_sensitive() {
    let running = names(&["safari", "Safari Browser"]);
    assert_eq!(find_app_index(&running, &"Safari".to_string()), None);
}

#[test]
fn an_absent_application_matches_nothing() {
    let running = names(&["Mail", "Terminal"]);
    assert_eq!(find_app_index(&running, &"Safari".to_string()), None);
    assert_eq!(find_app_index(&Vec::new(), &"Safari".to_string()), None);
}
