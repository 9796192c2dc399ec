use schedule_graph::prefix::starts_with;

#[test]
fn starts_with_plain_names() {
    assert!(starts_with("game::physics::step", "game::physics"));
    assert!(starts_with("game::physics", "game::physics"));
    assert!(starts_with("game::physics", ""));
    assert!(starts_with("", ""));
    assert!(!starts_with("", "g"));
    assert!(!starts_with("game", "game::physics"));
    assert!(!starts_with("game::render", "game::physics"));
    assert!(!starts_with("xgame::physics", "game::physics"));
}

#[test]
fn starts_with_knows_no_case_and_no_patterns() {
    assert!(!starts_with("Game::physics", "game"));
    assert!(!starts_with("game::physics", "GAME"));
    assert!(!starts_with("game::physics", "game::*"));
    assert!(!starts_with("game::physics", "g.me"));
    assert!(starts_with("g.me::physics", "g.me"));
    assert!(!starts_with(" game", "game"));
}

#[test]
fn starts_with_compares_whole_characters() {
    assert!(starts_with("éclair::bake", "é"));
    assert!(starts_with("éclair::bake", "éclair"));
    assert!(!starts_with("éclair::bake", "e"));
    assert!(!starts_with("eclair::bake", "é"));
    // "é" is the bytes C3 A9, "ê" the bytes C3 AA: they share the first byte only.
    assert!(!starts_with("équipe", "ê"));
    // One character and the same letter followed by a combining accent differ.
    assert!(!starts_with("e\u{301}clair", "é"));
    assert!(starts_with("e\u{301}clair", "e"));
    assert!(starts_with("日本語::系", "日本"));
    assert!(!starts_with("日本語::系", "日語"));
    assert!(starts_with("🦀::crab", "🦀"));
    assert!(!starts_with("🦀::crab", "🦐"));
}

#[test]
fn starts_with_agrees_with_the_standard_library() {
    let texts = [
        "", "a", "ab", "abc", "game", "game::physics", "game::physics::step", "Game", "é", "éa",
        "e\u{301}", "日本語", "日本", "🦀🦐", "🦀", "::", "a::b", " a",
    ];
    for text in texts {
        for prefix in texts {
            assert_eq!(starts_with(text, prefix), text.starts_with(prefix), "{text:?} {prefix:?}");
        }
    }
}
