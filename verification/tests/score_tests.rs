use flyrust::score::ScoreLedger;

fn ts() -> String {
    String::from("2024-01-02 03:04:05")
}

#[test]
fn blank_names_create_no_entry() {
    let mut l = ScoreLedger::new();
    assert!(!l.submit("", 5, ts()));
    assert_eq!(l.entries.len(), 0);
    assert!(!l.submit("   ", 5, ts()));
    assert!(!l.submit(" \t\n ", 5, ts()));
    assert_eq!(l.entries.len(), 0);
}

#[test]
fn names_are_stored_trimmed() {
    let mut l = ScoreLedger::new();
    assert!(l.submit("  Bob  ", 2, ts()));
    assert_eq!(l.entries.len(), 1);
    assert_eq!(l.entries[0].name, "Bob");
    assert_eq!(l.entries[0].score, 2);
    assert_eq!(l.entries[0].created_at, "2024-01-02 03:04:05");
}

#[test]
fn twelve_submissions_keep_the_ten_best() {
    let mut l = ScoreLedger::new();
    assert!(!l.submit("", 5, ts()));
    assert_eq!(l.entries.len(), 0);
    assert!(l.submit("Ann", 5, ts()));
    // eleven more submissions of increasing score
    for s in 6..=16 {
        let name = format!("Player{}", s);
        assert!(l.submit(name.as_str(), s, ts()));
    }
    assert_eq!(l.entries.len(), 10);
    // the two lowest-scoring entries are gone
    assert!(l.entries.iter().all(|e| e.name != "Ann"));
    assert!(l.entries.iter().all(|e| e.name != "Player6"));
    // strictly descending by score: 16 down to 7
    for (i, e) in l.entries.iter().enumerate() {
        assert_eq!(e.score, 16 - i as u32);
    }
    for w in l.entries.windows(2) {
        assert!(w[0].score > w[1].score);
    }
}

#[test]
fn ranked_list_is_ordered_by_score_descending() {
    let mut l = ScoreLedger::new();
    l.submit("low", 1, ts());
    l.submit("high", 9, ts());
    l.submit("mid", 4, ts());
    let r = l.ranked_list();
    assert_eq!(r.len(), 3);
    assert_eq!(r[0].name, "high");
    assert_eq!(r[1].name, "mid");
    assert_eq!(r[2].name, "low");
}

#[test]
fn an_equal_score_ranks_below_the_sitting_entry() {
    let mut l = ScoreLedger::new();
    l.submit("first", 5, ts());
    l.submit("second", 5, ts());
    assert_eq!(l.entries[0].name, "first");
    assert_eq!(l.entries[1].name, "second");
}

#[test]
fn render_ranking_lays_out_rank_score_name_and_timestamp() {
    let mut l = ScoreLedger::new();
    l.submit("Ann", 5, ts());
    assert_eq!(
        l.render_ranking(),
        "\n           1      5       Ann       2024-01-02 03:04:05"
    );
    l.submit("Bo", 12, String::from("ts"));
    assert_eq!(
        l.render_ranking(),
        "\n           1     12        Bo               ts         \n           2      5       Ann       2024-01-02 03:04:05"
    );
}

#[test]
fn an_empty_ledger_renders_nothing() {
    let l = ScoreLedger::new();
    assert_eq!(l.render_ranking(), "");
}
