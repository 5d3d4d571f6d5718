use planet_view::progress::{ProgressState, ProgressUpdate};

#[test]
fn label_change_resets_exactly_once() {
    let mut state = ProgressState::new();
    let reports = [("loading", 1usize, 10usize), ("loading", 5, 10), ("processing", 0, 20)];
    let mut resets = Vec::new();
    for (index, (label, completed, total)) in reports.iter().enumerate() {
        let update = state.observe(label, *completed, *total);
        if update.reset {
            resets.push(index);
        }
    }
    assert_eq!(resets, vec![2]);
}

#[test]
fn first_report_shows_its_caption_without_reset() {
    let mut state = ProgressState::new();
    let update = state.observe("loading", 1, 10);
    assert_eq!(update.caption, Some("loading".to_string()));
    assert!(!update.reset);
    assert_eq!(update.length, 10);
    assert_eq!(update.position, 1);
}

#[test]
fn repeated_label_gives_no_caption() {
    let mut state = ProgressState::new();
    state.observe("loading", 1, 10);
    let update = state.observe("loading", 5, 10);
    assert_eq!(update.caption, None);
    assert!(!update.reset);
    assert_eq!(update.position, 5);
}

#[test]
fn new_label_gives_caption_and_reset() {
    let mut state = ProgressState::new();
    state.observe("loading", 1, 10);
    state.observe("loading", 5, 10);
    let update = state.observe("processing", 0, 20);
    assert_eq!(update.caption, Some("processing".to_string()));
    assert!(update.reset);
    assert_eq!(update.length, 20);
    assert_eq!(update.position, 0);
}

#[test]
fn returning_to_an_earlier_label_is_a_boundary() {
    let mut state = ProgressState::new();
    state.observe("a", 0, 1);
    assert!(state.observe("b", 0, 1).reset);
    let back = state.observe("a", 0, 1);
    assert!(back.reset);
    assert_eq!(back.caption, Some("a".to_string()));
}

#[test]
fn total_may_change_between_reports() {
    let mut state = ProgressState::new();
    assert_eq!(state.observe("tiles", 3, 10).length, 10);
    assert_eq!(state.observe("tiles", 4, 250).length, 250);
    assert_eq!(state.observe("tiles", 5, 7).length, 7);
}

#[test]
fn completed_may_go_down() {
    let mut state = ProgressState::new();
    assert_eq!(state.observe("tiles", 8, 10).position, 8);
    let update = state.observe("tiles", 2, 10);
    assert_eq!(update.position, 2);
    assert!(!update.reset);
    assert_eq!(update.caption, None);
}

#[test]
fn completed_may_exceed_total() {
    let mut state = ProgressState::new();
    let update = state.observe("tiles", 12, 10);
    assert_eq!(update.position, 12);
    assert_eq!(update.length, 10);
}

#[test]
fn empty_label_is_a_label() {
    let mut state = ProgressState::new();
    let first = state.observe("", 0, 0);
    assert_eq!(first.caption, Some(String::new()));
    assert!(!first.reset);
    let second = state.observe("", 0, 0);
    assert_eq!(second.caption, None);
    assert!(state.observe("x", 0, 0).reset);
}

#[test]
fn update_carries_all_four_parts() {
    let mut state = ProgressState::new();
    state.observe("loading", 9, 10);
    assert_eq!(
        state.observe("processing", 3, 20),
        ProgressUpdate {
            caption: Some("processing".to_string()),
            reset: true,
            length: 20,
            position: 3,
        }
    );
    assert_eq!(
        state.observe("processing", 4, 21),
        ProgressUpdate {
            caption: None,
            reset: false,
            length: 21,
            position: 4,
        }
    );
}

#[test]
fn last_label_follows_the_reports() {
    let mut state = ProgressState::new();
    assert_eq!(state.last_label(), None);
    state.observe("loading", 1, 10);
    assert_eq!(state.last_label(), Some("loading".to_string()));
    state.observe("processing", 0, 20);
    assert_eq!(state.last_label(), Some("processing".to_string()));
}
