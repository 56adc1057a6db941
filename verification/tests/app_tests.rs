use temple_stats::app::{Action, App, FetchState, InputMode, Key};
use temple_stats::dataset::Dataset;
use temple_stats::error::ErrorKind;
use temple_stats::skills::Skills;
use temple_stats::timestamp::Timestamp;

fn skills(overall: u64, hunter: u32) -> Skills {
    Skills {
        overall,
        attack: 1,
        defence: 2,
        strength: 3,
        hitpoints: 4,
        ranged: 5,
        prayer: 6,
        magic: 7,
        cooking: 8,
        woodcutting: 9,
        fletching: 10,
        fishing: 11,
        firemaking: 12,
        crafting: 13,
        smithing: 14,
        mining: 15,
        herblore: 16,
        agility: 17,
        thieving: 18,
        slayer: 19,
        farming: 20,
        runecraft: 21,
        hunter,
        construction: 23,
        ehp_bits: 0,
    }
}

fn history() -> Dataset {
    let mut dataset = Dataset::new();
    dataset.insert(Timestamp::parse("2023-01-01 00:00:00").unwrap(), skills(100, 10));
    dataset.insert(Timestamp::parse("2023-01-02 00:00:00").unwrap(), skills(200, 20));
    dataset
}

fn loaded(name: &str) -> App {
    let mut app = App::new(name.to_string());
    app.complete_fetch(Ok(history()));
    app
}

fn type_text(app: &mut App, text: &str) {
    for c in text.chars() {
        assert_eq!(app.handle_key(Key::Char(c)), Action::Continue);
    }
}

fn clear_input(app: &mut App) {
    while app.input().cursor() > 0 {
        assert_eq!(app.handle_key(Key::Backspace), Action::Continue);
    }
}

fn is_uninitialized(app: &App) -> bool {
    matches!(app.state(), FetchState::Uninitialized)
}

fn failed_name(app: &App) -> Option<String> {
    match app.state() {
        FetchState::Failed { username, .. } => Some(username.clone()),
        _ => None,
    }
}

#[test]
fn new_app_waits_for_its_first_fetch() {
    let app = App::new("Posemann".to_string());
    assert!(is_uninitialized(&app));
    assert_eq!(app.pending_fetch(), Some(&"Posemann".to_string()));
    assert_eq!(app.username(), "Posemann");
    assert_eq!(app.input().text(), "Posemann");
    assert_eq!(app.input().cursor(), 8);
    assert_eq!(app.input_mode(), InputMode::Normal);
    assert_eq!(app.skills().selected(), Some(0));
    assert_eq!(app.skills().items().len(), 24);
    assert_eq!(app.skills().items()[0], "Overall");
    assert_eq!(app.skills().items()[23], "Construction");
    assert_eq!(app.get_data(), None);
    assert_eq!(app.failure_message(), "Failed to get data for user: \"Posemann\".");
}

#[test]
fn first_fetch_success_loads_the_history() {
    let app = loaded("Posemann");
    match app.state() {
        FetchState::Loaded(dataset) => assert_eq!(*dataset, history()),
        other => panic!("expected loaded state, got {other:?}"),
    }
    assert_eq!(app.pending_fetch(), None);
    assert_eq!(app.get_data(), Some(vec![(1672531200, 100), (1672617600, 200)]));
}

#[test]
fn first_fetch_failure_names_the_player() {
    let mut app = App::new("Posemann".to_string());
    app.complete_fetch(Err(ErrorKind::TransportError("timed out".to_string())));
    match app.state() {
        FetchState::Failed { username, cause } => {
            assert_eq!(username, "Posemann");
            assert_eq!(*cause, ErrorKind::TransportError("timed out".to_string()));
        },
        other => panic!("expected failed state, got {other:?}"),
    }
    assert_eq!(app.get_data(), None);
    assert_eq!(app.failure_message(), "Failed to get data for user: \"Posemann\".");
}

#[test]
fn failed_refetch_names_the_attempted_player_and_drops_the_old_history() {
    let mut app = loaded("Posemann");
    assert!(app.get_data().is_some());
    assert_eq!(app.handle_key(Key::Char('e')), Action::Continue);
    clear_input(&mut app);
    type_text(&mut app, "attempted_name");
    assert_eq!(app.handle_key(Key::Enter), Action::Fetch("attempted_name".to_string()));
    assert_eq!(app.pending_fetch(), Some(&"attempted_name".to_string()));
    app.complete_fetch(Err(ErrorKind::TransportError("connection refused".to_string())));
    assert_eq!(failed_name(&app), Some("attempted_name".to_string()));
    assert_eq!(app.get_data(), None);
    assert_eq!(app.chart(), None);
    assert_eq!(app.failure_message(), "Failed to get data for user: \"attempted_name\".");
    assert_eq!(app.pending_fetch(), None);
}

#[test]
fn every_kind_of_failure_gives_the_failed_state() {
    for cause in [
        ErrorKind::TransportError("503".to_string()),
        ErrorKind::ParseError("2023-99-99 00:00:00".to_string()),
        ErrorKind::MalformedSnapshot,
    ] {
        let mut app = loaded("Posemann");
        app.handle_key(Key::Char('e'));
        assert_eq!(app.handle_key(Key::Enter), Action::Fetch("Posemann".to_string()));
        app.complete_fetch(Err(cause.clone()));
        match app.state() {
            FetchState::Failed { username, cause: kept } => {
                assert_eq!(username, "Posemann");
                assert_eq!(*kept, cause);
            },
            other => panic!("expected failed state, got {other:?}"),
        }
    }
}

#[test]
fn successful_refetch_replaces_the_history_wholesale() {
    let mut app = loaded("Posemann");
    app.handle_key(Key::Char('e'));
    type_text(&mut app, "2");
    assert_eq!(app.handle_key(Key::Enter), Action::Fetch("Posemann2".to_string()));
    let mut fresh = Dataset::new();
    fresh.insert(Timestamp::parse("2024-06-01 12:00:00").unwrap(), skills(777, 7));
    app.complete_fetch(Ok(fresh));
    assert_eq!(app.get_data(), Some(vec![(1717243200, 777)]));
    assert_eq!(app.username(), "Posemann2");
}

#[test]
fn refetch_after_failure_recovers() {
    let mut app = App::new("nobody".to_string());
    app.complete_fetch(Err(ErrorKind::TransportError("404".to_string())));
    app.handle_key(Key::Char('e'));
    clear_input(&mut app);
    type_text(&mut app, "somebody");
    assert_eq!(app.handle_key(Key::Enter), Action::Fetch("somebody".to_string()));
    app.complete_fetch(Ok(history()));
    assert!(app.get_data().is_some());
    assert!(matches!(app.state(), FetchState::Loaded(_)));
}

#[test]
fn keys_are_ignored_while_a_fetch_is_pending() {
    let mut app = App::new("Posemann".to_string());
    for key in [Key::Char('q'), Key::Char('e'), Key::Down, Key::Up, Key::Enter, Key::Esc] {
        assert_eq!(app.handle_key(key), Action::Continue);
    }
    assert_eq!(app.input_mode(), InputMode::Normal);
    assert_eq!(app.skills().selected(), Some(0));
    assert_eq!(app.pending_fetch(), Some(&"Posemann".to_string()));

    let mut app = loaded("Posemann");
    app.handle_key(Key::Char('e'));
    assert_eq!(app.handle_key(Key::Enter), Action::Fetch("Posemann".to_string()));
    assert_eq!(app.handle_key(Key::Char('e')), Action::Continue);
    assert_eq!(app.handle_key(Key::Enter), Action::Continue);
    assert_eq!(app.input_mode(), InputMode::Normal);
}

#[test]
fn an_outcome_without_a_pending_fetch_is_dropped() {
    let mut app = loaded("Posemann");
    app.complete_fetch(Err(ErrorKind::TransportError("late".to_string())));
    assert!(app.get_data().is_some());
    app.complete_fetch(Ok(Dataset::new()));
    assert!(app.get_data().is_some());
}

#[test]
fn q_quits_in_normal_mode_only() {
    let mut app = loaded("Posemann");
    assert_eq!(app.handle_key(Key::Char('q')), Action::Quit);
    app.handle_key(Key::Char('e'));
    assert_eq!(app.handle_key(Key::Char('q')), Action::Continue);
    assert_eq!(app.input().text(), "Posemannq");
}

#[test]
fn arrows_move_the_selection_in_a_circle() {
    let mut app = loaded("Posemann");
    app.handle_key(Key::Down);
    assert_eq!(app.skills().selected(), Some(1));
    app.handle_key(Key::Up);
    app.handle_key(Key::Up);
    assert_eq!(app.skills().selected(), Some(23));
    app.handle_key(Key::Down);
    assert_eq!(app.skills().selected(), Some(0));
}

#[test]
fn get_data_follows_the_selection() {
    let mut app = loaded("Posemann");
    for _ in 0..22 {
        app.handle_key(Key::Down);
    }
    assert_eq!(app.skills().selected(), Some(22));
    assert_eq!(app.get_data(), Some(vec![(1672531200, 10), (1672617600, 20)]));
}

#[test]
fn get_data_of_an_empty_history_is_none() {
    let mut app = App::new("Posemann".to_string());
    app.complete_fetch(Ok(Dataset::new()));
    assert!(matches!(app.state(), FetchState::Loaded(_)));
    assert_eq!(app.get_data(), None);
    assert_eq!(app.chart(), None);
    assert_eq!(app.failure_message(), "Failed to get data for user: \"Posemann\".");
}

#[test]
fn editing_keys_change_the_input_line() {
    let mut app = loaded("abc");
    app.handle_key(Key::Char('e'));
    assert_eq!(app.input_mode(), InputMode::Editing);
    app.handle_key(Key::Left);
    app.handle_key(Key::Char('X'));
    assert_eq!(app.input().text(), "abXc");
    assert_eq!(app.input().cursor(), 3);
    app.handle_key(Key::Backspace);
    assert_eq!(app.input().text(), "abc");
    app.handle_key(Key::Right);
    app.handle_key(Key::Right);
    assert_eq!(app.input().cursor(), 3);
    app.handle_key(Key::Esc);
    assert_eq!(app.input_mode(), InputMode::Normal);
    assert_eq!(app.username(), "abc");
}

#[test]
fn editing_keys_do_nothing_in_normal_mode() {
    let mut app = loaded("abc");
    for key in [Key::Char('x'), Key::Backspace, Key::Left, Key::Right, Key::Enter, Key::Esc, Key::Other] {
        assert_eq!(app.handle_key(key), Action::Continue);
    }
    assert_eq!(app.input().text(), "abc");
    assert_eq!(app.input().cursor(), 3);
    assert_eq!(app.input_mode(), InputMode::Normal);
    assert_eq!(app.pending_fetch(), None);
}

#[test]
fn arrows_up_and_down_do_nothing_while_editing() {
    let mut app = loaded("abc");
    app.handle_key(Key::Char('e'));
    app.handle_key(Key::Down);
    app.handle_key(Key::Up);
    app.handle_key(Key::Other);
    assert_eq!(app.skills().selected(), Some(0));
    assert_eq!(app.input().text(), "abc");
}

#[test]
fn chart_of_the_app_is_that_of_its_history() {
    let app = loaded("Posemann");
    let chart = app.chart().unwrap();
    assert_eq!(chart.name, "Overall");
    assert_eq!(chart.selected, vec![(1672531200, 100), (1672617600, 200)]);
    assert_eq!(chart.comparison, vec![(1672531200, 10), (1672617600, 20)]);
    assert_eq!(chart.time_labels, vec!["2023-01-01", "2023-01-01", "2023-01-02"]);
    assert_eq!(chart.value_labels, vec!["            0", "          200"]);
}
