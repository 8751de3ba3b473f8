use typefast::constants::{Action, Page};
use typefast::controller::{Controller, Key, StoreCmd};
use typefast::record::Record;
use typefast::timer::CountdownTimer;
use typefast::words::{build_passage, join_words, lowercase_all};

fn small_corpus() -> Vec<String> {
    vec!["HELLO".to_string(), "World".to_string(), "TYPE".to_string()]
}

/// Performs the store commands against an in-memory store.
fn run_store(controller: &mut Controller, store: &mut Vec<Record>, cmds: Vec<StoreCmd>) {
    for cmd in cmds {
        match cmd {
            StoreCmd::SelectAll => {
                controller.records_fetched(Ok(store.clone()));
            }
            StoreCmd::Insert { wpm, cpm, date } => {
                let id: i32 = store.len() as i32 + 1;
                store.push(Record { id, wpm, cpm, date });
            }
            StoreCmd::Close => {}
        }
    }
}

#[test]
fn test_menu_toggle_twice_returns_to_start() {
    let mut controller = Controller::new(small_corpus());
    assert_eq!(controller.state.get_menu_index(), 0);
    controller.handle_action(Action::MenuAction);
    assert_eq!(controller.state.get_menu_index(), 1);
    controller.handle_action(Action::MenuAction);
    assert_eq!(controller.state.get_menu_index(), 0);
}

#[test]
fn test_countdown_resets_stats_and_yields_passage() {
    let mut controller = Controller::new(small_corpus());
    controller.state.set_paragraph("abc".to_string());
    controller.state.set_position(3);
    controller.state.set_char_count(2);
    controller.state.set_word_count(1);
    let cmds = controller.handle_action(Action::ChangePage(Page::CountDown));
    assert!(cmds.is_empty());
    assert_eq!(controller.state.get_position(), 0);
    assert_eq!(controller.state.get_char_count(), 0);
    assert_eq!(controller.state.get_word_count(), 0);
    assert!(controller.state.get_paragraph().len() > 0);
    assert_eq!(controller.state.get_page(), &Page::CountDown);
    assert_eq!(controller.state.get_next_page(), &Page::Game);
    assert!(controller.timer.is_running());
    assert_eq!(controller.timer.remaining(), 3);
}

#[test]
fn test_game_result_inserts_one_record_with_current_speeds() {
    let mut controller = Controller::new(small_corpus());
    controller.state.set_word_speed(42);
    controller.state.set_char_speed(99);
    let cmds = controller.handle_action(Action::ChangePage(Page::GameResult));
    assert_eq!(cmds.len(), 1);
    match &cmds[0] {
        StoreCmd::Insert { wpm, cpm, date } => {
            assert_eq!(*wpm, 42);
            assert_eq!(*cpm, 99);
            assert!(date.len() > 0);
        }
        other => panic!("expected an insert, got {:?}", other),
    }
    assert_eq!(controller.state.get_page(), &Page::GameResult);
    assert_eq!(controller.state.get_next_page(), &Page::CountDown);
    assert!(!controller.timer.is_running());
}

#[test]
fn test_records_fetch_failure_sets_error() {
    let mut controller = Controller::new(small_corpus());
    controller.records_fetched(Err("Could not get records".to_string()));
    assert_eq!(controller.state.get_error(), "Could not get records");
    assert!(controller.state.get_records().is_empty());
}

#[test]
fn test_timer_double_start_keeps_single_countdown() {
    let mut timer = CountdownTimer::new();
    timer.start(5);
    assert!(timer.is_running());
    assert_eq!(timer.remaining(), 5);
    timer.tick_second();
    assert_eq!(timer.remaining(), 4);
    // A second start while running must not rearm the countdown.
    timer.start(10);
    assert_eq!(timer.remaining(), 4);
    timer.tick_second();
    assert_eq!(timer.remaining(), 3);
}

#[test]
fn test_timer_stop_and_expiry() {
    let mut timer = CountdownTimer::new();
    timer.start(2);
    timer.stop();
    assert!(!timer.is_running());
    assert_eq!(timer.remaining(), 2);
    // A stopped timer no longer counts down.
    timer.tick_second();
    assert_eq!(timer.remaining(), 2);
    timer.start(1);
    timer.tick_second();
    timer.tick_second();
    assert_eq!(timer.remaining(), 0);
}

#[test]
fn test_passage_is_lowercased() {
    // A one-word corpus makes the sampled passage deterministic.
    let corpus = vec!["HELLO".to_string()];
    let passage = build_passage(&corpus);
    assert_eq!(passage, "hello");
}

#[test]
fn test_lowercase_all_words() {
    let words = vec!["HeLLo".to_string(), "WORLD".to_string(), "ok".to_string()];
    let lowered = lowercase_all(&words);
    assert_eq!(lowered, vec!["hello", "world", "ok"]);
}

#[test]
fn test_join_words_single_spaces() {
    let words = vec!["a".to_string(), "b".to_string(), "c".to_string()];
    assert_eq!(join_words(&words), "a b c");
    let one = vec!["solo".to_string()];
    assert_eq!(join_words(&one), "solo");
    let none: Vec<String> = Vec::new();
    assert_eq!(join_words(&none), "");
}

#[test]
fn test_mismatch_leaves_state_alone() {
    let mut controller = Controller::new(small_corpus());
    controller.state.set_paragraph("ab".to_string());
    controller.handle_action(Action::CharInput('b'));
    assert_eq!(controller.state.get_position(), 0);
    assert_eq!(controller.state.get_char_count(), 0);
    assert_eq!(controller.state.get_word_count(), 0);
}

#[test]
fn test_exhausted_passage_stops_session() {
    let mut controller = Controller::new(small_corpus());
    controller.handle_action(Action::Init);
    assert!(controller.state.get_is_running());
    controller.state.set_paragraph("a".to_string());
    controller.handle_action(Action::CharInput('a'));
    assert_eq!(controller.state.get_position(), 1);
    assert!(controller.state.get_is_running());
    // Input past the end of the passage stops the session.
    controller.handle_action(Action::CharInput('a'));
    assert_eq!(controller.state.get_position(), 1);
    assert!(!controller.state.get_is_running());
}

#[test]
fn test_end_to_end_session() {
    let mut controller = Controller::new(small_corpus());
    let mut store: Vec<Record> = Vec::new();

    // Initial state: menu page, first entry selected.
    let cmds = controller.handle_action(Action::Init);
    run_store(&mut controller, &mut store, cmds);
    assert_eq!(controller.state.get_page(), &Page::Menu);
    assert_eq!(controller.state.get_menu_index(), 0);

    // Enter starts the countdown.
    let action = controller.handle_key_stroke(Key::Enter);
    assert_eq!(action, Action::ChangePage(Page::CountDown));
    let cmds = controller.handle_action(action);
    run_store(&mut controller, &mut store, cmds);
    assert_eq!(controller.state.get_page(), &Page::CountDown);

    // The countdown elapses: one tick per second until the game starts.
    for _ in 0..3 {
        controller.tick_second();
        let cmds = controller.on_tick();
        run_store(&mut controller, &mut store, cmds);
    }
    assert_eq!(controller.state.get_page(), &Page::Game);
    let passage = controller.state.get_paragraph().clone();
    assert!(passage.len() > 0);

    // Typing the whole passage correctly advances the cursor to its end.
    for ch in passage.chars() {
        let cmds = controller.handle_action(Action::CharInput(ch));
        run_store(&mut controller, &mut store, cmds);
    }
    assert_eq!(
        controller.state.get_position() as usize,
        passage.chars().count()
    );
    assert!(controller.state.get_is_running());

    // The game duration elapses; the session moves to the result page and
    // exactly one record is persisted.
    for _ in 0..60 {
        controller.tick_second();
        let cmds = controller.on_tick();
        run_store(&mut controller, &mut store, cmds);
    }
    assert_eq!(controller.state.get_page(), &Page::GameResult);
    assert_eq!(store.len(), 1);
    assert!(store[0].wpm >= 0);

    // Enter on the result page returns to the menu; no further record appears.
    let action = controller.handle_key_stroke(Key::Enter);
    assert_eq!(action, Action::ChangePage(Page::Menu));
    let cmds = controller.handle_action(action);
    run_store(&mut controller, &mut store, cmds);
    assert_eq!(controller.state.get_page(), &Page::Menu);
    assert_eq!(store.len(), 1);
}

#[test]
fn test_passage_samples_a_hundred_words() {
    // With more corpus words than the sample size, the passage holds exactly
    // one hundred of them, each drawn from the corpus.
    let corpus: Vec<String> = (0..150).map(|i| format!("w{}", i)).collect();
    let passage = build_passage(&corpus);
    let words: Vec<&str> = passage.split(' ').collect();
    assert_eq!(words.len(), 100);
    assert!(words.iter().all(|w| corpus.iter().any(|c| c == w)));
}
