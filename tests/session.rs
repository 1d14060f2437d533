use rfz::app::App;
use rfz::handler::{handle_key_events, Key};
use rfz::search_engine::SearchEngine;

/// Ticks until the matcher has taken up `total` items and has no work left.
fn settle(app: &mut App, total: u32) {
    for _ in 0..1000 {
        let status = app.tick();
        if !status.running && app.get_total_items() == total {
            return;
        }
    }
    panic!("the matcher did not settle");
}

fn session_with(items: &[&str]) -> App {
    let mut app = App::default();
    for item in items {
        app.add_item(item.to_string());
    }
    settle(&mut app, items.len() as u32);
    app
}

fn type_text(app: &mut App, text: &str) {
    for c in text.chars() {
        app.update_query(c);
    }
}

#[test]
fn default_session_state() {
    let app = App::default();
    assert!(app.running);
    assert_eq!(app.get_list_state(), Some(0));
    assert_eq!(app.get_top(), 1000);
    assert_eq!(app.get_matched_items(), 0);
    assert_eq!(app.get_total_items(), 0);
    assert_eq!(app.get_state_area().text(), "");
}

#[test]
fn empty_query_matches_everything() {
    let app = session_with(&["asd", "dqasd", "adq"]);
    assert_eq!(app.get_matched_items(), 3);
    assert_eq!(app.get_total_items(), 3);
    let frame = app.get_items_with_indices();
    assert_eq!(frame.len(), 3);
    assert!(frame.iter().all(|(_, indices)| indices.is_empty()));
}

#[test]
fn pattern_as_matches_two_items() {
    let mut app = session_with(&["asd", "dqasd", "adq"]);
    type_text(&mut app, "as");
    settle(&mut app, 3);
    assert_eq!(app.get_matched_items(), 2);
    let frame = app.get_items_with_indices();
    let texts: Vec<&str> = frame.iter().map(|(t, _)| t.as_str()).collect();
    assert!(texts.contains(&"asd"));
    assert!(texts.contains(&"dqasd"));
    let asd = frame.iter().find(|(t, _)| t == "asd").unwrap();
    assert_eq!(asd.1, vec![0, 1]);
}

#[test]
fn pattern_l_matches_nothing() {
    let mut app = session_with(&["asd", "dqasd", "adq"]);
    app.update_query('l');
    settle(&mut app, 3);
    assert_eq!(app.get_matched_items(), 0);
    assert!(app.get_items_with_indices().is_empty());
}

#[test]
fn clearing_the_query_restores_all_items() {
    let mut app = session_with(&["asd", "dqasd", "adq"]);
    type_text(&mut app, "as");
    settle(&mut app, 3);
    assert_eq!(app.get_matched_items(), 2);
    app.delete();
    app.delete();
    assert_eq!(app.get_state_area().text(), "");
    settle(&mut app, 3);
    assert_eq!(app.get_matched_items(), app.get_total_items());
    let frame = app.get_items_with_indices();
    assert_eq!(frame.len(), 3);
    assert!(frame.iter().all(|(_, indices)| indices.is_empty()));
}

#[test]
fn navigating_past_the_matches_resolves_to_nothing() {
    let mut app = session_with(&["asd", "dqasd", "adq"]);
    assert_eq!(app.get_matched_items(), 3);
    assert_eq!(app.get_list_state(), Some(0));
    for _ in 0..5 {
        app.increment_counter();
    }
    assert_eq!(app.get_list_state(), Some(5));
    assert_eq!(app.selected(), None);
    app.decrement_counter();
    assert_eq!(app.get_list_state(), Some(4));
    assert_eq!(app.selected(), None);
}

#[test]
fn stepping_down_from_no_selection() {
    let style = ratatui::style::Style::default();
    let mut app = App::new(None, 1000, SearchEngine::default(), style);
    for item in ["asd", "dqasd", "adq"] {
        app.add_item(item.to_string());
    }
    settle(&mut app, 3);
    for _ in 0..5 {
        app.increment_counter();
    }
    assert_eq!(app.get_list_state(), Some(4));
    assert_eq!(app.selected(), None);
}

#[test]
fn selected_resolves_the_ranked_item() {
    let mut app = session_with(&["asd", "dqasd", "adq"]);
    type_text(&mut app, "adq");
    settle(&mut app, 3);
    assert_eq!(app.get_matched_items(), 1);
    assert_eq!(app.get_list_state(), Some(0));
    assert_eq!(app.selected(), Some("adq".to_string()));
}

#[test]
fn window_grows_near_its_end() {
    let style = ratatui::style::Style::default();
    let mut app = App::new(Some(899), 1000, SearchEngine::default(), style);
    app.increment_counter();
    assert_eq!(app.get_list_state(), Some(900));
    assert_eq!(app.get_top(), 1000);
    app.increment_counter();
    assert_eq!(app.get_list_state(), Some(901));
    assert_eq!(app.get_top(), 1100);
    app.increment_counter();
    assert_eq!(app.get_top(), 1100);
    app.update_query('x');
    assert_eq!(app.get_top(), 1100);
    app.delete();
    assert_eq!(app.get_top(), 1100);
    app.paste("abc");
    assert_eq!(app.get_top(), 1100);
}

#[test]
fn window_growth_saturates() {
    let style = ratatui::style::Style::default();
    let mut app = App::new(Some(usize::MAX), u32::MAX - 10, SearchEngine::default(), style);
    app.increment_counter();
    assert_eq!(app.get_list_state(), Some(usize::MAX));
    assert_eq!(app.get_top(), u32::MAX);
}

#[test]
fn window_caps_the_frame() {
    let style = ratatui::style::Style::default();
    let mut app = App::new(Some(0), 2, SearchEngine::default(), style);
    for item in ["a1", "a2", "a3", "a4"] {
        app.add_item(item.to_string());
    }
    settle(&mut app, 4);
    assert_eq!(app.get_matched_items(), 4);
    assert_eq!(app.get_items_with_indices().len(), 2);
}

#[test]
fn paste_moves_cursor_by_whole_text() {
    let mut app = App::default();
    app.update_query('a');
    app.update_query('b');
    app.paste("héllo");
    assert_eq!(app.get_state_area().text(), "abhéllo");
    assert_eq!(app.get_state_area().cursor_position(), 7);
    assert_eq!(app.get_list_state(), None);
}

#[test]
fn edit_resets_selection_to_first_match() {
    let mut app = session_with(&["asd", "dqasd", "adq"]);
    app.increment_counter();
    app.increment_counter();
    assert_eq!(app.get_list_state(), Some(2));
    app.update_query('a');
    settle(&mut app, 3);
    app.update_query('s');
    assert_eq!(app.get_list_state(), Some(0));
}

#[test]
fn tick_after_settling_keeps_the_snapshot() {
    let mut app = session_with(&["asd", "dqasd", "adq"]);
    type_text(&mut app, "as");
    settle(&mut app, 3);
    let before = app.get_items_with_indices();
    let status = app.tick();
    assert!(!status.changed);
    assert_eq!(app.get_items_with_indices(), before);
    assert_eq!(app.get_total_items(), 3);
}

#[test]
fn matched_never_exceeds_total() {
    let mut app = App::default();
    for i in 0..50 {
        app.add_item(format!("item{i}"));
        app.tick();
        assert!(app.get_matched_items() <= app.get_total_items());
    }
    type_text(&mut app, "i9");
    for _ in 0..20 {
        app.tick();
        assert!(app.get_matched_items() <= app.get_total_items());
    }
}

#[test]
fn add_item_leaves_session_alone() {
    let mut app = session_with(&["asd"]);
    app.increment_counter();
    app.add_item("zzz".to_string());
    assert_eq!(app.get_list_state(), Some(1));
    assert_eq!(app.get_total_items(), 1);
    assert_eq!(app.get_state_area().text(), "");
}

#[test]
fn keys_drive_the_session() {
    let mut app = session_with(&["asd", "dqasd", "adq"]);
    handle_key_events(Key::Down, &mut app);
    handle_key_events(Key::Tab, &mut app);
    assert_eq!(app.get_list_state(), Some(2));
    handle_key_events(Key::Up, &mut app);
    handle_key_events(Key::BackTab, &mut app);
    handle_key_events(Key::Up, &mut app);
    assert_eq!(app.get_list_state(), Some(0));
    handle_key_events(Key::Char('q'), &mut app);
    assert_eq!(app.get_state_area().text(), "q");
    handle_key_events(Key::Backspace, &mut app);
    assert_eq!(app.get_state_area().text(), "");
    handle_key_events(Key::Other, &mut app);
    assert!(app.running);
    handle_key_events(Key::Enter, &mut app);
    assert!(!app.running);
    assert_eq!(app.get_list_state(), Some(0));
}

#[test]
fn escape_quits_without_selection() {
    let mut app = App::default();
    handle_key_events(Key::Esc, &mut app);
    assert!(!app.running);
    assert_eq!(app.get_list_state(), None);
    assert_eq!(app.selected(), None);
}

#[test]
fn step_up_without_selection_stays_none() {
    let mut app = App::default();
    app.quit(true);
    app.decrement_counter();
    assert_eq!(app.get_list_state(), None);
}

#[test]
fn engine_counts_through_its_own_api() {
    let mut engine = SearchEngine::default();
    engine.add_item("hello".to_string());
    engine.add_item("world".to_string());
    engine.reparse("o");
    for _ in 0..1000 {
        let status = engine.tick(10);
        if !status.running && engine.item_count() == 2 {
            break;
        }
    }
    assert_eq!(engine.item_count(), 2);
    assert_eq!(engine.matched_item_count(), 2);
    let first = engine.matched_item(0);
    assert!(first == "hello" || first == "world");
    let positions = engine.matched_item_positions(0);
    assert!(!positions.is_empty());
}

#[test]
fn positions_count_characters() {
    let mut app = session_with(&["éab", "e\u{301}ab", "xyz"]);
    type_text(&mut app, "ab");
    settle(&mut app, 3);
    assert_eq!(app.get_matched_items(), 2);
    let frame = app.get_items_with_indices();
    let accented = frame.iter().find(|(t, _)| t == "éab").unwrap();
    assert_eq!(accented.1, vec![1, 2]);
    let combining = frame.iter().find(|(t, _)| t == "e\u{301}ab").unwrap();
    assert_eq!(combining.1, vec![2, 3]);
}

#[test]
fn engine_with_threads_and_injector() {
    let style = ratatui::style::Style::new();
    let mut app = App::new(Some(0), 1000, SearchEngine::with_threads(2), style);
    let injector = app.injector();
    rfz::search_engine::inject(&injector, "alpha".to_string());
    rfz::search_engine::inject(&injector, "beta".to_string());
    settle(&mut app, 2);
    assert_eq!(app.get_matched_items(), 2);
    app.update_query('p');
    settle(&mut app, 2);
    assert_eq!(app.get_matched_items(), 1);
    assert_eq!(app.selected(), Some("alpha".to_string()));
}

#[test]
fn total_never_drops_across_ticks() {
    let mut app = App::default();
    let mut last = 0;
    for i in 0..30 {
        app.add_item(format!("x{i}"));
        app.tick();
        assert!(app.get_total_items() >= last);
        last = app.get_total_items();
    }
}

#[test]
fn engine_from_a_fresh_matcher() {
    let mut engine = SearchEngine::new(rfz::search_engine::fresh_matcher(Some(1)));
    assert_eq!(engine.item_count(), 0);
    assert_eq!(engine.matched_item_count(), 0);
    engine.add_item("abc".to_string());
    engine.reparse("b");
    for _ in 0..1000 {
        let status = engine.tick(10);
        if !status.running && engine.item_count() == 1 {
            break;
        }
    }
    assert_eq!(engine.matched_item_count(), 1);
    assert_eq!(engine.matched_item_positions(0), vec![1]);
}

#[test]
fn is_running_follows_quit() {
    let mut app = App::default();
    assert!(app.is_running());
    app.quit(false);
    assert!(!app.is_running());
}
