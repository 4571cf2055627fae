use newsbox::app::{App, Status};
use newsbox::input::{action_for_key, apply_action, Action, Effect, Key};
use newsbox::layout::{inbox_page_size, truncate};
use newsbox::model::Article;

fn article(source: &str, title: &str, published: Option<i64>) -> Article {
    Article {
        id: format!("{}::{}", source, title),
        source: source.to_string(),
        title: title.to_string(),
        summary: "body".to_string(),
        link: format!("https://example.org/{}", title),
        published,
    }
}

#[test]
fn normal_mode_key_map() {
    assert_eq!(action_for_key(Key::Char('q'), false, false), Action::Quit);
    assert_eq!(action_for_key(Key::Char('j'), false, false), Action::Down);
    assert_eq!(action_for_key(Key::Down, false, false), Action::Down);
    assert_eq!(action_for_key(Key::Char('k'), false, false), Action::Up);
    assert_eq!(action_for_key(Key::Up, false, false), Action::Up);
    assert_eq!(action_for_key(Key::Enter, false, false), Action::ToggleFull);
    assert_eq!(action_for_key(Key::Char('r'), false, false), Action::Refresh);
    assert_eq!(action_for_key(Key::Char('o'), false, false), Action::OpenInBrowser);
    assert_eq!(action_for_key(Key::Char('p'), false, false), Action::OpenInW3m);
    assert_eq!(action_for_key(Key::Char('/'), false, false), Action::StartFilter);
    assert_eq!(action_for_key(Key::PageDown, false, false), Action::PageDown);
    assert_eq!(action_for_key(Key::PageUp, false, false), Action::PageUp);
    assert_eq!(action_for_key(Key::Char('x'), false, false), Action::Noop);
    assert_eq!(action_for_key(Key::Esc, false, false), Action::Noop);
}

#[test]
fn filter_mode_key_map() {
    assert_eq!(action_for_key(Key::Esc, false, true), Action::ClearFilter);
    assert_eq!(action_for_key(Key::Enter, false, true), Action::StartFilter);
    assert_eq!(action_for_key(Key::Backspace, false, true), Action::Backspace);
    assert_eq!(action_for_key(Key::Char('u'), true, true), Action::EraseFilter);
    assert_eq!(action_for_key(Key::Char('u'), false, true), Action::FilterChar('u'));
    assert_eq!(action_for_key(Key::Char('q'), false, true), Action::FilterChar('q'));
    assert_eq!(action_for_key(Key::PageDown, false, true), Action::Noop);
}

#[test]
fn typing_a_filter_and_committing_it() {
    let mut app = App::new();
    app.set_articles(vec![
        article("BBC", "A", Some(36000)),
        article("Sky", "B", Some(32400)),
    ]);
    let mut mode = false;

    let eff = apply_action(&mut app, &mut mode, Action::StartFilter, 10);
    assert_eq!(eff, Effect::Continue);
    assert!(mode);
    assert_eq!(app.status, Status::FilterHint);
    // keystrokes edit the text but do not recompute the visible set
    apply_action(&mut app, &mut mode, Action::FilterChar('s'), 10);
    apply_action(&mut app, &mut mode, Action::FilterChar('k'), 10);
    apply_action(&mut app, &mut mode, Action::FilterChar('z'), 10);
    apply_action(&mut app, &mut mode, Action::Backspace, 10);
    apply_action(&mut app, &mut mode, Action::FilterChar('y'), 10);
    assert_eq!(app.filter, "sky");
    assert_eq!(app.filtered, vec![0, 1]);

    let eff = apply_action(&mut app, &mut mode, Action::StartFilter, 10);
    assert_eq!(eff, Effect::Continue);
    assert!(!mode);
    assert_eq!(app.filtered, vec![1]);
    assert_eq!(app.status, Status::FilterApplied(1));
}

#[test]
fn escape_clears_the_filter_and_leaves_the_mode() {
    let mut app = App::new();
    app.set_articles(vec![article("BBC", "A", None)]);
    let mut mode = true;
    app.filter = "bb".to_string();
    let eff = apply_action(&mut app, &mut mode, Action::ClearFilter, 10);
    assert_eq!(eff, Effect::Continue);
    assert!(!mode);
    assert_eq!(app.filter, "");
    assert_eq!(app.filtered, vec![0]);
    // the exit recomputes the visible set and reports the resulting count
    assert_eq!(app.status, Status::FilterCleared(1));
}

#[test]
fn clear_shortcut_empties_the_text_and_stays_in_the_mode() {
    let mut app = App::new();
    app.set_articles(vec![article("BBC", "A", None), article("Sky", "B", None)]);
    let mut mode = false;
    apply_action(&mut app, &mut mode, Action::StartFilter, 10);
    apply_action(&mut app, &mut mode, Action::FilterChar('s'), 10);
    apply_action(&mut app, &mut mode, Action::FilterChar('k'), 10);
    apply_action(&mut app, &mut mode, Action::FilterChar('y'), 10);
    let status_before = app.status.clone();
    let filtered_before = app.filtered.clone();
    let eff = apply_action(&mut app, &mut mode, Action::EraseFilter, 10);
    assert_eq!(eff, Effect::Continue);
    assert!(mode);
    assert_eq!(app.filter, "");
    // no recomputation until the mode is left
    assert_eq!(app.filtered, filtered_before);
    assert_eq!(app.status, status_before);
    apply_action(&mut app, &mut mode, Action::StartFilter, 10);
    assert!(!mode);
    assert_eq!(app.filtered, vec![0, 1]);
    assert_eq!(app.status, Status::FilterApplied(2));
}

#[test]
fn refresh_action_spawns_once_while_loading() {
    let mut app = App::new();
    let mut mode = false;
    let eff = apply_action(&mut app, &mut mode, Action::Refresh, 10);
    assert_eq!(eff, Effect::SpawnRefresh);
    assert!(app.loading);
    let eff = apply_action(&mut app, &mut mode, Action::Refresh, 10);
    assert_eq!(eff, Effect::Continue);
    assert!(app.loading);
    assert_eq!(app.status, Status::Refreshing);
}

#[test]
fn open_actions_need_a_visible_selection() {
    let mut app = App::new();
    let mut mode = false;
    assert_eq!(apply_action(&mut app, &mut mode, Action::OpenInBrowser, 10), Effect::Continue);
    assert_eq!(apply_action(&mut app, &mut mode, Action::OpenInW3m, 10), Effect::Continue);
    app.set_articles(vec![article("BBC", "A", None)]);
    assert_eq!(apply_action(&mut app, &mut mode, Action::OpenInBrowser, 10), Effect::OpenBrowser);
    assert_eq!(apply_action(&mut app, &mut mode, Action::OpenInW3m, 10), Effect::OpenViewer);
}

#[test]
fn quit_and_noop_effects() {
    let mut app = App::new();
    let mut mode = false;
    assert_eq!(apply_action(&mut app, &mut mode, Action::Quit, 10), Effect::Quit);
    assert_eq!(apply_action(&mut app, &mut mode, Action::Noop, 10), Effect::Continue);
}

#[test]
fn toggle_full_flips_the_preview() {
    let mut app = App::new();
    let mut mode = false;
    apply_action(&mut app, &mut mode, Action::ToggleFull, 10);
    assert!(app.show_full);
    apply_action(&mut app, &mut mode, Action::ToggleFull, 10);
    assert!(!app.show_full);
}

#[test]
fn page_size_for_a_20_row_terminal_is_11() {
    assert_eq!(inbox_page_size(20), 11);
}

#[test]
fn page_size_floors_at_zero_for_tiny_terminals() {
    assert_eq!(inbox_page_size(0), 0);
    assert_eq!(inbox_page_size(3), 0);
    assert_eq!(inbox_page_size(4), 0);
    assert_eq!(inbox_page_size(6), 1);
}

#[test]
fn page_down_action_uses_the_page_size() {
    let mut app = App::new();
    let many: Vec<Article> = (0..30)
        .map(|i| article("BBC", &format!("T{}", i), Some(1000 - i)))
        .collect();
    app.set_articles(many);
    let mut mode = false;
    apply_action(&mut app, &mut mode, Action::PageDown, 11);
    assert_eq!(app.inbox_view_offset, 11);
    apply_action(&mut app, &mut mode, Action::PageUp, 11);
    assert_eq!(app.inbox_view_offset, 0);
}

#[test]
fn truncate_keeps_short_text() {
    assert_eq!(truncate("hello", 10), "hello");
    assert_eq!(truncate("hello", 5), "hello");
    assert_eq!(truncate("", 0), "");
}

#[test]
fn truncate_cuts_long_text_with_an_ellipsis() {
    assert_eq!(truncate("hello world", 5), "hello…");
    assert_eq!(truncate("héllo wörld", 4), "héll…");
}
