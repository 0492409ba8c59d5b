use lofi_tui::browser::App;
use lofi_tui::catalog::StreamInfo;
use lofi_tui::input::{Action, FetchRequest, InputEvent, Key, KeyKind, Mode};
use lofi_tui::preview::FetchError;

fn stream(title: &str, id: &str) -> StreamInfo {
    StreamInfo { title: title.to_string(), id: id.to_string() }
}

fn sample() -> Vec<StreamInfo> {
    vec![
        stream("Chill Beats - Study With Me", "a1"),
        stream("Synthwave Radio", "b2"),
        stream("chillhop essentials", "c3"),
    ]
}

fn loaded() -> App<String> {
    let mut app: App<String> = App::new();
    app.set_streams(sample());
    app
}

fn press(key: Key) -> InputEvent {
    InputEvent::Key { key, kind: KeyKind::Press }
}

fn type_text(app: &mut App<String>, text: &str) {
    for c in text.chars() {
        assert_eq!(app.handle_event(press(Key::Char(c))), Action::Idle);
    }
}

fn request(index: usize, id: &str) -> Option<FetchRequest> {
    Some(FetchRequest { index, id: id.to_string() })
}

#[test]
fn new_browser_awaits_the_catalog() {
    let app: App<String> = App::new();
    assert!(app.loading());
    assert!(!app.should_quit());
    assert_eq!(app.mode(), Mode::Browsing);
    assert_eq!(app.list().selected(), None);
    assert_eq!(app.selected_stream_index(), None);
    assert!(!app.has_thumbnail());
    assert_eq!(app.last_fetched(), None);
    assert!(!app.needs_thumbnail_reload());
    assert_eq!(app.refresh_request(), None);
}

#[test]
fn loaded_catalog_selects_the_first_stream_and_asks_for_its_preview() {
    let app = loaded();
    assert!(!app.loading());
    assert_eq!(app.list().selected(), Some(0));
    assert!(app.needs_thumbnail_reload());
    assert_eq!(app.refresh_request(), request(0, "a1"));
}

#[test]
fn empty_catalog_selects_nothing_and_ignores_navigation() {
    let mut app: App<String> = App::new();
    app.set_streams(Vec::new());
    let events = [
        press(Key::Down),
        press(Key::Up),
        press(Key::Char('j')),
        press(Key::Char('k')),
        press(Key::Enter),
        InputEvent::Resize,
        press(Key::Char('/')),
        press(Key::Char('x')),
        press(Key::Backspace),
        press(Key::Escape),
    ];
    for event in events {
        assert_eq!(app.handle_event(event), Action::Idle);
        assert_eq!(app.list().selected(), None);
        assert_eq!(app.selected_stream_index(), None);
        assert_eq!(app.refresh_request(), None);
    }
}

#[test]
fn navigation_keys_move_the_selection() {
    let mut app = loaded();
    app.handle_event(press(Key::Down));
    assert_eq!(app.list().selected(), Some(1));
    app.handle_event(press(Key::Char('j')));
    assert_eq!(app.list().selected(), Some(2));
    app.handle_event(press(Key::Char('j')));
    assert_eq!(app.list().selected(), Some(0));
    app.handle_event(press(Key::Up));
    assert_eq!(app.list().selected(), Some(2));
    app.handle_event(press(Key::Char('k')));
    assert_eq!(app.list().selected(), Some(1));
    app.next();
    assert_eq!(app.list().selected(), Some(2));
    app.previous();
    assert_eq!(app.list().selected(), Some(1));
}

#[test]
fn only_a_press_is_acted_on() {
    let mut app = loaded();
    for kind in [KeyKind::Release, KeyKind::Repeat] {
        assert_eq!(app.handle_event(InputEvent::Key { key: Key::Down, kind }), Action::Idle);
        assert_eq!(app.handle_event(InputEvent::Key { key: Key::Char('q'), kind }), Action::Idle);
        assert_eq!(app.handle_event(InputEvent::Key { key: Key::Enter, kind }), Action::Idle);
    }
    assert_eq!(app.handle_event(InputEvent::Other), Action::Idle);
    assert_eq!(app.list().selected(), Some(0));
    assert!(!app.should_quit());
}

#[test]
fn q_asks_to_leave() {
    let mut app = loaded();
    app.handle_event(press(Key::Char('q')));
    assert!(app.should_quit());
}

#[test]
fn escape_with_an_empty_query_asks_to_leave() {
    let mut app = loaded();
    app.handle_event(press(Key::Escape));
    assert!(app.should_quit());
}

#[test]
fn escape_with_a_query_clears_it_first() {
    let mut app = loaded();
    app.handle_event(press(Key::Char('/')));
    type_text(&mut app, "chill");
    app.handle_event(press(Key::Enter));
    assert_eq!(app.mode(), Mode::Browsing);
    assert_eq!(app.list().query(), "chill");
    assert_eq!(app.list().filtered_indices(), &vec![0, 2]);
    app.handle_event(press(Key::Escape));
    assert!(!app.should_quit());
    assert_eq!(app.list().query(), "");
    assert_eq!(app.list().filtered_indices(), &vec![0, 1, 2]);
    app.handle_event(press(Key::Escape));
    assert!(app.should_quit());
}

#[test]
fn slash_starts_filter_editing() {
    let mut app = loaded();
    app.handle_event(press(Key::Char('/')));
    assert_eq!(app.mode(), Mode::FilterEditing);
    assert_eq!(app.list().query(), "");
}

#[test]
fn typing_narrows_the_view_with_every_character() {
    let mut app = loaded();
    app.handle_event(press(Key::Char('/')));
    app.handle_event(press(Key::Char('C')));
    assert_eq!(app.list().query(), "C");
    assert_eq!(app.list().filtered_indices(), &vec![0, 2]);
    app.handle_event(press(Key::Char('h')));
    app.handle_event(press(Key::Char('i')));
    app.handle_event(press(Key::Char('l')));
    app.handle_event(press(Key::Char('l')));
    app.handle_event(press(Key::Char('h')));
    assert_eq!(app.list().query(), "Chillh");
    assert_eq!(app.list().filtered_indices(), &vec![2]);
    assert_eq!(app.list().selected(), Some(0));
    assert_eq!(app.selected_stream_index(), Some(2));
}

#[test]
fn keys_are_text_while_filter_editing() {
    let mut app = loaded();
    app.handle_event(press(Key::Char('/')));
    type_text(&mut app, "qjk/");
    assert_eq!(app.list().query(), "qjk/");
    assert!(!app.should_quit());
    assert_eq!(app.mode(), Mode::FilterEditing);
    app.handle_event(press(Key::Down));
    app.handle_event(press(Key::Up));
    app.handle_event(press(Key::Other));
    assert_eq!(app.list().query(), "qjk/");
    assert_eq!(app.list().selected(), None);
}

#[test]
fn backspace_removes_the_last_character() {
    let mut app = loaded();
    app.handle_event(press(Key::Char('/')));
    type_text(&mut app, "synx");
    assert!(app.list().filtered_indices().is_empty());
    app.handle_event(press(Key::Backspace));
    assert_eq!(app.list().query(), "syn");
    assert_eq!(app.list().filtered_indices(), &vec![1]);
    for _ in 0..5 {
        app.handle_event(press(Key::Backspace));
    }
    assert_eq!(app.list().query(), "");
    assert_eq!(app.list().filtered_indices(), &vec![0, 1, 2]);
    assert_eq!(app.mode(), Mode::FilterEditing);
}

#[test]
fn backspace_refilters_even_on_an_empty_query() {
    let mut app = loaded();
    app.handle_event(press(Key::Down));
    app.handle_event(press(Key::Char('/')));
    assert_eq!(app.list().selected(), Some(1));
    app.handle_event(press(Key::Backspace));
    assert_eq!(app.list().selected(), Some(0));
}

#[test]
fn escape_while_editing_clears_the_query_and_returns_to_browsing() {
    let mut app = loaded();
    app.handle_event(press(Key::Char('/')));
    type_text(&mut app, "syn");
    app.handle_event(press(Key::Escape));
    assert_eq!(app.mode(), Mode::Browsing);
    assert_eq!(app.list().query(), "");
    assert_eq!(app.list().filtered_indices(), &vec![0, 1, 2]);
    assert!(!app.should_quit());
}

#[test]
fn enter_while_editing_keeps_the_query() {
    let mut app = loaded();
    app.handle_event(press(Key::Char('/')));
    type_text(&mut app, "syn");
    assert_eq!(app.handle_event(press(Key::Enter)), Action::Idle);
    assert_eq!(app.mode(), Mode::Browsing);
    assert_eq!(app.list().query(), "syn");
    assert_eq!(app.list().filtered_indices(), &vec![1]);
}

#[test]
fn enter_while_browsing_plays_the_selected_stream() {
    let mut app = loaded();
    assert_eq!(app.handle_event(press(Key::Enter)), Action::Play { id: "a1".to_string() });
    app.set_query("chillhop");
    assert_eq!(app.handle_event(press(Key::Enter)), Action::Play { id: "c3".to_string() });
    app.set_query("nothing like it");
    assert_eq!(app.handle_event(press(Key::Enter)), Action::Idle);
}

#[test]
fn fetched_image_settles_the_preview() {
    let mut app = loaded();
    assert_eq!(app.refresh_request(), request(0, "a1"));
    app.complete_refresh(0, Ok("image of a1".to_string()));
    assert!(app.has_thumbnail());
    assert_eq!(app.last_fetched(), Some(0));
    assert!(!app.needs_thumbnail_reload());
    assert_eq!(app.refresh_request(), None);
    assert_eq!(app.thumbnail_mut().map(|image| image.clone()), Some("image of a1".to_string()));
}

#[test]
fn moving_the_selection_makes_the_preview_stale() {
    let mut app = loaded();
    app.complete_refresh(0, Ok("image of a1".to_string()));
    app.handle_event(press(Key::Down));
    assert!(app.needs_thumbnail_reload());
    assert_eq!(app.refresh_request(), request(1, "b2"));
    app.handle_event(press(Key::Up));
    assert!(!app.needs_thumbnail_reload());
}

#[test]
fn resize_makes_the_preview_stale_though_the_selection_stays() {
    let mut app = loaded();
    app.handle_event(press(Key::Down));
    app.complete_refresh(1, Ok("image of b2".to_string()));
    assert!(!app.needs_thumbnail_reload());
    assert_eq!(app.handle_event(InputEvent::Resize), Action::Idle);
    assert_eq!(app.list().selected(), Some(1));
    assert!(app.needs_thumbnail_reload());
    assert!(!app.has_thumbnail());
    assert_eq!(app.last_fetched(), None);
    assert_eq!(app.refresh_request(), request(1, "b2"));
}

#[test]
fn resize_makes_the_preview_stale_even_without_a_selection() {
    let mut app = loaded();
    app.set_query("nothing like it");
    assert!(!app.needs_thumbnail_reload());
    app.handle_event(InputEvent::Resize);
    assert!(app.needs_thumbnail_reload());
    assert_eq!(app.refresh_request(), None);
}

#[test]
fn resize_is_handled_in_either_mode() {
    let mut app = loaded();
    app.complete_refresh(0, Ok("image".to_string()));
    app.handle_event(press(Key::Char('/')));
    app.handle_event(InputEvent::Resize);
    assert_eq!(app.mode(), Mode::FilterEditing);
    assert!(!app.has_thumbnail());
    assert!(app.needs_thumbnail_reload());
}

#[test]
fn failed_fetch_leaves_the_cache_as_it_was() {
    let mut app = loaded();
    app.complete_refresh(0, Ok("image of a1".to_string()));
    app.handle_event(press(Key::Down));
    for error in [FetchError::Fetch, FetchError::Decode] {
        app.complete_refresh(1, Err(error));
        assert_eq!(app.last_fetched(), Some(0));
        assert_eq!(app.thumbnail_mut().map(|image| image.clone()), Some("image of a1".to_string()));
        assert_eq!(app.list().selected(), Some(1));
        assert!(app.needs_thumbnail_reload());
        assert_eq!(app.refresh_request(), request(1, "b2"));
    }
}

#[test]
fn failed_fetch_leaves_an_empty_cache_empty() {
    let mut app = loaded();
    app.complete_refresh(0, Err(FetchError::Fetch));
    assert!(!app.has_thumbnail());
    assert_eq!(app.last_fetched(), None);
    assert_eq!(app.refresh_request(), request(0, "a1"));
}

#[test]
fn late_image_is_shown_and_then_replaced() {
    let mut app = loaded();
    let asked = app.refresh_request();
    assert_eq!(asked, request(0, "a1"));
    app.handle_event(press(Key::Down));
    app.complete_refresh(0, Ok("image of a1".to_string()));
    assert!(app.has_thumbnail());
    assert_eq!(app.last_fetched(), Some(0));
    assert_eq!(app.refresh_request(), request(1, "b2"));
    app.complete_refresh(1, Ok("image of b2".to_string()));
    assert_eq!(app.refresh_request(), None);
    assert_eq!(app.thumbnail_mut().map(|image| image.clone()), Some("image of b2".to_string()));
}

#[test]
fn thumbnail_can_be_changed_in_place() {
    let mut app = loaded();
    assert!(app.thumbnail_mut().is_none());
    app.complete_refresh(0, Ok("small".to_string()));
    if let Some(image) = app.thumbnail_mut() {
        image.push_str(", resized");
    }
    assert_eq!(app.thumbnail_mut().map(|image| image.clone()), Some("small, resized".to_string()));
    assert_eq!(app.last_fetched(), Some(0));
    assert!(!app.needs_thumbnail_reload());
}

#[test]
fn tick_handles_input_before_it_decides_on_the_fetch() {
    let mut app = loaded();
    app.complete_refresh(0, Ok("image of a1".to_string()));
    let plan = app.tick(None);
    assert_eq!(plan.action, Action::Idle);
    assert_eq!(plan.fetch, None);
    let plan = app.tick(Some(press(Key::Down)));
    assert_eq!(plan.action, Action::Idle);
    assert_eq!(plan.fetch, request(1, "b2"));
    let plan = app.tick(None);
    assert_eq!(plan.fetch, request(1, "b2"));
    app.complete_refresh(1, Ok("image of b2".to_string()));
    let plan = app.tick(Some(InputEvent::Resize));
    assert_eq!(plan.fetch, request(1, "b2"));
    let plan = app.tick(Some(press(Key::Enter)));
    assert_eq!(plan.action, Action::Play { id: "b2".to_string() });
    assert_eq!(plan.fetch, request(1, "b2"));
}

#[test]
fn tick_reports_the_request_to_leave() {
    let mut app = loaded();
    let plan = app.tick(Some(press(Key::Char('q'))));
    assert_eq!(plan.action, Action::Idle);
    assert!(app.should_quit());
    assert_eq!(plan.fetch, request(0, "a1"));
}

#[test]
fn filtering_changes_the_stream_that_the_preview_is_for() {
    let mut app = loaded();
    app.complete_refresh(0, Ok("image of a1".to_string()));
    app.set_query("synth");
    assert_eq!(app.selected_stream_index(), Some(1));
    assert_eq!(app.refresh_request(), request(1, "b2"));
    app.set_query("chill");
    assert_eq!(app.selected_stream_index(), Some(0));
    assert_eq!(app.refresh_request(), None);
}
