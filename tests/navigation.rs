use tui_nav::cursor::{
    next_index_on_down, next_index_on_up, on_down_press_handler, on_up_press_handler,
    NO_SELECTION,
};
use tui_nav::key::{down_event, left_event, right_event, up_event, Key};
use tui_nav::route::{ActiveBlock, NavigationStack, Route, RouteId};
use tui_nav::state::App;

fn route(id: RouteId, active: ActiveBlock, hovered: ActiveBlock) -> Route {
    Route { id, active_block: active, hovered_block: hovered }
}

#[test]
fn cursor_down_formula() {
    assert_eq!(next_index_on_down(3, 0), 1);
    assert_eq!(next_index_on_down(3, 1), 2);
    assert_eq!(next_index_on_down(3, 2), 0);
    assert_eq!(next_index_on_down(1, 0), 0);
}

#[test]
fn cursor_up_formula() {
    assert_eq!(next_index_on_up(3, 0), 2);
    assert_eq!(next_index_on_up(3, 1), 0);
    assert_eq!(next_index_on_up(3, 2), 1);
    assert_eq!(next_index_on_up(1, 0), 0);
}

#[test]
fn cursor_round_trip() {
    for len in 1..6usize {
        for i in 0..len {
            assert_eq!(next_index_on_up(len, next_index_on_down(len, i)), i);
            assert_eq!(next_index_on_down(len, next_index_on_up(len, i)), i);
        }
    }
}

#[test]
fn cursor_on_empty_list() {
    assert_eq!(next_index_on_down(0, 0), NO_SELECTION);
    assert_eq!(next_index_on_up(0, 0), NO_SELECTION);
    assert_eq!(next_index_on_down(0, 7), NO_SELECTION);
    assert_eq!(next_index_on_up(0, usize::MAX), NO_SELECTION);
}

#[test]
fn cursor_stale_index_is_clamped() {
    assert_eq!(next_index_on_down(3, 9), 0);
    assert_eq!(next_index_on_up(3, 9), 1);
    assert_eq!(next_index_on_up(1, 9), 0);
    assert_eq!(next_index_on_down(3, usize::MAX), 0);
}

#[test]
fn press_handlers_on_slices() {
    let data = [10, 20, 30];
    assert_eq!(on_down_press_handler(&data, Some(1)), 2);
    assert_eq!(on_up_press_handler(&data, Some(1)), 0);
    assert_eq!(on_down_press_handler(&data, None), 0);
    assert_eq!(on_up_press_handler(&data, None), 0);
    let empty: [u8; 0] = [];
    assert_eq!(on_down_press_handler(&empty, Some(3)), 0);
}

#[test]
fn direction_bindings() {
    assert!(down_event(Key::Down) && down_event(Key::Char('j')) && down_event(Key::Ctrl('n')));
    assert!(up_event(Key::Up) && up_event(Key::Char('k')) && up_event(Key::Ctrl('p')));
    assert!(left_event(Key::Left) && left_event(Key::Char('h')) && left_event(Key::Ctrl('b')));
    assert!(right_event(Key::Right) && right_event(Key::Char('l')) && right_event(Key::Ctrl('f')));
    assert!(!down_event(Key::Up) && !up_event(Key::Char('j')));
    assert!(!left_event(Key::Alt('h')) && !right_event(Key::Esc));
}

#[test]
fn push_then_pop_restores_top() {
    let root = route(RouteId::Home, ActiveBlock::Empty, ActiveBlock::Library);
    let mut stack = NavigationStack::new(root);
    let pushed = route(RouteId::AlbumTracks, ActiveBlock::AlbumTracks, ActiveBlock::AlbumTracks);
    stack.push(pushed);
    assert_eq!(stack.current(), pushed);
    assert_eq!(stack.pop(), Some(pushed));
    assert_eq!(stack.current(), root);
}

#[test]
fn pop_at_root_is_noop() {
    let root = route(RouteId::Home, ActiveBlock::Empty, ActiveBlock::Library);
    let mut stack = NavigationStack::new(root);
    assert_eq!(stack.pop(), None);
    assert_eq!(stack.current(), root);

    let mut app = App::new();
    assert_eq!(app.pop_navigation_stack(), None);
    assert_eq!(app.get_current_route(), root);
}

#[test]
fn set_active_only_keeps_hovered() {
    let mut app = App::new();
    app.push_navigation_stack(RouteId::Search, ActiveBlock::SearchResultBlock);
    app.set_current_route_state(Some(ActiveBlock::HelpMenu), None);
    let current = app.get_current_route();
    assert_eq!(current.id, RouteId::Search);
    assert_eq!(current.active_block, ActiveBlock::HelpMenu);
    assert_eq!(current.hovered_block, ActiveBlock::SearchResultBlock);
    app.set_current_route_state(None, Some(ActiveBlock::Library));
    let current = app.get_current_route();
    assert_eq!(current.active_block, ActiveBlock::HelpMenu);
    assert_eq!(current.hovered_block, ActiveBlock::Library);
    assert_eq!(app.pop_navigation_stack(), Some(current));
    assert_eq!(app.get_current_route().id, RouteId::Home);
}
