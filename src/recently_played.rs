use vstd::prelude::*;
use crate::cursor::{down_index, on_down_press_handler, on_up_press_handler, up_index};
use crate::key::{down_event, is_down_key, is_left_key, is_up_key, left_event, up_event, Key};
use crate::route::{set_top, ActiveBlock};
use crate::state::{App, Command, PlayHistory};

verus! {

/// The track URIs of `items`, in list order.
pub open spec fn track_uris(items: Seq<PlayHistory>) -> Seq<String> {
    items.map_values(|item: PlayHistory| item.track_uri)
}

/// `after` is `before` with the current route's panels set as given, and nothing else changed.
pub open spec fn navigated(
    before: App,
    after: App,
    active: Option<ActiveBlock>,
    hovered: Option<ActiveBlock>,
) -> bool {
    &&& after.navigation_stack@ == set_top(before.navigation_stack@, active, hovered)
    &&& after.recently_played == before.recently_played
}

/// `after` is `before` with the list cursor moved to `index`, and nothing else changed.
pub open spec fn cursor_moved(before: App, after: App, index: usize) -> bool {
    &&& after.navigation_stack == before.navigation_stack
    &&& after.recently_played.result == before.recently_played.result
    &&& after.recently_played.index == index
}

/// The cursor after a "down" move in the recently played view: moved when a list
/// is there, kept otherwise.
pub open spec fn index_after_down(app: App) -> int {
    match app.recently_played.result {
        Some(page) => down_index(page.items@.len() as int, app.recently_played.index as int),
        None => app.recently_played.index as int,
    }
}

/// The cursor after an "up" move in the recently played view: moved when a list
/// is there, kept otherwise.
pub open spec fn index_after_up(app: App) -> int {
    match app.recently_played.result {
        Some(page) => up_index(page.items@.len() as int, app.recently_played.index as int),
        None => app.recently_played.index as int,
    }
}

/// The command that confirming in the recently played view gives: play every
/// track of the list from the cursor on, or nothing when no list is there.
pub open spec fn play_command(app: App, cmd: Option<Command>) -> bool {
    match app.recently_played.result {
        Some(page) => cmd matches Some(Command::StartPlayback { uris, offset }) && uris@ == track_uris(
            page.items@,
        ) && offset == app.recently_played.index,
        None => cmd is None,
    }
}

/// How the recently played view answers `key`: the state goes from `before` to
/// `after`, and `cmd` is what the playback service is asked to do. The bindings
/// are tried in this order.
pub open spec fn handled(key: Key, before: App, after: App, cmd: Option<Command>) -> bool {
    if key == Key::Esc {
        navigated(before, after, Some(ActiveBlock::Empty), None) && cmd is None
    } else if key == Key::Char('d') {
        after == before && cmd == Some(Command::GetDevices)
    } else if key == Key::Char(' ') {
        after == before && cmd == Some(Command::TogglePlayback)
    } else if is_left_key(key) {
        navigated(before, after, Some(ActiveBlock::Empty), Some(ActiveBlock::Library))
            && cmd is None
    } else if key == Key::Char('?') {
        navigated(before, after, Some(ActiveBlock::HelpMenu), None) && cmd is None
    } else if is_down_key(key) {
        cursor_moved(before, after, index_after_down(before) as usize) && cmd is None
    } else if is_up_key(key) {
        cursor_moved(before, after, index_after_up(before) as usize) && cmd is None
    } else if key == Key::Char('/') {
        navigated(before, after, Some(ActiveBlock::Input), Some(ActiveBlock::Input))
            && cmd is None
    } else if key == Key::Char('\n') {
        after == before && play_command(before, cmd)
    } else {
        after == before && cmd is None
    }
}

/// Handles `key` in the recently played view. Navigation and the list cursor change
/// `app`; what the playback service has to do comes back as a command.
pub fn handler(key: Key, app: &mut App) -> (r: Option<Command>)
    ensures
        handled(key, *old(app), *final(app), r),
        key == Key::Esc ==> {
            &&& final(app).navigation_stack@.last().active_block == ActiveBlock::Empty
            &&& final(app).navigation_stack@.last().hovered_block
                == old(app).navigation_stack@.last().hovered_block
        },
        is_left_key(key) ==> {
            &&& final(app).navigation_stack@.last().active_block == ActiveBlock::Empty
            &&& final(app).navigation_stack@.last().hovered_block == ActiveBlock::Library
        },
{
    proof {
        app.navigation_stack.lemma_nonempty();
    }
    match key {
        Key::Esc => {
            app.set_current_route_state(Some(ActiveBlock::Empty), None);
            None
        },
        Key::Char('d') => Some(Command::GetDevices),
        Key::Char(' ') => Some(Command::TogglePlayback),
        k if left_event(k) => {
            app.set_current_route_state(Some(ActiveBlock::Empty), Some(ActiveBlock::Library));
            None
        },
        Key::Char('?') => {
            app.set_current_route_state(Some(ActiveBlock::HelpMenu), None);
            None
        },
        k if down_event(k) => {
            if let Some(page) = &app.recently_played.result {
                let next_index = on_down_press_handler(
                    page.items.as_slice(),
                    Some(app.recently_played.index),
                );
                app.recently_played.index = next_index;
            }
            None
        },
        k if up_event(k) => {
            if let Some(page) = &app.recently_played.result {
                let next_index = on_up_press_handler(
                    page.items.as_slice(),
                    Some(app.recently_played.index),
                );
                app.recently_played.index = next_index;
            }
            None
        },
        Key::Char('/') => {
            app.set_current_route_state(Some(ActiveBlock::Input), Some(ActiveBlock::Input));
            None
        },
        Key::Char('\n') => {
            match &app.recently_played.result {
                Some(page) => {
                    let uris = collect_track_uris(&page.items);
                    Some(Command::StartPlayback { uris, offset: app.recently_played.index })
                },
                None => None,
            }
        },
        _ => None,
    }
}

/// The track URIs of `items`, in list order.
pub fn collect_track_uris(items: &Vec<PlayHistory>) -> (r: Vec<String>)
    ensures
        r@ == track_uris(items@),
{
    let mut uris: Vec<String> = Vec::new();
    let mut i: usize = 0;
    while i < items.len()
        invariant
            i <= items@.len(),
            uris@ == track_uris(items@.subrange(0, i as int)),
        decreases items@.len() - i,
    {
        uris.push(items[i].track_uri.clone());
        i = i + 1;
        assert(track_uris(items@.subrange(0, i as int)) =~= track_uris(
            items@.subrange(0, (i - 1) as int),
        ).push(items@[i - 1].track_uri));
    }
    assert(items@.subrange(0, i as int) =~= items@);
    uris
}

} // verus!
