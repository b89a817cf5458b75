use chat_ui::player::{
    embedded_slot, is_silenced, player_mode, popout_slot, PlayerMode, ToggleEffect, VideoSlot,
};
use chat_ui::state::{Action, CallInfo, DispatchMode, State, Store, WindowHandle};

fn store_with_call(silenced: bool) -> Store {
    Store::new(State::new(false, Some(CallInfo { silenced })))
}

#[test]
fn starts_embedded_with_live_video() {
    let store = store_with_call(false);
    assert_eq!(player_mode(store.state()), PlayerMode::Embedded);
    assert_eq!(embedded_slot(store.state()), VideoSlot::LiveVideo { muted: false });
}

#[test]
fn popout_then_toggle_returns_to_embedded() {
    let mut store = store_with_call(false);
    let surface = WindowHandle { id: 7 };
    assert_eq!(store.press_popout_toggle(), ToggleEffect::OpenSurface);
    assert_eq!(player_mode(store.state()), PlayerMode::Embedded);
    assert_eq!(store.finish_popout(Some(surface)), None);
    assert_eq!(player_mode(store.state()), PlayerMode::PoppedOut);
    assert_eq!(embedded_slot(store.state()), VideoSlot::Placeholder);
    assert_eq!(popout_slot(store.state(), surface), VideoSlot::LiveVideo { muted: false });

    assert_eq!(store.press_popout_toggle(), ToggleEffect::CloseSurface(surface));
    assert_eq!(player_mode(store.state()), PlayerMode::Embedded);
    assert_eq!(embedded_slot(store.state()), VideoSlot::LiveVideo { muted: false });
    assert_eq!(popout_slot(store.state(), surface), VideoSlot::Placeholder);
}

#[test]
fn silent_dispatch_owes_no_render() {
    let mut store = store_with_call(false);
    assert!(!store.take_notification());
    store.finish_popout(Some(WindowHandle { id: 1 }));
    assert!(!store.take_notification());
    store.press_popout_toggle();
    assert!(store.take_notification());
    assert!(!store.take_notification());
}

#[test]
fn stale_popout_changes_nothing() {
    let mut store = store_with_call(false);
    assert_eq!(store.finish_popout(None), None);
    assert_eq!(store.state().popout_player(), None);
    assert_eq!(embedded_slot(store.state()), VideoSlot::LiveVideo { muted: false });
}

#[test]
fn clear_popout_when_embedded_is_idempotent() {
    let mut store = store_with_call(true);
    let released = store.dispatch(Action::ClearPopout, DispatchMode::Notify);
    assert_eq!(released, None);
    assert_eq!(store.state().popout_player(), None);
    assert_eq!(store.state().current_call(), Some(CallInfo { silenced: true }));
    assert!(!store.state().sidebar_hidden());
    assert!(store.state().windows().is_empty());
}

#[test]
fn second_popout_releases_the_first() {
    let mut store = store_with_call(false);
    let first = WindowHandle { id: 1 };
    let second = WindowHandle { id: 2 };
    store.finish_popout(Some(first));
    assert_eq!(store.finish_popout(Some(second)), Some(first));
    assert_eq!(store.state().popout_player(), Some(second));
    assert_eq!(popout_slot(store.state(), first), VideoSlot::Placeholder);
    assert_eq!(store.finish_popout(Some(second)), None);
}

#[test]
fn never_two_live_videos() {
    let mut store = store_with_call(false);
    let surface = WindowHandle { id: 3 };
    let other = WindowHandle { id: 4 };
    let check = |store: &Store| {
        for s in [surface, other] {
            let both = matches!(embedded_slot(store.state()), VideoSlot::LiveVideo { .. })
                && matches!(popout_slot(store.state(), s), VideoSlot::LiveVideo { .. });
            assert!(!both);
        }
    };
    check(&store);
    store.finish_popout(Some(surface));
    check(&store);
    store.surface_closed(other);
    check(&store);
    assert_eq!(store.state().popout_player(), Some(surface));
    store.surface_closed(surface);
    check(&store);
    assert_eq!(store.state().popout_player(), None);
}

#[test]
fn silenced_call_mutes_the_owner() {
    let mut store = store_with_call(true);
    assert!(is_silenced(store.state()));
    assert_eq!(embedded_slot(store.state()), VideoSlot::LiveVideo { muted: true });
    let surface = WindowHandle { id: 9 };
    store.finish_popout(Some(surface));
    assert_eq!(popout_slot(store.state(), surface), VideoSlot::LiveVideo { muted: true });
}

#[test]
fn end_call_clears_the_call() {
    let mut store = store_with_call(true);
    store.end_call();
    assert_eq!(store.state().current_call(), None);
    assert!(!is_silenced(store.state()));
    assert!(store.take_notification());
    store.end_call();
    assert_eq!(store.state().current_call(), None);
}

#[test]
fn add_window_registers_once() {
    let mut store = Store::new(State::new(true, None));
    let w = WindowHandle { id: 5 };
    store.dispatch(Action::AddWindow(w), DispatchMode::Notify);
    store.dispatch(Action::AddWindow(w), DispatchMode::Notify);
    store.dispatch(Action::AddWindow(WindowHandle { id: 6 }), DispatchMode::Silent);
    assert_eq!(store.state().windows(), &vec![w, WindowHandle { id: 6 }]);
    assert_eq!(store.state().popout_player(), None);
    assert!(store.state().sidebar_hidden());
}
