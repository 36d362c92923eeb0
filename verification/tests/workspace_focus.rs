use niri_workspace::ids::{OutputId, WorkspaceIdCounter};
use niri_workspace::workspace::{
    ActivateWindow, AddTileContext, FloatingMove, FloatingToggle, SizingMode, SizingRequest,
    TilePlacement, Workspace, WorkspaceAddWindowTarget, WorkspaceConfig,
};
use niri_workspace::workspace::PositionChangeKind::{AdjustBy, SetTo};

fn ctx(active_window: Option<u64>) -> AddTileContext {
    AddTileContext {
        active_window,
        active_pending_fullscreen: false,
        grid_column: None,
    }
}

fn empty_workspace() -> Workspace {
    let mut ids = WorkspaceIdCounter::new();
    Workspace::new(OutputId::new(String::from("DP-1")), &mut ids)
}

fn add_tiled(ws: &mut Workspace, window: u64, active: Option<u64>) {
    let p = ws.add_tile(window, WorkspaceAddWindowTarget::Auto, ActivateWindow::Yes, false, SizingMode::Normal, ctx(active));
    assert!(matches!(p, TilePlacement::Scrolling { activate: true, .. }));
}

#[test]
fn new_workspaces_take_name_and_output_from_config() {
    let mut ids = WorkspaceIdCounter::new();
    let plain = Workspace::new(OutputId::new(String::from("DP-1")), &mut ids);
    assert_eq!(plain.original_output().name(), "DP-1");
    assert!(plain.name().is_none());
    assert_eq!(plain.id().get(), 1);

    let config = WorkspaceConfig {
        name: String::from("chat"),
        open_on_output: Some(String::from("HDMI-A-1")),
    };
    let named = Workspace::new_with_config(OutputId::new(String::from("DP-1")), Some(config), &mut ids);
    assert_eq!(named.original_output().name(), "HDMI-A-1");
    assert_eq!(named.name().map(|s| s.as_str()), Some("chat"));
    assert_eq!(named.id().get(), 2);

    let config = WorkspaceConfig {
        name: String::from("web"),
        open_on_output: None,
    };
    let no_output = Workspace::new_with_config_no_outputs(Some(config), &mut ids);
    assert_eq!(no_output.original_output().name(), "");
    assert_eq!(no_output.name().map(|s| s.as_str()), Some("web"));

    let bare = Workspace::new_no_outputs(&mut ids);
    assert_eq!(bare.original_output().name(), "");
    assert!(!bare.has_windows_or_name());
    assert_eq!(bare.id().get(), 4);
}

#[test]
fn named_workspace_is_kept_until_unnamed() {
    let mut ids = WorkspaceIdCounter::new();
    let config = WorkspaceConfig {
        name: String::from("mail"),
        open_on_output: None,
    };
    let mut ws = Workspace::new_with_config(OutputId::new(String::from("DP-1")), Some(config), &mut ids);
    assert!(!ws.has_windows());
    assert!(ws.has_windows_or_name());
    ws.unname();
    assert!(ws.name().is_none());
    assert!(!ws.has_windows_or_name());
}

#[test]
fn floating_window_in_empty_workspace_gets_focus() {
    let mut ws = empty_workspace();
    let p = ws.add_tile(1, WorkspaceAddWindowTarget::Auto, ActivateWindow::No, true, SizingMode::Normal, ctx(None));
    assert_eq!(p, TilePlacement::Floating { activate: false });
    // Scrolling is empty, so the floating space must get focus.
    assert!(ws.floating_is_active());
    assert!(ws.is_floating(1));
    assert!(ws.has_window(1));
}

#[test]
fn maximized_floating_window_opens_in_scrolling() {
    let mut ws = empty_workspace();
    let p = ws.add_tile(1, WorkspaceAddWindowTarget::Auto, ActivateWindow::Yes, true, SizingMode::Maximized, ctx(None));
    assert_eq!(p, TilePlacement::Scrolling { column: None, activate: true });
    assert!(!ws.is_floating(1));
    assert!(!ws.floating_is_active());
}

#[test]
fn smart_activation_rules() {
    let mut ws = empty_workspace();
    let c = AddTileContext {
        active_window: None,
        active_pending_fullscreen: true,
        grid_column: Some(3),
    };
    // Does not steal focus from a fullscreen window; goes where the grid inserts.
    let p = ws.add_tile(1, WorkspaceAddWindowTarget::Auto, ActivateWindow::Smart, false, SizingMode::Normal, c);
    assert_eq!(p, TilePlacement::Scrolling { column: Some(3), activate: false });
    // A window at a given column never gets focus with smart activation.
    let p = ws.add_tile(2, WorkspaceAddWindowTarget::NewColumnAt(0), ActivateWindow::Smart, false, SizingMode::Normal, ctx(Some(1)));
    assert_eq!(p, TilePlacement::Scrolling { column: Some(0), activate: false });
    // Next to the active window, it gets focus.
    let p = ws.add_tile(3, WorkspaceAddWindowTarget::NextTo(1), ActivateWindow::Smart, false, SizingMode::Normal, ctx(Some(1)));
    assert_eq!(p, TilePlacement::ScrollingRightOf { next_to: 1, activate: true });
    // Next to another window, it doesn't.
    let p = ws.add_tile(4, WorkspaceAddWindowTarget::NextTo(2), ActivateWindow::Smart, false, SizingMode::Normal, ctx(Some(3)));
    assert_eq!(p, TilePlacement::ScrollingRightOf { next_to: 2, activate: false });
}

#[test]
fn dialog_next_to_tiled_window_floats_over_it() {
    let mut ws = empty_workspace();
    ws.add_tile(1, WorkspaceAddWindowTarget::Auto, ActivateWindow::Yes, false, SizingMode::Normal, ctx(None));
    let p = ws.add_tile(2, WorkspaceAddWindowTarget::NextTo(1), ActivateWindow::Yes, true, SizingMode::Normal, ctx(Some(1)));
    assert_eq!(p, TilePlacement::FloatingOver { next_to: 1, activate: true });
    assert!(ws.floating_is_active());
    let p = ws.add_tile(3, WorkspaceAddWindowTarget::NextTo(2), ActivateWindow::No, true, SizingMode::Normal, ctx(Some(2)));
    assert_eq!(p, TilePlacement::FloatingAbove { next_to: 2, activate: false });
    // A tiled window next to a floating one goes where scrolling puts it.
    let p = ws.add_tile(4, WorkspaceAddWindowTarget::NextTo(2), ActivateWindow::Yes, false, SizingMode::Normal, ctx(Some(2)));
    assert_eq!(p, TilePlacement::Scrolling { column: None, activate: true });
    assert!(!ws.floating_is_active());
}

#[test]
fn removing_windows_moves_focus_between_spaces() {
    let mut ws = empty_workspace();
    ws.add_tile(1, WorkspaceAddWindowTarget::Auto, ActivateWindow::Yes, false, SizingMode::Normal, ctx(None));
    ws.add_tile(2, WorkspaceAddWindowTarget::Auto, ActivateWindow::Yes, true, SizingMode::Normal, ctx(Some(1)));
    assert!(ws.floating_is_active());
    // Removing the last floating window gives focus back to scrolling.
    assert!(ws.remove_tile(2));
    assert!(!ws.floating_is_active());
    ws.add_tile(3, WorkspaceAddWindowTarget::Auto, ActivateWindow::No, true, SizingMode::Normal, ctx(Some(1)));
    assert!(!ws.floating_is_active());
    // Removing the last tiled window gives focus to floating.
    assert!(!ws.remove_tile(1));
    assert!(ws.floating_is_active());
    assert_eq!(ws.remove_active_tile(Some(3)), Some(3));
    assert!(!ws.floating_is_active());
    assert!(!ws.has_windows());
    assert_eq!(ws.remove_active_tile(None), None);
}

#[test]
fn active_column_is_not_removed_while_floating_has_focus() {
    let mut ws = empty_workspace();
    ws.add_column(&vec![1, 2], true, false, false, &vec![false, false]);
    ws.add_tile(3, WorkspaceAddWindowTarget::Auto, ActivateWindow::Yes, true, SizingMode::Normal, ctx(Some(1)));
    assert!(ws.floating_is_active());
    assert!(!ws.remove_active_column(&vec![]));
    assert!(ws.has_window(1));
    ws.focus_tiling();
    assert!(!ws.floating_is_active());
    assert!(ws.remove_active_column(&vec![1, 2]));
    assert!(!ws.has_window(1) && !ws.has_window(2));
    // Scrolling became empty, so focus went to floating.
    assert!(ws.floating_is_active());
}

#[test]
fn activation_moves_focus_to_the_window_space() {
    let mut ws = empty_workspace();
    ws.add_tile(1, WorkspaceAddWindowTarget::Auto, ActivateWindow::Yes, false, SizingMode::Normal, ctx(None));
    ws.add_tile(2, WorkspaceAddWindowTarget::Auto, ActivateWindow::No, true, SizingMode::Normal, ctx(Some(1)));
    assert!(!ws.floating_is_active());
    assert!(ws.activate_window(2));
    assert!(ws.floating_is_active());
    assert!(ws.activate_window_silent(1));
    assert!(!ws.floating_is_active());
    assert!(ws.activate_window_from_grid(2));
    assert!(ws.floating_is_active());
    assert!(!ws.activate_window(99));
    assert!(ws.floating_is_active());
    // Without raising, floating windows stay visible above a fullscreen window.
    assert!(ws.activate_window_without_raising(1));
    assert!(!ws.floating_is_active());
    assert!(ws.is_floating_visible(true));
    assert!(ws.activate_window(1));
    assert!(!ws.is_floating_visible(true));
    assert!(ws.is_floating_visible(false));
    assert_eq!(ws.space_activity(true), (true, false));
    assert_eq!(ws.space_activity(false), (false, false));
}

#[test]
fn switching_focus_twice_returns_to_the_same_space() {
    let mut ws = empty_workspace();
    ws.add_tile(1, WorkspaceAddWindowTarget::Auto, ActivateWindow::Yes, false, SizingMode::Normal, ctx(None));
    // Floating is empty: nothing to switch to.
    ws.switch_focus_floating_tiling();
    assert!(!ws.floating_is_active());
    ws.add_tile(2, WorkspaceAddWindowTarget::Auto, ActivateWindow::No, true, SizingMode::Normal, ctx(Some(1)));
    ws.switch_focus_floating_tiling();
    assert!(ws.floating_is_active());
    ws.switch_focus_floating_tiling();
    assert!(!ws.floating_is_active());
    ws.focus_floating();
    assert!(ws.floating_is_active());
    ws.focus_floating();
    assert!(ws.floating_is_active());
}

#[test]
fn toggling_floating_twice_restores_the_window() {
    let mut ws = empty_workspace();
    ws.add_tile(1, WorkspaceAddWindowTarget::Auto, ActivateWindow::Yes, false, SizingMode::Normal, ctx(None));
    ws.add_tile(2, WorkspaceAddWindowTarget::Auto, ActivateWindow::Yes, false, SizingMode::Normal, ctx(Some(1)));
    let t = ws.toggle_window_floating(None, Some(2));
    assert_eq!(t, Some(FloatingToggle { window: 2, to_floating: true, activate: true }));
    assert!(ws.is_floating(2));
    assert!(ws.floating_is_active());
    let t = ws.toggle_window_floating(Some(2), Some(2));
    assert_eq!(t, Some(FloatingToggle { window: 2, to_floating: false, activate: true }));
    assert!(!ws.is_floating(2));
    assert!(!ws.floating_is_active());
    // A window that isn't active moves without taking focus.
    let t = ws.toggle_window_floating(Some(1), Some(2));
    assert_eq!(t, Some(FloatingToggle { window: 1, to_floating: true, activate: false }));
    assert!(!ws.floating_is_active());
    // Nothing to toggle without a window.
    let mut empty = empty_workspace();
    assert_eq!(empty.toggle_window_floating(None, None), None);
}

#[test]
fn set_window_floating_only_moves_when_needed() {
    let mut ws = empty_workspace();
    ws.add_tile(1, WorkspaceAddWindowTarget::Auto, ActivateWindow::Yes, false, SizingMode::Normal, ctx(None));
    assert_eq!(ws.set_window_floating(Some(1), Some(1), false), None);
    let t = ws.set_window_floating(None, Some(1), true);
    assert_eq!(t, Some(FloatingToggle { window: 1, to_floating: true, activate: true }));
    assert_eq!(ws.set_window_floating(None, Some(1), true), None);
    assert!(ws.targets_floating(None));
    assert!(ws.targets_floating(Some(1)));
    assert!(!ws.targets_floating(Some(7)));
}

#[test]
fn unfullscreen_and_unmaximize_return_to_floating() {
    // A floating window is maximized, then made fullscreen, then unfullscreened
    // (back to maximized), then unmaximized (back to floating).
    let mut ws = empty_workspace();
    ws.add_tile(1, WorkspaceAddWindowTarget::Auto, ActivateWindow::Yes, true, SizingMode::Normal, ctx(None));
    assert!(ws.is_floating(1));

    let r = ws.set_maximized(1, true, Some(1));
    assert_eq!(r, SizingRequest::Apply { restore_to_floating: true });
    assert!(!ws.is_floating(1));

    let r = ws.set_fullscreen(1, true, Some(1));
    assert_eq!(r, SizingRequest::Apply { restore_to_floating: false });

    // Unfullscreen while also maximized: stays tiled.
    let r = ws.set_fullscreen(1, false, Some(1));
    assert_eq!(r, SizingRequest::Apply { restore_to_floating: false });
    assert!(!ws.is_floating(1));

    // Unmaximize: back to floating.
    let r = ws.set_maximized(1, false, Some(1));
    assert_eq!(r, SizingRequest::ReturnedToFloating);
    assert!(ws.is_floating(1));
    assert!(ws.floating_is_active());
}

#[test]
fn unmaximize_while_fullscreen_keeps_tile() {
    let mut ws = empty_workspace();
    ws.add_tile(1, WorkspaceAddWindowTarget::Auto, ActivateWindow::Yes, true, SizingMode::Normal, ctx(None));
    ws.set_maximized(1, true, Some(1));
    ws.set_fullscreen(1, true, Some(1));
    // Unmaximize while fullscreen: the pending mode is fullscreen, not maximized.
    let r = ws.set_maximized(1, false, Some(1));
    assert_eq!(r, SizingRequest::Apply { restore_to_floating: false });
    assert!(!ws.is_floating(1));
    // Unfullscreen (no longer maximized): back to floating.
    let r = ws.set_fullscreen(1, false, Some(1));
    assert_eq!(r, SizingRequest::ReturnedToFloating);
    assert!(ws.is_floating(1));
}

#[test]
fn floating_windows_ignore_unfullscreen() {
    let mut ws = empty_workspace();
    ws.add_tile(1, WorkspaceAddWindowTarget::Auto, ActivateWindow::Yes, true, SizingMode::Normal, ctx(None));
    assert_eq!(ws.set_fullscreen(1, false, Some(1)), SizingRequest::Ignore);
    assert_eq!(ws.set_maximized(1, false, Some(1)), SizingRequest::Ignore);
    assert!(ws.is_floating(1));
    assert!(ws.floating_is_active());
}

#[test]
fn fullscreen_round_trip_keeps_the_space() {
    let mut ws = empty_workspace();
    add_tiled(&mut ws, 1, None);
    ws.add_tile(2, WorkspaceAddWindowTarget::Auto, ActivateWindow::No, true, SizingMode::Normal, ctx(Some(1)));
    // A tiled window stays tiled.
    assert_eq!(ws.set_fullscreen(1, true, Some(1)), SizingRequest::Apply { restore_to_floating: false });
    assert_eq!(ws.set_fullscreen(1, false, Some(1)), SizingRequest::Apply { restore_to_floating: false });
    assert!(!ws.is_floating(1));
    // A floating window that is not active comes back to floating without
    // taking focus.
    assert_eq!(ws.set_fullscreen(2, true, Some(1)), SizingRequest::Apply { restore_to_floating: true });
    assert!(!ws.is_floating(2));
    assert!(!ws.floating_is_active());
    assert_eq!(ws.set_fullscreen(2, false, Some(1)), SizingRequest::ReturnedToFloating);
    assert!(ws.is_floating(2));
    assert!(!ws.floating_is_active());
    // Maximizing and unmaximizing a floating window comes back to floating too.
    assert_eq!(ws.set_maximized(2, true, Some(1)), SizingRequest::Apply { restore_to_floating: true });
    assert_eq!(ws.set_maximized(2, false, Some(1)), SizingRequest::ReturnedToFloating);
    assert!(ws.is_floating(2));
}

#[test]
fn fullscreen_window_added_as_floating_unfullscreens_to_floating() {
    let mut ws = empty_workspace();
    // Asks to float but opens fullscreen: it goes to the scrolling space and
    // remembers to float once unfullscreened.
    let p = ws.add_tile(1, WorkspaceAddWindowTarget::Auto, ActivateWindow::Yes, true, SizingMode::Fullscreen, ctx(None));
    assert!(!ws.is_floating(1));
    assert!(matches!(p, TilePlacement::Scrolling { .. }));
    assert_eq!(ws.toggle_fullscreen(1, Some(1)), SizingRequest::ReturnedToFloating);
    assert!(ws.is_floating(1));
    // A tiled window opened fullscreen stays tiled when unfullscreened.
    ws.add_tile(2, WorkspaceAddWindowTarget::Auto, ActivateWindow::Yes, false, SizingMode::Fullscreen, ctx(Some(1)));
    assert_eq!(ws.toggle_fullscreen(2, Some(2)), SizingRequest::Apply { restore_to_floating: false });
    assert!(!ws.is_floating(2));
}

#[test]
fn column_sizing_is_recorded_for_its_windows() {
    let mut ws = empty_workspace();
    ws.add_column(&vec![1, 2], true, false, true, &vec![true, false]);
    // Window 1 remembers to float: unmaximizing returns it to floating.
    assert_eq!(ws.set_maximized(1, false, Some(1)), SizingRequest::ReturnedToFloating);
    assert!(ws.is_floating(1));
    // Window 2 does not.
    assert_eq!(ws.set_maximized(2, false, Some(1)), SizingRequest::Apply { restore_to_floating: false });
    assert!(!ws.is_floating(2));
    ws.add_tile_to_column(3, false, true, false, true);
    assert_eq!(ws.toggle_fullscreen(3, Some(1)), SizingRequest::ReturnedToFloating);
    assert!(ws.is_floating(3));
}

#[test]
fn grid_focus_picks_the_focused_space() {
    let mut ws = empty_workspace();
    ws.add_tile(1, WorkspaceAddWindowTarget::Auto, ActivateWindow::Yes, false, SizingMode::Normal, ctx(None));
    ws.add_tile(2, WorkspaceAddWindowTarget::Auto, ActivateWindow::No, true, SizingMode::Normal, ctx(Some(1)));
    ws.fix_floating_state_for_active(Some(2));
    assert!(ws.floating_is_active());
    ws.fix_floating_state_for_active(None);
    assert!(ws.floating_is_active());
    ws.fix_floating_state_for_active(Some(1));
    assert!(!ws.floating_is_active());
}

#[test]
fn add_window_to_existing_column() {
    let mut ws = empty_workspace();
    add_tiled(&mut ws, 1, None);
    ws.add_tile(2, WorkspaceAddWindowTarget::Auto, ActivateWindow::Yes, true, SizingMode::Normal, ctx(Some(1)));
    assert!(ws.floating_is_active());
    ws.add_tile_to_column(3, false, false, false, false);
    assert!(ws.floating_is_active());
    ws.add_tile_to_column(4, true, false, false, false);
    assert!(!ws.floating_is_active());
    assert!(ws.has_window(3) && ws.has_window(4));
    assert!(!ws.is_floating(4));
}

#[test]
fn original_output_is_normalized_when_shown_on_it() {
    let mut ids = WorkspaceIdCounter::new();
    let config = WorkspaceConfig {
        name: String::from("code"),
        open_on_output: Some(String::from("dp-2")),
    };
    let mut ws = Workspace::new_with_config(OutputId::new(String::from("DP-1")), Some(config), &mut ids);
    assert_eq!(ws.original_output().name(), "dp-2");
    assert_eq!(ws.current_output().map(|o| o.name()), Some("DP-1"));
    // Same output as before: nothing changes.
    ws.set_output(Some(OutputId::new(String::from("DP-1"))), true, true);
    assert_eq!(ws.original_output().name(), "dp-2");
    assert_eq!(ws.current_output().map(|o| o.name()), Some("DP-1"));
    // Another output that isn't the original one: only the current output changes.
    ws.set_output(Some(OutputId::new(String::from("Other 1"))), false, false);
    assert_eq!(ws.original_output().name(), "dp-2");
    assert_eq!(ws.current_output().map(|o| o.name()), Some("Other 1"));
    // The original output: it takes the output's full identifier.
    ws.set_output(Some(OutputId::new(String::from("Maker Model 42"))), false, true);
    assert_eq!(ws.original_output().name(), "Maker Model 42");
    ws.set_output(None, false, true);
    assert_eq!(ws.original_output().name(), "Maker Model 42");
    assert!(ws.current_output().is_none());
    let no_output = Workspace::new_no_outputs(&mut ids);
    // Another output that carries the current output's name is a change: it
    // normalizes the original output when it matches.
    let mut twin = Workspace::new_with_config(
        OutputId::new(String::from("DP-1")),
        Some(WorkspaceConfig { name: String::from("web"), open_on_output: Some(String::from("dp-1")) }),
        &mut ids,
    );
    twin.set_output(Some(OutputId::new(String::from("DP-1"))), false, true);
    assert_eq!(twin.original_output().name(), "DP-1");
    assert!(no_output.current_output().is_none());
}

#[test]
fn toggles_flip_the_current_state() {
    let mut ws = empty_workspace();
    ws.add_tile(1, WorkspaceAddWindowTarget::Auto, ActivateWindow::Yes, true, SizingMode::Normal, ctx(None));
    // A floating window isn't fullscreen: toggling makes it fullscreen in scrolling.
    let r = ws.toggle_fullscreen(1, Some(1));
    assert_eq!(r, SizingRequest::Apply { restore_to_floating: true });
    assert!(!ws.is_floating(1));
    // Maximized while fullscreen: the column is both.
    assert_eq!(ws.toggle_maximized(1, Some(1)), SizingRequest::Apply { restore_to_floating: false });
    // Unfullscreen: still maximized, so it stays tiled.
    assert_eq!(ws.toggle_fullscreen(1, Some(1)), SizingRequest::Apply { restore_to_floating: false });
    assert!(!ws.is_floating(1));
    // Toggling maximize of a maximized column unmaximizes it, back to floating.
    let r = ws.toggle_maximized(1, Some(1));
    assert_eq!(r, SizingRequest::ReturnedToFloating);
    assert!(ws.is_floating(1));
    let r = ws.toggle_maximized(1, Some(1));
    assert_eq!(r, SizingRequest::Apply { restore_to_floating: true });
}

#[test]
fn moving_a_floating_position_of_a_tiled_window_needs_a_start() {
    let mut ws = empty_workspace();
    add_tiled(&mut ws, 1, None);
    ws.add_tile(2, WorkspaceAddWindowTarget::Auto, ActivateWindow::No, true, SizingMode::Normal, ctx(Some(1)));
    assert_eq!(ws.floating_move(Some(2), Some(1), false, AdjustBy, AdjustBy), FloatingMove::InFloatingSpace);
    assert_eq!(ws.floating_move(None, Some(1), false, SetTo, AdjustBy), FloatingMove::Nowhere);
    assert_eq!(ws.floating_move(None, Some(1), true, AdjustBy, AdjustBy),
        FloatingMove::StoredPosition { window: 1, from_origin: false });
    assert_eq!(ws.floating_move(Some(1), Some(1), false, SetTo, SetTo),
        FloatingMove::StoredPosition { window: 1, from_origin: true });
    let empty = empty_workspace();
    assert_eq!(empty.floating_move(None, None, false, SetTo, SetTo), FloatingMove::Nowhere);
}

#[test]
fn workspaces_from_one_counter_have_distinct_ids() {
    let mut ids = WorkspaceIdCounter::new();
    let a = Workspace::new(OutputId::new(String::from("DP-1")), &mut ids);
    let b = Workspace::new_no_outputs(&mut ids);
    let c = Workspace::new_with_config_no_outputs(None, &mut ids);
    assert_ne!(a.id(), b.id());
    assert_ne!(b.id(), c.id());
    assert_ne!(a.id(), c.id());
}
