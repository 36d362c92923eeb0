use niri_workspace::grid::{
    grid_action_window, grid_check_order, grid_expel_from_column_preferred_focus,
    grid_focused_window_id, grid_insert_column, grid_item_renders_on_top_when_grid_closing,
    implicit_grid_window, initial_column_tile_focus, render_above_top_layer, sync_column_tile_focus,
    GridActivity, GridItem,
};
use niri_workspace::grid_render::{
    grid_close_request, grid_item_suppressions, grid_open_request, grid_render_order,
    grid_render_updates, grid_toggle, GridLifecycle, GridRenderItem,
};

fn render_item(in_floating_layer: bool, visible_when_closing: bool, on_top_when_closing: bool, is_tab: bool, is_active_tab: bool) -> GridRenderItem {
    GridRenderItem { in_floating_layer, visible_when_closing, on_top_when_closing, is_tab, is_active_tab }
}

#[test]
fn grid_draws_floating_layer_first_and_active_tabs_above_inactive_ones() {
    let items = vec![
        render_item(true, true, false, false, false),
        render_item(false, true, false, false, false),
        render_item(false, true, false, true, true),
        render_item(false, true, false, true, false),
    ];
    // Opening: floating items above tiling ones; within tiling, the focused
    // item, then the active tab, then the rest.
    assert_eq!(grid_render_order(&items, Some(1), false, false),
        vec![(0, false), (1, true), (2, false), (3, false)]);
    assert_eq!(grid_render_order(&items, Some(1), false, true),
        vec![(0, false), (1, true), (2, false), (3, false)]);
    // Open and settled with the active tab focused.
    assert_eq!(grid_render_order(&items, Some(2), false, false),
        vec![(0, false), (2, true), (1, false), (3, false)]);
}

#[test]
fn closing_grid_draws_on_top_items_first_and_hides_invisible_ones() {
    let items = vec![
        render_item(true, false, false, false, false),
        render_item(false, true, false, false, false),
        render_item(false, true, true, true, true),
        render_item(false, true, false, true, false),
    ];
    // The floating item is hidden, the on-top active tab comes first, the
    // focused inactive tab is drawn unfocused before the rest.
    assert_eq!(grid_render_order(&items, Some(3), true, false),
        vec![(2, false), (3, false), (1, false)]);
    // A focused item that renders on top keeps its focus flag.
    assert_eq!(grid_render_order(&items, Some(2), true, false),
        vec![(2, true), (1, false), (3, false)]);
    assert_eq!(grid_render_order(&vec![], None, true, true), vec![]);
}

#[test]
fn closing_tabs_lose_decorations_unless_focused() {
    assert_eq!(grid_item_suppressions(true, true, false, false), (true, true));
    assert_eq!(grid_item_suppressions(true, true, false, true), (true, false));
    assert_eq!(grid_item_suppressions(true, true, true, false), (false, false));
    assert_eq!(grid_item_suppressions(false, true, false, false), (false, false));
    assert_eq!(grid_item_suppressions(true, false, false, false), (false, false));
}

#[test]
fn opening_grid_focuses_each_column_on_its_active_tile() {
    let entries = vec![
        GridItem::Column { col_idx: 0, window_id: 10 },
        GridItem::Tab { col_idx: 1, tile_idx: 0, window_id: 11 },
        GridItem::Column { col_idx: 2, window_id: 12 },
        GridItem::Floating { window_id: 13 },
    ];
    assert_eq!(initial_column_tile_focus(&entries, &vec![1, 0, 3]), vec![(0, 1), (2, 3)]);
    assert_eq!(initial_column_tile_focus(&vec![], &vec![]), vec![]);
}

#[test]
fn new_window_goes_right_of_focused_grid_column() {
    let entries = vec![
        GridItem::Column { col_idx: 0, window_id: 1 },
        GridItem::Tab { col_idx: 1, tile_idx: 0, window_id: 2 },
        GridItem::Floating { window_id: 3 },
    ];
    assert_eq!(grid_insert_column(true, (0, 0), 2, &entries), Some(1));
    assert_eq!(grid_insert_column(true, (0, 1), 2, &entries), Some(2));
    assert_eq!(grid_insert_column(true, (1, 0), 2, &entries), None);
    assert_eq!(grid_insert_column(true, (1, 1), 2, &entries), None);
    assert_eq!(grid_insert_column(false, (0, 0), 2, &entries), None);
}

#[test]
fn grid_focus_prefers_focused_column_tile() {
    let col = GridItem::Column { col_idx: 0, window_id: 1 };
    let tiles = vec![1, 2, 3];
    assert_eq!(grid_focused_window_id(Some(col), Some(&tiles), 2), Some(3));
    assert_eq!(grid_focused_window_id(Some(col), Some(&tiles), 5), Some(1));
    assert_eq!(grid_focused_window_id(Some(col), None, 0), Some(1));
    let tab = GridItem::Tab { col_idx: 0, tile_idx: 1, window_id: 2 };
    assert_eq!(grid_focused_window_id(Some(tab), Some(&tiles), 0), Some(2));
    assert_eq!(grid_focused_window_id(None, Some(&tiles), 0), None);
}

#[test]
fn expelling_last_tile_focuses_previous_tile() {
    let col = GridItem::Column { col_idx: 0, window_id: 1 };
    let tiles = vec![1, 2, 3];
    assert_eq!(grid_expel_from_column_preferred_focus(Some(3), Some(col), Some(&tiles)), Some(2));
    assert_eq!(grid_expel_from_column_preferred_focus(Some(2), Some(col), Some(&tiles)), Some(2));
    let single = vec![5];
    assert_eq!(grid_expel_from_column_preferred_focus(Some(5), Some(col), Some(&single)), Some(5));
    assert_eq!(grid_expel_from_column_preferred_focus(Some(9), Some(col), Some(&tiles)), None);
    let floating = GridItem::Floating { window_id: 7 };
    assert_eq!(grid_expel_from_column_preferred_focus(Some(7), Some(floating), None), Some(7));
    assert_eq!(grid_expel_from_column_preferred_focus(None, Some(col), Some(&tiles)), None);
    assert_eq!(grid_expel_from_column_preferred_focus(Some(3), None, Some(&tiles)), None);
}

#[test]
fn fullscreen_items_render_on_top_while_closing() {
    let col = GridItem::Column { col_idx: 0, window_id: 1 };
    assert!(grid_item_renders_on_top_when_grid_closing(&col, Some(true), None));
    assert!(!grid_item_renders_on_top_when_grid_closing(&col, Some(false), Some(1)));
    assert!(!grid_item_renders_on_top_when_grid_closing(&col, None, Some(1)));
    let tab = GridItem::Tab { col_idx: 0, tile_idx: 1, window_id: 2 };
    assert!(grid_item_renders_on_top_when_grid_closing(&tab, Some(true), Some(2)));
    assert!(!grid_item_renders_on_top_when_grid_closing(&tab, Some(true), Some(1)));
    let floating = GridItem::Floating { window_id: 3 };
    assert!(!grid_item_renders_on_top_when_grid_closing(&floating, Some(true), Some(3)));
}

#[test]
fn tile_focus_follows_recomputed_layout() {
    // Columns: 0 has 3 tiles (active 2), 1 has 1 tile, 2 has 2 tiles (active 1).
    let columns = vec![(3, 2), (1, 0), (2, 1)];
    let entries = vec![
        GridItem::Column { col_idx: 0, window_id: 10 },
        GridItem::Tab { col_idx: 1, tile_idx: 0, window_id: 11 },
        GridItem::Column { col_idx: 2, window_id: 12 },
    ];
    // Column 1 is no longer a column item; column 2 points past its tiles;
    // column 0 has no entry yet.
    let mut focus = vec![(1, 0), (2, 5)];
    sync_column_tile_focus(&mut focus, &entries, &columns);
    assert_eq!(focus, vec![(2, 1), (0, 2)]);
    // A valid entry is kept as is.
    let mut focus = vec![(0, 1), (2, 0)];
    sync_column_tile_focus(&mut focus, &entries, &columns);
    assert_eq!(focus, vec![(0, 1), (2, 0)]);
}

#[test]
fn hit_tests_check_focused_cell_first() {
    let cells = vec![(0, 0), (0, 1), (1, 0), (1, 1)];
    assert_eq!(grid_check_order(&cells, (1, 0), Some((0, 1))), vec![2, 1, 0, 3]);
    assert_eq!(grid_check_order(&cells, (0, 0), None), vec![0, 1, 2, 3]);
    assert_eq!(grid_check_order(&cells, (5, 5), Some((1, 1))), vec![3, 0, 1, 2]);
    assert_eq!(grid_check_order(&vec![], (0, 0), None), Vec::<usize>::new());
}

#[test]
fn sizing_actions_target_grid_focus() {
    assert_eq!(implicit_grid_window(None, true, Some(2)), Some(2));
    assert_eq!(implicit_grid_window(Some(1), true, Some(2)), None);
    assert_eq!(implicit_grid_window(None, false, Some(2)), None);
    assert_eq!(grid_action_window(None, true, Some(2)), Some(2));
    assert_eq!(grid_action_window(Some(1), true, Some(2)), Some(1));
    assert_eq!(grid_action_window(None, false, Some(2)), None);
}

#[test]
fn grid_overview_keeps_workspace_below_top_layer() {
    let idle = GridActivity { open: false, in_progress: false, animating: false };
    let open = GridActivity { open: true, in_progress: false, animating: false };
    let closing = GridActivity { open: false, in_progress: true, animating: true };
    assert!(render_above_top_layer(None, true));
    assert!(!render_above_top_layer(None, false));
    assert!(render_above_top_layer(Some(idle), true));
    assert!(!render_above_top_layer(Some(open), true));
    assert!(!render_above_top_layer(Some(closing), true));
    assert_eq!(GridItem::Tab { col_idx: 0, tile_idx: 0, window_id: 4 }.window_id(), 4);
}

#[test]
fn grid_updates_visible_entries_and_focuses_one() {
    let visible = vec![true, false, true];
    assert_eq!(grid_render_updates(&visible, true, false, Some(1), Some(7)),
        vec![(0, None), (1, Some(7)), (2, None)]);
    assert_eq!(grid_render_updates(&visible, true, true, Some(2), Some(7)),
        vec![(0, None), (2, Some(7))]);
    assert_eq!(grid_render_updates(&visible, false, false, Some(0), Some(7)), vec![]);
}

#[test]
fn grid_open_and_close_requests() {
    assert_eq!(grid_toggle(false, true), GridLifecycle::Open);
    assert_eq!(grid_toggle(false, false), GridLifecycle::Unchanged);
    assert_eq!(grid_toggle(true, false), GridLifecycle::Close);
    assert_eq!(grid_open_request(true, true), (false, GridLifecycle::Unchanged));
    assert_eq!(grid_open_request(false, true), (true, GridLifecycle::Open));
    assert_eq!(grid_open_request(false, false), (true, GridLifecycle::Unchanged));
    assert_eq!(grid_close_request(false), (false, GridLifecycle::Unchanged));
    assert_eq!(grid_close_request(true), (true, GridLifecycle::Close));
}
