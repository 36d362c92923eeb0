use vstd::prelude::*;

verus! {

/// An item of the grid overview: a whole scrolling column, one tab of a
/// tabbed scrolling column, or a floating window.
#[derive(Debug, Clone, Copy, PartialEq, Eq, Structural)]
pub enum GridItem {
    /// A scrolling column; `window_id` is the window that represents it.
    Column { col_idx: usize, window_id: u64 },
    /// One tab of a tabbed scrolling column.
    Tab { col_idx: usize, tile_idx: usize, window_id: u64 },
    /// A floating window.
    Floating { window_id: u64 },
}

impl GridItem {
    /// The window that the item stands for.
    pub open spec fn spec_window_id(self) -> u64 {
        match self {
            GridItem::Column { window_id, .. } => window_id,
            GridItem::Tab { window_id, .. } => window_id,
            GridItem::Floating { window_id } => window_id,
        }
    }

    /// The scrolling column of the item, if it has one.
    pub open spec fn column(self) -> Option<usize> {
        match self {
            GridItem::Column { col_idx, .. } => Some(col_idx),
            GridItem::Tab { col_idx, .. } => Some(col_idx),
            GridItem::Floating { .. } => None,
        }
    }

    /// The window that the item stands for.
    pub fn window_id(&self) -> (r: u64)
        ensures
            r == self.spec_window_id(),
    {
        match self {
            GridItem::Column { window_id, .. } => *window_id,
            GridItem::Tab { window_id, .. } => *window_id,
            GridItem::Floating { window_id } => *window_id,
        }
    }
}

/// The scrolling column at which a new window is inserted while the grid
/// overview is open: the one right of the column of the focused grid cell.
/// The cells are laid out row by row, `cols` per row.
pub open spec fn spec_grid_insert_column(
    open: bool,
    focus: (usize, usize),
    cols: usize,
    entries: Seq<GridItem>,
) -> Option<usize> {
    let idx = focus.0 * cols + focus.1;
    if !open || idx >= entries.len() {
        None
    } else {
        match entries[idx].column() {
            Some(c) => Some((c + 1) as usize),
            None => None,
        }
    }
}

/// The scrolling column at which a new window is inserted while the grid
/// overview is open, if it is open and its focused cell holds a scrolling
/// item.
pub fn grid_insert_column(open: bool, focus: (usize, usize), cols: usize, entries: &Vec<GridItem>) -> (r: Option<usize>)
    requires
        focus.0 * cols + focus.1 <= usize::MAX,
        forall|i: int|
            0 <= i < entries@.len() ==> ((#[trigger] entries@[i]).column() matches Some(c) ==> c
                < usize::MAX),
    ensures
        r == spec_grid_insert_column(open, focus, cols, entries@),
{
    if !open {
        return None;
    }
    assert(focus.0 * cols <= focus.0 * cols + focus.1);
    let idx = focus.0 * cols + focus.1;
    if idx >= entries.len() {
        return None;
    }
    match &entries[idx] {
        GridItem::Column { col_idx, .. } => Some(*col_idx + 1),
        GridItem::Tab { col_idx, .. } => Some(*col_idx + 1),
        GridItem::Floating { .. } => None,
    }
}

/// The window focused in the grid overview, given its focused item, the
/// windows of that item's scrolling column (if it is a column that still
/// exists), and the tile of that column that the grid focuses.
///
/// For a column it is the focused tile, falling back to the window that
/// represents the column; for other items it is the item's window.
pub fn grid_focused_window_id(item: Option<GridItem>, column_tiles: Option<&Vec<u64>>, tile_focus: usize) -> (r: Option<u64>)
    ensures
        r == match item {
            None => None,
            Some(GridItem::Column { window_id, .. }) => match column_tiles {
                Some(t) => if tile_focus < t@.len() {
                    Some(t@[tile_focus as int])
                } else {
                    Some(window_id)
                },
                None => Some(window_id),
            },
            Some(i) => Some(i.spec_window_id()),
        },
{
    let item = match item {
        Some(i) => i,
        None => return None,
    };
    if let GridItem::Column { window_id, .. } = item {
        return match column_tiles {
            Some(t) => if tile_focus < t.len() {
                Some(t[tile_focus])
            } else {
                Some(window_id)
            },
            None => Some(window_id),
        };
    }
    Some(item.window_id())
}

/// The window that should keep grid focus when the focused window is expelled
/// from its column: the previous tile when the focused window is the last of a
/// column of several tiles, else the focused window itself.
///
/// `column_tiles` are the windows of the scrolling column of the focused item.
/// There is no answer when nothing is focused, when the window has no grid
/// item, or when it cannot be found in its column.
pub fn grid_expel_from_column_preferred_focus(
    focused: Option<u64>,
    item: Option<GridItem>,
    column_tiles: Option<&Vec<u64>>,
) -> (r: Option<u64>)
    requires
        column_tiles matches Some(t) ==> t@.no_duplicates(),
    ensures
        r == match (focused, item) {
            (Some(id), Some(GridItem::Floating { .. })) => Some(id),
            (Some(id), Some(_)) => match column_tiles {
                Some(t) => if t@.contains(id) {
                    let i = t@.index_of(id);
                    if t@.len() > 1 && i + 1 == t@.len() {
                        Some(t@[i - 1])
                    } else {
                        Some(id)
                    }
                } else {
                    None
                },
                None => None,
            },
            _ => None,
        },
{
    let id = match focused {
        Some(id) => id,
        None => return None,
    };
    let item = match item {
        Some(i) => i,
        None => return None,
    };
    if let GridItem::Floating { .. } = item {
        return Some(id);
    }
    let col = match column_tiles {
        Some(t) => t,
        None => return None,
    };
    let tile_idx = match crate::window_list::position_of(col, id) {
        Some(i) => i,
        None => return None,
    };
    proof {
        assert(col@.contains(id));
        let j = col@.index_of(id);
        assert(col@[j] == id);
        assert(j == tile_idx);
    }
    let tile_count = col.len();
    if tile_count > 1 && tile_idx + 1 == tile_count {
        return Some(col[tile_idx - 1]);
    }
    Some(id)
}

/// Whether a grid item is drawn above the other items while the grid overview
/// closes: a column whose scrolling column is pending fullscreen, or the
/// active tab of such a column.
///
/// `column_pending_fullscreen` tells whether the item's scrolling column is
/// pending fullscreen (`None` when it no longer exists), and
/// `active_tile_window` is the window of that column's active tile.
pub fn grid_item_renders_on_top_when_grid_closing(
    item: &GridItem,
    column_pending_fullscreen: Option<bool>,
    active_tile_window: Option<u64>,
) -> (r: bool)
    ensures
        r == match *item {
            GridItem::Column { .. } => column_pending_fullscreen == Some(true),
            GridItem::Tab { window_id, .. } => column_pending_fullscreen == Some(true)
                && active_tile_window == Some(window_id),
            GridItem::Floating { .. } => false,
        },
{
    match item {
        GridItem::Column { .. } => match column_pending_fullscreen {
            Some(f) => f,
            None => false,
        },
        GridItem::Tab { window_id, .. } => {
            let fullscreen = match column_pending_fullscreen {
                Some(f) => f,
                None => false,
            };
            if !fullscreen {
                return false;
            }
            match active_tile_window {
                Some(w) => w == *window_id,
                None => false,
            }
        },
        GridItem::Floating { .. } => false,
    }
}

/// The scrolling columns that appear in the grid as whole-column items, among
/// the first `n` items, in item order.
pub open spec fn column_items_prefix(entries: Seq<GridItem>, n: nat) -> Seq<usize>
    decreases n,
{
    if n == 0 || n > entries.len() {
        Seq::empty()
    } else {
        let prev = column_items_prefix(entries, (n - 1) as nat);
        match entries[n - 1] {
            GridItem::Column { col_idx, .. } => prev.push(col_idx),
            _ => prev,
        }
    }
}

/// The scrolling columns that appear in the grid as whole-column items, in
/// item order.
pub open spec fn column_items(entries: Seq<GridItem>) -> Seq<usize> {
    column_items_prefix(entries, entries.len())
}

/// The focused tile of every whole-column item when the grid overview opens:
/// the active tile of that column, in item order. `active_tiles` gives the
/// active tile of each scrolling column.
pub fn initial_column_tile_focus(entries: &Vec<GridItem>, active_tiles: &Vec<usize>) -> (r: Vec<(usize, usize)>)
    requires
        forall|c: usize| #[trigger] column_items(entries@).contains(c) ==> c < active_tiles@.len(),
    ensures
        r@ == column_items(entries@).map_values(|c: usize| (c, active_tiles@[c as int])),
{
    let mut r: Vec<(usize, usize)> = Vec::new();
    let mut i: usize = 0;
    while i < entries.len()
        invariant
            i <= entries@.len(),
            forall|c: usize| #[trigger] column_items(entries@).contains(c) ==> c < active_tiles@.len(),
            r@ == column_items_prefix(entries@, i as nat).map_values(
                |c: usize| (c, active_tiles@[c as int]),
            ),
            forall|c: usize| #[trigger] column_items_prefix(entries@, i as nat).contains(c)
                ==> column_items(entries@).contains(c),
        decreases entries@.len() - i,
    {
        proof {
            lemma_column_items_prefix_grows(entries@, (i + 1) as nat, entries@.len());
        }
        match entries[i] {
            GridItem::Column { col_idx, .. } => {
                assert(column_items_prefix(entries@, (i + 1) as nat) == column_items_prefix(
                    entries@,
                    i as nat,
                ).push(col_idx));
                let ghost p = column_items_prefix(entries@, (i + 1) as nat);
                assert(p[p.len() - 1] == col_idx);
                assert(p.contains(col_idx));
                assert(column_items(entries@).contains(col_idx));
                r.push((col_idx, active_tiles[col_idx]));
                assert(r@ == column_items_prefix(entries@, (i + 1) as nat).map_values(
                    |c: usize| (c, active_tiles@[c as int]),
                ));
            },
            _ => {},
        }
        proof {
            assert forall|c: usize| #[trigger] column_items_prefix(entries@, (i + 1) as nat).contains(c)
                implies column_items(entries@).contains(c) by {}
        }
        i = i + 1;
    }
    r
}

/// Every whole-column item among the first `n` items is one among the first
/// `m >= n`.
proof fn lemma_column_items_prefix_grows(entries: Seq<GridItem>, n: nat, m: nat)
    requires
        n <= m <= entries.len(),
    ensures
        forall|c: usize| #[trigger] column_items_prefix(entries, n).contains(c)
            ==> column_items_prefix(entries, m).contains(c),
    decreases m - n,
{
    if n < m {
        lemma_column_items_prefix_grows(entries, (n + 1) as nat, m);
        assert forall|c: usize| #[trigger] column_items_prefix(entries, n).contains(c)
            implies column_items_prefix(entries, (n + 1) as nat).contains(c) by {
            let p = column_items_prefix(entries, n);
            let k = choose|k: int| 0 <= k < p.len() && p[k] == c;
            assert(column_items_prefix(entries, (n + 1) as nat)[k] == c);
        }
    }
}

/// The first `n` focus entries that belong to one of the `valid` columns.
pub open spec fn retain_prefix(focus: Seq<(usize, usize)>, valid: Seq<usize>, n: nat) -> Seq<(usize, usize)>
    decreases n,
{
    if n == 0 || n > focus.len() {
        Seq::empty()
    } else {
        let prev = retain_prefix(focus, valid, (n - 1) as nat);
        if valid.contains(focus[n - 1].0) {
            prev.push(focus[n - 1])
        } else {
            prev
        }
    }
}

/// `i` is the first entry of `f` for column `col`.
pub open spec fn is_first_for(f: Seq<(usize, usize)>, col: usize, i: int) -> bool {
    &&& 0 <= i < f.len()
    &&& f[i].0 == col
    &&& forall|j: int| 0 <= j < i ==> f[j].0 != col
}

/// The tile focus entries after column `col` was synced: an entry pointing
/// past the column's tiles is reset to the column's active tile, and a
/// column without an entry gets one for its active tile. `columns[col]` is
/// the tile count and the active tile of the column.
pub open spec fn sync_step(f: Seq<(usize, usize)>, col: usize, columns: Seq<(usize, usize)>) -> Seq<(usize, usize)> {
    if exists|i: int| is_first_for(f, col, i) {
        let i = choose|i: int| is_first_for(f, col, i);
        if f[i].1 >= columns[col as int].0 {
            f.update(i, (col, columns[col as int].1))
        } else {
            f
        }
    } else {
        f.push((col, columns[col as int].1))
    }
}

/// The tile focus entries after the first `n` of the `valid` columns were
/// synced.
pub open spec fn sync_prefix(
    f: Seq<(usize, usize)>,
    valid: Seq<usize>,
    columns: Seq<(usize, usize)>,
    n: nat,
) -> Seq<(usize, usize)>
    decreases n,
{
    if n == 0 || n > valid.len() {
        f
    } else {
        sync_step(sync_prefix(f, valid, columns, (n - 1) as nat), valid[n - 1], columns)
    }
}

/// The per-column tile focus of the grid overview after its layout was
/// recomputed with `entries`: entries of columns that are no longer whole
/// column items are dropped, then every such column is synced in item order.
pub open spec fn synced_tile_focus(
    focus: Seq<(usize, usize)>,
    entries: Seq<GridItem>,
    columns: Seq<(usize, usize)>,
) -> Seq<(usize, usize)> {
    let valid = column_items(entries);
    sync_prefix(retain_prefix(focus, valid, focus.len()), valid, columns, valid.len())
}

fn column_indices(entries: &Vec<GridItem>) -> (r: Vec<usize>)
    ensures
        r@ == column_items(entries@),
{
    let mut r: Vec<usize> = Vec::new();
    let mut i: usize = 0;
    while i < entries.len()
        invariant
            i <= entries@.len(),
            r@ == column_items_prefix(entries@, i as nat),
        decreases entries@.len() - i,
    {
        if let GridItem::Column { col_idx, .. } = &entries[i] {
            r.push(*col_idx);
        }
        i = i + 1;
    }
    r
}

fn contains_usize(v: &Vec<usize>, x: usize) -> (r: bool)
    ensures
        r == v@.contains(x),
{
    let mut i: usize = 0;
    while i < v.len()
        invariant
            i <= v@.len(),
            forall|j: int| 0 <= j < i ==> v@[j] != x,
        decreases v@.len() - i,
    {
        if v[i] == x {
            assert(v@[i as int] == x);
            return true;
        }
        i = i + 1;
    }
    false
}

fn first_for_column(f: &Vec<(usize, usize)>, col: usize) -> (r: Option<usize>)
    ensures
        match r {
            Some(i) => is_first_for(f@, col, i as int),
            None => forall|m: int| !is_first_for(f@, col, m),
        },
{
    let mut j: usize = 0;
    while j < f.len()
        invariant
            j <= f@.len(),
            forall|m: int| 0 <= m < j ==> f@[m].0 != col,
        decreases f@.len() - j,
    {
        if f[j].0 == col {
            return Some(j);
        }
        j = j + 1;
    }
    None
}

proof fn lemma_first_unique(f: Seq<(usize, usize)>, col: usize, i: int, k: int)
    requires
        is_first_for(f, col, i),
        is_first_for(f, col, k),
    ensures
        i == k,
{
    if i < k {
        assert(f[i].0 != col);
    } else if k < i {
        assert(f[k].0 != col);
    }
}

/// Keeps the grid overview's per-column tile focus in step with a recomputed
/// layout whose items are `entries`. `focus` holds pairs of a scrolling column
/// and the tile of it that the grid focuses; `columns[c]` holds the tile count
/// and the active tile of scrolling column `c`.
pub fn sync_column_tile_focus(focus: &mut Vec<(usize, usize)>, entries: &Vec<GridItem>, columns: &Vec<(usize, usize)>)
    requires
        forall|c: usize| #[trigger] column_items(entries@).contains(c) ==> (c as int) < columns@.len(),
    ensures
        final(focus)@ == synced_tile_focus(old(focus)@, entries@, columns@),
        distinct_columns(old(focus)@) ==> forall|i: int, j: int|
            0 <= i < final(focus)@.len() && 0 <= j < old(focus)@.len() && old(focus)@[j].0 == (
            #[trigger] final(focus)@[i]).0 ==> final(focus)@[i].1 == if (
            #[trigger] old(focus)@[j]).1 >= columns@[final(focus)@[i].0 as int].0 {
                columns@[final(focus)@[i].0 as int].1
            } else {
                old(focus)@[j].1
            },
        distinct_columns(old(focus)@) ==> forall|i: int|
            0 <= i < final(focus)@.len() && (forall|j: int|
                0 <= j < old(focus)@.len() ==> old(focus)@[j].0 != (#[trigger] final(focus)@[i]).0)
                ==> final(focus)@[i].1 == columns@[final(focus)@[i].0 as int].1,
{
    proof {
        if distinct_columns(focus@) {
            synced_tile_focus_keeps_or_resets_to_active(focus@, entries@, columns@);
        }
    }
    let valid = column_indices(entries);
    let ghost f0 = focus@;
    let mut kept: Vec<(usize, usize)> = Vec::new();
    let mut i: usize = 0;
    while i < focus.len()
        invariant
            i <= focus@.len(),
            focus@ == f0,
            kept@ == retain_prefix(f0, valid@, i as nat),
        decreases focus@.len() - i,
    {
        let entry = focus[i];
        if contains_usize(&valid, entry.0) {
            kept.push(entry);
        }
        i = i + 1;
    }
    let mut k: usize = 0;
    while k < valid.len()
        invariant
            k <= valid@.len(),
            valid@ == column_items(entries@),
            forall|c: usize| #[trigger] valid@.contains(c) ==> (c as int) < columns@.len(),
            kept@ == sync_prefix(retain_prefix(f0, valid@, f0.len()), valid@, columns@, k as nat),
        decreases valid@.len() - k,
    {
        let col = valid[k];
        assert(valid@.contains(col));
        let (tile_count, active_tile) = columns[col];
        let ghost before = kept@;
        let found = first_for_column(&kept, col);
        proof {
            if let Some(idx) = found {
                let c = choose|c: int| is_first_for(before, col, c);
                lemma_first_unique(before, col, idx as int, c);
            }
        }
        match found {
            Some(idx) => {
                if kept[idx].1 >= tile_count {
                    kept.set(idx, (col, active_tile));
                }
            },
            None => {
                kept.push((col, active_tile));
            },
        }
        k = k + 1;
    }
    *focus = kept;
}

/// The grid cell of every item, compared against the focused cell and the
/// previously focused cell: 0 for the focused one, 1 for the previously
/// focused one, 2 for the others.
pub open spec fn check_pass(cell: (usize, usize), focus: (usize, usize), previous_focus: Option<(usize, usize)>) -> nat {
    if cell == focus {
        0
    } else if previous_focus == Some(cell) {
        1
    } else {
        2
    }
}

/// Indices among the first `n` cells whose check pass is `pass`, in order.
pub open spec fn pass_prefix(
    cells: Seq<(usize, usize)>,
    focus: (usize, usize),
    previous_focus: Option<(usize, usize)>,
    pass: nat,
    n: nat,
) -> Seq<usize>
    decreases n,
{
    if n == 0 || n > cells.len() {
        Seq::empty()
    } else {
        let prev = pass_prefix(cells, focus, previous_focus, pass, (n - 1) as nat);
        if check_pass(cells[n - 1], focus, previous_focus) == pass {
            prev.push((n - 1) as usize)
        } else {
            prev
        }
    }
}

/// The order in which hit tests visit the grid items: the focused cell first,
/// then the previously focused cell, then the rest, each in item order.
pub open spec fn spec_grid_check_order(
    cells: Seq<(usize, usize)>,
    focus: (usize, usize),
    previous_focus: Option<(usize, usize)>,
) -> Seq<usize> {
    pass_prefix(cells, focus, previous_focus, 0, cells.len()) + pass_prefix(
        cells,
        focus,
        previous_focus,
        1,
        cells.len(),
    ) + pass_prefix(cells, focus, previous_focus, 2, cells.len())
}

fn pass_indices(
    cells: &Vec<(usize, usize)>,
    focus: (usize, usize),
    previous_focus: Option<(usize, usize)>,
    pass: u8,
    out: &mut Vec<usize>,
)
    requires
        pass <= 2,
    ensures
        final(out)@ == old(out)@ + pass_prefix(cells@, focus, previous_focus, pass as nat, cells@.len()),
{
    let ghost start = out@;
    let mut i: usize = 0;
    while i < cells.len()
        invariant
            i <= cells@.len(),
            out@ == start + pass_prefix(cells@, focus, previous_focus, pass as nat, i as nat),
        decreases cells@.len() - i,
    {
        let cell = cells[i];
        let is_focused = cell.0 == focus.0 && cell.1 == focus.1;
        let is_previous_focus = match previous_focus {
            Some(p) => p.0 == cell.0 && p.1 == cell.1,
            None => false,
        };
        let cell_pass: u8 = if is_focused {
            0
        } else if is_previous_focus {
            1
        } else {
            2
        };
        assert(cell_pass as nat == check_pass(cells@[i as int], focus, previous_focus));
        if cell_pass == pass {
            out.push(i);
            assert(start + pass_prefix(cells@, focus, previous_focus, pass as nat, (i + 1) as nat)
                == (start + pass_prefix(cells@, focus, previous_focus, pass as nat, i as nat)).push(i));
        }
        i = i + 1;
    }
}

/// The order in which the grid's hit tests visit its items, whose cells are
/// `cells`: the focused cell first, then the previously focused one, then the
/// rest in item order.
pub fn grid_check_order(
    cells: &Vec<(usize, usize)>,
    focus: (usize, usize),
    previous_focus: Option<(usize, usize)>,
) -> (r: Vec<usize>)
    ensures
        r@ == spec_grid_check_order(cells@, focus, previous_focus),
        forall|x: int, y: int|
            0 <= x < r@.len() && 0 <= y < r@.len() && cells@[(#[trigger] r@[x]) as int] == focus
                && cells@[(#[trigger] r@[y]) as int] != focus ==> x < y,
        forall|x: int, y: int|
            0 <= x < r@.len() && 0 <= y < r@.len() && cells@[(#[trigger] r@[x]) as int] != focus
                && previous_focus == Some(cells@[r@[x] as int]) && cells@[(
            #[trigger] r@[y]) as int] != focus && previous_focus != Some(cells@[r@[y] as int]) ==> x < y,
{
    let cell_count = cells.len();
    let mut r: Vec<usize> = Vec::new();
    pass_indices(cells, focus, previous_focus, 0, &mut r);
    pass_indices(cells, focus, previous_focus, 1, &mut r);
    pass_indices(cells, focus, previous_focus, 2, &mut r);
    proof {
        assert(cells@.len() == cell_count);
        assert(r@ =~= spec_grid_check_order(cells@, focus, previous_focus));
        grid_check_order_ranks(cells@, focus, previous_focus);
    }
    r
}

proof fn lemma_pass_prefix(
    cells: Seq<(usize, usize)>,
    focus: (usize, usize),
    previous_focus: Option<(usize, usize)>,
    pass: nat,
    n: nat,
)
    requires
        n <= cells.len(),
        cells.len() <= usize::MAX,
    ensures
        forall|k: int|
            0 <= k < pass_prefix(cells, focus, previous_focus, pass, n).len() ==> {
                let v = #[trigger] pass_prefix(cells, focus, previous_focus, pass, n)[k];
                &&& (v as int) < n
                &&& check_pass(cells[v as int], focus, previous_focus) == pass
            },
        forall|a: int, b: int|
            0 <= a < b < pass_prefix(cells, focus, previous_focus, pass, n).len() ==> (
            #[trigger] pass_prefix(cells, focus, previous_focus, pass, n)[a]) < (
            #[trigger] pass_prefix(cells, focus, previous_focus, pass, n)[b]),
        forall|i: usize|
            (i as int) < n && check_pass(cells[i as int], focus, previous_focus) == pass
                ==> #[trigger] pass_prefix(cells, focus, previous_focus, pass, n).contains(i),
    decreases n,
{
    if n > 0 {
        lemma_pass_prefix(cells, focus, previous_focus, pass, (n - 1) as nat);
        let prev = pass_prefix(cells, focus, previous_focus, pass, (n - 1) as nat);
        let r = pass_prefix(cells, focus, previous_focus, pass, n);
        assert forall|i: usize|
            (i as int) < n && check_pass(cells[i as int], focus, previous_focus) == pass
                implies r.contains(i) by {
            if (i as int) < n - 1 {
                assert(prev.contains(i));
                let k = choose|k: int| 0 <= k < prev.len() && prev[k] == i;
                assert(r[k] == i);
            } else {
                assert(r[r.len() - 1] == i);
            }
        }
    }
}

/// The hit tests of the grid visit the focused cell before every other one,
/// the previously focused cell before every cell that is neither, and cells
/// of the same kind in item order.
pub proof fn grid_check_order_ranks(
    cells: Seq<(usize, usize)>,
    focus: (usize, usize),
    previous_focus: Option<(usize, usize)>,
)
    requires
        cells.len() <= usize::MAX,
    ensures
        ({
            let r = spec_grid_check_order(cells, focus, previous_focus);
            &&& forall|x: int, y: int|
                0 <= x < r.len() && 0 <= y < r.len() && cells[(#[trigger] r[x]) as int] == focus
                    && cells[(#[trigger] r[y]) as int] != focus ==> x < y
            &&& forall|x: int, y: int|
                0 <= x < r.len() && 0 <= y < r.len() && cells[(#[trigger] r[x]) as int] != focus
                    && previous_focus == Some(cells[r[x] as int]) && cells[(
                #[trigger] r[y]) as int] != focus && previous_focus != Some(cells[r[y] as int])
                    ==> x < y
            &&& forall|x: int, y: int|
                0 <= x < r.len() && 0 <= y < r.len() && check_pass(
                    cells[(#[trigger] r[x]) as int],
                    focus,
                    previous_focus,
                ) == check_pass(cells[(#[trigger] r[y]) as int], focus, previous_focus) && r[x]
                    < r[y] ==> x < y
        }),
{
    let n = cells.len();
    lemma_pass_prefix(cells, focus, previous_focus, 0, n);
    lemma_pass_prefix(cells, focus, previous_focus, 1, n);
    lemma_pass_prefix(cells, focus, previous_focus, 2, n);
    let a = pass_prefix(cells, focus, previous_focus, 0, n);
    let b = pass_prefix(cells, focus, previous_focus, 1, n);
    let c = pass_prefix(cells, focus, previous_focus, 2, n);
    let r = spec_grid_check_order(cells, focus, previous_focus);
    assert(r == a + b + c);
    assert forall|k: int| 0 <= k < r.len() implies check_pass(
        cells[(#[trigger] r[k]) as int],
        focus,
        previous_focus,
    ) == if k < a.len() {
        0nat
    } else if k < a.len() + b.len() {
        1nat
    } else {
        2nat
    } by {
        if k < a.len() {
            assert(r[k] == a[k]);
        } else if k < a.len() + b.len() {
            assert(r[k] == b[k - a.len()]);
        } else {
            assert(r[k] == c[k - a.len() - b.len()]);
        }
    }
    assert forall|x: int, y: int|
        0 <= x < r.len() && 0 <= y < r.len() && check_pass(
            cells[(#[trigger] r[x]) as int],
            focus,
            previous_focus,
        ) == check_pass(cells[(#[trigger] r[y]) as int], focus, previous_focus) && r[x] < r[y]
        implies x < y by {
        if y < x {
            if x < a.len() {
                assert(a[y] < a[x]);
            } else if x < a.len() + b.len() {
                assert(y >= a.len());
                assert(b[y - a.len()] < b[x - a.len()]);
            } else {
                assert(y >= a.len() + b.len());
                assert(c[y - a.len() - b.len()] < c[x - a.len() - b.len()]);
            }
        }
    }
}

/// The hit tests of the grid visit every item exactly once: the visiting
/// order is a permutation of the item indices.
pub proof fn grid_check_order_is_permutation(
    cells: Seq<(usize, usize)>,
    focus: (usize, usize),
    previous_focus: Option<(usize, usize)>,
)
    requires
        cells.len() <= usize::MAX,
    ensures
        spec_grid_check_order(cells, focus, previous_focus).no_duplicates(),
        forall|k: int|
            0 <= k < spec_grid_check_order(cells, focus, previous_focus).len() ==> (
            #[trigger] spec_grid_check_order(cells, focus, previous_focus)[k] as int) < cells.len(),
        forall|i: usize|
            (i as int) < cells.len() ==> #[trigger] spec_grid_check_order(
                cells,
                focus,
                previous_focus,
            ).contains(i),
{
    let n = cells.len();
    lemma_pass_prefix(cells, focus, previous_focus, 0, n);
    lemma_pass_prefix(cells, focus, previous_focus, 1, n);
    lemma_pass_prefix(cells, focus, previous_focus, 2, n);
    let a = pass_prefix(cells, focus, previous_focus, 0, n);
    let b = pass_prefix(cells, focus, previous_focus, 1, n);
    let c = pass_prefix(cells, focus, previous_focus, 2, n);
    let r = spec_grid_check_order(cells, focus, previous_focus);
    assert(r == a + b + c);
    assert forall|k: int| 0 <= k < r.len() implies {
        &&& (r[k] as int) < n
        &&& check_pass(cells[r[k] as int], focus, previous_focus) == if k < a.len() {
            0nat
        } else if k < a.len() + b.len() {
            1nat
        } else {
            2nat
        }
    } by {
        if k < a.len() {
            assert(r[k] == a[k]);
        } else if k < a.len() + b.len() {
            assert(r[k] == b[k - a.len()]);
        } else {
            assert(r[k] == c[k - a.len() - b.len()]);
        }
    }
    assert forall|x: int, y: int| 0 <= x < r.len() && 0 <= y < r.len() && x != y implies r[x]
        != r[y] by {
        if x > y {
            if x < a.len() {
                assert(a[y] < a[x]);
            } else if x < a.len() + b.len() && y >= a.len() {
                assert(b[y - a.len()] < b[x - a.len()]);
            } else if x >= a.len() + b.len() && y >= a.len() + b.len() {
                assert(c[y - a.len() - b.len()] < c[x - a.len() - b.len()]);
            }
        } else {
            if y < a.len() {
                assert(a[x] < a[y]);
            } else if y < a.len() + b.len() && x >= a.len() {
                assert(b[x - a.len()] < b[y - a.len()]);
            } else if y >= a.len() + b.len() && x >= a.len() + b.len() {
                assert(c[x - a.len() - b.len()] < c[y - a.len() - b.len()]);
            }
        }
    }
    assert forall|i: usize| (i as int) < n implies r.contains(i) by {
        let p = check_pass(cells[i as int], focus, previous_focus);
        if p == 0 {
            assert(a.contains(i));
            let k = choose|k: int| 0 <= k < a.len() && a[k] == i;
            assert(r[k] == i);
        } else if p == 1 {
            assert(b.contains(i));
            let k = choose|k: int| 0 <= k < b.len() && b[k] == i;
            assert(r[a.len() + k] == i);
        } else {
            assert(c.contains(i));
            let k = choose|k: int| 0 <= k < c.len() && c[k] == i;
            assert(r[a.len() + b.len() + k] == i);
        }
    }
}

/// No two entries are for the same column.
pub open spec fn distinct_columns(f: Seq<(usize, usize)>) -> bool {
    forall|i: int, j: int| 0 <= i < f.len() && 0 <= j < f.len() && i != j ==> f[i].0 != f[j].0
}

/// Every column among `valid` has at least one tile, and its active tile is
/// one of them.
pub open spec fn columns_well_formed(valid: Seq<usize>, columns: Seq<(usize, usize)>) -> bool {
    forall|c: usize|
        #[trigger] valid.contains(c) ==> (c as int) < columns.len() && columns[c as int].1
            < columns[c as int].0
}

proof fn lemma_retain_prefix(focus: Seq<(usize, usize)>, valid: Seq<usize>, n: nat)
    requires
        n <= focus.len(),
        distinct_columns(focus),
    ensures
        distinct_columns(retain_prefix(focus, valid, n)),
        forall|k: int|
            0 <= k < retain_prefix(focus, valid, n).len() ==> valid.contains(
                (#[trigger] retain_prefix(focus, valid, n)[k]).0,
            ),
        forall|k: int|
            0 <= k < retain_prefix(focus, valid, n).len() ==> exists|j: int|
                0 <= j < n && focus[j] == #[trigger] retain_prefix(focus, valid, n)[k],
    decreases n,
{
    if n > 0 {
        lemma_retain_prefix(focus, valid, (n - 1) as nat);
        let prev = retain_prefix(focus, valid, (n - 1) as nat);
        let r = retain_prefix(focus, valid, n);
        if valid.contains(focus[n - 1].0) {
            assert forall|k: int| 0 <= k < r.len() implies exists|j: int|
                0 <= j < n && focus[j] == #[trigger] r[k] by {
                if k < prev.len() {
                    let j = choose|j: int| 0 <= j < n - 1 && focus[j] == prev[k];
                    assert(focus[j] == r[k]);
                } else {
                    assert(focus[n - 1] == r[k]);
                }
            }
            assert forall|x: int, y: int| 0 <= x < r.len() && 0 <= y < r.len() && x != y implies r[x].0
                != r[y].0 by {
                if x < prev.len() && y < prev.len() {
                    assert(r[x] == prev[x] && r[y] == prev[y]);
                } else if x < prev.len() {
                    let j = choose|j: int| 0 <= j < n - 1 && focus[j] == prev[x];
                    assert(focus[j].0 != focus[n - 1].0);
                } else {
                    let j = choose|j: int| 0 <= j < n - 1 && focus[j] == prev[y];
                    assert(focus[j].0 != focus[n - 1].0);
                }
            }
        }
    }
}

/// What syncing the first `n` valid columns guarantees.
pub open spec fn synced_upto(
    f: Seq<(usize, usize)>,
    valid: Seq<usize>,
    columns: Seq<(usize, usize)>,
    n: nat,
) -> bool {
    &&& distinct_columns(f)
    &&& forall|i: int| 0 <= i < f.len() ==> valid.contains(#[trigger] f[i].0)
    &&& forall|k: int|
        0 <= k < n ==> exists|i: int|
            0 <= i < f.len() && f[i].0 == #[trigger] valid[k] && f[i].1 < columns[valid[k] as int].0
}

proof fn lemma_sync_step(
    f: Seq<(usize, usize)>,
    valid: Seq<usize>,
    columns: Seq<(usize, usize)>,
    n: nat,
)
    requires
        n < valid.len(),
        synced_upto(f, valid, columns, n),
        columns_well_formed(valid, columns),
    ensures
        synced_upto(sync_step(f, valid[n as int], columns), valid, columns, (n + 1) as nat),
{
    let col = valid[n as int];
    assert(valid.contains(col));
    let r = sync_step(f, col, columns);
    let count = columns[col as int].0;
    let active = columns[col as int].1;
    if exists|i: int| is_first_for(f, col, i) {
        let i = choose|i: int| is_first_for(f, col, i);
        assert(r.len() == f.len());
        assert forall|m: int| 0 <= m < r.len() && m != i implies r[m] == f[m] by {}
        assert(r[i].0 == col);
        assert(r[i].1 < count);
        assert forall|k: int| 0 <= k < n + 1 implies exists|m: int|
            0 <= m < r.len() && r[m].0 == #[trigger] valid[k] && r[m].1 < columns[valid[k] as int].0 by {
            if valid[k] == col {
                assert(r[i].0 == valid[k]);
            } else {
                let m = choose|m: int|
                    0 <= m < f.len() && f[m].0 == valid[k] && f[m].1 < columns[valid[k] as int].0;
                assert(m != i);
                assert(r[m] == f[m]);
            }
        }
        assert forall|x: int, y: int| 0 <= x < r.len() && 0 <= y < r.len() && x != y implies r[x].0
            != r[y].0 by {
            assert(r[x].0 == f[x].0 && r[y].0 == f[y].0);
        }
        assert forall|m: int| 0 <= m < r.len() implies valid.contains(#[trigger] r[m].0) by {
            assert(r[m].0 == f[m].0);
        }
    } else {
        assert(r == f.push((col, active)));
        assert forall|m: int| 0 <= m < f.len() implies f[m].0 != col by {
            if f[m].0 == col {
                // Then a first entry for `col` would exist.
                lemma_first_exists(f, col, m);
            }
        }
        assert forall|k: int| 0 <= k < n + 1 implies exists|m: int|
            0 <= m < r.len() && r[m].0 == #[trigger] valid[k] && r[m].1 < columns[valid[k] as int].0 by {
            if valid[k] == col {
                assert(r[f.len() as int].0 == valid[k]);
            } else {
                let m = choose|m: int|
                    0 <= m < f.len() && f[m].0 == valid[k] && f[m].1 < columns[valid[k] as int].0;
                assert(r[m] == f[m]);
            }
        }
        assert forall|x: int, y: int| 0 <= x < r.len() && 0 <= y < r.len() && x != y implies r[x].0
            != r[y].0 by {
            if x < f.len() && y < f.len() {
                assert(r[x] == f[x] && r[y] == f[y]);
            } else if x < f.len() {
                assert(r[x] == f[x]);
            } else {
                assert(r[y] == f[y]);
            }
        }
        assert forall|m: int| 0 <= m < r.len() implies valid.contains(#[trigger] r[m].0) by {
            if m < f.len() {
                assert(r[m] == f[m]);
            }
        }
    }
}

proof fn lemma_first_exists(f: Seq<(usize, usize)>, col: usize, m: int)
    requires
        0 <= m < f.len(),
        f[m].0 == col,
    ensures
        exists|i: int| is_first_for(f, col, i),
    decreases m,
{
    if forall|j: int| 0 <= j < m ==> f[j].0 != col {
        assert(is_first_for(f, col, m));
    } else {
        let j = choose|j: int| 0 <= j < m && f[j].0 == col;
        lemma_first_exists(f, col, j);
    }
}

proof fn lemma_sync_prefix(
    f: Seq<(usize, usize)>,
    valid: Seq<usize>,
    columns: Seq<(usize, usize)>,
    n: nat,
)
    requires
        n <= valid.len(),
        synced_upto(f, valid, columns, 0),
        columns_well_formed(valid, columns),
    ensures
        synced_upto(sync_prefix(f, valid, columns, n), valid, columns, n),
    decreases n,
{
    if n > 0 {
        lemma_sync_prefix(f, valid, columns, (n - 1) as nat);
        lemma_sync_step(sync_prefix(f, valid, columns, (n - 1) as nat), valid, columns, (n - 1) as nat);
    }
}

/// After the grid layout is recomputed, the per-column tile focus is complete
/// and sane: it has exactly one entry for each column that is a grid item,
/// none for other columns, and each entry points at an existing tile of its
/// column.
pub proof fn synced_tile_focus_points_at_existing_tiles(
    focus: Seq<(usize, usize)>,
    entries: Seq<GridItem>,
    columns: Seq<(usize, usize)>,
)
    requires
        distinct_columns(focus),
        columns_well_formed(column_items(entries), columns),
    ensures
        distinct_columns(synced_tile_focus(focus, entries, columns)),
        forall|i: int|
            0 <= i < synced_tile_focus(focus, entries, columns).len() ==> column_items(
                entries,
            ).contains((#[trigger] synced_tile_focus(focus, entries, columns)[i]).0),
        forall|c: usize|
            #[trigger] column_items(entries).contains(c) ==> exists|i: int|
                0 <= i < synced_tile_focus(focus, entries, columns).len() && synced_tile_focus(
                    focus,
                    entries,
                    columns,
                )[i].0 == c,
        forall|i: int|
            0 <= i < synced_tile_focus(focus, entries, columns).len() ==> (
            #[trigger] synced_tile_focus(focus, entries, columns)[i]).1 < columns[synced_tile_focus(
                focus,
                entries,
                columns,
            )[i].0 as int].0,
{
    let valid = column_items(entries);
    let r0 = retain_prefix(focus, valid, focus.len());
    lemma_retain_prefix(focus, valid, focus.len());
    lemma_sync_prefix(r0, valid, columns, valid.len());
    let r = synced_tile_focus(focus, entries, columns);
    assert forall|c: usize| #[trigger] valid.contains(c) implies exists|i: int|
        0 <= i < r.len() && r[i].0 == c by {
        let k = choose|k: int| 0 <= k < valid.len() && valid[k] == c;
        assert(valid[k] == c);
    }
    assert forall|i: int| 0 <= i < r.len() implies (#[trigger] r[i]).1 < columns[r[i].0 as int].0 by {
        let c = r[i].0;
        assert(valid.contains(c));
        let k = choose|k: int| 0 <= k < valid.len() && valid[k] == c;
        assert(valid[k] == c);
        let m = choose|m: int| 0 <= m < r.len() && r[m].0 == valid[k] && r[m].1 < columns[valid[k] as int].0;
        assert(m == i);
    }
}

/// The tile that column `c` should focus after syncing: the tile of its entry
/// in `focus` if that tile still exists, else (or without an entry) the
/// column's active tile.
spec fn tile_after_sync(focus: Seq<(usize, usize)>, columns: Seq<(usize, usize)>, c: usize) -> usize {
    if exists|j: int| 0 <= j < focus.len() && focus[j].0 == c {
        let j = choose|j: int| 0 <= j < focus.len() && focus[j].0 == c;
        if focus[j].1 >= columns[c as int].0 {
            columns[c as int].1
        } else {
            focus[j].1
        }
    } else {
        columns[c as int].1
    }
}

proof fn lemma_tile_after_sync(focus: Seq<(usize, usize)>, columns: Seq<(usize, usize)>, j: int)
    requires
        distinct_columns(focus),
        0 <= j < focus.len(),
    ensures
        tile_after_sync(focus, columns, focus[j].0) == if focus[j].1 >= columns[focus[j].0 as int].0 {
            columns[focus[j].0 as int].1
        } else {
            focus[j].1
        },
{
    let c = focus[j].0;
    let jj = choose|jj: int| 0 <= jj < focus.len() && focus[jj].0 == c;
    assert(jj == j);
}

/// Column `c` is one of the first `n` valid columns.
spec fn synced_col(valid: Seq<usize>, n: nat, c: usize) -> bool {
    exists|k: int| 0 <= k < n && valid[k] == c
}

/// What holds of the tile focus entries after the first `n` valid columns
/// were synced.
spec fn values_inv(
    f: Seq<(usize, usize)>,
    focus: Seq<(usize, usize)>,
    valid: Seq<usize>,
    columns: Seq<(usize, usize)>,
    n: nat,
) -> bool {
    &&& distinct_columns(f)
    &&& forall|i: int| 0 <= i < f.len() ==> valid.contains(#[trigger] f[i].0)
    &&& forall|i: int|
        0 <= i < f.len() && synced_col(valid, n, #[trigger] f[i].0) ==> f[i].1 == tile_after_sync(
            focus,
            columns,
            f[i].0,
        )
    &&& forall|i: int|
        0 <= i < f.len() && !synced_col(valid, n, #[trigger] f[i].0) ==> exists|j: int|
            0 <= j < focus.len() && focus[j] == f[i]
    &&& forall|j: int|
        0 <= j < focus.len() && valid.contains(#[trigger] focus[j].0) ==> exists|i: int|
            0 <= i < f.len() && f[i].0 == focus[j].0
    &&& forall|k: int| 0 <= k < n ==> exists|i: int| 0 <= i < f.len() && f[i].0 == #[trigger] valid[k]
}

proof fn lemma_retain_keeps(focus: Seq<(usize, usize)>, valid: Seq<usize>, n: nat)
    requires
        n <= focus.len(),
    ensures
        forall|j: int|
            0 <= j < n && valid.contains(#[trigger] focus[j].0) ==> exists|k: int|
                0 <= k < retain_prefix(focus, valid, n).len() && retain_prefix(focus, valid, n)[k]
                    == focus[j],
    decreases n,
{
    if n > 0 {
        lemma_retain_keeps(focus, valid, (n - 1) as nat);
        let prev = retain_prefix(focus, valid, (n - 1) as nat);
        let r = retain_prefix(focus, valid, n);
        assert forall|j: int| 0 <= j < n && valid.contains(#[trigger] focus[j].0) implies exists|k: int|
            0 <= k < r.len() && r[k] == focus[j] by {
            if j < n - 1 {
                let k = choose|k: int| 0 <= k < prev.len() && prev[k] == focus[j];
                if valid.contains(focus[n - 1].0) {
                    assert(r[k] == prev[k]);
                } else {
                    assert(r == prev);
                }
            } else {
                assert(r[prev.len() as int] == focus[j]);
            }
        }
    }
}

proof fn lemma_values_step(
    f: Seq<(usize, usize)>,
    focus: Seq<(usize, usize)>,
    valid: Seq<usize>,
    columns: Seq<(usize, usize)>,
    n: nat,
)
    requires
        n < valid.len(),
        distinct_columns(focus),
        values_inv(f, focus, valid, columns, n),
    ensures
        values_inv(sync_step(f, valid[n as int], columns), focus, valid, columns, (n + 1) as nat),
{
    let col = valid[n as int];
    assert(valid.contains(col));
    let r = sync_step(f, col, columns);
    let count = columns[col as int].0;
    let active = columns[col as int].1;
    assert(synced_col(valid, (n + 1) as nat, col)) by {
        assert(valid[n as int] == col);
    }
    assert forall|c: usize| c != col implies synced_col(valid, (n + 1) as nat, c) == synced_col(
        valid,
        n,
        c,
    ) by {
        if synced_col(valid, (n + 1) as nat, c) {
            let k = choose|k: int| 0 <= k < n + 1 && valid[k] == c;
            assert(k < n);
        }
        if synced_col(valid, n, c) {
            let k = choose|k: int| 0 <= k < n && valid[k] == c;
            assert(0 <= k < n + 1 && valid[k] == c);
        }
    }
    if exists|i: int| is_first_for(f, col, i) {
        let i = choose|i: int| is_first_for(f, col, i);
        assert(r.len() == f.len());
        assert forall|m: int| 0 <= m < r.len() && m != i implies r[m] == f[m] by {}
        assert(r[i].0 == col);
        // The new tile of `col` is the one it should have.
        assert(r[i].1 == tile_after_sync(focus, columns, col)) by {
            if synced_col(valid, n, col) {
                let t = tile_after_sync(focus, columns, col);
                assert(f[i].1 == t);
                if exists|j: int| 0 <= j < focus.len() && focus[j].0 == col {
                    let j = choose|j: int| 0 <= j < focus.len() && focus[j].0 == col;
                    lemma_tile_after_sync(focus, columns, j);
                }
            } else {
                let j = choose|j: int| 0 <= j < focus.len() && focus[j] == f[i];
                lemma_tile_after_sync(focus, columns, j);
            }
        }
        assert forall|x: int, y: int| 0 <= x < r.len() && 0 <= y < r.len() && x != y implies r[x].0
            != r[y].0 by {
            assert(r[x].0 == f[x].0 && r[y].0 == f[y].0);
        }
        assert forall|m: int| 0 <= m < r.len() implies valid.contains(#[trigger] r[m].0) by {
            assert(r[m].0 == f[m].0);
        }
        assert forall|m: int|
            0 <= m < r.len() && synced_col(valid, (n + 1) as nat, #[trigger] r[m].0) implies r[m].1
            == tile_after_sync(focus, columns, r[m].0) by {
            if m != i {
                assert(r[m] == f[m]);
                assert(f[m].0 != col);
            }
        }
        assert forall|m: int|
            0 <= m < r.len() && !synced_col(valid, (n + 1) as nat, #[trigger] r[m].0) implies exists|
                j: int,
            | 0 <= j < focus.len() && focus[j] == r[m] by {
            assert(m != i);
            assert(r[m] == f[m]);
        }
        assert forall|j: int| 0 <= j < focus.len() && valid.contains(#[trigger] focus[j].0) implies exists|
            m: int,
        | 0 <= m < r.len() && r[m].0 == focus[j].0 by {
            let m = choose|m: int| 0 <= m < f.len() && f[m].0 == focus[j].0;
            assert(r[m].0 == f[m].0);
        }
        assert forall|k: int| 0 <= k < n + 1 implies exists|m: int|
            0 <= m < r.len() && r[m].0 == #[trigger] valid[k] by {
            if k == n {
                assert(r[i].0 == valid[k]);
            } else {
                let m = choose|m: int| 0 <= m < f.len() && f[m].0 == valid[k];
                assert(r[m].0 == f[m].0);
            }
        }
    } else {
        assert(r == f.push((col, active)));
        assert forall|m: int| 0 <= m < f.len() implies f[m].0 != col by {
            if f[m].0 == col {
                lemma_first_exists(f, col, m);
            }
        }
        assert(active == tile_after_sync(focus, columns, col)) by {
            if exists|j: int| 0 <= j < focus.len() && focus[j].0 == col {
                let j = choose|j: int| 0 <= j < focus.len() && focus[j].0 == col;
                let m = choose|m: int| 0 <= m < f.len() && f[m].0 == focus[j].0;
                assert(f[m].0 == col);
            }
        }
        assert forall|x: int, y: int| 0 <= x < r.len() && 0 <= y < r.len() && x != y implies r[x].0
            != r[y].0 by {
            if x < f.len() && y < f.len() {
                assert(r[x] == f[x] && r[y] == f[y]);
            } else if x < f.len() {
                assert(r[x] == f[x]);
            } else {
                assert(r[y] == f[y]);
            }
        }
        assert forall|m: int| 0 <= m < r.len() implies valid.contains(#[trigger] r[m].0) by {
            if m < f.len() {
                assert(r[m] == f[m]);
            }
        }
        assert forall|m: int|
            0 <= m < r.len() && synced_col(valid, (n + 1) as nat, #[trigger] r[m].0) implies r[m].1
            == tile_after_sync(focus, columns, r[m].0) by {
            if m < f.len() {
                assert(r[m] == f[m]);
            }
        }
        assert forall|m: int|
            0 <= m < r.len() && !synced_col(valid, (n + 1) as nat, #[trigger] r[m].0) implies exists|
                j: int,
            | 0 <= j < focus.len() && focus[j] == r[m] by {
            if m < f.len() {
                assert(r[m] == f[m]);
            }
        }
        assert forall|j: int| 0 <= j < focus.len() && valid.contains(#[trigger] focus[j].0) implies exists|
            m: int,
        | 0 <= m < r.len() && r[m].0 == focus[j].0 by {
            let m = choose|m: int| 0 <= m < f.len() && f[m].0 == focus[j].0;
            assert(r[m] == f[m]);
        }
        assert forall|k: int| 0 <= k < n + 1 implies exists|m: int|
            0 <= m < r.len() && r[m].0 == #[trigger] valid[k] by {
            if k == n {
                assert(r[f.len() as int].0 == valid[k]);
            } else {
                let m = choose|m: int| 0 <= m < f.len() && f[m].0 == valid[k];
                assert(r[m] == f[m]);
            }
        }
    }
}

proof fn lemma_values_prefix(
    f: Seq<(usize, usize)>,
    focus: Seq<(usize, usize)>,
    valid: Seq<usize>,
    columns: Seq<(usize, usize)>,
    n: nat,
)
    requires
        n <= valid.len(),
        distinct_columns(focus),
        values_inv(f, focus, valid, columns, 0),
    ensures
        values_inv(sync_prefix(f, valid, columns, n), focus, valid, columns, n),
    decreases n,
{
    if n > 0 {
        lemma_values_prefix(f, focus, valid, columns, (n - 1) as nat);
        lemma_values_step(sync_prefix(f, valid, columns, (n - 1) as nat), focus, valid, columns, (n - 1) as nat);
    }
}

/// After the grid layout is recomputed, each column keeps the tile that the
/// grid focused in it while that tile still exists; a column whose focused
/// tile is gone, and a column that had no entry, focuses its active tile.
pub proof fn synced_tile_focus_keeps_or_resets_to_active(
    focus: Seq<(usize, usize)>,
    entries: Seq<GridItem>,
    columns: Seq<(usize, usize)>,
)
    requires
        distinct_columns(focus),
    ensures
        ({
            let r = synced_tile_focus(focus, entries, columns);
            &&& forall|i: int, j: int|
                0 <= i < r.len() && 0 <= j < focus.len() && focus[j].0 == (#[trigger] r[i]).0
                    ==> r[i].1 == if (#[trigger] focus[j]).1 >= columns[r[i].0 as int].0 {
                    columns[r[i].0 as int].1
                } else {
                    focus[j].1
                }
            &&& forall|i: int|
                0 <= i < r.len() && (forall|j: int| 0 <= j < focus.len() ==> focus[j].0 != (
                #[trigger] r[i]).0) ==> r[i].1 == columns[r[i].0 as int].1
        }),
{
    let valid = column_items(entries);
    let r0 = retain_prefix(focus, valid, focus.len());
    lemma_retain_prefix(focus, valid, focus.len());
    lemma_retain_keeps(focus, valid, focus.len());
    assert(values_inv(r0, focus, valid, columns, 0)) by {
        assert forall|j: int| 0 <= j < focus.len() && valid.contains(#[trigger] focus[j].0) implies exists|
            i: int,
        | 0 <= i < r0.len() && r0[i].0 == focus[j].0 by {
            let k = choose|k: int| 0 <= k < r0.len() && r0[k] == focus[j];
            assert(r0[k].0 == focus[j].0);
        }
    }
    lemma_values_prefix(r0, focus, valid, columns, valid.len());
    let r = synced_tile_focus(focus, entries, columns);
    assert forall|i: int| 0 <= i < r.len() implies r[i].1 == tile_after_sync(focus, columns, r[i].0) by {
        let c = r[i].0;
        assert(valid.contains(c));
        let k = choose|k: int| 0 <= k < valid.len() && valid[k] == c;
        assert(synced_col(valid, valid.len(), c));
    }
    assert forall|i: int, j: int|
        0 <= i < r.len() && 0 <= j < focus.len() && focus[j].0 == (#[trigger] r[i]).0 implies r[i].1
        == if (#[trigger] focus[j]).1 >= columns[r[i].0 as int].0 {
        columns[r[i].0 as int].1
    } else {
        focus[j].1
    } by {
        lemma_tile_after_sync(focus, columns, j);
    }
}

/// The window that an action without an explicit window targets while the
/// grid overview is open: the window focused in the grid.
pub fn implicit_grid_window(window: Option<u64>, grid_open: bool, grid_focused: Option<u64>) -> (r: Option<u64>)
    ensures
        r == if window is None && grid_open {
            grid_focused
        } else {
            None
        },
{
    if window.is_none() && grid_open {
        grid_focused
    } else {
        None
    }
}

/// The window that a sizing action acts on: the given window, else the window
/// focused in the open grid overview, else none (the active window).
pub fn grid_action_window(window: Option<u64>, grid_open: bool, grid_focused: Option<u64>) -> (r: Option<u64>)
    ensures
        r == match window {
            Some(w) => Some(w),
            None => if grid_open {
                grid_focused
            } else {
                None
            },
        },
{
    let grid_window = implicit_grid_window(window, grid_open, grid_focused);
    match window {
        Some(w) => Some(w),
        None => grid_window,
    }
}

/// What the grid overview is doing.
#[derive(Debug, Clone, Copy, PartialEq, Eq, Structural)]
pub struct GridActivity {
    /// Whether it is open.
    pub open: bool,
    /// Whether its open or close progress is running.
    pub in_progress: bool,
    /// Whether any of its animations is ongoing.
    pub animating: bool,
}

/// Whether the workspace renders above the top layer: never while a grid
/// overview exists that is open, opening, closing or animating; otherwise
/// when the scrolling space does (a fullscreen window has focus).
pub fn render_above_top_layer(grid: Option<GridActivity>, scrolling_renders_above: bool) -> (r: bool)
    ensures
        r == match grid {
            Some(g) => !(g.open || g.in_progress || g.animating) && scrolling_renders_above,
            None => scrolling_renders_above,
        },
{
    if let Some(g) = grid {
        if g.open || g.in_progress || g.animating {
            return false;
        }
    }
    scrolling_renders_above
}

} // verus!
