use vstd::prelude::*;

verus! {

/// What the drawing order of the grid overview needs to know of one grid
/// item.
#[derive(Debug, Clone, Copy, PartialEq, Eq, Structural)]
pub struct GridRenderItem {
    /// The item is a floating window (drawn in the floating layer).
    pub in_floating_layer: bool,
    /// The item stays visible while the grid closes.
    pub visible_when_closing: bool,
    /// The item is drawn above all others while the grid closes.
    pub on_top_when_closing: bool,
    /// The item is one tab of a tabbed column.
    pub is_tab: bool,
    /// The item is the active tab of its tabbed column.
    pub is_active_tab: bool,
}

impl GridRenderItem {
    /// Whether the item is drawn at all.
    pub open spec fn should_render(self, is_closing: bool) -> bool {
        !is_closing || self.visible_when_closing
    }

    /// Whether the item is drawn above all others.
    pub open spec fn on_top(self, is_closing: bool) -> bool {
        is_closing && self.on_top_when_closing
    }

    /// Whether the item is the active tab of a tabbed column.
    pub open spec fn active_tab(self) -> bool {
        self.is_tab && self.is_active_tab
    }

    /// Whether the item is a tab that is not its column's active one.
    pub open spec fn inactive_tab(self) -> bool {
        self.is_tab && !self.is_active_tab
    }
}

/// One pass over the grid items; passes run top to bottom and all but the
/// first are run for the floating layer, then for the tiling layer.
#[derive(Debug, Clone, Copy, PartialEq, Eq, Structural)]
pub enum RenderPass {
    /// While closing, the items that render on top.
    OnTop,
    /// The focused item of the layer.
    Focused { floating_layer: bool },
    /// While opening or closing, the active tabs that are not focused, so they
    /// stay above their inactive tabs.
    ActiveTab { floating_layer: bool },
    /// While closing, the focused item when it is an inactive tab.
    FocusedInactiveTab { floating_layer: bool },
    /// Every other item of the layer.
    Rest { floating_layer: bool },
}

/// The passes in the order they run.
pub open spec fn render_pass(j: int) -> RenderPass {
    if j == 0 {
        RenderPass::OnTop
    } else {
        let floating_layer = j <= 4;
        let k = if floating_layer { j - 1 } else { j - 5 };
        if k == 0 {
            RenderPass::Focused { floating_layer }
        } else if k == 1 {
            RenderPass::ActiveTab { floating_layer }
        } else if k == 2 {
            RenderPass::FocusedInactiveTab { floating_layer }
        } else {
            RenderPass::Rest { floating_layer }
        }
    }
}

/// The number of passes.
pub open spec fn render_pass_count() -> int {
    9
}

/// Whether `pass` draws `item`, which is focused when `is_focused` holds.
pub open spec fn pass_draws(
    pass: RenderPass,
    item: GridRenderItem,
    is_focused: bool,
    is_closing: bool,
    is_opening: bool,
) -> bool {
    let common = |layer: bool|
        item.should_render(is_closing) && item.in_floating_layer == layer && !item.on_top(
            is_closing,
        );
    match pass {
        RenderPass::OnTop => is_closing && item.should_render(is_closing) && item.on_top(is_closing),
        RenderPass::Focused { floating_layer } => is_focused && common(floating_layer) && !(
        is_closing && item.inactive_tab()),
        RenderPass::ActiveTab { floating_layer } => (is_opening || is_closing) && !is_focused
            && common(floating_layer) && item.active_tab(),
        RenderPass::FocusedInactiveTab { floating_layer } => is_closing && is_focused && common(
            floating_layer,
        ) && item.inactive_tab(),
        RenderPass::Rest { floating_layer } => !is_focused && common(floating_layer) && !((
        is_opening || is_closing) && item.active_tab()),
    }
}

/// The focus flag that `pass` draws an item with: only the pass of focused
/// items, and the on-top pass for the focused item, draw it as focused.
pub open spec fn pass_focus_flag(pass: RenderPass, is_focused: bool) -> bool {
    match pass {
        RenderPass::OnTop => is_focused,
        RenderPass::Focused { .. } => true,
        _ => false,
    }
}

/// What `pass` draws of the first `k` items, in order: each item's index and
/// whether it is drawn as focused.
pub open spec fn pass_output(
    pass: RenderPass,
    items: Seq<GridRenderItem>,
    focused: Option<usize>,
    is_closing: bool,
    is_opening: bool,
    k: nat,
) -> Seq<(usize, bool)>
    decreases k,
{
    if k == 0 {
        Seq::empty()
    } else {
        let i = (k - 1) as nat;
        let is_focused = focused == Some(i as usize);
        let prev = pass_output(pass, items, focused, is_closing, is_opening, i);
        if pass_draws(pass, items[i as int], is_focused, is_closing, is_opening) {
            prev.push((i as usize, pass_focus_flag(pass, is_focused)))
        } else {
            prev
        }
    }
}

/// What the first `j` passes draw, in order.
pub open spec fn passes_output(
    items: Seq<GridRenderItem>,
    focused: Option<usize>,
    is_closing: bool,
    is_opening: bool,
    j: nat,
) -> Seq<(usize, bool)>
    decreases j,
{
    if j == 0 {
        Seq::empty()
    } else {
        passes_output(items, focused, is_closing, is_opening, (j - 1) as nat) + pass_output(
            render_pass(j - 1),
            items,
            focused,
            is_closing,
            is_opening,
            items.len(),
        )
    }
}

/// The order in which the grid overview draws its items, top first: each
/// item's index and whether it is drawn as focused.
pub open spec fn spec_grid_render_order(
    items: Seq<GridRenderItem>,
    focused: Option<usize>,
    is_closing: bool,
    is_opening: bool,
) -> Seq<(usize, bool)> {
    passes_output(items, focused, is_closing, is_opening, render_pass_count() as nat)
}

fn render_pass_at(j: usize) -> (p: RenderPass)
    requires
        j < 9,
    ensures
        p == render_pass(j as int),
{
    if j == 0 {
        RenderPass::OnTop
    } else {
        let floating_layer = j <= 4;
        let k = if floating_layer { j - 1 } else { j - 5 };
        if k == 0 {
            RenderPass::Focused { floating_layer }
        } else if k == 1 {
            RenderPass::ActiveTab { floating_layer }
        } else if k == 2 {
            RenderPass::FocusedInactiveTab { floating_layer }
        } else {
            RenderPass::Rest { floating_layer }
        }
    }
}

fn run_pass(
    pass: RenderPass,
    items: &Vec<GridRenderItem>,
    focused: Option<usize>,
    is_closing: bool,
    is_opening: bool,
    out: &mut Vec<(usize, bool)>,
)
    ensures
        final(out)@ == old(out)@ + pass_output(
            pass,
            items@,
            focused,
            is_closing,
            is_opening,
            items@.len(),
        ),
{
    let ghost start = out@;
    let mut i: usize = 0;
    while i < items.len()
        invariant
            i <= items@.len(),
            out@ == start + pass_output(pass, items@, focused, is_closing, is_opening, i as nat),
        decreases items@.len() - i,
    {
        let item = items[i];
        let is_focused = match focused {
            Some(f) => f == i,
            None => false,
        };
        let common = |layer: bool| -> (r: bool)
            ensures
                r == (item.should_render(is_closing) && item.in_floating_layer == layer
                    && !item.on_top(is_closing)),
            {
                (!is_closing || item.visible_when_closing) && item.in_floating_layer == layer && !(
                is_closing && item.on_top_when_closing)
            };
        let active_tab = item.is_tab && item.is_active_tab;
        let inactive_tab = item.is_tab && !item.is_active_tab;
        let (draws, flag) = match pass {
            RenderPass::OnTop => (
                is_closing && (!is_closing || item.visible_when_closing) && is_closing
                    && item.on_top_when_closing,
                is_focused,
            ),
            RenderPass::Focused { floating_layer } => (
                is_focused && common(floating_layer) && !(is_closing && inactive_tab),
                true,
            ),
            RenderPass::ActiveTab { floating_layer } => (
                (is_opening || is_closing) && !is_focused && common(floating_layer) && active_tab,
                false,
            ),
            RenderPass::FocusedInactiveTab { floating_layer } => (
                is_closing && is_focused && common(floating_layer) && inactive_tab,
                false,
            ),
            RenderPass::Rest { floating_layer } => (
                !is_focused && common(floating_layer) && !((is_opening || is_closing)
                    && active_tab),
                false,
            ),
        };
        if draws {
            out.push((i, flag));
        }
        proof {
            assert(out@ == start + pass_output(
                pass,
                items@,
                focused,
                is_closing,
                is_opening,
                (i + 1) as nat,
            ));
        }
        i = i + 1;
    }
}

/// The order in which the grid overview draws its items, top first: each
/// item's index and whether it is drawn as focused.
///
/// While the grid closes, the items that render on top come first. Then the
/// floating layer and after it the tiling layer: in each, the focused item,
/// then (while opening or closing) the active tabs, so they stay above their
/// inactive tabs, then (while closing) a focused inactive tab, then the rest.
/// While closing, only the items visible when closing are drawn.
pub fn grid_render_order(
    items: &Vec<GridRenderItem>,
    focused: Option<usize>,
    is_closing: bool,
    is_opening: bool,
) -> (r: Vec<(usize, bool)>)
    ensures
        r@ == spec_grid_render_order(items@, focused, is_closing, is_opening),
        forall|a: int, b: int|
            0 <= a < r@.len() && 0 <= b < r@.len() && (is_opening || is_closing)
                && items@[(#[trigger] r@[a]).0 as int].in_floating_layer == items@[(
            #[trigger] r@[b]).0 as int].in_floating_layer && items@[r@[a].0 as int].active_tab()
                && focused != Some(r@[a].0) && !items@[r@[a].0 as int].on_top(is_closing)
                && !items@[r@[b].0 as int].active_tab() && focused != Some(r@[b].0)
                && !items@[r@[b].0 as int].on_top(is_closing) ==> a < b,
        forall|a: int, b: int|
            0 <= a < r@.len() && 0 <= b < r@.len() && !items@[(#[trigger] r@[a]).0 as int].on_top(
                is_closing,
            ) && !items@[(#[trigger] r@[b]).0 as int].on_top(is_closing)
                && items@[r@[a].0 as int].in_floating_layer && !items@[r@[b].0 as int].in_floating_layer
                ==> a < b,
        forall|a: int, b: int|
            0 <= a < r@.len() && 0 <= b < r@.len() && items@[(#[trigger] r@[a]).0 as int].on_top(
                is_closing,
            ) && !items@[(#[trigger] r@[b]).0 as int].on_top(is_closing) ==> a < b,
        forall|a: int, b: int|
            0 <= a < r@.len() && 0 <= b < r@.len() && items@[(#[trigger] r@[a]).0 as int].in_floating_layer
                == items@[(#[trigger] r@[b]).0 as int].in_floating_layer && focused == Some(r@[a].0)
                && !(is_closing && items@[r@[a].0 as int].inactive_tab()) && !items@[r@[a].0 as int].on_top(
                is_closing,
            ) && focused != Some(r@[b].0) && !items@[r@[b].0 as int].on_top(is_closing) ==> a < b,
{
    let mut out: Vec<(usize, bool)> = Vec::new();
    let mut j: usize = 0;
    while j < 9
        invariant
            j <= 9,
            out@ == passes_output(items@, focused, is_closing, is_opening, j as nat),
        decreases 9 - j,
    {
        let pass = render_pass_at(j);
        run_pass(pass, items, focused, is_closing, is_opening, &mut out);
        j = j + 1;
    }
    let item_count = items.len();
    proof {
        assert(items@.len() == item_count);
        assert forall|a: int, b: int|
            0 <= a < out@.len() && 0 <= b < out@.len() implies ({
            let x = items@[(#[trigger] out@[a]).0 as int];
            let y = items@[(#[trigger] out@[b]).0 as int];
            &&& ((is_opening || is_closing) && x.in_floating_layer == y.in_floating_layer
                && x.active_tab() && focused != Some(out@[a].0) && !x.on_top(is_closing)
                && !y.active_tab() && focused != Some(out@[b].0) && !y.on_top(is_closing)) ==> a < b
            &&& (!x.on_top(is_closing) && !y.on_top(is_closing) && x.in_floating_layer
                && !y.in_floating_layer) ==> a < b
            &&& (x.on_top(is_closing) && !y.on_top(is_closing)) ==> a < b
            &&& (x.in_floating_layer == y.in_floating_layer && focused == Some(out@[a].0) && !(
            is_closing && x.inactive_tab()) && !x.on_top(is_closing) && focused != Some(out@[b].0)
                && !y.on_top(is_closing)) ==> a < b
        }) by {
            grid_render_order_layers(items@, focused, is_closing, is_opening, a, b);
        }
    }
    out
}

/// Whether a grid item drawn as focused (`is_focused`) keeps its decorations
/// and shadow while the grid closes: the tabs other than the focused one lose
/// their focus ring and border, and, unless they are the active tab, their
/// shadow. Returns whether decorations, then whether the shadow, are
/// suppressed.
pub fn grid_item_suppressions(is_closing: bool, is_tab: bool, is_focused: bool, is_active_tab: bool) -> (r: (bool, bool))
    ensures
        r.0 == (is_closing && is_tab && !is_focused),
        r.1 == (is_closing && is_tab && !is_focused && !is_active_tab),
{
    let suppress_decorations = is_closing && is_tab && !is_focused;
    (suppress_decorations, suppress_decorations && !is_active_tab)
}

/// The pass that draws `item`, when it is drawn at all.
pub open spec fn drawing_pass(item: GridRenderItem, is_focused: bool, is_closing: bool, is_opening: bool) -> int {
    if item.on_top(is_closing) {
        0
    } else {
        let base: int = if item.in_floating_layer { 1 } else { 5 };
        if is_focused {
            if is_closing && item.inactive_tab() {
                base + 2
            } else {
                base
            }
        } else if (is_opening || is_closing) && item.active_tab() {
            base + 1
        } else {
            base + 3
        }
    }
}

/// Exactly one pass draws an item that is drawn at all, and none draws
/// another.
proof fn lemma_one_pass_draws(item: GridRenderItem, is_focused: bool, is_closing: bool, is_opening: bool)
    ensures
        forall|j: int|
            0 <= j < render_pass_count() ==> (pass_draws(
                #[trigger] render_pass(j),
                item,
                is_focused,
                is_closing,
                is_opening,
            ) <==> (item.should_render(is_closing) && j == drawing_pass(
                item,
                is_focused,
                is_closing,
                is_opening,
            ))),
{
}

/// What one pass draws: indices below `k`, in increasing order, each item that
/// the pass draws.
proof fn lemma_pass_output(
    pass: RenderPass,
    items: Seq<GridRenderItem>,
    focused: Option<usize>,
    is_closing: bool,
    is_opening: bool,
    k: nat,
)
    requires
        k <= items.len(),
        items.len() <= usize::MAX,
    ensures
        ({
            let out = pass_output(pass, items, focused, is_closing, is_opening, k);
            &&& forall|m: int|
                0 <= m < out.len() ==> (#[trigger] out[m]).0 < k && pass_draws(
                    pass,
                    items[out[m].0 as int],
                    focused == Some(out[m].0),
                    is_closing,
                    is_opening,
                )
            &&& forall|a: int, b: int| 0 <= a < b < out.len() ==> (#[trigger] out[a]).0 < (
            #[trigger] out[b]).0
            &&& forall|i: int|
                0 <= i < k && pass_draws(
                    pass,
                    #[trigger] items[i],
                    focused == Some(i as usize),
                    is_closing,
                    is_opening,
                ) ==> exists|m: int| 0 <= m < out.len() && out[m].0 == i
        }),
    decreases k,
{
    if k > 0 {
        let i = (k - 1) as nat;
        lemma_pass_output(pass, items, focused, is_closing, is_opening, i);
        let prev = pass_output(pass, items, focused, is_closing, is_opening, i);
        let out = pass_output(pass, items, focused, is_closing, is_opening, k);
        if pass_draws(pass, items[i as int], focused == Some(i as usize), is_closing, is_opening) {
            assert(out[prev.len() as int].0 == i);
            assert forall|ii: int|
                0 <= ii < k && pass_draws(
                    pass,
                    #[trigger] items[ii],
                    focused == Some(ii as usize),
                    is_closing,
                    is_opening,
                ) implies exists|m: int| 0 <= m < out.len() && out[m].0 == ii by {
                if ii < i {
                    let m = choose|m: int| 0 <= m < prev.len() && prev[m].0 == ii;
                    assert(out[m] == prev[m]);
                } else {
                    assert(out[prev.len() as int].0 == ii);
                }
            }
        } else {
            assert forall|ii: int|
                0 <= ii < k && pass_draws(
                    pass,
                    #[trigger] items[ii],
                    focused == Some(ii as usize),
                    is_closing,
                    is_opening,
                ) implies exists|m: int| 0 <= m < out.len() && out[m].0 == ii by {
                assert(ii != i);
            }
        }
    }
}

/// What the first `j` passes draw: items that are drawn at all, drawn by one
/// of these passes, each at most once; and every such item.
proof fn lemma_passes_output(
    items: Seq<GridRenderItem>,
    focused: Option<usize>,
    is_closing: bool,
    is_opening: bool,
    j: nat,
)
    requires
        j <= render_pass_count(),
        items.len() <= usize::MAX,
    ensures
        ({
            let out = passes_output(items, focused, is_closing, is_opening, j);
            &&& forall|m: int|
                0 <= m < out.len() ==> {
                    let i = (#[trigger] out[m]).0 as int;
                    &&& i < items.len()
                    &&& items[i].should_render(is_closing)
                    &&& drawing_pass(items[i], focused == Some(i as usize), is_closing, is_opening)
                        < j
                }
            &&& forall|a: int, b: int| 0 <= a < b < out.len() ==> (#[trigger] out[a]).0 != (
            #[trigger] out[b]).0
            &&& forall|i: int|
                0 <= i < items.len() && (#[trigger] items[i]).should_render(is_closing)
                    && drawing_pass(items[i], focused == Some(i as usize), is_closing, is_opening)
                    < j ==> exists|m: int| 0 <= m < out.len() && out[m].0 == i
        }),
    decreases j,
{
    if j > 0 {
        let jj = (j - 1) as nat;
        lemma_passes_output(items, focused, is_closing, is_opening, jj);
        let pass = render_pass(jj as int);
        lemma_pass_output(pass, items, focused, is_closing, is_opening, items.len());
        let prev = passes_output(items, focused, is_closing, is_opening, jj);
        let seg = pass_output(pass, items, focused, is_closing, is_opening, items.len());
        let out = passes_output(items, focused, is_closing, is_opening, j);
        assert(out == prev + seg);
        assert forall|m: int| 0 <= m < seg.len() implies {
            let i = (#[trigger] seg[m]).0 as int;
            &&& i < items.len()
            &&& items[i].should_render(is_closing)
            &&& drawing_pass(items[i], focused == Some(i as usize), is_closing, is_opening) == jj
        } by {
            let i = seg[m].0 as int;
            lemma_one_pass_draws(items[i], focused == Some(i as usize), is_closing, is_opening);
            assert(pass_draws(
                render_pass(jj as int),
                items[i],
                focused == Some(i as usize),
                is_closing,
                is_opening,
            ));
        }
        assert forall|m: int| 0 <= m < out.len() implies {
            let i = (#[trigger] out[m]).0 as int;
            &&& i < items.len()
            &&& items[i].should_render(is_closing)
            &&& drawing_pass(items[i], focused == Some(i as usize), is_closing, is_opening) < j
        } by {
            if m < prev.len() {
                assert(out[m] == prev[m]);
            } else {
                assert(out[m] == seg[m - prev.len()]);
            }
        }
        assert forall|a: int, b: int| 0 <= a < b < out.len() implies (#[trigger] out[a]).0 != (
        #[trigger] out[b]).0 by {
            if b < prev.len() {
                assert(out[a] == prev[a] && out[b] == prev[b]);
            } else if a >= prev.len() {
                assert(out[a] == seg[a - prev.len()] && out[b] == seg[b - prev.len()]);
            } else {
                assert(out[a] == prev[a] && out[b] == seg[b - prev.len()]);
            }
        }
        assert forall|i: int|
            0 <= i < items.len() && (#[trigger] items[i]).should_render(is_closing)
                && drawing_pass(items[i], focused == Some(i as usize), is_closing, is_opening)
                < j implies exists|m: int| 0 <= m < out.len() && out[m].0 == i by {
            if drawing_pass(items[i], focused == Some(i as usize), is_closing, is_opening) < jj {
                let m = choose|m: int| 0 <= m < prev.len() && prev[m].0 == i;
                assert(out[m] == prev[m]);
            } else {
                lemma_one_pass_draws(items[i], focused == Some(i as usize), is_closing, is_opening);
                assert(pass_draws(pass, items[i], focused == Some(i as usize), is_closing, is_opening));
                let m = choose|m: int| 0 <= m < seg.len() && seg[m].0 == i;
                assert(out[prev.len() + m] == seg[m]);
            }
        }
    }
}

/// The drawing order lists items pass by pass.
proof fn lemma_passes_output_sorted(
    items: Seq<GridRenderItem>,
    focused: Option<usize>,
    is_closing: bool,
    is_opening: bool,
    j: nat,
)
    requires
        j <= render_pass_count(),
        items.len() <= usize::MAX,
    ensures
        ({
            let out = passes_output(items, focused, is_closing, is_opening, j);
            forall|a: int, b: int|
                0 <= a < b < out.len() ==> drawing_pass(
                    items[(#[trigger] out[a]).0 as int],
                    focused == Some(out[a].0),
                    is_closing,
                    is_opening,
                ) <= drawing_pass(
                    items[(#[trigger] out[b]).0 as int],
                    focused == Some(out[b].0),
                    is_closing,
                    is_opening,
                )
        }),
    decreases j,
{
    if j > 0 {
        let jj = (j - 1) as nat;
        lemma_passes_output_sorted(items, focused, is_closing, is_opening, jj);
        lemma_passes_output(items, focused, is_closing, is_opening, jj);
        let pass = render_pass(jj as int);
        lemma_pass_output(pass, items, focused, is_closing, is_opening, items.len());
        let prev = passes_output(items, focused, is_closing, is_opening, jj);
        let seg = pass_output(pass, items, focused, is_closing, is_opening, items.len());
        let out = passes_output(items, focused, is_closing, is_opening, j);
        assert(out == prev + seg);
        assert forall|m: int| 0 <= m < seg.len() implies drawing_pass(
            items[(#[trigger] seg[m]).0 as int],
            focused == Some(seg[m].0),
            is_closing,
            is_opening,
        ) == jj by {
            let i = seg[m].0 as int;
            lemma_one_pass_draws(items[i], focused == Some(i as usize), is_closing, is_opening);
            assert(pass_draws(pass, items[i], focused == Some(i as usize), is_closing, is_opening));
        }
        assert forall|a: int, b: int| 0 <= a < b < out.len() implies drawing_pass(
            items[(#[trigger] out[a]).0 as int],
            focused == Some(out[a].0),
            is_closing,
            is_opening,
        ) <= drawing_pass(
            items[(#[trigger] out[b]).0 as int],
            focused == Some(out[b].0),
            is_closing,
            is_opening,
        ) by {
            if b < prev.len() {
                assert(out[a] == prev[a] && out[b] == prev[b]);
            } else if a >= prev.len() {
                assert(out[a] == seg[a - prev.len()] && out[b] == seg[b - prev.len()]);
            } else {
                assert(out[a] == prev[a] && out[b] == seg[b - prev.len()]);
            }
        }
    }
}

/// How the drawing order layers the items, for items drawn at positions `a`
/// and `b` of it:
/// - while closing, items that render on top come before all others;
/// - otherwise the floating layer comes before the tiling layer;
/// - within a layer, while the grid opens or closes, an active tab that is not
///   focused comes before every other item that is neither focused, on top,
///   nor an active tab, so it stays above its inactive tabs;
/// - within a layer, the focused item comes before every other item that is
///   not an inactive tab of a closing grid and not on top.
pub proof fn grid_render_order_layers(
    items: Seq<GridRenderItem>,
    focused: Option<usize>,
    is_closing: bool,
    is_opening: bool,
    a: int,
    b: int,
)
    requires
        items.len() <= usize::MAX,
        0 <= a < spec_grid_render_order(items, focused, is_closing, is_opening).len(),
        0 <= b < spec_grid_render_order(items, focused, is_closing, is_opening).len(),
    ensures
        ({
            let r = spec_grid_render_order(items, focused, is_closing, is_opening);
            let x = items[r[a].0 as int];
            let y = items[r[b].0 as int];
            let x_focused = focused == Some(r[a].0);
            let y_focused = focused == Some(r[b].0);
            &&& (x.on_top(is_closing) && !y.on_top(is_closing)) ==> a < b
            &&& (!x.on_top(is_closing) && !y.on_top(is_closing) && x.in_floating_layer
                && !y.in_floating_layer) ==> a < b
            &&& ((is_opening || is_closing) && x.in_floating_layer == y.in_floating_layer
                && x.active_tab() && !x_focused && !x.on_top(is_closing) && !y.active_tab()
                && !y_focused && !y.on_top(is_closing)) ==> a < b
            &&& (x.in_floating_layer == y.in_floating_layer && x_focused && !(is_closing
                && x.inactive_tab()) && !x.on_top(is_closing) && !y_focused && !y.on_top(
                is_closing,
            )) ==> a < b
        }),
{
    let r = spec_grid_render_order(items, focused, is_closing, is_opening);
    lemma_passes_output(items, focused, is_closing, is_opening, render_pass_count() as nat);
    lemma_passes_output_sorted(items, focused, is_closing, is_opening, render_pass_count() as nat);
    let x = items[r[a].0 as int];
    let y = items[r[b].0 as int];
    let dx = drawing_pass(x, focused == Some(r[a].0), is_closing, is_opening);
    let dy = drawing_pass(y, focused == Some(r[b].0), is_closing, is_opening);
    if b <= a {
        if b < a {
            assert(dy <= dx);
        }
    }
}

/// The grid overview draws every item that is drawn at all exactly once, and
/// no other item: every index in the drawing order names an item that is
/// drawn, each such item occurs, and no index occurs twice.
pub proof fn grid_render_order_draws_each_item_once(
    items: Seq<GridRenderItem>,
    focused: Option<usize>,
    is_closing: bool,
    is_opening: bool,
)
    requires
        items.len() <= usize::MAX,
    ensures
        ({
            let r = spec_grid_render_order(items, focused, is_closing, is_opening);
            &&& forall|k: int|
                0 <= k < r.len() ==> (#[trigger] r[k]).0 < items.len() && items[r[k].0 as int].should_render(
                    is_closing,
                )
            &&& forall|i: int|
                0 <= i < items.len() && (#[trigger] items[i]).should_render(is_closing) ==> exists|
                    k: int,
                | 0 <= k < r.len() && r[k].0 == i
            &&& forall|a: int, b: int| 0 <= a < b < r.len() ==> (#[trigger] r[a]).0 != (
            #[trigger] r[b]).0
        }),
{
    lemma_passes_output(items, focused, is_closing, is_opening, render_pass_count() as nat);
    let r = spec_grid_render_order(items, focused, is_closing, is_opening);
    assert forall|i: int|
        0 <= i < items.len() && (#[trigger] items[i]).should_render(is_closing) implies exists|
            k: int,
        | 0 <= k < r.len() && r[k].0 == i by {
        assert(drawing_pass(items[i], focused == Some(i as usize), is_closing, is_opening)
            < render_pass_count());
    }
}

/// The grid entries whose render elements are updated, in entry order, each
/// with the window that gets the grid focus ring: the grid-focused window for
/// the focused entry, none for the others.
pub open spec fn grid_update_prefix(
    visible_when_closing: Seq<bool>,
    is_closing: bool,
    focused: Option<usize>,
    focused_window: Option<u64>,
    k: nat,
) -> Seq<(usize, Option<u64>)>
    decreases k,
{
    if k == 0 {
        Seq::empty()
    } else {
        let i = (k - 1) as nat;
        let prev = grid_update_prefix(visible_when_closing, is_closing, focused, focused_window, i);
        if is_closing && !visible_when_closing[i as int] {
            prev
        } else {
            prev.push(
                (
                    i as usize,
                    if focused == Some(i as usize) {
                        focused_window
                    } else {
                        None
                    },
                ),
            )
        }
    }
}

/// Which grid entries have their render elements updated, and with which
/// focused window: none while the grid is neither open nor animating
/// (`is_shown`); otherwise every entry in order, except, while closing, those
/// not visible when closing. The focused entry carries `focused_window`, the
/// window focused in the grid.
pub fn grid_render_updates(
    visible_when_closing: &Vec<bool>,
    is_shown: bool,
    is_closing: bool,
    focused: Option<usize>,
    focused_window: Option<u64>,
) -> (r: Vec<(usize, Option<u64>)>)
    ensures
        r@ == if is_shown {
            grid_update_prefix(
                visible_when_closing@,
                is_closing,
                focused,
                focused_window,
                visible_when_closing@.len(),
            )
        } else {
            Seq::empty()
        },
{
    let mut r: Vec<(usize, Option<u64>)> = Vec::new();
    if !is_shown {
        return r;
    }
    let mut i: usize = 0;
    while i < visible_when_closing.len()
        invariant
            i <= visible_when_closing@.len(),
            r@ == grid_update_prefix(
                visible_when_closing@,
                is_closing,
                focused,
                focused_window,
                i as nat,
            ),
        decreases visible_when_closing@.len() - i,
    {
        if !(is_closing && !visible_when_closing[i]) {
            let is_focused = match focused {
                Some(f) => f == i,
                None => false,
            };
            r.push((i, if is_focused { focused_window } else { None }));
        }
        i = i + 1;
    }
    r
}

/// What a request about the grid overview does to it.
#[derive(Debug, Clone, Copy, PartialEq, Eq, Structural)]
pub enum GridLifecycle {
    /// Nothing changes.
    Unchanged,
    /// A new grid overview opens.
    Open,
    /// The grid overview starts closing.
    Close,
}

/// What toggling the grid overview does: an open grid starts closing; a grid
/// that is not open (absent, or still closing) opens anew, unless there are
/// no items to show. `is_open` says whether the grid is open, `has_items`
/// whether the workspace has grid items.
pub fn grid_toggle(is_open: bool, has_items: bool) -> (r: GridLifecycle)
    ensures
        r == if is_open {
            GridLifecycle::Close
        } else if has_items {
            GridLifecycle::Open
        } else {
            GridLifecycle::Unchanged
        },
{
    if is_open {
        GridLifecycle::Close
    } else if has_items {
        GridLifecycle::Open
    } else {
        GridLifecycle::Unchanged
    }
}

/// A request to open the grid overview: refused (`false`) while it is open,
/// else accepted and carried out as a toggle, which does nothing when there
/// are no items.
pub fn grid_open_request(is_open: bool, has_items: bool) -> (r: (bool, GridLifecycle))
    ensures
        r.0 == !is_open,
        r.1 == if !is_open && has_items {
            GridLifecycle::Open
        } else {
            GridLifecycle::Unchanged
        },
{
    if is_open {
        return (false, GridLifecycle::Unchanged);
    }
    (true, grid_toggle(is_open, has_items))
}

/// A request to close the grid overview: refused (`false`) unless it is open,
/// else accepted and the grid starts closing.
pub fn grid_close_request(is_open: bool) -> (r: (bool, GridLifecycle))
    ensures
        r.0 == is_open,
        r.1 == if is_open {
            GridLifecycle::Close
        } else {
            GridLifecycle::Unchanged
        },
{
    if !is_open {
        return (false, GridLifecycle::Unchanged);
    }
    (true, grid_toggle(is_open, true))
}

} // verus!
