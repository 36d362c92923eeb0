use vstd::prelude::*;

use crate::floating_active::FloatingActive;
use crate::workspace::{ActivateWindow, AddTileContext, SizingRequest, Workspace, WorkspaceAddWindowTarget};
use crate::ids::{WorkspaceId, WorkspaceIdCounter};

verus! {

/// Both workspaces hold the same windows in the same spaces, in whatever order.
pub open spec fn same_membership(a: &Workspace, b: &Workspace) -> bool {
    &&& forall|w: u64| #[trigger] a.scrolling_windows().contains(w) == b.scrolling_windows().contains(w)
    &&& forall|w: u64| #[trigger] a.floating_windows().contains(w) == b.floating_windows().contains(w)
}

/// Toggling the same window between floating and tiling twice puts it back
/// where it was and leaves every other window alone.
pub proof fn toggle_floating_twice_restores_windows(
    w0: &Workspace,
    w1: &Workspace,
    w2: &Workspace,
    window: u64,
)
    requires
        w0.wf(),
        w0.holds(window),
        Workspace::moved_across(w0, w1, window),
        Workspace::moved_across(w1, w2, window),
    ensures
        same_membership(w0, w2),
{
    assert forall|w: u64| #[trigger] w0.scrolling_windows().contains(w) == w2.scrolling_windows().contains(w) by {
        if w == window {
            assert(w0.scrolling_windows().contains(w) != w0.floating_windows().contains(w));
        }
    }
    assert forall|w: u64| #[trigger] w0.floating_windows().contains(w) == w2.floating_windows().contains(w) by {
        if w == window {
            assert(w0.scrolling_windows().contains(w) != w0.floating_windows().contains(w));
        }
    }
}

/// Removing a window right after adding it leaves the workspace holding the
/// same windows as before.
pub proof fn remove_undoes_add(w0: &Workspace, w1: &Workspace, w2: &Workspace, window: u64, from_floating: bool)
    requires
        !w0.holds(window),
        (w1.floating_windows() == w0.floating_windows().push(window) && w1.scrolling_windows()
            == w0.scrolling_windows()) || (w1.scrolling_windows() == w0.scrolling_windows().push(
            window,
        ) && w1.floating_windows() == w0.floating_windows()),
        Workspace::removed(w1, w2, window, from_floating),
    ensures
        same_membership(w0, w2),
{
    assert forall|w: u64| #[trigger] w0.scrolling_windows().contains(w) == w2.scrolling_windows().contains(w) by {
        if w1.scrolling_windows() == w0.scrolling_windows().push(window) {
            if w0.scrolling_windows().contains(w) {
                let k = choose|k: int| 0 <= k < w0.scrolling_windows().len() && w0.scrolling_windows()[k] == w;
                assert(w1.scrolling_windows()[k] == w);
            }
            if w1.scrolling_windows().contains(w) && w != window {
                let k = choose|k: int| 0 <= k < w1.scrolling_windows().len() && w1.scrolling_windows()[k] == w;
                assert(w0.scrolling_windows()[k] == w);
            }
        }
    }
    assert forall|w: u64| #[trigger] w0.floating_windows().contains(w) == w2.floating_windows().contains(w) by {
        if w1.floating_windows() == w0.floating_windows().push(window) {
            if w0.floating_windows().contains(w) {
                let k = choose|k: int| 0 <= k < w0.floating_windows().len() && w0.floating_windows()[k] == w;
                assert(w1.floating_windows()[k] == w);
            }
            if w1.floating_windows().contains(w) && w != window {
                let k = choose|k: int| 0 <= k < w1.floating_windows().len() && w1.floating_windows()[k] == w;
                assert(w0.floating_windows()[k] == w);
            }
        }
    }
}

/// Switching focus between floating and tiling twice gives focus back to the
/// space that had it.
pub proof fn switch_focus_twice_restores_focus(w0: &Workspace, w1: &Workspace)
    requires
        w0.wf(),
        w1.same_windows(w0),
        w1.focus_state() == w0.focus_after_switching(),
    ensures
        w1.focus_after_switching().is_active() == w0.focus_state().is_active(),
{
}

/// Making a window in the normal sizing mode fullscreen and then undoing it
/// puts the window back into the space it came from: a floating window
/// returns to floating, a tiled one stays tiled, and it is normal again.
pub proof fn fullscreen_round_trip_restores_space(
    w0: &Workspace,
    w1: &Workspace,
    w2: &Workspace,
    window: u64,
    r1: SizingRequest,
    r2: SizingRequest,
    active1: Option<u64>,
    active2: Option<u64>,
)
    requires
        w0.wf(),
        w0.holds(window),
        w0.is_normal(window),
        r1 == w0.fullscreen_request(window, true),
        Workspace::sizing_request_done(w0, w1, window, r1, true, true, active1),
        r2 == w1.fullscreen_request(window, false),
        Workspace::sizing_request_done(w1, w2, window, r2, true, false, active2),
    ensures
        w2.holds(window),
        w2.floating_windows().contains(window) == w0.floating_windows().contains(window),
        w2.is_normal(window),
{
    w0.lemma_sizing_wf(window);
}

/// Maximizing a window in the normal sizing mode and then undoing it puts the
/// window back into the space it came from: a floating window returns to
/// floating, a tiled one stays tiled, and it is normal again.
pub proof fn maximize_round_trip_restores_space(
    w0: &Workspace,
    w1: &Workspace,
    w2: &Workspace,
    window: u64,
    r1: SizingRequest,
    r2: SizingRequest,
    active1: Option<u64>,
    active2: Option<u64>,
)
    requires
        w0.wf(),
        w0.holds(window),
        w0.is_normal(window),
        r1 == w0.maximize_request(window, true),
        Workspace::sizing_request_done(w0, w1, window, r1, false, true, active1),
        r2 == w1.maximize_request(window, false),
        Workspace::sizing_request_done(w1, w2, window, r2, false, false, active2),
    ensures
        w2.holds(window),
        w2.floating_windows().contains(window) == w0.floating_windows().contains(window),
        w2.is_normal(window),
{
    w0.lemma_sizing_wf(window);
}

/// A workspace created from a counter gets an identifier that differs from
/// every identifier the counter handed out before, and that counts as handed
/// out from then on.
pub proof fn new_workspace_id_is_fresh(
    earlier: WorkspaceId,
    before: &WorkspaceIdCounter,
    after: &WorkspaceIdCounter,
    ws: &Workspace,
)
    requires
        before.issued(earlier.value()),
        ws.spec_id().value() == before.next_value(),
        after.next_value() == before.next_value() + 1,
    ensures
        ws.spec_id() != earlier,
        after.issued(ws.spec_id().value()),
{
}

/// Whether a new window takes focus: always with [`ActivateWindow::Yes`],
/// never with [`ActivateWindow::No`], and with [`ActivateWindow::Smart`] when
/// added anywhere unless the active window is pending fullscreen, never when
/// added as a new column at a given index, and when added next to the active
/// window. It floats when it asks to and is in the normal sizing mode, unless
/// it is added as a new column.
pub proof fn new_window_activation_rules(
    ws: &Workspace,
    target: WorkspaceAddWindowTarget,
    activate: ActivateWindow,
    is_floating: bool,
    normal: bool,
    ctx: AddTileContext,
)
    ensures
        ({
            let p = ws.add_tile_placement(target, activate, is_floating, normal, ctx);
            &&& activate is Yes ==> p.activates()
            &&& activate is No ==> !p.activates()
            &&& (activate is Smart && target is Auto) ==> p.activates() == !ctx.active_pending_fullscreen
            &&& (activate is Smart && target is NewColumnAt) ==> !p.activates()
            &&& activate is Smart ==> match target {
                WorkspaceAddWindowTarget::NextTo(n) => p.activates() == (ctx.active_window == Some(n)),
                _ => true,
            }
            &&& p.is_floating() == (is_floating && normal && !(target is NewColumnAt))
        }),
{
}

/// Removing a window moves focus only when a space empties: an emptied
/// floating space hands focus to the scrolling space, and an emptied scrolling
/// space hands it to a floating space that still holds windows. Otherwise the
/// space that had focus keeps it.
pub proof fn removal_moves_focus_only_when_a_space_empties(
    fa: FloatingActive,
    from_floating: bool,
    scrolling_len: nat,
    floating_len: nat,
)
    ensures
        ({
            let after = Workspace::focus_after_removing(fa, from_floating, scrolling_len, floating_len);
            &&& (!from_floating && scrolling_len > 0) ==> after == fa
            &&& (!from_floating && floating_len == 0) ==> after == fa
            &&& (!from_floating && scrolling_len == 0 && floating_len > 0) ==> after
                == FloatingActive::Yes
            &&& (from_floating && floating_len > 0) ==> after == fa
            &&& (from_floating && floating_len == 0) ==> after == FloatingActive::No
        }),
{
}

/// Moving a window that is not the active one to the other space leaves focus
/// where it was; moving the active one takes focus along to the space it went
/// to.
pub proof fn moving_a_window_takes_focus_only_when_active(ws: &Workspace, window: u64, activate: bool)
    ensures
        !activate ==> ws.focus_after_toggle(window, activate) == ws.focus_state(),
        activate ==> ws.focus_after_toggle(window, activate).is_active() == !ws.floating_windows().contains(
            window,
        ),
{
}

} // verus!
