use vstd::prelude::*;

use crate::floating_active::FloatingActive;
use crate::ids::{OutputId, WorkspaceId, WorkspaceIdCounter};
use crate::window_list::{contains, push_fresh, remove_value, set_member};

verus! {

/// Settings of a workspace that is declared in the configuration.
pub struct WorkspaceConfig {
    /// Name of the workspace.
    pub name: String,
    /// Formatted name of the output that the workspace should open on.
    pub open_on_output: Option<String>,
}

/// Whether a newly added window should get focus.
#[derive(Debug, Clone, Copy, PartialEq, Eq, Structural)]
pub enum ActivateWindow {
    /// Focus the window.
    Yes,
    /// Do not focus the window.
    No,
    /// Let the layout decide.
    Smart,
}

impl ActivateWindow {
    /// The decision, where `smart` is what the layout decides.
    pub open spec fn spec_map_smart(self, smart: bool) -> bool {
        match self {
            ActivateWindow::Yes => true,
            ActivateWindow::No => false,
            ActivateWindow::Smart => smart,
        }
    }

    /// The decision, where `smart` is what the layout decides.
    pub fn map_smart(self, smart: bool) -> (r: bool)
        ensures
            r == self.spec_map_smart(smart),
    {
        match self {
            ActivateWindow::Yes => true,
            ActivateWindow::No => false,
            ActivateWindow::Smart => smart,
        }
    }
}

/// Where to put a newly added window.
#[derive(Debug, Clone, Copy, PartialEq, Eq, Structural)]
pub enum WorkspaceAddWindowTarget {
    /// No particular preference.
    Auto,
    /// As a new column at this index.
    NewColumnAt(usize),
    /// Next to this existing window.
    NextTo(u64),
}

impl Default for WorkspaceAddWindowTarget {
    fn default() -> (r: Self)
        ensures
            r == WorkspaceAddWindowTarget::Auto,
    {
        WorkspaceAddWindowTarget::Auto
    }
}

/// Facts about the workspace's spaces that adding a tile depends on.
#[derive(Debug, Clone, Copy)]
pub struct AddTileContext {
    /// The active window of the workspace.
    pub active_window: Option<u64>,
    /// Whether the active scrolling window is pending fullscreen.
    pub active_pending_fullscreen: bool,
    /// The scrolling column at which the open grid overview inserts new
    /// windows, if it does.
    pub grid_column: Option<usize>,
}

/// Where a new tile goes, as decided by [`Workspace::add_tile`].
#[derive(Debug, Clone, Copy, PartialEq, Eq, Structural)]
pub enum TilePlacement {
    /// Into the floating space.
    Floating { activate: bool },
    /// Into the floating space, above the floating window `next_to`.
    FloatingAbove { next_to: u64, activate: bool },
    /// Into the floating space, centred over the scrolling window `next_to`.
    FloatingOver { next_to: u64, activate: bool },
    /// Into the scrolling space, as a new column at `column`, or where the
    /// scrolling space puts new windows.
    Scrolling { column: Option<usize>, activate: bool },
    /// Into the scrolling space, right of the window `next_to`.
    ScrollingRightOf { next_to: u64, activate: bool },
}

impl TilePlacement {
    /// Whether the tile goes into the floating space.
    pub open spec fn is_floating(self) -> bool {
        ||| self is Floating
        ||| self is FloatingAbove
        ||| self is FloatingOver
    }

    /// Whether the tile gets focus.
    pub open spec fn activates(self) -> bool {
        match self {
            TilePlacement::Floating { activate } => activate,
            TilePlacement::FloatingAbove { activate, .. } => activate,
            TilePlacement::FloatingOver { activate, .. } => activate,
            TilePlacement::Scrolling { activate, .. } => activate,
            TilePlacement::ScrollingRightOf { activate, .. } => activate,
        }
    }
}

/// A window moved between the spaces by [`Workspace::toggle_window_floating`].
#[derive(Debug, Clone, Copy, PartialEq, Eq, Structural)]
pub struct FloatingToggle {
    /// The window that moved.
    pub window: u64,
    /// Whether it moved into the floating space (else into the scrolling one).
    pub to_floating: bool,
    /// Whether it was the targeted active window and keeps focus.
    pub activate: bool,
}

/// The sizing mode that a window asks for.
#[derive(Debug, Clone, Copy, PartialEq, Eq, Structural)]
pub enum SizingMode {
    /// Neither maximized nor fullscreen.
    Normal,
    /// Maximized.
    Maximized,
    /// Fullscreen.
    Fullscreen,
}

/// What came of a request to fullscreen or maximize a window, or to undo
/// that.
#[derive(Debug, Clone, Copy, PartialEq, Eq, Structural)]
pub enum SizingRequest {
    /// Nothing: a floating window is never fullscreen nor maximized.
    Ignore,
    /// The window went back to the floating space it came from instead.
    ReturnedToFloating,
    /// The request was applied in the scrolling space. `restore_to_floating`
    /// holds when the window came there from the floating space, to which it
    /// returns once the request is undone.
    Apply { restore_to_floating: bool },
}

/// Whether a move of a floating position along one axis sets the position
/// or adjusts the current one.
#[derive(Debug, Clone, Copy, PartialEq, Eq, Structural)]
pub enum PositionChangeKind {
    /// Sets the position, in logical pixels or as a proportion.
    SetTo,
    /// Adjusts the current position, in logical pixels or as a proportion.
    AdjustBy,
}

/// Where [`Workspace::floating_move`] applies a move of a floating position.
#[derive(Debug, Clone, Copy, PartialEq, Eq, Structural)]
pub enum FloatingMove {
    /// To the window in the floating space.
    InFloatingSpace,
    /// To the stored floating position of the scrolling window `window`,
    /// starting from the stored position or, when `from_origin`, from the
    /// origin.
    StoredPosition { window: u64, from_origin: bool },
    /// Nowhere: there is nothing to move.
    Nowhere,
}

/// Whether the focus rules hold for a workspace whose spaces hold
/// `scrolling_len` and `floating_len` windows:
/// - when the floating space is empty it is never active;
/// - when the scrolling space is empty but the floating one is not, the
///   floating space is active.
pub open spec fn focus_consistent(fa: FloatingActive, scrolling_len: nat, floating_len: nat) -> bool {
    &&& floating_len == 0 ==> !fa.is_active()
    &&& (scrolling_len == 0 && floating_len > 0) ==> fa.is_active()
}

/// A workspace: its identity and name, the output it belongs to, the windows
/// of its scrolling and floating spaces, and which of the two has focus.
pub struct Workspace {
    /// Windows of the scrollable-tiling layout.
    scrolling: Vec<u64>,
    /// Windows of the floating layout.
    floating: Vec<u64>,
    /// Scrolling windows whose column is pending fullscreen.
    fullscreen: Vec<u64>,
    /// Scrolling windows whose column is pending maximized.
    maximized: Vec<u64>,
    /// Windows whose tile returns to the floating space when it leaves
    /// fullscreen or maximized.
    restore_to_floating: Vec<u64>,
    /// Whether the floating layout is active instead of the scrolling layout.
    floating_is_active: FloatingActive,
    /// The output that the workspace is currently shown on, if any.
    output: Option<OutputId>,
    /// The original output of this workspace.
    ///
    /// Most of the time this will be the workspace's current output, however,
    /// after an output disconnection, it may remain pointing to the
    /// disconnected output.
    original_output: OutputId,
    /// Optional name of this workspace.
    name: Option<String>,
    /// Unique ID of this workspace.
    id: WorkspaceId,
}

impl Workspace {
    /// Windows of the scrolling space.
    pub closed spec fn scrolling_windows(&self) -> Seq<u64> {
        self.scrolling@
    }

    /// Windows of the floating space.
    pub closed spec fn floating_windows(&self) -> Seq<u64> {
        self.floating@
    }

    /// Whether the scrolling column of `window` is pending fullscreen.
    pub closed spec fn pending_fullscreen(&self, window: u64) -> bool {
        self.fullscreen@.contains(window)
    }

    /// Whether the scrolling column of `window` is pending maximized.
    pub closed spec fn pending_maximized(&self, window: u64) -> bool {
        self.maximized@.contains(window)
    }

    /// Whether the tile of `window` returns to the floating space when it
    /// leaves fullscreen or maximized.
    pub closed spec fn restores_to_floating(&self, window: u64) -> bool {
        self.restore_to_floating@.contains(window)
    }

    /// Whether `window` is in the normal sizing mode (neither fullscreen nor
    /// maximized).
    pub open spec fn is_normal(&self, window: u64) -> bool {
        !self.pending_fullscreen(window) && !self.pending_maximized(window)
    }

    /// Whether the pending sizing mode of `window` is maximized: its column
    /// is maximized and not fullscreen, which takes precedence.
    pub open spec fn is_maximized_mode(&self, window: u64) -> bool {
        self.pending_maximized(window) && !self.pending_fullscreen(window)
    }

    /// `window` has the same sizing state in both workspaces.
    pub open spec fn same_sizing_of(&self, other: &Workspace, window: u64) -> bool {
        &&& self.pending_fullscreen(window) == other.pending_fullscreen(window)
        &&& self.pending_maximized(window) == other.pending_maximized(window)
        &&& self.restores_to_floating(window) == other.restores_to_floating(window)
    }

    /// The sizing state of every window other than `window` is the same in
    /// both workspaces.
    pub open spec fn same_sizing_except(&self, other: &Workspace, window: u64) -> bool {
        forall|w: u64| w != window ==> #[trigger] self.same_sizing_of(other, w)
    }

    /// `window` is neither fullscreen nor maximized, and does not return to
    /// the floating space.
    pub open spec fn has_no_sizing(&self, window: u64) -> bool {
        &&& !self.pending_fullscreen(window)
        &&& !self.pending_maximized(window)
        &&& !self.restores_to_floating(window)
    }

    /// The sizing records hold no window twice, only scrolling windows are
    /// fullscreen or maximized, and only held windows restore to floating.
    pub closed spec fn flags_wf(&self) -> bool {
        &&& self.fullscreen@.no_duplicates()
        &&& self.maximized@.no_duplicates()
        &&& self.restore_to_floating@.no_duplicates()
        &&& forall|w: u64| #[trigger] self.fullscreen@.contains(w) ==> self.scrolling@.contains(w)
        &&& forall|w: u64| #[trigger] self.maximized@.contains(w) ==> self.scrolling@.contains(w)
        &&& forall|w: u64| #[trigger] self.restore_to_floating@.contains(w) ==> (self.scrolling@.contains(w)
            || self.floating@.contains(w))
    }

    /// In a well-formed workspace only scrolling windows are fullscreen or
    /// maximized, and only held windows restore to floating.
    pub proof fn lemma_sizing_wf(&self, w: u64)
        requires
            self.wf(),
        ensures
            self.pending_fullscreen(w) ==> self.scrolling_windows().contains(w),
            self.pending_maximized(w) ==> self.scrolling_windows().contains(w),
            self.restores_to_floating(w) ==> self.holds(w),
    {
    }

    /// Which space has focus.
    pub closed spec fn focus_state(&self) -> FloatingActive {
        self.floating_is_active
    }

    /// The output that the workspace is currently shown on, if any.
    pub closed spec fn current_output_name(&self) -> Option<Seq<char>> {
        match self.output {
            Some(o) => Some(o@),
            None => None,
        }
    }

    /// The original output of the workspace.
    pub closed spec fn original_output_name(&self) -> Seq<char> {
        self.original_output@
    }

    /// The name of the workspace, if it has one.
    pub closed spec fn spec_name(&self) -> Option<Seq<char>> {
        match self.name {
            Some(n) => Some(n@),
            None => None,
        }
    }

    /// The identifier of the workspace.
    pub closed spec fn spec_id(&self) -> WorkspaceId {
        self.id
    }

    /// Whether `window` is in one of the two spaces.
    pub open spec fn holds(&self, window: u64) -> bool {
        self.scrolling_windows().contains(window) || self.floating_windows().contains(window)
    }

    /// The workspace is well formed: no window is held twice and the focus
    /// rules hold.
    pub open spec fn wf(&self) -> bool {
        &&& self.scrolling_windows().no_duplicates()
        &&& self.floating_windows().no_duplicates()
        &&& forall|w: u64|
            !(#[trigger] self.scrolling_windows().contains(w) && self.floating_windows().contains(w))
        &&& focus_consistent(
            self.focus_state(),
            self.scrolling_windows().len(),
            self.floating_windows().len(),
        )
        &&& self.flags_wf()
    }

    /// Whether `active` is the window that the workspace reports as active: the
    /// active window of the floating space when it has focus, else that of the
    /// scrolling space; there is none exactly when that space is empty.
    pub open spec fn is_active_window(&self, active: Option<u64>) -> bool {
        match active {
            Some(a) => if self.focus_state().is_active() {
                self.floating_windows().contains(a)
            } else {
                self.scrolling_windows().contains(a)
            },
            None => if self.focus_state().is_active() {
                self.floating_windows().len() == 0
            } else {
                self.scrolling_windows().len() == 0
            },
        }
    }

    /// Identity, name, original and current output are the same in both
    /// workspaces.
    pub open spec fn same_identity(&self, other: &Workspace) -> bool {
        &&& self.spec_id() == other.spec_id()
        &&& self.spec_name() == other.spec_name()
        &&& self.original_output_name() == other.original_output_name()
        &&& self.current_output_name() == other.current_output_name()
    }

    /// Both workspaces hold the same windows in the same spaces, with the same
    /// sizing state.
    pub open spec fn same_windows(&self, other: &Workspace) -> bool {
        &&& self.scrolling_windows() == other.scrolling_windows()
        &&& self.floating_windows() == other.floating_windows()
        &&& self.same_sizing(other)
    }

    /// Every window has the same sizing state in both workspaces.
    pub closed spec fn same_sizing(&self, other: &Workspace) -> bool {
        &&& self.fullscreen@ == other.fullscreen@
        &&& self.maximized@ == other.maximized@
        &&& self.restore_to_floating@ == other.restore_to_floating@
    }

    /// Sets the sizing state of `window`; nothing else changes.
    fn set_sizing(&mut self, window: u64, fullscreen: bool, maximized: bool, restore: bool)
        requires
            old(self).flags_wf(),
            old(self).scrolling_windows().no_duplicates(),
            fullscreen || maximized ==> old(self).scrolling_windows().contains(window),
            restore ==> old(self).holds(window),
        ensures
            final(self).flags_wf(),
            final(self).scrolling_windows() == old(self).scrolling_windows(),
            final(self).floating_windows() == old(self).floating_windows(),
            final(self).focus_state() == old(self).focus_state(),
            final(self).same_identity(old(self)),
            final(self).pending_fullscreen(window) == fullscreen,
            final(self).pending_maximized(window) == maximized,
            final(self).restores_to_floating(window) == restore,
            final(self).same_sizing_except(old(self), window),
    {
        set_member(&mut self.fullscreen, window, fullscreen);
        set_member(&mut self.maximized, window, maximized);
        set_member(&mut self.restore_to_floating, window, restore);
    }

    /// Applies a request to set fullscreen (when `fullscreen`) or maximized to
    /// `value` for the scrolling window `window`. A window that leaves the
    /// normal sizing mode remembers `restore`.
    fn apply_sizing(&mut self, window: u64, fullscreen: bool, value: bool, restore: bool)
        requires
            old(self).wf(),
            old(self).scrolling_windows().contains(window),
        ensures
            final(self).wf(),
            final(self).scrolling_windows() == old(self).scrolling_windows(),
            final(self).floating_windows() == old(self).floating_windows(),
            final(self).focus_state() == old(self).focus_state(),
            final(self).same_identity(old(self)),
            Self::sizing_applied(old(self), final(self), window, fullscreen, value, restore),
    {
        let fs = contains(&self.fullscreen, window);
        let max = contains(&self.maximized, window);
        let was_restore = contains(&self.restore_to_floating, window);
        let new_fs = if fullscreen { value } else { fs };
        let new_max = if fullscreen { max } else { value };
        let new_restore = if !fs && !max && (new_fs || new_max) { restore } else { was_restore };
        self.set_sizing(window, new_fs, new_max, new_restore);
    }

    /// `after` is `before` with fullscreen (when `fullscreen`) or maximized
    /// set to `value` for `window`; a window that left the normal sizing mode
    /// remembers `restore`.
    pub open spec fn sizing_applied(
        before: &Workspace,
        after: &Workspace,
        window: u64,
        fullscreen: bool,
        value: bool,
        restore: bool,
    ) -> bool {
        let fs = if fullscreen { value } else { before.pending_fullscreen(window) };
        let max = if fullscreen { before.pending_maximized(window) } else { value };
        &&& after.pending_fullscreen(window) == fs
        &&& after.pending_maximized(window) == max
        &&& after.restores_to_floating(window) == if before.is_normal(window) && (fs || max) {
            restore
        } else {
            before.restores_to_floating(window)
        }
        &&& after.same_sizing_except(before, window)
    }

    /// Sizing states that agree, but for `window`, along a chain of
    /// workspaces agree between its ends.
    proof fn lemma_sizing_trans(a: &Workspace, b: &Workspace, c: &Workspace, window: u64)
        requires
            b.same_sizing(a) || b.same_sizing_except(a, window),
            c.same_sizing(b) || c.same_sizing_except(b, window),
        ensures
            c.same_sizing_except(a, window),
    {
        assert forall|w: u64| w != window implies #[trigger] c.same_sizing_of(a, w) by {
            assert(b.same_sizing_of(a, w));
            assert(c.same_sizing_of(b, w));
        }
    }

    fn empty(
        output: Option<OutputId>,
        original_output: OutputId,
        name: Option<String>,
        ids: &mut WorkspaceIdCounter,
    ) -> (ws: Self)
        requires
            old(ids).next_value() < u64::MAX,
        ensures
            ws.wf(),
            ws.scrolling_windows().len() == 0,
            ws.floating_windows().len() == 0,
            ws.focus_state() == FloatingActive::No,
            ws.current_output_name() == match output {
                Some(o) => Some(o@),
                None => None::<Seq<char>>,
            },
            ws.original_output_name() == original_output@,
            ws.spec_name() == match name {
                Some(n) => Some(n@),
                None => None::<Seq<char>>,
            },
            ws.spec_id().value() == old(ids).next_value(),
            final(ids).next_value() == old(ids).next_value() + 1,
    {
        Workspace {
            scrolling: Vec::new(),
            floating: Vec::new(),
            fullscreen: Vec::new(),
            maximized: Vec::new(),
            restore_to_floating: Vec::new(),
            floating_is_active: FloatingActive::No,
            output,
            original_output,
            name,
            id: WorkspaceId::next(ids),
        }
    }

    /// A new empty workspace on `output`.
    pub fn new(output: OutputId, ids: &mut WorkspaceIdCounter) -> (ws: Self)
        requires
            old(ids).next_value() < u64::MAX,
        ensures
            ws.wf(),
            ws.scrolling_windows().len() == 0,
            ws.floating_windows().len() == 0,
            ws.focus_state() == FloatingActive::No,
            ws.current_output_name() == Some(output@),
            ws.original_output_name() == output@,
            ws.spec_name() == None::<Seq<char>>,
            ws.spec_id().value() == old(ids).next_value(),
            final(ids).next_value() == old(ids).next_value() + 1,
    {
        Self::new_with_config(output, None, ids)
    }

    /// A new empty workspace on `output`, configured by `config`.
    ///
    /// The workspace takes its name from the configuration and belongs to the
    /// output the configuration asks to open on, or else to `output`.
    pub fn new_with_config(output: OutputId, config: Option<WorkspaceConfig>, ids: &mut WorkspaceIdCounter) -> (ws: Self)
        requires
            old(ids).next_value() < u64::MAX,
        ensures
            ws.wf(),
            ws.scrolling_windows().len() == 0,
            ws.floating_windows().len() == 0,
            ws.focus_state() == FloatingActive::No,
            ws.current_output_name() == Some(output@),
            ws.original_output_name() == match config {
                Some(c) => match c.open_on_output {
                    Some(o) => o@,
                    None => output@,
                },
                None => output@,
            },
            ws.spec_name() == match config {
                Some(c) => Some(c.name@),
                None => None::<Seq<char>>,
            },
            ws.spec_id().value() == old(ids).next_value(),
            final(ids).next_value() == old(ids).next_value() + 1,
    {
        let current = output.duplicate();
        match config {
            Some(c) => {
                let original_output = OutputId::for_new_workspace(c.open_on_output, output);
                Self::empty(Some(current), original_output, Some(c.name), ids)
            },
            None => Self::empty(Some(current), output, None, ids),
        }
    }

    /// A new empty workspace created while no output is connected, configured
    /// by `config`.
    ///
    /// The workspace belongs to the output its configuration asks to open on,
    /// or to the output with the empty name.
    pub fn new_with_config_no_outputs(config: Option<WorkspaceConfig>, ids: &mut WorkspaceIdCounter) -> (ws: Self)
        requires
            old(ids).next_value() < u64::MAX,
        ensures
            ws.wf(),
            ws.scrolling_windows().len() == 0,
            ws.floating_windows().len() == 0,
            ws.focus_state() == FloatingActive::No,
            ws.current_output_name() == None::<Seq<char>>,
            ws.original_output_name() == match config {
                Some(c) => match c.open_on_output {
                    Some(o) => o@,
                    None => Seq::<char>::empty(),
                },
                None => Seq::<char>::empty(),
            },
            ws.spec_name() == match config {
                Some(c) => Some(c.name@),
                None => None::<Seq<char>>,
            },
            ws.spec_id().value() == old(ids).next_value(),
            final(ids).next_value() == old(ids).next_value() + 1,
    {
        match config {
            Some(c) => {
                let original_output = OutputId::for_new_workspace_without_output(c.open_on_output);
                Self::empty(None, original_output, Some(c.name), ids)
            },
            None => {
                let original_output = OutputId::for_new_workspace_without_output(None);
                Self::empty(None, original_output, None, ids)
            },
        }
    }

    /// A new empty, unnamed workspace created while no output is connected.
    pub fn new_no_outputs(ids: &mut WorkspaceIdCounter) -> (ws: Self)
        requires
            old(ids).next_value() < u64::MAX,
        ensures
            ws.wf(),
            ws.scrolling_windows().len() == 0,
            ws.floating_windows().len() == 0,
            ws.focus_state() == FloatingActive::No,
            ws.current_output_name() == None::<Seq<char>>,
            ws.original_output_name() == Seq::<char>::empty(),
            ws.spec_name() == None::<Seq<char>>,
            ws.spec_id().value() == old(ids).next_value(),
            final(ids).next_value() == old(ids).next_value() + 1,
    {
        Self::new_with_config_no_outputs(None, ids)
    }

    /// The identifier of the workspace.
    pub fn id(&self) -> (r: WorkspaceId)
        ensures
            r == self.spec_id(),
    {
        self.id
    }

    /// The name of the workspace, if it has one.
    pub fn name(&self) -> (r: Option<&String>)
        ensures
            match r {
                Some(n) => self.spec_name() == Some(n@),
                None => self.spec_name() is None,
            },
    {
        self.name.as_ref()
    }

    /// The original output of the workspace.
    pub fn original_output(&self) -> (r: &OutputId)
        ensures
            r@ == self.original_output_name(),
    {
        &self.original_output
    }

    /// Forgets the name of the workspace.
    pub fn unname(&mut self)
        requires
            old(self).wf(),
        ensures
            final(self).wf(),
            final(self).spec_name() is None,
            final(self).spec_id() == old(self).spec_id(),
            final(self).original_output_name() == old(self).original_output_name(),
            final(self).current_output_name() == old(self).current_output_name(),
            final(self).same_windows(old(self)),
            final(self).focus_state() == old(self).focus_state(),
    {
        self.name = None;
    }

    /// Whether the workspace holds any window.
    pub fn has_windows(&self) -> (r: bool)
        ensures
            r == (self.scrolling_windows().len() > 0 || self.floating_windows().len() > 0),
    {
        self.scrolling.len() > 0 || self.floating.len() > 0
    }

    /// Whether the workspace holds `window`.
    pub fn has_window(&self, window: u64) -> (r: bool)
        ensures
            r == self.holds(window),
    {
        contains(&self.scrolling, window) || contains(&self.floating, window)
    }

    /// Whether the workspace holds any window or has a name; such a workspace
    /// is kept when it is not in use.
    pub fn has_windows_or_name(&self) -> (r: bool)
        ensures
            r == (self.scrolling_windows().len() > 0 || self.floating_windows().len() > 0
                || self.spec_name() is Some),
    {
        self.has_windows() || self.name.is_some()
    }

    /// Whether `window` is in the floating space.
    pub fn is_floating(&self, window: u64) -> (r: bool)
        ensures
            r == self.floating_windows().contains(window),
    {
        contains(&self.floating, window)
    }

    /// Whether the floating space has focus.
    pub fn floating_is_active(&self) -> (r: bool)
        ensures
            r == self.focus_state().is_active(),
    {
        self.floating_is_active.get()
    }

    /// Where [`Workspace::add_tile`] puts a new tile.
    ///
    /// A tile that wants to float and is neither maximized nor fullscreen goes
    /// into the floating space; other tiles go into the scrolling space. With
    /// [`ActivateWindow::Smart`], a tile added anywhere does not steal focus
    /// from a fullscreen window, a tile added at a given column never gets
    /// focus, and a tile added next to a window gets focus when that window has
    /// it.
    pub open spec fn add_tile_placement(
        &self,
        target: WorkspaceAddWindowTarget,
        activate: ActivateWindow,
        is_floating: bool,
        pending_sizing_normal: bool,
        ctx: AddTileContext,
    ) -> TilePlacement {
        match target {
            WorkspaceAddWindowTarget::Auto => {
                let act = activate.spec_map_smart(!ctx.active_pending_fullscreen);
                if is_floating && pending_sizing_normal {
                    TilePlacement::Floating { activate: act }
                } else {
                    TilePlacement::Scrolling { column: ctx.grid_column, activate: act }
                }
            },
            WorkspaceAddWindowTarget::NewColumnAt(col) => TilePlacement::Scrolling {
                column: Some(col),
                activate: activate.spec_map_smart(false),
            },
            WorkspaceAddWindowTarget::NextTo(next_to) => {
                let act = activate.spec_map_smart(ctx.active_window == Some(next_to));
                if is_floating && pending_sizing_normal {
                    if self.floating_windows().contains(next_to) {
                        TilePlacement::FloatingAbove { next_to, activate: act }
                    } else {
                        TilePlacement::FloatingOver { next_to, activate: act }
                    }
                } else if self.floating_windows().contains(next_to) {
                    TilePlacement::Scrolling { column: None, activate: act }
                } else {
                    TilePlacement::ScrollingRightOf { next_to, activate: act }
                }
            },
        }
    }

    /// Which space has focus after a tile was placed by `placement`: a focused
    /// tile brings focus to its space, and a floating tile added while the
    /// scrolling space is empty brings focus to the floating space.
    pub open spec fn focus_after_adding(&self, placement: TilePlacement) -> FloatingActive {
        if placement.is_floating() {
            if placement.activates() || self.scrolling_windows().len() == 0 {
                FloatingActive::Yes
            } else {
                self.focus_state()
            }
        } else if placement.activates() {
            FloatingActive::No
        } else {
            self.focus_state()
        }
    }

    /// Adds `window` to the workspace and says where its tile goes.
    ///
    /// `sizing` is the sizing mode the window asks for; a tile placed in the
    /// scrolling space takes it. The tile remembers `is_floating`: whether it
    /// returns to the floating space once it leaves fullscreen or maximized.
    pub fn add_tile(
        &mut self,
        window: u64,
        target: WorkspaceAddWindowTarget,
        activate: ActivateWindow,
        is_floating: bool,
        sizing: SizingMode,
        ctx: AddTileContext,
    ) -> (placement: TilePlacement)
        requires
            old(self).wf(),
            !old(self).holds(window),
            old(self).is_active_window(ctx.active_window),
            target matches WorkspaceAddWindowTarget::NextTo(n) ==> old(self).holds(n),
        ensures
            final(self).wf(),
            placement == old(self).add_tile_placement(
                target,
                activate,
                is_floating,
                sizing is Normal,
                ctx,
            ),
            final(self).pending_fullscreen(window) == (!placement.is_floating()
                && sizing is Fullscreen),
            final(self).pending_maximized(window) == (!placement.is_floating()
                && sizing is Maximized),
            final(self).restores_to_floating(window) == is_floating,
            final(self).same_sizing_except(old(self), window),
            final(self).focus_state() == old(self).focus_after_adding(placement),
            activate is Yes ==> placement.activates(),
            activate is No ==> !placement.activates(),
            activate is Smart ==> placement.activates() == match target {
                WorkspaceAddWindowTarget::Auto => !ctx.active_pending_fullscreen,
                WorkspaceAddWindowTarget::NewColumnAt(_) => false,
                WorkspaceAddWindowTarget::NextTo(n) => ctx.active_window == Some(n),
            },
            placement.is_floating() == (is_floating && sizing is Normal
                && !(target is NewColumnAt)),
            placement.activates() ==> final(self).focus_state().is_active()
                == placement.is_floating(),
            !placement.activates() && old(self).scrolling_windows().len() > 0 ==> final(self).focus_state() == old(self).focus_state(),
            !placement.activates() && !placement.is_floating() ==> final(self).focus_state() == old(
                self).focus_state(),
            placement.is_floating() && old(self).scrolling_windows().len() == 0
                ==> final(self).focus_state() == FloatingActive::Yes,
            match placement {
                TilePlacement::Scrolling { column, .. } => column == match target {
                    WorkspaceAddWindowTarget::Auto => ctx.grid_column,
                    WorkspaceAddWindowTarget::NewColumnAt(c) => Some(c),
                    WorkspaceAddWindowTarget::NextTo(n) => None,
                } && (target matches WorkspaceAddWindowTarget::NextTo(n)
                    ==> old(self).floating_windows().contains(n)),
                TilePlacement::ScrollingRightOf { next_to, .. } => target
                    == WorkspaceAddWindowTarget::NextTo(next_to) && !old(
                    self).floating_windows().contains(next_to),
                TilePlacement::FloatingAbove { next_to, .. } => target
                    == WorkspaceAddWindowTarget::NextTo(next_to) && old(
                    self).floating_windows().contains(next_to),
                TilePlacement::FloatingOver { next_to, .. } => target
                    == WorkspaceAddWindowTarget::NextTo(next_to) && !old(
                    self).floating_windows().contains(next_to),
                TilePlacement::Floating { .. } => target is Auto,
            },
            placement.is_floating() ==> {
                &&& final(self).floating_windows() == old(self).floating_windows().push(window)
                &&& final(self).scrolling_windows() == old(self).scrolling_windows()
            },
            !placement.is_floating() ==> {
                &&& final(self).scrolling_windows() == old(self).scrolling_windows().push(window)
                &&& final(self).floating_windows() == old(self).floating_windows()
            },
            final(self).same_identity(old(self)),
    {
        let pending_sizing_normal = match sizing {
            SizingMode::Normal => true,
            _ => false,
        };
        let placement = match target {
            WorkspaceAddWindowTarget::Auto => {
                // Don't steal focus from an active fullscreen window.
                let act = activate.map_smart(!ctx.active_pending_fullscreen);
                // If the tile is pending maximized or fullscreen, open it in the scrolling layout
                // where it can do that.
                if is_floating && pending_sizing_normal {
                    TilePlacement::Floating { activate: act }
                } else {
                    TilePlacement::Scrolling { column: ctx.grid_column, activate: act }
                }
            },
            WorkspaceAddWindowTarget::NewColumnAt(col) => TilePlacement::Scrolling {
                column: Some(col),
                activate: activate.map_smart(false),
            },
            WorkspaceAddWindowTarget::NextTo(next_to) => {
                let next_to_is_active = match ctx.active_window {
                    Some(a) => a == next_to,
                    None => false,
                };
                let act = activate.map_smart(next_to_is_active);
                let floating_has_window = contains(&self.floating, next_to);
                if is_floating && pending_sizing_normal {
                    if floating_has_window {
                        TilePlacement::FloatingAbove { next_to, activate: act }
                    } else {
                        TilePlacement::FloatingOver { next_to, activate: act }
                    }
                } else if floating_has_window {
                    TilePlacement::Scrolling { column: None, activate: act }
                } else {
                    TilePlacement::ScrollingRightOf { next_to, activate: act }
                }
            },
        };
        let (to_floating, act) = match placement {
            TilePlacement::Floating { activate } => (true, activate),
            TilePlacement::FloatingAbove { activate, .. } => (true, activate),
            TilePlacement::FloatingOver { activate, .. } => (true, activate),
            TilePlacement::Scrolling { activate, .. } => (false, activate),
            TilePlacement::ScrollingRightOf { activate, .. } => (false, activate),
        };
        if to_floating {
            let scrolling_is_empty = self.scrolling.len() == 0;
            push_fresh(&mut self.floating, window);
            if act || scrolling_is_empty {
                self.floating_is_active = FloatingActive::Yes;
            }
        } else {
            push_fresh(&mut self.scrolling, window);
            if act {
                self.floating_is_active = FloatingActive::No;
            }
        }
        let fullscreen = !to_floating && match sizing {
            SizingMode::Fullscreen => true,
            _ => false,
        };
        let maximized = !to_floating && match sizing {
            SizingMode::Maximized => true,
            _ => false,
        };
        let ghost mid = *self;
        self.set_sizing(window, fullscreen, maximized, is_floating);
        proof {
            Self::lemma_sizing_trans(old(self), &mid, self, window);
        }
        placement
    }

    /// Adds `window` to an existing column of the scrolling space. The column
    /// is pending fullscreen when `column_fullscreen` holds and pending
    /// maximized when `column_maximized` holds; the tile returns to the
    /// floating space when it leaves them if `restore_to_floating` holds.
    pub fn add_tile_to_column(
        &mut self,
        window: u64,
        activate: bool,
        column_fullscreen: bool,
        column_maximized: bool,
        restore_to_floating: bool,
    )
        requires
            old(self).wf(),
            !old(self).holds(window),
        ensures
            final(self).wf(),
            final(self).scrolling_windows() == old(self).scrolling_windows().push(window),
            final(self).floating_windows() == old(self).floating_windows(),
            final(self).focus_state() == if activate {
                FloatingActive::No
            } else {
                old(self).focus_state()
            },
            final(self).pending_fullscreen(window) == column_fullscreen,
            final(self).pending_maximized(window) == column_maximized,
            final(self).restores_to_floating(window) == restore_to_floating,
            final(self).same_sizing_except(old(self), window),
            final(self).same_identity(old(self)),
    {
        push_fresh(&mut self.scrolling, window);
        if activate {
            self.floating_is_active = FloatingActive::No;
        }
        let ghost mid = *self;
        self.set_sizing(window, column_fullscreen, column_maximized, restore_to_floating);
        proof {
            Self::lemma_sizing_trans(old(self), &mid, self, window);
        }
    }

    /// Adds a whole column, holding `windows`, to the scrolling space. A column
    /// holds at least one window. The column is pending fullscreen when
    /// `column_fullscreen` holds and pending maximized when `column_maximized`
    /// holds; `restore_to_floating` gives, window by window, whether its tile
    /// returns to the floating space when it leaves them.
    pub fn add_column(
        &mut self,
        windows: &Vec<u64>,
        activate: bool,
        column_fullscreen: bool,
        column_maximized: bool,
        restore_to_floating: &Vec<bool>,
    )
        requires
            old(self).wf(),
            windows@.len() > 0,
            windows@.no_duplicates(),
            restore_to_floating@.len() == windows@.len(),
            forall|w: u64| #[trigger] windows@.contains(w) ==> !old(self).holds(w),
        ensures
            final(self).wf(),
            final(self).scrolling_windows() == old(self).scrolling_windows() + windows@,
            final(self).floating_windows() == old(self).floating_windows(),
            final(self).focus_state() == if activate {
                FloatingActive::No
            } else {
                old(self).focus_state()
            },
            forall|k: int|
                0 <= k < windows@.len() ==> {
                    &&& final(self).pending_fullscreen(#[trigger] windows@[k]) == column_fullscreen
                    &&& final(self).pending_maximized(windows@[k]) == column_maximized
                    &&& final(self).restores_to_floating(windows@[k]) == restore_to_floating@[k]
                },
            forall|w: u64|
                !windows@.contains(w) ==> #[trigger] final(self).same_sizing_of(old(self), w),
            final(self).same_identity(old(self)),
    {
        let ghost start = self.scrolling@;
        let mut i: usize = 0;
        while i < windows.len()
            invariant
                i <= windows@.len(),
                windows@.no_duplicates(),
                restore_to_floating@.len() == windows@.len(),
                forall|w: u64| #[trigger] windows@.contains(w) ==> !old(self).holds(w),
                forall|w: u64| #[trigger] windows@.contains(w) ==> !start.contains(w),
                forall|w: u64|
                    #[trigger] windows@.contains(w) ==> !self.floating@.contains(w),
                start == old(self).scrolling@,
                self.scrolling@ == start + windows@.take(i as int),
                self.scrolling@.no_duplicates(),
                self.floating@.no_duplicates(),
                forall|w: u64| !(#[trigger] self.scrolling@.contains(w) && self.floating@.contains(w)),
                focus_consistent(
                    self.floating_is_active,
                    self.scrolling@.len(),
                    self.floating@.len(),
                ),
                self.flags_wf(),
                self.floating_is_active == old(self).floating_is_active,
                self.floating@ == old(self).floating@,
                self.same_identity(old(self)),
                forall|k: int|
                    0 <= k < i ==> {
                        &&& self.pending_fullscreen(#[trigger] windows@[k]) == column_fullscreen
                        &&& self.pending_maximized(windows@[k]) == column_maximized
                        &&& self.restores_to_floating(windows@[k]) == restore_to_floating@[k]
                    },
                forall|w: u64|
                    !windows@.take(i as int).contains(w) ==> #[trigger] self.same_sizing_of(
                        old(self),
                        w,
                    ),
            decreases windows@.len() - i,
        {
            let w = windows[i];
            proof {
                assert(windows@.contains(w));
                if self.scrolling@.contains(w) {
                    let k = choose|k: int| 0 <= k < self.scrolling@.len() && self.scrolling@[k] == w;
                    if k < start.len() {
                        assert(start[k] == w);
                        assert(start.contains(w));
                    } else {
                        assert(windows@[k - start.len()] == w);
                        assert(false);
                    }
                }
            }
            let ghost before = *self;
            push_fresh(&mut self.scrolling, w);
            assert(windows@.take(i + 1) == windows@.take(i as int).push(w));
            let ghost mid = *self;
            self.set_sizing(w, column_fullscreen, column_maximized, restore_to_floating[i]);
            proof {
                Self::lemma_sizing_trans(&before, &mid, self, w);
                assert forall|k: int| 0 <= k < i + 1 implies {
                    &&& self.pending_fullscreen(#[trigger] windows@[k]) == column_fullscreen
                    &&& self.pending_maximized(windows@[k]) == column_maximized
                    &&& self.restores_to_floating(windows@[k]) == restore_to_floating@[k]
                } by {
                    if k < i {
                        assert(windows@[k] != w);
                        assert(self.same_sizing_of(&before, windows@[k]));
                    }
                }
                assert forall|y: u64| !windows@.take(i + 1).contains(y) implies #[trigger] self.same_sizing_of(
                    old(self),
                    y,
                ) by {
                    assert(y != w) by {
                        assert(windows@.take(i + 1)[i as int] == w);
                    }
                    assert(!windows@.take(i as int).contains(y)) by {
                        if windows@.take(i as int).contains(y) {
                            let k = choose|k: int| 0 <= k < i && windows@.take(i as int)[k] == y;
                            assert(windows@.take(i + 1)[k] == y);
                        }
                    }
                    assert(self.same_sizing_of(&before, y));
                    assert(before.same_sizing_of(old(self), y));
                }
            }
            i = i + 1;
        }
        assert(windows@.take(windows@.len() as int) == windows@);
        let ghost done = *self;
        if activate {
            self.floating_is_active = FloatingActive::No;
        }
        assert forall|w: u64| !windows@.contains(w) implies #[trigger] self.same_sizing_of(
            old(self),
            w,
        ) by {
            assert(done.same_sizing_of(old(self), w));
        }
    }

    /// Which space has focus after a window left it: an emptied floating space
    /// gives focus back to the scrolling space, and an emptied scrolling space
    /// gives it to a non-empty floating space.
    pub open spec fn focus_after_removing(
        fa: FloatingActive,
        removed_from_floating: bool,
        scrolling_len: nat,
        floating_len: nat,
    ) -> FloatingActive {
        if removed_from_floating {
            if floating_len == 0 {
                FloatingActive::No
            } else {
                fa
            }
        } else if scrolling_len == 0 && floating_len > 0 {
            FloatingActive::Yes
        } else {
            fa
        }
    }

    fn update_focus_floating_tiling_after_removing(&mut self, removed_from_floating: bool)
        ensures
            final(self).focus_state() == Self::focus_after_removing(
                old(self).focus_state(),
                removed_from_floating,
                old(self).scrolling_windows().len(),
                old(self).floating_windows().len(),
            ),
            final(self).same_windows(old(self)),
            final(self).same_identity(old(self)),
    {
        if removed_from_floating {
            if self.floating.len() == 0 {
                self.floating_is_active = FloatingActive::No;
            }
        } else {
            // Scrolling should remain focused if both are empty.
            if self.scrolling.len() == 0 && self.floating.len() > 0 {
                self.floating_is_active = FloatingActive::Yes;
            }
        }
    }

    /// `after` is `before` with `window` taken out of the space that held it,
    /// together with its sizing state.
    pub open spec fn removed(before: &Workspace, after: &Workspace, window: u64, from_floating: bool) -> bool {
        &&& from_floating == before.floating_windows().contains(window)
        &&& after.has_no_sizing(window)
        &&& after.same_sizing_except(before, window)
        &&& from_floating ==> {
            &&& after.scrolling_windows() == before.scrolling_windows()
            &&& after.floating_windows() == before.floating_windows().remove(
                before.floating_windows().index_of(window),
            )
            &&& after.floating_windows().len() == before.floating_windows().len() - 1
            &&& forall|w: u64| #[trigger] after.floating_windows().contains(w) <==> (
                before.floating_windows().contains(w) && w != window)
        }
        &&& !from_floating ==> {
            &&& after.floating_windows() == before.floating_windows()
            &&& after.scrolling_windows() == before.scrolling_windows().remove(
                before.scrolling_windows().index_of(window),
            )
            &&& after.scrolling_windows().len() == before.scrolling_windows().len() - 1
            &&& forall|w: u64| #[trigger] after.scrolling_windows().contains(w) <==> (
                before.scrolling_windows().contains(w) && w != window)
        }
    }

    fn remove_from_space(&mut self, window: u64) -> (from_floating: bool)
        requires
            old(self).wf(),
            old(self).holds(window),
        ensures
            Self::removed(old(self), final(self), window, from_floating),
            final(self).scrolling_windows().no_duplicates(),
            final(self).floating_windows().no_duplicates(),
            forall|w: u64|
                !(#[trigger] final(self).scrolling_windows().contains(w)
                    && final(self).floating_windows().contains(w)),
            final(self).flags_wf(),
            final(self).focus_state() == old(self).focus_state(),
            final(self).same_identity(old(self)),
    {
        self.set_sizing(window, false, false, false);
        let ghost mid = *self;
        let from_floating = if contains(&self.floating, window) {
            remove_value(&mut self.floating, window);
            true
        } else {
            remove_value(&mut self.scrolling, window);
            false
        };
        proof {
            Self::lemma_sizing_trans(old(self), &mid, self, window);
        }
        from_floating
    }

    /// Removes `window` from the workspace and says whether it was floating.
    pub fn remove_tile(&mut self, window: u64) -> (from_floating: bool)
        requires
            old(self).wf(),
            old(self).holds(window),
        ensures
            final(self).wf(),
            Self::removed(old(self), final(self), window, from_floating),
            final(self).focus_state() == Self::focus_after_removing(
                old(self).focus_state(),
                from_floating,
                final(self).scrolling_windows().len(),
                final(self).floating_windows().len(),
            ),
            !from_floating && final(self).scrolling_windows().len() > 0 ==> final(self).focus_state()
                == old(self).focus_state(),
            !from_floating && final(self).floating_windows().len() == 0 ==> final(self).focus_state()
                == old(self).focus_state(),
            !from_floating && final(self).scrolling_windows().len() == 0
                && final(self).floating_windows().len() > 0 ==> final(self).focus_state()
                == FloatingActive::Yes,
            from_floating && final(self).floating_windows().len() > 0 ==> final(self).focus_state()
                == old(self).focus_state(),
            from_floating && final(self).floating_windows().len() == 0 ==> final(self).focus_state()
                == FloatingActive::No,
            final(self).same_identity(old(self)),
    {
        let from_floating = self.remove_from_space(window);
        let ghost mid = *self;
        self.update_focus_floating_tiling_after_removing(from_floating);
        proof {
            Self::lemma_sizing_trans(old(self), &mid, self, window);
        }
        from_floating
    }

    /// Removes the active window, `active_window`, from the space that has
    /// focus; returns it, or `None` when that space is empty.
    pub fn remove_active_tile(&mut self, active_window: Option<u64>) -> (removed: Option<u64>)
        requires
            old(self).wf(),
            old(self).is_active_window(active_window),
        ensures
            final(self).wf(),
            removed == active_window,
            match active_window {
                None => final(self).same_windows(old(self)) && final(self).focus_state()
                    == old(self).focus_state(),
                Some(w) => {
                    &&& Self::removed(old(self), final(self), w, old(self).focus_state().is_active())
                    &&& final(self).focus_state() == Self::focus_after_removing(
                        old(self).focus_state(),
                        old(self).focus_state().is_active(),
                        final(self).scrolling_windows().len(),
                        final(self).floating_windows().len(),
                    )
                    &&& !old(self).focus_state().is_active() && final(self).scrolling_windows().len() > 0
                        ==> final(self).focus_state() == old(self).focus_state()
                    &&& !old(self).focus_state().is_active() && final(self).floating_windows().len() == 0
                        ==> final(self).focus_state() == old(self).focus_state()
                    &&& !old(self).focus_state().is_active() && final(self).scrolling_windows().len() == 0
                        && final(self).floating_windows().len() > 0 ==> final(self).focus_state()
                        == FloatingActive::Yes
                    &&& old(self).focus_state().is_active() && final(self).floating_windows().len() > 0
                        ==> final(self).focus_state() == old(self).focus_state()
                    &&& old(self).focus_state().is_active() && final(self).floating_windows().len() == 0
                        ==> final(self).focus_state() == FloatingActive::No
                },
            },
            final(self).same_identity(old(self)),
    {
        let from_floating = self.floating_is_active.get();
        match active_window {
            None => None,
            Some(w) => {
                let removed_from_floating = self.remove_from_space(w);
                assert(removed_from_floating == from_floating);
                let ghost mid = *self;
                self.update_focus_floating_tiling_after_removing(from_floating);
                proof {
                    Self::lemma_sizing_trans(old(self), &mid, self, w);
                }
                Some(w)
            },
        }
    }

    /// Removes the active column, holding `active_column`, from the scrolling
    /// space; refuses while the floating space has focus. Says whether a
    /// column was removed.
    pub fn remove_active_column(&mut self, active_column: &Vec<u64>) -> (r: bool)
        requires
            old(self).wf(),
            !old(self).focus_state().is_active() ==> {
                &&& active_column@.no_duplicates()
                &&& forall|w: u64| #[trigger] active_column@.contains(w)
                    ==> old(self).scrolling_windows().contains(w)
                &&& (active_column@.len() == 0 <==> old(self).scrolling_windows().len() == 0)
            },
        ensures
            final(self).wf(),
            r == (!old(self).focus_state().is_active() && active_column@.len() > 0),
            !r ==> final(self).same_windows(old(self)) && final(self).focus_state()
                == old(self).focus_state(),
            r ==> {
                &&& final(self).floating_windows() == old(self).floating_windows()
                &&& final(self).scrolling_windows().len() == old(self).scrolling_windows().len()
                    - active_column@.len()
                &&& forall|w: u64| #[trigger] final(self).scrolling_windows().contains(w) <==> (
                    old(self).scrolling_windows().contains(w) && !active_column@.contains(w))
                &&& forall|w: u64| #[trigger] active_column@.contains(w) ==> final(self).has_no_sizing(w)
                &&& forall|w: u64|
                    !active_column@.contains(w) ==> #[trigger] final(self).same_sizing_of(old(self), w)
                &&& final(self).focus_state() == Self::focus_after_removing(
                    old(self).focus_state(),
                    false,
                    final(self).scrolling_windows().len(),
                    final(self).floating_windows().len(),
                )
                &&& final(self).scrolling_windows().len() > 0 ==> final(self).focus_state() == old(self).focus_state()
                &&& final(self).floating_windows().len() == 0 ==> final(self).focus_state() == old(self).focus_state()
                &&& final(self).scrolling_windows().len() == 0 && final(self).floating_windows().len()
                    > 0 ==> final(self).focus_state() == FloatingActive::Yes
            },
            final(self).same_identity(old(self)),
    {
        if self.floating_is_active.get() {
            return false;
        }
        if active_column.len() == 0 {
            return false;
        }
        let ghost start = self.scrolling@;
        let mut i: usize = 0;
        while i < active_column.len()
            invariant
                i <= active_column@.len(),
                active_column@.no_duplicates(),
                forall|w: u64| #[trigger] active_column@.contains(w) ==> start.contains(w),
                self.scrolling@.no_duplicates(),
                self.scrolling@.len() == start.len() - i,
                forall|w: u64| #[trigger] self.scrolling@.contains(w) <==> (start.contains(w)
                    && !active_column@.take(i as int).contains(w)),
                self.floating@ == old(self).floating@,
                self.floating_is_active == old(self).floating_is_active,
                self.same_identity(old(self)),
                self.flags_wf(),
                forall|w: u64| #[trigger] active_column@.take(i as int).contains(w) ==> self.has_no_sizing(w),
                forall|w: u64|
                    !active_column@.take(i as int).contains(w) ==> #[trigger] self.same_sizing_of(
                        old(self),
                        w,
                    ),
            decreases active_column@.len() - i,
        {
            let w = active_column[i];
            proof {
                assert(active_column@.contains(w));
                if active_column@.take(i as int).contains(w) {
                    let k = choose|k: int| 0 <= k < i && active_column@.take(i as int)[k] == w;
                    assert(active_column@[k] == active_column@[i as int]);
                }
            }
            let ghost before = *self;
            self.set_sizing(w, false, false, false);
            let ghost mid = *self;
            remove_value(&mut self.scrolling, w);
            proof {
                Self::lemma_sizing_trans(&before, &mid, self, w);
                let t0 = active_column@.take(i as int);
                let t1 = active_column@.take(i + 1);
                assert(t1 == t0.push(w));
                assert forall|y: u64| t1.contains(y) <==> (t0.contains(y) || y == w) by {
                    if t1.contains(y) {
                        let k = choose|k: int| 0 <= k < t1.len() && t1[k] == y;
                        if k < t0.len() {
                            assert(t0[k] == y);
                        }
                    }
                    if t0.contains(y) {
                        let k = choose|k: int| 0 <= k < t0.len() && t0[k] == y;
                        assert(t1[k] == y);
                    }
                    if y == w {
                        assert(t1[i as int] == y);
                    }
                }
                assert forall|y: u64| #[trigger] t1.contains(y) implies self.has_no_sizing(y) by {
                    if y != w {
                        assert(t0.contains(y));
                        assert(self.same_sizing_of(&before, y));
                    }
                }
                assert forall|y: u64| !t1.contains(y) implies #[trigger] self.same_sizing_of(
                    old(self),
                    y,
                ) by {
                    assert(!t0.contains(y));
                    assert(self.same_sizing_of(&before, y));
                    assert(before.same_sizing_of(old(self), y));
                }
            }
            i = i + 1;
        }
        assert(active_column@.take(active_column@.len() as int) == active_column@);
        let ghost done = *self;
        self.update_focus_floating_tiling_after_removing(false);
        assert forall|y: u64| #[trigger] active_column@.contains(y) implies self.has_no_sizing(y) by {
            assert(done.has_no_sizing(y));
        }
        assert forall|y: u64| !active_column@.contains(y) implies #[trigger] self.same_sizing_of(
            old(self),
            y,
        ) by {
            assert(done.same_sizing_of(old(self), y));
        }
        true
    }

    /// Which space has focus after `window` was activated: the floating space
    /// when it holds the window, else the scrolling space; nothing changes for
    /// a window that the workspace does not hold.
    pub open spec fn focus_after_activating(&self, window: u64) -> FloatingActive {
        if self.floating_windows().contains(window) {
            FloatingActive::Yes
        } else if self.scrolling_windows().contains(window) {
            FloatingActive::No
        } else {
            self.focus_state()
        }
    }

    fn activate_in_own_space(&mut self, window: u64) -> (r: bool)
        requires
            old(self).wf(),
        ensures
            final(self).wf(),
            r == old(self).holds(window),
            final(self).focus_state() == old(self).focus_after_activating(window),
            final(self).same_windows(old(self)),
            final(self).same_identity(old(self)),
    {
        if contains(&self.floating, window) {
            self.floating_is_active = FloatingActive::Yes;
            true
        } else if contains(&self.scrolling, window) {
            self.floating_is_active = FloatingActive::No;
            true
        } else {
            false
        }
    }

    /// Activates `window`, giving focus to the space that holds it. Says
    /// whether the workspace holds the window.
    pub fn activate_window(&mut self, window: u64) -> (r: bool)
        requires
            old(self).wf(),
        ensures
            final(self).wf(),
            r == old(self).holds(window),
            final(self).focus_state() == old(self).focus_after_activating(window),
            r ==> final(self).focus_state().is_active() == old(self).floating_windows().contains(window),
            !r ==> final(self).focus_state() == old(self).focus_state(),
            final(self).same_windows(old(self)),
            final(self).same_identity(old(self)),
    {
        self.activate_in_own_space(window)
    }

    /// Activates `window` without any visual change of the scrolling view;
    /// focus moves as for [`Workspace::activate_window`].
    pub fn activate_window_silent(&mut self, window: u64) -> (r: bool)
        requires
            old(self).wf(),
        ensures
            final(self).wf(),
            r == old(self).holds(window),
            final(self).focus_state() == old(self).focus_after_activating(window),
            final(self).same_windows(old(self)),
            final(self).same_identity(old(self)),
    {
        self.activate_in_own_space(window)
    }

    /// Activates `window` when it is picked in the grid overview; focus moves
    /// as for [`Workspace::activate_window`].
    pub fn activate_window_from_grid(&mut self, window: u64) -> (r: bool)
        requires
            old(self).wf(),
        ensures
            final(self).wf(),
            r == old(self).holds(window),
            final(self).focus_state() == old(self).focus_after_activating(window),
            final(self).same_windows(old(self)),
            final(self).same_identity(old(self)),
    {
        self.activate_in_own_space(window)
    }

    /// Activates `window` without raising the floating space: activating a
    /// scrolling window keeps floating windows on top if they had focus.
    pub fn activate_window_without_raising(&mut self, window: u64) -> (r: bool)
        requires
            old(self).wf(),
        ensures
            final(self).wf(),
            r == old(self).holds(window),
            final(self).focus_state() == if old(self).floating_windows().contains(window) {
                FloatingActive::Yes
            } else if old(self).scrolling_windows().contains(window) {
                old(self).focus_state().spec_after_activating_without_raising()
            } else {
                old(self).focus_state()
            },
            final(self).same_windows(old(self)),
            final(self).same_identity(old(self)),
    {
        if contains(&self.floating, window) {
            self.floating_is_active = FloatingActive::Yes;
            true
        } else if contains(&self.scrolling, window) {
            self.floating_is_active = self.floating_is_active.after_activating_without_raising();
            true
        } else {
            false
        }
    }

    /// Which space has focus after focus was switched between the spaces: it
    /// switches only when both spaces hold windows.
    pub open spec fn focus_after_switching(&self) -> FloatingActive {
        if self.floating_windows().len() == 0 || self.scrolling_windows().len() == 0 {
            self.focus_state()
        } else if self.focus_state().is_active() {
            FloatingActive::No
        } else {
            FloatingActive::Yes
        }
    }

    /// Moves focus from the floating space to the scrolling one or back.
    pub fn switch_focus_floating_tiling(&mut self)
        requires
            old(self).wf(),
        ensures
            final(self).wf(),
            final(self).focus_state() == old(self).focus_after_switching(),
            old(self).floating_windows().len() > 0 && old(self).scrolling_windows().len() > 0
                ==> final(self).focus_state().is_active() != old(self).focus_state().is_active(),
            old(self).floating_windows().len() == 0 || old(self).scrolling_windows().len() == 0
                ==> final(self).focus_state() == old(self).focus_state(),
            final(self).same_windows(old(self)),
            final(self).same_identity(old(self)),
    {
        if self.floating.len() == 0 {
            // If floating is empty, keep focus on scrolling.
            return;
        } else if self.scrolling.len() == 0 {
            // If floating isn't empty but scrolling is, keep focus on floating.
            return;
        }
        self.floating_is_active = if self.floating_is_active.get() {
            FloatingActive::No
        } else {
            FloatingActive::Yes
        };
    }

    /// Gives focus to the floating space, if it holds windows.
    pub fn focus_floating(&mut self)
        requires
            old(self).wf(),
        ensures
            final(self).wf(),
            final(self).focus_state() == if old(self).focus_state().is_active() {
                old(self).focus_state()
            } else {
                old(self).focus_after_switching()
            },
            old(self).floating_windows().len() > 0 ==> final(self).focus_state().is_active(),
            final(self).same_windows(old(self)),
            final(self).same_identity(old(self)),
    {
        if !self.floating_is_active.get() {
            self.switch_focus_floating_tiling();
        }
    }

    /// Gives focus to the scrolling space, if it holds windows.
    pub fn focus_tiling(&mut self)
        requires
            old(self).wf(),
        ensures
            final(self).wf(),
            final(self).focus_state() == if old(self).focus_state().is_active() {
                old(self).focus_after_switching()
            } else {
                old(self).focus_state()
            },
            old(self).scrolling_windows().len() > 0 ==> !final(self).focus_state().is_active(),
            final(self).same_windows(old(self)),
            final(self).same_identity(old(self)),
    {
        if self.floating_is_active.get() {
            self.switch_focus_floating_tiling();
        }
    }

    /// Gives focus to the space holding `grid_focused`, the window focused in
    /// the grid overview, if there is one.
    pub fn fix_floating_state_for_active(&mut self, grid_focused: Option<u64>)
        requires
            old(self).wf(),
            grid_focused matches Some(w) ==> old(self).holds(w),
        ensures
            final(self).wf(),
            final(self).focus_state() == match grid_focused {
                Some(w) => if old(self).floating_windows().contains(w) {
                    FloatingActive::Yes
                } else {
                    FloatingActive::No
                },
                None => old(self).focus_state(),
            },
            final(self).same_windows(old(self)),
            final(self).same_identity(old(self)),
    {
        if let Some(id) = grid_focused {
            if contains(&self.floating, id) {
                self.floating_is_active = FloatingActive::Yes;
            } else {
                self.floating_is_active = FloatingActive::No;
            }
        }
    }

    /// Whether an action on `window`, or on the active window when it is
    /// `None`, goes to the floating space.
    pub fn targets_floating(&self, window: Option<u64>) -> (r: bool)
        ensures
            r == match window {
                Some(w) => self.floating_windows().contains(w),
                None => self.focus_state().is_active(),
            },
    {
        match window {
            Some(w) => contains(&self.floating, w),
            None => self.floating_is_active.get(),
        }
    }

    /// Whether the floating space is shown: always while it is active or
    /// raised, otherwise unless the scrolling space renders above the top
    /// layer (a fullscreen window has focus).
    pub fn is_floating_visible(&self, render_above_top_layer: bool) -> (r: bool)
        ensures
            r == (self.focus_state() is Yes || self.focus_state() is NoButRaised
                || !render_above_top_layer),
            self.focus_state().is_active() ==> r,
    {
        match self.floating_is_active {
            FloatingActive::Yes | FloatingActive::NoButRaised => true,
            FloatingActive::No => !render_above_top_layer,
        }
    }

    /// Which spaces count as active when the workspace is active: exactly the
    /// one that has focus. Returns the activity of the scrolling space, then of
    /// the floating space.
    pub fn space_activity(&self, is_active: bool) -> (r: (bool, bool))
        ensures
            r.0 == (is_active && !self.focus_state().is_active()),
            r.1 == (is_active && self.focus_state().is_active()),
    {
        let floating = self.floating_is_active.get();
        (is_active && !floating, is_active && floating)
    }

    /// `after` is `before` with `window` moved to the other space.
    pub open spec fn moved_across(before: &Workspace, after: &Workspace, window: u64) -> bool {
        let was_floating = before.floating_windows().contains(window);
        &&& forall|w: u64| #[trigger] after.floating_windows().contains(w) <==> if w == window {
            !was_floating
        } else {
            before.floating_windows().contains(w)
        }
        &&& forall|w: u64| #[trigger] after.scrolling_windows().contains(w) <==> if w == window {
            was_floating
        } else {
            before.scrolling_windows().contains(w)
        }
        &&& was_floating ==> {
            &&& after.floating_windows() == before.floating_windows().remove(
                before.floating_windows().index_of(window),
            )
            &&& after.floating_windows().len() == before.floating_windows().len() - 1
            &&& after.scrolling_windows() == before.scrolling_windows().push(window)
        }
        &&& !was_floating ==> {
            &&& after.scrolling_windows() == before.scrolling_windows().remove(
                before.scrolling_windows().index_of(window),
            )
            &&& after.scrolling_windows().len() == before.scrolling_windows().len() - 1
            &&& after.floating_windows() == before.floating_windows().push(window)
        }
    }

    /// Sizing state of a window that moved to the other space: it is neither
    /// fullscreen nor maximized there and still remembers whether to return
    /// to the floating space; other windows keep theirs.
    pub open spec fn sizing_after_move(before: &Workspace, after: &Workspace, window: u64) -> bool {
        &&& !after.pending_fullscreen(window)
        &&& !after.pending_maximized(window)
        &&& after.restores_to_floating(window) == before.restores_to_floating(window)
        &&& after.same_sizing_except(before, window)
    }

    /// Which space has focus after `window` moved to the other space: the
    /// space it moved to when it takes focus along (`activate`), else the one
    /// that had it.
    pub open spec fn focus_after_toggle(&self, window: u64, activate: bool) -> FloatingActive {
        if !activate {
            self.focus_state()
        } else if self.floating_windows().contains(window) {
            FloatingActive::No
        } else {
            FloatingActive::Yes
        }
    }

    /// The window that [`Workspace::toggle_window_floating`] acts on: `window`,
    /// or the active window when it is `None`.
    pub open spec fn toggle_target(window: Option<u64>, active_window: Option<u64>) -> Option<u64> {
        match window {
            Some(w) => Some(w),
            None => active_window,
        }
    }

    /// Moves `window`, or the active window when it is `None`, to the other
    /// space. The moved window keeps focus when it was the active one, and
    /// then focus follows it to its new space. Returns what moved, or `None`
    /// when there was no window to move.
    pub fn toggle_window_floating(&mut self, window: Option<u64>, active_window: Option<u64>) -> (r: Option<FloatingToggle>)
        requires
            old(self).wf(),
            old(self).is_active_window(active_window),
            window matches Some(w) ==> old(self).holds(w),
        ensures
            final(self).wf(),
            final(self).same_identity(old(self)),
            match Self::toggle_target(window, active_window) {
                None => r is None && final(self).same_windows(old(self)) && final(self).focus_state()
                    == old(self).focus_state(),
                Some(t) => {
                    let activate = window is None || active_window == window;
                    let to_floating = !old(self).floating_windows().contains(t);
                    &&& r == Some(FloatingToggle { window: t, to_floating, activate })
                    &&& Self::moved_across(old(self), final(self), t)
                    &&& Self::sizing_after_move(old(self), final(self), t)
                    &&& final(self).focus_state() == old(self).focus_after_toggle(t, activate)
                    &&& !activate ==> final(self).focus_state() == old(self).focus_state()
                    &&& activate ==> final(self).focus_state() == if to_floating {
                        FloatingActive::Yes
                    } else {
                        FloatingActive::No
                    }
                },
            },
    {
        let target_is_active = match window {
            None => true,
            Some(w) => match active_window {
                Some(a) => a == w,
                None => false,
            },
        };
        let target = match window {
            Some(w) => w,
            None => match active_window {
                Some(a) => a,
                None => return None,
            },
        };
        let restore = contains(&self.restore_to_floating, target);
        self.set_sizing(target, false, false, restore);
        let ghost mid = *self;
        let r = if contains(&self.floating, target) {
            remove_value(&mut self.floating, target);
            push_fresh(&mut self.scrolling, target);
            if target_is_active {
                self.floating_is_active = FloatingActive::No;
            }
            Some(FloatingToggle { window: target, to_floating: false, activate: target_is_active })
        } else {
            remove_value(&mut self.scrolling, target);
            push_fresh(&mut self.floating, target);
            if target_is_active {
                self.floating_is_active = FloatingActive::Yes;
            }
            Some(FloatingToggle { window: target, to_floating: true, activate: target_is_active })
        };
        proof {
            Self::lemma_sizing_trans(old(self), &mid, self, target);
        }
        r
    }

    /// Moves `window`, or the active window, into the floating space when
    /// `floating` holds, else into the scrolling space; does nothing when it is
    /// already there.
    pub fn set_window_floating(&mut self, window: Option<u64>, active_window: Option<u64>, floating: bool) -> (r: Option<FloatingToggle>)
        requires
            old(self).wf(),
            old(self).is_active_window(active_window),
            window matches Some(w) ==> old(self).holds(w),
        ensures
            final(self).wf(),
            final(self).same_identity(old(self)),
            match Self::toggle_target(window, active_window) {
                Some(t) if old(self).floating_windows().contains(t) != floating => {
                    let activate = window is None || active_window == window;
                    &&& r == Some(FloatingToggle { window: t, to_floating: floating, activate })
                    &&& Self::moved_across(old(self), final(self), t)
                    &&& Self::sizing_after_move(old(self), final(self), t)
                    &&& final(self).focus_state() == old(self).focus_after_toggle(t, activate)
                    &&& !activate ==> final(self).focus_state() == old(self).focus_state()
                    &&& activate ==> final(self).focus_state() == if floating {
                        FloatingActive::Yes
                    } else {
                        FloatingActive::No
                    }
                },
                _ => r is None && final(self).same_windows(old(self)) && final(self).focus_state()
                    == old(self).focus_state(),
            },
    {
        if self.targets_floating(window) == floating {
            return None;
        }
        self.toggle_window_floating(window, active_window)
    }

    /// What [`Workspace::set_fullscreen`] does with a request to make `window`
    /// fullscreen (or not).
    ///
    /// A floating window cannot be fullscreen: a fullscreen request moves it to
    /// the scrolling space, remembering to return it to floating later, and
    /// an unfullscreen request is ignored. Unfullscreening a scrolling window
    /// that is fullscreen but not also maximized returns it to floating when
    /// it remembers to.
    pub open spec fn fullscreen_request(&self, window: u64, is_fullscreen: bool) -> SizingRequest {
        if self.floating_windows().contains(window) {
            if is_fullscreen {
                SizingRequest::Apply { restore_to_floating: true }
            } else {
                SizingRequest::Ignore
            }
        } else if !is_fullscreen && self.pending_fullscreen(window) && !self.pending_maximized(window)
            && self.restores_to_floating(window) {
            SizingRequest::ReturnedToFloating
        } else {
            SizingRequest::Apply { restore_to_floating: false }
        }
    }

    /// What [`Workspace::set_maximized`] does with a request to maximize
    /// `window` (or not).
    ///
    /// A floating window cannot be maximized: a maximize request moves it to
    /// the scrolling space, remembering to return it to floating later, and an
    /// unmaximize request is ignored. Unmaximizing a scrolling window whose
    /// sizing mode is maximized returns it to floating when it remembers to.
    pub open spec fn maximize_request(&self, window: u64, maximize: bool) -> SizingRequest {
        if self.floating_windows().contains(window) {
            if maximize {
                SizingRequest::Apply { restore_to_floating: true }
            } else {
                SizingRequest::Ignore
            }
        } else if !maximize && self.is_maximized_mode(window) && self.restores_to_floating(window) {
            SizingRequest::ReturnedToFloating
        } else {
            SizingRequest::Apply { restore_to_floating: false }
        }
    }

    /// `after` is `before` once the request `r` to set fullscreen (when
    /// `fullscreen`) or maximized to `value` for `window` was carried out, the
    /// active window being `active_window`.
    ///
    /// A window that changes space takes focus along when it is the active
    /// one. Applying the request changes the sizing state of the window only.
    pub open spec fn sizing_request_done(
        before: &Workspace,
        after: &Workspace,
        window: u64,
        r: SizingRequest,
        fullscreen: bool,
        value: bool,
        active_window: Option<u64>,
    ) -> bool {
        match r {
            SizingRequest::Ignore => {
                &&& after.same_windows(before)
                &&& after.focus_state() == before.focus_state()
            },
            SizingRequest::ReturnedToFloating => {
                &&& Self::moved_across(before, after, window)
                &&& Self::sizing_after_move(before, after, window)
                &&& after.focus_state() == before.focus_after_toggle(
                    window,
                    active_window == Some(window),
                )
            },
            SizingRequest::Apply { restore_to_floating } => {
                &&& restore_to_floating ==> {
                    &&& Self::moved_across(before, after, window)
                    &&& after.focus_state() == before.focus_after_toggle(
                        window,
                        active_window == Some(window),
                    )
                }
                &&& !restore_to_floating ==> {
                    &&& after.scrolling_windows() == before.scrolling_windows()
                    &&& after.floating_windows() == before.floating_windows()
                    &&& after.focus_state() == before.focus_state()
                }
                &&& after.scrolling_windows().contains(window)
                &&& Self::sizing_applied(
                    before,
                    after,
                    window,
                    fullscreen,
                    value,
                    restore_to_floating,
                )
            },
        }
    }

    /// Makes `window` fullscreen when `is_fullscreen` holds, else undoes it.
    ///
    /// A floating window moves to the scrolling space to become fullscreen;
    /// see [`Workspace::fullscreen_request`].
    pub fn set_fullscreen(&mut self, window: u64, is_fullscreen: bool, active_window: Option<u64>) -> (r: SizingRequest)
        requires
            old(self).wf(),
            old(self).holds(window),
            old(self).is_active_window(active_window),
        ensures
            final(self).wf(),
            final(self).same_identity(old(self)),
            r == old(self).fullscreen_request(window, is_fullscreen),
            Self::sizing_request_done(old(self), final(self), window, r, true, is_fullscreen, active_window),
    {
        proof {
            old(self).lemma_sizing_wf(window);
        }
        if contains(&self.floating, window) {
            if is_fullscreen {
                self.toggle_window_floating(Some(window), active_window);
                let ghost mid = *self;
                self.apply_sizing(window, true, true, true);
                proof {
                    Self::lemma_sizing_trans(old(self), &mid, self, window);
                }
                return SizingRequest::Apply { restore_to_floating: true };
            } else {
                // Floating windows are never fullscreen, so this is an unfullscreen request for an
                // already unfullscreen window.
                return SizingRequest::Ignore;
            }
        } else if !is_fullscreen {
            // When going from fullscreen to maximized, don't consider restore_to_floating yet.
            if contains(&self.fullscreen, window) && !contains(&self.maximized, window) && contains(
                &self.restore_to_floating,
                window,
            ) {
                // Unfullscreen and float in one call so the window has a chance to notice and
                // request a (0, 0) size, rather than the scrolling column size.
                self.toggle_window_floating(Some(window), active_window);
                return SizingRequest::ReturnedToFloating;
            }
        }
        self.apply_sizing(window, true, is_fullscreen, false);
        SizingRequest::Apply { restore_to_floating: false }
    }

    /// Maximizes `window` when `maximize` holds, else undoes it.
    ///
    /// A floating window moves to the scrolling space to be maximized; see
    /// [`Workspace::maximize_request`].
    pub fn set_maximized(&mut self, window: u64, maximize: bool, active_window: Option<u64>) -> (r: SizingRequest)
        requires
            old(self).wf(),
            old(self).holds(window),
            old(self).is_active_window(active_window),
        ensures
            final(self).wf(),
            final(self).same_identity(old(self)),
            r == old(self).maximize_request(window, maximize),
            Self::sizing_request_done(old(self), final(self), window, r, false, maximize, active_window),
    {
        proof {
            old(self).lemma_sizing_wf(window);
        }
        if contains(&self.floating, window) {
            if maximize {
                self.toggle_window_floating(Some(window), active_window);
                let ghost mid = *self;
                self.apply_sizing(window, false, true, true);
                proof {
                    Self::lemma_sizing_trans(old(self), &mid, self, window);
                }
                return SizingRequest::Apply { restore_to_floating: true };
            } else {
                // Floating windows are never maximized, so this is an unmaximize request for an
                // already unmaximized window.
                return SizingRequest::Ignore;
            }
        } else if !maximize {
            // The window cannot unmaximize into fullscreen (its sizing mode is fullscreen then,
            // not maximized), so this check works.
            if contains(&self.maximized, window) && !contains(&self.fullscreen, window) && contains(
                &self.restore_to_floating,
                window,
            ) {
                // Unmaximize and float in one call so the window has a chance to notice and
                // request a (0, 0) size, rather than the scrolling column size.
                self.toggle_window_floating(Some(window), active_window);
                return SizingRequest::ReturnedToFloating;
            }
        }
        self.apply_sizing(window, false, maximize, false);
        SizingRequest::Apply { restore_to_floating: false }
    }

    /// Toggles fullscreen of `window`; see [`Workspace::set_fullscreen`].
    pub fn toggle_fullscreen(&mut self, window: u64, active_window: Option<u64>) -> (r: SizingRequest)
        requires
            old(self).wf(),
            old(self).holds(window),
            old(self).is_active_window(active_window),
        ensures
            final(self).wf(),
            final(self).same_identity(old(self)),
            r == old(self).fullscreen_request(window, !old(self).pending_fullscreen(window)),
            Self::sizing_request_done(
                old(self),
                final(self),
                window,
                r,
                true,
                !old(self).pending_fullscreen(window),
                active_window,
            ),
    {
        let current = contains(&self.fullscreen, window);
        self.set_fullscreen(window, !current, active_window)
    }

    /// Toggles maximizing of `window`. Whether a scrolling window counts as
    /// maximized is up to its column, which may be fullscreen at the same
    /// time; a floating window is never maximized. See
    /// [`Workspace::set_maximized`].
    pub fn toggle_maximized(&mut self, window: u64, active_window: Option<u64>) -> (r: SizingRequest)
        requires
            old(self).wf(),
            old(self).holds(window),
            old(self).is_active_window(active_window),
        ensures
            final(self).wf(),
            final(self).same_identity(old(self)),
            r == old(self).maximize_request(window, !old(self).pending_maximized(window)),
            Self::sizing_request_done(
                old(self),
                final(self),
                window,
                r,
                false,
                !old(self).pending_maximized(window),
                active_window,
            ),
    {
        let current = contains(&self.maximized, window);
        self.set_maximized(window, !current, active_window)
    }

    /// Where a move of `window`, or of the active window when it is `None`, to
    /// another floating position goes, the moves along the axes being of
    /// kinds `x` and `y`.
    ///
    /// A floating window moves in the floating space. A scrolling window gets
    /// its stored floating position changed, used when it next floats; without
    /// a stored position (`has_stored_position`), only a move that sets both
    /// axes can be applied, starting from the origin.
    pub fn floating_move(
        &self,
        window: Option<u64>,
        active_window: Option<u64>,
        has_stored_position: bool,
        x: PositionChangeKind,
        y: PositionChangeKind,
    ) -> (r: FloatingMove)
        requires
            self.wf(),
            self.is_active_window(active_window),
        ensures
            r == if (match window {
                Some(w) => self.floating_windows().contains(w),
                None => self.focus_state().is_active(),
            }) {
                FloatingMove::InFloatingSpace
            } else {
                match Self::toggle_target(window, active_window) {
                    None => FloatingMove::Nowhere,
                    Some(t) => if has_stored_position {
                        FloatingMove::StoredPosition { window: t, from_origin: false }
                    } else if x is SetTo && y is SetTo {
                        FloatingMove::StoredPosition { window: t, from_origin: true }
                    } else {
                        FloatingMove::Nowhere
                    },
                }
            },
    {
        if self.targets_floating(window) {
            return FloatingMove::InFloatingSpace;
        }
        let target = match window {
            Some(w) => w,
            None => match active_window {
                Some(a) => a,
                None => return FloatingMove::Nowhere,
            },
        };
        if has_stored_position {
            return FloatingMove::StoredPosition { window: target, from_origin: false };
        }
        // Without a stored floating position, only both components can be set at once, not
        // adjusted.
        match (x, y) {
            (PositionChangeKind::SetTo, PositionChangeKind::SetTo) => FloatingMove::StoredPosition {
                window: target,
                from_origin: true,
            },
            _ => FloatingMove::Nowhere,
        }
    }

    /// The output that the workspace is currently shown on, if any.
    pub fn current_output(&self) -> (r: Option<&OutputId>)
        ensures
            match r {
                Some(o) => self.current_output_name() == Some(o@),
                None => self.current_output_name() is None,
            },
    {
        self.output.as_ref()
    }

    /// Shows the workspace on `output`, or on none.
    ///
    /// `is_current` says whether `output` is the output the workspace is
    /// already shown on (the same output, or none when it is shown on none);
    /// only the caller can tell outputs apart, as two outputs may carry the
    /// same name. Then nothing changes. Otherwise the workspace is shown on
    /// `output`, and when that is its original output (`matches_original`, as
    /// the output's name tells), the original output takes the output's
    /// current identifier, which may replace a connector name by make, model
    /// and serial.
    pub fn set_output(&mut self, output: Option<OutputId>, is_current: bool, matches_original: bool)
        requires
            old(self).wf(),
        ensures
            final(self).wf(),
            final(self).same_windows(old(self)),
            final(self).focus_state() == old(self).focus_state(),
            final(self).spec_id() == old(self).spec_id(),
            final(self).spec_name() == old(self).spec_name(),
            final(self).current_output_name() == if is_current {
                old(self).current_output_name()
            } else {
                match output {
                    Some(o) => Some(o@),
                    None => None::<Seq<char>>,
                }
            },
            final(self).original_output_name() == match output {
                Some(o) => if !is_current && matches_original {
                    o@
                } else {
                    old(self).original_output_name()
                },
                None => old(self).original_output_name(),
            },
    {
        if is_current {
            return;
        }
        if let Some(o) = &output {
            // Normalize original output: possibly replace connector with make/model/serial.
            if matches_original {
                self.original_output = o.duplicate();
            }
        }
        self.output = output;
    }
}

} // verus!
