//! The terminal control service: the application's window/tab/pane state as
//! plain values, the resolution of pane targets against it, the listings it
//! answers with, and the decision, for each request, of what the application
//! does and answers.
use vstd::prelude::*;
use crate::types::{
    PaneSummary, PaneSummaryView, TabSummary, TabSummaryView, TerminalControlError,
    TerminalControlRequest, TerminalControlResponse, TerminalControlTarget, TerminalPaneSnapshot,
    TerminalPaneSnapshotView, copy_opt_string, opt_str_view,
};

verus! {

/// What the service reads of a terminal pane.
#[derive(Debug, Clone, PartialEq, Eq)]
pub struct TerminalState {
    /// The title that the terminal's program set, if any.
    pub title: Option<String>,
    /// The terminal's working directory, when it is on the local machine.
    pub cwd: Option<String>,
    /// Whether the terminal views a session shared by someone else, and so
    /// takes no input.
    pub is_viewer: bool,
}

/// A pane of a tab: a terminal or some other kind of pane.
#[derive(Debug, Clone, PartialEq, Eq)]
pub struct PaneState {
    pub pane_id: String,
    /// The terminal shown in the pane; `None` for a pane of another kind.
    pub terminal: Option<TerminalState>,
}

/// A tab: a group of panes.
#[derive(Debug, Clone, PartialEq, Eq)]
pub struct TabState {
    pub tab_id: String,
    /// The title shown for the tab.
    pub display_title: String,
    /// The title given to a pane whose terminal set none.
    pub title: String,
    /// The panes, in order.
    pub panes: Vec<PaneState>,
    /// The index of the focused pane.
    pub focused_pane: usize,
    /// The index of the pane of the tab's active terminal session, if any.
    pub active_session: Option<usize>,
}

/// The workspace shown in one window.
#[derive(Debug, Clone, PartialEq, Eq)]
pub struct WorkspaceState {
    pub window_id: String,
    /// The index of the active tab.
    pub active_tab: usize,
    pub tabs: Vec<TabState>,
}

/// The state of the application that the service reads.
#[derive(Debug, Clone, PartialEq, Eq)]
pub struct AppState {
    /// The window that has focus, if any.
    pub active_window: Option<String>,
    /// The workspaces, in the order in which the application registered them.
    pub workspaces: Vec<WorkspaceState>,
}

/// A pane, located by the indices of its workspace, tab and pane.
#[derive(Debug, Clone, Copy, PartialEq, Eq)]
pub struct PaneLocation {
    pub workspace: usize,
    pub tab: usize,
    pub pane: usize,
}

impl TabState {
    /// The indices that a tab holds point at its panes, and its active
    /// session is a terminal.
    pub open spec fn wf(self) -> bool {
        &&& self.focused_pane < self.panes@.len()
        &&& self.active_session matches Some(i) ==> {
            &&& i < self.panes@.len()
            &&& self.panes@[i as int].terminal is Some
        }
    }
}

impl WorkspaceState {
    pub open spec fn wf(self) -> bool {
        &&& self.active_tab < self.tabs@.len()
        &&& forall|t: int| 0 <= t < self.tabs@.len() ==> #[trigger] self.tabs@[t].wf()
    }
}

impl AppState {
    pub open spec fn wf(self) -> bool {
        forall|w: int| 0 <= w < self.workspaces@.len() ==> #[trigger] self.workspaces@[w].wf()
    }

    pub open spec fn workspace(self, w: int) -> WorkspaceState {
        self.workspaces@[w]
    }

    pub open spec fn tab(self, w: int, t: int) -> TabState {
        self.workspaces@[w].tabs@[t]
    }

    pub open spec fn pane(self, loc: PaneLocation) -> PaneState {
        self.workspaces@[loc.workspace as int].tabs@[loc.tab as int].panes@[loc.pane as int]
    }

    /// `loc` points at a pane of the state.
    pub open spec fn valid_location(self, loc: PaneLocation) -> bool {
        &&& loc.workspace < self.workspaces@.len()
        &&& loc.tab < self.tab_count(loc.workspace as int)
        &&& loc.pane < self.tab(loc.workspace as int, loc.tab as int).panes@.len()
    }

    pub open spec fn tab_count(self, w: int) -> int {
        self.workspaces@[w].tabs@.len() as int
    }

    /// The window of workspace `w` is the active window.
    pub open spec fn window_is_active(self, w: int) -> bool {
        self.active_window matches Some(a) && a@ == self.workspace(w).window_id@
    }

    /// Tab `t` of workspace `w` is the active tab of the active window.
    pub open spec fn tab_is_active(self, w: int, t: int) -> bool {
        self.window_is_active(w) && self.workspace(w).active_tab == t
    }
}

/// The listing entry of tab `t` of workspace `w`.
pub open spec fn tab_summary_spec(state: AppState, w: int, t: int) -> TabSummaryView {
    TabSummaryView {
        tab_id: state.tab(w, t).tab_id@,
        title: state.tab(w, t).display_title@,
        active: state.tab_is_active(w, t),
    }
}

/// The listing entries of the first `n` tabs of workspace `w`.
pub open spec fn workspace_tab_summaries(state: AppState, w: int, n: int) -> Seq<TabSummaryView> {
    Seq::new(n as nat, |t: int| tab_summary_spec(state, w, t))
}

/// The listing entries of all tabs of the first `n` workspaces, workspace by
/// workspace and tab by tab.
pub open spec fn tab_summaries_upto(state: AppState, n: int) -> Seq<TabSummaryView>
    decreases n,
{
    if n <= 0 {
        Seq::empty()
    } else {
        tab_summaries_upto(state, n - 1) + workspace_tab_summaries(
            state,
            n - 1,
            state.tab_count(n - 1),
        )
    }
}

/// The listing of all tabs of the state.
pub open spec fn tab_listing(state: AppState) -> Seq<TabSummaryView> {
    tab_summaries_upto(state, state.workspaces@.len() as int)
}

/// The views of a list of tab summaries.
pub open spec fn tab_views(tabs: Seq<TabSummary>) -> Seq<TabSummaryView> {
    tabs.map_values(|s: TabSummary| s@)
}

/// The views of a list of pane summaries.
pub open spec fn pane_views(panes: Seq<PaneSummary>) -> Seq<PaneSummaryView> {
    panes.map_values(|s: PaneSummary| s@)
}

/// Whether `window_id` names the active window of `state`.
fn is_active_window(state: &AppState, window_id: &String) -> (b: bool)
    ensures
        b == (state.active_window matches Some(a) && a@ == window_id@),
{
    match &state.active_window {
        Some(a) => a.eq(window_id),
        None => false,
    }
}

/// Lists every tab of every workspace, saying which one is the active tab of
/// the active window.
pub fn list_tabs(state: &AppState) -> (tabs: Vec<TabSummary>)
    ensures
        tab_views(tabs@) == tab_listing(*state),
{
    let mut out: Vec<TabSummary> = Vec::new();
    let mut w: usize = 0;
    while w < state.workspaces.len()
        invariant
            w <= state.workspaces@.len(),
            tab_views(out@) == tab_summaries_upto(*state, w as int),
        decreases state.workspaces@.len() - w,
    {
        let workspace = &state.workspaces[w];
        let window_active = is_active_window(state, &workspace.window_id);
        let ghost before = tab_views(out@);
        let mut t: usize = 0;
        while t < workspace.tabs.len()
            invariant
                w < state.workspaces@.len(),
                *workspace == state.workspace(w as int),
                window_active == state.window_is_active(w as int),
                t <= workspace.tabs@.len(),
                before == tab_summaries_upto(*state, w as int),
                tab_views(out@) == before + workspace_tab_summaries(*state, w as int, t as int),
            decreases workspace.tabs@.len() - t,
        {
            let tab = &workspace.tabs[t];
            let summary = TabSummary {
                tab_id: tab.tab_id.clone(),
                title: tab.display_title.clone(),
                active: window_active && workspace.active_tab == t,
            };
            let ghost old_out = out@;
            out.push(summary);
            assert(tab_views(out@) == tab_views(old_out).push(summary@));
            assert(workspace_tab_summaries(*state, w as int, t + 1) == workspace_tab_summaries(
                *state,
                w as int,
                t as int,
            ).push(tab_summary_spec(*state, w as int, t as int)));
            t = t + 1;
        }
        w = w + 1;
    }
    out
}

/// The title of the pane at `loc`: the one its terminal set, or else its tab's.
pub open spec fn pane_title(state: AppState, loc: PaneLocation) -> Seq<char> {
    match state.pane(loc).terminal {
        Some(term) => match term.title {
            Some(title) => title@,
            None => state.tab(loc.workspace as int, loc.tab as int).title@,
        },
        None => state.tab(loc.workspace as int, loc.tab as int).title@,
    }
}

/// The working directory of the terminal at `loc`.
pub open spec fn pane_cwd(state: AppState, loc: PaneLocation) -> Option<Seq<char>> {
    match state.pane(loc).terminal {
        Some(term) => opt_str_view(term.cwd),
        None => None,
    }
}

/// The summary of the terminal pane at `loc`, where `tab_active` says
/// whether its tab counts as active and `active_pane` is the index of the
/// pane that counts as active in that tab.
pub open spec fn pane_summary_spec(
    state: AppState,
    loc: PaneLocation,
    tab_active: bool,
    active_pane: Option<usize>,
) -> PaneSummaryView {
    PaneSummaryView {
        pane_id: state.pane(loc).pane_id@,
        tab_id: state.tab(loc.workspace as int, loc.tab as int).tab_id@,
        workspace_id: Some(state.workspace(loc.workspace as int).window_id@),
        title: pane_title(state, loc),
        cwd: pane_cwd(state, loc),
        command: None,
        focused: loc.pane == state.tab(loc.workspace as int, loc.tab as int).focused_pane,
        active: tab_active && active_pane == Some(loc.pane),
        pane_type: "terminal"@,
    }
}

/// The listing entry of the terminal pane at `loc`: it is active when its
/// tab is the active tab of the active window and it holds that tab's
/// active session.
pub open spec fn listed_pane_summary(state: AppState, loc: PaneLocation) -> PaneSummaryView {
    pane_summary_spec(
        state,
        loc,
        state.tab_is_active(loc.workspace as int, loc.tab as int),
        state.tab(loc.workspace as int, loc.tab as int).active_session,
    )
}

/// The listing entries of the terminal panes among the first `n` panes of
/// tab `t` of workspace `w`.
pub open spec fn tab_pane_summaries(state: AppState, w: usize, t: usize, n: int) -> Seq<
    PaneSummaryView,
>
    decreases n,
{
    if n <= 0 {
        Seq::empty()
    } else {
        let loc = PaneLocation { workspace: w, tab: t, pane: (n - 1) as usize };
        tab_pane_summaries(state, w, t, n - 1) + if state.pane(loc).terminal is Some {
            seq![listed_pane_summary(state, loc)]
        } else {
            Seq::empty()
        }
    }
}

/// The listing entries of the terminal panes of the first `n` tabs of
/// workspace `w`.
pub open spec fn workspace_pane_summaries(state: AppState, w: usize, n: int) -> Seq<
    PaneSummaryView,
>
    decreases n,
{
    if n <= 0 {
        Seq::empty()
    } else {
        workspace_pane_summaries(state, w, n - 1) + tab_pane_summaries(
            state,
            w,
            (n - 1) as usize,
            state.tab(w as int, n - 1).panes@.len() as int,
        )
    }
}

/// The listing entries of the terminal panes of the first `n` workspaces.
pub open spec fn pane_summaries_upto(state: AppState, n: int) -> Seq<PaneSummaryView>
    decreases n,
{
    if n <= 0 {
        Seq::empty()
    } else {
        pane_summaries_upto(state, n - 1) + workspace_pane_summaries(
            state,
            (n - 1) as usize,
            state.tab_count(n - 1),
        )
    }
}

/// The listing of all terminal panes of the state, workspace by workspace,
/// tab by tab and pane by pane; panes of other kinds are left out.
pub open spec fn pane_listing(state: AppState) -> Seq<PaneSummaryView> {
    pane_summaries_upto(state, state.workspaces@.len() as int)
}

/// Builds the summary of the terminal pane at `loc`.
fn build_pane_summary(
    state: &AppState,
    loc: PaneLocation,
    tab_active: bool,
    active_pane: Option<usize>,
) -> (summary: PaneSummary)
    requires
        state.valid_location(loc),
        state.pane(loc).terminal is Some,
    ensures
        summary@ == pane_summary_spec(*state, loc, tab_active, active_pane),
{
    let workspace = &state.workspaces[loc.workspace];
    let tab = &workspace.tabs[loc.tab];
    let pane = &tab.panes[loc.pane];
    let (title, cwd) = match &pane.terminal {
        Some(term) => {
            let title = match &term.title {
                Some(title) => title.clone(),
                None => tab.title.clone(),
            };
            (title, copy_opt_string(&term.cwd))
        },
        None => (tab.title.clone(), None),
    };
    let active = tab_active && match active_pane {
        Some(p) => p == loc.pane,
        None => false,
    };
    PaneSummary {
        pane_id: pane.pane_id.clone(),
        tab_id: tab.tab_id.clone(),
        workspace_id: Some(workspace.window_id.clone()),
        title,
        cwd,
        command: None,
        focused: loc.pane == tab.focused_pane,
        active,
        pane_type: String::from_str("terminal"),
    }
}

/// Appends the listing entries of the terminal panes of tab `t` of
/// workspace `w` to `out`.
fn push_tab_pane_summaries(state: &AppState, w: usize, t: usize, out: &mut Vec<PaneSummary>)
    requires
        w < state.workspaces@.len(),
        t < state.tab_count(w as int),
    ensures
        pane_views(final(out)@) == pane_views(old(out)@) + tab_pane_summaries(
            *state,
            w,
            t,
            state.tab(w as int, t as int).panes@.len() as int,
        ),
{
    let workspace = &state.workspaces[w];
    let tab = &workspace.tabs[t];
    let tab_active = is_active_window(state, &workspace.window_id) && workspace.active_tab == t;
    let ghost before = pane_views(out@);
    let mut p: usize = 0;
    while p < tab.panes.len()
        invariant
            w < state.workspaces@.len(),
            t < state.tab_count(w as int),
            *tab == state.tab(w as int, t as int),
            tab_active == state.tab_is_active(w as int, t as int),
            p <= tab.panes@.len(),
            pane_views(out@) == before + tab_pane_summaries(*state, w, t, p as int),
        decreases tab.panes@.len() - p,
    {
        let loc = PaneLocation { workspace: w, tab: t, pane: p };
        let ghost old_out = out@;
        if tab.panes[p].terminal.is_some() {
            let summary = build_pane_summary(state, loc, tab_active, tab.active_session);
            out.push(summary);
            assert(pane_views(out@) == pane_views(old_out).push(summary@));
        }
        assert(tab_pane_summaries(*state, w, t, p + 1) == tab_pane_summaries(*state, w, t, p as int)
            + if state.pane(loc).terminal is Some {
            seq![listed_pane_summary(*state, loc)]
        } else {
            Seq::<PaneSummaryView>::empty()
        });
        p = p + 1;
    }
}

/// Lists every terminal pane of every tab of every workspace, saying which
/// pane is focused in its tab and which is the active one.
pub fn list_panes(state: &AppState) -> (panes: Vec<PaneSummary>)
    ensures
        pane_views(panes@) == pane_listing(*state),
{
    let mut out: Vec<PaneSummary> = Vec::new();
    let mut w: usize = 0;
    while w < state.workspaces.len()
        invariant
            w <= state.workspaces@.len(),
            pane_views(out@) == pane_summaries_upto(*state, w as int),
        decreases state.workspaces@.len() - w,
    {
        let ghost before = pane_views(out@);
        let mut t: usize = 0;
        while t < state.workspaces[w].tabs.len()
            invariant
                w < state.workspaces@.len(),
                t <= state.tab_count(w as int),
                before == pane_summaries_upto(*state, w as int),
                pane_views(out@) == before + workspace_pane_summaries(*state, w, t as int),
            decreases state.tab_count(w as int) - t,
        {
            push_tab_pane_summaries(state, w, t, &mut out);
            t = t + 1;
        }
        w = w + 1;
    }
    out
}

impl AppState {
    /// Workspace `w` is the first whose window is the active window.
    pub open spec fn is_active_workspace(self, w: int) -> bool {
        &&& 0 <= w < self.workspaces@.len()
        &&& self.window_is_active(w)
        &&& forall|v: int| 0 <= v < w ==> !#[trigger] self.window_is_active(v)
    }

    /// The pane at `loc` exists and has the handle `id`.
    pub open spec fn has_pane_id(self, loc: PaneLocation, id: Seq<char>) -> bool {
        self.valid_location(loc) && self.pane(loc).pane_id@ == id
    }
}

/// `a` comes before `b` in the order of workspaces, then tabs, then panes.
pub open spec fn location_before(a: PaneLocation, b: PaneLocation) -> bool {
    ||| a.workspace < b.workspace
    ||| a.workspace == b.workspace && a.tab < b.tab
    ||| a.workspace == b.workspace && a.tab == b.tab && a.pane < b.pane
}

/// `loc` is the first pane, in the order of workspaces, tabs and panes, whose
/// handle is `id`.
pub open spec fn first_pane_with_id(state: AppState, loc: PaneLocation, id: Seq<char>) -> bool {
    &&& state.has_pane_id(loc, id)
    &&& forall|l: PaneLocation| #[trigger] state.has_pane_id(l, id) ==> !location_before(l, loc)
}

/// The pane that counts as a tab's active pane: the focused pane when it is a
/// terminal, or else the pane of the tab's active session when that is one.
pub open spec fn active_pane_of_tab(tab: TabState) -> Option<usize> {
    if tab.panes@[tab.focused_pane as int].terminal is Some {
        Some(tab.focused_pane)
    } else {
        match tab.active_session {
            Some(i) => if tab.panes@[i as int].terminal is Some {
                Some(i)
            } else {
                None
            },
            None => None,
        }
    }
}

/// The active pane of the state: the active pane of the active tab of the
/// workspace of the active window, if there is one.
pub open spec fn active_target(state: AppState) -> Option<PaneLocation> {
    if exists|w: int| state.is_active_workspace(w) {
        let w = choose|w: int| state.is_active_workspace(w);
        let t = state.workspace(w).active_tab;
        match active_pane_of_tab(state.tab(w, t as int)) {
            Some(p) => Some(PaneLocation { workspace: w as usize, tab: t, pane: p }),
            None => None,
        }
    } else {
        None
    }
}

/// What a target resolves to: the active pane, or else `NoActiveTerminal`;
/// or the first pane with the given handle, which must be a terminal
/// (`PaneNotTerminal` otherwise), or `PaneNotFound` when no pane has it.
pub open spec fn target_resolution(state: AppState, target: TerminalControlTarget) -> Result<
    PaneLocation,
    TerminalControlError,
> {
    match target {
        TerminalControlTarget::ActivePane => match active_target(state) {
            Some(loc) => Ok(loc),
            None => Err(TerminalControlError::NoActiveTerminal),
        },
        TerminalControlTarget::PaneId(raw) => {
            if !exists|l: PaneLocation| state.has_pane_id(l, raw@) {
                Err(TerminalControlError::PaneNotFound { pane_id: Some(raw) })
            } else {
                let loc = choose|l: PaneLocation| first_pane_with_id(state, l, raw@);
                if state.pane(loc).terminal is Some {
                    Ok(loc)
                } else {
                    Err(TerminalControlError::PaneNotTerminal { pane_id: raw })
                }
            }
        },
    }
}

/// Whether the terminal at `loc` takes input.
pub open spec fn pane_is_writable(state: AppState, loc: PaneLocation) -> bool {
    match state.pane(loc).terminal {
        Some(term) => !term.is_viewer,
        None => false,
    }
}

/// What a target resolves to when the pane is to be written to: as
/// [`target_resolution`], but a terminal that takes no input gives
/// `PaneNotWritable` with its handle.
pub open spec fn writable_resolution(state: AppState, target: TerminalControlTarget) -> Result<
    PaneLocation,
    TerminalControlError,
> {
    match target_resolution(state, target) {
        Ok(loc) => if pane_is_writable(state, loc) {
            Ok(loc)
        } else {
            Err(TerminalControlError::PaneNotWritable { pane_id: state.pane(loc).pane_id })
        },
        Err(e) => Err(e),
    }
}

/// There is at most one first pane with a given handle.
pub proof fn lemma_first_pane_unique(
    state: AppState,
    a: PaneLocation,
    b: PaneLocation,
    id: Seq<char>,
)
    requires
        first_pane_with_id(state, a, id),
        first_pane_with_id(state, b, id),
    ensures
        a == b,
{
    assert(state.has_pane_id(a, id));
    assert(state.has_pane_id(b, id));
}

/// There is at most one first workspace of the active window.
pub proof fn lemma_active_workspace_unique(state: AppState, a: int, b: int)
    requires
        state.is_active_workspace(a),
        state.is_active_workspace(b),
    ensures
        a == b,
{
    if a < b {
        assert(!state.window_is_active(a));
    } else if b < a {
        assert(!state.window_is_active(b));
    }
}

/// Finds the first workspace of the active window.
fn active_workspace(state: &AppState) -> (r: Option<usize>)
    ensures
        r matches Some(w) ==> state.is_active_workspace(w as int),
        r is None ==> !exists|w: int| state.is_active_workspace(w),
{
    let active = match &state.active_window {
        Some(a) => a,
        None => {
            assert forall|w: int| !state.is_active_workspace(w) by {}
            return None;
        },
    };
    let mut w: usize = 0;
    while w < state.workspaces.len()
        invariant
            w <= state.workspaces@.len(),
            state.active_window == Some(*active),
            forall|v: int| 0 <= v < w ==> !#[trigger] state.window_is_active(v),
        decreases state.workspaces@.len() - w,
    {
        if state.workspaces[w].window_id.eq(active) {
            return Some(w);
        }
        w = w + 1;
    }
    None
}

/// Finds the first pane of tab `t` of workspace `w` with the handle `raw`.
fn find_pane_in_tab(state: &AppState, w: usize, t: usize, raw: &String) -> (r: Option<usize>)
    requires
        w < state.workspaces@.len(),
        t < state.tab_count(w as int),
    ensures
        r matches Some(p) ==> state.has_pane_id(PaneLocation { workspace: w, tab: t, pane: p }, raw@),
        r matches Some(p) ==> forall|q: usize|
            q < p ==> !#[trigger] state.has_pane_id(
                PaneLocation { workspace: w, tab: t, pane: q },
                raw@,
            ),
        r is None ==> forall|q: usize|
            !#[trigger] state.has_pane_id(PaneLocation { workspace: w, tab: t, pane: q }, raw@),
{
    let tab = &state.workspaces[w].tabs[t];
    let mut p: usize = 0;
    while p < tab.panes.len()
        invariant
            w < state.workspaces@.len(),
            t < state.tab_count(w as int),
            *tab == state.tab(w as int, t as int),
            p <= tab.panes@.len(),
            forall|q: usize|
                q < p ==> !#[trigger] state.has_pane_id(
                    PaneLocation { workspace: w, tab: t, pane: q },
                    raw@,
                ),
        decreases tab.panes@.len() - p,
    {
        if tab.panes[p].pane_id.eq(raw) {
            return Some(p);
        }
        p = p + 1;
    }
    None
}

/// Finds the first pane of workspace `w` with the handle `raw`.
fn find_pane_in_workspace(state: &AppState, w: usize, raw: &String) -> (r: Option<(usize, usize)>)
    requires
        w < state.workspaces@.len(),
    ensures
        r matches Some((t, p)) ==> state.has_pane_id(
            PaneLocation { workspace: w, tab: t, pane: p },
            raw@,
        ),
        r matches Some((t, p)) ==> forall|l: PaneLocation|
            l.workspace == w && location_before(l, PaneLocation { workspace: w, tab: t, pane: p })
                ==> !#[trigger] state.has_pane_id(l, raw@),
        r is None ==> forall|l: PaneLocation|
            l.workspace == w ==> !#[trigger] state.has_pane_id(l, raw@),
{
    let mut t: usize = 0;
    while t < state.workspaces[w].tabs.len()
        invariant
            w < state.workspaces@.len(),
            t <= state.tab_count(w as int),
            forall|l: PaneLocation|
                l.workspace == w && l.tab < t ==> !#[trigger] state.has_pane_id(l, raw@),
        decreases state.tab_count(w as int) - t,
    {
        match find_pane_in_tab(state, w, t, raw) {
            Some(p) => {
                assert forall|l: PaneLocation|
                    l.workspace == w && location_before(
                        l,
                        PaneLocation { workspace: w, tab: t, pane: p },
                    ) implies !#[trigger] state.has_pane_id(l, raw@) by {
                    if l.tab == t {
                        assert(l == PaneLocation { workspace: w, tab: t, pane: l.pane });
                    }
                }
                return Some((t, p));
            },
            None => {
                assert forall|l: PaneLocation|
                    l.workspace == w && l.tab < t + 1 implies !#[trigger] state.has_pane_id(
                    l,
                    raw@,
                ) by {
                    if l.tab == t {
                        assert(l == PaneLocation { workspace: w, tab: t, pane: l.pane });
                    }
                }
            },
        }
        t = t + 1;
    }
    proof {
        assert forall|l: PaneLocation| l.workspace == w implies !#[trigger] state.has_pane_id(
            l,
            raw@,
        ) by {
            if l.tab >= t {
                assert(!state.valid_location(l));
            }
        }
    }
    None
}

/// Finds the first pane of the state with the handle `raw`.
fn find_pane(state: &AppState, raw: &String) -> (r: Option<PaneLocation>)
    ensures
        r matches Some(loc) ==> first_pane_with_id(*state, loc, raw@),
        r is None ==> !exists|l: PaneLocation| state.has_pane_id(l, raw@),
{
    let mut w: usize = 0;
    while w < state.workspaces.len()
        invariant
            w <= state.workspaces@.len(),
            forall|l: PaneLocation| l.workspace < w ==> !#[trigger] state.has_pane_id(l, raw@),
        decreases state.workspaces@.len() - w,
    {
        match find_pane_in_workspace(state, w, raw) {
            Some((t, p)) => {
                let loc = PaneLocation { workspace: w, tab: t, pane: p };
                assert forall|l: PaneLocation| #[trigger]
                    state.has_pane_id(l, raw@) implies !location_before(l, loc) by {
                    if l.workspace == w && location_before(l, loc) {
                        assert(!state.has_pane_id(l, raw@));
                    }
                }
                return Some(loc);
            },
            None => {
                assert forall|l: PaneLocation|
                    l.workspace < w + 1 implies !#[trigger] state.has_pane_id(l, raw@) by {
                    if l.workspace == w {
                        assert(!state.has_pane_id(l, raw@));
                    }
                }
            },
        }
        w = w + 1;
    }
    proof {
        assert forall|l: PaneLocation| !#[trigger] state.has_pane_id(l, raw@) by {
            if l.workspace >= w {
                assert(!state.valid_location(l));
            }
        }
    }
    None
}

/// Resolves a target to a terminal pane of the state.
pub fn resolve_terminal_target(state: &AppState, target: &TerminalControlTarget) -> (r: Result<
    PaneLocation,
    TerminalControlError,
>)
    requires
        state.wf(),
    ensures
        r == target_resolution(*state, *target),
        r matches Ok(loc) ==> state.valid_location(loc) && state.pane(loc).terminal is Some,
{
    match target {
        TerminalControlTarget::ActivePane => {
            let w = match active_workspace(state) {
                Some(w) => w,
                None => {
                    return Err(TerminalControlError::NoActiveTerminal);
                },
            };
            proof {
                let c = choose|v: int| state.is_active_workspace(v);
                lemma_active_workspace_unique(*state, c, w as int);
                assert(state.workspace(w as int).wf());
            }
            let workspace = &state.workspaces[w];
            let t = workspace.active_tab;
            let tab = &workspace.tabs[t];
            proof {
                assert(tab.wf());
            }
            let p = if tab.panes[tab.focused_pane].terminal.is_some() {
                tab.focused_pane
            } else {
                match tab.active_session {
                    Some(i) => {
                        if tab.panes[i].terminal.is_some() {
                            i
                        } else {
                            return Err(TerminalControlError::NoActiveTerminal);
                        }
                    },
                    None => {
                        return Err(TerminalControlError::NoActiveTerminal);
                    },
                }
            };
            Ok(PaneLocation { workspace: w, tab: t, pane: p })
        },
        TerminalControlTarget::PaneId(raw) => {
            match find_pane(state, raw) {
                Some(loc) => {
                    proof {
                        let c = choose|l: PaneLocation| first_pane_with_id(*state, l, raw@);
                        lemma_first_pane_unique(*state, c, loc, raw@);
                    }
                    let pane = &state.workspaces[loc.workspace].tabs[loc.tab].panes[loc.pane];
                    if pane.terminal.is_some() {
                        Ok(loc)
                    } else {
                        Err(TerminalControlError::PaneNotTerminal { pane_id: raw.clone() })
                    }
                },
                None => Err(TerminalControlError::PaneNotFound { pane_id: Some(raw.clone()) }),
            }
        },
    }
}

/// Resolves a target to a terminal pane of the state that takes input.
pub fn resolve_writable_terminal(state: &AppState, target: &TerminalControlTarget) -> (r: Result<
    PaneLocation,
    TerminalControlError,
>)
    requires
        state.wf(),
    ensures
        r == writable_resolution(*state, *target),
        r matches Ok(loc) ==> state.valid_location(loc) && state.pane(loc).terminal is Some,
{
    let loc = resolve_terminal_target(state, target)?;
    let pane = &state.workspaces[loc.workspace].tabs[loc.tab].panes[loc.pane];
    let is_writable = match &pane.terminal {
        Some(term) => !term.is_viewer,
        None => false,
    };
    if is_writable {
        Ok(loc)
    } else {
        Err(TerminalControlError::PaneNotWritable { pane_id: pane.pane_id.clone() })
    }
}

/// The summary of the current pane: the active pane of the state, counted as
/// active, if there is one.
pub open spec fn current_pane_spec(state: AppState) -> Option<PaneSummaryView> {
    match active_target(state) {
        Some(loc) => Some(pane_summary_spec(state, loc, true, Some(loc.pane))),
        None => None,
    }
}

/// Summarizes the current pane: the focused terminal of the active tab of the
/// active window, or else that tab's active session.
pub fn current_pane(state: &AppState) -> (r: Option<PaneSummary>)
    requires
        state.wf(),
    ensures
        r matches Some(p) ==> current_pane_spec(*state) == Some(p@),
        r is None ==> current_pane_spec(*state) is None,
{
    match resolve_terminal_target(state, &TerminalControlTarget::ActivePane) {
        Ok(loc) => Some(build_pane_summary(state, loc, true, Some(loc.pane))),
        Err(_) => None,
    }
}

/// Whether focusing the pane at `loc` first brings its window to the front:
/// when another window is the active one.
pub open spec fn raises_window(state: AppState, loc: PaneLocation) -> bool {
    state.active_window matches Some(a) && a@ != state.workspace(loc.workspace as int).window_id@
}

/// What the application does next for a request.
#[derive(Debug, Clone, PartialEq, Eq)]
pub enum ServiceStep {
    /// Answer with this response.
    Respond(TerminalControlResponse),
    /// Focus the pane at `target`, first bringing its window to the front when
    /// `raise_window`, then answer [`TerminalControlResponse::FocusPane`].
    Focus { target: PaneLocation, raise_window: bool },
    /// Write `bytes` to the terminal at `target`, then answer `reply`.
    Write { target: PaneLocation, bytes: Vec<u8>, reply: TerminalControlResponse },
    /// Ask the terminal at `target` for the bytes that encode `key`, and hand
    /// the answer to [`key_encoded`].
    EncodeKey { target: PaneLocation, key: String },
    /// Take the text shown by the terminal at `target` and hand it, with the
    /// bound on a snapshot's length, to [`snapshot_read`].
    ReadSnapshot { target: PaneLocation },
    /// Create a new terminal tab and answer
    /// [`TerminalControlResponse::CreateTab`] with the handle of its first pane.
    CreateTab,
}

/// The step that the service takes for `request` in `state`.
pub open spec fn handles(state: AppState, request: TerminalControlRequest, step: ServiceStep) -> bool {
    match request {
        TerminalControlRequest::CreateTab => step is CreateTab,
        TerminalControlRequest::ListTabs => step matches ServiceStep::Respond(
            TerminalControlResponse::ListTabs(tabs),
        ) && tab_views(tabs@) == tab_listing(state),
        TerminalControlRequest::ListPanes => step matches ServiceStep::Respond(
            TerminalControlResponse::ListPanes(panes),
        ) && pane_views(panes@) == pane_listing(state),
        TerminalControlRequest::CurrentPane => match current_pane_spec(state) {
            Some(v) => step matches ServiceStep::Respond(
                TerminalControlResponse::CurrentPane(p),
            ) && p@ == v,
            None => step == ServiceStep::Respond(
                TerminalControlResponse::Error(TerminalControlError::NoActiveTerminal),
            ),
        },
        TerminalControlRequest::FocusPane { target } => match target_resolution(
            state,
            target,
        ) {
            Ok(loc) => step == ServiceStep::Focus {
                target: loc,
                raise_window: raises_window(state, loc),
            },
            Err(e) => step == ServiceStep::Respond(TerminalControlResponse::Error(e)),
        },
        TerminalControlRequest::ReadPane { target } => match target_resolution(
            state,
            target,
        ) {
            Ok(loc) => step == ServiceStep::ReadSnapshot { target: loc },
            Err(e) => step == ServiceStep::Respond(TerminalControlResponse::Error(e)),
        },
        TerminalControlRequest::SendText { target, text } => match writable_resolution(
            state,
            target,
        ) {
            Ok(loc) => step matches ServiceStep::Write { target: t, bytes, reply } && t == loc
                && bytes@ == vstd::utf8::encode_utf8(text@) && reply
                == TerminalControlResponse::SendText,
            Err(e) => step == ServiceStep::Respond(TerminalControlResponse::Error(e)),
        },
        TerminalControlRequest::SendKey { target, key } => match writable_resolution(
            state,
            target,
        ) {
            Ok(loc) => step == ServiceStep::EncodeKey { target: loc, key },
            Err(e) => step == ServiceStep::Respond(TerminalControlResponse::Error(e)),
        },
    }
}

/// Decides what the application does for `request` in `state`. Only a
/// `FocusPane` request focuses a pane; text and keys go to the target pane
/// whatever has focus, and only to a terminal that takes input.
pub fn handle_request(state: &AppState, request: TerminalControlRequest) -> (step: ServiceStep)
    requires
        state.wf(),
    ensures
        handles(*state, request, step),
{
    match request {
        TerminalControlRequest::CreateTab => ServiceStep::CreateTab,
        TerminalControlRequest::ListTabs => ServiceStep::Respond(
            TerminalControlResponse::ListTabs(list_tabs(state)),
        ),
        TerminalControlRequest::ListPanes => ServiceStep::Respond(
            TerminalControlResponse::ListPanes(list_panes(state)),
        ),
        TerminalControlRequest::CurrentPane => match current_pane(state) {
            Some(pane) => ServiceStep::Respond(TerminalControlResponse::CurrentPane(pane)),
            None => ServiceStep::Respond(
                TerminalControlResponse::Error(TerminalControlError::NoActiveTerminal),
            ),
        },
        TerminalControlRequest::FocusPane { target } => {
            match resolve_terminal_target(state, &target) {
                Ok(loc) => {
                    let window_id = &state.workspaces[loc.workspace].window_id;
                    let raise_window = match &state.active_window {
                        Some(active) => !active.eq(window_id),
                        None => false,
                    };
                    ServiceStep::Focus { target: loc, raise_window }
                },
                Err(error) => ServiceStep::Respond(TerminalControlResponse::Error(error)),
            }
        },
        TerminalControlRequest::ReadPane { target } => {
            match resolve_terminal_target(state, &target) {
                Ok(loc) => ServiceStep::ReadSnapshot { target: loc },
                Err(error) => ServiceStep::Respond(TerminalControlResponse::Error(error)),
            }
        },
        TerminalControlRequest::SendText { target, text } => {
            match resolve_writable_terminal(state, &target) {
                Ok(loc) => ServiceStep::Write {
                    target: loc,
                    bytes: text.as_str().as_bytes_vec(),
                    reply: TerminalControlResponse::SendText,
                },
                Err(error) => ServiceStep::Respond(TerminalControlResponse::Error(error)),
            }
        },
        TerminalControlRequest::SendKey { target, key } => {
            match resolve_writable_terminal(state, &target) {
                Ok(loc) => ServiceStep::EncodeKey { target: loc, key },
                Err(error) => ServiceStep::Respond(TerminalControlResponse::Error(error)),
            }
        },
    }
}

/// Continues a `SendKey` request once the terminal has answered how it
/// encodes `key`: the bytes are written, or, for a key that the terminal
/// does not encode, the answer is `UnsupportedKey` with that key.
pub fn key_encoded(target: PaneLocation, key: String, encoded: Option<Vec<u8>>) -> (step:
    ServiceStep)
    ensures
        match encoded {
            Some(bytes) => step == ServiceStep::Write {
                target,
                bytes,
                reply: TerminalControlResponse::SendKey,
            },
            None => step == ServiceStep::Respond(
                TerminalControlResponse::Error(TerminalControlError::UnsupportedKey { key }),
            ),
        },
{
    match encoded {
        Some(bytes) => ServiceStep::Write { target, bytes, reply: TerminalControlResponse::SendKey },
        None => ServiceStep::Respond(
            TerminalControlResponse::Error(TerminalControlError::UnsupportedKey { key }),
        ),
    }
}

/// The snapshot of the terminal at `loc` with the given text: its handle,
/// title, working directory and focus as in the pane listing, and no cursor.
pub open spec fn snapshot_spec(
    state: AppState,
    loc: PaneLocation,
    content: Seq<char>,
    truncated: bool,
) -> TerminalPaneSnapshotView {
    let summary = listed_pane_summary(state, loc);
    TerminalPaneSnapshotView {
        pane_id: summary.pane_id,
        title: summary.title,
        cwd: summary.cwd,
        focused: summary.focused,
        active: summary.active,
        content,
        truncated,
        cursor_row: None,
        cursor_col: None,
    }
}

/// The text kept of `full` under the bound `max`: all of it when it is no
/// longer than `max` characters, or else its last `max` characters.
pub open spec fn bounded_text(full: Seq<char>, max: nat) -> Seq<char> {
    if full.len() <= max {
        full
    } else {
        full.subrange(full.len() - max, full.len() as int)
    }
}

/// Bounds the text of a snapshot to `max` characters, keeping its tail, and
/// says whether it was cut.
pub fn bound_snapshot(full: String, max: usize) -> (r: (String, bool))
    ensures
        r.0@ == bounded_text(full@, max as nat),
        r.1 == (full@.len() > max),
{
    let len = full.as_str().unicode_len();
    if len <= max {
        (full, false)
    } else {
        let tail = full.as_str().substring_char(len - max, len);
        (String::from_str(tail), true)
    }
}

/// Continues a `ReadPane` request once the terminal at `target` has given the
/// text it shows: the snapshot keeps at most the last `max` characters, and
/// is marked truncated when it was cut.
pub fn snapshot_read(
    state: &AppState,
    target: PaneLocation,
    full: String,
    max: usize,
) -> (response: TerminalControlResponse)
    requires
        state.valid_location(target),
        state.pane(target).terminal is Some,
    ensures
        response matches TerminalControlResponse::ReadPane(snapshot) && snapshot@ == snapshot_spec(
            *state,
            target,
            bounded_text(full@, max as nat),
            full@.len() > max,
        ),
{
    let (content, truncated) = bound_snapshot(full, max);
    let workspace = &state.workspaces[target.workspace];
    let tab = &workspace.tabs[target.tab];
    let tab_active = is_active_window(state, &workspace.window_id) && workspace.active_tab
        == target.tab;
    let summary = build_pane_summary(state, target, tab_active, tab.active_session);
    TerminalControlResponse::ReadPane(
        TerminalPaneSnapshot {
            pane_id: summary.pane_id,
            title: summary.title,
            cwd: summary.cwd,
            focused: summary.focused,
            active: summary.active,
            content,
            truncated,
            cursor_row: None,
            cursor_col: None,
        },
    )
}

impl AppState {
    /// Whether the indices that the state holds point where they should: see
    /// [`AppState::wf`].
    pub fn is_well_formed(&self) -> (b: bool)
        ensures
            b == self.wf(),
    {
        let mut w: usize = 0;
        while w < self.workspaces.len()
            invariant
                w <= self.workspaces@.len(),
                forall|v: int| 0 <= v < w ==> #[trigger] self.workspaces@[v].wf(),
            decreases self.workspaces@.len() - w,
        {
            let workspace = &self.workspaces[w];
            if workspace.active_tab >= workspace.tabs.len() {
                assert(!self.workspaces@[w as int].wf());
                return false;
            }
            let mut t: usize = 0;
            while t < workspace.tabs.len()
                invariant
                    w < self.workspaces@.len(),
                    *workspace == self.workspaces@[w as int],
                    t <= workspace.tabs@.len(),
                    forall|u: int| 0 <= u < t ==> #[trigger] workspace.tabs@[u].wf(),
                decreases workspace.tabs@.len() - t,
            {
                let tab = &workspace.tabs[t];
                if tab.focused_pane >= tab.panes.len() {
                    assert(!workspace.tabs@[t as int].wf());
                    assert(!self.workspaces@[w as int].wf());
                    return false;
                }
                match tab.active_session {
                    Some(i) => {
                        if i >= tab.panes.len() || tab.panes[i].terminal.is_none() {
                            assert(!workspace.tabs@[t as int].wf());
                            assert(!self.workspaces@[w as int].wf());
                            return false;
                        }
                    },
                    None => {},
                }
                t = t + 1;
            }
            w = w + 1;
        }
        true
    }

    /// Whether `loc` points at a terminal pane of the state.
    pub fn is_terminal_at(&self, loc: PaneLocation) -> (b: bool)
        ensures
            b == (self.valid_location(loc) && self.pane(loc).terminal is Some),
    {
        loc.workspace < self.workspaces.len() && loc.tab < self.workspaces[loc.workspace].tabs.len()
            && loc.pane < self.workspaces[loc.workspace].tabs[loc.tab].panes.len()
            && self.workspaces[loc.workspace].tabs[loc.tab].panes[loc.pane].terminal.is_some()
    }
}

/// The fixed address at which the application of release channel `channel`
/// serves terminal control: `Warp`, the channel's name, `_TERMINAL_CONTROL`.
pub fn terminal_control_service_address(channel: &str) -> (address: String)
    ensures
        address@ == "Warp"@ + channel@ + "_TERMINAL_CONTROL"@,
{
    let mut address = String::from_str("Warp");
    address.append(channel);
    address.append("_TERMINAL_CONTROL");
    address
}

impl AppState {
    /// No two workspaces are shown in the same window.
    pub open spec fn windows_unique(self) -> bool {
        forall|a: int, b: int|
            0 <= a < b < self.workspaces@.len() ==> #[trigger] self.workspace(a).window_id@
                != #[trigger] self.workspace(b).window_id@
    }

    /// Tab `t` of workspace `w` exists.
    pub open spec fn valid_tab(self, w: int, t: int) -> bool {
        0 <= w < self.workspaces@.len() && 0 <= t < self.tab_count(w)
    }

    /// No two tabs have the same handle.
    pub open spec fn tabs_unique(self) -> bool {
        forall|w1: int, t1: int, w2: int, t2: int|
            #![trigger self.tab(w1, t1), self.tab(w2, t2)]
            self.valid_tab(w1, t1) && self.valid_tab(w2, t2) && (w1 != w2 || t1 != t2)
                ==> self.tab(w1, t1).tab_id@ != self.tab(w2, t2).tab_id@
    }

    /// No two panes have the same handle.
    pub open spec fn panes_unique(self) -> bool {
        forall|a: PaneLocation, b: PaneLocation|
            #![trigger self.pane(a), self.pane(b)]
            self.valid_location(a) && self.valid_location(b) && a != b ==> self.pane(a).pane_id@
                != self.pane(b).pane_id@
    }

    /// Windows, tabs and panes each have handles of their own, as the
    /// application gives them.
    pub open spec fn handles_unique(self) -> bool {
        &&& self.windows_unique()
        &&& self.tabs_unique()
        &&& self.panes_unique()
    }
}

} // verus!
