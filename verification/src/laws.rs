//! Properties of the service that hold for every state and request.
use vstd::prelude::*;
use crate::output::{
    error_message, pane_row_of, tab_row_of, TerminalControlListPaneRow, TerminalControlListTabRow,
};
use crate::types::{opt_str_view, PaneSummary, PaneSummaryView, TabSummary, TabSummaryView, TerminalControlError, TerminalControlRequest, TerminalControlTarget};
use crate::service::{
    listed_pane_summary, location_before, tab_listing, tab_summaries_upto, workspace_tab_summaries, pane_listing, pane_summaries_upto,
    workspace_pane_summaries, tab_pane_summaries, AppState, PaneLocation, ServiceStep, active_target, current_pane_spec, first_pane_with_id,
    handles, tab_summary_spec, lemma_first_pane_unique, snapshot_spec, bounded_text, TabState, pane_is_writable, target_resolution, writable_resolution,
};

verus! {

/// Only a `FocusPane` request focuses a pane: listing, reading and sending
/// leave the focus where it is.
pub proof fn law_only_focus_requests_focus(
    state: AppState,
    request: TerminalControlRequest,
    step: ServiceStep,
)
    requires
        state.wf(),
        handles(state, request, step),
        step is Focus,
    ensures
        request is FocusPane,
{
}

/// A pane target resolves to a terminal pane of the state.
pub proof fn law_resolved_target_is_terminal(state: AppState, target: TerminalControlTarget)
    requires
        state.wf(),
        target_resolution(state, target) is Ok,
    ensures
        state.valid_location(target_resolution(state, target)->Ok_0),
        state.pane(target_resolution(state, target)->Ok_0).terminal is Some,
{
    match target {
        TerminalControlTarget::ActivePane => {
            let w = choose|w: int| state.is_active_workspace(w);
            assert(state.workspace(w).wf());
            let t = state.workspace(w).active_tab;
            assert(state.tab(w, t as int).wf());
            assert(state.workspaces.len() == state.workspaces@.len());
        },
        TerminalControlTarget::PaneId(raw) => {
            let l = choose|l: PaneLocation| state.has_pane_id(l, raw@);
            lemma_first_pane_exists(state, raw@, l);
        },
    }
}

/// A pane named by its handle resolves to the first pane, in the order of
/// workspaces, tabs and panes, that has that handle.
pub proof fn law_named_target_has_the_handle(state: AppState, raw: String)
    requires
        state.wf(),
        target_resolution(state, TerminalControlTarget::PaneId(raw)) is Ok,
    ensures
        first_pane_with_id(
            state,
            target_resolution(state, TerminalControlTarget::PaneId(raw))->Ok_0,
            raw@,
        ),
{
    let l = choose|l: PaneLocation| state.has_pane_id(l, raw@);
    lemma_first_pane_exists(state, raw@, l);
}

/// When some pane has the handle `id`, there is a first such pane.
pub proof fn lemma_first_pane_exists(state: AppState, id: Seq<char>, l: PaneLocation)
    requires
        state.has_pane_id(l, id),
    ensures
        exists|f: PaneLocation| first_pane_with_id(state, f, id),
    decreases l.workspace, l.tab, l.pane,
{
    if !first_pane_with_id(state, l, id) {
        let e = choose|e: PaneLocation| state.has_pane_id(e, id) && crate::service::location_before(e, l);
        lemma_first_pane_exists(state, id, e);
    }
}

/// A pane named by its handle is not found exactly when no pane of the state
/// has that handle.
pub proof fn law_not_found_iff_no_such_pane(state: AppState, raw: String)
    ensures
        target_resolution(state, TerminalControlTarget::PaneId(raw))
            == Err::<PaneLocation, TerminalControlError>(
            TerminalControlError::PaneNotFound { pane_id: Some(raw) },
        ) <==> !exists|l: PaneLocation| state.has_pane_id(l, raw@),
{
}

/// Where a named pane goes does not depend on which window, tab or pane has
/// focus.
pub proof fn law_named_target_ignores_focus(s1: AppState, s2: AppState, raw: String)
    requires
        s1.workspaces@.len() == s2.workspaces@.len(),
        forall|w: int| 0 <= w < s1.workspaces@.len() ==> #[trigger] s1.workspace(w).tabs@ == s2.workspace(w).tabs@,
    ensures
        target_resolution(s1, TerminalControlTarget::PaneId(raw)) == target_resolution(
            s2,
            TerminalControlTarget::PaneId(raw),
        ),
{
    assert forall|l: PaneLocation|
        #![trigger s1.has_pane_id(l, raw@)]
        #![trigger s2.has_pane_id(l, raw@)]
        s1.has_pane_id(l, raw@) == s2.has_pane_id(l, raw@) by {
        if l.workspace < s1.workspaces@.len() {
            assert(s1.workspace(l.workspace as int).tabs@ == s2.workspace(l.workspace as int).tabs@);
        }
    }
    if exists|l: PaneLocation| s1.has_pane_id(l, raw@) {
        let l = choose|l: PaneLocation| s1.has_pane_id(l, raw@);
        lemma_first_pane_exists(s1, raw@, l);
        let a = choose|f: PaneLocation| first_pane_with_id(s1, f, raw@);
        let b = choose|f: PaneLocation| first_pane_with_id(s2, f, raw@);
        assert(first_pane_with_id(s2, a, raw@));
        lemma_first_pane_unique(s2, a, b, raw@);
        assert(s1.pane(a) == s2.pane(a)) by {
            assert(s1.workspace(a.workspace as int).tabs@ == s2.workspace(a.workspace as int).tabs@);
        }
    }
}

/// Text and keys go only to a terminal that takes input; a terminal that
/// only views a shared session answers `PaneNotWritable`.
pub proof fn law_writes_only_to_writable_terminals(
    state: AppState,
    request: TerminalControlRequest,
    step: ServiceStep,
)
    requires
        state.wf(),
        handles(state, request, step),
    ensures
        step matches ServiceStep::Write { target, .. } ==> state.valid_location(target)
            && pane_is_writable(state, target),
        step matches ServiceStep::EncodeKey { target, .. } ==> state.valid_location(target)
            && pane_is_writable(state, target),
{
    match request {
        TerminalControlRequest::SendText { target, .. } => {
            if target_resolution(state, target) is Ok {
                law_resolved_target_is_terminal(state, target);
            }
        },
        TerminalControlRequest::SendKey { target, .. } => {
            if target_resolution(state, target) is Ok {
                law_resolved_target_is_terminal(state, target);
            }
        },
        _ => {},
    }
}

/// Without an active window there is no active pane: requests aimed at it,
/// and the current pane, answer `NoActiveTerminal`.
pub proof fn law_no_active_window_no_active_pane(state: AppState)
    requires
        state.active_window is None,
    ensures
        target_resolution(state, TerminalControlTarget::ActivePane) == Err::<
            PaneLocation,
            TerminalControlError,
        >(TerminalControlError::NoActiveTerminal),
        current_pane_spec(state) is None,
{
    assert(!exists|w: int| state.is_active_workspace(w));
    assert(active_target(state) is None);
}

/// The current pane is a terminal pane and counts as active.
pub proof fn law_current_pane_is_active_terminal(state: AppState)
    requires
        current_pane_spec(state) is Some,
    ensures
        current_pane_spec(state)->0.active,
        current_pane_spec(state)->0.pane_type == "terminal"@,
{
}

/// A request that writes resolves its target as reading it would, and then
/// refuses only a terminal that takes no input.
pub proof fn law_writable_refines_resolution(state: AppState, target: TerminalControlTarget)
    ensures
        writable_resolution(state, target) is Ok ==> writable_resolution(state, target)
            == target_resolution(state, target),
        target_resolution(state, target) is Err ==> writable_resolution(state, target)
            == target_resolution(state, target),
        (target_resolution(state, target) is Ok && writable_resolution(state, target) is Err)
            ==> writable_resolution(state, target) == Err::<PaneLocation, TerminalControlError>(
            TerminalControlError::PaneNotWritable {
                pane_id: state.pane(target_resolution(state, target)->Ok_0).pane_id,
            },
        ),
{
}

/// Every pane of the pane listing is a terminal pane.
pub proof fn law_pane_listing_holds_only_terminals(state: AppState)
    ensures
        forall|i: int|
            0 <= i < pane_listing(state).len() ==> #[trigger] pane_listing(state)[i].pane_type
                == "terminal"@,
{
    lemma_panes_upto_terminal(state, state.workspaces@.len() as int);
}

proof fn lemma_tab_panes_terminal(state: AppState, w: usize, t: usize, n: int)
    ensures
        forall|i: int|
            0 <= i < tab_pane_summaries(state, w, t, n).len() ==> #[trigger] tab_pane_summaries(
                state,
                w,
                t,
                n,
            )[i].pane_type == "terminal"@,
    decreases n,
{
    if n > 0 {
        lemma_tab_panes_terminal(state, w, t, n - 1);
    }
}

proof fn lemma_workspace_panes_terminal(state: AppState, w: usize, n: int)
    ensures
        forall|i: int|
            0 <= i < workspace_pane_summaries(state, w, n).len()
                ==> #[trigger] workspace_pane_summaries(state, w, n)[i].pane_type == "terminal"@,
    decreases n,
{
    if n > 0 {
        lemma_workspace_panes_terminal(state, w, n - 1);
        lemma_tab_panes_terminal(
            state,
            w,
            (n - 1) as usize,
            state.tab(w as int, n - 1).panes@.len() as int,
        );
    }
}

proof fn lemma_panes_upto_terminal(state: AppState, n: int)
    ensures
        forall|i: int|
            0 <= i < pane_summaries_upto(state, n).len() ==> #[trigger] pane_summaries_upto(
                state,
                n,
            )[i].pane_type == "terminal"@,
    decreases n,
{
    if n > 0 {
        lemma_panes_upto_terminal(state, n - 1);
        lemma_workspace_panes_terminal(state, (n - 1) as usize, state.tab_count(n - 1));
    }
}

/// When no two workspaces share a window, at most one entry of the tab
/// listing is the active tab.
pub proof fn law_at_most_one_active_tab(state: AppState)
    requires
        state.windows_unique(),
    ensures
        forall|i: int, j: int|
            0 <= i < j < tab_listing(state).len() ==> !(#[trigger] tab_listing(state)[i].active
                && #[trigger] tab_listing(state)[j].active),
{
    lemma_tabs_upto_one_active(state, state.workspaces@.len() as int);
}

proof fn lemma_tabs_upto_active_window(state: AppState, n: int, k: int)
    requires
        0 <= n <= state.workspaces@.len(),
        0 <= k < tab_summaries_upto(state, n).len(),
        tab_summaries_upto(state, n)[k].active,
    ensures
        exists|w: int| 0 <= w < n && #[trigger] state.window_is_active(w),
    decreases n,
{
    if n > 0 {
        let prev = tab_summaries_upto(state, n - 1);
        let last = workspace_tab_summaries(state, n - 1, state.tab_count(n - 1));
        assert(tab_summaries_upto(state, n) == prev + last);
        if k < prev.len() {
            lemma_tabs_upto_active_window(state, n - 1, k);
        } else {
            assert(last[k - prev.len()].active);
            assert(state.window_is_active(n - 1));
        }
    }
}

proof fn lemma_tabs_upto_one_active(state: AppState, n: int)
    requires
        state.windows_unique(),
        0 <= n <= state.workspaces@.len(),
    ensures
        forall|i: int, j: int|
            0 <= i < j < tab_summaries_upto(state, n).len() ==> !(
            #[trigger] tab_summaries_upto(state, n)[i].active && #[trigger] tab_summaries_upto(
                state,
                n,
            )[j].active),
    decreases n,
{
    if n > 0 {
        lemma_tabs_upto_one_active(state, n - 1);
        let prev = tab_summaries_upto(state, n - 1);
        let last = workspace_tab_summaries(state, n - 1, state.tab_count(n - 1));
        let all = tab_summaries_upto(state, n);
        assert(all == prev + last);
        assert forall|i: int, j: int|
            0 <= i < j < all.len() implies !(#[trigger] all[i].active && #[trigger] all[j].active) by {
            if all[i].active && all[j].active {
                if j < prev.len() {
                    assert(prev[i].active && prev[j].active);
                } else if i >= prev.len() {
                    assert(last[i - prev.len()].active);
                    assert(last[j - prev.len()].active);
                } else {
                    assert(prev[i].active);
                    assert(last[j - prev.len()].active);
                    assert(state.window_is_active(n - 1));
                    lemma_tabs_upto_active_window(state, n - 1, i);
                    let w = choose|w: int| 0 <= w < n - 1 && #[trigger] state.window_is_active(w);
                    assert(state.workspace(w).window_id@ != state.workspace(n - 1).window_id@);
                }
            }
        }
    }
}

/// No two entries of a pane listing are active.
pub open spec fn at_most_one_active_pane(s: Seq<crate::types::PaneSummaryView>) -> bool {
    forall|i: int, j: int| 0 <= i < j < s.len() ==> !(#[trigger] s[i].active && #[trigger] s[j].active)
}

/// When no two workspaces share a window, at most one entry of the pane
/// listing is the active pane.
pub proof fn law_at_most_one_active_pane(state: AppState)
    requires
        state.windows_unique(),
    ensures
        at_most_one_active_pane(pane_listing(state)),
{
    lemma_panes_upto_one_active(state, state.workspaces@.len() as int);
}

proof fn lemma_tab_panes_active_session(state: AppState, w: usize, t: usize, n: int, k: int)
    requires
        w < state.workspaces@.len(),
        t < state.tab_count(w as int),
        n <= state.tab(w as int, t as int).panes@.len(),
        0 <= k < tab_pane_summaries(state, w, t, n).len(),
        tab_pane_summaries(state, w, t, n)[k].active,
    ensures
        state.tab_is_active(w as int, t as int),
        exists|q: usize|
            q < n && state.tab(w as int, t as int).active_session == Some(q),
    decreases n,
{
    assert(state.tab(w as int, t as int).panes.len() == state.tab(w as int, t as int).panes@.len());
    if n > 0 {
        let loc = PaneLocation { workspace: w, tab: t, pane: (n - 1) as usize };
        let prev = tab_pane_summaries(state, w, t, n - 1);
        if k < prev.len() {
            lemma_tab_panes_active_session(state, w, t, n - 1, k);
        } else {
            assert(state.tab(w as int, t as int).active_session == Some((n - 1) as usize));
        }
    }
}

proof fn lemma_tab_panes_one_active(state: AppState, w: usize, t: usize, n: int)
    requires
        w < state.workspaces@.len(),
        t < state.tab_count(w as int),
        n <= state.tab(w as int, t as int).panes@.len(),
    ensures
        at_most_one_active_pane(tab_pane_summaries(state, w, t, n)),
    decreases n,
{
    assert(state.tab(w as int, t as int).panes.len() == state.tab(w as int, t as int).panes@.len());
    if n > 0 {
        lemma_tab_panes_one_active(state, w, t, n - 1);
        let prev = tab_pane_summaries(state, w, t, n - 1);
        let all = tab_pane_summaries(state, w, t, n);
        let loc = PaneLocation { workspace: w, tab: t, pane: (n - 1) as usize };
        if state.pane(loc).terminal is Some {
            assert(all == prev.push(crate::service::listed_pane_summary(state, loc)));
            assert forall|i: int, j: int|
                0 <= i < j < all.len() implies !(#[trigger] all[i].active && #[trigger] all[j].active) by {
                if all[i].active && all[j].active {
                    if j < prev.len() {
                        assert(prev[i].active && prev[j].active);
                    } else {
                        assert(prev[i].active);
                        lemma_tab_panes_active_session(state, w, t, n - 1, i);
                    }
                }
            }
        } else {
            assert(all =~= prev);
        }
    }
}

proof fn lemma_workspace_panes_active_tab(state: AppState, w: usize, n: int, k: int)
    requires
        w < state.workspaces@.len(),
        n <= state.tab_count(w as int),
        0 <= k < workspace_pane_summaries(state, w, n).len(),
        workspace_pane_summaries(state, w, n)[k].active,
    ensures
        state.window_is_active(w as int),
        state.workspace(w as int).active_tab < n,
    decreases n,
{
    assert(state.workspace(w as int).tabs.len() == state.tab_count(w as int));
    if n > 0 {
        let prev = workspace_pane_summaries(state, w, n - 1);
        let last = tab_pane_summaries(
            state,
            w,
            (n - 1) as usize,
            state.tab(w as int, n - 1).panes@.len() as int,
        );
        assert(workspace_pane_summaries(state, w, n) == prev + last);
        if k < prev.len() {
            lemma_workspace_panes_active_tab(state, w, n - 1, k);
        } else {
            assert(last[k - prev.len()].active);
            lemma_tab_panes_active_session(
                state,
                w,
                (n - 1) as usize,
                state.tab(w as int, n - 1).panes@.len() as int,
                k - prev.len(),
            );
        }
    }
}

proof fn lemma_workspace_panes_one_active(state: AppState, w: usize, n: int)
    requires
        w < state.workspaces@.len(),
        0 <= n <= state.tab_count(w as int),
    ensures
        at_most_one_active_pane(workspace_pane_summaries(state, w, n)),
    decreases n,
{
    assert(state.workspace(w as int).tabs.len() == state.tab_count(w as int));
    if n > 0 {
        lemma_workspace_panes_one_active(state, w, n - 1);
        let len = state.tab(w as int, n - 1).panes@.len() as int;
        lemma_tab_panes_one_active(state, w, (n - 1) as usize, len);
        let prev = workspace_pane_summaries(state, w, n - 1);
        let last = tab_pane_summaries(state, w, (n - 1) as usize, len);
        let all = workspace_pane_summaries(state, w, n);
        assert(all == prev + last);
        assert forall|i: int, j: int|
            0 <= i < j < all.len() implies !(#[trigger] all[i].active && #[trigger] all[j].active) by {
            if all[i].active && all[j].active {
                if j < prev.len() {
                    assert(prev[i].active && prev[j].active);
                } else if i >= prev.len() {
                    assert(last[i - prev.len()].active && last[j - prev.len()].active);
                } else {
                    assert(prev[i].active);
                    assert(last[j - prev.len()].active);
                    lemma_workspace_panes_active_tab(state, w, n - 1, i);
                    lemma_tab_panes_active_session(state, w, (n - 1) as usize, len, j - prev.len());
                }
            }
        }
    }
}

proof fn lemma_panes_upto_active_window(state: AppState, n: int, k: int)
    requires
        0 <= n <= state.workspaces@.len(),
        0 <= k < pane_summaries_upto(state, n).len(),
        pane_summaries_upto(state, n)[k].active,
    ensures
        exists|w: int| 0 <= w < n && #[trigger] state.window_is_active(w),
    decreases n,
{
    assert(state.workspaces.len() == state.workspaces@.len());
    if n > 0 {
        let prev = pane_summaries_upto(state, n - 1);
        let last = workspace_pane_summaries(state, (n - 1) as usize, state.tab_count(n - 1));
        assert(pane_summaries_upto(state, n) == prev + last);
        if k < prev.len() {
            lemma_panes_upto_active_window(state, n - 1, k);
        } else {
            assert(last[k - prev.len()].active);
            lemma_workspace_panes_active_tab(
                state,
                (n - 1) as usize,
                state.tab_count(n - 1),
                k - prev.len(),
            );
            assert(state.window_is_active(n - 1));
        }
    }
}

proof fn lemma_panes_upto_one_active(state: AppState, n: int)
    requires
        state.windows_unique(),
        0 <= n <= state.workspaces@.len(),
    ensures
        at_most_one_active_pane(pane_summaries_upto(state, n)),
    decreases n,
{
    assert(state.workspaces.len() == state.workspaces@.len());
    if n > 0 {
        lemma_panes_upto_one_active(state, n - 1);
        lemma_workspace_panes_one_active(state, (n - 1) as usize, state.tab_count(n - 1));
        let prev = pane_summaries_upto(state, n - 1);
        let last = workspace_pane_summaries(state, (n - 1) as usize, state.tab_count(n - 1));
        let all = pane_summaries_upto(state, n);
        assert(all == prev + last);
        assert forall|i: int, j: int|
            0 <= i < j < all.len() implies !(#[trigger] all[i].active && #[trigger] all[j].active) by {
            if all[i].active && all[j].active {
                if j < prev.len() {
                    assert(prev[i].active && prev[j].active);
                } else if i >= prev.len() {
                    assert(last[i - prev.len()].active && last[j - prev.len()].active);
                } else {
                    assert(prev[i].active);
                    assert(last[j - prev.len()].active);
                    lemma_workspace_panes_active_tab(
                        state,
                        (n - 1) as usize,
                        state.tab_count(n - 1),
                        j - prev.len(),
                    );
                    lemma_panes_upto_active_window(state, n - 1, i);
                    let w = choose|w: int| 0 <= w < n - 1 && #[trigger] state.window_is_active(w);
                    assert(state.workspace(w).window_id@ != state.workspace(n - 1).window_id@);
                }
            }
        }
    }
}

/// When panes have handles of their own, a pane named by its handle is that
/// pane: the request goes to it when it is a terminal, and answers
/// `PaneNotTerminal` otherwise.
pub proof fn law_named_target_is_the_pane(state: AppState, raw: String, loc: PaneLocation)
    requires
        state.handles_unique(),
        state.has_pane_id(loc, raw@),
    ensures
        target_resolution(state, TerminalControlTarget::PaneId(raw)) == if state.pane(
            loc,
        ).terminal is Some {
            Ok::<PaneLocation, TerminalControlError>(loc)
        } else {
            Err::<PaneLocation, TerminalControlError>(
                TerminalControlError::PaneNotTerminal { pane_id: raw },
            )
        },
{
    lemma_first_pane_exists(state, raw@, loc);
    let c = choose|l: PaneLocation| first_pane_with_id(state, l, raw@);
    assert(state.has_pane_id(c, raw@));
    if c != loc {
        assert(state.pane(c).pane_id@ != state.pane(loc).pane_id@);
    }
}

/// When panes have handles of their own, text and then a key sent to a
/// writable terminal by its handle are both written to that terminal, the
/// text as its UTF-8 bytes, and neither request focuses anything.
pub proof fn law_send_text_then_key_goes_to_the_pane(
    state: AppState,
    raw: String,
    loc: PaneLocation,
    text: String,
    key: String,
    first: ServiceStep,
    second: ServiceStep,
)
    requires
        state.wf(),
        state.handles_unique(),
        state.has_pane_id(loc, raw@),
        state.pane(loc).terminal is Some,
        pane_is_writable(state, loc),
        handles(
            state,
            (TerminalControlRequest::SendText { target: TerminalControlTarget::PaneId(raw), text }),
            first,
        ),
        handles(
            state,
            (TerminalControlRequest::SendKey { target: TerminalControlTarget::PaneId(raw), key }),
            second,
        ),
    ensures
        first matches ServiceStep::Write { target, bytes, reply } && target == loc && bytes@
            == vstd::utf8::encode_utf8(text@) && reply
            == crate::types::TerminalControlResponse::SendText,
        second == (ServiceStep::EncodeKey { target: loc, key }),
{
    law_named_target_is_the_pane(state, raw, loc);
}

/// Each entry of the terminal listing of the first `n` panes of a tab is
/// the listing entry of one of those panes, a terminal.
proof fn lemma_tab_entry(state: AppState, w: usize, t: usize, n: int, k: int) -> (p: usize)
    requires
        w < state.workspaces@.len(),
        t < state.tab_count(w as int),
        n <= state.tab(w as int, t as int).panes@.len(),
        0 <= k < tab_pane_summaries(state, w, t, n).len(),
    ensures
        p < n,
        state.pane((PaneLocation { workspace: w, tab: t, pane: p })).terminal is Some,
        tab_pane_summaries(state, w, t, n)[k] == listed_pane_summary(
            state,
            (PaneLocation { workspace: w, tab: t, pane: p }),
        ),
    decreases n,
{
    assert(state.tab(w as int, t as int).panes.len() == state.tab(w as int, t as int).panes@.len());
    let prev = tab_pane_summaries(state, w, t, n - 1);
    if k < prev.len() {
        lemma_tab_entry(state, w, t, n - 1, k)
    } else {
        (n - 1) as usize
    }
}

/// Each entry of the terminal listing of the first `n` tabs of workspace `w`
/// is the listing entry of a terminal pane of one of those tabs.
proof fn lemma_workspace_entry(state: AppState, w: usize, n: int, k: int) -> (l: PaneLocation)
    requires
        w < state.workspaces@.len(),
        n <= state.tab_count(w as int),
        0 <= k < workspace_pane_summaries(state, w, n).len(),
    ensures
        l.workspace == w,
        l.tab < n,
        state.valid_location(l),
        state.pane(l).terminal is Some,
        workspace_pane_summaries(state, w, n)[k] == listed_pane_summary(state, l),
    decreases n,
{
    assert(state.workspace(w as int).tabs.len() == state.tab_count(w as int));
    let prev = workspace_pane_summaries(state, w, n - 1);
    let len = state.tab(w as int, n - 1).panes@.len() as int;
    let last = tab_pane_summaries(state, w, (n - 1) as usize, len);
    assert(workspace_pane_summaries(state, w, n) == prev + last);
    if k < prev.len() {
        lemma_workspace_entry(state, w, n - 1, k)
    } else {
        let p = lemma_tab_entry(state, w, (n - 1) as usize, len, k - prev.len());
        PaneLocation { workspace: w, tab: (n - 1) as usize, pane: p }
    }
}

/// Each entry of the terminal listing of the first `n` workspaces is the
/// listing entry of a terminal pane of one of them.
proof fn lemma_listing_entry(state: AppState, n: int, k: int) -> (l: PaneLocation)
    requires
        n <= state.workspaces@.len(),
        0 <= k < pane_summaries_upto(state, n).len(),
    ensures
        l.workspace < n,
        state.valid_location(l),
        state.pane(l).terminal is Some,
        pane_summaries_upto(state, n)[k] == listed_pane_summary(state, l),
    decreases n,
{
    assert(state.workspaces.len() == state.workspaces@.len());
    let prev = pane_summaries_upto(state, n - 1);
    let last = workspace_pane_summaries(state, (n - 1) as usize, state.tab_count(n - 1));
    assert(pane_summaries_upto(state, n) == prev + last);
    if k < prev.len() {
        lemma_listing_entry(state, n - 1, k)
    } else {
        lemma_workspace_entry(state, (n - 1) as usize, state.tab_count(n - 1), k - prev.len())
    }
}

/// An entry of the pane listing is active only when there is an active
/// window and the entry's pane holds the active session of the active tab of
/// that window.
pub proof fn law_active_pane_lies_in_the_active_tab(state: AppState, k: int)
    requires
        0 <= k < pane_listing(state).len(),
        pane_listing(state)[k].active,
    ensures
        state.active_window is Some,
        exists|l: PaneLocation|
            state.valid_location(l) && state.tab_is_active(l.workspace as int, l.tab as int)
                && state.tab(l.workspace as int, l.tab as int).active_session == Some(l.pane)
                && pane_listing(state)[k] == #[trigger] listed_pane_summary(state, l),
{
    let l = lemma_listing_entry(state, state.workspaces@.len() as int, k);
    assert(pane_listing(state)[k] == listed_pane_summary(state, l));
}

/// No two entries of a pane listing with the same tab handle are both
/// focused.
pub open spec fn one_focused_per_tab(s: Seq<crate::types::PaneSummaryView>) -> bool {
    forall|i: int, j: int|
        0 <= i < j < s.len() && s[i].tab_id == s[j].tab_id ==> !(#[trigger] s[i].focused
            && #[trigger] s[j].focused)
}

/// When windows, tabs and panes have handles of their own, at most one entry
/// of the pane listing per tab handle is focused.
pub proof fn law_one_focused_pane_per_tab(state: AppState)
    requires
        state.handles_unique(),
    ensures
        one_focused_per_tab(pane_listing(state)),
{
    lemma_upto_one_focused(state, state.workspaces@.len() as int);
}

proof fn lemma_tab_one_focused(state: AppState, w: usize, t: usize, n: int)
    requires
        w < state.workspaces@.len(),
        t < state.tab_count(w as int),
        n <= state.tab(w as int, t as int).panes@.len(),
    ensures
        one_focused_per_tab(tab_pane_summaries(state, w, t, n)),
    decreases n,
{
    assert(state.tab(w as int, t as int).panes.len() == state.tab(w as int, t as int).panes@.len());
    if n > 0 {
        lemma_tab_one_focused(state, w, t, n - 1);
        let prev = tab_pane_summaries(state, w, t, n - 1);
        let all = tab_pane_summaries(state, w, t, n);
        let loc = PaneLocation { workspace: w, tab: t, pane: (n - 1) as usize };
        if state.pane(loc).terminal is Some {
            assert(all == prev.push(listed_pane_summary(state, loc)));
            assert forall|i: int, j: int|
                0 <= i < j < all.len() && all[i].tab_id == all[j].tab_id implies !(
                #[trigger] all[i].focused && #[trigger] all[j].focused) by {
                if all[i].focused && all[j].focused {
                    if j < prev.len() {
                        assert(prev[i].focused && prev[j].focused);
                    } else {
                        assert(prev[i].focused);
                        let p = lemma_tab_entry(state, w, t, n - 1, i);
                    }
                }
            }
        } else {
            assert(all =~= prev);
        }
    }
}

proof fn lemma_workspace_one_focused(state: AppState, w: usize, n: int)
    requires
        state.tabs_unique(),
        w < state.workspaces@.len(),
        0 <= n <= state.tab_count(w as int),
    ensures
        one_focused_per_tab(workspace_pane_summaries(state, w, n)),
    decreases n,
{
    assert(state.workspace(w as int).tabs.len() == state.tab_count(w as int));
    if n > 0 {
        lemma_workspace_one_focused(state, w, n - 1);
        let len = state.tab(w as int, n - 1).panes@.len() as int;
        lemma_tab_one_focused(state, w, (n - 1) as usize, len);
        let prev = workspace_pane_summaries(state, w, n - 1);
        let last = tab_pane_summaries(state, w, (n - 1) as usize, len);
        let all = workspace_pane_summaries(state, w, n);
        assert(all == prev + last);
        assert forall|i: int, j: int|
            0 <= i < j < all.len() && all[i].tab_id == all[j].tab_id implies !(
            #[trigger] all[i].focused && #[trigger] all[j].focused) by {
            if j < prev.len() {
                assert(prev[i].tab_id == prev[j].tab_id);
                if all[i].focused && all[j].focused {
                    assert(prev[i].focused && prev[j].focused);
                }
            } else if i >= prev.len() {
                assert(last[i - prev.len()].tab_id == last[j - prev.len()].tab_id);
                if all[i].focused && all[j].focused {
                    assert(last[i - prev.len()].focused && last[j - prev.len()].focused);
                }
            } else {
                let a = lemma_workspace_entry(state, w, n - 1, i);
                let p = lemma_tab_entry(state, w, (n - 1) as usize, len, j - prev.len());
                assert(state.tab(w as int, a.tab as int).tab_id@ != state.tab(
                    w as int,
                    n - 1,
                ).tab_id@);
            }
        }
    }
}

proof fn lemma_upto_one_focused(state: AppState, n: int)
    requires
        state.tabs_unique(),
        0 <= n <= state.workspaces@.len(),
    ensures
        one_focused_per_tab(pane_summaries_upto(state, n)),
    decreases n,
{
    assert(state.workspaces.len() == state.workspaces@.len());
    if n > 0 {
        lemma_upto_one_focused(state, n - 1);
        let count = state.tab_count(n - 1);
        lemma_workspace_one_focused(state, (n - 1) as usize, count);
        let prev = pane_summaries_upto(state, n - 1);
        let last = workspace_pane_summaries(state, (n - 1) as usize, count);
        let all = pane_summaries_upto(state, n);
        assert(all == prev + last);
        assert forall|i: int, j: int|
            0 <= i < j < all.len() && all[i].tab_id == all[j].tab_id implies !(
            #[trigger] all[i].focused && #[trigger] all[j].focused) by {
            if j < prev.len() {
                assert(prev[i].tab_id == prev[j].tab_id);
                if all[i].focused && all[j].focused {
                    assert(prev[i].focused && prev[j].focused);
                }
            } else if i >= prev.len() {
                assert(last[i - prev.len()].tab_id == last[j - prev.len()].tab_id);
                if all[i].focused && all[j].focused {
                    assert(last[i - prev.len()].focused && last[j - prev.len()].focused);
                }
            } else {
                let a = lemma_listing_entry(state, n - 1, i);
                let b = lemma_workspace_entry(state, (n - 1) as usize, count, j - prev.len());
                assert(state.tab(a.workspace as int, a.tab as int).tab_id@ != state.tab(
                    b.workspace as int,
                    b.tab as int,
                ).tab_id@);
            }
        }
    }
}

/// Two errors are the same kind of error about the same pane handle or key.
pub open spec fn same_error(a: TerminalControlError, b: TerminalControlError) -> bool {
    match (a, b) {
        (
            TerminalControlError::PaneNotFound { pane_id: p },
            TerminalControlError::PaneNotFound { pane_id: q },
        ) => opt_str_view(p) == opt_str_view(q),
        (
            TerminalControlError::PaneNotTerminal { pane_id: p },
            TerminalControlError::PaneNotTerminal { pane_id: q },
        ) => p@ == q@,
        (
            TerminalControlError::PaneNotReadable { pane_id: p },
            TerminalControlError::PaneNotReadable { pane_id: q },
        ) => p@ == q@,
        (
            TerminalControlError::PaneNotWritable { pane_id: p },
            TerminalControlError::PaneNotWritable { pane_id: q },
        ) => p@ == q@,
        (TerminalControlError::NoActiveTerminal, TerminalControlError::NoActiveTerminal) => true,
        (
            TerminalControlError::UnsupportedKey { key: p },
            TerminalControlError::UnsupportedKey { key: q },
        ) => p@ == q@,
        (TerminalControlError::IpcUnavailable, TerminalControlError::IpcUnavailable) => true,
        _ => false,
    }
}

/// Different errors give different messages: the client's message names the
/// kind of error and the pane handle or key it is about.
pub proof fn law_error_messages_are_distinct(a: TerminalControlError, b: TerminalControlError)
    requires
        error_message(a) == error_message(b),
    ensures
        same_error(a, b),
{
    reveal_strlit("Pane not found: ");
    reveal_strlit("Pane not found");
    reveal_strlit("Pane is not a terminal: ");
    reveal_strlit("Pane is not readable: ");
    reveal_strlit("Pane is not writable: ");
    reveal_strlit("No active terminal");
    reveal_strlit("Unsupported key: ");
    reveal_strlit("Warp app is not available");
    let m = error_message(a);
    let n = error_message(b);
    assert(m.len() == n.len());
    assert(m[0] == n[0]);
    if m.len() > 5 {
        assert(m[5] == n[5]);
    }
    if m.len() > 12 {
        assert(m[12] == n[12]);
    }
    lemma_same_prefix_same_rest(a, b);
}

/// Two messages with the same prefix are equal only when what follows is.
proof fn lemma_suffix_equal(prefix: Seq<char>, x: Seq<char>, y: Seq<char>)
    requires
        prefix + x == prefix + y,
    ensures
        x == y,
{
    assert(x =~= (prefix + x).subrange(prefix.len() as int, (prefix + x).len() as int));
    assert(y =~= (prefix + y).subrange(prefix.len() as int, (prefix + y).len() as int));
}

proof fn lemma_same_prefix_same_rest(a: TerminalControlError, b: TerminalControlError)
    requires
        error_message(a) == error_message(b),
    ensures
        match (a, b) {
            (
                TerminalControlError::PaneNotFound { pane_id: Some(p) },
                TerminalControlError::PaneNotFound { pane_id: Some(q) },
            ) => p@ == q@,
            (
                TerminalControlError::PaneNotTerminal { pane_id: p },
                TerminalControlError::PaneNotTerminal { pane_id: q },
            ) => p@ == q@,
            (
                TerminalControlError::PaneNotReadable { pane_id: p },
                TerminalControlError::PaneNotReadable { pane_id: q },
            ) => p@ == q@,
            (
                TerminalControlError::PaneNotWritable { pane_id: p },
                TerminalControlError::PaneNotWritable { pane_id: q },
            ) => p@ == q@,
            (
                TerminalControlError::UnsupportedKey { key: p },
                TerminalControlError::UnsupportedKey { key: q },
            ) => p@ == q@,
            _ => true,
        },
{
    match (a, b) {
        (
            TerminalControlError::PaneNotFound { pane_id: Some(p) },
            TerminalControlError::PaneNotFound { pane_id: Some(q) },
        ) => lemma_suffix_equal("Pane not found: "@, p@, q@),
        (
            TerminalControlError::PaneNotTerminal { pane_id: p },
            TerminalControlError::PaneNotTerminal { pane_id: q },
        ) => lemma_suffix_equal("Pane is not a terminal: "@, p@, q@),
        (
            TerminalControlError::PaneNotReadable { pane_id: p },
            TerminalControlError::PaneNotReadable { pane_id: q },
        ) => lemma_suffix_equal("Pane is not readable: "@, p@, q@),
        (
            TerminalControlError::PaneNotWritable { pane_id: p },
            TerminalControlError::PaneNotWritable { pane_id: q },
        ) => lemma_suffix_equal("Pane is not writable: "@, p@, q@),
        (
            TerminalControlError::UnsupportedKey { key: p },
            TerminalControlError::UnsupportedKey { key: q },
        ) => lemma_suffix_equal("Unsupported key: "@, p@, q@),
        _ => {},
    }
}

/// The handles of the tabs of the first `n` workspaces, workspace by
/// workspace and tab by tab.
pub open spec fn state_tab_ids(state: AppState, n: int) -> Seq<Seq<char>>
    decreases n,
{
    if n <= 0 {
        Seq::empty()
    } else {
        state_tab_ids(state, n - 1) + state.workspace(n - 1).tabs@.map_values(
            |tab: TabState| tab.tab_id@,
        )
    }
}

/// The shown titles of the tabs of the first `n` workspaces, in the same
/// order.
pub open spec fn state_tab_titles(state: AppState, n: int) -> Seq<Seq<char>>
    decreases n,
{
    if n <= 0 {
        Seq::empty()
    } else {
        state_tab_titles(state, n - 1) + state.workspace(n - 1).tabs@.map_values(
            |tab: TabState| tab.display_title@,
        )
    }
}

proof fn lemma_tab_ids_upto(state: AppState, n: int)
    ensures
        tab_summaries_upto(state, n).map_values(|v: TabSummaryView| v.tab_id) == state_tab_ids(
            state,
            n,
        ),
        tab_summaries_upto(state, n).map_values(|v: TabSummaryView| v.title) == state_tab_titles(
            state,
            n,
        ),
    decreases n,
{
    if n > 0 {
        lemma_tab_ids_upto(state, n - 1);
        let prev = tab_summaries_upto(state, n - 1);
        let last = workspace_tab_summaries(state, n - 1, state.tab_count(n - 1));
        assert((prev + last).map_values(|v: TabSummaryView| v.tab_id) =~= prev.map_values(
            |v: TabSummaryView| v.tab_id,
        ) + last.map_values(|v: TabSummaryView| v.tab_id));
        assert((prev + last).map_values(|v: TabSummaryView| v.title) =~= prev.map_values(
            |v: TabSummaryView| v.title,
        ) + last.map_values(|v: TabSummaryView| v.title));
        assert(last.map_values(|v: TabSummaryView| v.tab_id) =~= state.workspace(
            n - 1,
        ).tabs@.map_values(|tab: TabState| tab.tab_id@));
        assert(last.map_values(|v: TabSummaryView| v.title) =~= state.workspace(
            n - 1,
        ).tabs@.map_values(|tab: TabState| tab.display_title@));
    }
}

/// The tab listing names every tab of the state exactly once, in the order
/// of workspaces and then tabs: its k-th entry carries the handle and the
/// shown title of the k-th tab.
pub proof fn law_tab_listing_names_each_tab(state: AppState)
    ensures
        tab_listing(state).map_values(|v: TabSummaryView| v.tab_id) == state_tab_ids(
            state,
            state.workspaces@.len() as int,
        ),
        tab_listing(state).map_values(|v: TabSummaryView| v.title) == state_tab_titles(
            state,
            state.workspaces@.len() as int,
        ),
{
    lemma_tab_ids_upto(state, state.workspaces@.len() as int);
}

/// `v` describes the terminal pane at `l`: its handle, its tab's handle, the
/// window of its workspace, the title its terminal set (or else its tab's),
/// its terminal's working directory, no command, whether it is its tab's
/// focused pane, and the type `terminal`.
pub open spec fn describes_terminal(state: AppState, l: PaneLocation, v: PaneSummaryView) -> bool {
    let tab = state.tab(l.workspace as int, l.tab as int);
    let term = state.pane(l).terminal->0;
    &&& v.pane_id == state.pane(l).pane_id@
    &&& v.tab_id == tab.tab_id@
    &&& v.workspace_id == Some(state.workspace(l.workspace as int).window_id@)
    &&& v.title == match term.title {
        Some(title) => title@,
        None => tab.title@,
    }
    &&& v.cwd == opt_str_view(term.cwd)
    &&& v.command is None
    &&& v.focused == (l.pane == tab.focused_pane)
    &&& v.pane_type == "terminal"@
}

/// Every entry of the pane listing describes a terminal pane of the state:
/// its handle, tab, window, title, working directory and focus are that
/// pane's, and it is active exactly when its tab is the active tab of the
/// active window and it holds that tab's active session.
pub proof fn law_pane_listing_entries_describe_their_panes(state: AppState, k: int)
    requires
        0 <= k < pane_listing(state).len(),
    ensures
        exists|l: PaneLocation|
            {
                &&& state.valid_location(l)
                &&& state.pane(l).terminal is Some
                &&& describes_terminal(state, l, #[trigger] pane_listing(state)[k])
                &&& pane_listing(state)[k].active == (state.tab_is_active(
                    l.workspace as int,
                    l.tab as int,
                ) && state.tab(l.workspace as int, l.tab as int).active_session == Some(l.pane))
            },
{
    let l = lemma_listing_entry(state, state.workspaces@.len() as int, k);
    assert(describes_terminal(state, l, pane_listing(state)[k]));
}

/// The current pane describes the active pane of the state, as its listing
/// entry does, and counts as active.
pub proof fn law_current_pane_describes_the_active_pane(state: AppState)
    requires
        state.wf(),
        current_pane_spec(state) is Some,
    ensures
        active_target(state) is Some,
        describes_terminal(state, active_target(state)->0, current_pane_spec(state)->0),
        current_pane_spec(state)->0.active,
{
    law_resolved_target_is_terminal(state, TerminalControlTarget::ActivePane);
}

/// A pane snapshot describes its pane as the pane listing does (handle,
/// title, working directory, focus, activity), carries no cursor, and keeps
/// the tail of the text: all of it when it is at most `max` characters, or
/// else its last `max` characters, marked truncated exactly then.
pub proof fn law_snapshot_describes_its_pane(
    state: AppState,
    l: PaneLocation,
    full: Seq<char>,
    max: nat,
)
    requires
        state.valid_location(l),
        state.pane(l).terminal is Some,
    ensures
        ({
            let s = snapshot_spec(state, l, bounded_text(full, max), full.len() > max);
            let tab = state.tab(l.workspace as int, l.tab as int);
            let term = state.pane(l).terminal->0;
            &&& s.pane_id == state.pane(l).pane_id@
            &&& s.title == match term.title {
                Some(title) => title@,
                None => tab.title@,
            }
            &&& s.cwd == opt_str_view(term.cwd)
            &&& s.focused == (l.pane == tab.focused_pane)
            &&& s.active == (state.tab_is_active(l.workspace as int, l.tab as int)
                && tab.active_session == Some(l.pane))
            &&& s.cursor_row is None
            &&& s.cursor_col is None
            &&& s.truncated == (full.len() > max)
            &&& s.content.len() == if full.len() <= max {
                full.len()
            } else {
                max
            }
            &&& s.content == full.subrange(full.len() - s.content.len(), full.len() as int)
        }),
{
    let s = snapshot_spec(state, l, bounded_text(full, max), full.len() > max);
    if full.len() <= max {
        assert(full.subrange(0, full.len() as int) =~= full);
    }
}

/// The rows of a pane listing keep each field of each pane in its own
/// column.
pub proof fn law_pane_rows_keep_fields(panes: Seq<PaneSummary>, rows: Seq<TerminalControlListPaneRow>)
    requires
        rows == panes.map_values(|p: PaneSummary| pane_row_of(p)),
    ensures
        rows.len() == panes.len(),
        forall|i: int|
            0 <= i < rows.len() ==> {
                &&& #[trigger] rows[i].pane_id == panes[i].pane_id
                &&& rows[i].tab_id == panes[i].tab_id
                &&& rows[i].workspace_id == panes[i].workspace_id
                &&& rows[i].title == panes[i].title
                &&& rows[i].cwd == panes[i].cwd
                &&& rows[i].command == panes[i].command
                &&& rows[i].focused == panes[i].focused
                &&& rows[i].active == panes[i].active
                &&& rows[i].pane_type == panes[i].pane_type
            },
{
}

/// The rows of a tab listing keep each field of each tab in its own column.
pub proof fn law_tab_rows_keep_fields(tabs: Seq<TabSummary>, rows: Seq<TerminalControlListTabRow>)
    requires
        rows == tabs.map_values(|t: TabSummary| tab_row_of(t)),
    ensures
        rows.len() == tabs.len(),
        forall|i: int|
            0 <= i < rows.len() ==> {
                &&& #[trigger] rows[i].tab_id == tabs[i].tab_id
                &&& rows[i].title == tabs[i].title
                &&& rows[i].active == tabs[i].active
            },
{
}

/// The listing of the first `n` panes of a tab holds the entry of each
/// terminal among them.
proof fn lemma_tab_entry_found(state: AppState, w: usize, t: usize, n: int, p: usize) -> (k: int)
    requires
        w < state.workspaces@.len(),
        t < state.tab_count(w as int),
        n <= state.tab(w as int, t as int).panes@.len(),
        p < n,
        state.pane((PaneLocation { workspace: w, tab: t, pane: p })).terminal is Some,
    ensures
        0 <= k < tab_pane_summaries(state, w, t, n).len(),
        tab_pane_summaries(state, w, t, n)[k] == listed_pane_summary(
            state,
            (PaneLocation { workspace: w, tab: t, pane: p }),
        ),
    decreases n,
{
    assert(state.tab(w as int, t as int).panes.len() == state.tab(w as int, t as int).panes@.len());
    let prev = tab_pane_summaries(state, w, t, n - 1);
    if p == n - 1 {
        prev.len() as int
    } else {
        lemma_tab_entry_found(state, w, t, n - 1, p)
    }
}

proof fn lemma_workspace_entry_found(state: AppState, w: usize, n: int, l: PaneLocation) -> (k: int)
    requires
        w < state.workspaces@.len(),
        n <= state.tab_count(w as int),
        l.workspace == w,
        l.tab < n,
        state.valid_location(l),
        state.pane(l).terminal is Some,
    ensures
        0 <= k < workspace_pane_summaries(state, w, n).len(),
        workspace_pane_summaries(state, w, n)[k] == listed_pane_summary(state, l),
    decreases n,
{
    assert(state.workspace(w as int).tabs.len() == state.tab_count(w as int));
    let prev = workspace_pane_summaries(state, w, n - 1);
    let len = state.tab(w as int, n - 1).panes@.len() as int;
    let last = tab_pane_summaries(state, w, (n - 1) as usize, len);
    assert(workspace_pane_summaries(state, w, n) == prev + last);
    if l.tab == n - 1 {
        assert(l == PaneLocation { workspace: w, tab: (n - 1) as usize, pane: l.pane });
        let j = lemma_tab_entry_found(state, w, (n - 1) as usize, len, l.pane);
        prev.len() + j
    } else {
        lemma_workspace_entry_found(state, w, n - 1, l)
    }
}

proof fn lemma_listing_entry_found(state: AppState, n: int, l: PaneLocation) -> (k: int)
    requires
        n <= state.workspaces@.len(),
        l.workspace < n,
        state.valid_location(l),
        state.pane(l).terminal is Some,
    ensures
        0 <= k < pane_summaries_upto(state, n).len(),
        pane_summaries_upto(state, n)[k] == listed_pane_summary(state, l),
    decreases n,
{
    assert(state.workspaces.len() == state.workspaces@.len());
    let prev = pane_summaries_upto(state, n - 1);
    let last = workspace_pane_summaries(state, (n - 1) as usize, state.tab_count(n - 1));
    assert(pane_summaries_upto(state, n) == prev + last);
    if l.workspace == n - 1 {
        let j = lemma_workspace_entry_found(state, (n - 1) as usize, state.tab_count(n - 1), l);
        prev.len() + j
    } else {
        lemma_listing_entry_found(state, n - 1, l)
    }
}

/// Every terminal pane of the state has an entry in the pane listing that
/// describes it.
pub proof fn law_pane_listing_lists_every_terminal(state: AppState, l: PaneLocation)
    requires
        state.valid_location(l),
        state.pane(l).terminal is Some,
    ensures
        exists|k: int|
            0 <= k < pane_listing(state).len() && describes_terminal(
                state,
                l,
                #[trigger] pane_listing(state)[k],
            ),
{
    let k = lemma_listing_entry_found(state, state.workspaces@.len() as int, l);
    assert(describes_terminal(state, l, pane_listing(state)[k]));
}

/// Tab `t` of workspace `w` is listed at the position that follows the tabs
/// of the workspaces before it.
proof fn lemma_tab_position(state: AppState, n: int, w: int, t: int)
    requires
        0 <= w < n <= state.workspaces@.len(),
        0 <= t < state.tab_count(w),
    ensures
        tab_summaries_upto(state, w).len() + t < tab_summaries_upto(state, n).len(),
        tab_summaries_upto(state, n)[tab_summaries_upto(state, w).len() + t]
            == tab_summary_spec(state, w, t),
    decreases n,
{
    let prev = tab_summaries_upto(state, n - 1);
    let last = workspace_tab_summaries(state, n - 1, state.tab_count(n - 1));
    assert(tab_summaries_upto(state, n) == prev + last);
    if w < n - 1 {
        lemma_tab_position(state, n - 1, w, t);
    }
}

/// When the active window shows a workspace, its active tab is listed as
/// active; so, when no two workspaces share a window, exactly one tab is
/// listed as active.
pub proof fn law_active_tab_is_listed_active(state: AppState, w: int)
    requires
        state.wf(),
        0 <= w < state.workspaces@.len(),
        state.window_is_active(w),
    ensures
        exists|k: int|
            0 <= k < tab_listing(state).len() && (#[trigger] tab_listing(state)[k]).active
                && tab_listing(state)[k].tab_id == state.tab(
                w,
                state.workspace(w).active_tab as int,
            ).tab_id@,
{
    assert(state.workspace(w).wf());
    let t = state.workspace(w).active_tab as int;
    lemma_tab_position(state, state.workspaces@.len() as int, w, t);
    let k = tab_summaries_upto(state, w).len() + t;
    assert(tab_listing(state)[k].active);
}

} // verus!
