//! The state a listener's handlers may change, and the dispatchers that
//! carry a change of it over to Hyprland.
use vstd::prelude::*;
use crate::dispatch::{
    dispatch_ok, dispatch_text, DispatchType, FullscreenType, MonitorIdentifier,
    WorkspaceIdentifierWithSpecial,
};
use crate::shared::{WorkspaceType, WorkspaceTypeView};
use crate::text::chars_eq;
use crate::event_listener::calls::DispatchSender;

verus! {

/// The mutable state available to Closures
#[derive(PartialEq, Eq, Clone, Debug)]
pub struct State {
    /// The active workspace
    pub active_workspace: WorkspaceType,
    /// The active monitor
    pub active_monitor: String,
    /// The fullscreen state
    pub fullscreen_state: bool,
}

/// How the dispatcher that switches to a workspace names it: a regular
/// workspace by `name:` and its name, the special workspace as `special`
/// with `:name` when it has a name.
pub open spec fn workspace_target_text(w: WorkspaceTypeView) -> Seq<char> {
    match w {
        WorkspaceTypeView::Regular(n) => "name:"@ + n,
        WorkspaceTypeView::Special(None) => "special"@,
        WorkspaceTypeView::Special(Some(n)) => "special"@ + ":"@ + n,
    }
}

/// The dispatchers (as sent on the dispatch socket) that carry the change
/// from `old` to `new` over to Hyprland, in this order: toggle fullscreen
/// when the fullscreen state changed, switch workspace when the active
/// workspace changed, focus the monitor when the active monitor changed.
pub open spec fn state_change_texts(new: State, old: State) -> Seq<Seq<char>> {
    let fs: Seq<Seq<char>> = if new.fullscreen_state != old.fullscreen_state {
        seq!["fullscreen"@ + " "@ + ""@]
    } else {
        Seq::empty()
    };
    let ws: Seq<Seq<char>> = if new.active_workspace@ != old.active_workspace@ {
        seq!["workspace"@ + " "@ + workspace_target_text(new.active_workspace@)]
    } else {
        Seq::empty()
    };
    let mon: Seq<Seq<char>> = if new.active_monitor@ != old.active_monitor@ {
        seq!["focusmonitor"@ + " "@ + new.active_monitor@]
    } else {
        Seq::empty()
    };
    fs + ws + mon
}

/// A state that did not change sends no dispatcher.
pub proof fn law_unchanged_state_sends_nothing(s: State)
    ensures
        state_change_texts(s, s).len() == 0,
{
}

fn same_workspace(a: &WorkspaceType, b: &WorkspaceType) -> (res: bool)
    ensures
        res == (a@ == b@),
{
    match (a, b) {
        (WorkspaceType::Regular(x), WorkspaceType::Regular(y)) => {
            let vx = crate::text::chars_of(x.as_str());
            let vy = crate::text::chars_of(y.as_str());
            chars_eq(&vx, &vy)
        },
        (WorkspaceType::Special(None), WorkspaceType::Special(None)) => true,
        (WorkspaceType::Special(Some(x)), WorkspaceType::Special(Some(y))) => {
            let vx = crate::text::chars_of(x.as_str());
            let vy = crate::text::chars_of(y.as_str());
            chars_eq(&vx, &vy)
        },
        _ => false,
    }
}

/// That the dispatcher `f`, handed a dispatcher whose text on the dispatch
/// socket is `t`, refused it with the error `e`.
pub open spec fn refused<F: Fn(DispatchType) -> Result<(), crate::error::HyprError>>(
    f: F,
    t: Seq<char>,
    e: crate::error::HyprError,
) -> bool {
    exists|d: DispatchType| dispatch_text(d, " "@) == t && #[trigger] call_ensures(f, (d,), Err(e))
}

/// That the dispatcher `f`, handed a dispatcher whose text on the dispatch
/// socket is `t`, accepted it.
pub open spec fn accepted<F: Fn(DispatchType) -> Result<(), crate::error::HyprError>>(f: F, t: Seq<char>) -> bool {
    exists|d: DispatchType, r: Result<(), crate::error::HyprError>|
        dispatch_text(d, " "@) == t && r is Ok && #[trigger] call_ensures(f, (d,), r)
}

impl State {
    /// Carries the change from `previous` to this state over to Hyprland: the
    /// dispatchers of `changes_to_dispatch` are handed to the sender in
    /// order, and the first one it refuses ends the work with its error; no
    /// dispatcher is handed on after it. Gives back the state.
    pub fn execute_state_sync<F: Fn(DispatchType) -> Result<(), crate::error::HyprError>>(
        self,
        previous: State,
        sender: &mut DispatchSender<F>,
    ) -> (res: Result<State, crate::error::HyprError>)
        requires
            forall|d: DispatchType| #[trigger] old(sender).dispatcher().requires((d,)),
        ensures
            ({
                let texts = state_change_texts(self, previous);
                let f = old(sender).dispatcher();
                &&& final(sender).dispatcher() == f
                &&& res matches Ok(s) ==> s == self
                    && final(sender).sent() == old(sender).sent() + texts
                    && forall|i: int| 0 <= i < texts.len() ==> accepted(f, #[trigger] texts[i])
                &&& res matches Err(e) ==> exists|k: int| 0 <= k < texts.len()
                    && final(sender).sent() == old(sender).sent() + texts.take(k + 1)
                    && (forall|i: int| 0 <= i < k ==> accepted(f, #[trigger] texts[i]))
                    && #[trigger] refused(f, texts[k], e)
                &&& texts.len() == 0 ==> (res matches Ok(s) && s == self)
            }),
    {
        let ghost texts = state_change_texts(self, previous);
        let ghost f = sender.dispatcher();
        let ghost sent0 = sender.sent();
        let mut changes = self.changes_to_dispatch(&previous);
        let mut i: usize = 0;
        while changes.len() > 0
            invariant
                i + changes.len() == texts.len(),
                texts == state_change_texts(self, previous),
                sender.dispatcher() == f,
                f == old(sender).dispatcher(),
                sent0 == old(sender).sent(),
                sender.sent() == sent0 + texts.take(i as int),
                forall|j: int| 0 <= j < changes.len() ==> dispatch_text(#[trigger] changes@[j], " "@) == texts[i + j],
                forall|j: int| 0 <= j < i ==> accepted(f, #[trigger] texts[j]),
                forall|d: DispatchType| #[trigger] f.requires((d,)),
            decreases changes.len(),
        {
            let ghost before = changes@;
            let d = changes.remove(0);
            assert(d == before[0]);
            assert(dispatch_text(before[0], " "@) == texts[i as int + 0]);
            assert forall|j: int| 0 <= j < changes.len() implies dispatch_text(#[trigger] changes@[j], " "@) == texts[i + 1 + j] by {
                assert(changes@[j] == before[j + 1]);
            }
            let ghost dv = d;
            let r = sender.send(d);
            let ghost rv = r;
            assert(texts.take(i as int + 1) =~= texts.take(i as int).push(texts[i as int]));
            assert(sender.sent() =~= sent0 + texts.take(i as int + 1));
            assert(dispatch_text(dv, " "@) == texts[i as int] && call_ensures(f, (dv,), rv));
            match r {
                Ok(()) => {
                    assert(accepted(f, texts[i as int]));
                },
                Err(e) => {
                    assert(rv == Err::<(), crate::error::HyprError>(e));
                    assert(refused(f, texts[i as int], e));
                    assert(0 <= i < texts.len() && sender.sent() == sent0 + texts.take(i as int + 1)
                        && (forall|j: int| 0 <= j < i ==> accepted(f, #[trigger] texts[j])));
                    return Err(e);
                },
            }
            i = i + 1;
        }
        assert(texts.take(i as int) =~= texts);
        Ok(self)
    }

    /// The dispatchers that carry the change from `old` to this state over
    /// to Hyprland, in the order they are to be sent.
    pub fn changes_to_dispatch<'a>(&'a self, old: &State) -> (res: Vec<DispatchType<'a>>)
        ensures
            forall|i: int| 0 <= i < res.len() ==> dispatch_ok(#[trigger] res@[i]),
            res@.map_values(|d: DispatchType<'a>| dispatch_text(d, " "@)) == state_change_texts(*self, *old),
    {
        let mut out: Vec<DispatchType<'a>> = Vec::new();
        let ghost fs: Seq<Seq<char>> = if self.fullscreen_state != old.fullscreen_state {
            seq!["fullscreen"@ + " "@ + ""@]
        } else {
            Seq::empty()
        };
        let ghost ws: Seq<Seq<char>> = if self.active_workspace@ != old.active_workspace@ {
            seq!["workspace"@ + " "@ + workspace_target_text(self.active_workspace@)]
        } else {
            Seq::empty()
        };
        if self.fullscreen_state != old.fullscreen_state {
            out.push(DispatchType::ToggleFullscreen(FullscreenType::NoParam));
        }
        assert(out@.map_values(|d: DispatchType<'a>| dispatch_text(d, " "@)) =~= fs);
        if !same_workspace(&self.active_workspace, &old.active_workspace) {
            let target = match &self.active_workspace {
                WorkspaceType::Regular(name) => WorkspaceIdentifierWithSpecial::Name(name.as_str()),
                WorkspaceType::Special(opt) => WorkspaceIdentifierWithSpecial::Special(
                    match opt {
                        Some(name) => Some(name.as_str()),
                        None => None,
                    },
                ),
            };
            out.push(DispatchType::Workspace(target));
        }
        assert(out@.map_values(|d: DispatchType<'a>| dispatch_text(d, " "@)) =~= fs + ws);
        let va = crate::text::chars_of(self.active_monitor.as_str());
        let vb = crate::text::chars_of(old.active_monitor.as_str());
        if !chars_eq(&va, &vb) {
            out.push(DispatchType::FocusMonitor(MonitorIdentifier::Name(self.active_monitor.as_str())));
        }
        assert(out@.map_values(|d: DispatchType<'a>| dispatch_text(d, " "@)) =~= state_change_texts(*self, *old));
        out
    }
}

} // verus!
