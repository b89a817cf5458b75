//! The shared application state and the reducer that applies actions to it.
use vstd::prelude::*;

verus! {

/// A comparable reference to a top-level surface owned by the window manager.
#[derive(Clone, Copy, Debug, PartialEq, Eq, Structural)]
pub struct WindowHandle {
    pub id: u64,
}

/// The call in progress.
#[derive(Clone, Copy, Debug, PartialEq, Eq, Structural)]
pub struct CallInfo {
    pub silenced: bool,
}

/// What the reducer is asked to do.
#[derive(Clone, Copy, Debug, PartialEq, Eq, Structural)]
pub enum Action {
    /// Track a new pop-out surface. The payload is the surface's weak
    /// reference as resolved at dispatch time: `None` when the surface was
    /// already gone, in which case nothing changes.
    SetPopout(Option<WindowHandle>),
    /// Stop tracking the pop-out surface, if any.
    ClearPopout,
    /// End the current call.
    DisableMedia,
    /// Register an auxiliary surface that does not hold the media player.
    AddWindow(WindowHandle),
}

/// Whether subscribers are told to re-render after a dispatch.
#[derive(Clone, Copy, Debug, PartialEq, Eq, Structural)]
pub enum DispatchMode {
    Notify,
    /// Mutate without forcing a re-render, so that an in-flight hand-off of
    /// the video element to a new surface is not interrupted.
    Silent,
}

/// The mathematical model of `State`.
pub struct StateModel {
    pub popout_player: Option<WindowHandle>,
    pub sidebar_hidden: bool,
    pub current_call: Option<CallInfo>,
    pub windows: Seq<WindowHandle>,
}

/// The process-wide UI and call state.
/// Its fields change only through `apply`.
pub struct State {
    popout_player: Option<WindowHandle>,
    sidebar_hidden: bool,
    current_call: Option<CallInfo>,
    windows: Vec<WindowHandle>,
}

impl View for State {
    type V = StateModel;

    closed spec fn view(&self) -> StateModel {
        StateModel {
            popout_player: self.popout_player,
            sidebar_hidden: self.sidebar_hidden,
            current_call: self.current_call,
            windows: self.windows@,
        }
    }
}

/// The auxiliary surfaces are registered at most once each.
pub open spec fn model_wf(m: StateModel) -> bool {
    forall|i: int, j: int|
        0 <= i < j < m.windows.len() ==> #[trigger] m.windows[i] != #[trigger] m.windows[j]
}

/// The state that results from applying `a` to `m`.
pub open spec fn reduce(m: StateModel, a: Action) -> StateModel {
    match a {
        Action::SetPopout(resolved) => match resolved {
            Some(h) => StateModel { popout_player: Some(h), ..m },
            None => m,
        },
        Action::ClearPopout => StateModel { popout_player: None, ..m },
        Action::DisableMedia => StateModel { current_call: None, ..m },
        Action::AddWindow(h) => if m.windows.contains(h) {
            m
        } else {
            StateModel { windows: m.windows.push(h), ..m }
        },
    }
}

/// The surface that applying `a` to `m` stops tracking, which the caller
/// closes so that no pop-out surface is left open untracked.
pub open spec fn released(m: StateModel, a: Action) -> Option<WindowHandle> {
    match a {
        Action::SetPopout(Some(h)) => match m.popout_player {
            Some(old) => if old != h {
                Some(old)
            } else {
                None
            },
            None => None,
        },
        Action::ClearPopout => m.popout_player,
        _ => None,
    }
}

impl State {
    pub open spec fn wf(&self) -> bool {
        model_wf(self@)
    }

    /// The state at start-up: no pop-out surface and no registered window.
    pub fn new(sidebar_hidden: bool, current_call: Option<CallInfo>) -> (s: State)
        ensures
            s.wf(),
            s@.popout_player is None,
            s@.sidebar_hidden == sidebar_hidden,
            s@.current_call == current_call,
            s@.windows.len() == 0,
    {
        State { popout_player: None, sidebar_hidden, current_call, windows: Vec::new() }
    }

    /// The tracked pop-out surface of the media player.
    pub fn popout_player(&self) -> (r: Option<WindowHandle>)
        ensures
            r == self@.popout_player,
    {
        self.popout_player
    }

    pub fn sidebar_hidden(&self) -> (r: bool)
        ensures
            r == self@.sidebar_hidden,
    {
        self.sidebar_hidden
    }

    pub fn current_call(&self) -> (r: Option<CallInfo>)
        ensures
            r == self@.current_call,
    {
        self.current_call
    }

    /// The registered auxiliary surfaces, in order of registration.
    pub fn windows(&self) -> (r: &Vec<WindowHandle>)
        ensures
            r@ == self@.windows,
    {
        &self.windows
    }

    fn is_registered(&self, h: WindowHandle) -> (r: bool)
        ensures
            r == self@.windows.contains(h),
    {
        let mut i: usize = 0;
        while i < self.windows.len()
            invariant
                i <= self.windows@.len(),
                forall|j: int| 0 <= j < i ==> self.windows@[j] != h,
            decreases self.windows@.len() - i,
        {
            if self.windows[i] == h {
                return true;
            }
            i = i + 1;
        }
        false
    }

    /// Applies `a`, returning the surface it stops tracking.
    pub fn apply(&mut self, a: Action) -> (released_surface: Option<WindowHandle>)
        requires
            old(self).wf(),
        ensures
            final(self).wf(),
            final(self)@ == reduce(old(self)@, a),
            released_surface == released(old(self)@, a),
    {
        match a {
            Action::SetPopout(resolved) => match resolved {
                Some(h) => {
                    let prev = self.popout_player;
                    self.popout_player = Some(h);
                    match prev {
                        Some(p) => if p != h {
                            Some(p)
                        } else {
                            None
                        },
                        None => None,
                    }
                },
                None => None,
            },
            Action::ClearPopout => {
                let prev = self.popout_player;
                self.popout_player = None;
                prev
            },
            Action::DisableMedia => {
                self.current_call = None;
                None
            },
            Action::AddWindow(h) => {
                if !self.is_registered(h) {
                    self.windows.push(h);
                }
                None
            },
        }
    }
}

/// The shared state together with whether subscribers owe a re-render.
pub struct Store {
    state: State,
    notify_pending: bool,
}

impl Store {
    pub closed spec fn wf(&self) -> bool {
        self.state.wf()
    }

    /// The current state snapshot.
    pub closed spec fn model(&self) -> StateModel {
        self.state@
    }

    pub fn state(&self) -> (r: &State)
        ensures
            r@ == self.model(),
            r.wf() == self.wf(),
    {
        &self.state
    }

    /// Whether a notifying dispatch happened since subscribers last rendered.
    pub closed spec fn pending(&self) -> bool {
        self.notify_pending
    }

    pub fn new(state: State) -> (s: Store)
        requires
            state.wf(),
        ensures
            s.wf(),
            s.model() == state@,
            !s.pending(),
    {
        Store { state, notify_pending: false }
    }

    /// Applies `a` to the state. A notifying dispatch marks a re-render as
    /// owed; a silent one leaves that mark as it was. Returns the surface that
    /// is no longer tracked, for the caller to close.
    pub fn dispatch(&mut self, a: Action, mode: DispatchMode) -> (released_surface: Option<
        WindowHandle,
    >)
        requires
            old(self).wf(),
        ensures
            final(self).wf(),
            final(self).model() == reduce(old(self).model(), a),
            final(self).pending() == (old(self).pending() || mode == DispatchMode::Notify),
            released_surface == released(old(self).model(), a),
    {
        let r = self.state.apply(a);
        if mode == DispatchMode::Notify {
            self.notify_pending = true;
        }
        r
    }

    /// Reports whether subscribers owe a re-render, and clears the mark.
    pub fn take_notification(&mut self) -> (r: bool)
        ensures
            r == old(self).pending(),
            !final(self).pending(),
            final(self).model() == old(self).model(),
            final(self).wf() == old(self).wf(),
    {
        let r = self.notify_pending;
        self.notify_pending = false;
        r
    }
}

} // verus!
