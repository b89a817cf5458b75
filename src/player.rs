//! The media player's pop-out state machine: which surface owns the video
//! element, and what pressing the pop-out toggle or closing the surface does.
use vstd::prelude::*;
use crate::state::{
    Action, DispatchMode, State, StateModel, Store, WindowHandle, reduce, released,
};

verus! {

/// Where the media player stands.
#[derive(Clone, Copy, Debug, PartialEq, Eq, Structural)]
pub enum PlayerMode {
    /// No pop-out surface is tracked; the main window plays the video.
    Embedded,
    /// A pop-out surface is tracked and plays the video.
    PoppedOut,
}

/// What a video slot of a surface renders.
#[derive(Clone, Copy, Debug, PartialEq, Eq, Structural)]
pub enum VideoSlot {
    LiveVideo { muted: bool },
    Placeholder,
}

/// What the caller does after the pop-out toggle was pressed.
#[derive(Clone, Copy, Debug, PartialEq, Eq, Structural)]
pub enum ToggleEffect {
    /// Create a surface rendering the pop-out player, then report its
    /// resolved handle through `Store::finish_popout`.
    OpenSurface,
    /// Close this surface, which the state no longer tracks.
    CloseSurface(WindowHandle),
}

pub open spec fn mode_of(m: StateModel) -> PlayerMode {
    if m.popout_player is Some {
        PlayerMode::PoppedOut
    } else {
        PlayerMode::Embedded
    }
}

/// Whether the call is silenced; with no call, it is not.
pub open spec fn silenced_of(m: StateModel) -> bool {
    match m.current_call {
        Some(c) => c.silenced,
        None => false,
    }
}

/// The main window's slot plays the video only while nothing is popped out.
pub open spec fn embedded_slot_of(m: StateModel) -> VideoSlot {
    match mode_of(m) {
        PlayerMode::Embedded => VideoSlot::LiveVideo { muted: silenced_of(m) },
        PlayerMode::PoppedOut => VideoSlot::Placeholder,
    }
}

/// A pop-out surface plays the video only while it is the tracked one.
pub open spec fn popout_slot_of(m: StateModel, surface: WindowHandle) -> VideoSlot {
    if m.popout_player == Some(surface) {
        VideoSlot::LiveVideo { muted: silenced_of(m) }
    } else {
        VideoSlot::Placeholder
    }
}

pub fn player_mode(state: &State) -> (r: PlayerMode)
    ensures
        r == mode_of(state@),
{
    match state.popout_player() {
        Some(_) => PlayerMode::PoppedOut,
        None => PlayerMode::Embedded,
    }
}

pub fn is_silenced(state: &State) -> (r: bool)
    ensures
        r == silenced_of(state@),
{
    match state.current_call() {
        Some(c) => c.silenced,
        None => false,
    }
}

/// What the main window renders where the video goes.
pub fn embedded_slot(state: &State) -> (r: VideoSlot)
    ensures
        r == embedded_slot_of(state@),
{
    match player_mode(state) {
        PlayerMode::Embedded => VideoSlot::LiveVideo { muted: is_silenced(state) },
        PlayerMode::PoppedOut => VideoSlot::Placeholder,
    }
}

/// What the pop-out surface `surface` renders where the video goes.
pub fn popout_slot(state: &State, surface: WindowHandle) -> (r: VideoSlot)
    ensures
        r == popout_slot_of(state@, surface),
{
    if state.popout_player() == Some(surface) {
        VideoSlot::LiveVideo { muted: is_silenced(state) }
    } else {
        VideoSlot::Placeholder
    }
}

impl Store {
    /// The pop-out toggle of the main window was pressed. When popped out,
    /// the pop-out is cleared with a notifying dispatch and its surface is
    /// handed back for closing; otherwise nothing changes yet and a surface
    /// is to be opened.
    pub fn press_popout_toggle(&mut self) -> (r: ToggleEffect)
        requires
            old(self).wf(),
        ensures
            final(self).wf(),
            match old(self).model().popout_player {
                Some(h) => {
                    &&& r == ToggleEffect::CloseSurface(h)
                    &&& final(self).model() == reduce(old(self).model(), Action::ClearPopout)
                    &&& final(self).pending()
                },
                None => {
                    &&& r == ToggleEffect::OpenSurface
                    &&& final(self).model() == old(self).model()
                    &&& final(self).pending() == old(self).pending()
                },
            },
    {
        match self.state().popout_player() {
            Some(h) => {
                self.dispatch(Action::ClearPopout, DispatchMode::Notify);
                ToggleEffect::CloseSurface(h)
            },
            None => ToggleEffect::OpenSurface,
        }
    }

    /// A surface was opened after `OpenSurface`; `resolved` is its weak
    /// reference as resolved now (`None` when it is already gone). The
    /// pop-out is set with a silent dispatch, so that the video's hand-off is
    /// not interrupted. Returns a surface that is no longer tracked.
    pub fn finish_popout(&mut self, resolved: Option<WindowHandle>) -> (r: Option<WindowHandle>)
        requires
            old(self).wf(),
        ensures
            final(self).wf(),
            final(self).model() == reduce(old(self).model(), Action::SetPopout(resolved)),
            final(self).pending() == old(self).pending(),
            r == released(old(self).model(), Action::SetPopout(resolved)),
    {
        self.dispatch(Action::SetPopout(resolved), DispatchMode::Silent)
    }

    /// The pop-out surface's close control was pressed, or the host reports
    /// that `surface` is closing. If it is the tracked
    /// pop-out, the pop-out is cleared before the surface goes, so the main
    /// window takes the video back; any other surface changes nothing.
    pub fn surface_closed(&mut self, surface: WindowHandle)
        requires
            old(self).wf(),
        ensures
            final(self).wf(),
            old(self).model().popout_player == Some(surface) ==> final(self).model() == reduce(
                old(self).model(),
                Action::ClearPopout,
            ) && final(self).pending(),
            old(self).model().popout_player != Some(surface) ==> final(self).model() == old(
                self,
            ).model() && final(self).pending() == old(self).pending(),
    {
        if self.state().popout_player() == Some(surface) {
            self.dispatch(Action::ClearPopout, DispatchMode::Notify);
        }
    }

    /// The end-call control was pressed.
    pub fn end_call(&mut self)
        requires
            old(self).wf(),
        ensures
            final(self).wf(),
            final(self).model() == reduce(old(self).model(), Action::DisableMedia),
            final(self).pending(),
    {
        self.dispatch(Action::DisableMedia, DispatchMode::Notify);
    }
}

/// Popping out from the embedded mode hands the video to the new surface and
/// leaves a placeholder in the main window; clearing the pop-out afterwards
/// returns to the embedded mode with the main window playing again.
pub proof fn lemma_popout_round_trip(m: StateModel, h: WindowHandle)
    requires
        mode_of(m) == PlayerMode::Embedded,
    ensures
        mode_of(reduce(m, Action::SetPopout(Some(h)))) == PlayerMode::PoppedOut,
        embedded_slot_of(reduce(m, Action::SetPopout(Some(h)))) == VideoSlot::Placeholder,
        popout_slot_of(reduce(m, Action::SetPopout(Some(h))), h) is LiveVideo,
        mode_of(reduce(reduce(m, Action::SetPopout(Some(h))), Action::ClearPopout))
            == PlayerMode::Embedded,
        embedded_slot_of(reduce(reduce(m, Action::SetPopout(Some(h))), Action::ClearPopout))
            is LiveVideo,
        reduce(reduce(m, Action::SetPopout(Some(h))), Action::ClearPopout) == m,
{
}

/// A pop-out request whose surface is already gone changes nothing.
pub proof fn lemma_stale_popout_ignored(m: StateModel)
    ensures
        reduce(m, Action::SetPopout(None)) == m,
        released(m, Action::SetPopout(None)) is None,
{
}

/// Clearing the pop-out in the embedded mode leaves the state unchanged.
pub proof fn lemma_clear_popout_idempotent(m: StateModel)
    requires
        mode_of(m) == PlayerMode::Embedded,
    ensures
        reduce(m, Action::ClearPopout) == m,
        released(m, Action::ClearPopout) is None,
{
}

/// In every state, the main window and a pop-out surface never both play the
/// video.
pub proof fn lemma_single_live_video(m: StateModel, surface: WindowHandle)
    ensures
        !(embedded_slot_of(m) is LiveVideo && popout_slot_of(m, surface) is LiveVideo),
{
}

/// Whichever surface plays the video mutes it exactly when the call is
/// silenced.
pub proof fn lemma_silenced_followed(m: StateModel, surface: WindowHandle)
    ensures
        embedded_slot_of(m) matches VideoSlot::LiveVideo { muted } ==> muted == silenced_of(m),
        popout_slot_of(m, surface) matches VideoSlot::LiveVideo { muted } ==> muted
            == silenced_of(m),
{
}

} // verus!
