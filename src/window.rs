use vstd::prelude::*;

use crate::state::SimpleWindowState;

verus! {

/// A call to make on the window while applying a record at startup.
#[derive(Clone, Copy, Debug, PartialEq, Eq, Structural)]
pub enum WindowCall {
    /// Set the inner size to this width and height.
    SetSize(u32, u32),
    /// Place the window at this position.
    SetPosition(i32, i32),
    /// Centre the window on its screen.
    Center,
    /// Nothing more to do.
    Finish,
}

/// Which call the startup sequence waits on.
#[derive(Clone, Copy, Debug, PartialEq, Eq, Structural)]
pub enum StartupPhase {
    Sizing,
    Positioning,
    Centering,
    Done,
}

/// The next phase and call, given the phase and whether its call succeeded.
///
/// Every call is best effort: a failed resize does not stop placement, a failed
/// placement falls back to centring, a failed centring ends the sequence.
pub open spec fn startup_next(s: SimpleWindowState, phase: StartupPhase, succeeded: bool) -> (
    StartupPhase,
    WindowCall,
) {
    match phase {
        StartupPhase::Sizing => if s.spec_has_position() {
            (StartupPhase::Positioning, WindowCall::SetPosition(s.x, s.y))
        } else {
            (StartupPhase::Centering, WindowCall::Center)
        },
        StartupPhase::Positioning => if succeeded {
            (StartupPhase::Done, WindowCall::Finish)
        } else {
            (StartupPhase::Centering, WindowCall::Center)
        },
        _ => (StartupPhase::Done, WindowCall::Finish),
    }
}

/// The calls made from `phase` on, when the calls succeed or fail as
/// `outcomes` says, one outcome per call.
pub open spec fn calls_from(s: SimpleWindowState, phase: StartupPhase, outcomes: Seq<bool>) -> Seq<
    WindowCall,
>
    decreases outcomes.len(),
{
    if phase == StartupPhase::Done || outcomes.len() == 0 {
        seq![]
    } else {
        let (p, c) = startup_next(s, phase, outcomes[0]);
        seq![c] + calls_from(s, p, outcomes.drop_first())
    }
}

/// Every call made while applying `s` at startup, with these outcomes.
pub open spec fn startup_calls(s: SimpleWindowState, outcomes: Seq<bool>) -> Seq<WindowCall> {
    seq![WindowCall::SetSize(s.width, s.height)] + calls_from(s, StartupPhase::Sizing, outcomes)
}

/// Applies a loaded record to the window, one call at a time.
pub struct Startup {
    pub state: SimpleWindowState,
    pub phase: StartupPhase,
}

impl Startup {
    /// Starts applying `state`; the first call sets the window's size.
    pub fn new(state: SimpleWindowState) -> (r: (Startup, WindowCall))
        ensures
            r.0.state == state,
            r.0.phase == StartupPhase::Sizing,
            r.1 == WindowCall::SetSize(state.width, state.height),
    {
        (Startup { state, phase: StartupPhase::Sizing }, WindowCall::SetSize(state.width, state.height))
    }

    /// Takes whether the last call succeeded and gives the next one.
    pub fn step(&mut self, succeeded: bool) -> (c: WindowCall)
        requires
            old(self).phase != StartupPhase::Done,
        ensures
            final(self).state == old(self).state,
            (final(self).phase, c) == startup_next(old(self).state, old(self).phase, succeeded),
    {
        let (p, c) = match self.phase {
            StartupPhase::Sizing => if self.state.has_position() {
                (StartupPhase::Positioning, WindowCall::SetPosition(self.state.x, self.state.y))
            } else {
                (StartupPhase::Centering, WindowCall::Center)
            },
            StartupPhase::Positioning => if succeeded {
                (StartupPhase::Done, WindowCall::Finish)
            } else {
                (StartupPhase::Centering, WindowCall::Center)
            },
            _ => (StartupPhase::Done, WindowCall::Finish),
        };
        self.phase = p;
        c
    }
}

/// A record without a position centres the window and never places it: the
/// calls are a resize, a centring and the end, whatever each call returns.
pub proof fn lemma_unset_position_centers(s: SimpleWindowState, outcomes: Seq<bool>)
    requires
        !s.spec_has_position(),
    ensures
        forall|i: int| 0 <= i < startup_calls(s, outcomes).len() ==> !(#[trigger] startup_calls(
            s,
            outcomes,
        )[i] is SetPosition),
        outcomes.len() >= 2 ==> startup_calls(s, outcomes) == seq![
            WindowCall::SetSize(s.width, s.height),
            WindowCall::Center,
            WindowCall::Finish,
        ],
{
    let calls = startup_calls(s, outcomes);
    if outcomes.len() == 0 {
        assert(calls =~= seq![WindowCall::SetSize(s.width, s.height)]);
    } else if outcomes.len() == 1 {
        let rest = outcomes.drop_first();
        assert(calls_from(s, StartupPhase::Centering, rest) =~= seq![]);
        assert(calls =~= seq![WindowCall::SetSize(s.width, s.height), WindowCall::Center]);
    } else {
        let rest = outcomes.drop_first();
        let rest2 = rest.drop_first();
        assert(calls_from(s, StartupPhase::Done, rest2) =~= seq![]);
        assert(calls_from(s, StartupPhase::Centering, rest) =~= seq![WindowCall::Finish]);
        assert(calls =~= seq![
            WindowCall::SetSize(s.width, s.height),
            WindowCall::Center,
            WindowCall::Finish,
        ]);
    }
}

/// A record with a position whose placement fails falls back to centring, and
/// centres exactly once: the calls are a resize, the placement, one centring
/// and the end.
pub proof fn lemma_failed_placement_centers_once(s: SimpleWindowState, outcomes: Seq<bool>)
    requires
        s.spec_has_position(),
        outcomes.len() >= 3,
        !outcomes[1],
    ensures
        startup_calls(s, outcomes) == seq![
            WindowCall::SetSize(s.width, s.height),
            WindowCall::SetPosition(s.x, s.y),
            WindowCall::Center,
            WindowCall::Finish,
        ],
{
    let r1 = outcomes.drop_first();
    let r2 = r1.drop_first();
    let r3 = r2.drop_first();
    assert(r1[0] == outcomes[1]);
    assert(calls_from(s, StartupPhase::Done, r3) =~= seq![]);
    assert(calls_from(s, StartupPhase::Centering, r2) =~= seq![WindowCall::Finish]);
    assert(calls_from(s, StartupPhase::Positioning, r1) =~= seq![
        WindowCall::Center,
        WindowCall::Finish,
    ]);
    assert(startup_calls(s, outcomes) =~= seq![
        WindowCall::SetSize(s.width, s.height),
        WindowCall::SetPosition(s.x, s.y),
        WindowCall::Center,
        WindowCall::Finish,
    ]);
}

/// The record to save when the window closes: none where its size could not
/// be read; else its size and position, with no position (the window is then
/// centred on the next start) where the position could not be read.
pub open spec fn closing_state(size: Option<(u32, u32)>, position: Option<(i32, i32)>) -> Option<
    SimpleWindowState,
> {
    match size {
        None => None,
        Some((w, h)) => match position {
            Some((x, y)) => Some(SimpleWindowState { width: w, height: h, x, y }),
            None => Some(SimpleWindowState { width: w, height: h, x: -1i32, y: -1i32 }),
        },
    }
}

/// The record to save when the window closes, from what reading its inner
/// size and inner position gave; `None` means that nothing is saved.
pub fn state_on_close(size: Option<(u32, u32)>, position: Option<(i32, i32)>) -> (r: Option<
    SimpleWindowState,
>)
    ensures
        r == closing_state(size, position),
        size is None ==> r is None,
{
    match size {
        None => None,
        Some((w, h)) => match position {
            Some((x, y)) => Some(SimpleWindowState { width: w, height: h, x, y }),
            None => Some(SimpleWindowState { width: w, height: h, x: -1, y: -1 }),
        },
    }
}

} // verus!
