//! Lifecycle states, transitions, and pad modes.

use vstd::prelude::*;

verus! {

/// The standard four-state lifecycle of an element.
#[derive(Clone, Copy, PartialEq, Eq, Structural, Debug)]
pub enum ElementState {
    Null,
    Ready,
    Paused,
    Playing,
}

/// A host-driven transition between adjacent lifecycle states:
/// `Null -> Ready -> Paused -> Playing` upward, and the reverse for
/// teardown.
#[derive(Clone, Copy, PartialEq, Eq, Structural, Debug)]
pub enum StateChange {
    NullToReady,
    ReadyToPaused,
    PausedToPlaying,
    PlayingToPaused,
    PausedToReady,
    ReadyToNull,
}

impl StateChange {
    /// The state a transition starts from.
    pub open spec fn begins_at(self) -> ElementState {
        match self {
            StateChange::NullToReady => ElementState::Null,
            StateChange::ReadyToPaused => ElementState::Ready,
            StateChange::PausedToPlaying => ElementState::Paused,
            StateChange::PlayingToPaused => ElementState::Playing,
            StateChange::PausedToReady => ElementState::Paused,
            StateChange::ReadyToNull => ElementState::Ready,
        }
    }

    /// The state a transition ends in.
    pub open spec fn ends_at(self) -> ElementState {
        match self {
            StateChange::NullToReady => ElementState::Ready,
            StateChange::ReadyToPaused => ElementState::Paused,
            StateChange::PausedToPlaying => ElementState::Playing,
            StateChange::PlayingToPaused => ElementState::Paused,
            StateChange::PausedToReady => ElementState::Ready,
            StateChange::ReadyToNull => ElementState::Null,
        }
    }

    /// Runtime view of [`Self::begins_at`].
    pub fn begin(self) -> (s: ElementState)
        ensures
            s == self.begins_at(),
    {
        match self {
            StateChange::NullToReady => ElementState::Null,
            StateChange::ReadyToPaused => ElementState::Ready,
            StateChange::PausedToPlaying => ElementState::Paused,
            StateChange::PlayingToPaused => ElementState::Playing,
            StateChange::PausedToReady => ElementState::Paused,
            StateChange::ReadyToNull => ElementState::Ready,
        }
    }

    /// Runtime view of [`Self::ends_at`].
    pub fn end(self) -> (s: ElementState)
        ensures
            s == self.ends_at(),
    {
        match self {
            StateChange::NullToReady => ElementState::Ready,
            StateChange::ReadyToPaused => ElementState::Paused,
            StateChange::PausedToPlaying => ElementState::Playing,
            StateChange::PlayingToPaused => ElementState::Paused,
            StateChange::PausedToReady => ElementState::Ready,
            StateChange::ReadyToNull => ElementState::Null,
        }
    }
}

/// How a pad delivers data. This element serves data in pull mode only.
#[derive(Clone, Copy, PartialEq, Eq, Structural, Debug)]
pub enum PadMode {
    Pull,
    Push,
    Unknown,
}

/// A pipeline event arriving at the output port; the port applies the
/// default handling, it intercepts nothing.
#[derive(Clone, Copy, PartialEq, Eq, Structural, Debug)]
pub enum PadEvent {
    FlushStart,
    FlushStop,
    Reconfigure,
}

} // verus!
