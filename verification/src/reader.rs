//! The wrapped byte-range reader: the single internal child of the
//! composite element.
//!
//! The child holds the configured path and, once the host has supplied
//! them, the bytes that path names; it serves fixed-size range reads at
//! arbitrary offsets in pull mode. Reading the path's bytes off the disk
//! is the host's work; the child's own logic — gating on activation,
//! end-of-stream detection, and cutting the requested window out of the
//! stream — is all here.

use vstd::prelude::*;
use crate::errors::{ActivateError, FlowError, StateChangeError};
use crate::states::{ElementState, PadMode, StateChange};

verus! {

/// A token naming the child's output endpoint. The delegating port holds
/// one as its non-owning target; the element that owns the child resolves
/// it back to the child on every delegated call.
#[derive(Clone, Copy, PartialEq, Eq, Structural, Debug)]
pub struct ChildEndpoint;

/// The mathematical content of a [`ChildReader`].
pub ghost struct ChildReaderView {
    /// The configured path, if one was set.
    pub path: Option<Seq<char>>,
    /// The bytes the configured path names, once supplied.
    pub media: Option<Seq<u8>>,
    /// Whether the reader is activated for pull-mode reads.
    pub active: bool,
    /// The reader's position in the four-state lifecycle.
    pub stage: ElementState,
}

/// The byte-range file reader wrapped by the source element.
pub struct ChildReader {
    path: Option<String>,
    media: Option<Vec<u8>>,
    active: bool,
    stage: ElementState,
}

impl View for ChildReader {
    type V = ChildReaderView;

    closed spec fn view(&self) -> ChildReaderView {
        ChildReaderView {
            path: match self.path {
                Some(p) => Some(p@),
                None => None,
            },
            media: match self.media {
                Some(m) => Some(m@),
                None => None,
            },
            active: self.active,
            stage: self.stage,
        }
    }
}

/// Where a range read of `size` bytes at `offset` ends in a stream of
/// `len` bytes: at `offset + size`, or at the end of the stream if that
/// comes first.
pub open spec fn read_end(offset: int, size: int, len: int) -> int {
    if offset + size <= len {
        offset + size
    } else {
        len
    }
}

impl ChildReader {
    /// A fresh reader with the fixed default configuration: no path, no
    /// media, not activated, in the `Null` state.
    pub fn new() -> (r: Self)
        ensures
            r@ == (ChildReaderView {
                path: None,
                media: None,
                active: false,
                stage: ElementState::Null,
            }),
    {
        ChildReader { path: None, media: None, active: false, stage: ElementState::Null }
    }

    /// Configure the path. The reader accepts any path; whether it names
    /// a readable file shows only when media is supplied and activation
    /// is attempted.
    pub fn set_path(&mut self, path: String)
        ensures
            final(self)@ == (ChildReaderView { path: Some(path@), ..old(self)@ }),
    {
        self.path = Some(path);
    }

    /// The currently configured path, if any.
    pub fn get_path(&self) -> (r: Option<String>)
        ensures
            match r {
                Some(p) => self@.path == Some(p@),
                None => self@.path is None,
            },
    {
        match &self.path {
            Some(p) => Some(p.clone()),
            None => None,
        }
    }

    /// Stands in for opening the configured file: the host hands the
    /// reader the bytes the configured path names. Until this happens,
    /// activation fails, as it would on a path that cannot be opened.
    pub fn supply_media(&mut self, bytes: Vec<u8>)
        ensures
            final(self)@ == (ChildReaderView { media: Some(bytes@), ..old(self)@ }),
    {
        self.media = Some(bytes);
    }

    /// The reader's output endpoint, for a port to target.
    pub fn endpoint(&self) -> ChildEndpoint {
        ChildEndpoint
    }

    /// Activate or deactivate the reader for the given delivery mode.
    /// Only pull mode is understood; pull activation succeeds exactly
    /// when media is available, and deactivation always succeeds.
    pub fn activate_mode(&mut self, mode: PadMode, active: bool) -> (r: Result<
        (),
        ActivateError,
    >)
        ensures
            !(mode is Pull) ==> r == Err::<(), ActivateError>(
                ActivateError::UnsupportedMode(mode),
            ) && final(self)@ == old(self)@,
            mode is Pull && active && old(self)@.media is Some ==> r == Ok::<(), ActivateError>(())
                && final(self)@ == (ChildReaderView { active: true, ..old(self)@ }),
            mode is Pull && active && old(self)@.media is None ==> r == Err::<(), ActivateError>(
                ActivateError::Refused,
            ) && final(self)@ == old(self)@,
            mode is Pull && !active ==> r == Ok::<(), ActivateError>(()) && final(self)@ == (
            ChildReaderView { active: false, ..old(self)@ }),
    {
        match mode {
            PadMode::Pull => {
                if active {
                    if self.media.is_some() {
                        self.active = true;
                        Ok(())
                    } else {
                        Err(ActivateError::Refused)
                    }
                } else {
                    self.active = false;
                    Ok(())
                }
            },
            _ => Err(ActivateError::UnsupportedMode(mode)),
        }
    }

    /// The reader's position in the lifecycle, at runtime.
    pub fn current_stage(&self) -> (s: ElementState)
        ensures
            s == self@.stage,
    {
        self.stage
    }

    /// Move one step through the lifecycle. The step must start from the
    /// reader's current state; anything else is refused unchanged.
    pub fn transition(&mut self, t: StateChange) -> (r: Result<(), StateChangeError>)
        ensures
            old(self)@.stage == t.begins_at() ==> r == Ok::<(), StateChangeError>(())
                && final(self)@ == (ChildReaderView { stage: t.ends_at(), ..old(self)@ }),
            old(self)@.stage != t.begins_at() ==> r == Err::<(), StateChangeError>(
                StateChangeError,
            ) && final(self)@ == old(self)@,
    {
        if self.stage == t.begin() {
            self.stage = t.end();
            Ok(())
        } else {
            Err(StateChangeError)
        }
    }

    /// Read `size` bytes at `offset` into a fresh buffer. An inactive
    /// reader is flushing; an offset at or past the end of the stream is
    /// end-of-stream; a read over the tail returns the available
    /// remainder.
    pub fn range(&self, offset: u64, size: u32) -> (r: Result<Vec<u8>, FlowError>)
        ensures
            !self@.active || self@.media is None ==> r == Err::<Vec<u8>, FlowError>(
                FlowError::Flushing,
            ),
            self@.media matches Some(m) ==> {
                &&& self@.active && offset >= m.len() ==> r == Err::<Vec<u8>, FlowError>(
                    FlowError::Eos,
                )
                &&& self@.active && offset < m.len() ==> (r matches Ok(v) && v@ == m.subrange(
                    offset as int,
                    read_end(offset as int, size as int, m.len() as int),
                ))
            },
    {
        if !self.active {
            return Err(FlowError::Flushing);
        }
        match &self.media {
            None => Err(FlowError::Flushing),
            Some(m) => {
                let len: usize = m.len();
                if offset >= len as u64 {
                    return Err(FlowError::Eos);
                }
                let start: usize = offset as usize;
                let avail: usize = len - start;
                let take: usize = if (size as usize) <= avail {
                    size as usize
                } else {
                    avail
                };
                let mut out: Vec<u8> = Vec::new();
                let mut i: usize = 0;
                while i < take
                    invariant
                        take <= len - start,
                        start < len,
                        i <= take,
                        len == m@.len(),
                        out@ == m@.subrange(start as int, start + i),
                    decreases take - i,
                {
                    out.push(m[start + i]);
                    proof {
                        assert(out@ =~= m@.subrange(start as int, start + i + 1));
                    }
                    i = i + 1;
                }
                proof {
                    assert(out@ =~= m@.subrange(
                        offset as int,
                        read_end(offset as int, size as int, m@.len() as int),
                    ));
                }
                Ok(out)
            },
        }
    }

    /// Read `size` bytes at `offset` into the caller-owned buffer, which
    /// afterwards holds exactly the bytes read. Failure conditions match
    /// [`Self::range`]; on failure the buffer is untouched.
    pub fn range_fill(&self, offset: u64, buffer: &mut Vec<u8>, size: u32) -> (r: Result<
        (),
        FlowError,
    >)
        ensures
            !self@.active || self@.media is None ==> r == Err::<(), FlowError>(FlowError::Flushing)
                && final(buffer)@ == old(buffer)@,
            self@.media matches Some(m) ==> {
                &&& self@.active && offset >= m.len() ==> r == Err::<(), FlowError>(FlowError::Eos)
                    && final(buffer)@ == old(buffer)@
                &&& self@.active && offset < m.len() ==> r == Ok::<(), FlowError>(())
                    && final(buffer)@ == m.subrange(
                    offset as int,
                    read_end(offset as int, size as int, m.len() as int),
                )
            },
    {
        match self.range(offset, size) {
            Ok(bytes) => {
                *buffer = bytes;
                Ok(())
            },
            Err(e) => Err(e),
        }
    }
}

} // verus!
