//! The delegating output port: the element's single, stable output.
//!
//! The port holds no data of its own. Every operation is forwarded to
//! whichever child endpoint it currently targets; the owning element
//! resolves the target token back to its child reader and passes the
//! reader in on each call. The port exists before it is bound — its
//! target is set exactly once, during the element's construction — and
//! an unbound port refuses every operation rather than inventing an
//! answer.
//!
//! Every operation is total: each failure is a returned value, never a
//! panic, so a host-side boundary that converts faults into failure
//! values has nothing left to catch.

use vstd::prelude::*;
use crate::errors::{ActivateError, FlowError};
use crate::reader::{read_end, ChildEndpoint, ChildReader};
use crate::states::{PadEvent, PadMode};

verus! {

/// The output pad of the source element; it forwards range reads,
/// activation, and events to its target endpoint.
pub struct DelegatingOutputPort {
    target: Option<ChildEndpoint>,
}

impl DelegatingOutputPort {
    /// Whether the port has been bound to a child endpoint.
    pub closed spec fn is_bound(&self) -> bool {
        self.target is Some
    }

    /// A fresh, unbound port, as it exists before any element instance
    /// is constructed.
    pub fn new() -> (r: Self)
        ensures
            !r.is_bound(),
    {
        DelegatingOutputPort { target: None }
    }

    /// Runtime view of [`Self::is_bound`].
    pub fn bound(&self) -> (b: bool)
        ensures
            b == self.is_bound(),
    {
        self.target.is_some()
    }

    /// Bind the port to a child endpoint. The binding is set exactly
    /// once, at element construction.
    pub fn set_target(&mut self, endpoint: ChildEndpoint)
        requires
            !old(self).is_bound(),
        ensures
            final(self).is_bound(),
    {
        self.target = Some(endpoint);
    }

    /// Force activation in pull mode: this element never delivers a push
    /// stream, so plain activation always attempts pull.
    pub fn activate(&self, child: &mut ChildReader) -> (r: Result<(), ActivateError>)
        ensures
            !self.is_bound() ==> r == Err::<(), ActivateError>(ActivateError::NotLinked)
                && final(child)@ == old(child)@,
            self.is_bound() && old(child)@.media is Some ==> r == Ok::<(), ActivateError>(())
                && final(child)@ == (crate::reader::ChildReaderView {
                active: true,
                ..old(child)@
            }),
            self.is_bound() && old(child)@.media is None ==> r == Err::<(), ActivateError>(
                ActivateError::Refused,
            ) && final(child)@ == old(child)@,
    {
        self.activate_mode(child, PadMode::Pull, true)
    }

    /// Activate or deactivate the targeted endpoint in the given mode.
    /// Pull requests are forwarded; push and unknown modes are refused
    /// with an error naming the unsupported mode.
    pub fn activate_mode(&self, child: &mut ChildReader, mode: PadMode, active: bool) -> (r: Result<
        (),
        ActivateError,
    >)
        ensures
            !(mode is Pull) ==> r == Err::<(), ActivateError>(ActivateError::UnsupportedMode(mode))
                && final(child)@ == old(child)@,
            mode is Pull && !self.is_bound() ==> r == Err::<(), ActivateError>(
                ActivateError::NotLinked,
            ) && final(child)@ == old(child)@,
            mode is Pull && self.is_bound() && active && old(child)@.media is Some ==> r == Ok::<
                (),
                ActivateError,
            >(()) && final(child)@ == (crate::reader::ChildReaderView {
                active: true,
                ..old(child)@
            }),
            mode is Pull && self.is_bound() && active && old(child)@.media is None ==> r == Err::<
                (),
                ActivateError,
            >(ActivateError::Refused) && final(child)@ == old(child)@,
            mode is Pull && self.is_bound() && !active ==> r == Ok::<(), ActivateError>(())
                && final(child)@ == (crate::reader::ChildReaderView {
                active: false,
                ..old(child)@
            }),
    {
        match mode {
            PadMode::Pull => {
                if self.target.is_some() {
                    child.activate_mode(PadMode::Pull, active)
                } else {
                    Err(ActivateError::NotLinked)
                }
            },
            _ => Err(ActivateError::UnsupportedMode(mode)),
        }
    }

    /// Forward a range read to the targeted endpoint, returning a fresh
    /// buffer; the child's flow error, if any, is propagated unchanged.
    pub fn range(&self, child: &ChildReader, offset: u64, size: u32) -> (r: Result<
        Vec<u8>,
        FlowError,
    >)
        ensures
            !self.is_bound() ==> r == Err::<Vec<u8>, FlowError>(FlowError::NotLinked),
            self.is_bound() && (!child@.active || child@.media is None) ==> r == Err::<
                Vec<u8>,
                FlowError,
            >(FlowError::Flushing),
            self.is_bound() ==> (child@.media matches Some(m) ==> {
                &&& child@.active && offset >= m.len() ==> r == Err::<Vec<u8>, FlowError>(
                    FlowError::Eos,
                )
                &&& child@.active && offset < m.len() ==> (r matches Ok(v) && v@ == m.subrange(
                    offset as int,
                    read_end(offset as int, size as int, m.len() as int),
                ))
            }),
    {
        if self.target.is_some() {
            child.range(offset, size)
        } else {
            Err(FlowError::NotLinked)
        }
    }

    /// Forward a fill-in-place range read to the targeted endpoint; the
    /// child's flow error, if any, is propagated unchanged and the
    /// buffer is then untouched.
    pub fn range_fill(&self, child: &ChildReader, offset: u64, buffer: &mut Vec<u8>, size: u32) -> (r:
        Result<(), FlowError>)
        ensures
            !self.is_bound() ==> r == Err::<(), FlowError>(FlowError::NotLinked) && final(buffer)@
                == old(buffer)@,
            self.is_bound() && (!child@.active || child@.media is None) ==> r == Err::<
                (),
                FlowError,
            >(FlowError::Flushing) && final(buffer)@ == old(buffer)@,
            self.is_bound() ==> (child@.media matches Some(m) ==> {
                &&& child@.active && offset >= m.len() ==> r == Err::<(), FlowError>(FlowError::Eos)
                    && final(buffer)@ == old(buffer)@
                &&& child@.active && offset < m.len() ==> r == Ok::<(), FlowError>(())
                    && final(buffer)@ == m.subrange(
                    offset as int,
                    read_end(offset as int, size as int, m.len() as int),
                )
            }),
    {
        if self.target.is_some() {
            child.range_fill(offset, buffer, size)
        } else {
            Err(FlowError::NotLinked)
        }
    }

    /// Handle a pipeline event with the default behavior — no custom
    /// interception: the event is accepted exactly when the port is
    /// wired to an endpoint, and refused (`false`) otherwise.
    pub fn event(&self, _event: PadEvent) -> (r: bool)
        ensures
            r == self.is_bound(),
    {
        self.target.is_some()
    }
}

} // verus!
