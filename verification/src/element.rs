//! The composite source element: construction, the `location` property,
//! the host-driven state machine, the pad surface, and the URI handler.

use vstd::prelude::*;
use crate::errors::{ActivateError, FlowError, SourceError, StateChangeError};
use crate::port::DelegatingOutputPort;
use crate::reader::{read_end, ChildReader};
use crate::states::{ElementState, PadEvent, PadMode, StateChange};
use crate::uri::{
    begins_with_file_scheme, file_uri_of_path, file_uri_to_path, has_file_scheme,
    path_of_file_uri, path_to_file_uri,
};

verus! {

/// The built internal data: the owned child reader. Present exactly
/// when construction has completed successfully; the output port is
/// bound to the child's endpoint in the same step and never re-wired.
pub struct InternalState {
    child: ChildReader,
}

/// The mathematical content of a [`CustomSource`].
pub ghost struct CustomSourceView {
    /// Whether construction completed successfully.
    pub built: bool,
    /// Whether the output port is bound to the child's endpoint.
    pub port_bound: bool,
    /// The configured location — the child's path — once built.
    pub location: Option<Seq<char>>,
    /// The media bytes the child holds, once the host supplied them.
    pub media: Option<Seq<u8>>,
    /// Whether the child is activated for pull-mode reads.
    pub active: bool,
    /// The element's position in the four-state lifecycle.
    pub stage: ElementState,
}

/// The closed set of properties the element exposes; dispatching over
/// it is exhaustive, so a misnamed property cannot silently vanish.
#[derive(Clone, Copy, PartialEq, Eq, Structural, Debug)]
pub enum Property {
    /// The string-valued file location, mirroring the child's path.
    Location,
}

/// The source element: a composite that owns one [`ChildReader`],
/// publishes one delegating output port, answers `file`-scheme URI
/// requests, and forwards every lifecycle transition to its child.
///
/// Access to the built/not-built internal state is exclusive: every
/// mutating operation takes `&mut self`, so a host whose streaming
/// thread is distinct from its control thread guards the element with
/// one lock, exactly as wide as each call.
pub struct CustomSource {
    state: Option<InternalState>,
    port: DelegatingOutputPort,
}

impl View for CustomSource {
    type V = CustomSourceView;

    closed spec fn view(&self) -> CustomSourceView {
        match self.state {
            Some(st) => CustomSourceView {
                built: true,
                port_bound: self.port.is_bound(),
                location: st.child@.path,
                media: st.child@.media,
                active: st.child@.active,
                stage: st.child@.stage,
            },
            None => CustomSourceView {
                built: false,
                port_bound: self.port.is_bound(),
                location: None,
                media: None,
                active: false,
                stage: ElementState::Null,
            },
        }
    }
}

impl CustomSource {
    /// The structural invariant: once built, the output port is bound,
    /// and stays so for the element's lifetime. Every constructor and
    /// method preserves it.
    pub open spec fn wf(&self) -> bool {
        self@.built ==> self@.port_bound
    }

    /// A fresh element on which construction has not yet run: no state,
    /// an unbound port. Every property and URI access on it reports a
    /// precondition error until [`Self::constructed`] succeeds.
    pub fn new() -> (r: Self)
        ensures
            r@ == (CustomSourceView {
                built: false,
                port_bound: false,
                location: None,
                media: None,
                active: false,
                stage: ElementState::Null,
            }),
            r.wf(),
    {
        CustomSource { state: None, port: DelegatingOutputPort::new() }
    }

    /// The construction protocol, run once per element: build the child
    /// reader with its default configuration, bind the output port to
    /// the child's endpoint, and only then publish the internal state.
    /// Until it succeeds the element reports itself unusable; a second
    /// run is refused and changes nothing.
    pub fn constructed(&mut self) -> (r: Result<(), SourceError>)
        ensures
            old(self)@.built || old(self)@.port_bound ==> r == Err::<(), SourceError>(
                SourceError::Construction,
            ) && final(self)@ == old(self)@,
            !old(self)@.built && !old(self)@.port_bound ==> r == Ok::<(), SourceError>(())
                && final(self)@ == (CustomSourceView {
                built: true,
                port_bound: true,
                location: None,
                media: None,
                active: false,
                stage: ElementState::Null,
            }),
    {
        if self.state.is_some() || self.port.bound() {
            return Err(SourceError::Construction);
        }
        let child = ChildReader::new();
        let endpoint = child.endpoint();
        self.port.set_target(endpoint);
        self.state = Some(InternalState { child });
        Ok(())
    }

    /// Set the `location` property. The element must be built; before
    /// that the call reports a precondition error and changes nothing.
    /// Otherwise the path is forwarded to the child's own configuration,
    /// whose validation is the child's business, not repeated here.
    pub fn set_location(&mut self, location: String) -> (r: Result<(), SourceError>)
        ensures
            !old(self)@.built ==> r == Err::<(), SourceError>(SourceError::Precondition) && final(self)@ == old(self)@,
            old(self)@.built ==> r == Ok::<(), SourceError>(()) && final(self)@ == (
            CustomSourceView { location: Some(location@), ..old(self)@ }),
    {
        match &mut self.state {
            None => Err(SourceError::Precondition),
            Some(st) => {
                st.child.set_path(location);
                Ok(())
            },
        }
    }

    /// Read the `location` property. The element must be built; before
    /// that the call reports a precondition error.
    pub fn location(&self) -> (r: Result<Option<String>, SourceError>)
        ensures
            !self@.built ==> r == Err::<Option<String>, SourceError>(SourceError::Precondition),
            self@.built ==> (r matches Ok(l) && match l {
                Some(s) => self@.location == Some(s@),
                None => self@.location is None,
            }),
    {
        match &self.state {
            None => Err(SourceError::Precondition),
            Some(st) => Ok(st.child.get_path()),
        }
    }

    /// The element's property list: exactly the members of [`Property`].
    pub fn properties() -> (r: Vec<Property>)
        ensures
            r@ == seq![Property::Location],
    {
        let mut v: Vec<Property> = Vec::new();
        v.push(Property::Location);
        proof {
            assert(v@ =~= seq![Property::Location]);
        }
        v
    }

    /// Set a property by its tag; the dispatch is exhaustive over the
    /// closed property set.
    pub fn set_property(&mut self, property: Property, value: String) -> (r: Result<
        (),
        SourceError,
    >)
        ensures
            !old(self)@.built ==> r == Err::<(), SourceError>(SourceError::Precondition) && final(self)@ == old(self)@,
            old(self)@.built && property is Location ==> r == Ok::<(), SourceError>(()) && final(self)@ == (CustomSourceView { location: Some(value@), ..old(self)@ }),
    {
        match property {
            Property::Location => self.set_location(value),
        }
    }

    /// Read a property by its tag; the dispatch is exhaustive over the
    /// closed property set.
    pub fn property(&self, property: Property) -> (r: Result<Option<String>, SourceError>)
        ensures
            !self@.built ==> r == Err::<Option<String>, SourceError>(SourceError::Precondition),
            self@.built && property is Location ==> (r matches Ok(l) && match l {
                Some(s) => self@.location == Some(s@),
                None => self@.location is None,
            }),
    {
        match property {
            Property::Location => self.location(),
        }
    }

    /// Stand-in for opening the configured file: the host reads the
    /// bytes the location names and hands them to the element, which
    /// forwards them to its child. Until media is supplied, activation
    /// — and with it the transition into `Paused` — fails, as it would
    /// on a path that cannot be opened.
    pub fn supply_media(&mut self, bytes: Vec<u8>) -> (r: Result<(), SourceError>)
        ensures
            !old(self)@.built ==> r == Err::<(), SourceError>(SourceError::Precondition) && final(self)@ == old(self)@,
            old(self)@.built ==> r == Ok::<(), SourceError>(()) && final(self)@ == (
            CustomSourceView { media: Some(bytes@), ..old(self)@ }),
    {
        match &mut self.state {
            None => Err(SourceError::Precondition),
            Some(st) => {
                st.child.supply_media(bytes);
                Ok(())
            },
        }
    }

    /// Forward a host-driven transition through the standard composite
    /// propagation: the pad work where the transition carries it — pull
    /// activation entering `Paused`, deactivation leaving it — and then
    /// the child's own lifecycle step. Every transition propagates;
    /// none is special-cased away, and a child that cannot reach the
    /// requested state surfaces the failure unchanged.
    pub fn change_state(&mut self, transition: StateChange) -> (r: Result<(), StateChangeError>)
        ensures
            !old(self)@.built ==> r is Err && final(self)@ == old(self)@,
            old(self)@.built && old(self)@.stage != transition.begins_at() ==> r is Err && final(self)@ == old(self)@,
            old(self)@.built && old(self)@.stage == transition.begins_at() ==> {
                &&& transition is ReadyToPaused ==> {
                    &&& old(self)@.port_bound && old(self)@.media is Some ==> r is Ok && final(self)@ == (CustomSourceView {
                        active: true,
                        stage: ElementState::Paused,
                        ..old(self)@
                    })
                    &&& !(old(self)@.port_bound && old(self)@.media is Some) ==> r is Err && final(self)@ == old(self)@
                }
                &&& transition is PausedToReady ==> {
                    &&& old(self)@.port_bound ==> r is Ok && final(self)@ == (CustomSourceView {
                        active: false,
                        stage: ElementState::Ready,
                        ..old(self)@
                    })
                    &&& !old(self)@.port_bound ==> r is Err && final(self)@ == old(self)@
                }
                &&& !(transition is ReadyToPaused) && !(transition is PausedToReady) ==> r is Ok
                    && final(self)@ == (CustomSourceView {
                    stage: transition.ends_at(),
                    ..old(self)@
                })
            },
    {
        match &mut self.state {
            None => Err(StateChangeError),
            Some(st) => {
                if !(st.child.current_stage() == transition.begin()) {
                    return Err(StateChangeError);
                }
                match transition {
                    StateChange::ReadyToPaused => {
                        match self.port.activate(&mut st.child) {
                            Ok(()) => st.child.transition(transition),
                            Err(_) => Err(StateChangeError),
                        }
                    },
                    StateChange::PausedToReady => {
                        match self.port.activate_mode(&mut st.child, PadMode::Pull, false) {
                            Ok(()) => st.child.transition(transition),
                            Err(_) => Err(StateChangeError),
                        }
                    },
                    _ => st.child.transition(transition),
                }
            },
        }
    }

    /// Plain pad activation: pull mode is forced, since this element
    /// never delivers a push stream.
    pub fn activate(&mut self) -> (r: Result<(), ActivateError>)
        ensures
            !old(self)@.built || !old(self)@.port_bound ==> r == Err::<(), ActivateError>(
                ActivateError::NotLinked,
            ) && final(self)@ == old(self)@,
            old(self)@.built && old(self)@.port_bound && old(self)@.media is Some ==> r == Ok::<
                (),
                ActivateError,
            >(()) && final(self)@ == (CustomSourceView { active: true, ..old(self)@ }),
            old(self)@.built && old(self)@.port_bound && old(self)@.media is None ==> r == Err::<
                (),
                ActivateError,
            >(ActivateError::Refused) && final(self)@ == old(self)@,
    {
        match &mut self.state {
            None => Err(ActivateError::NotLinked),
            Some(st) => self.port.activate(&mut st.child),
        }
    }

    /// Activate or deactivate the pad in the given mode. Pull requests
    /// are forwarded to the child through the port; push and unknown
    /// modes are refused with an error naming the mode, whatever the
    /// element's construction state.
    pub fn activate_mode(&mut self, mode: PadMode, active: bool) -> (r: Result<(), ActivateError>)
        ensures
            !(mode is Pull) ==> r == Err::<(), ActivateError>(ActivateError::UnsupportedMode(mode))
                && final(self)@ == old(self)@,
            mode is Pull && (!old(self)@.built || !old(self)@.port_bound) ==> r == Err::<
                (),
                ActivateError,
            >(ActivateError::NotLinked) && final(self)@ == old(self)@,
            mode is Pull && old(self)@.built && old(self)@.port_bound ==> {
                &&& active && old(self)@.media is Some ==> r is Ok && final(self)@ == (
                CustomSourceView { active: true, ..old(self)@ })
                &&& active && old(self)@.media is None ==> r == Err::<(), ActivateError>(
                    ActivateError::Refused,
                ) && final(self)@ == old(self)@
                &&& !active ==> r is Ok && final(self)@ == (CustomSourceView {
                    active: false,
                    ..old(self)@
                })
            },
    {
        match mode {
            PadMode::Pull => match &mut self.state {
                None => Err(ActivateError::NotLinked),
                Some(st) => self.port.activate_mode(&mut st.child, PadMode::Pull, active),
            },
            _ => Err(ActivateError::UnsupportedMode(mode)),
        }
    }

    /// Pull `size` bytes at `offset` through the port into a fresh
    /// buffer. The child's flow result — end-of-stream past the end,
    /// the tail remainder over it, flushing while inactive — is
    /// propagated unchanged.
    pub fn range(&self, offset: u64, size: u32) -> (r: Result<Vec<u8>, FlowError>)
        ensures
            !self@.built ==> r == Err::<Vec<u8>, FlowError>(FlowError::Flushing),
            self@.built && !self@.port_bound ==> r == Err::<Vec<u8>, FlowError>(
                FlowError::NotLinked,
            ),
            self@.built && self@.port_bound ==> {
                &&& !self@.active || self@.media is None ==> r == Err::<Vec<u8>, FlowError>(
                    FlowError::Flushing,
                )
                &&& self@.media matches Some(m) ==> {
                    &&& self@.active && offset >= m.len() ==> r == Err::<Vec<u8>, FlowError>(
                        FlowError::Eos,
                    )
                    &&& self@.active && offset < m.len() ==> (r matches Ok(v) && v@ == m.subrange(
                        offset as int,
                        read_end(offset as int, size as int, m.len() as int),
                    ))
                }
            },
    {
        match &self.state {
            None => Err(FlowError::Flushing),
            Some(st) => self.port.range(&st.child, offset, size),
        }
    }

    /// Pull `size` bytes at `offset` through the port into the caller's
    /// buffer, which afterwards holds exactly the bytes read; on a flow
    /// error the buffer is untouched.
    pub fn range_fill(&self, offset: u64, buffer: &mut Vec<u8>, size: u32) -> (r: Result<
        (),
        FlowError,
    >)
        ensures
            !self@.built ==> r == Err::<(), FlowError>(FlowError::Flushing) && final(buffer)@
                == old(buffer)@,
            self@.built && !self@.port_bound ==> r == Err::<(), FlowError>(FlowError::NotLinked)
                && final(buffer)@ == old(buffer)@,
            self@.built && self@.port_bound ==> {
                &&& !self@.active || self@.media is None ==> r == Err::<(), FlowError>(
                    FlowError::Flushing,
                ) && final(buffer)@ == old(buffer)@
                &&& self@.media matches Some(m) ==> {
                    &&& self@.active && offset >= m.len() ==> r == Err::<(), FlowError>(
                        FlowError::Eos,
                    ) && final(buffer)@ == old(buffer)@
                    &&& self@.active && offset < m.len() ==> r == Ok::<(), FlowError>(())
                        && final(buffer)@ == m.subrange(
                        offset as int,
                        read_end(offset as int, size as int, m.len() as int),
                    )
                }
            },
    {
        match &self.state {
            None => Err(FlowError::Flushing),
            Some(st) => self.port.range_fill(&st.child, offset, buffer, size),
        }
    }

    /// Handle a pipeline event with the default behavior — no custom
    /// interception: accepted exactly when the element is built and its
    /// port wired, refused (`false`) otherwise.
    pub fn event(&self, event: PadEvent) -> (r: bool)
        ensures
            r == (self@.built && self@.port_bound),
    {
        match &self.state {
            None => false,
            Some(_) => self.port.event(event),
        }
    }

    /// The URI schemes this element answers to: exactly `file`.
    pub fn protocols() -> (r: Vec<String>)
        ensures
            r@.len() == 1,
            r@[0]@ == "file"@,
    {
        let mut v: Vec<String> = Vec::new();
        v.push(String::from_str("file"));
        v
    }

    /// Render the configured location as a `file` URI. The element must
    /// be built; a missing location is `Ok(None)`; a location the URL
    /// machinery cannot represent is reported as `BadUri` rather than
    /// treated as fatal.
    pub fn uri(&self) -> (r: Result<Option<String>, SourceError>)
        ensures
            !self@.built ==> r == Err::<Option<String>, SourceError>(SourceError::Precondition),
            self@.built && self@.location is None ==> r == Ok::<Option<String>, SourceError>(None),
            self@.built ==> (self@.location matches Some(l) ==> {
                &&& file_uri_of_path(l) is Some ==> (r matches Ok(o) && o matches Some(u) && Some(
                    u@,
                ) == file_uri_of_path(l))
                &&& file_uri_of_path(l) is None ==> r == Err::<Option<String>, SourceError>(
                    SourceError::BadUri,
                )
            }),
    {
        match &self.state {
            None => Err(SourceError::Precondition),
            Some(st) => match st.child.get_path() {
                None => Ok(None),
                Some(p) => match path_to_file_uri(p.as_str()) {
                    Some(u) => Ok(Some(u)),
                    None => Err(SourceError::BadUri),
                },
            },
        }
    }

    /// Parse a URI and apply it to the `location` property. The element
    /// must be built. Only the `file` scheme is accepted: a URI that
    /// does not begin `file://` is refused as `BadUri` before any
    /// parsing, as is one that does not resolve to a native path; in
    /// either case the prior location is untouched. Otherwise the
    /// resolved path becomes the new location.
    pub fn set_uri(&mut self, uri: &str) -> (r: Result<(), SourceError>)
        ensures
            !old(self)@.built ==> r == Err::<(), SourceError>(SourceError::Precondition) && final(self)@ == old(self)@,
            old(self)@.built ==> {
                &&& !has_file_scheme(uri@) ==> r == Err::<(), SourceError>(SourceError::BadUri)
                    && final(self)@ == old(self)@
                &&& has_file_scheme(uri@) && path_of_file_uri(uri@) is None ==> r == Err::<
                    (),
                    SourceError,
                >(SourceError::BadUri) && final(self)@ == old(self)@
                &&& has_file_scheme(uri@) ==> (path_of_file_uri(uri@) matches Some(l) ==> r
                    == Ok::<(), SourceError>(()) && final(self)@ == (CustomSourceView {
                    location: Some(l),
                    ..old(self)@
                }))
            },
    {
        if self.state.is_none() {
            return Err(SourceError::Precondition);
        }
        if !begins_with_file_scheme(uri) {
            return Err(SourceError::BadUri);
        }
        match file_uri_to_path(uri) {
            Some(location) => self.set_location(location),
            None => Err(SourceError::BadUri),
        }
    }
}

} // verus!
