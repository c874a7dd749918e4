//! End-to-end laws of the element, proved from the public contracts.

use vstd::prelude::*;
use vstd::pervasive::unreached;
use crate::element::{CustomSource, CustomSourceView};
use crate::errors::{SourceError, StateChangeError};
use crate::states::{ElementState, StateChange};
use crate::uri::{file_uri_of_path, is_normalized_path, path_of_file_uri, path_to_file_uri};

verus! {

/// Law: construction guards access — the refusing half. Before
/// construction has completed, every property access and both URI
/// operations report a precondition error and leave the element
/// untouched, whatever their arguments. The returned tuple holds the
/// four outcomes, in call order: set location, read location, read
/// URI, set URI.
pub fn access_before_construction(source: &mut CustomSource, location: String, uri: &str) -> (r: (
    Result<(), SourceError>,
    Result<Option<String>, SourceError>,
    Result<Option<String>, SourceError>,
    Result<(), SourceError>,
))
    requires
        !old(source)@.built,
    ensures
        r.0 == Err::<(), SourceError>(SourceError::Precondition),
        r.1 == Err::<Option<String>, SourceError>(SourceError::Precondition),
        r.2 == Err::<Option<String>, SourceError>(SourceError::Precondition),
        r.3 == Err::<(), SourceError>(SourceError::Precondition),
        final(source)@ == old(source)@,
{
    let set = source.set_location(location);
    let get = source.location();
    let rendered = source.uri();
    let applied = source.set_uri(uri);
    (set, get, rendered, applied)
}

/// Law: construction guards access — the opening. Once construction has
/// completed, the same calls go through: a normalized absolute path is
/// accepted as the location, reading the property yields it back, and
/// the URI read renders it as a `file` URI. The returned pair holds
/// the location read back and the URI read.
pub fn access_after_construction(source: &mut CustomSource, location: String) -> (r: (
    Result<Option<String>, SourceError>,
    Result<Option<String>, SourceError>,
))
    requires
        old(source)@.built,
        is_normalized_path(location@),
    ensures
        final(source)@ == (CustomSourceView { location: Some(location@), ..old(source)@ }),
        r.0 matches Ok(l) && (l matches Some(p) && p@ == location@),
        r.1 matches Ok(u) && (u matches Some(s) && Some(s@) == file_uri_of_path(location@)),
{
    let rendering_exists = path_to_file_uri(location.as_str());
    proof {
        assert(rendering_exists is Some);
    }
    let applied = source.set_location(location);
    proof {
        assert(applied is Ok);
    }
    let got = source.location();
    let rendered = source.uri();
    (got, rendered)
}

/// Law: URI round trip. On any built element, a normalized absolute
/// path `p` ([`is_normalized_path`]) rendered as a `file` URI and
/// applied through `set_uri` stores exactly `p` as the location, and
/// `uri()` then renders the same URI again. The returned pair is (the
/// URI that was set, the URI read back); the contract states that the
/// rendering succeeds, that both URIs agree, and that the element's
/// location afterwards is exactly `p`, everything else untouched.
pub fn uri_round_trip(source: &mut CustomSource, p: &str) -> (r: (String, String))
    requires
        old(source)@.built,
        is_normalized_path(p@),
    ensures
        file_uri_of_path(p@) == Some(r.0@),
        path_of_file_uri(r.0@) == Some(p@),
        final(source)@ == (CustomSourceView { location: Some(p@), ..old(source)@ }),
        r.1@ == r.0@,
{
    let set_uri = match path_to_file_uri(p) {
        Some(u) => u,
        None => unreached(),
    };
    let applied = source.set_uri(set_uri.as_str());
    proof {
        assert(applied is Ok);
    }
    let read_back = match source.uri() {
        Ok(Some(u)) => u,
        _ => unreached(),
    };
    (set_uri, read_back)
}

/// Law: state-transition propagation. A built, wired element driven
/// `Null -> Ready -> Paused -> Playing` reaches `Playing` with every
/// step succeeding exactly when media has been supplied; without media
/// the run fails at the step that carries pull activation, the element
/// stays in `Ready`, and the failure is reported rather than papered
/// over. The returned triple holds the three step results in order.
pub fn startup_propagation(source: &mut CustomSource) -> (r: (
    Result<(), StateChangeError>,
    Result<(), StateChangeError>,
    Result<(), StateChangeError>,
))
    requires
        old(source).wf(),
        old(source)@.built,
        old(source)@.stage == ElementState::Null,
    ensures
        old(source)@.media is Some ==> {
            &&& r.0 is Ok && r.1 is Ok && r.2 is Ok
            &&& final(source)@ == (CustomSourceView {
                active: true,
                stage: ElementState::Playing,
                ..old(source)@
            })
        },
        old(source)@.media is None ==> {
            &&& r.0 is Ok && r.1 is Err && r.2 is Err
            &&& final(source)@ == (CustomSourceView { stage: ElementState::Ready, ..old(source)@ })
        },
{
    let first = source.change_state(StateChange::NullToReady);
    let second = source.change_state(StateChange::ReadyToPaused);
    let third = source.change_state(StateChange::PausedToPlaying);
    (first, second, third)
}

} // verus!
