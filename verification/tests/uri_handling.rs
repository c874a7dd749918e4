use customsource::element::CustomSource;
use customsource::errors::SourceError;
use customsource::laws::{access_after_construction, access_before_construction, uri_round_trip};

fn built() -> CustomSource {
    let mut s = CustomSource::new();
    s.constructed().expect("construction");
    s
}

#[test]
fn construction_gates_property_and_uri_access() {
    let mut s = CustomSource::new();
    assert_eq!(s.set_location(String::from("/tmp/a")), Err(SourceError::Precondition));
    assert_eq!(s.location(), Err(SourceError::Precondition));
    assert_eq!(s.uri(), Err(SourceError::Precondition));
    assert_eq!(s.set_uri("file:///tmp/a"), Err(SourceError::Precondition));

    s.constructed().expect("construction");
    assert_eq!(s.set_location(String::from("/tmp/a")), Ok(()));
    assert_eq!(s.location(), Ok(Some(String::from("/tmp/a"))));
    assert_eq!(s.uri(), Ok(Some(String::from("file:///tmp/a"))));
    assert_eq!(s.set_uri("file:///tmp/b"), Ok(()));
}

#[test]
fn construction_runs_once() {
    let mut s = CustomSource::new();
    assert_eq!(s.constructed(), Ok(()));
    assert_eq!(s.constructed(), Err(SourceError::Construction));
}

#[test]
fn uri_without_location_is_none() {
    let s = built();
    assert_eq!(s.uri(), Ok(None));
}

#[test]
fn set_uri_stores_the_decoded_path() {
    let mut s = built();
    assert_eq!(s.set_uri("file:///tmp/media%20file.bin"), Ok(()));
    assert_eq!(s.location(), Ok(Some(String::from("/tmp/media file.bin"))));
    assert_eq!(s.uri(), Ok(Some(String::from("file:///tmp/media%20file.bin"))));
}

#[test]
fn scheme_rejection_leaves_location_untouched() {
    let mut s = built();
    assert_eq!(s.set_location(String::from("/tmp/before")), Ok(()));
    assert_eq!(s.set_uri("http://example/x"), Err(SourceError::BadUri));
    assert_eq!(s.location(), Ok(Some(String::from("/tmp/before"))));
}

#[test]
fn non_file_scheme_is_bad_uri_even_where_a_path_would_resolve() {
    let mut s = built();
    s.set_location(String::from("/tmp/before")).expect("location");
    // url's own conversion would hand back "/x" for these; the element's
    // scheme test refuses them first, as the original did.
    assert_eq!(s.set_uri("http://localhost/x"), Err(SourceError::BadUri));
    assert_eq!(s.set_uri("foo:/x"), Err(SourceError::BadUri));
    // The test is the literal prefix, so even a capitalized scheme is out.
    assert_eq!(s.set_uri("FILE:///tmp/x"), Err(SourceError::BadUri));
    assert_eq!(s.location(), Ok(Some(String::from("/tmp/before"))));
}

#[test]
fn dot_segments_are_folded_by_the_conversion() {
    // The URL parser folds dot segments away, so a path holding them
    // comes back in a different spelling; the element stores what the
    // conversion returns. This is why the round-trip law's premise
    // admits normalized paths only.
    let mut s = built();
    assert_eq!(s.set_uri("file:///a/../b"), Ok(()));
    assert_eq!(s.location(), Ok(Some(String::from("/b"))));
}

#[test]
fn malformed_uri_is_bad_uri() {
    let mut s = built();
    assert_eq!(s.set_uri("not a uri"), Err(SourceError::BadUri));
    assert_eq!(s.set_uri("file://remotehost/x"), Err(SourceError::BadUri));
    assert_eq!(s.location(), Ok(None));
}

#[test]
fn relative_location_has_no_uri() {
    let mut s = built();
    assert_eq!(s.set_location(String::from("relative/path")), Ok(()));
    assert_eq!(s.uri(), Err(SourceError::BadUri));
}

#[test]
fn access_gate_laws_on_concrete_values() {
    let mut s = CustomSource::new();
    let (set, get, rendered, applied) =
        access_before_construction(&mut s, String::from("/tmp/x"), "file:///tmp/x");
    assert_eq!(set, Err(SourceError::Precondition));
    assert_eq!(get, Err(SourceError::Precondition));
    assert_eq!(rendered, Err(SourceError::Precondition));
    assert_eq!(applied, Err(SourceError::Precondition));

    s.constructed().expect("construction");
    let (got, uri) = access_after_construction(&mut s, String::from("/tmp/x"));
    assert_eq!(got, Ok(Some(String::from("/tmp/x"))));
    assert_eq!(uri, Ok(Some(String::from("file:///tmp/x"))));
}

#[test]
fn round_trip_law_on_a_plain_path() {
    let mut s = built();
    let (set, got) = uri_round_trip(&mut s, "/tmp/clip.mp4");
    assert_eq!(set, "file:///tmp/clip.mp4");
    assert_eq!(got, set);
    assert_eq!(s.location(), Ok(Some(String::from("/tmp/clip.mp4"))));
}

#[test]
fn round_trip_law_on_a_path_needing_encoding() {
    let mut s = built();
    let (set, got) = uri_round_trip(&mut s, "/media/a b/c#d.mkv");
    assert_eq!(set, "file:///media/a%20b/c%23d.mkv");
    assert_eq!(got, set);
    assert_eq!(s.location(), Ok(Some(String::from("/media/a b/c#d.mkv"))));
}
