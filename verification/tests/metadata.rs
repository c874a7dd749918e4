use customsource::element::{CustomSource, Property};
use customsource::errors::SourceError;
use customsource::meta::{metadata, pad_templates, register, PadDirection, PadPresence};

#[test]
fn element_metadata_fields() {
    let m = metadata();
    assert_eq!(m.long_name, "CustomSource Bin");
    assert_eq!(m.classification, "Generic");
    assert_eq!(m.description, "Custom source");
    assert_eq!(m.author, "Rodrigo Santos <rsantos@sequence.film>");
}

#[test]
fn one_always_present_source_pad() {
    let templates = pad_templates();
    assert_eq!(templates.len(), 1);
    assert_eq!(templates[0].name, "src");
    assert_eq!(templates[0].direction, PadDirection::Src);
    assert_eq!(templates[0].presence, PadPresence::Always);
}

#[test]
fn registration_outranks_the_base() {
    let r = register(256);
    assert_eq!(r.element_name, "customsource");
    assert_eq!(r.rank, 257);
}

#[test]
fn file_is_the_only_protocol() {
    let protocols = CustomSource::protocols();
    assert_eq!(protocols.len(), 1);
    assert_eq!(protocols[0], "file");
}

#[test]
fn property_dispatch_is_closed_over_location() {
    let list = CustomSource::properties();
    assert_eq!(list, vec![Property::Location]);

    let mut s = CustomSource::new();
    assert_eq!(
        s.set_property(Property::Location, String::from("/tmp/a")),
        Err(SourceError::Precondition)
    );
    s.constructed().expect("construction");
    assert_eq!(s.set_property(Property::Location, String::from("/tmp/a")), Ok(()));
    assert_eq!(s.property(Property::Location), Ok(Some(String::from("/tmp/a"))));

    let fresh = CustomSource::new();
    assert_eq!(fresh.property(Property::Location), Err(SourceError::Precondition));
}
