use buildkit_frontend::cache::{CacheOptionsEntry, CacheType};

#[test]
fn cache_entry_round_trip() {
    let entry = CacheOptionsEntry {
        cache_type: CacheType::Registry,
        attrs: vec![("ref".to_string(), "example.com/repo:tag".to_string())],
    };

    let wire = entry.to_wire();
    assert_eq!(wire.cache_type, "registry");
    assert_eq!(
        wire.attrs,
        vec![("ref".to_string(), "example.com/repo:tag".to_string())]
    );

    let decoded = CacheOptionsEntry::from_wire(&wire).expect("known kind decodes");
    assert_eq!(decoded.cache_type, entry.cache_type);
    assert_eq!(decoded.attrs, entry.attrs);
}

#[test]
fn every_cache_type_round_trips() {
    for cache_type in [CacheType::Local, CacheType::Registry, CacheType::Inline] {
        let entry = CacheOptionsEntry { cache_type, attrs: vec![] };
        let decoded = CacheOptionsEntry::from_wire(&entry.to_wire()).expect("kind decodes");
        assert_eq!(decoded.cache_type, cache_type);
    }
}

#[test]
fn unknown_cache_type_is_rejected() {
    let entry = CacheOptionsEntry {
        cache_type: CacheType::Local,
        attrs: vec![],
    };
    let mut wire = entry.to_wire();
    wire.cache_type = "s3".to_string();
    assert!(CacheOptionsEntry::from_wire(&wire).is_none());
}

#[test]
fn legacy_list_becomes_registry_entries() {
    let entries = CacheOptionsEntry::from_legacy_list(vec![
        "example.com/one:latest".to_string(),
        "example.com/two:latest".to_string(),
    ]);

    assert_eq!(entries.len(), 2);
    for (entry, reference) in entries.iter().zip(["example.com/one:latest", "example.com/two:latest"]) {
        assert_eq!(entry.cache_type, CacheType::Registry);
        assert_eq!(entry.attrs, vec![("ref".to_string(), reference.to_string())]);
    }
}

#[test]
fn cache_type_wire_names() {
    assert_eq!(CacheType::Local.name(), "local");
    assert_eq!(CacheType::Registry.name(), "registry");
    assert_eq!(CacheType::Inline.name(), "inline");
}
