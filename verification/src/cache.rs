//! Cache-import descriptors for a solve request: where the orchestrator may
//! look for pre-existing build cache, and their translation to and from the
//! wire form.

use vstd::prelude::*;

verus! {

/// The kind of an external cache source.
#[derive(Clone, Copy, Debug, PartialEq, Eq, Structural)]
pub enum CacheType {
    Local,
    Registry,
    Inline,
}

/// The wire name of a cache source kind.
pub open spec fn spec_cache_type_name(t: CacheType) -> Seq<char> {
    match t {
        CacheType::Local => "local"@,
        CacheType::Registry => "registry"@,
        CacheType::Inline => "inline"@,
    }
}

/// The cache source kind that a wire name denotes, if any.
pub open spec fn spec_parse_cache_type(s: Seq<char>) -> Option<CacheType> {
    if s == spec_cache_type_name(CacheType::Local) {
        Some(CacheType::Local)
    } else if s == spec_cache_type_name(CacheType::Registry) {
        Some(CacheType::Registry)
    } else if s == spec_cache_type_name(CacheType::Inline) {
        Some(CacheType::Inline)
    } else {
        None
    }
}

impl CacheType {
    /// The wire name of this cache source kind.
    pub fn name(&self) -> (r: String)
        ensures
            r@ == spec_cache_type_name(*self),
    {
        match self {
            CacheType::Local => "local".to_owned(),
            CacheType::Registry => "registry".to_owned(),
            CacheType::Inline => "inline".to_owned(),
        }
    }
}

/// Decoding the wire name of any cache source kind gives that kind back:
/// the kind-name translation loses nothing.
pub proof fn lemma_cache_type_round_trip(t: CacheType)
    ensures
        spec_parse_cache_type(spec_cache_type_name(t)) == Some(t),
{
    reveal_strlit("local");
    reveal_strlit("registry");
    reveal_strlit("inline");
    assert("local"@.len() == 5);
    assert("registry"@.len() == 8);
    assert("inline"@.len() == 6);
}

/// A requested external cache source for a solve call: a kind plus a mapping
/// of attribute keys to values, with the keys unique.
#[derive(Clone, Debug)]
pub struct CacheOptionsEntry {
    pub cache_type: CacheType,
    pub attrs: Vec<(String, String)>,
}

/// The wire form of a cache source: the kind as its wire name, the
/// attributes verbatim.
#[derive(Clone, Debug)]
pub struct CacheOptionsEntryWire {
    pub cache_type: String,
    pub attrs: Vec<(String, String)>,
}

/// Copies an attribute list element by element.
fn clone_attrs(attrs: &Vec<(String, String)>) -> (r: Vec<(String, String)>)
    ensures
        r.deep_view() == attrs.deep_view(),
{
    let mut r: Vec<(String, String)> = Vec::new();
    let mut i: usize = 0;
    while i < attrs.len()
        invariant
            i <= attrs.len(),
            r.deep_view() == attrs.deep_view().take(i as int),
        decreases attrs.len() - i,
    {
        let pair = &attrs[i];
        let key = pair.0.clone();
        let value = pair.1.clone();
        let ghost prev = r.deep_view();
        r.push((key, value));
        proof {
            assert(r.deep_view() =~~= prev.push(attrs.deep_view()[i as int]));
            assert(attrs.deep_view().take(i + 1) =~= attrs.deep_view().take(i as int).push(
                attrs.deep_view()[i as int],
            ));
        }
        i = i + 1;
    }
    proof {
        assert(attrs.deep_view().take(attrs.len() as int) =~= attrs.deep_view());
    }
    r
}

/// Whether an attribute list keeps its keys unique.
pub open spec fn attrs_keys_unique(attrs: Seq<(Seq<char>, Seq<char>)>) -> bool {
    forall|i: int, j: int| 0 <= i < j < attrs.len() ==> attrs[i].0 != attrs[j].0
}

impl CacheOptionsEntry {
    /// Attribute keys are unique within one entry.
    pub open spec fn wf(&self) -> bool {
        attrs_keys_unique(self.attrs.deep_view())
    }

    /// Whether `w` is the wire form of `e`: the kind's wire name and the
    /// attributes carried verbatim.
    pub open spec fn encodes(e: CacheOptionsEntry, w: CacheOptionsEntryWire) -> bool {
        &&& w.cache_type@ == spec_cache_type_name(e.cache_type)
        &&& w.attrs.deep_view() == e.attrs.deep_view()
    }

    /// Translates the entry to its wire form.
    pub fn to_wire(&self) -> (w: CacheOptionsEntryWire)
        ensures
            CacheOptionsEntry::encodes(*self, w),
    {
        CacheOptionsEntryWire { cache_type: self.cache_type.name(), attrs: clone_attrs(&self.attrs) }
    }

    /// Reads an entry back out of its wire form. Succeeds exactly when the
    /// wire name denotes a cache source kind; the attributes come back
    /// verbatim.
    pub fn from_wire(w: &CacheOptionsEntryWire) -> (r: Option<CacheOptionsEntry>)
        ensures
            match spec_parse_cache_type(w.cache_type@) {
                Some(t) => r matches Some(e) && e.cache_type == t && e.attrs.deep_view()
                    == w.attrs.deep_view(),
                None => r is None,
            },
    {
        let t: Option<CacheType> = if w.cache_type == "local".to_owned() {
            Some(CacheType::Local)
        } else if w.cache_type == "registry".to_owned() {
            Some(CacheType::Registry)
        } else if w.cache_type == "inline".to_owned() {
            Some(CacheType::Inline)
        } else {
            None
        };
        match t {
            Some(cache_type) => Some(CacheOptionsEntry { cache_type, attrs: clone_attrs(&w.attrs) }),
            None => None,
        }
    }

    /// Translates a legacy list of registry references: each reference
    /// becomes a registry cache source whose single attribute `"ref"` holds
    /// the reference.
    pub fn from_legacy_list(refs: Vec<String>) -> (entries: Vec<CacheOptionsEntry>)
        ensures
            entries.len() == refs.len(),
            forall|i: int|
                0 <= i < refs.len() ==> {
                    &&& (#[trigger] entries[i]).cache_type == CacheType::Registry
                    &&& entries[i].attrs.deep_view() == seq![("ref"@, refs[i]@)]
                    &&& entries[i].wf()
                },
    {
        let mut entries: Vec<CacheOptionsEntry> = Vec::new();
        let mut i: usize = 0;
        while i < refs.len()
            invariant
                i <= refs.len(),
                entries.len() == i,
                forall|k: int|
                    0 <= k < i ==> {
                        &&& (#[trigger] entries[k]).cache_type == CacheType::Registry
                        &&& entries[k].attrs.deep_view() == seq![("ref"@, refs[k]@)]
                        &&& entries[k].wf()
                    },
            decreases refs.len() - i,
        {
            let reference = refs[i].clone();
            let mut attrs: Vec<(String, String)> = Vec::new();
            attrs.push(("ref".to_owned(), reference));
            proof {
                assert(attrs.deep_view() =~= seq![("ref"@, refs[i as int]@)]);
            }
            entries.push(CacheOptionsEntry { cache_type: CacheType::Registry, attrs });
            i = i + 1;
        }
        entries
    }
}

} // verus!
