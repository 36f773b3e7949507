//! The typed lookup over the orchestrator-supplied key/value environment
//! entries: parsing each entry into a flag, a single value or a value list,
//! and the lookup operations that caller logic drives.

use vstd::prelude::*;

verus! {

/// The position of the first occurrence of `c` in `s`, if any.
pub open spec fn spec_find_char(s: Seq<char>, c: char) -> Option<int>
    decreases s.len(),
{
    if s.len() == 0 {
        None
    } else if s[0] == c {
        Some(0)
    } else {
        match spec_find_char(s.drop_first(), c) {
            Some(i) => Some(i + 1),
            None => None,
        }
    }
}

/// What `spec_find_char` finds: the first occurrence of `c`, or nothing
/// anywhere in `s`.
pub proof fn lemma_find_char(s: Seq<char>, c: char)
    ensures
        match spec_find_char(s, c) {
            Some(i) => 0 <= i < s.len() && s[i] == c && forall|k: int| 0 <= k < i ==> s[k] != c,
            None => forall|k: int| 0 <= k < s.len() ==> s[k] != c,
        },
    decreases s.len(),
{
    if s.len() > 0 && s[0] != c {
        lemma_find_char(s.drop_first(), c);
        let rest = s.drop_first();
        match spec_find_char(rest, c) {
            Some(i) => {
                assert forall|k: int| 0 <= k < i + 1 implies s[k] != c by {
                    if k > 0 {
                        assert(rest[k - 1] != c);
                    }
                }
            },
            None => {
                assert forall|k: int| 0 <= k < s.len() implies s[k] != c by {
                    if k > 0 {
                        assert(rest[k - 1] != c);
                    }
                }
            },
        }
    }
}

/// Whether `s` begins with `p`.
pub open spec fn spec_starts_with(s: Seq<char>, p: Seq<char>) -> bool {
    p.len() <= s.len() && s.subrange(0, p.len() as int) == p
}

/// The pieces of `s` between occurrences of `c`, in order; a string without
/// `c` is one piece, and every occurrence of `c` separates two pieces.
pub open spec fn spec_split_on(s: Seq<char>, c: char) -> Seq<Seq<char>>
    decreases s.len(),
    via spec_split_on_decreases
{
    match spec_find_char(s, c) {
        None => seq![s],
        Some(i) => seq![s.subrange(0, i)] + spec_split_on(s.subrange(i + 1, s.len() as int), c),
    }
}

#[via_fn]
proof fn spec_split_on_decreases(s: Seq<char>, c: char) {
    lemma_find_char(s, c);
}

/// Finds the first occurrence of `c` in `s`.
fn find_char(s: &str, c: char) -> (r: Option<usize>)
    ensures
        match spec_find_char(s@, c) {
            Some(i) => r matches Some(j) && j as int == i,
            None => r is None,
        },
{
    proof {
        lemma_find_char(s@, c);
    }
    let n = s.unicode_len();
    let mut i: usize = 0;
    while i < n
        invariant
            n == s@.len(),
            i <= n,
            forall|k: int| 0 <= k < i ==> s@[k] != c,
            match spec_find_char(s@, c) {
                Some(f) => 0 <= f < s@.len() && s@[f] == c && forall|k: int|
                    0 <= k < f ==> s@[k] != c,
                None => forall|k: int| 0 <= k < s@.len() ==> s@[k] != c,
            },
        decreases n - i,
    {
        if s.get_char(i) == c {
            return Some(i);
        }
        i = i + 1;
    }
    None
}

/// Whether `s` begins with `p`.
fn str_starts_with(s: &str, p: &str) -> (r: bool)
    ensures
        r == spec_starts_with(s@, p@),
{
    let pn = p.unicode_len();
    let sn = s.unicode_len();
    if pn > sn {
        return false;
    }
    let mut i: usize = 0;
    while i < pn
        invariant
            pn == p@.len(),
            sn == s@.len(),
            pn <= sn,
            i <= pn,
            forall|k: int| 0 <= k < i ==> s@[k] == p@[k],
        decreases pn - i,
    {
        if s.get_char(i) != p.get_char(i) {
            proof {
                assert(s@.subrange(0, pn as int)[i as int] != p@[i as int]);
            }
            return false;
        }
        i = i + 1;
    }
    proof {
        assert(s@.subrange(0, pn as int) =~= p@);
    }
    true
}

/// Splits `s` into its pieces between occurrences of `c`.
fn split_on(s: &str, c: char) -> (r: Vec<String>)
    ensures
        r.deep_view() == spec_split_on(s@, c),
    decreases s@.len(),
{
    proof {
        lemma_find_char(s@, c);
    }
    let n = s.unicode_len();
    match find_char(s, c) {
        None => {
            let mut r: Vec<String> = Vec::new();
            r.push(s.to_owned());
            proof {
                assert(r.deep_view() =~~= seq![s@]);
            }
            r
        },
        Some(i) => {
            let head = s.substring_char(0, i).to_owned();
            let tail = s.substring_char(i + 1, n);
            let mut r = split_on(tail, c);
            let ghost prev = r.deep_view();
            r.insert(0, head);
            proof {
                assert(r.deep_view() =~~= seq![s@.subrange(0, i as int)] + prev);
            }
            r
        },
    }
}

/// The parsed form of one option entry's value.
#[derive(Clone, Debug, PartialEq)]
pub enum OptionValue {
    Flag(bool),
    Single(String),
    Multiple(Vec<String>),
}

/// The mathematical form of an option value.
pub enum OptionValueModel {
    Flag(bool),
    Single(Seq<char>),
    Multiple(Seq<Seq<char>>),
}

impl View for OptionValue {
    type V = OptionValueModel;

    open spec fn view(&self) -> OptionValueModel {
        match self {
            OptionValue::Flag(b) => OptionValueModel::Flag(*b),
            OptionValue::Single(s) => OptionValueModel::Single(s@),
            OptionValue::Multiple(vs) => OptionValueModel::Multiple(vs.deep_view()),
        }
    }
}

impl DeepView for OptionValue {
    type V = OptionValueModel;

    open spec fn deep_view(&self) -> OptionValueModel {
        self.view()
    }
}

/// The prefix that marks an environment entry as an option.
pub open spec fn spec_opt_prefix() -> Seq<char> {
    "BUILDKIT_FRONTEND_OPT_"@
}

/// The prefix that marks an option as a build argument; it is stripped.
pub open spec fn spec_build_arg_prefix() -> Seq<char> {
    "build-arg:"@
}

/// An option entry with the build-argument prefix stripped.
pub open spec fn spec_strip_build_arg(s: Seq<char>) -> Seq<char> {
    if spec_starts_with(s, spec_build_arg_prefix()) {
        s.subrange(spec_build_arg_prefix().len() as int, s.len() as int)
    } else {
        s
    }
}

/// The value an option's text after `=` denotes: the words `true` and
/// `false` and the empty text are flags, a comma makes a value list, and
/// anything else is a single value.
pub open spec fn spec_classify_value(v: Seq<char>) -> OptionValueModel {
    if v == "true"@ {
        OptionValueModel::Flag(true)
    } else if v == "false"@ {
        OptionValueModel::Flag(false)
    } else if v.len() == 0 {
        OptionValueModel::Flag(true)
    } else if spec_find_char(v, ',') is Some {
        OptionValueModel::Multiple(spec_split_on(v, ','))
    } else {
        OptionValueModel::Single(v)
    }
}

/// One option entry parsed: the name before the first `=` (after prefix
/// stripping), and the value its remainder denotes; an entry without `=` is
/// a set flag.
pub open spec fn spec_parse_entry(s: Seq<char>) -> (Seq<char>, OptionValueModel) {
    let stripped = spec_strip_build_arg(s);
    match spec_find_char(stripped, '=') {
        None => (stripped, OptionValueModel::Flag(true)),
        Some(i) => (
            stripped.subrange(0, i),
            spec_classify_value(stripped.subrange(i + 1, stripped.len() as int)),
        ),
    }
}

/// Strips the build-argument prefix, if present.
fn strip_build_arg(s: &str) -> (r: String)
    ensures
        r@ == spec_strip_build_arg(s@),
{
    let prefix = "build-arg:";
    if str_starts_with(s, prefix) {
        let pn = prefix.unicode_len();
        s.substring_char(pn, s.unicode_len()).to_owned()
    } else {
        s.to_owned()
    }
}

/// Classifies an option's text after `=`.
fn classify_value(v: String) -> (r: OptionValue)
    ensures
        r@ == spec_classify_value(v@),
{
    if v == "true".to_owned() {
        OptionValue::Flag(true)
    } else if v == "false".to_owned() {
        OptionValue::Flag(false)
    } else if v.as_str().unicode_len() == 0 {
        OptionValue::Flag(true)
    } else {
        match find_char(v.as_str(), ',') {
            Some(_) => OptionValue::Multiple(split_on(v.as_str(), ',')),
            None => OptionValue::Single(v),
        }
    }
}

/// Parses one option entry into its name and value.
fn parse_entry(s: &str) -> (r: (String, OptionValue))
    ensures
        (r.0@, r.1@) == spec_parse_entry(s@),
{
    let stripped = strip_build_arg(s);
    proof {
        lemma_find_char(stripped@, '=');
    }
    match find_char(stripped.as_str(), '=') {
        None => (stripped, OptionValue::Flag(true)),
        Some(i) => {
            let n = stripped.as_str().unicode_len();
            let name = stripped.as_str().substring_char(0, i).to_owned();
            let rest = stripped.as_str().substring_char(i + 1, n).to_owned();
            (name, classify_value(rest))
        },
    }
}

/// Whether an entry list keeps its names unique.
pub open spec fn names_unique(es: Seq<(Seq<char>, OptionValueModel)>) -> bool {
    forall|i: int, j: int| 0 <= i < j < es.len() ==> (#[trigger] es[i]).0 != (#[trigger] es[j]).0
}

/// The mapping an entry list denotes; a later entry for the same name wins.
pub open spec fn spec_entries_model(es: Seq<(Seq<char>, OptionValueModel)>) -> Map<
    Seq<char>,
    OptionValueModel,
>
    decreases es.len(),
{
    if es.len() == 0 {
        Map::empty()
    } else {
        spec_entries_model(es.drop_last()).insert(es.last().0, es.last().1)
    }
}

/// A name is in an entry list's mapping exactly when some entry bears it.
proof fn lemma_model_domain(es: Seq<(Seq<char>, OptionValueModel)>, name: Seq<char>)
    ensures
        spec_entries_model(es).contains_key(name) <==> exists|k: int|
            0 <= k < es.len() && (#[trigger] es[k]).0 == name,
    decreases es.len(),
{
    if es.len() > 0 {
        lemma_model_domain(es.drop_last(), name);
        if es.last().0 == name {
            assert(es[es.len() - 1].0 == name);
        } else if spec_entries_model(es.drop_last()).contains_key(name) {
            let k = choose|k: int| 0 <= k < es.drop_last().len() && (#[trigger] es.drop_last()[
                k
            ]).0 == name;
            assert(es[k].0 == name);
        } else {
            assert forall|k: int| 0 <= k < es.len() implies (#[trigger] es[k]).0 != name by {
                if k < es.len() - 1 {
                    assert(es.drop_last()[k].0 != name);
                }
            }
        }
    }
}

/// With unique names, the mapping gives each entry its own value.
proof fn lemma_model_value(es: Seq<(Seq<char>, OptionValueModel)>, k: int)
    requires
        names_unique(es),
        0 <= k < es.len(),
    ensures
        spec_entries_model(es).contains_key(es[k].0),
        spec_entries_model(es)[es[k].0] == es[k].1,
    decreases es.len(),
{
    if k == es.len() - 1 {
    } else {
        assert forall|i: int, j: int| 0 <= i < j < es.drop_last().len() implies (#[trigger] es.drop_last()[
            i
        ]).0 != (#[trigger] es.drop_last()[j]).0 by {
            assert(es[i].0 != es[j].0);
        }
        lemma_model_value(es.drop_last(), k);
        assert(es.drop_last()[k] == es[k]);
        assert(es[k].0 != es.last().0);
    }
}

/// Replacing the `k`-th entry's value rewrites just that name's mapping.
proof fn lemma_model_update(es: Seq<(Seq<char>, OptionValueModel)>, k: int, v: OptionValueModel)
    requires
        names_unique(es),
        0 <= k < es.len(),
    ensures
        spec_entries_model(es.update(k, (es[k].0, v))) == spec_entries_model(es).insert(
            es[k].0,
            v,
        ),
    decreases es.len(),
{
    let updated = es.update(k, (es[k].0, v));
    if k == es.len() - 1 {
        assert(updated.drop_last() =~= es.drop_last());
        assert(updated.last() == (es[k].0, v));
        assert(spec_entries_model(es.drop_last()).insert(es.last().0, es.last().1).insert(
            es[k].0,
            v,
        ) =~= spec_entries_model(es.drop_last()).insert(es[k].0, v));
    } else {
        assert forall|i: int, j: int| 0 <= i < j < es.drop_last().len() implies (#[trigger] es.drop_last()[
            i
        ]).0 != (#[trigger] es.drop_last()[j]).0 by {
            assert(es[i].0 != es[j].0);
        }
        lemma_model_update(es.drop_last(), k, v);
        assert(updated.drop_last() =~= es.drop_last().update(k, (es[k].0, v)));
        assert(updated.last() == es.last());
        assert(es[k].0 != es.last().0);
        assert(spec_entries_model(es.drop_last()).insert(es[k].0, v).insert(
            es.last().0,
            es.last().1,
        ) =~= spec_entries_model(es.drop_last()).insert(es.last().0, es.last().1).insert(
            es[k].0,
            v,
        ));
    }
}

/// The pre-parsed lookup over the orchestrator-supplied options: each name
/// maps to a flag, a single value or a value list. Names are unique; a later
/// entry for a name already present replaces it.
#[derive(Clone, Debug)]
pub struct Options {
    pub entries: Vec<(String, OptionValue)>,
}

impl View for Options {
    type V = Map<Seq<char>, OptionValueModel>;

    open spec fn view(&self) -> Map<Seq<char>, OptionValueModel> {
        spec_entries_model(self.entries.deep_view())
    }
}

/// The mapping the environment denotes: every entry whose key bears the
/// option prefix is parsed, later entries winning over earlier ones.
pub open spec fn spec_env_model(vars: Seq<(Seq<char>, Seq<char>)>) -> Map<
    Seq<char>,
    OptionValueModel,
>
    decreases vars.len(),
{
    if vars.len() == 0 {
        Map::empty()
    } else {
        let m = spec_env_model(vars.drop_last());
        if spec_starts_with(vars.last().0, spec_opt_prefix()) {
            m.insert(spec_parse_entry(vars.last().1).0, spec_parse_entry(vars.last().1).1)
        } else {
            m
        }
    }
}

/// Puts one parsed option into the entry list, replacing an entry that
/// already bears its name.
fn insert_option(entries: &mut Vec<(String, OptionValue)>, name: String, value: OptionValue)
    requires
        names_unique(old(entries).deep_view()),
    ensures
        names_unique(final(entries).deep_view()),
        spec_entries_model(final(entries).deep_view()) == spec_entries_model(
            old(entries).deep_view(),
        ).insert(name@, value@),
{
    let ghost es = entries.deep_view();
    let mut i: usize = 0;
    while i < entries.len()
        invariant
            i <= entries.len(),
            es == old(entries).deep_view(),
            entries.deep_view() == es,
            names_unique(es),
            forall|k: int| 0 <= k < i ==> (#[trigger] es[k]).0 != name@,
        decreases entries.len() - i,
    {
        if entries[i].0 == name {
            proof {
                assert(es[i as int].0 == name@);
            }
            entries.set(i, (name, value));
            proof {
                assert(entries.deep_view() =~~= es.update(i as int, (es[i as int].0, value@)));
                lemma_model_update(es, i as int, value@);
                assert(spec_entries_model(entries.deep_view()) == spec_entries_model(es).insert(
                    name@,
                    value@,
                ));
                assert forall|a: int, b: int|
                    0 <= a < b < entries.deep_view().len() implies (#[trigger] entries.deep_view()[
                    a
                ]).0 != (#[trigger] entries.deep_view()[b]).0 by {
                    assert(es[a].0 != es[b].0);
                }
            }
            return ;
        }
        i = i + 1;
    }
    let ghost nv = (name@, value@);
    entries.push((name, value));
    proof {
        assert(entries.deep_view() =~~= es.push(nv));
        assert(entries.deep_view().drop_last() =~= es);
        assert forall|a: int, b: int| 0 <= a < b < entries.deep_view().len() implies (
        #[trigger] entries.deep_view()[a]).0 != (#[trigger] entries.deep_view()[b]).0 by {
            if b < es.len() {
                assert(es[a].0 != es[b].0);
            } else {
                assert(entries.deep_view()[b] == nv);
                assert(es[a].0 != nv.0);
            }
        }
    }
}

impl Options {
    /// Names are unique in the entry list.
    pub open spec fn wf(&self) -> bool {
        names_unique(self.entries.deep_view())
    }

    /// Builds the lookup from the process environment's key/value entries:
    /// every entry whose key bears the option prefix is parsed into a name
    /// and a value.
    pub fn from_env(vars: Vec<(String, String)>) -> (r: Options)
        ensures
            r.wf(),
            r@ == spec_env_model(vars.deep_view()),
    {
        let mut entries: Vec<(String, OptionValue)> = Vec::new();
        proof {
            assert(entries.deep_view() =~= Seq::<(Seq<char>, OptionValueModel)>::empty());
            assert(vars.deep_view().take(0) =~= Seq::<(Seq<char>, Seq<char>)>::empty());
            assert(spec_entries_model(entries.deep_view()) =~= spec_env_model(
                vars.deep_view().take(0),
            ));
        }
        let mut i: usize = 0;
        while i < vars.len()
            invariant
                i <= vars.len(),
                names_unique(entries.deep_view()),
                spec_entries_model(entries.deep_view()) == spec_env_model(
                    vars.deep_view().take(i as int),
                ),
            decreases vars.len() - i,
        {
            let ghost taken = vars.deep_view().take(i + 1);
            proof {
                assert(taken.drop_last() =~= vars.deep_view().take(i as int));
                assert(taken.last() == vars.deep_view()[i as int]);
            }
            let pair = &vars[i];
            if str_starts_with(pair.0.as_str(), "BUILDKIT_FRONTEND_OPT_") {
                let (name, value) = parse_entry(pair.1.as_str());
                insert_option(&mut entries, name, value);
            }
            i = i + 1;
        }
        proof {
            assert(vars.deep_view().take(vars.len() as int) =~= vars.deep_view());
        }
        Options { entries }
    }

    /// Whether the name is present: a flag counts only when it is set; a
    /// single value or a value list always counts.
    pub open spec fn spec_has(m: Map<Seq<char>, OptionValueModel>, name: Seq<char>) -> bool {
        m.contains_key(name) && match m[name] {
            OptionValueModel::Flag(b) => b,
            OptionValueModel::Single(_) => true,
            OptionValueModel::Multiple(_) => true,
        }
    }

    /// Whether the name holds a flag that is set.
    pub open spec fn spec_is_flag_set(m: Map<Seq<char>, OptionValueModel>, name: Seq<char>) -> bool {
        m.contains_key(name) && m[name] == OptionValueModel::Flag(true)
    }

    /// Whether the name holds the given value: as its single value, or among
    /// its value list; a flag holds no value.
    pub open spec fn spec_has_value(
        m: Map<Seq<char>, OptionValueModel>,
        name: Seq<char>,
        value: Seq<char>,
    ) -> bool {
        m.contains_key(name) && match m[name] {
            OptionValueModel::Flag(_) => false,
            OptionValueModel::Single(s) => s == value,
            OptionValueModel::Multiple(vs) => vs.contains(value),
        }
    }

    /// The name's single value, or the first of its value list; a flag or an
    /// absent name gives nothing.
    pub open spec fn spec_get(m: Map<Seq<char>, OptionValueModel>, name: Seq<char>) -> Option<
        Seq<char>,
    > {
        if m.contains_key(name) {
            match m[name] {
                OptionValueModel::Flag(_) => None,
                OptionValueModel::Single(s) => Some(s),
                OptionValueModel::Multiple(vs) => if vs.len() > 0 {
                    Some(vs[0])
                } else {
                    None
                },
            }
        } else {
            None
        }
    }

    /// All of the name's values, in order; a flag or an absent name gives
    /// nothing.
    pub open spec fn spec_values(m: Map<Seq<char>, OptionValueModel>, name: Seq<char>) -> Option<
        Seq<Seq<char>>,
    > {
        if m.contains_key(name) {
            match m[name] {
                OptionValueModel::Flag(_) => None,
                OptionValueModel::Single(s) => Some(seq![s]),
                OptionValueModel::Multiple(vs) => Some(vs),
            }
        } else {
            None
        }
    }

    /// Whether the name is present: a flag counts only when it is set; a
    /// single value or a value list always counts.
    pub fn has(&self, name: &str) -> (r: bool)
        requires
            self.wf(),
        ensures
            r == Options::spec_has(self@, name@),
    {
        match self.value_of(name) {
            Some(container) => match container {
                OptionValue::Flag(exists_flag) => *exists_flag,
                OptionValue::Single(_) => true,
                OptionValue::Multiple(_) => true,
            },
            None => false,
        }
    }

    /// Whether the name holds a flag that is set.
    pub fn is_flag_set(&self, name: &str) -> (r: bool)
        requires
            self.wf(),
        ensures
            r == Options::spec_is_flag_set(self@, name@),
    {
        match self.value_of(name) {
            Some(container) => match container {
                OptionValue::Flag(flag) => *flag,
                OptionValue::Single(_) => false,
                OptionValue::Multiple(_) => false,
            },
            None => false,
        }
    }

    /// Whether the name holds the given value: as its single value, or
    /// among its value list.
    pub fn has_value(&self, name: &str, value: &str) -> (r: bool)
        requires
            self.wf(),
        ensures
            r == Options::spec_has_value(self@, name@, value@),
    {
        match self.value_of(name) {
            Some(container) => match container {
                OptionValue::Flag(_) => false,
                OptionValue::Single(single) => *single == value.to_owned(),
                OptionValue::Multiple(values) => {
                    let mut i: usize = 0;
                    let ghost vs = values.deep_view();
                    while i < values.len()
                        invariant
                            i <= values.len(),
                            vs == values.deep_view(),
                            self@.contains_key(name@),
                            self@[name@] == OptionValueModel::Multiple(vs),
                            forall|k: int| 0 <= k < i ==> (#[trigger] vs[k]) != value@,
                        decreases values.len() - i,
                    {
                        if values[i] == value.to_owned() {
                            proof {
                                assert(vs[i as int] == value@);
                                assert(vs.contains(value@));
                            }
                            return true;
                        }
                        i = i + 1;
                    }
                    proof {
                        assert(!vs.contains(value@));
                    }
                    false
                },
            },
            None => false,
        }
    }

    /// The name's single value, or the first of its value list.
    pub fn get(&self, name: &str) -> (r: Option<&str>)
        requires
            self.wf(),
        ensures
            match Options::spec_get(self@, name@) {
                Some(s) => r matches Some(v) && v@ == s,
                None => r is None,
            },
    {
        match self.value_of(name) {
            Some(container) => match container {
                OptionValue::Flag(_) => None,
                OptionValue::Single(value) => Some(value.as_str()),
                OptionValue::Multiple(values) => {
                    if values.len() > 0 {
                        Some(values[0].as_str())
                    } else {
                        None
                    }
                },
            },
            None => None,
        }
    }

    /// All of the name's values, in order.
    pub fn iter(&self, name: &str) -> (r: Option<Vec<String>>)
        requires
            self.wf(),
        ensures
            match Options::spec_values(self@, name@) {
                Some(ss) => r matches Some(vs) && vs.deep_view() == ss,
                None => r is None,
            },
    {
        match self.value_of(name) {
            Some(container) => match container {
                OptionValue::Flag(_) => None,
                OptionValue::Single(value) => {
                    let mut vs: Vec<String> = Vec::new();
                    vs.push(value.clone());
                    proof {
                        assert(vs.deep_view() =~~= seq![value@]);
                    }
                    Some(vs)
                },
                OptionValue::Multiple(values) => {
                    let mut vs: Vec<String> = Vec::new();
                    let mut i: usize = 0;
                    while i < values.len()
                        invariant
                            i <= values.len(),
                            vs.deep_view() == values.deep_view().take(i as int),
                        decreases values.len() - i,
                    {
                        let ghost prev = vs.deep_view();
                        vs.push(values[i].clone());
                        proof {
                            assert(vs.deep_view() =~~= prev.push(values.deep_view()[i as int]));
                            assert(values.deep_view().take(i + 1) =~= values.deep_view().take(
                                i as int,
                            ).push(values.deep_view()[i as int]));
                        }
                        i = i + 1;
                    }
                    proof {
                        assert(values.deep_view().take(values.len() as int) =~= values.deep_view());
                    }
                    Some(vs)
                },
            },
            None => None,
        }
    }

    /// Finds the value recorded under a name, if any.
    pub fn value_of(&self, name: &str) -> (r: Option<&OptionValue>)
        requires
            self.wf(),
        ensures
            match r {
                Some(v) => self@.contains_key(name@) && v@ == self@[name@],
                None => !self@.contains_key(name@),
            },
    {
        let ghost es = self.entries.deep_view();
        proof {
            lemma_model_domain(es, name@);
        }
        let mut i: usize = 0;
        while i < self.entries.len()
            invariant
                self.wf(),
                i <= self.entries.len(),
                es == self.entries.deep_view(),
                forall|k: int| 0 <= k < i ==> (#[trigger] es[k]).0 != name@,
            decreases self.entries.len() - i,
        {
            if self.entries[i].0 == name.to_owned() {
                proof {
                    lemma_model_value(es, i as int);
                }
                return Some(&self.entries[i].1);
            }
            i = i + 1;
        }
        proof {
            lemma_model_domain(es, name@);
        }
        None
    }
}

} // verus!
