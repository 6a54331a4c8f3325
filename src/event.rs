//! The log event model: levels, records and the fields drawn from them.

use vstd::prelude::*;
use vstd::string::*;

verus! {

/// Severity of a log record.
#[derive(Clone, Copy, Debug, PartialEq, Eq, Structural)]
pub enum Level {
    Critical,
    Error,
    Warning,
    Info,
    Debug,
    Trace,
}

/// The upper-case name of a level.
pub open spec fn level_name(l: Level) -> Seq<char> {
    match l {
        Level::Critical => "CRITICAL"@,
        Level::Error => "ERROR"@,
        Level::Warning => "WARN"@,
        Level::Info => "INFO"@,
        Level::Debug => "DEBUG"@,
        Level::Trace => "TRACE"@,
    }
}

impl Level {
    /// The upper-case name of this level (`"INFO"`, `"WARN"`, ...).
    pub fn as_str(&self) -> (r: &'static str)
        ensures
            r@ == level_name(*self),
    {
        match self {
            Level::Critical => "CRITICAL",
            Level::Error => "ERROR",
            Level::Warning => "WARN",
            Level::Info => "INFO",
            Level::Debug => "DEBUG",
            Level::Trace => "TRACE",
        }
    }
}

/// The target of a record: its tag when the tag is non-empty, else its module path.
pub open spec fn target_of(tag: Seq<char>, module: Seq<char>) -> Seq<char> {
    if tag.len() == 0 {
        module
    } else {
        tag
    }
}

/// One log record as the logging engine hands it over.
pub struct Record {
    pub level: Level,
    pub message: String,
    pub tag: String,
    pub module: String,
    pub file: String,
    pub line: u32,
}

impl Record {
    /// The logical source of the record: the tag if present, else the module path.
    pub fn target(&self) -> (r: &str)
        ensures
            r@ == target_of(self.tag@, self.module@),
            r@.len() == 0 ==> self.tag@.len() == 0 && self.module@.len() == 0,
    {
        if self.tag.as_str().is_empty() {
            self.module.as_str()
        } else {
            self.tag.as_str()
        }
    }
}


/// A key-value pair as plain text.
pub type Pair = (String, String);

/// The text view of a sequence of key-value pairs.
pub open spec fn pairs_view(s: Seq<Pair>) -> Seq<(Seq<char>, Seq<char>)> {
    s.map_values(|p: Pair| (p.0@, p.1@))
}

/// The mapping obtained by inserting `pairs` into `m` from first to last,
/// so that a later pair overwrites an earlier one with the same key.
pub open spec fn insert_all(
    m: Map<Seq<char>, Seq<char>>,
    pairs: Seq<(Seq<char>, Seq<char>)>,
) -> Map<Seq<char>, Seq<char>>
    decreases pairs.len(),
{
    if pairs.len() == 0 {
        m
    } else {
        insert_all(m, pairs.drop_last()).insert(pairs.last().0, pairs.last().1)
    }
}

/// The additional fields of an event: context pairs first, then call-site pairs.
pub open spec fn additional_of(
    context: Seq<(Seq<char>, Seq<char>)>,
    call_site: Seq<(Seq<char>, Seq<char>)>,
) -> Map<Seq<char>, Seq<char>> {
    insert_all(insert_all(Map::empty(), context), call_site)
}

/// The entries after setting `k` to `v`: the value of an entry with key `k` is
/// replaced in its place, or else the pair is appended.
pub open spec fn insert_entry(
    s: Seq<(Seq<char>, Seq<char>)>,
    k: Seq<char>,
    v: Seq<char>,
) -> Seq<(Seq<char>, Seq<char>)> {
    if exists|i: int| 0 <= i < s.len() && s[i].0 == k {
        let i = choose|i: int| 0 <= i < s.len() && s[i].0 == k;
        s.update(i, (k, v))
    } else {
        s.push((k, v))
    }
}

/// The entries after setting each of `pairs` from first to last.
pub open spec fn insert_entries(
    s: Seq<(Seq<char>, Seq<char>)>,
    pairs: Seq<(Seq<char>, Seq<char>)>,
) -> Seq<(Seq<char>, Seq<char>)>
    decreases pairs.len(),
{
    if pairs.len() == 0 {
        s
    } else {
        insert_entry(insert_entries(s, pairs.drop_last()), pairs.last().0, pairs.last().1)
    }
}

/// The entries of an event's additional fields, in order: context pairs first,
/// then call-site pairs.
pub open spec fn merged_entries(
    context: Seq<(Seq<char>, Seq<char>)>,
    call_site: Seq<(Seq<char>, Seq<char>)>,
) -> Seq<(Seq<char>, Seq<char>)> {
    insert_entries(insert_entries(Seq::empty(), context), call_site)
}

/// No key occurs twice.
pub open spec fn keys_unique(s: Seq<(Seq<char>, Seq<char>)>) -> bool {
    forall|i: int, j: int| 0 <= i < j < s.len() ==> s[i].0 != s[j].0
}

/// Replacing the value of an entry whose key is unique is an insert into the mapping.
proof fn lemma_insert_all_update(
    m: Map<Seq<char>, Seq<char>>,
    s: Seq<(Seq<char>, Seq<char>)>,
    i: int,
    v: Seq<char>,
)
    requires
        keys_unique(s),
        0 <= i < s.len(),
    ensures
        insert_all(m, s.update(i, (s[i].0, v))) == insert_all(m, s).insert(s[i].0, v),
    decreases s.len(),
{
    let k = s[i].0;
    let t = s.update(i, (k, v));
    if i == s.len() - 1 {
        assert(t.drop_last() =~= s.drop_last());
        assert(insert_all(m, t) =~= insert_all(m, s).insert(k, v));
    } else {
        assert(t.drop_last() =~= s.drop_last().update(i, (k, v)));
        lemma_insert_all_update(m, s.drop_last(), i, v);
        assert(s.last().0 != k);
        assert(insert_all(m, t) =~= insert_all(m, s).insert(k, v));
    }
}

/// A key absent from every pair leaves the mapping's entry for it as it was.
proof fn lemma_insert_all_absent(
    m: Map<Seq<char>, Seq<char>>,
    s: Seq<(Seq<char>, Seq<char>)>,
    k: Seq<char>,
)
    requires
        forall|j: int| 0 <= j < s.len() ==> s[j].0 != k,
    ensures
        insert_all(m, s).contains_key(k) == m.contains_key(k),
        m.contains_key(k) ==> insert_all(m, s)[k] == m[k],
    decreases s.len(),
{
    if s.len() > 0 {
        lemma_insert_all_absent(m, s.drop_last(), k);
    }
}

/// The additional fields of an event: each key once, last write wins.
pub struct AdditionalFields(pub Vec<Pair>);

impl AdditionalFields {
    /// The entries in insertion order, as text.
    pub open spec fn entries(&self) -> Seq<(Seq<char>, Seq<char>)> {
        pairs_view(self.0@)
    }

    /// The mapping from key to value.
    pub open spec fn view(&self) -> Map<Seq<char>, Seq<char>> {
        insert_all(Map::empty(), self.entries())
    }

    pub open spec fn wf(&self) -> bool {
        keys_unique(self.entries())
    }

    /// No fields.
    pub fn new() -> (r: AdditionalFields)
        ensures
            r.wf(),
            r.entries() == Seq::<(Seq<char>, Seq<char>)>::empty(),
            r.view() == Map::<Seq<char>, Seq<char>>::empty(),
    {
        let r = AdditionalFields(Vec::new());
        assert(r.entries() =~= Seq::<(Seq<char>, Seq<char>)>::empty());
        r
    }

    /// Sets `key` to `value`, replacing an earlier value of the same key in its place.
    pub fn insert(&mut self, key: String, value: String)
        requires
            old(self).wf(),
        ensures
            final(self).wf(),
            final(self).view() == old(self).view().insert(key@, value@),
            final(self).entries() == insert_entry(old(self).entries(), key@, value@),
    {
        let ghost k = key@;
        let ghost v = value@;
        let mut i: usize = 0;
        while i < self.0.len()
            invariant
                0 <= i <= self.0.len(),
                self.wf(),
                self.0@ == old(self).0@,
                k == key@,
                v == value@,
                forall|j: int| 0 <= j < i ==> self.entries()[j].0 != k,
            decreases self.0.len() - i,
        {
            let same = self.0[i].0 == key;
            assert(self.entries()[i as int] == (self.0@[i as int].0@, self.0@[i as int].1@));
            if same {
                let ghost s = self.entries();
                proof {
                    lemma_insert_all_update(Map::empty(), s, i as int, v);
                }
                self.0.set(i, (key, value));
                assert forall|j: int| 0 <= j < s.len() implies #[trigger] self.entries()[j]
                    == s.update(i as int, (k, v))[j] by {
                    if j != i {
                        assert(self.0@[j] == old(self).0@[j]);
                    }
                }
                assert(self.entries() =~= s.update(i as int, (k, v)));
                assert(keys_unique(self.entries()));
                proof {
                    let c = choose|c: int| 0 <= c < s.len() && s[c].0 == k;
                    assert(s[c].0 == s[i as int].0);
                }
                return;
            }
            i = i + 1;
        }
        let ghost s = self.entries();
        assert(!(exists|c: int| 0 <= c < s.len() && s[c].0 == k));
        self.0.push((key, value));
        assert(self.entries().drop_last() =~= s);
        assert(self.entries().last() == (k, v));
        assert forall|a: int, b: int| 0 <= a < b < self.entries().len() implies self.entries()[a].0
            != self.entries()[b].0 by {
            if b < s.len() {
                assert(self.entries()[a] == s[a]);
                assert(self.entries()[b] == s[b]);
            } else {
                assert(self.entries()[a] == s[a]);
            }
        }
    }

    /// Inserts each pair from first to last.
    pub fn extend(&mut self, pairs: &Vec<Pair>)
        requires
            old(self).wf(),
        ensures
            final(self).wf(),
            final(self).view() == insert_all(old(self).view(), pairs_view(pairs@)),
            final(self).entries() == insert_entries(old(self).entries(), pairs_view(pairs@)),
    {
        let mut i: usize = 0;
        while i < pairs.len()
            invariant
                0 <= i <= pairs.len(),
                self.wf(),
                self.view() == insert_all(old(self).view(), pairs_view(pairs@.take(i as int))),
                self.entries() == insert_entries(old(self).entries(), pairs_view(pairs@.take(i as int))),
            decreases pairs.len() - i,
        {
            let key = pairs[i].0.clone();
            let value = pairs[i].1.clone();
            self.insert(key, value);
            proof {
                let t = pairs_view(pairs@.take(i as int + 1));
                assert(t.drop_last() =~= pairs_view(pairs@.take(i as int)));
            }
            i = i + 1;
        }
        assert(pairs@.take(pairs.len() as int) =~= pairs@);
    }

    /// The fields of an event whose context carries `context` and whose call site
    /// carries `call_site`: context pairs first, then call-site pairs.
    pub fn merged(context: &Vec<Pair>, call_site: &Vec<Pair>) -> (r: AdditionalFields)
        ensures
            r.wf(),
            r.view() == additional_of(pairs_view(context@), pairs_view(call_site@)),
            r.entries() == merged_entries(pairs_view(context@), pairs_view(call_site@)),
    {
        let mut r = AdditionalFields::new();
        r.extend(context);
        r.extend(call_site);
        r
    }
}

/// A call-site pair that no later call-site pair overrides gives the event's value
/// for its key, whatever the context holds under that key.
pub proof fn lemma_call_site_wins(
    context: Seq<(Seq<char>, Seq<char>)>,
    call_site: Seq<(Seq<char>, Seq<char>)>,
    i: int,
)
    requires
        0 <= i < call_site.len(),
        forall|j: int| i < j < call_site.len() ==> call_site[j].0 != call_site[i].0,
    ensures
        additional_of(context, call_site).contains_key(call_site[i].0),
        additional_of(context, call_site)[call_site[i].0] == call_site[i].1,
    decreases call_site.len(),
{
    if i < call_site.len() - 1 {
        lemma_call_site_wins(context, call_site.drop_last(), i);
    }
}

/// A key that only the context carries keeps the context's value.
pub proof fn lemma_context_kept(
    context: Seq<(Seq<char>, Seq<char>)>,
    call_site: Seq<(Seq<char>, Seq<char>)>,
    k: Seq<char>,
)
    requires
        insert_all(Map::empty(), context).contains_key(k),
        forall|j: int| 0 <= j < call_site.len() ==> call_site[j].0 != k,
    ensures
        additional_of(context, call_site).contains_key(k),
        additional_of(context, call_site)[k] == insert_all(Map::empty(), context)[k],
{
    lemma_insert_all_absent(insert_all(Map::empty(), context), call_site, k);
}

} // verus!
