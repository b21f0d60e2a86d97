//! Watermark store: persisted key-to-timestamp settings.
//!
//! Exactly two keys are used, one per direction.  A read parses the stored
//! decimal text; a missing row or unparsable text both resolve to zero and
//! never surface an error.  A write is an idempotent upsert by key.

use vstd::prelude::*;
use vstd::string::*;
use crate::numtext::{dec_i64_spec, i64_to_dec, parse_dec_i64, parse_i64_spec};
use crate::text::str_eq;

verus! {

/// Key of the watermark advanced by a successful push pass.
pub fn key_last_pushed_at() -> (r: &'static str)
    ensures
        r@ == "last_pushed_at"@,
{
    "last_pushed_at"
}

/// Key of the watermark advanced by a successful pull pass.
pub fn key_last_pulled_at() -> (r: &'static str)
    ensures
        r@ == "last_pulled_at"@,
{
    "last_pulled_at"
}

/// The two watermark keys are distinct rows of the settings store.
pub proof fn lemma_watermark_keys_distinct()
    ensures
        "last_pulled_at"@ != "last_pushed_at"@,
{
    reveal_strlit("last_pulled_at");
    reveal_strlit("last_pushed_at");
    assert("last_pulled_at"@[7] == 'l');
    assert("last_pushed_at"@[7] == 's');
}

/// One persisted key/value row.
#[derive(Clone, Debug)]
pub struct Setting {
    pub key: String,
    pub value: String,
}

/// Contents of a settings row sequence, keyed by row key; a later row with
/// the same key shadows an earlier one.
pub open spec fn settings_map(s: Seq<Setting>) -> Map<Seq<char>, Seq<char>>
    decreases s.len(),
{
    if s.len() == 0 {
        Map::empty()
    } else {
        settings_map(s.drop_last()).insert(s.last().key@, s.last().value@)
    }
}

/// The timestamp a stored value denotes: its decimal value when it parses as
/// an `i64`, zero otherwise, and zero when the key is absent.
pub open spec fn watermark_of(m: Map<Seq<char>, Seq<char>>, key: Seq<char>) -> int {
    if m.contains_key(key) {
        match parse_i64_spec(m[key]) {
            Some(v) => v,
            None => 0,
        }
    } else {
        0
    }
}

proof fn lemma_settings_map_contains(s: Seq<Setting>, key: Seq<char>)
    ensures
        settings_map(s).contains_key(key) <==> exists|i: int| 0 <= i < s.len() && s[i].key@ == key,
    decreases s.len(),
{
    if s.len() > 0 {
        lemma_settings_map_contains(s.drop_last(), key);
        if settings_map(s).contains_key(key) {
            if s.last().key@ == key {
                assert(s[s.len() - 1].key@ == key);
            } else {
                let i = choose|i: int| 0 <= i < s.len() - 1 && s.drop_last()[i].key@ == key;
                assert(s[i].key@ == key);
            }
        }
        if exists|i: int| 0 <= i < s.len() && s[i].key@ == key {
            let i = choose|i: int| 0 <= i < s.len() && s[i].key@ == key;
            if i < s.len() - 1 {
                assert(s.drop_last()[i].key@ == key);
            }
        }
    }
}

proof fn lemma_settings_map_entry(s: Seq<Setting>, i: int)
    requires
        0 <= i < s.len(),
        forall|p: int, q: int|
            0 <= p < q < s.len() ==> s[p].key@ != s[q].key@,
    ensures
        settings_map(s).contains_key(s[i].key@),
        settings_map(s)[s[i].key@] == s[i].value@,
    decreases s.len(),
{
    if i == s.len() - 1 {
    } else {
        assert(forall|p: int, q: int|
            0 <= p < q < s.len() - 1 ==> s.drop_last()[p].key@ != s.drop_last()[q].key@);
        lemma_settings_map_entry(s.drop_last(), i);
        assert(s[i].key@ != s.last().key@);
    }
}

/// The key-to-timestamp settings store, the persistence behind watermarks.
#[derive(Clone, Debug)]
pub struct SettingsStore {
    entries: Vec<Setting>,
}

impl SettingsStore {
    /// Row keys are unique, so the map view loses nothing.
    pub closed spec fn wf(&self) -> bool {
        forall|p: int, q: int|
            0 <= p < q < self.entries@.len() ==> self.entries@[p].key@ != self.entries@[q].key@
    }

    /// The store as a key-to-value map.
    pub closed spec fn map_view(&self) -> Map<Seq<char>, Seq<char>> {
        settings_map(self.entries@)
    }

    /// The timestamp stored under `key`, with absent and corrupt values both
    /// reading as zero.
    pub open spec fn watermark_view(&self, key: Seq<char>) -> int {
        watermark_of(self.map_view(), key)
    }

    /// An empty store.
    pub fn new() -> (r: SettingsStore)
        ensures
            r.wf(),
            r.map_view() == Map::<Seq<char>, Seq<char>>::empty(),
    {
        SettingsStore { entries: Vec::new() }
    }

    fn find(&self, key: &str) -> (r: Option<usize>)
        ensures
            match r {
                Some(i) => i < self.entries@.len() && self.entries@[i as int].key@ == key@,
                None => forall|j: int|
                    0 <= j < self.entries@.len() ==> self.entries@[j].key@ != key@,
            },
    {
        let mut i: usize = 0;
        while i < self.entries.len()
            invariant
                i <= self.entries@.len(),
                forall|j: int| 0 <= j < i ==> self.entries@[j].key@ != key@,
            decreases self.entries@.len() - i,
        {
            if str_eq(self.entries[i].key.as_str(), key) {
                return Some(i);
            }
            i = i + 1;
        }
        None
    }

    /// Raw stored text under `key`, if any.
    pub fn get_raw(&self, key: &str) -> (r: Option<&String>)
        requires
            self.wf(),
        ensures
            match r {
                Some(v) => self.map_view().contains_key(key@) && self.map_view()[key@] == v@,
                None => !self.map_view().contains_key(key@),
            },
    {
        proof {
            lemma_settings_map_contains(self.entries@, key@);
        }
        match self.find(key) {
            Some(i) => {
                proof {
                    lemma_settings_map_entry(self.entries@, i as int);
                }
                Some(&self.entries[i].value)
            },
            None => None,
        }
    }

    /// The watermark stored under `key`.  A missing row or text that does not
    /// parse as a decimal `i64` both resolve to zero.
    pub fn get(&self, key: &str) -> (r: i64)
        requires
            self.wf(),
        ensures
            r as int == self.watermark_view(key@),
    {
        match self.get_raw(key) {
            Some(v) => match parse_dec_i64(v.as_str()) {
                Some(t) => t,
                None => 0,
            },
            None => 0,
        }
    }

    /// Store raw text under `key`, replacing any earlier row with that key;
    /// this is how previously persisted rows, even corrupt ones, are handed
    /// back to the store.
    pub fn set_raw(&mut self, key: &str, value: &str)
        requires
            old(self).wf(),
        ensures
            final(self).wf(),
            final(self).map_view() == old(self).map_view().insert(key@, value@),
    {
        let entry = Setting { key: key.to_owned(), value: value.to_owned() };
        match self.find(key) {
            Some(i) => {
                proof {
                    lemma_settings_update(self.entries@, i as int, entry);
                }
                self.entries.set(i, entry);
            },
            None => {
                self.entries.push(entry);
                proof {
                    assert(self.entries@.drop_last() =~= old(self).entries@);
                }
            },
        }
    }

    /// Store `value` under `key`, replacing any earlier row with that key.
    pub fn set(&mut self, key: &str, value: i64)
        requires
            old(self).wf(),
        ensures
            final(self).wf(),
            final(self).map_view() == old(self).map_view().insert(
                key@,
                dec_i64_spec(value as int),
            ),
    {
        let text = i64_to_dec(value);
        let entry = Setting { key: key.to_owned(), value: text };
        match self.find(key) {
            Some(i) => {
                proof {
                    lemma_settings_update(self.entries@, i as int, entry);
                }
                self.entries.set(i, entry);
            },
            None => {
                self.entries.push(entry);
                proof {
                    assert(self.entries@.drop_last() =~= old(self).entries@);
                }
            },
        }
    }
}

proof fn lemma_settings_update(s: Seq<Setting>, i: int, e: Setting)
    requires
        0 <= i < s.len(),
        forall|p: int, q: int|
            0 <= p < q < s.len() ==> s[p].key@ != s[q].key@,
        e.key@ == s[i].key@,
    ensures
        settings_map(s.update(i, e)) == settings_map(s).insert(e.key@, e.value@),
        forall|p: int, q: int|
            0 <= p < q < s.update(i, e).len() ==> s.update(i, e)[p].key@ != s.update(
                i,
                e,
            )[q].key@,
    decreases s.len(),
{
    let u = s.update(i, e);
    if i == s.len() - 1 {
        assert(u.drop_last() =~= s.drop_last());
        assert(u.last() == e);
        assert(settings_map(u) =~= settings_map(s).insert(e.key@, e.value@));
    } else {
        assert(forall|p: int, q: int|
            0 <= p < q < s.len() - 1 ==> s.drop_last()[p].key@ != s.drop_last()[q].key@);
        lemma_settings_update(s.drop_last(), i, e);
        assert(u.drop_last() =~= s.drop_last().update(i, e));
        assert(u.last() == s.last());
        assert(e.key@ != s.last().key@);
        assert(settings_map(u) == settings_map(s.drop_last()).insert(e.key@, e.value@).insert(
            s.last().key@,
            s.last().value@,
        ));
        assert(settings_map(u) =~= settings_map(s).insert(e.key@, e.value@));
    }
}

} // verus!
