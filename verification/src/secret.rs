//! The two key/value maps of a Kubernetes `Secret` (`data`, holding bytes,
//! and `stringData`, holding text) and the rules by which fields are read
//! out of them.

use vstd::prelude::*;
use vstd::string::*;
use vstd::utf8::*;

verus! {

/// The value stored under `key` in a list of entries (the first entry with
/// that key).
pub open spec fn lookup<V>(entries: Seq<(Seq<char>, V)>, key: Seq<char>) -> Option<V>
    decreases entries.len(),
{
    if entries.len() == 0 {
        None
    } else if entries[0].0 == key {
        Some(entries[0].1)
    } else {
        lookup(entries.drop_first(), key)
    }
}

/// The map that a list of entries stands for.
pub open spec fn entries_map<V>(entries: Seq<(Seq<char>, V)>) -> Map<Seq<char>, V> {
    Map::new(|k: Seq<char>| lookup(entries, k) is Some, |k: Seq<char>| lookup(entries, k)->0)
}

/// No key occurs twice.
pub open spec fn distinct_keys<V>(entries: Seq<(Seq<char>, V)>) -> bool {
    forall|i: int, j: int|
        0 <= i < entries.len() && 0 <= j < entries.len() && i != j ==> entries[i].0
            != entries[j].0
}

pub open spec fn bytes_entries(e: Seq<(String, Vec<u8>)>) -> Seq<(Seq<char>, Seq<u8>)> {
    e.map_values(|p: (String, Vec<u8>)| (p.0@, p.1@))
}

pub open spec fn text_entries(e: Seq<(String, String)>) -> Seq<(Seq<char>, Seq<char>)> {
    e.map_values(|p: (String, String)| (p.0@, p.1@))
}

/// The text that a field of a secret holds when it is read for display:
/// the `data` value if it is valid UTF-8 and not empty, else the
/// `stringData` value if it is not empty, else nothing.
pub open spec fn decoded_field(
    data: Option<Map<Seq<char>, Seq<u8>>>,
    string_data: Option<Map<Seq<char>, Seq<char>>>,
    key: Seq<char>,
) -> Option<Seq<char>> {
    if data is Some && data->0.contains_key(key) && valid_utf8(data->0[key]) && decode_utf8(
        data->0[key],
    ).len() > 0 {
        Some(decode_utf8(data->0[key]))
    } else if string_data is Some && string_data->0.contains_key(key)
        && string_data->0[key].len() > 0 {
        Some(string_data->0[key])
    } else {
        None
    }
}

/// The text of the `data` value under `key`, when it is valid UTF-8.
pub open spec fn data_field(data: Option<Map<Seq<char>, Seq<u8>>>, key: Seq<char>) -> Option<
    Seq<char>,
> {
    if data is Some && data->0.contains_key(key) && valid_utf8(data->0[key]) {
        Some(decode_utf8(data->0[key]))
    } else {
        None
    }
}

/// A `data` field reads back the text of the bytes last stored under its key,
/// when they are valid UTF-8; storing under one key leaves the other fields
/// as they were.
pub proof fn lemma_read_after_set(
    data: Option<Map<Seq<char>, Seq<u8>>>,
    key: Seq<char>,
    bytes: Seq<u8>,
    other: Seq<char>,
)
    ensures
        ({
            let after = Some(
                match data {
                    Some(m) => m,
                    None => Map::empty(),
                }.insert(key, bytes),
            );
            &&& data_field(after, key) == if valid_utf8(bytes) {
                Some(decode_utf8(bytes))
            } else {
                None
            }
            &&& other != key ==> data_field(after, other) == data_field(data, other)
        }),
{
}

/// A lookup that finds nothing means that no entry has the key.
pub proof fn lemma_lookup_none<V>(entries: Seq<(Seq<char>, V)>, key: Seq<char>)
    ensures
        lookup(entries, key) is None <==> forall|i: int|
            0 <= i < entries.len() ==> #[trigger] entries[i].0 != key,
    decreases entries.len(),
{
    if entries.len() > 0 {
        lemma_lookup_none(entries.drop_first(), key);
        if lookup(entries, key) is None {
            assert forall|i: int| 0 <= i < entries.len() implies #[trigger] entries[i].0 != key by {
                if i > 0 {
                    assert(entries[i] == entries.drop_first()[i - 1]);
                }
            }
        } else {
            if entries[0].0 != key {
                let i = choose|i: int|
                    0 <= i < entries.drop_first().len() && #[trigger] entries.drop_first()[i].0
                        == key;
                assert(entries[i + 1] == entries.drop_first()[i]);
            }
        }
    }
}

/// Replacing the value of the entry at `idx` changes the lookup of its key
/// only.
pub proof fn lemma_lookup_update<V>(entries: Seq<(Seq<char>, V)>, idx: int, v: V, key: Seq<char>)
    requires
        0 <= idx < entries.len(),
        forall|i: int| 0 <= i < idx ==> #[trigger] entries[i].0 != entries[idx].0,
    ensures
        lookup(entries.update(idx, (entries[idx].0, v)), key) == if key == entries[idx].0 {
            Some(v)
        } else {
            lookup(entries, key)
        },
    decreases idx,
{
    let upd = entries.update(idx, (entries[idx].0, v));
    if idx > 0 {
        let t = entries.drop_first();
        assert forall|i: int| 0 <= i < idx - 1 implies #[trigger] t[i].0 != t[idx - 1].0 by {
            assert(t[i] == entries[i + 1]);
        }
        lemma_lookup_update(t, idx - 1, v, key);
        assert(upd.drop_first() =~= t.update(idx - 1, (t[idx - 1].0, v)));
        assert(entries[0].0 != entries[idx].0);
        assert(upd[0] == entries[0]);
        assert(t[idx - 1] == entries[idx]);
    } else {
        assert(upd.drop_first() =~= entries.drop_first());
        assert(upd[0] == (entries[0].0, v));
    }
}

/// Adding an entry with a new key at the end changes the lookup of that key
/// only.
pub proof fn lemma_lookup_push<V>(entries: Seq<(Seq<char>, V)>, k: Seq<char>, v: V, key: Seq<char>)
    requires
        lookup(entries, k) is None,
    ensures
        lookup(entries.push((k, v)), key) == if key == k {
            Some(v)
        } else {
            lookup(entries, key)
        },
    decreases entries.len(),
{
    let pushed = entries.push((k, v));
    if entries.len() > 0 {
        lemma_lookup_push(entries.drop_first(), k, v, key);
        assert(pushed.drop_first() =~= entries.drop_first().push((k, v)));
        assert(pushed[0] == entries[0]);
        assert(entries[0].0 != k);
        if entries[0].0 == key {
            assert(lookup(pushed, key) == Some(entries[0].1));
        } else {
            assert(lookup(pushed, key) == lookup(pushed.drop_first(), key));
        }
    } else {
        assert(pushed.drop_first() =~= Seq::<(Seq<char>, V)>::empty());
        assert(pushed[0] == (k, v));
    }
}

/// Where the key of `key` sits in a list of entries: the first such index.
fn position_of<V>(entries: &Vec<(String, V)>, key: &String) -> (r: Option<usize>)
    ensures
        r matches Some(i) ==> i < entries@.len() && entries@[i as int].0@ == key@ && forall|
            j: int,
        |
            0 <= j < i ==> #[trigger] entries@[j].0@ != key@,
        r is None ==> forall|j: int| 0 <= j < entries@.len() ==> #[trigger] entries@[j].0@ != key@,
{
    for i in 0..entries.len()
        invariant
            forall|j: int| 0 <= j < i ==> #[trigger] entries@[j].0@ != key@,
    {
        if entries[i].0 == *key {
            return Some(i);
        }
    }
    None
}

/// A Kubernetes `Secret` as the library reads it: its `data` map of bytes and
/// its `stringData` map of text, each possibly absent.
pub struct Secret {
    data: Option<Vec<(String, Vec<u8>)>>,
    string_data: Option<Vec<(String, String)>>,
}

impl Secret {
    /// The `data` map, if the secret has one.
    pub closed spec fn data_view(&self) -> Option<Map<Seq<char>, Seq<u8>>> {
        match self.data {
            Some(e) => Some(entries_map(bytes_entries(e@))),
            None => None,
        }
    }

    /// The `stringData` map, if the secret has one.
    pub closed spec fn string_data_view(&self) -> Option<Map<Seq<char>, Seq<char>>> {
        match self.string_data {
            Some(e) => Some(entries_map(text_entries(e@))),
            None => None,
        }
    }

    /// Each map holds a key at most once.
    pub closed spec fn wf(&self) -> bool {
        &&& (self.data matches Some(e) ==> distinct_keys(bytes_entries(e@)))
        &&& (self.string_data matches Some(e) ==> distinct_keys(text_entries(e@)))
    }

    /// A secret with neither map.
    pub fn new() -> (s: Secret)
        ensures
            s.wf(),
            s.data_view() is None,
            s.string_data_view() is None,
    {
        Secret { data: None, string_data: None }
    }

    /// Stores `value` under `key` in the `data` map, creating the map if the
    /// secret has none.
    pub fn set_data(&mut self, key: String, value: Vec<u8>)
        requires
            old(self).wf(),
        ensures
            final(self).wf(),
            final(self).string_data_view() == old(self).string_data_view(),
            final(self).data_view() == Some(
                match old(self).data_view() {
                    Some(m) => m,
                    None => Map::empty(),
                }.insert(key@, value@),
            ),
    {
        let ghost old_view = self.data_view();
        let mut entries = match self.data.take() {
            Some(e) => e,
            None => {
                assert(entries_map(bytes_entries(Seq::<(String, Vec<u8>)>::empty())) =~= Map::<
                    Seq<char>,
                    Seq<u8>,
                >::empty());
                Vec::new()
            },
        };
        let ghost before = bytes_entries(entries@);
        assert(entries_map(before) == match old_view {
            Some(m) => m,
            None => Map::empty(),
        });
        let ghost kv = key@;
        let ghost vv = value@;
        match position_of(&entries, &key) {
            Some(i) => {
                entries.set(i, (key, value));
                proof {
                    let after = bytes_entries(entries@);
                    assert(after =~= before.update(i as int, (before[i as int].0, vv)));
                    assert forall|j: int| 0 <= j < i implies #[trigger] before[j].0
                        != before[i as int].0 by {
                        assert(before[j].0 == entries@[j].0@);
                    }
                    assert forall|k: Seq<char>|
                        #![trigger lookup(after, k)]
                        lookup(after, k) == if k == kv {
                            Some(vv)
                        } else {
                            lookup(before, k)
                        } by {
                        lemma_lookup_update(before, i as int, vv, k);
                    }
                    assert(entries_map(after) =~= entries_map(before).insert(kv, vv));
                    assert(distinct_keys(after)) by {
                        assert forall|a: int, b: int|
                            0 <= a < after.len() && 0 <= b < after.len() && a != b implies after[a].0
                            != after[b].0 by {
                            assert(after[a].0 == before[a].0);
                            assert(after[b].0 == before[b].0);
                        }
                    }
                }
            },
            None => {
                entries.push((key, value));
                proof {
                    let after = bytes_entries(entries@);
                    assert(after =~= before.push((kv, vv)));
                    lemma_lookup_none(before, kv);
                    assert forall|k: Seq<char>|
                        #![trigger lookup(after, k)]
                        lookup(after, k) == if k == kv {
                            Some(vv)
                        } else {
                            lookup(before, k)
                        } by {
                        lemma_lookup_push(before, kv, vv, k);
                    }
                    assert(entries_map(after) =~= entries_map(before).insert(kv, vv));
                    assert(distinct_keys(after)) by {
                        assert forall|a: int, b: int|
                            0 <= a < after.len() && 0 <= b < after.len() && a != b implies after[a].0
                            != after[b].0 by {
                            if a < before.len() && b < before.len() {
                                assert(after[a] == before[a]);
                                assert(after[b] == before[b]);
                            } else if a < before.len() {
                                assert(after[a] == before[a]);
                            } else {
                                assert(after[b] == before[b]);
                            }
                        }
                    }
                }
            },
        }
        self.data = Some(entries);
    }

    /// Stores `value` under `key` in the `stringData` map, creating the map if
    /// the secret has none.
    pub fn set_string_data(&mut self, key: String, value: String)
        requires
            old(self).wf(),
        ensures
            final(self).wf(),
            final(self).data_view() == old(self).data_view(),
            final(self).string_data_view() == Some(
                match old(self).string_data_view() {
                    Some(m) => m,
                    None => Map::empty(),
                }.insert(key@, value@),
            ),
    {
        let ghost old_view = self.string_data_view();
        let mut entries = match self.string_data.take() {
            Some(e) => e,
            None => {
                assert(entries_map(text_entries(Seq::<(String, String)>::empty())) =~= Map::<
                    Seq<char>,
                    Seq<char>,
                >::empty());
                Vec::new()
            },
        };
        let ghost before = text_entries(entries@);
        assert(entries_map(before) == match old_view {
            Some(m) => m,
            None => Map::empty(),
        });
        let ghost kv = key@;
        let ghost vv = value@;
        match position_of(&entries, &key) {
            Some(i) => {
                entries.set(i, (key, value));
                proof {
                    let after = text_entries(entries@);
                    assert(after =~= before.update(i as int, (before[i as int].0, vv)));
                    assert forall|j: int| 0 <= j < i implies #[trigger] before[j].0
                        != before[i as int].0 by {
                        assert(before[j].0 == entries@[j].0@);
                    }
                    assert forall|k: Seq<char>|
                        #![trigger lookup(after, k)]
                        lookup(after, k) == if k == kv {
                            Some(vv)
                        } else {
                            lookup(before, k)
                        } by {
                        lemma_lookup_update(before, i as int, vv, k);
                    }
                    assert(entries_map(after) =~= entries_map(before).insert(kv, vv));
                    assert(distinct_keys(after)) by {
                        assert forall|a: int, b: int|
                            0 <= a < after.len() && 0 <= b < after.len() && a != b implies after[a].0
                            != after[b].0 by {
                            assert(after[a].0 == before[a].0);
                            assert(after[b].0 == before[b].0);
                        }
                    }
                }
            },
            None => {
                entries.push((key, value));
                proof {
                    let after = text_entries(entries@);
                    assert(after =~= before.push((kv, vv)));
                    lemma_lookup_none(before, kv);
                    assert forall|k: Seq<char>|
                        #![trigger lookup(after, k)]
                        lookup(after, k) == if k == kv {
                            Some(vv)
                        } else {
                            lookup(before, k)
                        } by {
                        lemma_lookup_push(before, kv, vv, k);
                    }
                    assert(entries_map(after) =~= entries_map(before).insert(kv, vv));
                    assert(distinct_keys(after)) by {
                        assert forall|a: int, b: int|
                            0 <= a < after.len() && 0 <= b < after.len() && a != b implies after[a].0
                            != after[b].0 by {
                            if a < before.len() && b < before.len() {
                                assert(after[a] == before[a]);
                                assert(after[b] == before[b]);
                            } else if a < before.len() {
                                assert(after[a] == before[a]);
                            } else {
                                assert(after[b] == before[b]);
                            }
                        }
                    }
                }
            },
        }
        self.string_data = Some(entries);
    }

    /// The bytes stored under `key` in the `data` map.
    fn data_bytes(&self, key: &String) -> (r: Option<Vec<u8>>)
        ensures
            r is Some <==> (self.data_view() is Some && self.data_view()->0.contains_key(key@)),
            r matches Some(b) ==> b@ == self.data_view()->0[key@],
    {
        match &self.data {
            None => None,
            Some(entries) => {
                let ghost e = bytes_entries(entries@);
                match position_of(entries, key) {
                    Some(i) => {
                        proof {
                            assert(e[0].0 == entries@[0].0@);
                            lemma_lookup_prefix_skip(e, key@, i as int);
                        }
                        let b = entries[i].1.clone();
                        assert(b@ =~= entries@[i as int].1@);
                        Some(b)
                    },
                    None => {
                        proof {
                            assert forall|j: int| 0 <= j < e.len() implies #[trigger] e[j].0
                                != key@ by {
                                assert(e[j].0 == entries@[j].0@);
                            }
                            lemma_lookup_none(e, key@);
                        }
                        None
                    },
                }
            },
        }
    }

    /// The text stored under `key` in the `stringData` map.
    fn string_data_text(&self, key: &String) -> (r: Option<String>)
        ensures
            r is Some <==> (self.string_data_view() is Some
                && self.string_data_view()->0.contains_key(key@)),
            r matches Some(t) ==> t@ == self.string_data_view()->0[key@],
    {
        match &self.string_data {
            None => None,
            Some(entries) => {
                let ghost e = text_entries(entries@);
                match position_of(entries, key) {
                    Some(i) => {
                        proof {
                            lemma_lookup_prefix_skip(e, key@, i as int);
                        }
                        Some(entries[i].1.clone())
                    },
                    None => {
                        proof {
                            assert forall|j: int| 0 <= j < e.len() implies #[trigger] e[j].0
                                != key@ by {
                                assert(e[j].0 == entries@[j].0@);
                            }
                            lemma_lookup_none(e, key@);
                        }
                        None
                    },
                }
            },
        }
    }
}

/// The lookup finds the first entry with the key.
pub proof fn lemma_lookup_prefix_skip<V>(entries: Seq<(Seq<char>, V)>, key: Seq<char>, i: int)
    requires
        0 <= i < entries.len(),
        entries[i].0 == key,
        forall|j: int| 0 <= j < i ==> #[trigger] entries[j].0 != key,
    ensures
        lookup(entries, key) == Some(entries[i].1),
    decreases i,
{
    if i > 0 {
        let t = entries.drop_first();
        assert forall|j: int| 0 <= j < i - 1 implies #[trigger] t[j].0 != key by {
            assert(t[j] == entries[j + 1]);
        }
        lemma_lookup_prefix_skip(t, key, i - 1);
    }
}

/// `String::from_utf8`: the text that the bytes encode, if they are valid
/// UTF-8.
#[verifier::external_body]
fn utf8_to_string(bytes: Vec<u8>) -> (r: Option<String>)
    ensures
        r is Some <==> valid_utf8(bytes@),
        r matches Some(s) ==> s@ == decode_utf8(bytes@),
{
    String::from_utf8(bytes).ok()
}

/// Reads a field of a secret for display: the `data` value if it is valid
/// UTF-8 and not empty, otherwise the `stringData` value if it is not empty.
pub fn decode_secret_field(secret: &Secret, key: &str) -> (r: Option<String>)
    ensures
        match r {
            Some(s) => decoded_field(secret.data_view(), secret.string_data_view(), key@) == Some(s@),
            None => decoded_field(secret.data_view(), secret.string_data_view(), key@) is None,
        },
{
    let k = String::from_str(key);
    match secret.data_bytes(&k) {
        Some(bytes) => match utf8_to_string(bytes) {
            Some(decoded) => {
                if !decoded.as_str().is_empty() {
                    return Some(decoded);
                }
            },
            None => {},
        },
        None => {},
    }
    match secret.string_data_text(&k) {
        Some(value) => {
            if !value.as_str().is_empty() {
                return Some(value);
            }
            None
        },
        None => None,
    }
}

/// Reads the text of a `data` field: present when the bytes are valid UTF-8,
/// even when empty.
pub fn read_secret_field(secret: &Secret, key: &str) -> (r: Option<String>)
    ensures
        match r {
            Some(s) => data_field(secret.data_view(), key@) == Some(s@),
            None => data_field(secret.data_view(), key@) is None,
        },
{
    let k = String::from_str(key);
    match secret.data_bytes(&k) {
        Some(bytes) => utf8_to_string(bytes),
        None => None,
    }
}

} // verus!
