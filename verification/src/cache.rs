use vstd::prelude::*;
use crate::decode::{computed_color, decode_and_resize, decode_ok};
use crate::errors::PipelineError;
use crate::reduce::average_color;

verus! {

/// The contents of an entry list as a map from fingerprint to color; a
/// later entry for the same key wins, matching unconditional last-writer
/// writes.
pub open spec fn entries_as_map(entries: Seq<(String, String)>) -> Map<Seq<char>, Seq<char>>
    decreases entries.len(),
{
    if entries.len() == 0 {
        Map::empty()
    } else {
        entries_as_map(entries.drop_last()).insert(entries.last().0@, entries.last().1@)
    }
}

/// An in-memory fingerprint-to-color store: one pluggable backend for the
/// cache, and the model against which the cache policy is stated. Entries
/// are append-only; the newest entry for a key is the one read.
pub struct ColorStore {
    entries: Vec<(String, String)>,
}

impl View for ColorStore {
    type V = Map<Seq<char>, Seq<char>>;

    closed spec fn view(&self) -> Map<Seq<char>, Seq<char>> {
        entries_as_map(self.entries@)
    }
}

/// An entry list whose tail has no entry for `key` maps `key` to the value
/// at the last matching index.
proof fn lemma_entries_last_match(entries: Seq<(String, String)>, key: Seq<char>, i: int)
    requires
        0 <= i < entries.len(),
        entries[i].0@ == key,
        forall|j: int| i < j < entries.len() ==> entries[j].0@ != key,
    ensures
        entries_as_map(entries).contains_key(key),
        entries_as_map(entries)[key] == entries[i].1@,
    decreases entries.len(),
{
    if i < entries.len() - 1 {
        lemma_entries_last_match(entries.drop_last(), key, i);
    }
}

/// An entry list with no entry for `key` does not map it.
proof fn lemma_entries_no_match(entries: Seq<(String, String)>, key: Seq<char>)
    requires
        forall|j: int| 0 <= j < entries.len() ==> entries[j].0@ != key,
    ensures
        !entries_as_map(entries).contains_key(key),
    decreases entries.len(),
{
    if entries.len() > 0 {
        lemma_entries_no_match(entries.drop_last(), key);
    }
}

impl ColorStore {
    /// An empty store.
    pub fn new() -> (r: ColorStore)
        ensures
            r@ == Map::<Seq<char>, Seq<char>>::empty(),
    {
        ColorStore { entries: Vec::new() }
    }

    /// Reads the color stored for a fingerprint: the newest one written,
    /// or None on a miss.
    pub fn get(&self, key: &String) -> (r: Option<String>)
        ensures
            r is Some <==> self@.contains_key(key@),
            r matches Some(v) ==> self@[key@] == v@,
    {
        let n = self.entries.len();
        let mut i: usize = n;
        while i > 0
            invariant
                i <= n,
                n == self.entries@.len(),
                forall|j: int| i <= j < n ==> self.entries@[j].0@ != key@,
            decreases i,
        {
            i = i - 1;
            if self.entries[i].0.eq(key) {
                proof {
                    lemma_entries_last_match(self.entries@, key@, i as int);
                }
                let v = self.entries[i].1.clone();
                return Some(v);
            }
        }
        proof {
            lemma_entries_no_match(self.entries@, key@);
        }
        None
    }

    /// Writes unconditionally: the new entry is appended and becomes the
    /// one a later read sees — last writer wins; nothing is ever deleted.
    pub fn put(&mut self, key: &String, value: &String)
        ensures
            final(self)@ == old(self)@.insert(key@, value@),
    {
        self.entries.push((key.clone(), value.clone()));
        proof {
            assert(self.entries@.drop_last() =~= old(self).entries@);
        }
    }
}

/// The color a get-or-compute pass yields: the stored color on a hit, the
/// freshly computed one on a miss.
pub open spec fn gc_color(m: Map<Seq<char>, Seq<char>>, fp: Seq<char>, bytes: Seq<u8>) -> Seq<
    char,
> {
    if m.contains_key(fp) {
        m[fp]
    } else {
        computed_color(bytes)
    }
}

/// Whether a get-or-compute pass must run the decode-and-reduce
/// computation: exactly on a miss.
pub open spec fn gc_computes(m: Map<Seq<char>, Seq<char>>, fp: Seq<char>) -> bool {
    !m.contains_key(fp)
}

/// The store contents after a successful get-or-compute pass: unchanged on
/// a hit, extended by the computed color on a miss.
pub open spec fn gc_map_after(m: Map<Seq<char>, Seq<char>>, fp: Seq<char>, bytes: Seq<u8>) -> Map<
    Seq<char>,
    Seq<char>,
> {
    if m.contains_key(fp) {
        m
    } else {
        m.insert(fp, computed_color(bytes))
    }
}

/// The cache policy over the store: the fingerprint is looked up first; a
/// hit returns the stored color at once and nothing is decoded. On a miss
/// the bytes are decoded and reduced, the result is written, and returned.
/// The boolean of the pair reports whether the computation ran — false on
/// a hit. The call fails, with the store unchanged, exactly when a miss
/// meets bytes that do not decode.
pub fn get_or_compute(store: &mut ColorStore, fp: &String, bytes: &Vec<u8>) -> (r: Result<
    (String, bool),
    PipelineError,
>)
    ensures
        r is Ok <==> (old(store)@.contains_key(fp@) || decode_ok(bytes@)),
        r matches Ok(p) ==> p.0@ == gc_color(old(store)@, fp@, bytes@) && p.1 == gc_computes(
            old(store)@,
            fp@,
        ) && final(store)@ == gc_map_after(old(store)@, fp@, bytes@),
        r matches Err(e) ==> e == PipelineError::DecodeError && final(store)@ == old(store)@,
{
    match store.get(fp) {
        Some(c) => Ok((c, false)),
        None => match decode_and_resize(bytes) {
            Err(e) => Err(e),
            Ok(grid) => {
                let color = average_color(&grid);
                store.put(fp, &color);
                Ok((color, true))
            },
        },
    }
}

/// Cache idempotence: after one successful get-or-compute pass, a second
/// pass for the same fingerprint yields the same color, runs no
/// computation, and leaves the store as it stands — so two sequential
/// passes agree and compute at most once between them.
pub proof fn lemma_get_or_compute_idempotent(
    m: Map<Seq<char>, Seq<char>>,
    fp: Seq<char>,
    bytes: Seq<u8>,
)
    ensures
        gc_color(gc_map_after(m, fp, bytes), fp, bytes) == gc_color(m, fp, bytes),
        !gc_computes(gc_map_after(m, fp, bytes), fp),
        gc_map_after(gc_map_after(m, fp, bytes), fp, bytes) == gc_map_after(m, fp, bytes),
{
}

} // verus!
