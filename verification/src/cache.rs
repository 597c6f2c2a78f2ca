//! The key/value store that kernels share across sessions. A kernel reads a
//! value by taking a view of it; until it gives the view up, the key cannot be
//! overwritten.

use vstd::prelude::*;

verus! {

/// What the cache holds under one key.
struct Entry {
    key: Vec<u8>,
    value: Vec<u32>,
    lent: bool,
}

/// What a key of the cache stands for: its words, and whether a kernel holds a
/// view of them.
pub struct Line {
    pub value: Seq<u32>,
    pub lent: bool,
}

/// A map from byte-string keys to sequences of 32-bit words.
pub struct Cache {
    entries: Vec<Entry>,
}

/// No key occurs twice in `entries`.
spec fn distinct_keys(entries: Seq<Entry>) -> bool {
    forall|i: int, j: int|
        0 <= i < entries.len() && 0 <= j < entries.len() && i != j
            ==> (#[trigger] entries[i]).key@ != (#[trigger] entries[j]).key@
}

/// Some entry of `entries` has the key `key`.
spec fn has_key(entries: Seq<Entry>, key: Seq<u8>) -> bool {
    exists|i: int| 0 <= i < entries.len() && (#[trigger] entries[i]).key@ == key
}

/// The place in `entries` of the entry with the key `key`.
spec fn place_of(entries: Seq<Entry>, key: Seq<u8>) -> int {
    choose|i: int| 0 <= i < entries.len() && (#[trigger] entries[i]).key@ == key
}

/// The map that `entries` stands for.
spec fn lines_of(entries: Seq<Entry>) -> Map<Seq<u8>, Line> {
    Map::new(
        |key: Seq<u8>| has_key(entries, key),
        |key: Seq<u8>|
            Line { value: entries[place_of(entries, key)].value@, lent: entries[place_of(entries, key)].lent },
    )
}

/// The words that `lines` holds under `key`: none where the key is unknown.
pub open spec fn words_of(lines: Map<Seq<u8>, Line>, key: Seq<u8>) -> Seq<u32> {
    if lines.contains_key(key) {
        lines[key].value
    } else {
        Seq::empty()
    }
}

/// A kernel holds a view of what `lines` has under `key`.
pub open spec fn on_loan(lines: Map<Seq<u8>, Line>, key: Seq<u8>) -> bool {
    lines.contains_key(key) && lines[key].lent
}

/// `lines` after a kernel took a view of `key`.
pub open spec fn after_get(lines: Map<Seq<u8>, Line>, key: Seq<u8>) -> Map<Seq<u8>, Line> {
    if lines.contains_key(key) {
        lines.insert(key, Line { value: lines[key].value, lent: true })
    } else {
        lines
    }
}

/// `lines` after an attempt to store `value` under `key`.
pub open spec fn after_put(lines: Map<Seq<u8>, Line>, key: Seq<u8>, value: Seq<u32>) -> Map<
    Seq<u8>,
    Line,
> {
    if on_loan(lines, key) {
        lines
    } else {
        lines.insert(key, Line { value, lent: false })
    }
}

/// `lines` after the kernel gave up its view of `key`.
pub open spec fn after_release(lines: Map<Seq<u8>, Line>, key: Seq<u8>) -> Map<Seq<u8>, Line> {
    if lines.contains_key(key) {
        lines.insert(key, Line { value: lines[key].value, lent: false })
    } else {
        lines
    }
}

proof fn lemma_place_of(entries: Seq<Entry>, key: Seq<u8>, i: int)
    requires
        distinct_keys(entries),
        0 <= i < entries.len(),
        entries[i].key@ == key,
    ensures
        has_key(entries, key),
        place_of(entries, key) == i,
{
    let p = place_of(entries, key);
    assert(0 <= p < entries.len() && entries[p].key@ == key);
    if p != i {
        assert(entries[p].key@ != entries[i].key@);
    }
}

/// Replacing the entry at `i` by one with the same key changes that key's line
/// and no other.
proof fn lemma_replace(entries: Seq<Entry>, i: int, entry: Entry)
    requires
        distinct_keys(entries),
        0 <= i < entries.len(),
        entry.key@ == entries[i].key@,
    ensures
        distinct_keys(entries.update(i, entry)),
        lines_of(entries.update(i, entry)) == lines_of(entries).insert(
            entry.key@,
            Line { value: entry.value@, lent: entry.lent },
        ),
{
    let after = entries.update(i, entry);
    assert forall|a: int, b: int| 0 <= a < after.len() && 0 <= b < after.len() && a != b implies (
    #[trigger] after[a]).key@ != (#[trigger] after[b]).key@ by {
        assert(after[a].key@ == entries[a].key@);
        assert(after[b].key@ == entries[b].key@);
    }
    let want = lines_of(entries).insert(entry.key@, Line { value: entry.value@, lent: entry.lent });
    assert forall|key: Seq<u8>| lines_of(after).contains_key(key) <==> want.contains_key(key) by {
        if has_key(after, key) {
            let p = place_of(after, key);
            assert(entries[p].key@ == key);
        }
        if has_key(entries, key) {
            let p = place_of(entries, key);
            assert(after[p].key@ == key);
        }
        if key == entry.key@ {
            assert(after[i].key@ == key);
        }
    }
    assert forall|key: Seq<u8>| lines_of(after).contains_key(key) implies lines_of(after)[key]
        == want[key] by {
        let p = place_of(after, key);
        lemma_place_of(entries, key, p);
        if p == i {
        } else {
            assert(key != entry.key@);
        }
    }
    assert(lines_of(after) =~= want);
}

/// Appending an entry with a new key adds that key's line and changes no other.
proof fn lemma_append(entries: Seq<Entry>, entry: Entry)
    requires
        distinct_keys(entries),
        !has_key(entries, entry.key@),
    ensures
        distinct_keys(entries.push(entry)),
        lines_of(entries.push(entry)) == lines_of(entries).insert(
            entry.key@,
            Line { value: entry.value@, lent: entry.lent },
        ),
{
    let after = entries.push(entry);
    assert forall|a: int, b: int| 0 <= a < after.len() && 0 <= b < after.len() && a != b implies (
    #[trigger] after[a]).key@ != (#[trigger] after[b]).key@ by {
        if a < entries.len() {
            assert(entries[a].key@ == after[a].key@);
        }
        if b < entries.len() {
            assert(entries[b].key@ == after[b].key@);
        }
    }
    let want = lines_of(entries).insert(entry.key@, Line { value: entry.value@, lent: entry.lent });
    assert forall|key: Seq<u8>| lines_of(after).contains_key(key) <==> want.contains_key(key) by {
        if has_key(after, key) {
            let p = place_of(after, key);
            if p < entries.len() {
                assert(entries[p].key@ == key);
            }
        }
        if has_key(entries, key) {
            let p = place_of(entries, key);
            assert(after[p].key@ == key);
        }
        if key == entry.key@ {
            assert(after[entries.len() as int].key@ == key);
        }
    }
    assert forall|key: Seq<u8>| lines_of(after).contains_key(key) implies lines_of(after)[key]
        == want[key] by {
        let p = place_of(after, key);
        if p < entries.len() {
            lemma_place_of(entries, key, p);
        }
    }
    assert(lines_of(after) =~= want);
}

/// What was stored under a key that is not on loan is what a later read of
/// that key hands out.
pub proof fn lemma_put_then_get(lines: Map<Seq<u8>, Line>, key: Seq<u8>, value: Seq<u32>)
    requires
        !on_loan(lines, key),
    ensures
        words_of(after_put(lines, key, value), key) == value,
        words_of(after_release(after_put(lines, key, value), key), key) == value,
        !on_loan(after_release(after_put(lines, key, value), key), key),
{
}

/// A key that is on loan keeps its words through a put, and the put ends the
/// loan once it is answered.
pub proof fn lemma_put_on_loan(lines: Map<Seq<u8>, Line>, key: Seq<u8>, value: Seq<u32>)
    requires
        on_loan(lines, key),
    ensures
        after_put(lines, key, value) == lines,
        words_of(after_release(after_put(lines, key, value), key), key) == words_of(lines, key),
        !on_loan(after_release(after_put(lines, key, value), key), key),
{
}

/// A read, a put or a release of one key leaves every other key as it was.
pub proof fn lemma_other_keys_untouched(
    lines: Map<Seq<u8>, Line>,
    key: Seq<u8>,
    value: Seq<u32>,
    other: Seq<u8>,
)
    requires
        other != key,
    ensures
        after_get(lines, key).contains_key(other) == lines.contains_key(other),
        after_put(lines, key, value).contains_key(other) == lines.contains_key(other),
        after_release(lines, key).contains_key(other) == lines.contains_key(other),
        lines.contains_key(other) ==> after_get(lines, key)[other] == lines[other] && after_put(
            lines,
            key,
            value,
        )[other] == lines[other] && after_release(lines, key)[other] == lines[other],
{
}

/// Whether `a` and `b` hold the same bytes.
pub fn same_bytes(a: &[u8], b: &[u8]) -> (same: bool)
    ensures
        same == (a@ == b@),
{
    if a.len() != b.len() {
        return false;
    }
    let mut i: usize = 0;
    while i < a.len()
        invariant
            i <= a.len(),
            a.len() == b.len(),
            forall|j: int| 0 <= j < i ==> a@[j] == b@[j],
        decreases a.len() - i,
    {
        if a[i] != b[i] {
            return false;
        }
        i += 1;
    }
    assert(a@ =~= b@);
    true
}

/// A copy of `words`.
pub fn copy_words(words: &[u32]) -> (copy: Vec<u32>)
    ensures
        copy@ == words@,
{
    let mut copy: Vec<u32> = Vec::new();
    let mut i: usize = 0;
    while i < words.len()
        invariant
            i <= words.len(),
            copy@ == words@.subrange(0, i as int),
        decreases words.len() - i,
    {
        copy.push(words[i]);
        assert(copy@ =~= words@.subrange(0, i + 1));
        i += 1;
    }
    assert(copy@ =~= words@);
    copy
}

/// A copy of `bytes`.
pub fn copy_bytes(bytes: &[u8]) -> (copy: Vec<u8>)
    ensures
        copy@ == bytes@,
{
    let mut copy: Vec<u8> = Vec::new();
    let mut i: usize = 0;
    while i < bytes.len()
        invariant
            i <= bytes.len(),
            copy@ == bytes@.subrange(0, i as int),
        decreases bytes.len() - i,
    {
        copy.push(bytes[i]);
        assert(copy@ =~= bytes@.subrange(0, i + 1));
        i += 1;
    }
    assert(copy@ =~= bytes@);
    copy
}

impl View for Cache {
    type V = Map<Seq<u8>, Line>;

    /// The line under each key that the cache knows.
    closed spec fn view(&self) -> Map<Seq<u8>, Line> {
        lines_of(self.entries@)
    }
}

impl Cache {
    /// No key is held twice.
    pub closed spec fn wf(&self) -> bool {
        distinct_keys(self.entries@)
    }

    /// A cache that knows no key.
    pub fn new() -> (cache: Cache)
        ensures
            cache.wf(),
            cache@ == Map::<Seq<u8>, Line>::empty(),
    {
        let cache = Cache { entries: Vec::new() };
        assert(cache@ =~= Map::<Seq<u8>, Line>::empty());
        cache
    }

    /// Where the entry for `key` stands, if there is one.
    fn find(&self, key: &[u8]) -> (place: Option<usize>)
        ensures
            place is Some <==> has_key(self.entries@, key@),
            place is Some ==> place->0 < self.entries@.len() && self.entries@[place->0 as int].key@
                == key@,
    {
        let mut i: usize = 0;
        while i < self.entries.len()
            invariant
                i <= self.entries@.len(),
                forall|j: int| 0 <= j < i ==> (#[trigger] self.entries@[j]).key@ != key@,
            decreases self.entries@.len() - i,
        {
            if same_bytes(self.entries[i].key.as_slice(), key) {
                return Some(i);
            }
            i += 1;
        }
        None
    }

    /// Hands out the words under `key` and marks them as lent to the kernel.
    /// An unknown key has no words, and nothing is lent.
    pub fn get(&mut self, key: &[u8]) -> (words: Vec<u32>)
        requires
            old(self).wf(),
        ensures
            final(self).wf(),
            words@ == words_of(old(self)@, key@),
            final(self)@ == after_get(old(self)@, key@),
    {
        match self.find(key) {
            None => Vec::new(),
            Some(place) => {
                let words = copy_words(self.entries[place].value.as_slice());
                proof {
                    let entry = Entry {
                        key: self.entries@[place as int].key,
                        value: self.entries@[place as int].value,
                        lent: true,
                    };
                    lemma_place_of(self.entries@, key@, place as int);
                    lemma_replace(self.entries@, place as int, entry);
                }
                self.entries[place].lent = true;
                words
            },
        }
    }

    /// Stores a copy of `value` under `key`, unless the kernel holds a view of
    /// what is there: then nothing changes and the call fails.
    pub fn put(&mut self, key: &[u8], value: &[u32]) -> (result: Result<(), ()>)
        requires
            old(self).wf(),
        ensures
            final(self).wf(),
            result is Err <==> on_loan(old(self)@, key@),
            final(self)@ == after_put(old(self)@, key@, value@),
    {
        match self.find(key) {
            None => {
                let entry = Entry { key: copy_bytes(key), value: copy_words(value), lent: false };
                proof {
                    lemma_append(self.entries@, entry);
                }
                self.entries.push(entry);
                Ok(())
            },
            Some(place) => {
                proof {
                    lemma_place_of(self.entries@, key@, place as int);
                }
                if self.entries[place].lent {
                    Err(())
                } else {
                    let words = copy_words(value);
                    proof {
                        let entry = Entry {
                            key: self.entries@[place as int].key,
                            value: words,
                            lent: false,
                        };
                        lemma_replace(self.entries@, place as int, entry);
                    }
                    self.entries[place].value = words;
                    Ok(())
                }
            },
        }
    }

    /// Ends the kernel's view of `key`, so that the key can be written again.
    pub fn release(&mut self, key: &[u8])
        requires
            old(self).wf(),
        ensures
            final(self).wf(),
            final(self)@ == after_release(old(self)@, key@),
    {
        match self.find(key) {
            None => {},
            Some(place) => {
                proof {
                    let entry = Entry {
                        key: self.entries@[place as int].key,
                        value: self.entries@[place as int].value,
                        lent: false,
                    };
                    lemma_place_of(self.entries@, key@, place as int);
                    lemma_replace(self.entries@, place as int, entry);
                }
                self.entries[place].lent = false;
            },
        }
    }
}

} // verus!
