//! The accounts of one kind that a program keeps, each at its own address.

use vstd::prelude::*;
use crate::pubkey::Pubkey;

verus! {

/// One account: where it lies and what it holds.
#[derive(Clone, Debug, PartialEq, Eq)]
struct Entry<T> {
    key: Pubkey,
    value: T,
}

/// The accounts of one kind, by address. An address holds at most one account,
/// and an account that was created stays where it is.
#[derive(Debug, PartialEq, Eq)]
pub struct Ledger<T> {
    entries: Vec<Entry<T>>,
}

/// Whether `key` is the address of one of `entries`.
spec fn occupied<T>(entries: Seq<Entry<T>>, key: Pubkey) -> bool {
    exists|i: int| 0 <= i < entries.len() && #[trigger] entries[i].key == key
}

/// Where among `entries` the account at `key` stands.
spec fn position<T>(entries: Seq<Entry<T>>, key: Pubkey) -> int {
    choose|i: int| 0 <= i < entries.len() && #[trigger] entries[i].key == key
}

/// Whether no two of `entries` share an address.
spec fn distinct<T>(entries: Seq<Entry<T>>) -> bool {
    forall|i: int, j: int|
        0 <= i < j < entries.len() ==> #[trigger] entries[i].key != #[trigger] entries[j].key
}

/// The accounts of `entries` by address.
spec fn contents<T>(entries: Seq<Entry<T>>) -> Map<Pubkey, T> {
    Map::new(
        |key: Pubkey| occupied(entries, key),
        |key: Pubkey| entries[position(entries, key)].value,
    )
}

proof fn lemma_contents_at<T>(entries: Seq<Entry<T>>, i: int)
    requires
        distinct(entries),
        0 <= i < entries.len(),
    ensures
        contents(entries).contains_key(entries[i].key),
        contents(entries)[entries[i].key] == entries[i].value,
{
    let key = entries[i].key;
    assert(occupied(entries, key));
    let p = position(entries, key);
    assert(entries[p].key == key);
    if p < i {
        assert(entries[p].key != entries[i].key);
    } else if i < p {
        assert(entries[i].key != entries[p].key);
    }
}

proof fn lemma_contents_push<T>(entries: Seq<Entry<T>>, key: Pubkey, value: T)
    requires
        distinct(entries),
        !occupied(entries, key),
    ensures
        distinct(entries.push(Entry { key, value })),
        contents(entries.push(Entry { key, value })) == contents(entries).insert(key, value),
{
    let grown = entries.push(Entry { key, value });
    assert forall|i: int, j: int| 0 <= i < j < grown.len() implies #[trigger] grown[i].key
        != #[trigger] grown[j].key by {
        if j == entries.len() {
            assert(entries[i].key == grown[i].key);
        } else {
            assert(entries[i].key != entries[j].key);
        }
    }
    assert forall|k: Pubkey| contents(grown).contains_key(k) == contents(entries).insert(
        key,
        value,
    ).contains_key(k) by {
        if occupied(grown, k) {
            let i = position(grown, k);
            if i < entries.len() {
                assert(entries[i].key == k);
            }
        }
        if occupied(entries, k) {
            let i = position(entries, k);
            assert(grown[i].key == k);
        }
        if k == key {
            assert(grown[entries.len() as int].key == k);
        }
    }
    assert forall|k: Pubkey| #[trigger] contents(grown).contains_key(k) implies contents(grown)[k]
        == contents(entries).insert(key, value)[k] by {
        let i = position(grown, k);
        lemma_contents_at(grown, i);
        if k != key {
            assert(i < entries.len());
            lemma_contents_at(entries, i);
        }
    }
    assert(contents(grown) =~= contents(entries).insert(key, value));
}

proof fn lemma_contents_update<T>(entries: Seq<Entry<T>>, i: int, value: T)
    requires
        distinct(entries),
        0 <= i < entries.len(),
    ensures
        distinct(entries.update(i, Entry { key: entries[i].key, value })),
        contents(entries.update(i, Entry { key: entries[i].key, value })) == contents(
            entries,
        ).insert(entries[i].key, value),
{
    let key = entries[i].key;
    let changed = entries.update(i, Entry { key, value });
    assert forall|a: int, b: int| 0 <= a < b < changed.len() implies #[trigger] changed[a].key
        != #[trigger] changed[b].key by {
        assert(changed[a].key == entries[a].key);
        assert(changed[b].key == entries[b].key);
        assert(entries[a].key != entries[b].key);
    }
    assert forall|k: Pubkey| contents(changed).contains_key(k) == contents(entries).insert(
        key,
        value,
    ).contains_key(k) by {
        if occupied(changed, k) {
            let p = position(changed, k);
            assert(entries[p].key == k);
        }
        if occupied(entries, k) {
            let p = position(entries, k);
            assert(changed[p].key == k);
        }
        if k == key {
            assert(changed[i].key == k);
        }
    }
    assert forall|k: Pubkey| #[trigger] contents(changed).contains_key(k) implies contents(
        changed,
    )[k] == contents(entries).insert(key, value)[k] by {
        let p = position(changed, k);
        lemma_contents_at(changed, p);
        if k != key {
            assert(p != i);
            lemma_contents_at(entries, p);
        }
    }
    assert(contents(changed) =~= contents(entries).insert(key, value));
}

impl<T> View for Ledger<T> {
    type V = Map<Pubkey, T>;

    closed spec fn view(&self) -> Map<Pubkey, T> {
        contents(self.entries@)
    }
}

impl<T: Copy> Clone for Ledger<T> {
    fn clone(&self) -> (copy: Ledger<T>)
        ensures
            copy@ == self@,
    {
        proof {
            use_type_invariant(self);
        }
        let mut entries: Vec<Entry<T>> = Vec::new();
        let mut i: usize = 0;
        while i < self.entries.len()
            invariant
                i <= self.entries@.len(),
                entries@ == self.entries@.subrange(0, i as int),
            decreases self.entries@.len() - i,
        {
            entries.push(Entry { key: self.entries[i].key, value: self.entries[i].value });
            assert(entries@ =~= self.entries@.subrange(0, i + 1));
            i += 1;
        }
        assert(entries@ =~= self.entries@);
        Ledger { entries }
    }
}

impl<T> Ledger<T> {
    #[verifier::type_invariant]
    spec fn well_formed(self) -> bool {
        distinct(self.entries@)
    }

    /// A ledger without accounts.
    pub fn new() -> (ledger: Ledger<T>)
        ensures
            ledger@ == Map::<Pubkey, T>::empty(),
    {
        let ledger = Ledger { entries: Vec::new() };
        assert(ledger@ =~= Map::<Pubkey, T>::empty());
        ledger
    }

    /// Where the account at `key` stands, if there is one.
    fn find(&self, key: &Pubkey) -> (found: Option<usize>)
        ensures
            match found {
                Some(i) => i < self.entries@.len() && self.entries@[i as int].key == *key,
                None => !occupied(self.entries@, *key),
            },
    {
        let mut i: usize = 0;
        while i < self.entries.len()
            invariant
                i <= self.entries@.len(),
                forall|j: int| 0 <= j < i ==> self.entries@[j].key != *key,
            decreases self.entries@.len() - i,
        {
            if self.entries[i].key == *key {
                return Some(i);
            }
            i += 1;
        }
        None
    }

    /// Whether an account lies at `key`.
    pub fn contains_key(&self, key: &Pubkey) -> (held: bool)
        ensures
            held == self@.contains_key(*key),
    {
        self.find(key).is_some()
    }

    /// The account at `key`, if there is one.
    pub fn get(&self, key: &Pubkey) -> (found: Option<&T>)
        ensures
            match found {
                Some(value) => self@.contains_key(*key) && *value == self@[*key],
                None => !self@.contains_key(*key),
            },
    {
        proof {
            use_type_invariant(self);
        }
        match self.find(key) {
            Some(i) => {
                proof {
                    lemma_contents_at(self.entries@, i as int);
                }
                Some(&self.entries[i].value)
            },
            None => None,
        }
    }

    /// Creates the account at `key` unless one lies there already, and says
    /// whether it did. An account that lies there stays as it is.
    pub fn create(&mut self, key: Pubkey, value: T) -> (created: bool)
        ensures
            created == !old(self)@.contains_key(key),
            created ==> final(self)@ == old(self)@.insert(key, value),
            !created ==> *final(self) == *old(self),
    {
        proof {
            use_type_invariant(&*self);
        }
        match self.find(&key) {
            Some(_) => false,
            None => {
                proof {
                    lemma_contents_push(self.entries@, key, value);
                }
                let mut entries: Vec<Entry<T>> = Vec::new();
                std::mem::swap(&mut entries, &mut self.entries);
                entries.push(Entry { key, value });
                self.entries = entries;
                true
            },
        }
    }

    /// Puts `value` at `key`, in place of the account that lies there if one does.
    pub fn put(&mut self, key: Pubkey, value: T)
        ensures
            final(self)@ == old(self)@.insert(key, value),
    {
        proof {
            use_type_invariant(&*self);
        }
        let found = self.find(&key);
        let mut entries: Vec<Entry<T>> = Vec::new();
        std::mem::swap(&mut entries, &mut self.entries);
        match found {
            Some(i) => {
                proof {
                    lemma_contents_update(entries@, i as int, value);
                }
                entries.set(i, Entry { key, value });
            },
            None => {
                proof {
                    lemma_contents_push(entries@, key, value);
                }
                entries.push(Entry { key, value });
            },
        }
        self.entries = entries;
    }
}

} // verus!
