//! Passphrases staged for connect attempts, keyed by the network's D-Bus
//! object path. A connect stages the passphrase the user typed; IWD's agent
//! reads it back when IWD asks for one; the attempt discards it when it ends.

use vstd::prelude::*;

use crate::text::text_eq;

verus! {

/// The passphrase staged for `path` in a list of stagings: the last staging
/// of that path wins.
pub open spec fn staged_lookup(entries: Seq<(String, String)>, path: Seq<char>) -> Option<Seq<char>>
    decreases entries.len(),
{
    if entries.len() == 0 {
        None
    } else if entries.last().0@ == path {
        Some(entries.last().1@)
    } else {
        staged_lookup(entries.drop_last(), path)
    }
}

/// The stagings of `entries` for every path but `path`, in order.
pub open spec fn without_path(entries: Seq<(String, String)>, path: Seq<char>) -> Seq<(String, String)>
    decreases entries.len(),
{
    if entries.len() == 0 {
        entries
    } else {
        let rest = without_path(entries.drop_last(), path);
        if entries.last().0@ == path {
            rest
        } else {
            rest.push(entries.last())
        }
    }
}

/// Looking a path up after dropping the stagings of `path` finds nothing for
/// `path` and the same as before for any other path.
proof fn lemma_without_path_lookup(entries: Seq<(String, String)>, path: Seq<char>, other: Seq<char>)
    ensures
        staged_lookup(without_path(entries, path), other) == if other == path {
            None
        } else {
            staged_lookup(entries, other)
        },
    decreases entries.len(),
{
    if entries.len() > 0 {
        lemma_without_path_lookup(entries.drop_last(), path, other);
        let rest = without_path(entries.drop_last(), path);
        if entries.last().0@ != path {
            assert(rest.push(entries.last()).drop_last() =~= rest);
        }
    }
}

/// Staged passphrases, by network object path.
#[derive(Debug)]
pub struct PassphraseStore {
    entries: Vec<(String, String)>,
}

impl View for PassphraseStore {
    type V = Map<Seq<char>, Seq<char>>;

    closed spec fn view(&self) -> Map<Seq<char>, Seq<char>> {
        Map::new(
            |p: Seq<char>| staged_lookup(self.entries@, p) is Some,
            |p: Seq<char>| staged_lookup(self.entries@, p)->0,
        )
    }
}

impl PassphraseStore {
    /// A store with nothing staged.
    pub fn new() -> (r: Self)
        ensures
            r@ == Map::<Seq<char>, Seq<char>>::empty(),
    {
        let r = PassphraseStore { entries: Vec::new() };
        assert(r@ =~= Map::<Seq<char>, Seq<char>>::empty());
        r
    }

    /// Stages `passphrase` for the network at `path`, replacing an earlier one.
    pub fn insert(&mut self, path: String, passphrase: String)
        ensures
            final(self)@ == old(self)@.insert(path@, passphrase@),
    {
        let ghost old_entries = self.entries@;
        let ghost k = path@;
        let ghost v = passphrase@;
        self.entries.push((path, passphrase));
        assert(self.entries@.drop_last() =~= old_entries);
        assert(self@ =~= old(self)@.insert(k, v)) by {
            assert forall|p: Seq<char>|
                staged_lookup(self.entries@, p) == if p == k {
                    Some(v)
                } else {
                    staged_lookup(old_entries, p)
                } by {}
        }
    }

    /// Drops whatever is staged for the network at `path`.
    pub fn discard(&mut self, path: &str)
        ensures
            final(self)@ == old(self)@.remove(path@),
    {
        let ghost old_entries = self.entries@;
        let mut kept: Vec<(String, String)> = Vec::new();
        let mut i: usize = 0;
        assert(old_entries.take(0) =~= Seq::<(String, String)>::empty());
        while i < self.entries.len()
            invariant
                self.entries@ == old_entries,
                i <= old_entries.len(),
                kept@ == without_path(old_entries.take(i as int), path@),
            decreases old_entries.len() - i,
        {
            let ghost prefix = old_entries.take(i + 1);
            assert(prefix.drop_last() =~= old_entries.take(i as int));
            assert(prefix.last() == old_entries[i as int]);
            if !text_eq(self.entries[i].0.as_str(), path) {
                let entry = (self.entries[i].0.clone(), self.entries[i].1.clone());
                kept.push(entry);
            }
            i = i + 1;
        }
        assert(old_entries.take(old_entries.len() as int) =~= old_entries);
        self.entries = kept;
        assert(self@ =~= old(self)@.remove(path@)) by {
            assert forall|p: Seq<char>|
                staged_lookup(self.entries@, p) == if p == path@ {
                    None
                } else {
                    staged_lookup(old_entries, p)
                } by {
                lemma_without_path_lookup(old_entries, path@, p);
            }
        }
    }

    /// The passphrase staged for the network at `path`, if any.
    pub fn get(&self, path: &str) -> (r: Option<String>)
        ensures
            match r {
                Some(v) => self@.contains_key(path@) && self@[path@] == v@,
                None => !self@.contains_key(path@),
            },
    {
        let mut i = self.entries.len();
        assert(self.entries@.take(i as int) =~= self.entries@);
        while i > 0
            invariant
                i <= self.entries@.len(),
                staged_lookup(self.entries@, path@) == staged_lookup(self.entries@.take(i as int), path@),
            decreases i,
        {
            let ghost prefix = self.entries@.take(i as int);
            assert(prefix.drop_last() =~= self.entries@.take(i - 1));
            assert(prefix.last() == self.entries@[i - 1]);
            if text_eq(self.entries[i - 1].0.as_str(), path) {
                return Some(self.entries[i - 1].1.clone());
            }
            i = i - 1;
        }
        None
    }
}

} // verus!
