use vstd::prelude::*;
use vstd::string::*;
use crate::item::{ChromeItem, staged_path_spec};
use crate::paths::join_path;

verus! {

/// The view of an optional master key as bytes.
pub open spec fn key_view(k: Option<Vec<u8>>) -> Option<Seq<u8>> {
    match k {
        None => None,
        Some(v) => Some(v@),
    }
}

/// A verified byte-for-byte copy.
fn clone_bytes(v: &Vec<u8>) -> (r: Vec<u8>)
    ensures
        r@ == v@,
{
    let mut r: Vec<u8> = Vec::new();
    let mut i: usize = 0;
    while i < v.len()
        invariant
            i <= v@.len(),
            r@ == v@.subrange(0, i as int),
        decreases v@.len() - i,
    {
        r.push(v[i]);
        assert(r@ =~= v@.subrange(0, i + 1));
        i = i + 1;
    }
    assert(r@ =~= v@);
    r
}

/// A verified copy of an optional master key.
pub fn clone_master_key(k: &Option<Vec<u8>>) -> (r: Option<Vec<u8>>)
    ensures
        key_view(r) == key_view(*k),
{
    match k {
        None => None,
        Some(v) => Some(clone_bytes(v)),
    }
}

/// A copy the caller must perform to stage an artifact: a plain file copy
/// of `source` to `dest`. A failed copy is tolerated; the staged artifact
/// then keeps any earlier bytes.
#[derive(Debug, Clone)]
pub struct StagedCopy {
    pub source: String,
    pub dest: String,
}

/// One logical browser profile: its private staging directory, a copy of
/// the installation's master key, and the artifact kinds discovered for it.
#[derive(Debug)]
pub struct ChromeUser {
    pub tmp_dir: String,
    pub master_key: Option<Vec<u8>>,
    /// Mutated through `add_item` only, which keeps the entries distinct.
    pub items: Vec<ChromeItem>,
}

impl ChromeUser {
    /// The artifact kinds recorded for this profile, in discovery order.
    pub open spec fn items_seq(self) -> Seq<ChromeItem> {
        self.items@
    }

    /// The set of artifact kinds recorded for this profile.
    pub open spec fn items_set(self) -> Set<ChromeItem> {
        self.items_seq().to_set()
    }

    /// Well-formed: no artifact kind is recorded twice.
    pub open spec fn wf(self) -> bool {
        self.items_seq().no_duplicates()
    }

    /// A fresh profile around a staging directory, carrying the
    /// installation's master key and no artifacts yet.
    pub fn new(master_key: Option<Vec<u8>>, tmp_dir: String) -> (u: ChromeUser)
        ensures
            u.wf(),
            u.items_set() == Set::<ChromeItem>::empty(),
            u.tmp_dir == tmp_dir,
            u.master_key == master_key,
    {
        let u = ChromeUser { tmp_dir, master_key, items: Vec::new() };
        proof {
            assert(u.items_set() =~= Set::<ChromeItem>::empty());
        }
        u
    }

    /// Records an artifact of kind `item` for this profile — at most one
    /// entry per kind, a later file of the same kind keeping the single
    /// entry — and returns the staging copy the caller must perform, from
    /// `file_path` to the kind's fixed staged path.
    pub fn add_item(&mut self, item: ChromeItem, file_path: &str) -> (copy: StagedCopy)
        requires
            old(self).wf(),
        ensures
            final(self).wf(),
            final(self).items_set() == old(self).items_set().insert(item),
            final(self).tmp_dir == old(self).tmp_dir,
            final(self).master_key == old(self).master_key,
            copy.source@ == file_path@,
            copy.dest@ == staged_path_spec(old(self).tmp_dir@, item),
    {
        let name = ChromeItem::temp_name(&item);
        let dest = join_path(self.tmp_dir.as_str(), name.as_str());
        if !contains_item(&self.items, item) {
            let ghost s_old = self.items@;
            self.items.push(item);
            proof {
                lemma_push_to_set(s_old, item);
                assert(forall|j: int| 0 <= j < s_old.len() ==> s_old[j] != item);
                assert(self.items@.no_duplicates());
            }
        } else {
            assert(self.items@.to_set() =~= self.items@.to_set().insert(item));
        }
        StagedCopy { source: file_path.to_owned(), dest }
    }

    /// The artifact kinds staged for this profile, each once.
    pub fn get_items(&self) -> (v: Vec<ChromeItem>)
        ensures
            v@ == self.items_seq(),
    {
        let mut v: Vec<ChromeItem> = Vec::new();
        let mut i: usize = 0;
        while i < self.items.len()
            invariant
                i <= self.items@.len(),
                v@ == self.items@.subrange(0, i as int),
            decreases self.items@.len() - i,
        {
            v.push(self.items[i]);
            assert(v@ =~= self.items@.subrange(0, i + 1));
            i = i + 1;
        }
        assert(v@ =~= self.items@);
        v
    }

    /// The fixed path an artifact of kind `item` is staged at for this
    /// profile.
    pub fn staged_path(&self, item: &ChromeItem) -> (p: String)
        ensures
            p@ == staged_path_spec(self.tmp_dir@, *item),
    {
        let name = ChromeItem::temp_name(item);
        join_path(self.tmp_dir.as_str(), name.as_str())
    }

    /// A field-for-field copy of this profile.
    pub fn duplicate(&self) -> (u: ChromeUser)
        ensures
            u.tmp_dir == self.tmp_dir,
            key_view(u.master_key) == key_view(self.master_key),
            u.items_seq() == self.items_seq(),
    {
        ChromeUser {
            tmp_dir: self.tmp_dir.clone(),
            master_key: clone_master_key(&self.master_key),
            items: copy_items(&self.items),
        }
    }
}

fn copy_items(items: &Vec<ChromeItem>) -> (v: Vec<ChromeItem>)
    ensures
        v@ == items@,
{
    let mut v: Vec<ChromeItem> = Vec::new();
    let mut i: usize = 0;
    while i < items.len()
        invariant
            i <= items@.len(),
            v@ == items@.subrange(0, i as int),
        decreases items@.len() - i,
    {
        v.push(items[i]);
        assert(v@ =~= items@.subrange(0, i + 1));
        i = i + 1;
    }
    assert(v@ =~= items@);
    v
}

proof fn lemma_push_to_set<A>(s: Seq<A>, x: A)
    ensures
        s.push(x).to_set() == s.to_set().insert(x),
{
    assert forall|y: A| #[trigger] s.push(x).to_set().contains(y) implies s.to_set().contains(y)
        || y == x by {
        let i = choose|i: int| 0 <= i < s.push(x).len() && s.push(x)[i] == y;
        if i < s.len() {
            assert(s[i] == y);
        }
    };
    assert forall|y: A| s.to_set().contains(y) || y == x implies #[trigger] s.push(
        x,
    ).to_set().contains(y) by {
        if s.to_set().contains(y) {
            let i = choose|i: int| 0 <= i < s.len() && s[i] == y;
            assert(s.push(x)[i] == y);
        } else {
            assert(s.push(x)[s.len() as int] == y);
        }
    };
    assert(s.push(x).to_set() =~= s.to_set().insert(x));
}

fn contains_item(items: &Vec<ChromeItem>, item: ChromeItem) -> (r: bool)
    ensures
        r == items@.contains(item),
{
    let mut i: usize = 0;
    while i < items.len()
        invariant
            i <= items@.len(),
            forall|j: int| 0 <= j < i ==> items@[j] != item,
        decreases items@.len() - i,
    {
        if items[i] == item {
            assert(items@[i as int] == item);
            assert(items@.contains(item));
            return true;
        }
        i = i + 1;
    }
    false
}

/// Staging is idempotent per kind: recording an artifact kind twice for a
/// profile leaves the same single entry as recording it once, and both
/// recordings stage at the same fixed path, so at most one staged file per
/// kind ever exists, holding the most recent successful copy.
pub proof fn lemma_staging_idempotent(s: Set<ChromeItem>, item: ChromeItem)
    ensures
        s.insert(item).insert(item) == s.insert(item),
{
    assert(s.insert(item).insert(item) =~= s.insert(item));
}

} // verus!
