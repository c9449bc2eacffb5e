use vstd::prelude::*;
use vstd::string::*;
use crate::item::{ChromeItem, classify_path, staged_path_spec};
use crate::paths::{
    base_name, contains_sub, contains_substr, dec_digits, dec_str, dir_name, file_name,
    lemma_split_at, parent_dir,
};
use crate::user::{ChromeUser, StagedCopy, clone_master_key, key_view};

verus! {

/// Whether a path names the relocated cookie store: base name `Cookies`
/// directly under a `Network` directory.
pub open spec fn is_network_cookies(p: Seq<char>) -> bool {
    base_name(p) == "Cookies"@ && base_name(dir_name(p)) == "Network"@
}

/// The profile directory a classified file belongs to: its parent
/// directory, or the grandparent for a cookie store under `Network`.
pub open spec fn profile_dir_of(p: Seq<char>) -> Seq<char> {
    if is_network_cookies(p) {
        dir_name(dir_name(p))
    } else {
        dir_name(p)
    }
}

/// The reserved fragment of the host product's own system profile; a path
/// holding it is never a target.
pub open spec fn system_profile_marker() -> Seq<char> {
    "System Profile"@
}

/// Where a discovered file goes: its profile directory and artifact kind;
/// nothing for the files the discovery walk skips.
pub open spec fn file_target(p: Seq<char>) -> Option<(Seq<char>, ChromeItem)> {
    if contains_sub(p, system_profile_marker()) {
        None
    } else {
        match classify_path(p) {
            None => None,
            Some(k) => Some((profile_dir_of(p), k)),
        }
    }
}

/// The profile map a file list assembles to: walking the files in order,
/// each relevant file adds its kind to the set of its profile directory.
pub open spec fn assemble(files: Seq<Seq<char>>) -> Map<Seq<char>, Set<ChromeItem>>
    decreases files.len(),
{
    if files.len() == 0 {
        Map::empty()
    } else {
        let m = assemble(files.drop_last());
        match file_target(files.last()) {
            None => m,
            Some(t) => m.insert(
                t.0,
                (if m.dom().contains(t.0) {
                    m[t.0]
                } else {
                    Set::empty()
                }).insert(t.1),
            ),
        }
    }
}

/// The files of a walk that are classified and not skipped, in walk order.
pub open spec fn relevant_files(files: Seq<Seq<char>>) -> Seq<Seq<char>> {
    files.filter(|p: Seq<char>| file_target(p) is Some)
}

/// The staging directory of the `k`-th created profile under a root.
pub open spec fn staging_dir(root: Seq<char>, k: int) -> Seq<char> {
    root + "/p"@ + dec_digits(k as nat)
}

/// The map from profile directory to staged kinds a user list denotes.
pub open spec fn user_map_of(us: Seq<(String, ChromeUser)>) -> Map<Seq<char>, Set<ChromeItem>>
    decreases us.len(),
{
    if us.len() == 0 {
        Map::empty()
    } else {
        user_map_of(us.drop_last()).insert(us.last().0@, us.last().1.items_set())
    }
}

/// Distinct profile keys.
pub open spec fn unique_keys(us: Seq<(String, ChromeUser)>) -> bool {
    forall|i: int, j: int| 0 <= i < j < us.len() ==> us[i].0@ != us[j].0@
}

/// The copy stages its source into the staging directory of the profile at
/// index `u`, under its kind's fixed name.
pub open spec fn copy_target_at(c: StagedCopy, us: Seq<(String, ChromeUser)>, u: int) -> bool {
    let t = file_target(c.source@).unwrap();
    &&& 0 <= u < us.len()
    &&& file_target(c.source@) is Some
    &&& us[u].0@ == t.0
    &&& c.dest@ == staged_path_spec(us[u].1.tmp_dir@, t.1)
}

/// The copy stages its source into the staging directory of the source's
/// own profile.
pub open spec fn copy_target_ok(c: StagedCopy, us: Seq<(String, ChromeUser)>) -> bool {
    exists|u: int| copy_target_at(c, us, u)
}

proof fn lemma_user_map_contains(us: Seq<(String, ChromeUser)>, u: int)
    requires
        unique_keys(us),
        0 <= u < us.len(),
    ensures
        user_map_of(us).dom().contains(us[u].0@),
        user_map_of(us)[us[u].0@] == us[u].1.items_set(),
    decreases us.len(),
{
    if u < us.len() - 1 {
        lemma_user_map_contains(us.drop_last(), u);
        assert(us.drop_last()[u] == us[u]);
    }
}

proof fn lemma_user_map_absent(us: Seq<(String, ChromeUser)>, k: Seq<char>)
    requires
        forall|j: int| 0 <= j < us.len() ==> us[j].0@ != k,
    ensures
        !user_map_of(us).dom().contains(k),
    decreases us.len(),
{
    if us.len() > 0 {
        lemma_user_map_absent(us.drop_last(), k);
    }
}

proof fn lemma_user_map_update(us: Seq<(String, ChromeUser)>, u: int, p2: (String, ChromeUser))
    requires
        unique_keys(us),
        0 <= u < us.len(),
        p2.0@ == us[u].0@,
    ensures
        user_map_of(us.update(u, p2)) == user_map_of(us).insert(us[u].0@, p2.1.items_set()),
    decreases us.len(),
{
    let us2 = us.update(u, p2);
    if u == us.len() - 1 {
        assert(us2.drop_last() =~= us.drop_last());
        assert(us2.last() == p2);
        assert(user_map_of(us2) =~= user_map_of(us).insert(us[u].0@, p2.1.items_set()));
    } else {
        assert(us2.drop_last() =~= us.drop_last().update(u, p2));
        assert(us.drop_last()[u] == us[u]);
        lemma_user_map_update(us.drop_last(), u, p2);
        assert(us2.last() == us.last());
        assert(us[u].0@ != us.last().0@);
        assert(user_map_of(us2) =~= user_map_of(us).insert(us[u].0@, p2.1.items_set()));
    }
}

/// Whether the walk's relocated cookie-store rule applies to a path.
fn ends_network_cookies(p: &str) -> (r: bool)
    ensures
        r == is_network_cookies(p@),
{
    proof {
        reveal_strlit("Cookies");
        reveal_strlit("Network");
    }
    let is_cookies = match file_name(p) {
        Some(n) => n == "Cookies".to_owned(),
        None => false,
    };
    if !is_cookies {
        return false;
    }
    let parent = parent_dir(p);
    match file_name(parent.as_str()) {
        Some(n) => n == "Network".to_owned(),
        None => false,
    }
}

fn find_user(users: &Vec<(String, ChromeUser)>, key: &String) -> (r: Option<usize>)
    ensures
        match r {
            Some(u) => 0 <= u < users@.len() && users@[u as int].0@ == key@,
            None => forall|j: int| 0 <= j < users@.len() ==> users@[j].0@ != key@,
        },
{
    let mut i: usize = 0;
    while i < users.len()
        invariant
            i <= users@.len(),
            forall|j: int| 0 <= j < i ==> users@[j].0@ != key@,
        decreases users@.len() - i,
    {
        if users[i].0 == *key {
            return Some(i);
        }
        i = i + 1;
    }
    None
}

/// One browser installation: its data root, the optional master key
/// recovered from its state file, the file paths of one discovery walk of
/// the root, and the profiles assembled from them.
pub struct ChromeInstance {
    pub dir: String,
    pub master_key: Option<Vec<u8>>,
    /// Profiles keyed by profile directory; populated by `load_users` only,
    /// which keeps the keys distinct.
    pub users: Vec<(String, ChromeUser)>,
    pub files: Vec<String>,
}

impl ChromeInstance {
    /// The discovered file paths.
    pub open spec fn files_view(self) -> Seq<Seq<char>> {
        self.files.deep_view()
    }

    /// The assembled profile map: profile directory to staged kinds.
    pub open spec fn user_map(self) -> Map<Seq<char>, Set<ChromeItem>> {
        user_map_of(self.users@)
    }

    /// Well-formed: distinct profile keys, each profile well-formed.
    pub open spec fn wf(self) -> bool {
        &&& unique_keys(self.users@)
        &&& forall|i: int| 0 <= i < self.users@.len() ==> (#[trigger] self.users@[i]).1.wf()
    }

    /// An installation rooted at `dir`, with the master key recovered from
    /// its state file (none when the state file is missing or its key does
    /// not unwrap) and the regular files of one discovery walk of the root.
    /// Reading the state file and walking the tree are the caller's; the
    /// profiles are assembled by `load_users`.
    pub fn new(dir: String, master_key: Option<Vec<u8>>, files: Vec<String>) -> (r: ChromeInstance)
        ensures
            r.wf(),
            r.dir == dir,
            r.master_key == master_key,
            r.files_view() == files.deep_view(),
            r.users@.len() == 0,
            r.user_map() == Map::<Seq<char>, Set<ChromeItem>>::empty(),
    {
        ChromeInstance { dir, master_key, users: Vec::new(), files }
    }

    /// The assembled profiles, copied out in creation order.
    pub fn get_users(&self) -> (v: Vec<ChromeUser>)
        ensures
            v@.len() == self.users@.len(),
            forall|j: int| 0 <= j < v@.len() ==> {
                &&& (#[trigger] v@[j]).tmp_dir == self.users@[j].1.tmp_dir
                &&& key_view(v@[j].master_key) == key_view(self.users@[j].1.master_key)
                &&& v@[j].items_seq() == self.users@[j].1.items_seq()
            },
    {
        let mut v: Vec<ChromeUser> = Vec::new();
        let mut i: usize = 0;
        while i < self.users.len()
            invariant
                i <= self.users@.len(),
                v@.len() == i,
                forall|j: int| 0 <= j < i ==> {
                    &&& (#[trigger] v@[j]).tmp_dir == self.users@[j].1.tmp_dir
                    &&& key_view(v@[j].master_key) == key_view(self.users@[j].1.master_key)
                    &&& v@[j].items_seq() == self.users@[j].1.items_seq()
                },
            decreases self.users@.len() - i,
        {
            v.push(self.users[i].1.duplicate());
            i = i + 1;
        }
        v
    }

    /// One discovery pass over the walked files. Every path holding the
    /// reserved `System Profile` fragment is skipped; every other file is
    /// classified by base name, unclassifiable files are skipped silently;
    /// a classified file is attributed to its parent directory, except a
    /// cookie store under `Network`, attributed to the profile above; a
    /// profile is created at first sight, the `k`-th created one staging
    /// under `<staging_root>/p<k>` with a copy of the installation's master
    /// key; the artifact kind is recorded for the profile, at most once.
    /// Returns, in walk order, one staging copy per relevant file, which
    /// the caller must perform; a copy that fails (a source held open by a
    /// running browser) leaves any earlier staged copy in place and is not
    /// an error.
    pub fn load_users(&mut self, staging_root: &str) -> (copies: Vec<StagedCopy>)
        requires
            old(self).wf(),
            old(self).users@.len() == 0,
        ensures
            final(self).wf(),
            final(self).user_map() == assemble(old(self).files_view()),
            final(self).files == old(self).files,
            final(self).dir == old(self).dir,
            final(self).master_key == old(self).master_key,
            forall|u: int| 0 <= u < final(self).users@.len() ==> {
                &&& (#[trigger] final(self).users@[u]).1.tmp_dir@ == staging_dir(staging_root@, u)
                &&& key_view(final(self).users@[u].1.master_key) == key_view(
                    old(self).master_key,
                )
            },
            copies@.map_values(|c: StagedCopy| c.source@) == relevant_files(
                old(self).files_view(),
            ),
            forall|j: int| 0 <= j < copies@.len() ==> copy_target_ok(
                #[trigger] copies@[j],
                final(self).users@,
            ),
    {
        let ghost files0 = self.files.deep_view();
        let mut copies: Vec<StagedCopy> = Vec::new();
        let mut i: usize = 0;
        proof {
            assert(files0.take(0) =~= Seq::<Seq<char>>::empty());
            assert(relevant_files(files0.take(0)) =~= Seq::<Seq<char>>::empty());
            assert(copies@.map_values(|c: StagedCopy| c.source@) =~= Seq::<Seq<char>>::empty());
        }
        while i < self.files.len()
            invariant
                i <= self.files@.len(),
                self.files == old(self).files,
                self.dir == old(self).dir,
                self.master_key == old(self).master_key,
                files0 == self.files.deep_view(),
                unique_keys(self.users@),
                forall|u: int| 0 <= u < self.users@.len() ==> {
                    &&& (#[trigger] self.users@[u]).1.wf()
                    &&& self.users@[u].1.tmp_dir@ == staging_dir(staging_root@, u)
                    &&& key_view(self.users@[u].1.master_key) == key_view(self.master_key)
                },
                user_map_of(self.users@) == assemble(files0.take(i as int)),
                copies@.map_values(|c: StagedCopy| c.source@) == relevant_files(
                    files0.take(i as int),
                ),
                forall|j: int| 0 <= j < copies@.len() ==> copy_target_ok(
                    #[trigger] copies@[j],
                    self.users@,
                ),
            decreases self.files@.len() - i,
        {
            let file: String = self.files[i].clone();
            proof {
                assert(files0[i as int] == self.files@[i as int]@);
            }
            let target: Option<(String, ChromeItem)> = if contains_substr(
                file.as_str(),
                "System Profile",
            ) {
                proof {
                    assert(file_target(file@) is None);
                }
                None
            } else {
                match ChromeItem::new(file.as_str()) {
                    Err(_) => {
                        proof {
                            assert(file_target(file@) is None);
                        }
                        None
                    },
                    Ok(kind) => {
                        let parent = parent_dir(file.as_str());
                        let pd = if ends_network_cookies(file.as_str()) {
                            parent_dir(parent.as_str())
                        } else {
                            parent
                        };
                        proof {
                            assert(file_target(file@) == Some((pd@, kind)));
                        }
                        Some((pd, kind))
                    },
                }
            };
            proof {
                lemma_assemble_step(files0, i as int);
            }
            match target {
                None => {
                    proof {
                        assert(file_target(file@) is None);
                    }
                },
                Some((profile_dir, kind)) => {
                    proof {
                        assert(file_target(file@) == Some((profile_dir@, kind)));
                    }
                    let ghost pre_users = self.users@;
                    let ghost pre_copies = copies@;
                    let idx: usize = match find_user(&self.users, &profile_dir) {
                        Some(u) => u,
                        None => {
                            proof {
                                lemma_user_map_absent(self.users@, profile_dir@);
                            }
                            let num = dec_str(self.users.len());
                            let mut sd = staging_root.to_owned();
                            sd.append("/p");
                            sd.append(num.as_str());
                            let nu = ChromeUser::new(clone_master_key(&self.master_key), sd);
                            let n = self.users.len();
                            self.users.push((profile_dir, nu));
                            proof {
                                assert(self.users@.drop_last() =~= pre_users);
                            }
                            n
                        },
                    };
                    let ghost mid_users = self.users@;
                    proof {
                        lemma_user_map_contains(mid_users, idx as int);
                    }
                    let mut pair = self.users.remove(idx);
                    let copy = pair.1.add_item(kind, file.as_str());
                    self.users.insert(idx, pair);
                    copies.push(copy);
                    proof {
                        assert(self.users@ =~= mid_users.update(
                            idx as int,
                            (mid_users[idx as int].0, self.users@[idx as int].1),
                        ));
                        lemma_user_map_update(
                            mid_users,
                            idx as int,
                            self.users@[idx as int],
                        );
                        assert(user_map_of(self.users@) == user_map_of(mid_users).insert(
                            profile_dir@,
                            mid_users[idx as int].1.items_set().insert(kind),
                        ));
                        assert(user_map_of(self.users@) =~= assemble(files0.take(i + 1)));
                        // the new copy reaches its profile
                        assert(copy_target_at(copy, self.users@, idx as int));
                        assert(copy_target_ok(copy, self.users@));
                        // earlier copies still reach theirs: keys and staging
                        // directories of existing profiles never change
                        assert forall|j: int| 0 <= j < pre_copies.len() implies copy_target_ok(
                            #[trigger] pre_copies[j],
                            self.users@,
                        ) by {
                            let u = choose|u: int| copy_target_at(pre_copies[j], pre_users, u);
                            assert(self.users@[u].0@ == pre_users[u].0@);
                            assert(self.users@[u].1.tmp_dir@ == pre_users[u].1.tmp_dir@);
                            assert(copy_target_at(pre_copies[j], self.users@, u));
                        };
                        assert(copies@.map_values(|c: StagedCopy| c.source@) =~= relevant_files(
                            files0.take(i + 1),
                        ));
                    }
                },
            }
            i = i + 1;
        }
        proof {
            assert(files0.take(files0.len() as int) =~= files0);
        }
        copies
    }
}

/// One step of the assembly fold: extending the walked prefix by one file
/// either leaves the map unchanged or adds the file's kind to its profile,
/// and appends the file to the relevant list exactly when it has a target.
proof fn lemma_assemble_step(files: Seq<Seq<char>>, i: int)
    requires
        0 <= i < files.len(),
    ensures
        assemble(files.take(i + 1)) == ({
            let m = assemble(files.take(i));
            match file_target(files[i]) {
                None => m,
                Some(t) => m.insert(
                    t.0,
                    (if m.dom().contains(t.0) {
                        m[t.0]
                    } else {
                        Set::empty()
                    }).insert(t.1),
                ),
            }
        }),
        relevant_files(files.take(i + 1)) == if file_target(files[i]) is Some {
            relevant_files(files.take(i)).push(files[i])
        } else {
            relevant_files(files.take(i))
        },
{
    let t1 = files.take(i + 1);
    assert(t1.drop_last() =~= files.take(i));
    assert(t1.last() == files[i]);
    reveal_with_fuel(Seq::filter, 2);
    assert(t1.filter(|p: Seq<char>| file_target(p) is Some) == if file_target(files[i]) is Some {
        t1.drop_last().filter(|p: Seq<char>| file_target(p) is Some).push(files[i])
    } else {
        t1.drop_last().filter(|p: Seq<char>| file_target(p) is Some)
    });
}

/// Cookie-store path folding: a cookie store at `<profile>/Network/Cookies`
/// is attributed to `<profile>`, never to the `Network` directory itself.
pub proof fn lemma_network_cookies_folding(profile: Seq<char>)
    ensures
        profile_dir_of(profile + "/Network/Cookies"@) == profile,
{
    reveal_strlit("/Network/Cookies");
    reveal_strlit("/Network");
    reveal_strlit("Cookies");
    reveal_strlit("Network");
    let s = "/Network/Cookies"@;
    let p = profile + s;
    let n = profile.len() as int;
    lemma_split_at(p, n + 9);
    assert(base_name(p) =~= "Cookies"@);
    assert(dir_name(p) =~= profile + "/Network"@);
    let q = profile + "/Network"@;
    lemma_split_at(q, n + 1);
    assert(base_name(q) =~= "Network"@);
    assert(dir_name(q) =~= profile);
    assert(is_network_cookies(p));
}

} // verus!
