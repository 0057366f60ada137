//! The in-memory registry of repository records.
//!
//! A registry is a keyed mapping from a repository's name to its record: the
//! names of its records are unique, and looking one up, adding one and
//! updating one go by the name. Persisting a registry inside a larger
//! configuration document is the business of an outside collaborator; every
//! operation here is pure bookkeeping, so that a caller can write the
//! registry back after each mutation.

use vstd::prelude::*;

use crate::git::repo::GitRepository;
use crate::git::scan::str_equal;

verus! {

/// First position in `s` of a record named `name`, or the length of `s`.
pub open spec fn find_name(s: Seq<GitRepository>, name: Seq<char>, i: int) -> int
    decreases s.len() - i
    when 0 <= i <= s.len()
{
    if i == s.len() || s[i].name@ == name {
        i
    } else {
        find_name(s, name, i + 1)
    }
}

/// Whether some record in `s` is named `name`.
pub open spec fn contains_name(s: Seq<GitRepository>, name: Seq<char>) -> bool {
    find_name(s, name, 0) < s.len()
}

/// A position before which no record is named `name`, and which holds a
/// record of that name unless it is the length, is `find_name`.
pub proof fn lemma_find_name_unique(s: Seq<GitRepository>, name: Seq<char>, i: int, j: int)
    requires
        0 <= i <= j <= s.len(),
        forall|k: int| i <= k < j ==> (#[trigger] s[k]).name@ != name,
        j < s.len() ==> s[j].name@ == name,
    ensures
        find_name(s, name, i) == j,
    decreases s.len() - i,
{
    if i < s.len() && s[i].name@ != name {
        lemma_find_name_unique(s, name, i + 1, j);
    }
}

/// No two records of `s` share a name.
pub open spec fn names_unique(s: Seq<GitRepository>) -> bool {
    forall|i: int, j: int|
        0 <= i < j < s.len() ==> (#[trigger] s[i]).name@ != (#[trigger] s[j]).name@
}

/// `s` with `g` put in under its name: the record of that name replaced in
/// place, or `g` appended when the name is new.
pub open spec fn insert_record(s: Seq<GitRepository>, g: GitRepository) -> Seq<GitRepository> {
    if contains_name(s, g.name@) {
        s.update(find_name(s, g.name@, 0), g)
    } else {
        s.push(g)
    }
}

/// All of `list` inserted into `s` in order, each under its name.
pub open spec fn insert_all(s: Seq<GitRepository>, list: Seq<GitRepository>) -> Seq<
    GitRepository,
>
    decreases list.len(),
{
    if list.len() == 0 {
        s
    } else {
        insert_all(insert_record(s, list.first()), list.drop_first())
    }
}

/// An in-memory registry of repository records, keyed by name.
pub struct RepositoryRegistry {
    repos: Vec<GitRepository>,
}

impl RepositoryRegistry {
    /// The records, in insertion order.
    pub closed spec fn view(&self) -> Seq<GitRepository> {
        self.repos@
    }

    /// The registry's invariant: record names are unique.
    pub open spec fn wf(&self) -> bool {
        names_unique(self@)
    }

    /// An empty registry, or one holding the given records, each inserted
    /// under its name in order (a later record of the same name replaces an
    /// earlier one).
    pub fn new(repositories: Option<Vec<GitRepository>>) -> (r: RepositoryRegistry)
        ensures
            r.wf(),
            match repositories {
                Some(list) => r@ == insert_all(Seq::<GitRepository>::empty(), list@),
                None => r@ == Seq::<GitRepository>::empty(),
            },
    {
        let mut registry = RepositoryRegistry { repos: Vec::new() };
        match repositories {
            Some(list) => {
                let ghost all = list@;
                let mut list = list;
                let mut i: usize = 0;
                proof {
                    assert(all.skip(0) =~= all);
                }
                while i < list.len()
                    invariant
                        registry.wf(),
                        i <= list.len(),
                        list@ == all,
                        insert_all(Seq::<GitRepository>::empty(), all) == insert_all(
                            registry@,
                            all.skip(i as int),
                        ),
                    decreases list@.len() - i,
                {
                    let g = list[i].clone_record();
                    proof {
                        assert(all.skip(i as int).first() == all[i as int]);
                        assert(all.skip(i as int).drop_first() =~= all.skip(i as int + 1));
                    }
                    registry.update_repo(g);
                    i = i + 1;
                }
                proof {
                    assert(all.skip(list@.len() as int) =~= Seq::<GitRepository>::empty());
                }
                registry
            },
            None => registry,
        }
    }

    /// The record named `repo`, when the registry holds one.
    pub fn get_repo(&self, repo: &str) -> (r: Option<&GitRepository>)
        requires
            self.wf(),
        ensures
            match r {
                Some(g) => contains_name(self@, repo@) && *g == self@[find_name(self@, repo@, 0)],
                None => !contains_name(self@, repo@),
            },
    {
        let n = self.repos.len();
        let mut i: usize = 0;
        while i < n
            invariant
                i <= n,
                n == self@.len(),
                forall|k: int| 0 <= k < i ==> (#[trigger] self@[k]).name@ != repo@,
            decreases n - i,
        {
            if str_equal(self.repos[i].name.as_str(), repo) {
                proof {
                    lemma_find_name_unique(self@, repo@, 0, i as int);
                }
                return Some(&self.repos[i]);
            }
            i = i + 1;
        }
        proof {
            lemma_find_name_unique(self@, repo@, 0, n as int);
        }
        None
    }

    /// Puts `repo` in under its name: the record of that name is replaced,
    /// or `repo` is appended when the name is new.
    pub fn update_repo(&mut self, repo: GitRepository)
        requires
            old(self).wf(),
        ensures
            final(self).wf(),
            final(self)@ == insert_record(old(self)@, repo),
    {
        let n = self.repos.len();
        let mut i: usize = 0;
        while i < n
            invariant
                i <= n,
                n == self@.len(),
                self == old(self),
                old(self).wf(),
                forall|k: int| 0 <= k < i ==> (#[trigger] self@[k]).name@ != repo.name@,
            decreases n - i,
        {
            if str_equal(self.repos[i].name.as_str(), repo.name.as_str()) {
                proof {
                    lemma_find_name_unique(self@, repo.name@, 0, i as int);
                }
                self.repos[i] = repo;
                proof {
                    assert(self.repos@ == old(self).repos@.update(i as int, repo));
                    assert forall|a: int, b: int| 0 <= a < b < self@.len() implies (
                    #[trigger] self@[a]).name@ != (#[trigger] self@[b]).name@ by {
                        assert(repo.name@ == old(self)@[i as int].name@);
                        assert(old(self)@[a].name@ != old(self)@[b].name@);
                        assert(self@[a] == if a == i as int {
                            repo
                        } else {
                            old(self)@[a]
                        });
                        assert(self@[b] == if b == i as int {
                            repo
                        } else {
                            old(self)@[b]
                        });
                    }
                }
                return ;
            }
            i = i + 1;
        }
        proof {
            lemma_find_name_unique(self@, repo.name@, 0, n as int);
        }
        self.repos.push(repo);
        proof {
            assert forall|a: int, b: int| 0 <= a < b < self@.len() implies (
            #[trigger] self@[a]).name@ != (#[trigger] self@[b]).name@ by {
                assert(a < old(self)@.len() ==> self@[a] == old(self)@[a]);
                assert(b < old(self)@.len() ==> self@[b] == old(self)@[b]);
            }
        }
    }

    /// Adds a record, keyed by the given name when one is given and by the
    /// record's own name otherwise (the stored record carries the key as its
    /// name). Reports whether the registry already held a record of the
    /// record's own name, which callers may warn about as a duplicate.
    pub fn add_repo(&mut self, name: Option<String>, git_repo: &GitRepository) -> (dup: bool)
        requires
            old(self).wf(),
        ensures
            final(self).wf(),
            dup == contains_name(old(self)@, git_repo.name@),
            exists|stored: GitRepository|
                {
                    &&& final(self)@ == insert_record(old(self)@, stored)
                    &&& stored.name@ == (match name {
                        Some(n) => n@,
                        None => git_repo.name@,
                    })
                    &&& stored.org == git_repo.org
                    &&& stored.url == git_repo.url
                    &&& stored.path == git_repo.path
                },
    {
        let dup = match self.get_repo(git_repo.name.as_str()) {
            Some(_) => true,
            None => false,
        };
        let key = match name {
            Some(n) => n,
            None => git_repo.name.clone(),
        };
        let stored = GitRepository {
            org: git_repo.org.clone(),
            name: key,
            url: git_repo.url.clone(),
            path: git_repo.path.clone(),
        };
        self.update_repo(stored);
        proof {
            assert(self@ == insert_record(old(self)@, stored));
        }
        dup
    }

    /// Puts every record of `other` in, in order, each under its name: a
    /// record of a known name replaces the one held, and the rest are
    /// appended.
    pub fn merge(&mut self, other: RepositoryRegistry)
        requires
            old(self).wf(),
        ensures
            final(self).wf(),
            final(self)@ == insert_all(old(self)@, other@),
    {
        let list = other.repos;
        let ghost all = list@;
        let mut i: usize = 0;
        proof {
            assert(all.skip(0) =~= all);
        }
        while i < list.len()
            invariant
                self.wf(),
                i <= list.len(),
                list@ == all,
                insert_all(old(self)@, all) == insert_all(self@, all.skip(i as int)),
            decreases list@.len() - i,
        {
            let g = list[i].clone_record();
            proof {
                assert(all.skip(i as int).first() == all[i as int]);
                assert(all.skip(i as int).drop_first() =~= all.skip(i as int + 1));
            }
            self.update_repo(g);
            i = i + 1;
        }
        proof {
            assert(all.skip(list@.len() as int) =~= Seq::<GitRepository>::empty());
        }
    }

    /// The records, in insertion order.
    pub fn get_repos(&self) -> (r: &Vec<GitRepository>)
        ensures
            r@ == self@,
    {
        &self.repos
    }
}

impl GitRepository {
    /// A copy of the record, field by field.
    pub fn clone_record(&self) -> (r: GitRepository)
        ensures
            r == *self,
    {
        GitRepository {
            org: self.org.clone(),
            name: self.name.clone(),
            url: self.url.clone(),
            path: self.path.clone(),
        }
    }
}

} // verus!
