//! The data model: packages, repositories, the editor state, and the local
//! filter that the incremental search recomputes on every edit.

use vstd::prelude::*;
use vstd::string::*;

use crate::text::{contains_seq, str_contains, str_eq};

verus! {

// ---------------------------------------------------------------------------
// Packages and repositories
// ---------------------------------------------------------------------------

/// Abstract value of an [`ItemRepo`].
#[verifier::ext_equal]
pub enum RepoV {
    Core,
    Extra,
    Archlinuxcn,
    Multilib,
    AbsOther(Seq<char>),
    AUR(int),
}

/// The repository a package belongs to; AUR entries carry their vote count.
#[derive(Debug)]
pub enum ItemRepo {
    Core,
    Extra,
    Archlinuxcn,
    Multilib,
    AbsOther(String),
    AUR(usize),
}

impl View for ItemRepo {
    type V = RepoV;

    open spec fn view(&self) -> RepoV {
        match self {
            ItemRepo::Core => RepoV::Core,
            ItemRepo::Extra => RepoV::Extra,
            ItemRepo::Archlinuxcn => RepoV::Archlinuxcn,
            ItemRepo::Multilib => RepoV::Multilib,
            ItemRepo::AbsOther(s) => RepoV::AbsOther(s@),
            ItemRepo::AUR(votes) => RepoV::AUR(*votes as int),
        }
    }
}

impl Clone for ItemRepo {
    fn clone(&self) -> (res: Self)
        ensures
            res == *self,
    {
        match self {
            ItemRepo::Core => ItemRepo::Core,
            ItemRepo::Extra => ItemRepo::Extra,
            ItemRepo::Archlinuxcn => ItemRepo::Archlinuxcn,
            ItemRepo::Multilib => ItemRepo::Multilib,
            ItemRepo::AbsOther(s) => ItemRepo::AbsOther(s.clone()),
            ItemRepo::AUR(votes) => ItemRepo::AUR(*votes),
        }
    }
}

/// The repository a sync-database name denotes.
pub open spec fn repo_of_name(s: Seq<char>) -> RepoV {
    if s == "core"@ {
        RepoV::Core
    } else if s == "extra"@ {
        RepoV::Extra
    } else if s == "multilib"@ {
        RepoV::Multilib
    } else if s == "archlinuxcn"@ {
        RepoV::Archlinuxcn
    } else if s == "aur"@ {
        RepoV::AUR(0)
    } else {
        RepoV::AbsOther(s)
    }
}

impl ItemRepo {
    /// Maps a sync-database name to its repository tag; an unknown name is
    /// kept verbatim.
    pub fn from_name(name: &str) -> (r: Self)
        ensures
            r@ == repo_of_name(name@),
    {
        if str_eq(name, "core") {
            ItemRepo::Core
        } else if str_eq(name, "extra") {
            ItemRepo::Extra
        } else if str_eq(name, "multilib") {
            ItemRepo::Multilib
        } else if str_eq(name, "archlinuxcn") {
            ItemRepo::Archlinuxcn
        } else if str_eq(name, "aur") {
            ItemRepo::AUR(0)
        } else {
            ItemRepo::AbsOther(String::from_str(name))
        }
    }
}

/// Abstract value of a [`Package`].
#[verifier::ext_equal]
pub struct PackageV {
    pub is_installed: bool,
    pub repo: RepoV,
    pub size: u64,
    pub descipt: Seq<char>,
    pub name: Seq<char>,
    pub version: Seq<char>,
}

/// One known package: its name, version, origin repository, size in KiB,
/// description, and whether it is currently installed.
#[derive(Debug)]
pub struct Package {
    pub is_installed: bool,
    pub repo: ItemRepo,
    pub size: u64,
    pub descipt: String,
    pub name: String,
    pub version: String,
}

impl View for Package {
    type V = PackageV;

    open spec fn view(&self) -> PackageV {
        PackageV {
            is_installed: self.is_installed,
            repo: self.repo@,
            size: self.size,
            descipt: self.descipt@,
            name: self.name@,
            version: self.version@,
        }
    }
}

impl Clone for Package {
    fn clone(&self) -> (res: Self)
        ensures
            res == *self,
    {
        Package {
            is_installed: self.is_installed,
            repo: self.repo.clone(),
            size: self.size,
            descipt: self.descipt.clone(),
            name: self.name.clone(),
            version: self.version.clone(),
        }
    }
}

impl Package {
    pub fn new(
        is_installed: bool,
        repo: ItemRepo,
        size: u64,
        descipt: String,
        name: String,
        version: String,
    ) -> (r: Self)
        ensures
            r == (Package { is_installed, repo, size, descipt, name, version }),
    {
        Self { is_installed, repo, size, descipt, name, version }
    }
}

/// The abstract values of a sequence of packages.
pub open spec fn views(s: Seq<Package>) -> Seq<PackageV> {
    s.map_values(|p: Package| p@)
}

// ---------------------------------------------------------------------------
// Editor state helpers
// ---------------------------------------------------------------------------

/// The edit state of the search box: whether Insert mode is active and the
/// caret position, counted in characters.
#[derive(Debug, Clone, Copy, Default)]
pub struct InsertMode {
    pub enabled: bool,
    pub index: usize,
}

/// Which pane nominally has focus; informational only, key bindings are
/// global within a mode.
#[derive(Debug)]
pub enum Window {
    Info,
    Search,
    List,
}

impl Clone for Window {
    fn clone(&self) -> (res: Self)
        ensures
            res == *self,
    {
        match self {
            Window::Info => Window::Info,
            Window::Search => Window::Search,
            Window::List => Window::List,
        }
    }
}

// ---------------------------------------------------------------------------
// The local filter
// ---------------------------------------------------------------------------

/// The search term occurs in the package's name.
pub open spec fn name_matches(p: PackageV, search: Seq<char>) -> bool {
    contains_seq(p.name, search)
}

/// The packages of `items` whose name contains `search`, in order: the local
/// prefix of the filtered view.
pub open spec fn local_matches(items: Seq<PackageV>, search: Seq<char>) -> Seq<PackageV>
    decreases items.len(),
{
    if items.len() == 0 {
        Seq::empty()
    } else {
        let rest = local_matches(items.drop_last(), search);
        if name_matches(items.last(), search) {
            rest.push(items.last())
        } else {
            rest
        }
    }
}

/// Extending the scanned prefix by one package extends the filter result by
/// that package exactly when its name matches.
pub proof fn lemma_local_matches_step(items: Seq<PackageV>, search: Seq<char>, i: int)
    requires
        0 <= i < items.len(),
    ensures
        local_matches(items.take(i + 1), search) == if name_matches(items[i], search) {
            local_matches(items.take(i), search).push(items[i])
        } else {
            local_matches(items.take(i), search)
        },
{
    assert(items.take(i + 1).drop_last() =~= items.take(i));
    assert(items.take(i + 1).last() == items[i]);
}

/// Every package the filter keeps matches the search term.
pub proof fn lemma_local_matches_all_match(items: Seq<PackageV>, search: Seq<char>)
    ensures
        forall|k: int|
            0 <= k < local_matches(items, search).len() ==> name_matches(
                #[trigger] local_matches(items, search)[k],
                search,
            ),
    decreases items.len(),
{
    if items.len() > 0 {
        lemma_local_matches_all_match(items.drop_last(), search);
        let rest = local_matches(items.drop_last(), search);
        let whole = local_matches(items, search);
        if name_matches(items.last(), search) {
            assert forall|k: int| 0 <= k < whole.len() implies name_matches(
                whole[k],
                search,
            ) by {
                if k < rest.len() {
                    assert(whole[k] == rest[k]);
                } else {
                    assert(whole[k] == items.last());
                }
            }
        }
    }
}

/// On a sequence whose packages all match, the filter is the identity.
pub proof fn lemma_local_matches_id(items: Seq<PackageV>, search: Seq<char>)
    requires
        forall|i: int| 0 <= i < items.len() ==> name_matches(#[trigger] items[i], search),
    ensures
        local_matches(items, search) == items,
    decreases items.len(),
{
    if items.len() > 0 {
        assert(forall|i: int|
            0 <= i < items.drop_last().len() ==> name_matches(
                #[trigger] items.drop_last()[i],
                search,
            ));
        lemma_local_matches_id(items.drop_last(), search);
        assert(items.drop_last().push(items.last()) =~= items);
    }
}

/// Filtering is idempotent: running the filter on its own result with the
/// same search term changes nothing.
pub proof fn lemma_filter_idempotent(items: Seq<PackageV>, search: Seq<char>)
    ensures
        local_matches(local_matches(items, search), search) == local_matches(items, search),
{
    lemma_local_matches_all_match(items, search);
    lemma_local_matches_id(local_matches(items, search), search);
}

/// Computes the local prefix of the filtered view: the packages of `items`
/// whose name contains `search`, in order.
pub fn filter_packages(items: &Vec<Package>, search: &String) -> (r: Vec<Package>)
    ensures
        views(r@) == local_matches(views(items@), search@),
{
    let mut r: Vec<Package> = Vec::new();
    let mut i: usize = 0;
    proof {
        assert(views(items@).take(0) =~= Seq::empty());
        assert(views(r@) =~= Seq::<PackageV>::empty());
    }
    while i < items.len()
        invariant
            i <= items@.len(),
            views(r@) == local_matches(views(items@).take(i as int), search@),
        decreases items@.len() - i,
    {
        proof {
            lemma_local_matches_step(views(items@), search@, i as int);
        }
        let p = &items[i];
        if str_contains(p.name.as_str(), search.as_str()) {
            r.push(p.clone());
            proof {
                assert(views(r@) =~= local_matches(views(items@).take(i + 1), search@));
            }
        } else {
            proof {
                assert(views(r@) == local_matches(views(items@).take(i + 1), search@));
            }
        }
        i += 1;
    }
    proof {
        assert(views(items@).take(items@.len() as int) =~= views(items@));
    }
    r
}

} // verus!
