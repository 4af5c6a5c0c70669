//! The application state: the single source of truth the key handler, the
//! search coordinator and the renderer work on, with the invariants that hold
//! after every transition.

use vstd::prelude::*;
use vstd::string::*;

use crate::snapshot::{build_snapshot, has_name, introduced, sorted_unique};
use crate::stat::{local_matches, views, InsertMode, Package, PackageV, Window};
use crate::text::{lemma_contains_empty, str_eq};

verus! {

/// What the surrounding event loop must do after a transition. The loop owns
/// the terminal, the debounce timer, the remote query task and the installer
/// subprocess; the library only decides.
pub enum Action {
    /// Nothing to do.
    Idle,
    /// Abort the pending remote query, if one is running.
    CancelAur,
    /// Abort the pending remote query, then schedule a new debounced query
    /// for this keyword; its delivery must be tagged with the same keyword.
    SpawnAur(String),
    /// Suspend the terminal and run the installer helper on this package
    /// name: remove when the flag is set, install otherwise. Report the
    /// outcome through [`App::apply_install_result`].
    Install(String, bool),
}

/// The whole interactive state.
#[derive(Debug)]
pub struct App {
    /// The immutable startup snapshot, ascending by name, names unique.
    pub items: Vec<Package>,
    /// Termination flag.
    pub exit: bool,
    /// The current view: the local matches of `search`, in snapshot order,
    /// with any delivered remote results appended after them.
    pub filtered: Vec<Package>,
    /// The search buffer.
    pub search: String,
    /// The selected row of `filtered`, if any; never out of bounds.
    pub selected_pack: Option<usize>,
    /// Which pane nominally has focus; informational only.
    pub selected_win: Window,
    /// Insert-mode flag and caret position within `search`.
    pub insert_mode: InsertMode,
    /// The keyword of the one debounced remote query now scheduled, if any;
    /// always the keyword it was launched for, and never empty.
    pub aur_inflight: Option<String>,
    /// Transient user-visible message; overwritten, never queued.
    pub notice: String,
}

/// The filtered view starts with exactly the local matches of the current
/// search term, in snapshot order.
pub open spec fn local_prefix_ok(
    items: Seq<PackageV>,
    search: Seq<char>,
    filtered: Seq<PackageV>,
) -> bool {
    let loc = local_matches(items, search);
    loc.len() <= filtered.len() && filtered.take(loc.len() as int) == loc
}

/// The selection is absent or in bounds.
pub open spec fn selected_ok(sel: Option<usize>, len: int) -> bool {
    match sel {
        Some(i) => i < len,
        None => true,
    }
}

impl App {
    /// The part of the invariant an edit of the search buffer cannot break:
    /// everything but the freshness of the filtered view and the selection.
    pub open spec fn base_wf(self) -> bool {
        &&& sorted_unique(views(self.items@))
        &&& self.insert_mode.index <= self.search@.len()
        &&& match self.aur_inflight {
            Some(k) => k@.len() > 0,
            None => true,
        }
    }

    /// The invariant of the visible state: the snapshot ordered, the caret
    /// in bounds, the selection in bounds, and the view fresh for the
    /// current search term.
    pub open spec fn view_wf(self) -> bool {
        &&& self.base_wf()
        &&& selected_ok(self.selected_pack, self.filtered@.len() as int)
        &&& local_prefix_ok(views(self.items@), self.search@, views(self.filtered@))
    }

    /// At most one remote query is scheduled — the `Option` holds no more —
    /// and the one scheduled, if any, is tagged with the current search
    /// term: the keyword it was launched for, never empty.
    pub open spec fn aur_tag_ok(self) -> bool {
        match self.aur_inflight {
            Some(k) => k@ == self.search@,
            None => true,
        }
    }

    /// The state invariant: it holds after construction and after every
    /// transition.
    pub open spec fn wf(self) -> bool {
        &&& self.view_wf()
        &&& self.aur_tag_ok()
    }

    /// Builds the startup state from the loaded packages: the snapshot is
    /// ordered and de-duplicated, the view shows all of it, the first row is
    /// selected, and no remote query is scheduled.
    pub fn new(all_packages: Vec<Package>) -> (app: App)
        ensures
            app.wf(),
            app.filtered@ == app.items@,
            app.search@ == Seq::<char>::empty(),
            !app.insert_mode.enabled,
            app.insert_mode.index == 0,
            app.selected_pack == if app.filtered@.len() > 0 {
                Some(0usize)
            } else {
                None::<usize>
            },
            !app.exit,
            app.aur_inflight is None,
            app.notice@ == Seq::<char>::empty(),
            app.selected_win is Search,
            forall|k: int|
                0 <= k < app.items@.len() ==> introduced(all_packages@, #[trigger] app.items@[k]),
            forall|i: int|
                0 <= i < all_packages@.len() ==> has_name(
                    views(app.items@),
                    #[trigger] views(all_packages@)[i].name,
                ),
            sorted_unique(views(all_packages@)) ==> app.items@ == all_packages@,
    {
        let items = build_snapshot(all_packages);
        let filtered = clone_packages(&items);
        let selected_pack: Option<usize> = if filtered.len() > 0 {
            Some(0)
        } else {
            None
        };
        let app = App {
            items,
            exit: false,
            filtered,
            search: String::new(),
            selected_pack,
            selected_win: Window::Search,
            insert_mode: InsertMode { enabled: false, index: 0 },
            aur_inflight: None,
            notice: String::new(),
        };
        proof {
            lemma_empty_search_prefix(views(app.items@), app.search@, views(app.filtered@));
        }
        app
    }
}

/// Where the selection lands after the view was rebuilt: an in-bounds
/// selection is kept, an out-of-bounds one is reset to the first row, or
/// cleared when the view is empty.
pub open spec fn adjust_selection(sel: Option<usize>, len: int) -> Option<usize> {
    match sel {
        Some(i) => if i < len {
            Some(i)
        } else if len > 0 {
            Some(0usize)
        } else {
            None
        },
        None => None,
    }
}

/// The notice shown when a remote query failed or matched nothing.
pub open spec fn aur_empty_notice() -> Seq<char> {
    "aur searching error or the result is totally empty"@
}

/// The notice shown when the installer helper could not be run or failed.
pub open spec fn install_fail_notice() -> Seq<char> {
    "install helper failed"@
}

impl App {
    /// The search coordinator's remote half: cancels the scheduled query and,
    /// for a non-empty search term, schedules a new one tagged with it. An
    /// empty keyword is never issued.
    pub fn update_aur(&mut self) -> (act: Action)
        requires
            old(self).view_wf(),
        ensures
            final(self).wf(),
            final(self).items == old(self).items,
            final(self).filtered == old(self).filtered,
            final(self).search == old(self).search,
            final(self).selected_pack == old(self).selected_pack,
            final(self).insert_mode == old(self).insert_mode,
            final(self).exit == old(self).exit,
            final(self).notice == old(self).notice,
            final(self).selected_win == old(self).selected_win,
            old(self).search@.len() > 0 ==> (final(self).aur_inflight matches Some(k) && k@
                == old(self).search@) && (act matches Action::SpawnAur(kw) && kw@
                == old(self).search@),
            old(self).search@.len() == 0 ==> final(self).aur_inflight is None
                && act is CancelAur,
    {
        if self.search.as_str().is_empty() {
            self.aur_inflight = None;
            Action::CancelAur
        } else {
            let keyword = self.search.clone();
            self.aur_inflight = Some(self.search.clone());
            Action::SpawnAur(keyword)
        }
    }

    /// The search coordinator's synchronous half: rebuilds the view as the
    /// local matches of the search term, repairs the selection, and hands
    /// back the remote-query action.
    pub fn update_filter_local(&mut self) -> (act: Action)
        requires
            old(self).base_wf(),
        ensures
            final(self).wf(),
            views(final(self).filtered@) == local_matches(
                views(old(self).items@),
                old(self).search@,
            ),
            final(self).items == old(self).items,
            final(self).search == old(self).search,
            final(self).insert_mode == old(self).insert_mode,
            final(self).exit == old(self).exit,
            final(self).notice == old(self).notice,
            final(self).selected_win == old(self).selected_win,
            final(self).selected_pack == adjust_selection(
                old(self).selected_pack,
                final(self).filtered@.len() as int,
            ),
            old(self).search@.len() > 0 ==> (final(self).aur_inflight matches Some(k) && k@
                == old(self).search@) && (act matches Action::SpawnAur(kw) && kw@
                == old(self).search@),
            old(self).search@.len() == 0 ==> final(self).aur_inflight is None
                && act is CancelAur,
    {
        let f = crate::stat::filter_packages(&self.items, &self.search);
        self.filtered = f;
        let len = self.filtered.len();
        self.selected_pack = match self.selected_pack {
            Some(i) => if i < len {
                Some(i)
            } else if len > 0 {
                Some(0)
            } else {
                None
            },
            None => None,
        };
        proof {
            let loc = local_matches(views(self.items@), self.search@);
            assert(views(self.filtered@).take(loc.len() as int) =~= loc);
            assert(self.view_wf());
        }
        self.update_aur()
    }

    /// Merges a delivered remote result: applied exactly when its tagged
    /// keyword still equals the search term, else dropped whole. On a merge
    /// the payload is appended after the current view, the notice reports an
    /// empty payload or is cleared, and the query is no longer scheduled.
    pub fn on_aur_delivery(&mut self, keyword: &String, pkgs: Vec<Package>)
        requires
            old(self).wf(),
        ensures
            final(self).wf(),
            keyword@ != old(self).search@ ==> *final(self) == *old(self),
            keyword@ == old(self).search@ ==> {
                &&& final(self).filtered@ == old(self).filtered@ + pkgs@
                &&& final(self).aur_inflight is None
                &&& (pkgs@.len() == 0 ==> final(self).notice@ == aur_empty_notice())
                &&& (pkgs@.len() > 0 ==> final(self).notice@ == Seq::<char>::empty())
                &&& final(self).items == old(self).items
                &&& final(self).search == old(self).search
                &&& final(self).selected_pack == old(self).selected_pack
                &&& final(self).insert_mode == old(self).insert_mode
                &&& final(self).exit == old(self).exit
                &&& final(self).selected_win == old(self).selected_win
            },
    {
        let mut pkgs = pkgs;
        if str_eq(self.search.as_str(), keyword.as_str()) {
            if pkgs.len() == 0 {
                self.notice = String::from_str(
                    "aur searching error or the result is totally empty",
                );
            } else {
                self.notice = String::new();
            }
            self.filtered.append(&mut pkgs);
            self.aur_inflight = None;
            proof {
                let loc = local_matches(views(self.items@), self.search@);
                let oldf = old(self).filtered@;
                assert(views(self.filtered@).take(loc.len() as int) =~= views(oldf).take(
                    loc.len() as int,
                ));
            }
        }
    }

    /// Records the installer's outcome: on success the matched entries have
    /// their installed flag toggled in both the snapshot and the view; on
    /// failure the state is untouched and the notice carries a diagnostic.
    pub fn apply_install_result(&mut self, name: &String, success: bool)
        requires
            old(self).wf(),
        ensures
            final(self).wf(),
            success ==> {
                &&& views(final(self).items@) == toggle_by_name(
                    views(old(self).items@),
                    name@,
                )
                &&& views(final(self).filtered@) == toggle_by_name(
                    views(old(self).filtered@),
                    name@,
                )
                &&& final(self).notice == old(self).notice
            },
            !success ==> final(self).items == old(self).items && final(self).filtered
                == old(self).filtered && final(self).notice@ == install_fail_notice(),
            final(self).search == old(self).search,
            final(self).selected_pack == old(self).selected_pack,
            final(self).insert_mode == old(self).insert_mode,
            final(self).exit == old(self).exit,
            final(self).aur_inflight == old(self).aur_inflight,
            final(self).selected_win == old(self).selected_win,
    {
        if !success {
            self.notice = String::from_str("install helper failed");
            return ;
        }
        let new_items = toggle_vec(&self.items, name);
        let new_filtered = toggle_vec(&self.filtered, name);
        self.items = new_items;
        self.filtered = new_filtered;
        proof {
            let oi = views(old(self).items@);
            let of = views(old(self).filtered@);
            let s = old(self).search@;
            lemma_toggle_sorted(oi, name@);
            lemma_toggle_local_matches(oi, s, name@);
            let loc_old = local_matches(oi, s);
            let loc_new = local_matches(views(self.items@), s);
            assert(loc_new == toggle_by_name(loc_old, name@));
            assert(loc_new.len() == loc_old.len());
            assert(views(self.filtered@).take(loc_new.len() as int) =~= toggle_by_name(
                of.take(loc_old.len() as int),
                name@,
            ));
        }
    }
}

/// A package with its installed flag flipped when its name is the given one.
pub open spec fn toggle1(p: PackageV, name: Seq<char>) -> PackageV {
    if p.name == name {
        PackageV {
            is_installed: !p.is_installed,
            repo: p.repo,
            size: p.size,
            descipt: p.descipt,
            name: p.name,
            version: p.version,
        }
    } else {
        p
    }
}

/// The sequence with every entry of the given name toggled.
pub open spec fn toggle_by_name(s: Seq<PackageV>, name: Seq<char>) -> Seq<PackageV> {
    s.map_values(|p: PackageV| toggle1(p, name))
}

/// Toggling keeps names, so it keeps the snapshot ordered.
proof fn lemma_toggle_sorted(s: Seq<PackageV>, name: Seq<char>)
    requires
        sorted_unique(s),
    ensures
        sorted_unique(toggle_by_name(s, name)),
{
    let t = toggle_by_name(s, name);
    assert forall|i: int, j: int|
        0 <= i < j < t.len() implies #[trigger] crate::text::lex_lt(t[i].name, t[j].name) by {
        assert(t[i].name == s[i].name);
        assert(t[j].name == s[j].name);
    }
}

/// Toggling and filtering commute: the filter only reads names, which the
/// toggle keeps.
proof fn lemma_toggle_local_matches(items: Seq<PackageV>, search: Seq<char>, name: Seq<char>)
    ensures
        local_matches(toggle_by_name(items, name), search) == toggle_by_name(
            local_matches(items, search),
            name,
        ),
    decreases items.len(),
{
    let t = toggle_by_name(items, name);
    if items.len() == 0 {
        assert(t =~= Seq::<PackageV>::empty());
        assert(toggle_by_name(local_matches(items, search), name) =~= Seq::<PackageV>::empty());
    } else {
        lemma_toggle_local_matches(items.drop_last(), search, name);
        assert(t.drop_last() =~= toggle_by_name(items.drop_last(), name));
        assert(t.last() == toggle1(items.last(), name));
        assert(t.last().name == items.last().name);
        let rest = local_matches(items.drop_last(), search);
        if crate::stat::name_matches(items.last(), search) {
            assert(toggle_by_name(rest.push(items.last()), name) =~= toggle_by_name(
                rest,
                name,
            ).push(toggle1(items.last(), name)));
        }
    }
}

/// Copies a package list with the installed flag of the matched entries
/// flipped.
fn toggle_vec(v: &Vec<Package>, name: &String) -> (r: Vec<Package>)
    ensures
        views(r@) == toggle_by_name(views(v@), name@),
{
    let mut r: Vec<Package> = Vec::new();
    let mut i: usize = 0;
    while i < v.len()
        invariant
            i <= v@.len(),
            r@.len() == i,
            forall|k: int| 0 <= k < i ==> #[trigger] r@[k]@ == toggle1(views(v@)[k], name@),
        decreases v@.len() - i,
    {
        let p = &v[i];
        if str_eq(p.name.as_str(), name.as_str()) {
            r.push(
                Package {
                    is_installed: !p.is_installed,
                    repo: p.repo.clone(),
                    size: p.size,
                    descipt: p.descipt.clone(),
                    name: p.name.clone(),
                    version: p.version.clone(),
                },
            );
        } else {
            r.push(p.clone());
        }
        i += 1;
    }
    proof {
        assert(views(r@) =~= toggle_by_name(views(v@), name@));
    }
    r
}

/// With an empty search term every package matches, so a view equal to the
/// snapshot has the right local prefix.
proof fn lemma_empty_search_prefix(items: Seq<PackageV>, search: Seq<char>, filtered: Seq<PackageV>)
    requires
        search.len() == 0,
        filtered == items,
    ensures
        local_prefix_ok(items, search, filtered),
{
    assert forall|i: int| 0 <= i < items.len() implies crate::stat::name_matches(
        #[trigger] items[i],
        search,
    ) by {
        lemma_contains_empty(items[i].name, search);
    }
    crate::stat::lemma_local_matches_id(items, search);
    assert(filtered.take(items.len() as int) =~= items);
}

/// Element-wise copy of a package list.
fn clone_packages(v: &Vec<Package>) -> (r: Vec<Package>)
    ensures
        r@ == v@,
{
    let mut r: Vec<Package> = Vec::new();
    let mut i: usize = 0;
    proof {
        assert(r@ =~= v@.take(0));
    }
    while i < v.len()
        invariant
            i <= v@.len(),
            r@ == v@.take(i as int),
        decreases v@.len() - i,
    {
        r.push(v[i].clone());
        proof {
            assert(r@ =~= v@.take(i + 1));
        }
        i += 1;
    }
    proof {
        assert(v@.take(v@.len() as int) =~= v@);
    }
    r
}

} // verus!
