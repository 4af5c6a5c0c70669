//! Building the startup snapshot: the packages gathered from the sync
//! databases are ordered by name and duplicate names are collapsed, keeping
//! the entry seen first.

use vstd::prelude::*;
use vstd::string::*;

use crate::stat::{repo_of_name, views, ItemRepo, Package, PackageV};
use crate::text::{lemma_lex_lt_connected, lemma_lex_lt_irrefl, lemma_lex_lt_trans, lex_lt,
    str_eq, str_lex_lt};

verus! {

/// Shapes one record of a sync database into a package: the repository tag
/// from the database's name, the size scaled from bytes to KiB, a missing
/// description replaced by the literal `None`.
pub fn package_from_db_entry(
    is_installed: bool,
    repo_name: &str,
    size_bytes: u64,
    descipt: Option<String>,
    name: String,
    version: String,
) -> (p: Package)
    ensures
        p.is_installed == is_installed,
        p.repo@ == repo_of_name(repo_name@),
        p.size == size_bytes / 1024,
        p.descipt@ == match descipt {
            Some(d) => d@,
            None => "None"@,
        },
        p.name == name,
        p.version == version,
{
    let descipt = match descipt {
        Some(d) => d,
        None => String::from_str("None"),
    };
    Package {
        is_installed,
        repo: ItemRepo::from_name(repo_name),
        size: size_bytes / 1024,
        descipt,
        name,
        version,
    }
}

/// Strictly ascending by name: sorted, and no two entries share a name.
pub open spec fn sorted_unique(s: Seq<PackageV>) -> bool {
    forall|i: int, j: int|
        0 <= i < j < s.len() ==> #[trigger] lex_lt(s[i].name, s[j].name)
}

/// Some entry of `s` carries this name.
pub open spec fn has_name(s: Seq<PackageV>, name: Seq<char>) -> bool {
    exists|k: int| 0 <= k < s.len() && #[trigger] s[k].name == name
}

/// In a strictly ascending sequence no name occurs twice.
pub proof fn lemma_sorted_unique_names(s: Seq<PackageV>)
    requires
        sorted_unique(s),
    ensures
        forall|i: int, j: int| 0 <= i < j < s.len() ==> #[trigger] s[i].name != #[trigger] s[j].name,
{
    assert forall|i: int, j: int|
        0 <= i < j < s.len() implies #[trigger] s[i].name != #[trigger] s[j].name by {
        if s[i].name == s[j].name {
            lemma_lex_lt_irrefl(s[i].name);
        }
    }
}

/// `p` stands at position `i` of `s`, and no earlier entry has its name: it
/// is the entry that introduced the name.
pub open spec fn is_first_with_name(s: Seq<Package>, i: int, p: Package) -> bool {
    0 <= i < s.len() && s[i] == p && forall|j: int| 0 <= j < i ==> (#[trigger] s[j])@.name
        != p@.name
}

/// `p` is the entry of `s` that introduced its name.
pub open spec fn introduced(s: Seq<Package>, p: Package) -> bool {
    exists|i: int| #[trigger] is_first_with_name(s, i, p)
}

/// Orders the packages by name and drops later entries whose name was seen
/// before: the result is strictly ascending by name, every entry of it is
/// the first input entry with its name, and every input name is represented.
pub fn build_snapshot(input: Vec<Package>) -> (out: Vec<Package>)
    ensures
        sorted_unique(views(out@)),
        forall|k: int| 0 <= k < out@.len() ==> introduced(input@, #[trigger] out@[k]),
        forall|i: int|
            0 <= i < input@.len() ==> has_name(views(out@), #[trigger] views(input@)[i].name),
        sorted_unique(views(input@)) ==> out@ == input@,
{
    let mut out: Vec<Package> = Vec::new();
    let mut idx: usize = 0;
    proof {
        assert(sorted_unique(views(input@)) ==> out@ =~= input@.take(0));
    }
    while idx < input.len()
        invariant
            idx <= input@.len(),
            sorted_unique(views(out@)),
            forall|k: int| 0 <= k < out@.len() ==> introduced(input@, #[trigger] out@[k]),
            forall|i: int|
                0 <= i < idx ==> has_name(views(out@), #[trigger] views(input@)[i].name),
            sorted_unique(views(input@)) ==> out@ == input@.take(idx as int),
        decreases input@.len() - idx,
    {
        let p = &input[idx];
        let mut j: usize = 0;
        while j < out.len() && str_lex_lt(out[j].name.as_str(), p.name.as_str())
            invariant
                j <= out@.len(),
                forall|m: int| 0 <= m < j ==> lex_lt(#[trigger] views(out@)[m].name, p@.name),
            decreases out@.len() - j,
        {
            j += 1;
        }
        proof {
            // on an input that is already ordered the scan runs to the end
            if sorted_unique(views(input@)) && j < out@.len() {
                assert(views(out@)[j as int] == out@[j as int]@);
                assert(out@[j as int] == input@[j as int]);
                assert(views(input@)[j as int] == input@[j as int]@);
                assert(views(input@)[idx as int] == input@[idx as int]@);
                assert(lex_lt(views(input@)[j as int].name, views(input@)[idx as int].name));
                assert(false);
            }
        }
        let ghost ov = views(out@);
        let ghost opre = out@;
        let duplicate = j < out.len() && str_eq(out[j].name.as_str(), p.name.as_str());
        if duplicate {
            proof {
                assert(views(out@)[j as int].name == p@.name);
                assert(views(input@)[idx as int] == p@);
                assert(has_name(views(out@), p@.name));
            }
        } else {
            proof {
                if j < out@.len() {
                    assert(ov[j as int].name != p@.name);
                    lemma_lex_lt_connected(ov[j as int].name, p@.name);
                    assert(lex_lt(p@.name, ov[j as int].name));
                }
            }
            out.insert(j, p.clone());
            proof {
                if sorted_unique(views(input@)) {
                    assert(out@ =~= input@.take(idx + 1));
                }
                let nv = views(out@);
                assert(nv =~= ov.insert(j as int, p@));
                assert forall|a: int, b: int|
                    0 <= a < b < nv.len() implies #[trigger] lex_lt(nv[a].name, nv[b].name) by {
                    if b < j {
                        assert(nv[a] == ov[a] && nv[b] == ov[b]);
                    } else if b == j {
                        assert(nv[a] == ov[a]);
                        assert(nv[b] == p@);
                    } else {
                        assert(nv[b] == ov[b - 1]);
                        if a < j {
                            assert(nv[a] == ov[a]);
                            assert(lex_lt(ov[a].name, ov[b - 1].name));
                        } else if a == j {
                            assert(nv[a] == p@);
                            assert(lex_lt(p@.name, ov[j as int].name));
                            if b - 1 == j {
                                assert(lex_lt(nv[a].name, nv[b].name));
                            } else {
                                lemma_lex_lt_trans(p@.name, ov[j as int].name, ov[b - 1].name);
                            }
                        } else {
                            assert(nv[a] == ov[a - 1]);
                            assert(lex_lt(ov[a - 1].name, ov[b - 1].name));
                        }
                    }
                }
                assert(!has_name(ov, p@.name)) by {
                    if has_name(ov, p@.name) {
                        let k = choose|k: int|
                            0 <= k < ov.len() && #[trigger] ov[k].name == p@.name;
                        if k < j {
                            assert(lex_lt(ov[k].name, p@.name));
                            lemma_lex_lt_irrefl(p@.name);
                        } else if k > j {
                            assert(lex_lt(ov[j as int].name, ov[k].name));
                        }
                        assert(false);
                    }
                }
                assert forall|m: int| 0 <= m < idx implies (#[trigger] input@[m])@.name
                    != p@.name by {
                    assert(views(input@)[m] == input@[m]@);
                    if input@[m]@.name == p@.name {
                        assert(has_name(ov, views(input@)[m].name));
                        assert(false);
                    }
                }
                assert forall|k: int| 0 <= k < out@.len() implies introduced(
                    input@,
                    #[trigger] out@[k],
                ) by {
                    if k < j {
                        assert(out@[k] == opre[k]);
                        assert(introduced(input@, opre[k]));
                    } else if k == j {
                        assert(out@[k] == input@[idx as int]);
                        assert(out@[k]@ == p@);
                        assert(is_first_with_name(input@, idx as int, out@[k]));
                    } else {
                        assert(out@[k] == opre[k - 1]);
                        assert(introduced(input@, opre[k - 1]));
                    }
                }
                assert forall|i: int| 0 <= i < idx + 1 implies has_name(
                    views(out@),
                    #[trigger] views(input@)[i].name,
                ) by {
                    let name = views(input@)[i].name;
                    if i < idx {
                        let k = choose|k: int| 0 <= k < ov.len() && #[trigger] ov[k].name == name;
                        if k < j {
                            assert(nv[k].name == name);
                        } else {
                            assert(nv[k + 1].name == name);
                        }
                    } else {
                        assert(nv[j as int].name == name);
                    }
                }
            }
        }
        idx += 1;
    }
    proof {
        if sorted_unique(views(input@)) {
            assert(input@.take(input@.len() as int) =~= input@);
        }
    }
    out
}

} // verus!
