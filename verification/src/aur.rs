//! Mapping remote (AUR) search results onto packages. The HTTPS query and
//! the JSON decoding live outside the library; what arrives here are the
//! plain fields of each decoded row.

use vstd::prelude::*;
use vstd::string::*;

use crate::stat::{ItemRepo, Package, PackageV, RepoV};

verus! {

/// Abstract value of an [`AurRaw`].
#[verifier::ext_equal]
pub struct AurRawV {
    pub name: Seq<char>,
    pub version: Seq<char>,
    pub description: Option<Seq<char>>,
    pub num_votes: Option<usize>,
}

/// One decoded row of the remote search response: the fields the endpoint
/// may send, with the nullable ones optional.
#[derive(Debug)]
pub struct AurRaw {
    pub name: String,
    pub version: String,
    pub description: Option<String>,
    pub num_votes: Option<usize>,
}

impl View for AurRaw {
    type V = AurRawV;

    open spec fn view(&self) -> AurRawV {
        AurRawV {
            name: self.name@,
            version: self.version@,
            description: match self.description {
                Some(d) => Some(d@),
                None => None,
            },
            num_votes: self.num_votes,
        }
    }
}

/// The package a remote row denotes: never installed, size unknown, missing
/// description empty, missing vote count zero.
pub open spec fn aur_package_spec(r: AurRawV) -> PackageV {
    PackageV {
        is_installed: false,
        repo: RepoV::AUR(
            match r.num_votes {
                Some(v) => v as int,
                None => 0,
            },
        ),
        size: 0,
        descipt: match r.description {
            Some(d) => d,
            None => Seq::empty(),
        },
        name: r.name,
        version: r.version,
    }
}

impl Package {
    /// Builds the package a remote row denotes.
    pub fn from_aur(raw: &AurRaw) -> (p: Package)
        ensures
            p@ == aur_package_spec(raw@),
    {
        let descipt = match &raw.description {
            Some(d) => d.clone(),
            None => String::new(),
        };
        let votes = match raw.num_votes {
            Some(v) => v,
            None => 0,
        };
        Package {
            is_installed: false,
            repo: ItemRepo::AUR(votes),
            size: 0,
            descipt,
            name: raw.name.clone(),
            version: raw.version.clone(),
        }
    }
}

/// Maps a whole decoded response onto packages, row for row.
pub fn packages_from_aur(rows: &Vec<AurRaw>) -> (r: Vec<Package>)
    ensures
        r@.len() == rows@.len(),
        forall|i: int| 0 <= i < rows@.len() ==> #[trigger] r@[i]@ == aur_package_spec(rows@[i]@),
{
    let mut r: Vec<Package> = Vec::new();
    let mut i: usize = 0;
    while i < rows.len()
        invariant
            i <= rows@.len(),
            r@.len() == i,
            forall|k: int| 0 <= k < i ==> #[trigger] r@[k]@ == aur_package_spec(rows@[k]@),
        decreases rows@.len() - i,
    {
        r.push(Package::from_aur(&rows[i]));
        i += 1;
    }
    r
}

} // verus!
