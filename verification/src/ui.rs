//! Text projections of the state: the label of a repository, one row of the
//! results list, and the details pane. The cell-buffer drawing around these
//! strings happens outside the library.

use vstd::prelude::*;
use vstd::string::*;

use crate::stat::{ItemRepo, Package, PackageV, RepoV};
use crate::state::App;
use crate::text::push_char;

verus! {

// ---------------------------------------------------------------------------
// Repository labels
// ---------------------------------------------------------------------------

/// The label shown for a repository.
pub open spec fn repo_label_spec(r: RepoV) -> Seq<char> {
    match r {
        RepoV::Core => "core"@,
        RepoV::Extra => "extra"@,
        RepoV::Multilib => "multilib"@,
        RepoV::Archlinuxcn => "archlinuxcn"@,
        RepoV::AbsOther(s) => s,
        RepoV::AUR(_) => "aur"@,
    }
}

/// Builds the label shown for a repository.
pub fn repo_label(r: &ItemRepo) -> (out: String)
    ensures
        out@ == repo_label_spec(r@),
{
    match r {
        ItemRepo::Core => String::from_str("core"),
        ItemRepo::Extra => String::from_str("extra"),
        ItemRepo::Multilib => String::from_str("multilib"),
        ItemRepo::Archlinuxcn => String::from_str("archlinuxcn"),
        ItemRepo::AbsOther(s) => s.clone(),
        ItemRepo::AUR(_) => String::from_str("aur"),
    }
}

// ---------------------------------------------------------------------------
// Decimal numbers
// ---------------------------------------------------------------------------

/// The character of one decimal digit.
pub open spec fn digit_char(d: int) -> char {
    if d == 0 {
        '0'
    } else if d == 1 {
        '1'
    } else if d == 2 {
        '2'
    } else if d == 3 {
        '3'
    } else if d == 4 {
        '4'
    } else if d == 5 {
        '5'
    } else if d == 6 {
        '6'
    } else if d == 7 {
        '7'
    } else if d == 8 {
        '8'
    } else {
        '9'
    }
}

/// The decimal digits of a non-negative number, most significant first.
pub open spec fn dec_digits(n: int) -> Seq<char>
    recommends
        n >= 0,
    decreases n,
{
    if n < 10 {
        seq![digit_char(n)]
    } else {
        dec_digits(n / 10).push(digit_char(n % 10))
    }
}

/// The character of one decimal digit.
fn digit(d: usize) -> (c: char)
    requires
        d < 10,
    ensures
        c == digit_char(d as int),
{
    if d == 0 {
        '0'
    } else if d == 1 {
        '1'
    } else if d == 2 {
        '2'
    } else if d == 3 {
        '3'
    } else if d == 4 {
        '4'
    } else if d == 5 {
        '5'
    } else if d == 6 {
        '6'
    } else if d == 7 {
        '7'
    } else if d == 8 {
        '8'
    } else {
        '9'
    }
}

/// Writes a number in decimal.
pub fn usize_string(n: usize) -> (out: String)
    ensures
        out@ == dec_digits(n as int),
    decreases n,
{
    if n < 10 {
        let mut s = String::new();
        push_char(&mut s, digit(n));
        proof {
            assert(s@ =~= seq![digit_char(n as int)]);
        }
        s
    } else {
        let mut s = usize_string(n / 10);
        push_char(&mut s, digit(n % 10));
        s
    }
}

// ---------------------------------------------------------------------------
// The results list
// ---------------------------------------------------------------------------

/// A run of spaces.
pub open spec fn spaces(n: int) -> Seq<char> {
    Seq::new(n as nat, |i: int| ' ')
}

/// The text padded with spaces to at least `w` characters.
pub open spec fn pad_to(s: Seq<char>, w: int) -> Seq<char> {
    if s.len() >= w {
        s
    } else {
        s + spaces(w - s.len())
    }
}

/// The installed mark: a filled bullet, or a space.
pub open spec fn mark_spec(installed: bool) -> Seq<char> {
    if installed {
        "●"@
    } else {
        " "@
    }
}

/// One row of the results list: the installed mark, the name padded to 24
/// characters, and the repository label in brackets.
pub open spec fn list_row_spec(p: PackageV) -> Seq<char> {
    mark_spec(p.is_installed) + " "@ + pad_to(p.name, 24) + " ["@ + repo_label_spec(p.repo)
        + "]"@
}

/// Builds one row of the results list.
pub fn list_row(p: &Package) -> (out: String)
    ensures
        out@ == list_row_spec(p@),
{
    let mut out = if p.is_installed {
        String::from_str("●")
    } else {
        String::from_str(" ")
    };
    out.append(" ");
    out.append(p.name.as_str());
    let n = p.name.as_str().unicode_len();
    let mut k = n;
    proof {
        assert(spaces(0) =~= Seq::<char>::empty());
        assert(out@ =~= mark_spec(p@.is_installed) + " "@ + p@.name + spaces(k - n));
    }
    while k < 24
        invariant
            n == p@.name.len(),
            n <= k,
            k <= 24 || k == n,
            out@ == mark_spec(p@.is_installed) + " "@ + p@.name + spaces(k - n),
        decreases 24 - k,
    {
        push_char(&mut out, ' ');
        k += 1;
        proof {
            assert(out@ =~= mark_spec(p@.is_installed) + " "@ + p@.name + spaces(k - n));
        }
    }
    proof {
        assert(out@ =~= mark_spec(p@.is_installed) + " "@ + pad_to(p@.name, 24));
    }
    let label = repo_label(&p.repo);
    out.append(" [");
    out.append(label.as_str());
    out.append("]");
    proof {
        assert(out@ =~= list_row_spec(p@));
    }
    out
}

// ---------------------------------------------------------------------------
// The details pane
// ---------------------------------------------------------------------------

/// The text of a boolean.
pub open spec fn bool_text(b: bool) -> Seq<char> {
    if b {
        "true"@
    } else {
        "false"@
    }
}

/// The details pane of one package: name, repository, installed flag and
/// description, with the vote count added for remote entries.
pub open spec fn info_text_spec(p: PackageV) -> Seq<char> {
    let base = "name:\t"@ + p.name + "\nrepo:\t"@ + repo_label_spec(p.repo) + "\ninstalled:\t"@
        + bool_text(p.is_installed) + "\ndesc:\t"@ + p.descipt + "\n"@;
    match p.repo {
        RepoV::AUR(v) => base + "vote:\t"@ + dec_digits(v) + "\n"@,
        _ => base,
    }
}

/// Builds the details pane of one package.
pub fn info_text(p: &Package) -> (out: String)
    ensures
        out@ == info_text_spec(p@),
{
    let mut out = String::from_str("name:\t");
    out.append(p.name.as_str());
    out.append("\nrepo:\t");
    let label = repo_label(&p.repo);
    out.append(label.as_str());
    out.append("\ninstalled:\t");
    if p.is_installed {
        out.append("true");
    } else {
        out.append("false");
    }
    out.append("\ndesc:\t");
    out.append(p.descipt.as_str());
    out.append("\n");
    match &p.repo {
        ItemRepo::AUR(v) => {
            out.append("vote:\t");
            let votes = usize_string(*v);
            out.append(votes.as_str());
            out.append("\n");
        },
        _ => {},
    }
    proof {
        assert(out@ =~= info_text_spec(p@));
    }
    out
}

impl App {
    /// The details pane for the current selection, or the placeholder when
    /// nothing is selected.
    pub fn render_selected_item(&self) -> (out: String)
        requires
            self.wf(),
        ensures
            match self.selected_pack {
                Some(i) => out@ == info_text_spec(self.filtered@[i as int]@),
                None => out@ == "Nothing selected"@,
            },
    {
        match self.selected_pack {
            Some(i) => info_text(&self.filtered[i]),
            None => String::from_str("Nothing selected"),
        }
    }
}

} // verus!
