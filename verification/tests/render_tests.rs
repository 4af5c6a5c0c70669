use pacseen::stat::{ItemRepo, Package};
use pacseen::state::App;
use pacseen::ui::{info_text, list_row, repo_label, usize_string};

fn pkg(name: &str, repo: ItemRepo, installed: bool, desc: &str) -> Package {
    Package::new(
        installed,
        repo,
        0,
        String::from(desc),
        String::from(name),
        String::from("1.0"),
    )
}

#[test]
fn decimal_rendering_is_exact() {
    assert_eq!(usize_string(0), "0");
    assert_eq!(usize_string(7), "7");
    assert_eq!(usize_string(42), "42");
    assert_eq!(usize_string(1200), "1200");
    assert_eq!(usize_string(100003), "100003");
}

#[test]
fn repo_labels_are_exact() {
    assert_eq!(repo_label(&ItemRepo::Core), "core");
    assert_eq!(repo_label(&ItemRepo::Extra), "extra");
    assert_eq!(repo_label(&ItemRepo::Multilib), "multilib");
    assert_eq!(repo_label(&ItemRepo::Archlinuxcn), "archlinuxcn");
    assert_eq!(repo_label(&ItemRepo::AUR(55)), "aur");
    assert_eq!(
        repo_label(&ItemRepo::AbsOther(String::from("arch4edu"))),
        "arch4edu"
    );
}

#[test]
fn list_row_pads_and_marks() {
    let not_installed = pkg("vim", ItemRepo::Extra, false, "editor");
    assert_eq!(
        list_row(&not_installed),
        format!("{} {:<24} [{}]", " ", "vim", "extra")
    );
    let installed = pkg("bash", ItemRepo::Core, true, "shell");
    assert_eq!(
        list_row(&installed),
        format!("{} {:<24} [{}]", "\u{25cf}", "bash", "core")
    );
}

#[test]
fn list_row_keeps_long_names_whole() {
    let long = pkg(
        "a-very-long-package-name-indeed",
        ItemRepo::Core,
        false,
        "",
    );
    assert_eq!(
        list_row(&long),
        "  a-very-long-package-name-indeed [core]"
    );
}

#[test]
fn info_text_for_a_local_package() {
    let p = pkg("vim", ItemRepo::Extra, false, "an editor");
    assert_eq!(
        info_text(&p),
        "name:\tvim\nrepo:\textra\ninstalled:\tfalse\ndesc:\tan editor\n"
    );
}

#[test]
fn info_text_for_an_aur_package_adds_votes() {
    let p = pkg("vim-plug", ItemRepo::AUR(1200), false, "plugin manager");
    assert_eq!(
        info_text(&p),
        "name:\tvim-plug\nrepo:\taur\ninstalled:\tfalse\ndesc:\tplugin manager\nvote:\t1200\n"
    );
}

#[test]
fn nothing_selected_placeholder() {
    let app = App::new(Vec::new());
    assert_eq!(app.selected_pack, None);
    assert_eq!(app.render_selected_item(), "Nothing selected");
}
