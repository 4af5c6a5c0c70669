use pacseen::snapshot::{build_snapshot, package_from_db_entry};
use pacseen::stat::{ItemRepo, Package};

fn pkg(name: &str, repo: ItemRepo, installed: bool) -> Package {
    Package::new(
        installed,
        repo,
        0,
        String::from("None"),
        String::from(name),
        String::from("1.0"),
    )
}

#[test]
fn snapshot_sorts_by_name() {
    let input = vec![
        pkg("vim", ItemRepo::Extra, false),
        pkg("bash", ItemRepo::Core, true),
        pkg("alsa-utils", ItemRepo::Core, false),
    ];
    let out = build_snapshot(input);
    let names: Vec<&str> = out.iter().map(|p| p.name.as_str()).collect();
    assert_eq!(names, vec!["alsa-utils", "bash", "vim"]);
}

#[test]
fn snapshot_drops_later_duplicates() {
    let input = vec![
        pkg("bash", ItemRepo::Core, true),
        pkg("bash", ItemRepo::Extra, false),
        pkg("zsh", ItemRepo::Extra, false),
        pkg("bash", ItemRepo::Multilib, false),
    ];
    let out = build_snapshot(input);
    assert_eq!(out.len(), 2);
    assert_eq!(out[0].name, "bash");
    assert!(matches!(out[0].repo, ItemRepo::Core));
    assert!(out[0].is_installed);
    assert_eq!(out[1].name, "zsh");
}

#[test]
fn snapshot_of_empty_input_is_empty() {
    let out = build_snapshot(Vec::new());
    assert!(out.is_empty());
}

#[test]
fn db_entry_mapping_scales_size_and_defaults_description() {
    let p = package_from_db_entry(
        true,
        "extra",
        4096,
        None,
        String::from("vim"),
        String::from("9.1"),
    );
    assert!(p.is_installed);
    assert!(matches!(p.repo, ItemRepo::Extra));
    assert_eq!(p.size, 4);
    assert_eq!(p.descipt, "None");
    assert_eq!(p.name, "vim");
    assert_eq!(p.version, "9.1");
    let q = package_from_db_entry(
        false,
        "custom",
        1023,
        Some(String::from("local build")),
        String::from("tool"),
        String::from("1"),
    );
    assert_eq!(q.size, 0);
    assert_eq!(q.descipt, "local build");
}

#[test]
fn repo_from_name_maps_known_and_unknown() {
    assert!(matches!(ItemRepo::from_name("core"), ItemRepo::Core));
    assert!(matches!(ItemRepo::from_name("extra"), ItemRepo::Extra));
    assert!(matches!(ItemRepo::from_name("multilib"), ItemRepo::Multilib));
    assert!(matches!(
        ItemRepo::from_name("archlinuxcn"),
        ItemRepo::Archlinuxcn
    ));
    assert!(matches!(ItemRepo::from_name("aur"), ItemRepo::AUR(0)));
    match ItemRepo::from_name("arch4edu") {
        ItemRepo::AbsOther(s) => assert_eq!(s, "arch4edu"),
        other => panic!("unexpected repo {:?}", other),
    }
}
