use std::path::Component;
use std::path::PathBuf;

use mago_self_update::guard::detect_homebrew_install;
use mago_self_update::guard::is_homebrew_cellar_path;
use mago_self_update::guard::PathComponent;

fn parts(path: &PathBuf) -> Vec<PathComponent> {
    path.components()
        .map(|c| match c {
            Component::Prefix(p) => PathComponent::Prefix(p.as_os_str().to_string_lossy().into_owned()),
            Component::RootDir => PathComponent::RootDir,
            Component::CurDir => PathComponent::CurDir,
            Component::ParentDir => PathComponent::ParentDir,
            Component::Normal(n) => PathComponent::Normal(n.to_string_lossy().into_owned()),
        })
        .collect()
}

#[test]
fn detects_direct_cellar_install() {
    let path = PathBuf::from("/opt/homebrew/Cellar/mago/1.0.0/bin/mago");
    assert!(detect_homebrew_install(&[parts(&path)], &[]));
}

#[test]
fn detects_symlinked_homebrew_install() {
    let link_path = PathBuf::from("/opt/homebrew/bin/mago");
    let canonical = PathBuf::from("/opt/homebrew/Cellar/mago/1.0.0/bin/mago");
    assert!(detect_homebrew_install(
        &[parts(&link_path), parts(&canonical)],
        &[parts(&PathBuf::from("/opt/homebrew"))]
    ));
}

#[test]
fn ignores_non_homebrew_path() {
    let path = PathBuf::from("/usr/local/bin/mago");
    assert!(!detect_homebrew_install(&[parts(&path)], &[]));
}

#[test]
fn detects_versioned_formula_directory() {
    let path = PathBuf::from("/usr/local/Cellar/mago@8/8.1.0/bin/mago");
    assert!(detect_homebrew_install(&[parts(&path)], &[]));
}

#[test]
fn link_under_root_is_refused_without_marker() {
    let link_path = PathBuf::from("/opt/homebrew/bin/mago");
    assert!(!is_homebrew_cellar_path(&parts(&link_path)));
    assert!(detect_homebrew_install(&[parts(&link_path)], &[parts(&PathBuf::from("/opt/homebrew"))]));
}

#[test]
fn empty_root_matches_nothing() {
    let path = PathBuf::from("/usr/local/bin/mago");
    assert!(!detect_homebrew_install(&[parts(&path)], &[Vec::new()]));
}

#[test]
fn root_must_match_whole_components() {
    let path = PathBuf::from("/opt/homebrewed/bin/mago");
    assert!(!detect_homebrew_install(&[parts(&path)], &[parts(&PathBuf::from("/opt/homebrew"))]));
}

#[test]
fn marker_must_directly_precede_formula() {
    assert!(!is_homebrew_cellar_path(&parts(&PathBuf::from("/opt/Cellar/other/mago"))));
    assert!(!is_homebrew_cellar_path(&parts(&PathBuf::from("/opt/cellar/mago/1.0.0"))));
    assert!(!is_homebrew_cellar_path(&parts(&PathBuf::from("/opt/Cellar/magopie"))));
    assert!(is_homebrew_cellar_path(&parts(&PathBuf::from("Cellar/mago"))));
}
