use mod_manager::errors::FsErrorKind;
use mod_manager::mods::{LocalCopy, Mod, SourceKind, SourceProbe};
use std::path::PathBuf;

const NIL_DIR: &str = "00000000-0000-0000-0000-000000000000";

#[test]
fn probes_are_classified_like_the_import_checks() {
    assert_eq!(SourceProbe::classify(false, false, false), SourceProbe::Missing);
    assert_eq!(SourceProbe::classify(true, true, false), SourceProbe::File);
    assert_eq!(SourceProbe::classify(true, false, true), SourceProbe::Directory);
    assert_eq!(SourceProbe::classify(true, false, false), SourceProbe::Other);
}

#[test]
fn missing_source_is_not_found() {
    let staging = PathBuf::from("/games/skyrim/staging");
    let plan = Mod::plan_import(&staging, &PathBuf::from("/nowhere"), SourceProbe::Missing);
    assert!(matches!(plan, Some(Err(FsErrorKind::NotFound))));
}

#[test]
fn odd_source_is_invalid_input() {
    let staging = PathBuf::from("/games/skyrim/staging");
    let plan = Mod::plan_import(&staging, &PathBuf::from("/dev/null"), SourceProbe::Other);
    assert!(matches!(plan, Some(Err(FsErrorKind::InvalidInput))));
}

#[test]
fn file_source_is_copied_into_the_nil_directory() {
    let staging = PathBuf::from("/games/skyrim/staging");
    let plan = Mod::plan_import(&staging, &PathBuf::from("/downloads/better-trees.zip"), SourceProbe::File)
        .expect("a file with a name can be planned")
        .expect("a file source is accepted");
    assert_eq!(plan.id, 0);
    assert_eq!(plan.dest_dir, staging.join(NIL_DIR));
    match plan.copy {
        LocalCopy::File { dest_dir, dest_file } => {
            assert_eq!(dest_dir, staging.join(NIL_DIR));
            assert_eq!(dest_file, staging.join(NIL_DIR).join("better-trees.zip"));
        }
        LocalCopy::Directory { .. } => panic!("a file source must be copied as a file"),
    }
}

#[test]
fn directory_source_is_copied_as_a_tree() {
    let staging = PathBuf::from("/games/skyrim/staging");
    let plan = Mod::plan_import(&staging, &PathBuf::from("/downloads/better-trees"), SourceProbe::Directory)
        .unwrap()
        .unwrap();
    assert_eq!(plan.id, 0);
    match plan.copy {
        LocalCopy::Directory { dest_dir } => assert_eq!(dest_dir, staging.join(NIL_DIR)),
        LocalCopy::File { .. } => panic!("a directory source must be copied as a tree"),
    }
}

#[test]
fn file_source_without_a_name_cannot_be_planned() {
    let staging = PathBuf::from("/games/skyrim/staging");
    assert!(Mod::plan_import(&staging, &PathBuf::from(""), SourceProbe::File).is_none());
}

#[test]
fn imported_mod_points_at_its_copy() {
    let staging = PathBuf::from("/staging");
    let plan = Mod::plan_import(&staging, &PathBuf::from("/tmp/tree-mod"), SourceProbe::Directory)
        .unwrap()
        .unwrap();
    let m = Mod::from_local(plan, String::from("Tree Mod"), Some(String::from("1.2")));
    assert_eq!(m.id, 0);
    assert_eq!(m.name, "Tree Mod");
    assert_eq!(m.source, SourceKind::Local(staging.join(NIL_DIR)));
    assert_eq!(m.version.as_deref(), Some("1.2"));
    assert!(m.updated_at.is_none());
}

#[test]
fn new_mod_keeps_a_given_id_or_makes_a_random_one() {
    let m = Mod::new(Some(42), String::from("A"), SourceKind::Remote(String::from("https://example.org/a")), None);
    assert_eq!(m.id, 42);
    assert_eq!(m.source, SourceKind::Remote(String::from("https://example.org/a")));
    assert!(m.version.is_none());
    let fresh = Mod::new(None, String::from("B"), SourceKind::Unknown, None);
    assert_eq!((fresh.id >> 76) & 15, 4);
    assert_eq!(fresh.source, SourceKind::default());
}
