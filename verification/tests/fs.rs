use mod_manager::errors::FsErrorKind;
use mod_manager::fs::{copy_dir_all, ensure_dir, ensure_parent_dir, CopyEntry, DirStep};
use std::path::PathBuf;

#[test]
fn missing_directory_is_created() {
    assert_eq!(ensure_dir(false, false), Ok(DirStep::CreateAll));
}

#[test]
fn existing_directory_is_kept() {
    assert_eq!(ensure_dir(true, true), Ok(DirStep::Done));
}

#[test]
fn existing_file_is_not_a_directory() {
    assert_eq!(ensure_dir(true, false), Err(FsErrorKind::NotADirectory));
}

#[test]
fn parent_of_a_config_file_is_its_directory() {
    let file = PathBuf::from("/home/user/.config/mod-manager/config.toml");
    assert_eq!(ensure_parent_dir(&file), Some(PathBuf::from("/home/user/.config/mod-manager")));
}

#[test]
fn empty_and_root_paths_have_no_parent() {
    assert_eq!(ensure_parent_dir(&PathBuf::from("")), None);
    assert_eq!(ensure_parent_dir(&PathBuf::from("/")), None);
}

#[test]
fn directory_entries_are_copied_as_trees() {
    let to = PathBuf::from("/staging/abc");
    match copy_dir_all(&to, PathBuf::from("/src/textures"), &PathBuf::from("textures"), true) {
        CopyEntry::Tree { from, to } => {
            assert_eq!(from, PathBuf::from("/src/textures"));
            assert_eq!(to, PathBuf::from("/staging/abc/textures"));
        }
        CopyEntry::File { .. } => panic!("a directory entry must be copied as a tree"),
    }
}

#[test]
fn file_entries_are_copied_as_files() {
    let to = PathBuf::from("/staging/abc");
    match copy_dir_all(&to, PathBuf::from("/src/readme.txt"), &PathBuf::from("readme.txt"), false) {
        CopyEntry::File { from, to } => {
            assert_eq!(from, PathBuf::from("/src/readme.txt"));
            assert_eq!(to, PathBuf::from("/staging/abc/readme.txt"));
        }
        CopyEntry::Tree { .. } => panic!("a file entry must be copied as a file"),
    }
}

#[test]
fn single_name_has_the_empty_path_as_parent() {
    assert_eq!(ensure_parent_dir(&PathBuf::from("mod-manager.toml")), Some(PathBuf::from("")));
}
