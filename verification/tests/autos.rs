use areia::fs::{Entry, EntryKind, FsAction};
use areia::path::FilePath;
use areia::utils::platform::Platform;
use areia::utils::{create_all_dir_with_file, delete_all_dir_with_files};
use areia::{auto_creator, auto_deletor};

fn autos_path(text: &str) -> FilePath {
    FilePath::from_bytes(Platform::Linux, text.as_bytes())
}

fn autos_entry(kind: EntryKind) -> Entry {
    Entry { kind, attributes: Ok(0) }
}

#[test]
fn auto_creating_basic() {
    let path = "auto_test_dir/test_file.txt";

    let plan = auto_creator(autos_path(path));
    assert!(plan.is_ok());
    assert_eq!(
        plan.unwrap(),
        vec![
            FsAction::CreateDirAll(autos_path("auto_test_dir")),
            FsAction::CreateFile(autos_path(path)),
        ]
    );

    let plan = auto_deletor(autos_path("auto_test_dir"), &autos_entry(EntryKind::Directory));
    assert!(plan.is_ok());
    assert_eq!(plan.unwrap(), vec![FsAction::RemoveDirAll(autos_path("auto_test_dir"))]);
}

#[test]
fn auto_creating_nested() {
    let path = "a_test_dir/auto_test_dir/test_file.txt";

    let plan = auto_creator(autos_path(path));
    assert!(plan.is_ok());
    assert_eq!(
        plan.unwrap(),
        vec![
            FsAction::CreateDirAll(autos_path("a_test_dir/auto_test_dir")),
            FsAction::CreateFile(autos_path(path)),
        ]
    );

    let plan = auto_deletor(autos_path("a_test_dir"), &autos_entry(EntryKind::Directory));
    assert!(plan.is_ok());
    assert_eq!(plan.unwrap(), vec![FsAction::RemoveDirAll(autos_path("a_test_dir"))]);
}

#[test]
fn auto_deleting_dir_structure1() {
    let plan = auto_deletor(autos_path("parent1/child/"), &autos_entry(EntryKind::Directory));
    assert!(plan.is_ok());
    // the directory goes with what is in it, its neighbours stay
    assert_eq!(plan.unwrap(), vec![FsAction::RemoveDirAll(autos_path("parent1/child"))]);

    let plan = auto_deletor(autos_path("parent1/"), &autos_entry(EntryKind::Directory));
    assert!(plan.is_ok());
    assert_eq!(plan.unwrap(), vec![FsAction::RemoveDirAll(autos_path("parent1"))]);
}

#[test]
fn auto_deleting_dir_structure2() {
    let plan = auto_deletor(autos_path("parent2/my.file"), &autos_entry(EntryKind::File));
    assert!(plan.is_ok());
    // a file goes with the directory that holds it
    assert_eq!(plan.unwrap(), vec![FsAction::RemoveDirAll(autos_path("parent2/"))]);
}

#[test]
fn auto_deleting_dir_structure3() {
    let plan = auto_deletor(autos_path("parent3/child/a.file"), &autos_entry(EntryKind::File));
    assert!(plan.is_ok());
    assert_eq!(plan.unwrap(), vec![FsAction::RemoveDirAll(autos_path("parent3/child/"))]);

    let plan = auto_deletor(autos_path("parent3/"), &autos_entry(EntryKind::Directory));
    assert!(plan.is_ok());
    assert_eq!(plan.unwrap(), vec![FsAction::RemoveDirAll(autos_path("parent3"))]);
}

#[test]
fn auto_deleting_dir_structure4() {
    let plan = auto_deletor(autos_path("parent4/child2/b.file"), &autos_entry(EntryKind::File));
    assert!(plan.is_ok());
    assert_eq!(plan.unwrap(), vec![FsAction::RemoveDirAll(autos_path("parent4/child2/"))]);

    assert!(auto_deletor(autos_path("parent4/"), &autos_entry(EntryKind::Directory)).is_ok());
}

#[test]
fn delete_and_create_all_dir_basics() {
    let path = autos_path("tmp_test_dir/test_file.txt");
    let path2 = autos_path("tmp_test_dir/test_file2.txt");
    let test = create_all_dir_with_file(&path);
    assert_eq!(
        test,
        vec![
            FsAction::CreateDirAll(autos_path("tmp_test_dir")),
            FsAction::CreateFile(autos_path("tmp_test_dir/test_file.txt")),
        ]
    );
    let test = create_all_dir_with_file(&path2);
    assert_eq!(
        test,
        vec![
            FsAction::CreateDirAll(autos_path("tmp_test_dir")),
            FsAction::CreateFile(autos_path("tmp_test_dir/test_file2.txt")),
        ]
    );

    assert_eq!(&path.parent().unwrap(), &path2.parent().unwrap());

    // deleting one file takes the directory, and with it the other file
    let test = delete_all_dir_with_files(&path, &autos_entry(EntryKind::File));
    assert_eq!(test, vec![FsAction::RemoveDirAll(autos_path("tmp_test_dir"))]);
}

#[test]
fn auto_creator_refuses_the_empty_path() {
    let plan = auto_creator(autos_path(""));
    assert!(matches!(plan, Err(areia::error::AreiaError::PathMustBeSomething(_))));
    let plan = auto_deletor(autos_path(""), &autos_entry(EntryKind::Missing));
    assert!(matches!(plan, Err(areia::error::AreiaError::PathMustBeSomething(_))));
}

#[test]
fn a_single_name_is_created_below_the_empty_directory() {
    let plan = auto_creator(autos_path("file.txt")).unwrap();
    assert_eq!(
        plan,
        vec![FsAction::CreateDirAll(autos_path("")), FsAction::CreateFile(autos_path("file.txt"))]
    );
}

#[test]
fn the_root_is_deleted_as_a_file_without_a_directory_above() {
    let plan = delete_all_dir_with_files(&autos_path("/"), &autos_entry(EntryKind::File));
    assert_eq!(plan, vec![FsAction::RemoveFile(autos_path("/"))]);
}
