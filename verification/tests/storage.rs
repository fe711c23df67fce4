use my_file_cloud_server::id::UserId;
use my_file_cloud_server::path::{contains_parent_reference, file_name, join};
use my_file_cloud_server::storage::init_storage_error::InitStorageError;
use my_file_cloud_server::storage::io_error::{IoError, IoErrorKind};
use my_file_cloud_server::storage::storage_content::{
    list_entries, BrowseStorageContent, DirEntryInfo, FileKind, StorageContent,
    StorageContentFromDirEntryError, StorageContentType,
};
use my_file_cloud_server::storage::{zip_entry, BrowseStep, DeleteStep, PathKind, Storage, ZipEntry};

fn io(kind: IoErrorKind, message: &str) -> IoError {
    IoError { kind, message: message.to_string() }
}

fn storage() -> Storage {
    match Storage::new("/srv/cloud".to_string(), None, PathKind::Directory) {
        Ok(s) => s,
        Err(_) => panic!("storage over a directory must succeed"),
    }
}

fn entry(name: &str, len: u64, kind: FileKind) -> Result<DirEntryInfo, IoError> {
    Ok(DirEntryInfo { name: name.to_string(), len: Ok(len), file_type: Ok(kind) })
}

#[test]
fn join_follows_unix_path_rules() {
    assert_eq!(join("/srv", "a/b"), "/srv/a/b");
    assert_eq!(join("/srv/", "a"), "/srv/a");
    assert_eq!(join("/srv", "/etc/passwd"), "/etc/passwd");
    assert_eq!(join("", "a"), "a");
    assert_eq!(join("/srv", ""), "/srv/");
    assert_eq!(
        join("/srv", "a/b"),
        std::path::Path::new("/srv").join("a/b").to_string_lossy()
    );
}

#[test]
fn parent_references_are_found() {
    assert!(contains_parent_reference("a/../b"));
    assert!(contains_parent_reference(".."));
    assert!(contains_parent_reference("a.."));
    assert!(!contains_parent_reference("a/.b/c"));
    assert!(!contains_parent_reference(""));
    assert!(!contains_parent_reference("."));
}

#[test]
fn file_name_matches_std() {
    for p in ["a/b.txt", "a/b/", "a/..", ".", "/", "a/.", "", "./x", "x./.", "..", "a//b//", ".hidden"] {
        let expected = std::path::Path::new(p)
            .file_name()
            .map(|n| n.to_string_lossy().to_string());
        assert_eq!(file_name(p), expected, "path {p:?}");
    }
}

#[test]
fn new_storage_needs_a_directory() {
    let s = storage();
    assert_eq!(s.root_directory_path, "/srv/cloud");
    assert!(Storage::needs_root_setup(PathKind::Missing));
    assert!(!Storage::needs_root_setup(PathKind::Directory));
    match Storage::new("/srv/f".to_string(), None, PathKind::File) {
        Err(InitStorageError::InvalidRootDirectory(m)) => assert_eq!(m, "root directory is not a directory"),
        _ => panic!("a file is no root directory"),
    }
    match Storage::new("/srv/x".to_string(), Some(io(IoErrorKind::PermissionDenied, "denied")), PathKind::Missing) {
        Err(e) => {
            assert!(matches!(e, InitStorageError::Io(_)));
            assert_eq!(e.message(), "error: denied");
        }
        Ok(_) => panic!("a failed setup fails"),
    }
    let e = InitStorageError::InvalidRootDirectory("bad".to_string());
    assert_eq!(e.message(), "invalid root directory: bad");
}

#[test]
fn validate_path_refuses_parent_references() {
    assert!(Storage::validate_path(&"docs/a.txt".to_string()).is_ok());
    assert_eq!(
        Storage::validate_path(&"docs/../../etc".to_string()),
        Err("Path can only be direct".to_string())
    );
}

#[test]
fn user_paths_are_inside_the_user_directory() {
    let s = storage();
    let user = s.with_user(UserId::from_value("u1".to_string()));
    assert_eq!(user.user().value(), "u1");
    assert_eq!(user.build_user_path(&"docs/a.txt".to_string()), "u1/docs/a.txt");
    assert_eq!(s.build_global_path(&"u1".to_string()), "/srv/cloud/u1");
    assert_eq!(user.browse_file(&"a.txt".to_string()), "/srv/cloud/u1/a.txt");
    let listing = vec![entry("a", 1, FileKind::File), entry("..x", 1, FileKind::File)];
    let shown = user.browse_directory(&"d".to_string(), Ok(listing)).ok().unwrap();
    assert_eq!(shown.len(), 1);
    assert_eq!(shown[0].name, "a");
    match user.browse_directory(&"f".to_string(), Err(io(IoErrorKind::NotADirectory, "not a dir"))) {
        Err(e) => assert_eq!(e.kind, IoErrorKind::NotADirectory),
        Ok(_) => panic!(),
    }
    assert_eq!(user.create_directory(&"d/e".to_string()), "/srv/cloud/u1/d/e");
    assert_eq!(user.path_metadata(&"".to_string()), "/srv/cloud/u1/");
    assert_eq!(user.stream_file(&"f".to_string()), "/srv/cloud/u1/f");
    assert_eq!(s.create_user(&UserId::from_value("u2".to_string())), "/srv/cloud/u2");
    assert_eq!(s.global_browse_file(&"x".to_string()), "/srv/cloud/x");
    assert_eq!(s.global_browse_directory(&"x".to_string(), Ok(vec![entry("b", 2, FileKind::Directory)])).ok().unwrap()[0].name, "b");
    assert_eq!(s.global_path_metadata(&"x".to_string()), "/srv/cloud/x");
    assert_eq!(s.global_stream_file(&"x".to_string()), "/srv/cloud/x");
    assert_eq!(s.global_create_directory(&"x".to_string()), "/srv/cloud/x");
}

#[test]
fn browse_reads_files_and_lists_directories() {
    let user = storage().with_user(UserId::from_value("u1".to_string()));
    match user.browse_path(&"a.txt".to_string(), Ok(FileKind::File)) {
        Ok(BrowseStep::ReadFile(p)) => assert_eq!(p, "/srv/cloud/u1/a.txt"),
        _ => panic!("a file is read"),
    }
    match user.browse_path(&"d".to_string(), Ok(FileKind::Directory)) {
        Ok(BrowseStep::ListDirectory(p)) => assert_eq!(p, "/srv/cloud/u1/d"),
        _ => panic!("a directory is listed"),
    }
    match user.browse_path(&"s".to_string(), Ok(FileKind::Other)) {
        Err(e) => {
            assert_eq!(e.kind, IoErrorKind::NotFound);
            assert_eq!(e.message, "Entry not found");
        }
        _ => panic!("a special file is not found"),
    }
    match user.browse_path(&"m".to_string(), Err(io(IoErrorKind::NotFound, "gone"))) {
        Err(e) => assert_eq!(e.message, "gone"),
        _ => panic!("a failed metadata read is the error"),
    }
    match Storage::<my_file_cloud_server::storage::WithUserStorageState>::file_content(Ok("hi".to_string())) {
        Ok(BrowseStorageContent::File(t)) => assert_eq!(t, "hi"),
        _ => panic!("file text is shown"),
    }
}

#[test]
fn delete_removes_files_and_directories() {
    let user = storage().with_user(UserId::from_value("u1".to_string()));
    match user.delete_path(&"a".to_string(), PathKind::File) {
        Ok(DeleteStep::RemoveFile(p)) => assert_eq!(p, "/srv/cloud/u1/a"),
        _ => panic!(),
    }
    match user.delete_path(&"d".to_string(), PathKind::Directory) {
        Ok(DeleteStep::RemoveDirectoryAll(p)) => assert_eq!(p, "/srv/cloud/u1/d"),
        _ => panic!(),
    }
    for kind in [PathKind::Missing, PathKind::Other] {
        match user.delete_path(&"x".to_string(), kind) {
            Err(e) => {
                assert_eq!(e.kind, IoErrorKind::NotFound);
                assert_eq!(e.message, "Entry not found");
            }
            _ => panic!(),
        }
    }
}

#[test]
fn zip_download_needs_a_directory() {
    let user = storage().with_user(UserId::from_value("u1".to_string()));
    assert_eq!(user.stream_directory_zip(&"d".to_string(), PathKind::Directory).ok(), Some("/srv/cloud/u1/d".to_string()));
    match user.stream_directory_zip(&"f".to_string(), PathKind::File) {
        Err(e) => {
            assert_eq!(e.kind, IoErrorKind::NotFound);
            assert_eq!(e.message, "Path is not a directory");
        }
        _ => panic!(),
    }
}

#[test]
fn content_types_and_entries_convert() {
    assert_eq!(StorageContentType::try_from(FileKind::Directory), Ok(StorageContentType::Folder));
    assert_eq!(StorageContentType::try_from(FileKind::File), Ok(StorageContentType::File));
    assert_eq!(StorageContentType::try_from(FileKind::Other), Err("Unimplemented FileType".to_string()));
    let ok = StorageContent::try_from(DirEntryInfo { name: "a".to_string(), len: Ok(3), file_type: Ok(FileKind::File) });
    match ok {
        Ok(c) => {
            assert_eq!(c.name, "a");
            assert_eq!(c.size, 3);
            assert_eq!(c.storage_content_type, StorageContentType::File);
        }
        Err(_) => panic!(),
    }
    match StorageContent::try_from(DirEntryInfo { name: "a".to_string(), len: Err(io(IoErrorKind::Other, "m")), file_type: Err(io(IoErrorKind::Other, "t")) }) {
        Err(e) => assert_eq!(e.message(), "error: m"),
        Ok(_) => panic!(),
    }
    match StorageContent::try_from(DirEntryInfo { name: "a".to_string(), len: Ok(1), file_type: Ok(FileKind::Other) }) {
        Err(e) => {
            assert!(matches!(e, StorageContentFromDirEntryError::StorageContentTypeFromFileTypeFailure(_)));
            assert_eq!(e.message(), "failed to convert from FileType to StorageContentType: Unimplemented FileType");
        }
        Ok(_) => panic!(),
    }
}

#[test]
fn listings_skip_unreadable_and_indirect_entries() {
    let items = vec![
        entry("a.txt", 10, FileKind::File),
        Err(io(IoErrorKind::Other, "unreadable")),
        entry("..hidden", 1, FileKind::File),
        entry("docs", 4096, FileKind::Directory),
        entry("link", 0, FileKind::Other),
        Ok(DirEntryInfo { name: "b".to_string(), len: Err(io(IoErrorKind::Other, "m")), file_type: Ok(FileKind::File) }),
    ];
    let shown = list_entries(items);
    assert_eq!(shown.len(), 2);
    assert_eq!(shown[0].name, "a.txt");
    assert_eq!(shown[0].size, 10);
    assert_eq!(shown[0].storage_content_type, StorageContentType::File);
    assert_eq!(shown[1].name, "docs");
    assert_eq!(shown[1].storage_content_type, StorageContentType::Folder);
    match Storage::<my_file_cloud_server::storage::GlobalStorageState>::directory_content(Err(io(IoErrorKind::NotFound, "no dir"))) {
        Err(e) => assert_eq!(e.message, "no dir"),
        Ok(_) => panic!(),
    }
}

#[test]
fn absolute_paths_replace_the_user_directory() {
    let user = storage().with_user(UserId::from_value("u1".to_string()));
    assert_eq!(user.browse_file(&"/etc/hostname".to_string()), "/etc/hostname");
    assert!(Storage::validate_path(&"/etc/hostname".to_string()).is_ok());
}

#[test]
fn zip_entries_skip_the_packed_directory() {
    assert!(matches!(zip_entry("a.txt".to_string(), true), ZipEntry::File(ref n) if n == "a.txt"));
    assert!(matches!(zip_entry("docs".to_string(), false), ZipEntry::Directory(ref n) if n == "docs"));
    assert!(matches!(zip_entry(String::new(), false), ZipEntry::Skip));
}

#[test]
fn browse_with_relative_root_joins_root_twice() {
    let s = match Storage::new("cloud".to_string(), None, PathKind::Directory) {
        Ok(s) => s,
        Err(_) => panic!("storage over a directory must succeed"),
    };
    let user = s.with_user(UserId::from_value("u1".to_string()));
    assert_eq!(user.path_metadata(&"a.txt".to_string()), "cloud/u1/a.txt");
    match user.browse_path(&"a.txt".to_string(), Ok(FileKind::File)) {
        Ok(BrowseStep::ReadFile(p)) => assert_eq!(p, "cloud/cloud/u1/a.txt"),
        _ => panic!("a file is read"),
    }
    match user.browse_path(&"d".to_string(), Ok(FileKind::Directory)) {
        Ok(BrowseStep::ListDirectory(p)) => assert_eq!(p, "cloud/cloud/u1/d"),
        _ => panic!("a directory is listed"),
    }
}
