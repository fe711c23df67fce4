//! The cloud storage: a root directory holding one directory per user.
//!
//! The file system itself is reached by the caller; the storage decides which
//! path an operation touches, which operation it is, and what the outcome of
//! what was read means.

use vstd::prelude::*;

pub mod io_error;
pub mod init_storage_error;
pub mod storage_content;

use crate::id::{is_hyphenated_uuid, is_lower_hex, UserId};
use crate::path::{contains_parent_reference, has_parent_reference, is_absolute, join, spec_join};
use crate::storage::init_storage_error::InitStorageError;
use crate::storage::io_error::{IoError, IoErrorKind};
use crate::storage::storage_content::{
    list_entries, listed_entries, converts_to, BrowseStorageContent, DirEntryInfo, FileKind,
    StorageContent,
};

verus! {

/// What stands at a path, as `exists`, `is_file` and `is_dir` report it.
#[derive(Clone, Copy, Debug, PartialEq, Eq, Structural)]
pub enum PathKind {
    Missing,
    File,
    Directory,
    Other,
}

/// The storage as a whole, not bound to a user.
pub struct GlobalStorageState;

/// The storage seen by one user: paths are taken inside the user's directory.
pub struct WithUserStorageState {
    user_id: UserId,
}

pub struct Storage<State = GlobalStorageState> {
    pub root_directory_path: String,
    state: State,
}

/// What browsing a path reads next: the text of a file, or the entries of a
/// directory, at the given path.
pub enum BrowseStep {
    ReadFile(String),
    ListDirectory(String),
}

/// How a path is deleted: a file is removed, a directory with all it holds.
pub enum DeleteStep {
    RemoveFile(String),
    RemoveDirectoryAll(String),
}

/// The outcome of browsing, given the metadata that was read: `path` is where
/// the file is read or the directory listed.
pub open spec fn browse_outcome(
    path: Seq<char>,
    metadata: Result<FileKind, IoError>,
    res: Result<BrowseStep, IoError>,
) -> bool {
    match metadata {
        Err(e) => res == Err::<BrowseStep, IoError>(e),
        Ok(FileKind::File) => res matches Ok(BrowseStep::ReadFile(p)) && p@ == path,
        Ok(FileKind::Directory) => res matches Ok(BrowseStep::ListDirectory(p)) && p@ == path,
        Ok(FileKind::Other) => res matches Err(e) && e.kind == IoErrorKind::NotFound
            && e.message@ == "Entry not found"@,
    }
}

/// The outcome of deleting, given what stands at the path.
pub open spec fn delete_outcome(path: Seq<char>, kind: PathKind, res: Result<DeleteStep, IoError>) -> bool {
    match kind {
        PathKind::File => res matches Ok(DeleteStep::RemoveFile(p)) && p@ == path,
        PathKind::Directory => res matches Ok(DeleteStep::RemoveDirectoryAll(p)) && p@ == path,
        _ => res matches Err(e) && e.kind == IoErrorKind::NotFound && e.message@ == "Entry not found"@,
    }
}

impl Storage {
    /// Whether the root directory has to be created before the storage can be
    /// used: it does when nothing stands at its path.
    pub fn needs_root_setup(root_kind: PathKind) -> (res: bool)
        ensures
            res == (root_kind == PathKind::Missing),
    {
        root_kind == PathKind::Missing
    }

    /// The storage rooted at `root_directory_path`. `setup_error` is the failure
    /// of creating the root directory, where it had to be created and that
    /// failed; `root_kind` is what stands at the root afterwards.
    pub fn new(root_directory_path: String, setup_error: Option<IoError>, root_kind: PathKind) -> (res: Result<Self, InitStorageError>)
        ensures
            setup_error matches Some(e) ==> res == Err::<Self, InitStorageError>(InitStorageError::Io(e)),
            setup_error is None && root_kind == PathKind::Directory ==> (res matches Ok(s)
                && s.root() == root_directory_path@),
            setup_error is None && root_kind != PathKind::Directory ==> (res matches Err(
                InitStorageError::InvalidRootDirectory(m)) && m@ == "root directory is not a directory"@),
    {
        if let Some(e) = setup_error {
            return Err(InitStorageError::Io(e));
        }
        if root_kind != PathKind::Directory {
            return Err(InitStorageError::InvalidRootDirectory(String::from_str("root directory is not a directory")));
        }
        Ok(Storage { root_directory_path, state: GlobalStorageState })
    }

    /// Accepts a path only where it holds no `..`.
    pub fn validate_path(path: &String) -> (res: Result<(), String>)
        ensures
            res is Ok <==> !has_parent_reference(path@),
            res matches Err(m) ==> m@ == "Path can only be direct"@,
    {
        if contains_parent_reference(path.as_str()) {
            return Err(String::from_str("Path can only be direct"));
        }
        Ok(())
    }
}

impl<T> Storage<T> {
    /// The root directory's path.
    pub closed spec fn root(&self) -> Seq<char> {
        self.root_directory_path@
    }

    /// The storage of one user.
    pub fn with_user(&self, user_id: UserId) -> (res: Storage<WithUserStorageState>)
        ensures
            res.root() == self.root(),
            res.user_id()@ == user_id@,
    {
        Storage {
            state: WithUserStorageState { user_id },
            root_directory_path: self.root_directory_path.clone(),
        }
    }

    /// The root directory's path.
    pub fn root_path(&self) -> (res: &str)
        ensures
            res@ == self.root(),
    {
        self.root_directory_path.as_str()
    }

    /// `path` taken below the root directory.
    pub fn build_global_path(&self, path: &String) -> (res: String)
        ensures
            res@ == spec_join(self.root(), path@),
    {
        join(self.root_directory_path.as_str(), path.as_str())
    }

    /// The directory to create for a new user: the user's identifier below the root.
    pub fn create_user(&self, user_id: &UserId) -> (res: String)
        ensures
            res@ == spec_join(self.root(), user_id@),
    {
        join(self.root_directory_path.as_str(), user_id.value())
    }

    /// The first step of browsing `path` below the root, given what reading the
    /// metadata of `build_global_path(path)` gave: a file is read, a directory
    /// is listed, anything else is not found, and a failure to read the
    /// metadata is the error. The file or directory is then reached through
    /// `global_browse_file` or `global_browse_directory`, which take the root
    /// path they are given below the root once more; where the root is
    /// absolute, that is the path whose metadata was read.
    pub fn global_browse_path(&self, path: &String, metadata: Result<FileKind, IoError>) -> (res: Result<BrowseStep, IoError>)
        ensures
            browse_outcome(spec_join(self.root(), spec_join(self.root(), path@)), metadata, res),
            is_absolute(self.root()) ==> browse_outcome(spec_join(self.root(), path@), metadata, res),
    {
        let global = self.build_global_path(path);
        match metadata {
            Err(e) => Err(e),
            Ok(FileKind::File) => Ok(BrowseStep::ReadFile(self.global_browse_file(&global))),
            Ok(FileKind::Directory) => Ok(BrowseStep::ListDirectory(self.build_global_path(&global))),
            Ok(FileKind::Other) => Err(IoError::not_found("Entry not found")),
        }
    }

    /// How `path` below the root is deleted, given what stands there: a file is
    /// removed, a directory is removed with all it holds, and anything else,
    /// or nothing, is not found.
    pub fn global_delete_path(&self, path: &String, kind: PathKind) -> (res: Result<DeleteStep, IoError>)
        ensures
            delete_outcome(spec_join(self.root(), path@), kind, res),
    {
        let global = self.build_global_path(path);
        match kind {
            PathKind::File => Ok(DeleteStep::RemoveFile(global)),
            PathKind::Directory => Ok(DeleteStep::RemoveDirectoryAll(global)),
            _ => Err(IoError::not_found("Entry not found")),
        }
    }

    /// The file to read to browse the file `path` below the root.
    pub fn global_browse_file(&self, path: &String) -> (res: String)
        ensures
            res@ == spec_join(self.root(), path@),
    {
        self.build_global_path(path)
    }

    /// The entries shown when browsing the directory `path` below the root,
    /// given what listing that directory (`build_global_path(path)`) gave: a
    /// failure to list is the error; otherwise each entry that was read, whose
    /// name holds no `..` and that is a file or a folder with a readable size,
    /// in the order of the listing.
    pub fn global_browse_directory(&self, path: &String, listing: Result<Vec<Result<DirEntryInfo, IoError>>, IoError>) -> (res: Result<Vec<StorageContent>, IoError>)
        ensures
            listing matches Err(e) ==> res == Err::<Vec<StorageContent>, IoError>(e),
            listing matches Ok(items) ==> (res matches Ok(v) && v@.len() == listed_entries(items@).len()
                && forall|i: int| 0 <= i < v@.len() ==> converts_to(listed_entries(items@)[i], #[trigger] v@[i])),
    {
        Self::directory_content(listing)
    }

    /// The path whose metadata is read for `path` below the root.
    pub fn global_path_metadata(&self, path: &String) -> (res: String)
        ensures
            res@ == spec_join(self.root(), path@),
    {
        self.build_global_path(path)
    }

    /// The file that is opened to stream `path` below the root.
    pub fn global_stream_file(&self, path: &String) -> (res: String)
        ensures
            res@ == spec_join(self.root(), path@),
    {
        self.build_global_path(path)
    }

    /// The directory to create for `path` below the root.
    pub fn global_create_directory(&self, path: &String) -> (res: String)
        ensures
            res@ == spec_join(self.root(), path@),
    {
        self.build_global_path(path)
    }

    /// What browsing a file shows, given what reading it gave.
    pub fn file_content(read: Result<String, IoError>) -> (res: Result<BrowseStorageContent, IoError>)
        ensures
            read matches Ok(text) ==> (res matches Ok(BrowseStorageContent::File(t)) && t == text),
            read matches Err(e) ==> res == Err::<BrowseStorageContent, IoError>(e),
    {
        match read {
            Ok(text) => Ok(BrowseStorageContent::File(text)),
            Err(e) => Err(e),
        }
    }

    /// What browsing a directory shows, given what listing it gave: a failure
    /// to list is the error; otherwise each entry that was read, whose name
    /// holds no `..` and that converts, in the order of the listing.
    pub fn directory_content(listing: Result<Vec<Result<DirEntryInfo, IoError>>, IoError>) -> (res: Result<Vec<StorageContent>, IoError>)
        ensures
            listing matches Err(e) ==> res == Err::<Vec<StorageContent>, IoError>(e),
            listing matches Ok(items) ==> (res matches Ok(v) && v@.len() == listed_entries(items@).len()
                && forall|i: int| 0 <= i < v@.len() ==> converts_to(listed_entries(items@)[i], #[trigger] v@[i])),
    {
        match listing {
            Err(e) => Err(e),
            Ok(items) => Ok(list_entries(items)),
        }
    }
}

impl Storage<WithUserStorageState> {
    pub closed spec fn user_id(&self) -> UserId {
        self.state.user_id
    }

    /// The user's identifier.
    pub fn user(&self) -> (res: &UserId)
        ensures
            res@ == self.user_id()@,
    {
        &self.state.user_id
    }

    /// `path` taken inside the user's directory, relative to the root.
    pub fn build_user_path(&self, path: &String) -> (res: String)
        ensures
            res@ == spec_join(self.user_id()@, path@),
    {
        join(self.state.user_id.value(), path.as_str())
    }

    /// The first step of browsing the user's `path`, given what reading the
    /// metadata of `path_metadata(path)` gave, as `global_browse_path` takes it.
    pub fn browse_path(&self, path: &String, metadata: Result<FileKind, IoError>) -> (res: Result<BrowseStep, IoError>)
        ensures
            browse_outcome(
                spec_join(self.root(), spec_join(self.root(), spec_join(self.user_id()@, path@))),
                metadata,
                res,
            ),
            is_absolute(self.root()) ==> browse_outcome(
                spec_join(self.root(), spec_join(self.user_id()@, path@)),
                metadata,
                res,
            ),
    {
        self.global_browse_path(&self.build_user_path(path), metadata)
    }

    /// How the user's `path` is deleted, given what stands there.
    pub fn delete_path(&self, path: &String, kind: PathKind) -> (res: Result<DeleteStep, IoError>)
        ensures
            delete_outcome(spec_join(self.root(), spec_join(self.user_id()@, path@)), kind, res),
    {
        self.global_delete_path(&self.build_user_path(path), kind)
    }

    /// The file to read to browse the user's file `path`.
    pub fn browse_file(&self, path: &String) -> (res: String)
        ensures
            res@ == spec_join(self.root(), spec_join(self.user_id()@, path@)),
    {
        self.global_browse_file(&self.build_user_path(path))
    }

    /// The entries shown when browsing the user's directory `path`, given what
    /// listing that directory (`path_metadata(path)`) gave, as
    /// `global_browse_directory` shows them.
    pub fn browse_directory(&self, path: &String, listing: Result<Vec<Result<DirEntryInfo, IoError>>, IoError>) -> (res: Result<Vec<StorageContent>, IoError>)
        ensures
            listing matches Err(e) ==> res == Err::<Vec<StorageContent>, IoError>(e),
            listing matches Ok(items) ==> (res matches Ok(v) && v@.len() == listed_entries(items@).len()
                && forall|i: int| 0 <= i < v@.len() ==> converts_to(listed_entries(items@)[i], #[trigger] v@[i])),
    {
        self.global_browse_directory(&self.build_user_path(path), listing)
    }

    /// The path whose metadata is read for the user's `path`.
    pub fn path_metadata(&self, path: &String) -> (res: String)
        ensures
            res@ == spec_join(self.root(), spec_join(self.user_id()@, path@)),
    {
        self.global_path_metadata(&self.build_user_path(path))
    }

    /// The file that is opened to stream the user's file `path`.
    pub fn stream_file(&self, path: &String) -> (res: String)
        ensures
            res@ == spec_join(self.root(), spec_join(self.user_id()@, path@)),
    {
        self.global_stream_file(&self.build_user_path(path))
    }

    /// The directory whose contents are packed into a zip archive for the
    /// user's `path`, given what stands there: only a directory is packed.
    pub fn stream_directory_zip(&self, path: &String, kind: PathKind) -> (res: Result<String, IoError>)
        ensures
            kind == PathKind::Directory ==> (res matches Ok(p)
                && p@ == spec_join(self.root(), spec_join(self.user_id()@, path@))),
            kind != PathKind::Directory ==> (res matches Err(e) && e.kind == IoErrorKind::NotFound
                && e.message@ == "Path is not a directory"@),
    {
        let global = join(self.root_directory_path.as_str(), self.build_user_path(path).as_str());
        if kind != PathKind::Directory {
            return Err(IoError::not_found("Path is not a directory"));
        }
        Ok(global)
    }

    /// The directory to create for the user's `path`.
    pub fn create_directory(&self, path: &String) -> (res: String)
        ensures
            res@ == spec_join(self.root(), spec_join(self.user_id()@, path@)),
    {
        self.global_create_directory(&self.build_user_path(path))
    }
}

/// What an entry found while packing a directory becomes in the archive.
pub enum ZipEntry {
    /// A file, stored under the given name with its contents.
    File(String),
    /// A directory, stored under the given name.
    Directory(String),
    /// The packed directory itself, which is not stored.
    Skip,
}

/// The archive entry for an entry found while packing a directory, given its
/// name relative to the packed directory and whether it is a file: files are
/// stored with their contents, other entries as directories, and the packed
/// directory itself (the empty name) is left out.
pub fn zip_entry(name: String, is_file: bool) -> (res: ZipEntry)
    ensures
        is_file ==> res == ZipEntry::File(name),
        !is_file && name@.len() > 0 ==> res == ZipEntry::Directory(name),
        !is_file && name@.len() == 0 ==> res is Skip,
{
    if is_file {
        ZipEntry::File(name)
    } else if name.as_str().unicode_len() > 0 {
        ZipEntry::Directory(name)
    } else {
        ZipEntry::Skip
    }
}

/// Once nothing stands at a path, as after it was deleted, deleting it again
/// is refused as not found ("Entry not found") with no step to take, and
/// browsing it gives the not-found error that reading its metadata gave.
pub proof fn law_missing_path_is_not_found(
    path: Seq<char>,
    deleted: Result<DeleteStep, IoError>,
    missing: IoError,
    browsed: Result<BrowseStep, IoError>,
)
    requires
        delete_outcome(path, PathKind::Missing, deleted),
        missing.kind == IoErrorKind::NotFound,
        browse_outcome(path, Err(missing), browsed),
    ensures
        deleted matches Err(e) && e.kind == IoErrorKind::NotFound && e.message@ == "Entry not found"@,
        browsed matches Err(e) && e.kind == IoErrorKind::NotFound,
{
}

/// A path that is not absolute and holds no `..`, taken in a user's storage,
/// lies inside that user's directory: the global path is the user's directory
/// below the root, a separator, and the path itself, which holds no `..`.
pub proof fn law_user_path_inside_user_directory(root: Seq<char>, user_id: Seq<char>, path: Seq<char>)
    requires
        user_id.len() > 0,
        user_id[0] != '/',
        user_id.last() != '/',
        !is_absolute(path),
        !has_parent_reference(path),
    ensures
        spec_join(root, spec_join(user_id, path)) == spec_join(root, user_id) + seq!['/'] + path,
        spec_join(root, spec_join(user_id, path)).subrange(0, (spec_join(root, user_id).len() + 1) as int)
            == spec_join(root, user_id) + seq!['/'],
        !has_parent_reference(spec_join(root, spec_join(user_id, path)).subrange(
            (spec_join(root, user_id).len() + 1) as int,
            spec_join(root, spec_join(user_id, path)).len() as int,
        )),
{
    let inner = user_id + seq!['/'] + path;
    assert(spec_join(user_id, path) == inner);
    assert(inner[0] == user_id[0]);
    assert(!is_absolute(user_id));
    let dir = spec_join(root, user_id);
    let whole = spec_join(root, inner);
    assert(whole =~= dir + seq!['/'] + path);
    assert(whole.subrange(0, (dir.len() + 1) as int) =~= dir + seq!['/']);
    assert(whole.subrange((dir.len() + 1) as int, whole.len() as int) =~= path);
}

/// A path that is not absolute and holds no `..`, taken in the storage of a
/// user with a freshly drawn identifier, lies inside that user's directory.
pub proof fn law_new_user_path_inside_user_directory(root: Seq<char>, user_id: Seq<char>, path: Seq<char>)
    requires
        is_hyphenated_uuid(user_id),
        !is_absolute(path),
        !has_parent_reference(path),
    ensures
        spec_join(root, spec_join(user_id, path)) == spec_join(root, user_id) + seq!['/'] + path,
        !has_parent_reference(user_id),
        !has_parent_reference(spec_join(root, spec_join(user_id, path)).subrange(
            (spec_join(root, user_id).len() + 1) as int,
            spec_join(root, spec_join(user_id, path)).len() as int,
        )),
{
    assert(is_lower_hex(user_id[0]));
    assert(is_lower_hex(user_id[35]));
    assert(user_id.last() == user_id[35]);
    assert forall|i: int| 0 <= i && i + 1 < user_id.len() implies !(user_id[i] == '.' && #[trigger] user_id[i + 1]
        == '.') by {
        if i == 8 || i == 13 || i == 18 || i == 23 {
        } else {
            assert(is_lower_hex(user_id[i]));
        }
    }
    law_user_path_inside_user_directory(root, user_id, path);
}

} // verus!
