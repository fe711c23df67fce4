//! What a listing of the storage shows: files and folders with their sizes.

use vstd::prelude::*;
use crate::path::has_parent_reference;
use crate::path::contains_parent_reference;
use crate::storage::io_error::IoError;

verus! {

/// What a browsed path holds: the text of a file, or the entries of a directory.
pub enum BrowseStorageContent {
    File(String),
    Directory(Vec<StorageContent>),
}

#[derive(Clone, Copy, Debug, PartialEq, Eq, Structural)]
pub enum StorageContentType {
    File,
    Folder,
}

/// The type of a file-system entry as the operating system reports it.
#[derive(Clone, Copy, Debug, PartialEq, Eq, Structural)]
pub enum FileKind {
    Directory,
    File,
    Other,
}

#[derive(Debug)]
pub enum StorageContentFromDirEntryError {
    Io(IoError),
    StorageContentTypeFromFileTypeFailure(String),
}

/// One entry of a directory listing.
pub struct StorageContent {
    pub name: String,
    pub size: u64,
    pub storage_content_type: StorageContentType,
}

/// One entry as read from a directory: its name, and what reading its
/// metadata (the size) and its file type gave.
pub struct DirEntryInfo {
    pub name: String,
    pub len: Result<u64, IoError>,
    pub file_type: Result<FileKind, IoError>,
}

/// The content type that an entry of a kind has, if it has one.
pub open spec fn content_type_of(kind: FileKind) -> Option<StorageContentType> {
    match kind {
        FileKind::Directory => Some(StorageContentType::Folder),
        FileKind::File => Some(StorageContentType::File),
        FileKind::Other => None,
    }
}

/// Whether an entry can be shown: its size and type were read and its type
/// is a file or a folder.
pub open spec fn entry_convertible(e: DirEntryInfo) -> bool {
    &&& e.len is Ok
    &&& e.file_type is Ok
    &&& content_type_of(e.file_type->Ok_0) is Some
}

/// Whether an entry of a listing is shown: it was read, its name holds no `..`
/// and it can be converted.
pub open spec fn entry_listed(item: Result<DirEntryInfo, IoError>) -> bool {
    &&& item is Ok
    &&& !has_parent_reference(item->Ok_0.name@)
    &&& entry_convertible(item->Ok_0)
}

/// Whether `c` is what `e` converts to.
pub open spec fn converts_to(e: DirEntryInfo, c: StorageContent) -> bool {
    &&& c.name == e.name
    &&& c.size == e.len->Ok_0
    &&& Some(c.storage_content_type) == content_type_of(e.file_type->Ok_0)
}

/// The entries of a listing that are shown, in the order of the listing.
pub open spec fn listed_entries(items: Seq<Result<DirEntryInfo, IoError>>) -> Seq<DirEntryInfo>
    decreases items.len(),
{
    if items.len() == 0 {
        Seq::empty()
    } else {
        let rest = listed_entries(items.drop_last());
        if entry_listed(items.last()) {
            rest.push(items.last()->Ok_0)
        } else {
            rest
        }
    }
}

impl StorageContentType {
    /// The content type of an entry of the given file type; an entry that is
    /// neither a directory nor a file has none.
    pub fn try_from(value: FileKind) -> (res: Result<StorageContentType, String>)
        ensures
            res matches Ok(t) ==> content_type_of(value) == Some(t),
            res matches Err(msg) ==> content_type_of(value) is None && msg@ == "Unimplemented FileType"@,
            res is Ok <==> content_type_of(value) is Some,
    {
        match value {
            FileKind::Directory => Ok(StorageContentType::Folder),
            FileKind::File => Ok(StorageContentType::File),
            FileKind::Other => Err(String::from_str("Unimplemented FileType")),
        }
    }
}

impl StorageContentFromDirEntryError {
    /// The text that describes the failure.
    pub fn message(&self) -> (res: String)
        ensures
            res@ == (match *self {
                StorageContentFromDirEntryError::Io(e) => "error: "@ + e.message@,
                StorageContentFromDirEntryError::StorageContentTypeFromFileTypeFailure(m) =>
                    "failed to convert from FileType to StorageContentType: "@ + m@,
            }),
    {
        match self {
            StorageContentFromDirEntryError::Io(e) => String::from_str("error: ").concat(
                e.message.as_str(),
            ),
            StorageContentFromDirEntryError::StorageContentTypeFromFileTypeFailure(m) => {
                String::from_str(
                    "failed to convert from FileType to StorageContentType: ",
                ).concat(m.as_str())
            },
        }
    }
}

impl StorageContent {
    /// The listing entry for a directory entry. The size is read first, then
    /// the file type; the first failure is the error.
    pub fn try_from(value: DirEntryInfo) -> (res: Result<StorageContent, StorageContentFromDirEntryError>)
        ensures
            res is Ok <==> entry_convertible(value),
            res matches Ok(c) ==> converts_to(value, c),
            value.len is Err ==> res == Err::<StorageContent, _>(
                StorageContentFromDirEntryError::Io(value.len->Err_0),
            ),
            value.len is Ok && value.file_type is Err ==> res == Err::<StorageContent, _>(
                StorageContentFromDirEntryError::Io(value.file_type->Err_0),
            ),
            value.len is Ok && value.file_type is Ok && content_type_of(value.file_type->Ok_0) is None
                ==> (res matches Err(StorageContentFromDirEntryError::StorageContentTypeFromFileTypeFailure(m))
                && m@ == "Unimplemented FileType"@),
    {
        let DirEntryInfo { name, len, file_type } = value;
        let size = match len {
            Ok(size) => size,
            Err(e) => return Err(StorageContentFromDirEntryError::Io(e)),
        };
        let kind = match file_type {
            Ok(kind) => kind,
            Err(e) => return Err(StorageContentFromDirEntryError::Io(e)),
        };
        let storage_content_type = match StorageContentType::try_from(kind) {
            Ok(t) => t,
            Err(m) => return Err(StorageContentFromDirEntryError::StorageContentTypeFromFileTypeFailure(m)),
        };
        Ok(StorageContent { name, size, storage_content_type })
    }
}

/// The listing shown for a directory whose entries were read as `items`: each
/// entry that was read, whose name holds no `..`, and that converts, in order.
pub fn list_entries(items: Vec<Result<DirEntryInfo, IoError>>) -> (res: Vec<StorageContent>)
    ensures
        res@.len() == listed_entries(items@).len(),
        forall|i: int|
            0 <= i < res@.len() ==> converts_to(listed_entries(items@)[i], #[trigger] res@[i]),
{
    let ghost all = items@;
    let mut res: Vec<StorageContent> = Vec::new();
    for item in it: items.into_iter()
        invariant
            it.seq() == all,
            res@.len() == listed_entries(all.take(it.index() as int)).len(),
            forall|i: int|
                0 <= i < res@.len() ==> converts_to(
                    listed_entries(all.take(it.index() as int))[i],
                    #[trigger] res@[i],
                ),
    {
        let ghost k = it.index() as int;
        proof {
            assert(all.take(k + 1).drop_last() =~= all.take(k));
            assert(all.take(k + 1).last() == item);
        }
        match item {
            Ok(entry) => {
                if !contains_parent_reference(entry.name.as_str()) {
                    match StorageContent::try_from(entry) {
                        Ok(c) => {
                            res.push(c);
                        },
                        Err(_) => {},
                    }
                }
            },
            Err(_) => {},
        }
    }
    assert(all.take(all.len() as int) =~= all);
    res
}

/// A listing shows only entries that were read, whose names hold no `..`, and
/// whose size and file or folder type were read.
pub proof fn law_listing_shows_only_direct_entries(items: Seq<Result<DirEntryInfo, IoError>>)
    ensures
        forall|i: int| 0 <= i < listed_entries(items).len() ==> {
            &&& !has_parent_reference(#[trigger] listed_entries(items)[i].name@)
            &&& entry_convertible(listed_entries(items)[i])
        },
    decreases items.len(),
{
    if items.len() > 0 {
        law_listing_shows_only_direct_entries(items.drop_last());
    }
}

/// A listing is built entry by entry in the order of reading: nothing read
/// shows nothing; an entry that was read, whose name holds no `..`, whose size
/// was read, whatever it is, and whose type is a file or a directory is shown
/// after the entries before it; any other entry (one that could not be read,
/// with `..` in its name, with an unread size or type, or of another type)
/// leaves the listing as it was.
pub proof fn law_listing_shows_every_direct_entry_in_order(
    items: Seq<Result<DirEntryInfo, IoError>>,
    item: Result<DirEntryInfo, IoError>,
)
    ensures
        listed_entries(Seq::empty()) == Seq::<DirEntryInfo>::empty(),
        (item matches Ok(e) && !has_parent_reference(e.name@) && e.len is Ok && (e.file_type == Ok::<
            FileKind,
            IoError,
        >(FileKind::File) || e.file_type == Ok::<FileKind, IoError>(FileKind::Directory)))
            ==> listed_entries(items.push(item)) == listed_entries(items).push(item->Ok_0),
        (item is Err || (item matches Ok(e) && (has_parent_reference(e.name@) || e.len is Err
            || e.file_type is Err || e.file_type == Ok::<FileKind, IoError>(FileKind::Other))))
            ==> listed_entries(items.push(item)) == listed_entries(items),
{
    assert(items.push(item).drop_last() =~= items);
    assert(items.push(item).last() == item);
}

/// A shown entry keeps the name and the size that were read, and a file is
/// shown as a file, a directory as a folder.
pub proof fn law_shown_entry_keeps_name_size_and_type(e: DirEntryInfo, c: StorageContent)
    requires
        converts_to(e, c),
        e.len is Ok,
        e.file_type is Ok,
    ensures
        c.name@ == e.name@,
        c.size == e.len->Ok_0,
        e.file_type == Ok::<FileKind, IoError>(FileKind::File) ==> c.storage_content_type == StorageContentType::File,
        e.file_type == Ok::<FileKind, IoError>(FileKind::Directory) ==> c.storage_content_type
            == StorageContentType::Folder,
{
}

} // verus!
