//! What the store is given to read: the files of the knowledge base as they
//! were found on disk, and the index that maps door codes to files.
use vstd::prelude::*;
use vstd::string::*;
use crate::door::loader::HashTable;
use crate::door::schema::{Door, DoorModel, EntryModel, HashTableEntry};
use crate::text::copy_texts;
use crate::text::same;

verus! {

/// What went wrong in the store.
#[derive(Debug)]
pub enum LoaderError {
    /// No door answers to the code, or no file stands at the path.
    DoorNotFound(String),
    /// The index, or the directory that it is built from, is missing.
    IndexNotFound(String),
    /// A file or a directory could not be read or written.
    IoError(String),
    /// A file does not hold what it should.
    ParseError(String),
    /// A door cannot be created as asked.
    InvalidDoor(String),
}

pub enum ErrorModel {
    DoorNotFound(Seq<char>),
    IndexNotFound(Seq<char>),
    IoError(Seq<char>),
    ParseError(Seq<char>),
    InvalidDoor(Seq<char>),
}

impl DeepView for LoaderError {
    type V = ErrorModel;

    open spec fn deep_view(&self) -> ErrorModel {
        match self {
            LoaderError::DoorNotFound(s) => ErrorModel::DoorNotFound(s@),
            LoaderError::IndexNotFound(s) => ErrorModel::IndexNotFound(s@),
            LoaderError::IoError(s) => ErrorModel::IoError(s@),
            LoaderError::ParseError(s) => ErrorModel::ParseError(s@),
            LoaderError::InvalidDoor(s) => ErrorModel::InvalidDoor(s@),
        }
    }
}

/// The message of an error.
pub open spec fn error_message(e: ErrorModel) -> Seq<char> {
    match e {
        ErrorModel::DoorNotFound(s) => "Door not found: "@ + s,
        ErrorModel::IndexNotFound(s) => "Index not found: "@ + s,
        ErrorModel::IoError(s) => "IO error: "@ + s,
        ErrorModel::ParseError(s) => "JSON parse error: "@ + s,
        ErrorModel::InvalidDoor(s) => "Invalid door file: "@ + s,
    }
}

impl LoaderError {
    /// The message of the error.
    pub fn message(&self) -> (r: String)
        ensures
            r@ == error_message(self.deep_view()),
    {
        let (mut out, detail) = match self {
            LoaderError::DoorNotFound(s) => ("Door not found: ".to_owned(), s),
            LoaderError::IndexNotFound(s) => ("Index not found: ".to_owned(), s),
            LoaderError::IoError(s) => ("IO error: ".to_owned(), s),
            LoaderError::ParseError(s) => ("JSON parse error: ".to_owned(), s),
            LoaderError::InvalidDoor(s) => ("Invalid door file: ".to_owned(), s),
        };
        out.append(detail.as_str());
        out
    }
}

impl Clone for LoaderError {
    fn clone(&self) -> (r: Self)
        ensures
            r.deep_view() == self.deep_view(),
    {
        match self {
            LoaderError::DoorNotFound(s) => LoaderError::DoorNotFound(s.clone()),
            LoaderError::IndexNotFound(s) => LoaderError::IndexNotFound(s.clone()),
            LoaderError::IoError(s) => LoaderError::IoError(s.clone()),
            LoaderError::ParseError(s) => LoaderError::ParseError(s.clone()),
            LoaderError::InvalidDoor(s) => LoaderError::InvalidDoor(s.clone()),
        }
    }
}

/// What reading and decoding a door file gave.
#[derive(Debug)]
pub enum FileContent {
    /// The door that the file holds.
    Door(Door),
    /// The file could not be read; the system's message.
    Unreadable(String),
    /// The file holds no door; the decoder's message.
    Malformed(String),
}

/// A file that exists, by its path.
#[derive(Debug)]
pub struct DoorFile {
    pub path: String,
    pub content: FileContent,
}

/// An entry of a directory: its path, and whether it is a regular file.
#[derive(Debug)]
pub struct DirEntry {
    pub path: String,
    pub is_file: bool,
}

/// What listing a directory gave.
#[derive(Debug)]
pub enum Listing {
    /// The entries, in the order in which the system handed them out.
    Entries(Vec<DirEntry>),
    /// The directory could not be listed; the system's message.
    Failed(String),
}

/// A category directory that exists below the documents directory.
#[derive(Debug)]
pub struct CategoryDir {
    pub category: String,
    pub listing: Listing,
}

/// What decoding the index file as a table of entries gave.
#[derive(Debug)]
pub enum FlatIndex {
    /// The entries by their keys, as the file holds them.
    Entries(Vec<(String, HashTableEntry)>),
    /// The file holds no such table; the decoder's message.
    Malformed(String),
}

/// The index file as it was found.
#[derive(Debug)]
pub enum IndexFile {
    /// There is no index file.
    Missing,
    /// The file could not be read; the system's message.
    Unreadable(String),
    /// The text of the file, and what decoding it as a table of entries gave.
    Present { text: String, flat: FlatIndex },
}

/// A text file as it was found.
#[derive(Debug)]
pub enum TextFile {
    /// There is no such file.
    Missing,
    /// The file could not be read; the system's message.
    Unreadable(String),
    /// The text of the file.
    Present(String),
}

pub enum TextFileModel {
    Missing,
    Unreadable(Seq<char>),
    Present(Seq<char>),
}

impl DeepView for TextFile {
    type V = TextFileModel;

    open spec fn deep_view(&self) -> TextFileModel {
        match self {
            TextFile::Missing => TextFileModel::Missing,
            TextFile::Unreadable(s) => TextFileModel::Unreadable(s@),
            TextFile::Present(s) => TextFileModel::Present(s@),
        }
    }
}

/// The knowledge base and the session's bootstrap file as they were found on
/// disk.
#[derive(Debug)]
pub struct Corpus {
    /// Whether the documents directory exists.
    pub contexts_exists: bool,
    /// The category directories that exist.
    pub directories: Vec<CategoryDir>,
    /// The files that exist, among those that the store may ask for.
    pub files: Vec<DoorFile>,
    /// The index file.
    pub index: IndexFile,
    /// The bootstrap file of the session.
    pub bootstrap: TextFile,
}

pub enum FileContentModel {
    Door(DoorModel),
    Unreadable(Seq<char>),
    Malformed(Seq<char>),
}

pub struct DoorFileModel {
    pub path: Seq<char>,
    pub content: FileContentModel,
}

pub struct DirEntryModel {
    pub path: Seq<char>,
    pub is_file: bool,
}

pub enum ListingModel {
    Entries(Seq<DirEntryModel>),
    Failed(Seq<char>),
}

pub struct CategoryDirModel {
    pub category: Seq<char>,
    pub listing: ListingModel,
}

/// A code index: entries by their keys, in order.
pub type TableModel = Seq<(Seq<char>, EntryModel)>;

pub enum FlatIndexModel {
    Entries(TableModel),
    Malformed(Seq<char>),
}

pub enum IndexFileModel {
    Missing,
    Unreadable(Seq<char>),
    Present { text: Seq<char>, flat: FlatIndexModel },
}

pub struct CorpusModel {
    pub contexts_exists: bool,
    pub directories: Seq<CategoryDirModel>,
    pub files: Seq<DoorFileModel>,
    pub index: IndexFileModel,
    pub bootstrap: TextFileModel,
}

impl DeepView for FileContent {
    type V = FileContentModel;

    open spec fn deep_view(&self) -> FileContentModel {
        match self {
            FileContent::Door(d) => FileContentModel::Door(d.deep_view()),
            FileContent::Unreadable(s) => FileContentModel::Unreadable(s@),
            FileContent::Malformed(s) => FileContentModel::Malformed(s@),
        }
    }
}

impl DeepView for DoorFile {
    type V = DoorFileModel;

    open spec fn deep_view(&self) -> DoorFileModel {
        DoorFileModel { path: self.path@, content: self.content.deep_view() }
    }
}

impl DeepView for DirEntry {
    type V = DirEntryModel;

    open spec fn deep_view(&self) -> DirEntryModel {
        DirEntryModel { path: self.path@, is_file: self.is_file }
    }
}

impl DeepView for Listing {
    type V = ListingModel;

    open spec fn deep_view(&self) -> ListingModel {
        match self {
            Listing::Entries(es) => ListingModel::Entries(es.deep_view()),
            Listing::Failed(s) => ListingModel::Failed(s@),
        }
    }
}

impl DeepView for CategoryDir {
    type V = CategoryDirModel;

    open spec fn deep_view(&self) -> CategoryDirModel {
        CategoryDirModel { category: self.category@, listing: self.listing.deep_view() }
    }
}

impl DeepView for FlatIndex {
    type V = FlatIndexModel;

    open spec fn deep_view(&self) -> FlatIndexModel {
        match self {
            FlatIndex::Entries(es) => FlatIndexModel::Entries(es.deep_view()),
            FlatIndex::Malformed(s) => FlatIndexModel::Malformed(s@),
        }
    }
}

impl DeepView for IndexFile {
    type V = IndexFileModel;

    open spec fn deep_view(&self) -> IndexFileModel {
        match self {
            IndexFile::Missing => IndexFileModel::Missing,
            IndexFile::Unreadable(s) => IndexFileModel::Unreadable(s@),
            IndexFile::Present { text, flat } => IndexFileModel::Present {
                text: text@,
                flat: flat.deep_view(),
            },
        }
    }
}

impl DeepView for Corpus {
    type V = CorpusModel;

    open spec fn deep_view(&self) -> CorpusModel {
        CorpusModel {
            contexts_exists: self.contexts_exists,
            directories: self.directories.deep_view(),
            files: self.files.deep_view(),
            index: self.index.deep_view(),
            bootstrap: self.bootstrap.deep_view(),
        }
    }
}

/// What a result holds.
pub open spec fn result_model<T: DeepView, E: DeepView>(r: Result<T, E>) -> Result<T::V, E::V> {
    match r {
        Ok(t) => Ok(t.deep_view()),
        Err(e) => Err(e.deep_view()),
    }
}

// ---------------------------------------------------------------------------
// Files by their paths
// ---------------------------------------------------------------------------

/// The first of `files[from..]` that stands at `path`.
pub open spec fn file_from(files: Seq<DoorFileModel>, path: Seq<char>, from: int) -> Option<
    FileContentModel,
>
    decreases files.len() - from,
{
    if from < 0 || from >= files.len() {
        None
    } else if files[from].path == path {
        Some(files[from].content)
    } else {
        file_from(files, path, from + 1)
    }
}

/// What reading the door file at `path` gives: the door; that the file is
/// not found, with the path; or why it could not be read or decoded.
pub open spec fn read_door_file(files: Seq<DoorFileModel>, path: Seq<char>) -> Result<
    DoorModel,
    ErrorModel,
> {
    match file_from(files, path, 0) {
        Some(FileContentModel::Door(d)) => Ok(d),
        Some(FileContentModel::Unreadable(e)) => Err(ErrorModel::IoError(e)),
        Some(FileContentModel::Malformed(e)) => Err(ErrorModel::ParseError(e)),
        None => Err(ErrorModel::DoorNotFound(path)),
    }
}

impl Corpus {
    /// Reads the door file at `path`.
    #[verifier::loop_isolation(false)]
    pub fn read_door_file(&self, path: &str) -> (r: Result<Door, LoaderError>)
        ensures
            result_model(r) == read_door_file(self.deep_view().files, path@),
    {
        let ghost files = self.deep_view().files;
        let mut i: usize = 0;
        while i < self.files.len()
            invariant
                i <= self.files.len(),
                file_from(files, path@, 0) == file_from(files, path@, i as int),
            decreases self.files.len() - i,
        {
            let file = &self.files[i];
            assert(files[i as int] == file.deep_view());
            if same(file.path.as_str(), path) {
                return match &file.content {
                    FileContent::Door(d) => Ok(d.clone()),
                    FileContent::Unreadable(e) => Err(LoaderError::IoError(e.clone())),
                    FileContent::Malformed(e) => Err(LoaderError::ParseError(e.clone())),
                };
            }
            i += 1;
        }
        Err(LoaderError::DoorNotFound(path.to_owned()))
    }
}


// ---------------------------------------------------------------------------
// What is to be written
// ---------------------------------------------------------------------------

/// The state of a session as it is written down.
#[derive(Debug)]
pub enum SessionRecord {
    /// The progress of a session.
    Bootstrap {
        agent_id: String,
        session_id: String,
        updated_at: String,
        progress: String,
        batch_completed: String,
        next_options: Vec<String>,
        doors_loaded: Vec<String>,
    },
    /// A named snapshot of a session.
    Checkpoint {
        name: String,
        created_at: String,
        agent_id: String,
        session_id: String,
        doors_loaded: Vec<String>,
        notes: String,
    },
}

pub enum SessionRecordModel {
    Bootstrap {
        agent_id: Seq<char>,
        session_id: Seq<char>,
        updated_at: Seq<char>,
        progress: Seq<char>,
        batch_completed: Seq<char>,
        next_options: Seq<Seq<char>>,
        doors_loaded: Seq<Seq<char>>,
    },
    Checkpoint {
        name: Seq<char>,
        created_at: Seq<char>,
        agent_id: Seq<char>,
        session_id: Seq<char>,
        doors_loaded: Seq<Seq<char>>,
        notes: Seq<char>,
    },
}

impl DeepView for SessionRecord {
    type V = SessionRecordModel;

    open spec fn deep_view(&self) -> SessionRecordModel {
        match self {
            SessionRecord::Bootstrap {
                agent_id,
                session_id,
                updated_at,
                progress,
                batch_completed,
                next_options,
                doors_loaded,
            } => SessionRecordModel::Bootstrap {
                agent_id: agent_id@,
                session_id: session_id@,
                updated_at: updated_at@,
                progress: progress@,
                batch_completed: batch_completed@,
                next_options: next_options.deep_view(),
                doors_loaded: doors_loaded.deep_view(),
            },
            SessionRecord::Checkpoint {
                name,
                created_at,
                agent_id,
                session_id,
                doors_loaded,
                notes,
            } => SessionRecordModel::Checkpoint {
                name: name@,
                created_at: created_at@,
                agent_id: agent_id@,
                session_id: session_id@,
                doors_loaded: doors_loaded.deep_view(),
                notes: notes@,
            },
        }
    }
}

/// One change to the files, to be made by whoever holds them.
#[derive(Debug)]
pub enum FileOp {
    /// Make the directory and those above it, unless they exist.
    CreateDir(String),
    /// Write the door, as JSON, to the file at the path.
    WriteDoor { path: String, door: Door },
    /// Write the index, as JSON, to the file at the path.
    WriteIndex { path: String, table: HashTable },
    /// Write the record, as JSON, to the file at the path.
    WriteRecord { path: String, record: SessionRecord },
    /// Remove the file at the path; that it cannot be removed is no failure.
    Remove(String),
}

pub enum FileOpModel {
    CreateDir(Seq<char>),
    WriteDoor { path: Seq<char>, door: DoorModel },
    WriteIndex { path: Seq<char>, table: TableModel },
    WriteRecord { path: Seq<char>, record: SessionRecordModel },
    Remove(Seq<char>),
}

impl DeepView for FileOp {
    type V = FileOpModel;

    open spec fn deep_view(&self) -> FileOpModel {
        match self {
            FileOp::CreateDir(path) => FileOpModel::CreateDir(path@),
            FileOp::WriteDoor { path, door } => FileOpModel::WriteDoor {
                path: path@,
                door: door.deep_view(),
            },
            FileOp::WriteIndex { path, table } => FileOpModel::WriteIndex {
                path: path@,
                table: table.deep_view(),
            },
            FileOp::WriteRecord { path, record } => FileOpModel::WriteRecord {
                path: path@,
                record: record.deep_view(),
            },
            FileOp::Remove(path) => FileOpModel::Remove(path@),
        }
    }
}

/// How a list of changes went: how many were made, one after the other from
/// the first, and the system's message for the next where that one failed.
#[derive(Debug)]
pub struct Outcome {
    pub completed: usize,
    pub failure: Option<String>,
}

pub struct OutcomeModel {
    pub completed: usize,
    pub failure: Option<Seq<char>>,
}

impl DeepView for Outcome {
    type V = OutcomeModel;

    open spec fn deep_view(&self) -> OutcomeModel {
        OutcomeModel { completed: self.completed, failure: self.failure.deep_view() }
    }
}

} // verus!
