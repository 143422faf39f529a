//! The document store: the code index, the doors it leads to, and the two
//! caches in front of them.
use vstd::prelude::*;
use vstd::string::*;
use crate::config::{join_path, path_join, Config, ConfigModel};
use crate::door::schema::{
    short_code_of, short_code_text, Door, DoorModel, EntryModel, HashTableEntry,
};
use crate::door::store::{
    read_door_file, result_model, Corpus, CorpusModel, CategoryDirModel, DirEntry, DirEntryModel,
    DoorFileModel, ErrorModel, FlatIndex, FlatIndexModel, IndexFile, IndexFileModel, Listing,
    ListingModel, LoaderError, TableModel,
};
use crate::json::{document_of, member, JsonModel, JsonValue};
use crate::text::{
    ascii_digit, ascii_letter, chars_of, contains, eq_ignore_ascii_case, has_infix, has_prefix,
    is_ascii_digit, is_ascii_letter, lex_le, lex_le_is_total, lex_le_is_transitive, owned,
    push_char, same, same_ignoring_ascii_case, starts_with, text_le, text_of_range, to_uppercase,
    trim, trimmed, uppercase_of,
};

verus! {

/// How long a cached door stays fresh: five minutes, in milliseconds.
pub const CACHE_TTL_MILLIS: u64 = 300000;

// ---------------------------------------------------------------------------
// Codes and paths
// ---------------------------------------------------------------------------

/// The form under which a door code is looked up: without the whitespace
/// around it, in uppercase.
pub open spec fn normalized(code: Seq<char>) -> Seq<char> {
    uppercase_of(trimmed(code))
}

/// The form under which a door code is looked up.
pub fn normalize_door_code(code: &str) -> (r: String)
    ensures
        r@ == normalized(code@),
{
    to_uppercase(trim(code).as_str())
}

/// Whether a path leads through the directory `name`, written with `/` or
/// with `\`.
pub open spec fn leads_through(path: Seq<char>, name: Seq<char>) -> bool {
    has_infix(path, "/"@ + name + "/"@) || has_infix(path, "\\"@ + name + "\\"@)
}

/// The category that a path leads through, the first of the seven that it
/// names; `UNKNOWN` where it names none.
pub open spec fn path_category(path: Seq<char>) -> Seq<char> {
    if leads_through(path, "TOOLS"@) {
        "TOOLS"@
    } else if leads_through(path, "WORKFLOWS"@) {
        "WORKFLOWS"@
    } else if leads_through(path, "SECURITY"@) {
        "SECURITY"@
    } else if leads_through(path, "ARCHITECTURE"@) {
        "ARCHITECTURE"@
    } else if leads_through(path, "AGENTS"@) {
        "AGENTS"@
    } else if leads_through(path, "PROJECTS"@) {
        "PROJECTS"@
    } else if leads_through(path, "ERRORS"@) {
        "ERRORS"@
    } else {
        "UNKNOWN"@
    }
}

fn goes_through(path: &str, name: &str) -> (r: bool)
    ensures
        r == leads_through(path@, name@),
{
    let mut forward = owned("/");
    forward.append(name);
    forward.append("/");
    let mut backward = owned("\\");
    backward.append(name);
    backward.append("\\");
    contains(path, forward.as_str()) || contains(path, backward.as_str())
}

/// The category that a path leads through.
pub fn category_from_path(path: &str) -> (r: String)
    ensures
        r@ == path_category(path@),
{
    if goes_through(path, "TOOLS") {
        owned("TOOLS")
    } else if goes_through(path, "WORKFLOWS") {
        owned("WORKFLOWS")
    } else if goes_through(path, "SECURITY") {
        owned("SECURITY")
    } else if goes_through(path, "ARCHITECTURE") {
        owned("ARCHITECTURE")
    } else if goes_through(path, "AGENTS") {
        owned("AGENTS")
    } else if goes_through(path, "PROJECTS") {
        owned("PROJECTS")
    } else if goes_through(path, "ERRORS") {
        owned("ERRORS")
    } else {
        owned("UNKNOWN")
    }
}

/// The short code that the index gives to a key, seen from position `at`
/// with `short` gathered so far: the ASCII letters and digits of the key in
/// order, up to the first digit that is at least the second character
/// gathered and whose place in the key, counted by the characters gathered,
/// is not followed by a digit.
pub open spec fn index_short_from(code: Seq<char>, at: int, short: Seq<char>) -> Seq<char>
    decreases code.len() - at,
{
    if at < 0 || at >= code.len() {
        short
    } else if ascii_letter(code[at]) || ascii_digit(code[at]) {
        let next = short.push(code[at]);
        if next.len() >= 2 && ascii_digit(code[at]) && !(next.len() < code.len() && ascii_digit(
            code[next.len() as int],
        )) {
            next
        } else {
            index_short_from(code, at + 1, next)
        }
    } else {
        index_short_from(code, at + 1, short)
    }
}

/// The short code that the index gives to a key.
pub open spec fn index_short_code(code: Seq<char>) -> Seq<char> {
    index_short_from(code, 0, Seq::empty())
}

/// The short code that the index gives to a key.
#[verifier::loop_isolation(false)]
pub fn extract_short_code(code: &str) -> (r: String)
    ensures
        r@ == index_short_code(code@),
{
    let chars = chars_of(code);
    let mut short = String::new();
    let mut count: usize = 0;
    let mut at: usize = 0;
    while at < chars.len()
        invariant
            count <= at <= chars.len(),
            count == short@.len(),
            index_short_code(code@) == index_short_from(code@, at as int, short@),
        decreases chars.len() - at,
    {
        let c = chars[at];
        if is_ascii_letter(c) || is_ascii_digit(c) {
            push_char(&mut short, c);
            count += 1;
            if count >= 2 && is_ascii_digit(c) && !(count < chars.len() && is_ascii_digit(
                chars[count],
            )) {
                return short;
            }
        }
        at += 1;
    }
    short
}

/// A path as the index stores it: what follows the root and a `/`, or the
/// path itself where it is not below the root.
pub open spec fn relative_to(root: Seq<char>, path: Seq<char>) -> Seq<char> {
    if has_prefix(path, root + "/"@) {
        path.skip(root.len() as int + 1)
    } else {
        path
    }
}

fn relative_path(root: &str, path: &str) -> (r: String)
    ensures
        r@ == relative_to(root@, path@),
{
    let mut prefix = owned(root);
    prefix.append("/");
    if starts_with(path, prefix.as_str()) {
        let chars = chars_of(path);
        let from = prefix.as_str().unicode_len();
        proof {
            reveal_strlit("/");
        }
        assert(path@.skip(from as int) == path@.subrange(from as int, path@.len() as int));
        text_of_range(&chars, from, chars.len())
    } else {
        owned(path)
    }
}

/// Whether a path names a file with the extension `json`.
pub open spec fn json_named(path: Seq<char>) -> bool {
    path.len() > 5 && path.skip(path.len() - 5) == ".json"@ && path[path.len() - 6] != '/'
}

fn is_json_named(path: &str) -> (r: bool)
    ensures
        r == json_named(path@),
{
    let chars = chars_of(path);
    let n = chars.len();
    if n <= 5 {
        return false;
    }
    let tail = text_of_range(&chars, n - 5, n);
    assert(path@.skip(n - 5) == path@.subrange(n - 5, n as int));
    same(tail.as_str(), ".json") && chars[n - 6] != '/'
}

// ---------------------------------------------------------------------------
// The code index
// ---------------------------------------------------------------------------

/// The first position at or after `from` where `key` stands in a table, or
/// its length where the key stands nowhere.
pub open spec fn key_position(table: TableModel, key: Seq<char>, from: int) -> int
    decreases table.len() - from,
{
    if from < 0 || from >= table.len() {
        table.len() as int
    } else if table[from].0 == key {
        from
    } else {
        key_position(table, key, from + 1)
    }
}

pub proof fn key_position_bounds(table: TableModel, key: Seq<char>, from: int)
    requires
        0 <= from <= table.len(),
    ensures
        from <= key_position(table, key, from) <= table.len(),
        key_position(table, key, from) < table.len() ==> table[key_position(table, key, from)].0
            == key,
        forall|j: int| from <= j < key_position(table, key, from) ==> table[j].0 != key,
    decreases table.len() - from,
{
    if from < table.len() && table[from].0 != key {
        key_position_bounds(table, key, from + 1);
    }
}

/// The entry under `key`.
pub open spec fn table_get(table: TableModel, key: Seq<char>) -> Option<EntryModel> {
    let at = key_position(table, key, 0);
    if at < table.len() {
        Some(table[at].1)
    } else {
        None
    }
}

/// The table with `entry` under `key`: in the place of the entry that stood
/// under the key, or at the end where none did.
pub open spec fn table_put(table: TableModel, key: Seq<char>, entry: EntryModel) -> TableModel {
    let at = key_position(table, key, 0);
    if at < table.len() {
        table.update(at, (key, entry))
    } else {
        table.push((key, entry))
    }
}

/// The table that holds the given records, a later one replacing an earlier
/// one of the same key.
pub open spec fn table_of(records: TableModel) -> TableModel
    decreases records.len(),
{
    if records.len() == 0 {
        Seq::empty()
    } else {
        table_put(table_of(records.drop_last()), records.last().0, records.last().1)
    }
}

/// Whether every key of a table stands in it once.
pub open spec fn keyed_once(table: TableModel) -> bool {
    forall|i: int, j: int| 0 <= i < j < table.len() ==> table[i].0 != table[j].0
}

/// A table whose keys stand in it once is one still after an entry was put
/// into it.
pub proof fn table_put_keeps_keys(table: TableModel, key: Seq<char>, entry: EntryModel)
    requires
        keyed_once(table),
    ensures
        keyed_once(table_put(table, key, entry)),
{
    key_position_bounds(table, key, 0);
    let at = key_position(table, key, 0);
    let after = table_put(table, key, entry);
    assert forall|i: int, j: int| 0 <= i < j < after.len() implies after[i].0 != after[j].0 by {
        if at < table.len() {
            assert(after[i].0 == table[i].0);
            assert(after[j].0 == table[j].0);
        } else if j < table.len() {
            assert(after[i] == table[i]);
            assert(after[j] == table[j]);
        } else {
            assert(after[i] == table[i]);
        }
    }
}

/// A code index: entries by their keys. The tables that this crate builds
/// hold a key once (`keyed_once`).
#[derive(Debug)]
pub struct HashTable {
    pub entries: Vec<(String, HashTableEntry)>,
}

impl DeepView for HashTable {
    type V = TableModel;

    open spec fn deep_view(&self) -> TableModel {
        self.entries.deep_view()
    }
}

impl Clone for HashTable {
    fn clone(&self) -> (r: Self)
        ensures
            r.deep_view() == self.deep_view(),
    {
        let mut out: Vec<(String, HashTableEntry)> = Vec::new();
        let mut i: usize = 0;
        while i < self.entries.len()
            invariant
                i <= self.entries.len(),
                out@.len() == i,
                forall|j: int| 0 <= j < i ==> out@[j].deep_view() == self.entries@[j].deep_view(),
            decreases self.entries.len() - i,
        {
            out.push((self.entries[i].0.clone(), self.entries[i].1.clone()));
            i += 1;
        }
        assert(out.deep_view() =~= self.entries.deep_view());
        HashTable { entries: out }
    }
}

impl HashTable {
    /// The empty table.
    pub fn new() -> (r: HashTable)
        ensures
            r.deep_view() == Seq::<(Seq<char>, EntryModel)>::empty(),
    {
        let r = HashTable { entries: Vec::new() };
        assert(r.deep_view() =~= Seq::empty());
        r
    }

    /// The number of entries.
    pub fn len(&self) -> (r: usize)
        ensures
            r == self.deep_view().len(),
    {
        self.entries.len()
    }

    #[verifier::loop_isolation(false)]
    fn position(&self, key: &str) -> (r: usize)
        ensures
            r == key_position(self.deep_view(), key@, 0),
            r <= self.entries.len(),
    {
        let ghost table = self.deep_view();
        let mut i: usize = 0;
        while i < self.entries.len()
            invariant
                i <= self.entries.len(),
                key_position(table, key@, 0) == key_position(table, key@, i as int),
            decreases self.entries.len() - i,
        {
            assert(table[i as int].0 == self.entries[i as int].0@);
            if same(self.entries[i].0.as_str(), key) {
                return i;
            }
            i += 1;
        }
        i
    }

    /// The entry under `key`.
    pub fn get(&self, key: &str) -> (r: Option<&HashTableEntry>)
        ensures
            r.deep_view() == table_get(self.deep_view(), key@),
    {
        let at = self.position(key);
        if at < self.entries.len() {
            assert(self.deep_view()[at as int].1 == self.entries[at as int].1.deep_view());
            Some(&self.entries[at].1)
        } else {
            None
        }
    }

    /// Puts `entry` under `key`, in the place of the entry that stood there.
    pub fn insert(&mut self, key: String, entry: HashTableEntry)
        ensures
            final(self).deep_view() == table_put(old(self).deep_view(), key@, entry.deep_view()),
            keyed_once(old(self).deep_view()) ==> keyed_once(final(self).deep_view()),
    {
        let at = self.position(key.as_str());
        let ghost before = self.deep_view();
        proof {
            if keyed_once(before) {
                table_put_keeps_keys(before, key@, entry.deep_view());
            }
        }
        if at < self.entries.len() {
            self.entries[at] = (key, entry);
            assert(self.deep_view() =~= before.update(at as int, (key@, entry.deep_view())));
        } else {
            self.entries.push((key, entry));
            assert(self.deep_view() =~= before.push((key@, entry.deep_view())));
        }
    }
}


// ---------------------------------------------------------------------------
// Decoding the index file
// ---------------------------------------------------------------------------

/// The entry that the wrapped format gives for a code and the value that
/// stands under it: the value is the file's path where it is a text, the
/// category and the short code are derived.
pub open spec fn mapped_entry(code: Seq<char>, value: JsonModel) -> EntryModel {
    let file_path = match value {
        JsonModel::Text(t) => t,
        _ => Seq::empty(),
    };
    EntryModel {
        door_code: code,
        file_path,
        category: path_category(file_path),
        short_code: index_short_code(code),
    }
}

/// The table that the members of a `mappings` object stand for.
pub open spec fn table_of_mappings(members: Seq<(Seq<char>, JsonModel)>) -> TableModel
    decreases members.len(),
{
    if members.len() == 0 {
        Seq::empty()
    } else {
        table_put(
            table_of_mappings(members.drop_last()),
            members.last().0,
            mapped_entry(members.last().0, members.last().1),
        )
    }
}

/// The table that a `mappings` value stands for; empty where the value is no
/// object.
pub open spec fn wrapped_table(mappings: JsonModel) -> TableModel {
    match mappings {
        JsonModel::Object(members) => table_of_mappings(members),
        _ => Seq::empty(),
    }
}

/// The `mappings` of an index text, where the text is a JSON document that
/// has such a member.
pub open spec fn mappings_of(text: Seq<char>) -> Option<JsonModel> {
    match document_of(text) {
        Some(document) => member(document, "mappings"@),
        None => None,
    }
}

/// The table that an index file holds. A file whose text is a JSON document
/// with a member `mappings` is in the wrapped format; any other is taken as
/// a table of entries.
pub open spec fn decoded_index(index: IndexFileModel, path: Seq<char>) -> Result<
    TableModel,
    ErrorModel,
> {
    match index {
        IndexFileModel::Missing => Err(ErrorModel::IndexNotFound(path)),
        IndexFileModel::Unreadable(e) => Err(ErrorModel::IoError(e)),
        IndexFileModel::Present { text, flat } => match mappings_of(text) {
            Some(mappings) => Ok(wrapped_table(mappings)),
            None => match flat {
                FlatIndexModel::Entries(records) => Ok(table_of(records)),
                FlatIndexModel::Malformed(e) => Err(ErrorModel::ParseError(e)),
            },
        },
    }
}

/// The table that an index file holds has every key once.
pub proof fn decoded_index_is_keyed_once(index: IndexFileModel, path: Seq<char>)
    ensures
        decoded_index(index, path) matches Ok(table) ==> keyed_once(table),
{
    match index {
        IndexFileModel::Present { text, flat } => match mappings_of(text) {
            Some(JsonModel::Object(members)) => table_of_mappings_is_keyed_once(members),
            Some(_) => {},
            None => match flat {
                FlatIndexModel::Entries(records) => table_of_is_keyed_once(records),
                _ => {},
            },
        },
        _ => {},
    }
}

proof fn table_of_is_keyed_once(records: TableModel)
    ensures
        keyed_once(table_of(records)),
    decreases records.len(),
{
    if records.len() > 0 {
        table_of_is_keyed_once(records.drop_last());
        table_put_keeps_keys(table_of(records.drop_last()), records.last().0, records.last().1);
    }
}

proof fn table_of_mappings_is_keyed_once(members: Seq<(Seq<char>, JsonModel)>)
    ensures
        keyed_once(table_of_mappings(members)),
    decreases members.len(),
{
    if members.len() > 0 {
        table_of_mappings_is_keyed_once(members.drop_last());
        table_put_keeps_keys(
            table_of_mappings(members.drop_last()),
            members.last().0,
            mapped_entry(members.last().0, members.last().1),
        );
    }
}

#[verifier::loop_isolation(false)]
fn table_from_mappings(mappings: &JsonValue) -> (r: HashTable)
    ensures
        r.deep_view() == wrapped_table(mappings.deep_view()),
        keyed_once(r.deep_view()),
{
    let mut table = HashTable::new();
    match mappings {
        JsonValue::Object(members) => {
            proof {
                crate::json::object_model(*mappings);
            }
            let ghost model = mappings.deep_view()->Object_0;
            let mut i: usize = 0;
            assert(model.take(0) =~= Seq::empty());
            while i < members.len()
                invariant
                    i <= members.len(),
                    table.deep_view() == table_of_mappings(model.take(i as int)),
                    keyed_once(table.deep_view()),
                decreases members.len() - i,
            {
                let code = &members[i].0;
                let file_path = match &members[i].1 {
                    JsonValue::Text(t) => t.clone(),
                    _ => String::new(),
                };
                let entry = HashTableEntry {
                    door_code: code.clone(),
                    category: category_from_path(file_path.as_str()),
                    short_code: extract_short_code(code.as_str()),
                    file_path,
                };
                proof {
                    let next = model.take(i + 1);
                    assert(next.drop_last() == model.take(i as int));
                    assert(next.last() == model[i as int]);
                }
                table.insert(code.clone(), entry);
                i += 1;
            }
            assert(model.take(members.len() as int) == model);
        },
        _ => {},
    }
    table
}

#[verifier::loop_isolation(false)]
fn table_from_records(records: &Vec<(String, HashTableEntry)>) -> (r: HashTable)
    ensures
        r.deep_view() == table_of(records.deep_view()),
        keyed_once(r.deep_view()),
{
    let mut table = HashTable::new();
    let ghost model = records.deep_view();
    let mut i: usize = 0;
    assert(model.take(0) =~= Seq::empty());
    while i < records.len()
        invariant
            i <= records.len(),
            table.deep_view() == table_of(model.take(i as int)),
            keyed_once(table.deep_view()),
        decreases records.len() - i,
    {
        proof {
            let next = model.take(i + 1);
            assert(next.drop_last() == model.take(i as int));
            assert(next.last() == model[i as int]);
            assert(model[i as int] == records@[i as int].deep_view());
        }
        table.insert(records[i].0.clone(), records[i].1.clone());
        i += 1;
    }
    assert(model.take(records.len() as int) == model);
    table
}

/// Decodes an index file; `path` is where the file stands. The table holds
/// a key once, whatever the file holds.
pub fn decode_index(index: &IndexFile, path: &str) -> (r: Result<HashTable, LoaderError>)
    ensures
        result_model(r) == decoded_index(index.deep_view(), path@),
        r matches Ok(table) ==> keyed_once(table.deep_view()),
{
    match index {
        IndexFile::Missing => Err(LoaderError::IndexNotFound(owned(path))),
        IndexFile::Unreadable(e) => Err(LoaderError::IoError(e.clone())),
        IndexFile::Present { text, flat } => {
            match JsonValue::parse(text.as_str()) {
                Ok(document) => {
                    match document.get("mappings") {
                        Some(mappings) => {
                            return Ok(table_from_mappings(mappings));
                        },
                        None => {},
                    }
                },
                Err(_) => {},
            }
            match flat {
                FlatIndex::Entries(records) => Ok(table_from_records(records)),
                FlatIndex::Malformed(e) => Err(LoaderError::ParseError(e.clone())),
            }
        },
    }
}

// ---------------------------------------------------------------------------
// From a code to a path
// ---------------------------------------------------------------------------

/// Whether a record answers to a code that is not its key: its key begins
/// with the code, or its short code is the code.
pub open spec fn answers_to(record: (Seq<char>, EntryModel), code: Seq<char>) -> bool {
    has_prefix(record.0, code) || record.1.short_code == code
}

/// The first position at or after `from` of a record that answers to
/// `code`, or the length of the table where none does.
pub open spec fn fallback_position(table: TableModel, code: Seq<char>, from: int) -> int
    decreases table.len() - from,
{
    if from < 0 || from >= table.len() {
        table.len() as int
    } else if answers_to(table[from], code) {
        from
    } else {
        fallback_position(table, code, from + 1)
    }
}

/// The record that a code leads to: the one whose key is the normalized
/// code, or else the first that answers to it.
pub open spec fn resolved_entry(table: TableModel, code: Seq<char>) -> Option<EntryModel> {
    let key = normalized(code);
    match table_get(table, key) {
        Some(entry) => Some(entry),
        None => {
            let at = fallback_position(table, key, 0);
            if at < table.len() {
                Some(table[at].1)
            } else {
                None
            }
        },
    }
}

/// The path of the file that a code leads to, below `root`; that the door
/// is not found, with the code as it was given, where it leads to none.
pub open spec fn resolved(table: TableModel, root: Seq<char>, code: Seq<char>) -> Result<
    Seq<char>,
    ErrorModel,
> {
    match resolved_entry(table, code) {
        Some(entry) => Ok(path_join(root, entry.file_path)),
        None => Err(ErrorModel::DoorNotFound(code)),
    }
}

impl HashTable {
    /// The path of the file that a code leads to, below `root`.
    #[verifier::loop_isolation(false)]
    pub fn resolve(&self, root: &str, code: &str) -> (r: Result<String, LoaderError>)
        ensures
            result_model(r) == resolved(self.deep_view(), root@, code@),
    {
        let key = normalize_door_code(code);
        match self.get(key.as_str()) {
            Some(entry) => {
                return Ok(join_path(root, entry.file_path.as_str()));
            },
            None => {},
        }
        let ghost table = self.deep_view();
        let mut i: usize = 0;
        while i < self.entries.len()
            invariant
                i <= self.entries.len(),
                fallback_position(table, key@, 0) == fallback_position(table, key@, i as int),
            decreases self.entries.len() - i,
        {
            let record = &self.entries[i];
            assert(table[i as int] == record.deep_view());
            if starts_with(record.0.as_str(), key.as_str()) || same(
                record.1.short_code.as_str(),
                key.as_str(),
            ) {
                return Ok(join_path(root, record.1.file_path.as_str()));
            }
            i += 1;
        }
        Err(LoaderError::DoorNotFound(owned(code)))
    }
}

// ---------------------------------------------------------------------------
// The store
// ---------------------------------------------------------------------------

/// A door in the cache: the key it was asked for under, and when it was
/// loaded.
#[derive(Debug)]
pub struct CachedDoor {
    key: String,
    door: Door,
    loaded_at: u64,
}

pub struct CachedModel {
    pub key: Seq<char>,
    pub door: DoorModel,
    pub loaded_at: u64,
}

/// The document store. A new store holds every key once, in its index and
/// among its cached doors, and every operation keeps it so
/// (`LoaderModel::settled`).
#[derive(Debug)]
pub struct DoorLoader {
    config: Config,
    hash_table: Option<HashTable>,
    door_cache: Vec<CachedDoor>,
}

/// What a store holds: its configuration, the index where it is cached, and
/// the cached doors.
pub struct LoaderModel {
    pub config: ConfigModel,
    pub index: Option<TableModel>,
    pub cache: Seq<CachedModel>,
}

impl DeepView for CachedDoor {
    type V = CachedModel;

    closed spec fn deep_view(&self) -> CachedModel {
        CachedModel { key: self.key@, door: self.door.deep_view(), loaded_at: self.loaded_at }
    }
}

impl DeepView for DoorLoader {
    type V = LoaderModel;

    closed spec fn deep_view(&self) -> LoaderModel {
        LoaderModel {
            config: self.config.deep_view(),
            index: self.hash_table.deep_view(),
            cache: self.door_cache.deep_view(),
        }
    }
}

/// The first position at or after `from` of a cached door with the key, or
/// the length of the cache.
pub open spec fn cache_position(cache: Seq<CachedModel>, key: Seq<char>, from: int) -> int
    decreases cache.len() - from,
{
    if from < 0 || from >= cache.len() {
        cache.len() as int
    } else if cache[from].key == key {
        from
    } else {
        cache_position(cache, key, from + 1)
    }
}

pub proof fn cache_position_bounds(cache: Seq<CachedModel>, key: Seq<char>, from: int)
    requires
        0 <= from <= cache.len(),
    ensures
        from <= cache_position(cache, key, from) <= cache.len(),
        cache_position(cache, key, from) < cache.len() ==> cache[cache_position(
            cache,
            key,
            from,
        )].key == key,
        forall|j: int| from <= j < cache_position(cache, key, from) ==> cache[j].key != key,
    decreases cache.len() - from,
{
    if from < cache.len() && cache[from].key != key {
        cache_position_bounds(cache, key, from + 1);
    }
}

/// Whether a door loaded at `loaded_at` is still fresh at `now`.
pub open spec fn fresh(loaded_at: u64, now: u64) -> bool {
    now - loaded_at < CACHE_TTL_MILLIS
}

/// The door that the cache holds under `key` and that is fresh at `now`.
pub open spec fn cached(m: LoaderModel, key: Seq<char>, now: u64) -> Option<DoorModel> {
    let at = cache_position(m.cache, key, 0);
    if at < m.cache.len() && fresh(m.cache[at].loaded_at, now) {
        Some(m.cache[at].door)
    } else {
        None
    }
}

/// The cache with `door` under `key`, loaded at `now`: in the place of the
/// door that stood under the key, or at the end.
pub open spec fn cache_put(cache: Seq<CachedModel>, key: Seq<char>, door: DoorModel, now: u64) -> Seq<
    CachedModel,
> {
    let at = cache_position(cache, key, 0);
    let entry = CachedModel { key, door, loaded_at: now };
    if at < cache.len() {
        cache.update(at, entry)
    } else {
        cache.push(entry)
    }
}

/// Whether every key of a cache stands in it once.
pub open spec fn cached_once(cache: Seq<CachedModel>) -> bool {
    forall|i: int, j: int| 0 <= i < j < cache.len() ==> cache[i].key != cache[j].key
}

/// A cache whose keys stand in it once is one still after a door was put
/// into it.
pub proof fn cache_put_keeps_keys(cache: Seq<CachedModel>, key: Seq<char>, door: DoorModel, now: u64)
    requires
        cached_once(cache),
    ensures
        cached_once(cache_put(cache, key, door, now)),
{
    cache_position_bounds(cache, key, 0);
    let at = cache_position(cache, key, 0);
    let after = cache_put(cache, key, door, now);
    assert forall|i: int, j: int| 0 <= i < j < after.len() implies after[i].key != after[j].key by {
        if at < cache.len() {
            assert(after[i].key == cache[i].key);
            assert(after[j].key == cache[j].key);
        } else if j < cache.len() {
            assert(after[i] == cache[i]);
            assert(after[j] == cache[j]);
        } else {
            assert(after[i] == cache[i]);
        }
    }
}

impl LoaderModel {
    /// Whether the store holds every key once, in the index that it has
    /// cached and among its cached doors.
    pub open spec fn settled(self) -> bool {
        &&& cached_once(self.cache)
        &&& self.index matches Some(table) ==> keyed_once(table)
    }
}

/// The index that the store works with: the cached one, or else the one
/// that the index file holds.
pub open spec fn index_of(m: LoaderModel, c: CorpusModel) -> Result<TableModel, ErrorModel> {
    match m.index {
        Some(table) => Ok(table),
        None => decoded_index(c.index, m.config.hash_table_path()),
    }
}

/// The store once it has asked for its index: the index is cached where it
/// could be had.
pub open spec fn with_index(m: LoaderModel, c: CorpusModel) -> LoaderModel {
    match index_of(m, c) {
        Ok(table) => LoaderModel { index: Some(table), ..m },
        Err(_) => m,
    }
}

/// The path that a code leads to.
pub open spec fn located(m: LoaderModel, c: CorpusModel, code: Seq<char>) -> Result<
    Seq<char>,
    ErrorModel,
> {
    match index_of(m, c) {
        Ok(table) => resolved(table, m.config.phishri_path, code),
        Err(e) => Err(e),
    }
}

/// The door that a lookup key leads to through the index and the files.
pub open spec fn fetched(m: LoaderModel, c: CorpusModel, key: Seq<char>) -> Result<
    DoorModel,
    ErrorModel,
> {
    match located(m, c, key) {
        Ok(path) => read_door_file(c.files, path),
        Err(e) => Err(e),
    }
}

/// What loading a door by its code gives at `now`: the cached door where
/// the cache holds a fresh one under the normalized code, or else the door
/// that the normalized code leads to.
pub open spec fn loaded(m: LoaderModel, c: CorpusModel, now: u64, code: Seq<char>) -> Result<
    DoorModel,
    ErrorModel,
> {
    match cached(m, normalized(code), now) {
        Some(door) => Ok(door),
        None => fetched(m, c, normalized(code)),
    }
}

/// The store after loading a door by its code: unchanged where the cache
/// answered; or else with the index cached, and with the door cached where
/// it was found.
pub open spec fn after_load(m: LoaderModel, c: CorpusModel, now: u64, code: Seq<char>) -> LoaderModel {
    let key = normalized(code);
    if cached(m, key, now) is Some {
        m
    } else {
        match fetched(m, c, key) {
            Ok(door) => LoaderModel {
                cache: cache_put(m.cache, key, door, now),
                ..with_index(m, c)
            },
            Err(_) => with_index(m, c),
        }
    }
}

/// A store that holds every key once does so still once it has asked for
/// its index, and after it has loaded a door.
pub proof fn load_stays_settled(m: LoaderModel, c: CorpusModel, now: u64, code: Seq<char>)
    requires
        m.settled(),
    ensures
        with_index(m, c).settled(),
        after_load(m, c, now, code).settled(),
{
    decoded_index_is_keyed_once(c.index, m.config.hash_table_path());
    let key = normalized(code);
    match fetched(m, c, key) {
        Ok(door) => cache_put_keeps_keys(m.cache, key, door, now),
        Err(_) => {},
    }
}

impl DoorLoader {
    /// A store with empty caches.
    pub fn new(config: Config) -> (r: DoorLoader)
        ensures
            r.deep_view() == (LoaderModel {
                config: config.deep_view(),
                index: None,
                cache: Seq::empty(),
            }),
            r.deep_view().settled(),
    {
        let r = DoorLoader {
            config,
            hash_table: None,
            door_cache: Vec::new(),
        };
        assert(r.door_cache.deep_view() =~= Seq::empty());
        r
    }

    /// The configuration of the store.
    pub fn config(&self) -> (r: &Config)
        ensures
            r.deep_view() == self.deep_view().config,
    {
        &self.config
    }

    /// Makes sure that the index is cached.
    fn ensure_index(&mut self, corpus: &Corpus) -> (r: Result<(), LoaderError>)
        ensures
            final(self).deep_view() == with_index(old(self).deep_view(), corpus.deep_view()),
            old(self).deep_view().settled() ==> final(self).deep_view().settled(),
            match r {
                Ok(_) => index_of(old(self).deep_view(), corpus.deep_view()) is Ok
                    && final(self).hash_table is Some,
                Err(e) => index_of(old(self).deep_view(), corpus.deep_view()) == Err::<
                    TableModel,
                    ErrorModel,
                >(e.deep_view()),
            },
    {
        proof {
            if self.deep_view().settled() {
                load_stays_settled(self.deep_view(), corpus.deep_view(), 0, Seq::empty());
            }
        }
        if self.hash_table.is_some() {
            return Ok(());
        }
        let path = self.config.hash_table_path();
        match decode_index(&corpus.index, path.as_str()) {
            Ok(table) => {
                self.hash_table = Some(table);
                Ok(())
            },
            Err(e) => Err(e),
        }
    }

    /// The code index: the cached one, or else the one that the index file
    /// holds, which is then cached.
    pub fn load_hash_table(&mut self, corpus: &Corpus) -> (r: Result<HashTable, LoaderError>)
        ensures
            result_model(r) == index_of(old(self).deep_view(), corpus.deep_view()),
            final(self).deep_view() == with_index(old(self).deep_view(), corpus.deep_view()),
            old(self).deep_view().settled() ==> final(self).deep_view().settled(),
    {
        match self.ensure_index(corpus) {
            Ok(_) => match &self.hash_table {
                Some(table) => Ok(table.clone()),
                None => Err(LoaderError::IndexNotFound(String::new())),
            },
            Err(e) => Err(e),
        }
    }

    /// The path of the file that a code leads to.
    pub fn resolve_door_path(&mut self, door_code: &str, corpus: &Corpus) -> (r: Result<
        String,
        LoaderError,
    >)
        ensures
            result_model(r) == located(old(self).deep_view(), corpus.deep_view(), door_code@),
            final(self).deep_view() == with_index(old(self).deep_view(), corpus.deep_view()),
            old(self).deep_view().settled() ==> final(self).deep_view().settled(),
    {
        match self.ensure_index(corpus) {
            Ok(_) => match &self.hash_table {
                Some(table) => table.resolve(self.config.phishri_path.as_str(), door_code),
                None => Err(LoaderError::IndexNotFound(String::new())),
            },
            Err(e) => Err(e),
        }
    }

    #[verifier::loop_isolation(false)]
    fn cache_index(&self, key: &str) -> (r: usize)
        ensures
            r == cache_position(self.deep_view().cache, key@, 0),
            r <= self.door_cache.len(),
    {
        let ghost cache = self.deep_view().cache;
        let mut i: usize = 0;
        while i < self.door_cache.len()
            invariant
                i <= self.door_cache.len(),
                cache_position(cache, key@, 0) == cache_position(cache, key@, i as int),
            decreases self.door_cache.len() - i,
        {
            assert(cache[i as int] == self.door_cache@[i as int].deep_view());
            if same(self.door_cache[i].key.as_str(), key) {
                return i;
            }
            i += 1;
        }
        i
    }

    /// Loads a door by its code, at the time `now` in milliseconds.
    pub fn load_door(&mut self, door_code: &str, corpus: &Corpus, now: u64) -> (r: Result<
        Door,
        LoaderError,
    >)
        ensures
            result_model(r) == loaded(old(self).deep_view(), corpus.deep_view(), now, door_code@),
            final(self).deep_view() == after_load(
                old(self).deep_view(),
                corpus.deep_view(),
                now,
                door_code@,
            ),
            old(self).deep_view().settled() ==> final(self).deep_view().settled(),
    {
        proof {
            if self.deep_view().settled() {
                load_stays_settled(self.deep_view(), corpus.deep_view(), now, door_code@);
            }
        }
        let key = normalize_door_code(door_code);
        let at = self.cache_index(key.as_str());
        if at < self.door_cache.len() {
            let entry = &self.door_cache[at];
            assert(self.deep_view().cache[at as int] == entry.deep_view());
            if now < entry.loaded_at || now - entry.loaded_at < CACHE_TTL_MILLIS {
                return Ok(entry.door.clone());
            }
        }
        let path = match self.resolve_door_path(key.as_str(), corpus) {
            Ok(path) => path,
            Err(e) => {
                return Err(e);
            },
        };
        let door = match corpus.read_door_file(path.as_str()) {
            Ok(door) => door,
            Err(e) => {
                return Err(e);
            },
        };
        let ghost before = self.deep_view().cache;
        let entry = CachedDoor { key, door: door.clone(), loaded_at: now };
        if at < self.door_cache.len() {
            self.door_cache[at] = entry;
            assert(self.deep_view().cache =~= before.update(at as int, entry.deep_view()));
        } else {
            self.door_cache.push(entry);
            assert(self.deep_view().cache =~= before.push(entry.deep_view()));
        }
        Ok(door)
    }

    /// Reads the door file at a path.
    pub fn load_door_file(&self, path: &str, corpus: &Corpus) -> (r: Result<Door, LoaderError>)
        ensures
            result_model(r) == read_door_file(corpus.deep_view().files, path@),
    {
        corpus.read_door_file(path)
    }

    /// Drops the cached index and the cached doors.
    pub fn clear_cache(&mut self)
        ensures
            final(self).deep_view() == (LoaderModel {
                index: None,
                cache: Seq::empty(),
                ..old(self).deep_view()
            }),
            final(self).deep_view().settled(),
    {
        self.door_cache = Vec::new();
        self.hash_table = None;
        assert(self.door_cache.deep_view() =~= Seq::empty());
    }
}


// ---------------------------------------------------------------------------
// Loading leaves later loads as they were
// ---------------------------------------------------------------------------

proof fn position_by_keys(a: Seq<CachedModel>, b: Seq<CachedModel>, key: Seq<char>, from: int)
    requires
        a.len() == b.len(),
        forall|j: int| 0 <= j < a.len() ==> a[j].key == b[j].key,
        0 <= from <= a.len(),
    ensures
        cache_position(a, key, from) == cache_position(b, key, from),
    decreases a.len() - from,
{
    if from < a.len() && a[from].key != key {
        position_by_keys(a, b, key, from + 1);
    }
}

proof fn position_after_push(a: Seq<CachedModel>, e: CachedModel, key: Seq<char>, from: int)
    requires
        0 <= from <= a.len(),
    ensures
        cache_position(a.push(e), key, from) == (if cache_position(a, key, from) < a.len() {
            cache_position(a, key, from)
        } else if e.key == key {
            a.len() as int
        } else {
            a.len() as int + 1
        }),
    decreases a.len() - from,
{
    let b = a.push(e);
    if from < a.len() {
        assert(b[from] == a[from]);
        if a[from].key != key {
            position_after_push(a, e, key, from + 1);
        }
    } else {
        assert(b[from] == e);
        if e.key != key {
            assert(cache_position(b, key, from + 1) == b.len());
        }
    }
}

/// After `door` is put into the cache under `key` at `now`, the cache
/// answers with it under that key, and as before under every other.
pub proof fn cache_put_answers(m: LoaderModel, key: Seq<char>, door: DoorModel, now: u64, other: Seq<
    char,
>)
    ensures
        cached(LoaderModel { cache: cache_put(m.cache, key, door, now), ..m }, key, now) == Some(
            door,
        ),
        other != key ==> cached(
            LoaderModel { cache: cache_put(m.cache, key, door, now), ..m },
            other,
            now,
        ) == cached(m, other, now),
{
    let cache = m.cache;
    let at = cache_position(cache, key, 0);
    let entry = CachedModel { key, door, loaded_at: now };
    let after = cache_put(cache, key, door, now);
    cache_position_bounds(cache, key, 0);
    cache_position_bounds(cache, other, 0);
    if at < cache.len() {
        assert(after == cache.update(at, entry));
        position_by_keys(cache, after, key, 0);
        position_by_keys(cache, after, other, 0);
    } else {
        assert(after == cache.push(entry));
        position_after_push(cache, entry, key, 0);
        position_after_push(cache, entry, other, 0);
        if other != key && cache_position(cache, other, 0) < cache.len() {
            assert(after[cache_position(cache, other, 0)] == cache[cache_position(cache, other, 0)]);
        }
    }
}

/// Loading one door does not change what loading any door gives at the same
/// time from the same corpus.
pub proof fn load_is_stable(m: LoaderModel, c: CorpusModel, now: u64, first: Seq<char>, then: Seq<
    char,
>)
    ensures
        loaded(after_load(m, c, now, first), c, now, then) == loaded(m, c, now, then),
        after_load(m, c, now, first).config == m.config,
        index_of(after_load(m, c, now, first), c) == index_of(m, c),
{
    let key = normalized(first);
    let other = normalized(then);
    let indexed = with_index(m, c);
    assert(index_of(indexed, c) == index_of(m, c));
    assert(fetched(indexed, c, other) == fetched(m, c, other));
    if cached(m, key, now) is None {
        match fetched(m, c, key) {
            Ok(door) => {
                cache_put_answers(indexed, key, door, now, other);
                let after = LoaderModel { cache: cache_put(m.cache, key, door, now), ..indexed };
                assert(after == after_load(m, c, now, first));
                assert(fetched(after, c, other) == fetched(m, c, other));
                assert(cached(indexed, other, now) == cached(m, other, now));
            },
            Err(_) => {
                assert(cached(indexed, other, now) == cached(m, other, now));
            },
        }
    }
}

// ---------------------------------------------------------------------------
// Listing
// ---------------------------------------------------------------------------

/// Whether an entry belongs to the category asked for; every entry does
/// where none is asked for. The case of ASCII letters does not count.
pub open spec fn in_category(entry: EntryModel, category: Option<Seq<char>>) -> bool {
    match category {
        Some(wanted) => same_ignoring_ascii_case(entry.category, wanted),
        None => true,
    }
}

/// The name under which a record is listed: its short code, or its key
/// where it has none.
pub open spec fn listed_name(record: (Seq<char>, EntryModel)) -> Seq<char> {
    if record.1.short_code.len() == 0 {
        record.0
    } else {
        record.1.short_code
    }
}

/// The records of a category, each as its listed name and its key, in the
/// order of the table.
pub open spec fn selected(table: TableModel, category: Option<Seq<char>>) -> Seq<
    (Seq<char>, Seq<char>),
>
    decreases table.len(),
{
    if table.len() == 0 {
        Seq::empty()
    } else if in_category(table.last().1, category) {
        selected(table.drop_last(), category).push((listed_name(table.last()), table.last().0))
    } else {
        selected(table.drop_last(), category)
    }
}

/// Where an item goes into a list ordered by name: before the first item at
/// or after `from` whose name comes after its own.
pub open spec fn insertion_point(
    sorted: Seq<(Seq<char>, Seq<char>)>,
    name: Seq<char>,
    from: int,
) -> int
    decreases sorted.len() - from,
{
    if from < 0 || from >= sorted.len() {
        sorted.len() as int
    } else if !lex_le(sorted[from].0, name) {
        from
    } else {
        insertion_point(sorted, name, from + 1)
    }
}

pub proof fn insertion_point_bounds(sorted: Seq<(Seq<char>, Seq<char>)>, name: Seq<char>, from: int)
    requires
        0 <= from <= sorted.len(),
    ensures
        from <= insertion_point(sorted, name, from) <= sorted.len(),
        forall|i: int|
            from <= i < insertion_point(sorted, name, from) ==> lex_le(
                (#[trigger] sorted[i]).0,
                name,
            ),
        insertion_point(sorted, name, from) < sorted.len() ==> !lex_le(
            sorted[insertion_point(sorted, name, from)].0,
            name,
        ),
    decreases sorted.len() - from,
{
    if from < sorted.len() && lex_le(sorted[from].0, name) {
        insertion_point_bounds(sorted, name, from + 1);
    }
}

/// The items ordered by name, items of one name in the order they came in.
pub open spec fn ordered_by_name(items: Seq<(Seq<char>, Seq<char>)>) -> Seq<(Seq<char>, Seq<char>)>
    decreases items.len(),
{
    if items.len() == 0 {
        Seq::empty()
    } else {
        let sorted = ordered_by_name(items.drop_last());
        sorted.insert(insertion_point(sorted, items.last().0, 0), items.last())
    }
}

/// Whether the names of a list stand in order.
pub open spec fn in_order(items: Seq<(Seq<char>, Seq<char>)>) -> bool {
    forall|i: int, j: int|
        0 <= i < j < items.len() ==> lex_le((#[trigger] items[i]).0, (#[trigger] items[j]).0)
}

/// What ordering by name gives has every item that went in, and the names
/// stand in order.
pub proof fn ordered_by_name_is_in_order(items: Seq<(Seq<char>, Seq<char>)>)
    ensures
        ordered_by_name(items).len() == items.len(),
        in_order(ordered_by_name(items)),
    decreases items.len(),
{
    if items.len() > 0 {
        let sorted = ordered_by_name(items.drop_last());
        let item = items.last();
        let at = insertion_point(sorted, item.0, 0);
        let after = sorted.insert(at, item);
        ordered_by_name_is_in_order(items.drop_last());
        insertion_point_bounds(sorted, item.0, 0);
        assert forall|i: int, j: int| 0 <= i < j < after.len() implies lex_le(
            (#[trigger] after[i]).0,
            (#[trigger] after[j]).0,
        ) by {
            if j < at {
                assert(after[i] == sorted[i] && after[j] == sorted[j]);
            } else if j == at {
                assert(after[i] == sorted[i]);
            } else if i == at {
                assert(after[j] == sorted[j - 1]);
                lex_le_is_total(sorted[at].0, item.0);
                if j - 1 > at {
                    lex_le_is_transitive(item.0, sorted[at].0, sorted[j - 1].0);
                }
            } else if i < at {
                assert(after[i] == sorted[i] && after[j] == sorted[j - 1]);
            } else {
                assert(after[i] == sorted[i - 1] && after[j] == sorted[j - 1]);
            }
        }
    }
}

/// The first `limit` items.
pub open spec fn limited<T>(items: Seq<T>, limit: int) -> Seq<T> {
    if limit < items.len() {
        items.take(limit)
    } else {
        items
    }
}

/// The listing of a table: the records of the category, ordered by their
/// listed names, the first `limit` of them.
pub open spec fn listing_of(table: TableModel, category: Option<Seq<char>>, limit: int) -> Seq<
    (Seq<char>, Seq<char>),
> {
    limited(ordered_by_name(selected(table, category)), limit)
}

impl HashTable {
    /// The listing of the table.
    #[verifier::loop_isolation(false)]
    pub fn list(&self, category: Option<&str>, limit: usize) -> (r: Vec<(String, String)>)
        ensures
            r.deep_view() == listing_of(self.deep_view(), category.deep_view(), limit as int),
    {
        let ghost table = self.deep_view();
        let ghost wanted = category.deep_view();
        let mut out: Vec<(String, String)> = Vec::new();
        let mut i: usize = 0;
        assert(table.take(0) =~= Seq::empty());
        assert(out.deep_view() =~= Seq::empty());
        while i < self.entries.len()
            invariant
                i <= self.entries.len(),
                out.deep_view() == ordered_by_name(selected(table.take(i as int), wanted)),
            decreases self.entries.len() - i,
        {
            let record = &self.entries[i];
            proof {
                let next = table.take(i + 1);
                assert(next.drop_last() == table.take(i as int));
                assert(next.last() == table[i as int]);
                assert(table[i as int] == record.deep_view());
            }
            let wanted_here = match category {
                Some(name) => eq_ignore_ascii_case(record.1.category.as_str(), name),
                None => true,
            };
            if wanted_here {
                let name = if record.1.short_code.as_str().unicode_len() == 0 {
                    record.0.clone()
                } else {
                    record.1.short_code.clone()
                };
                let ghost sorted = out.deep_view();
                let ghost items = selected(table.take(i + 1), wanted);
                assert(items.drop_last() == selected(table.take(i as int), wanted));
                let mut at: usize = 0;
                while at < out.len() && text_le(out[at].0.as_str(), name.as_str())
                    invariant
                        at <= out.len(),
                        out.deep_view() == sorted,
                        insertion_point(sorted, name@, 0) == insertion_point(
                            sorted,
                            name@,
                            at as int,
                        ),
                    decreases out.len() - at,
                {
                    assert(sorted[at as int] == out@[at as int].deep_view());
                    at += 1;
                }
                proof {
                    if at < out.len() {
                        assert(sorted[at as int] == out@[at as int].deep_view());
                    }
                }
                let item = (name, record.0.clone());
                out.insert(at, item);
                assert(out.deep_view() =~= sorted.insert(at as int, item.deep_view()));
            }
            i += 1;
        }
        assert(table.take(self.entries.len() as int) == table);
        if limit < out.len() {
            let ghost all = out.deep_view();
            out.truncate(limit);
            assert(out.deep_view() =~= all.take(limit as int));
        }
        out
    }
}

impl DoorLoader {
    /// The doors of the index, each as its listed name and its code: those
    /// of a category where one is named, ordered by listed name, at most
    /// `limit` of them.
    pub fn list_doors(&mut self, category: Option<&str>, limit: usize, corpus: &Corpus) -> (r:
        Result<Vec<(String, String)>, LoaderError>)
        ensures
            final(self).deep_view() == with_index(old(self).deep_view(), corpus.deep_view()),
            old(self).deep_view().settled() ==> final(self).deep_view().settled(),
            match r {
                Ok(doors) => match index_of(old(self).deep_view(), corpus.deep_view()) {
                    Ok(table) => doors.deep_view() == listing_of(
                        table,
                        category.deep_view(),
                        limit as int,
                    ),
                    Err(_) => false,
                },
                Err(e) => index_of(old(self).deep_view(), corpus.deep_view()) == Err::<
                    TableModel,
                    ErrorModel,
                >(e.deep_view()),
            },
    {
        match self.ensure_index(corpus) {
            Ok(_) => match &self.hash_table {
                Some(table) => Ok(table.list(category, limit)),
                None => Err(LoaderError::IndexNotFound(String::new())),
            },
            Err(e) => Err(e),
        }
    }
}


// ---------------------------------------------------------------------------
// Loading several doors
// ---------------------------------------------------------------------------

/// Two stores answer alike at `now` from the corpus: they have the same
/// configuration, work with the same index, and give the same for every
/// code.
pub open spec fn same_answers(a: LoaderModel, b: LoaderModel, c: CorpusModel, now: u64) -> bool {
    &&& a.config == b.config
    &&& index_of(a, c) == index_of(b, c)
    &&& forall|code: Seq<char>| #[trigger] loaded(a, c, now, code) == loaded(b, c, now, code)
}

/// A store that answers like another still does after it has loaded a door.
pub proof fn load_keeps_answers(a: LoaderModel, b: LoaderModel, c: CorpusModel, now: u64, code: Seq<
    char,
>)
    requires
        same_answers(a, b, c, now),
    ensures
        same_answers(after_load(a, c, now, code), b, c, now),
{
    assert forall|other: Seq<char>| #[trigger]
        loaded(after_load(a, c, now, code), c, now, other) == loaded(b, c, now, other) by {
        load_is_stable(a, c, now, code, other);
        assert(loaded(a, c, now, other) == loaded(b, c, now, other));
    }
    load_is_stable(a, c, now, code, code);
}

/// A store that answers like another still does after it has cached its
/// index.
pub proof fn index_keeps_answers(a: LoaderModel, b: LoaderModel, c: CorpusModel, now: u64)
    requires
        same_answers(a, b, c, now),
    ensures
        same_answers(with_index(a, c), b, c, now),
{
    let indexed = with_index(a, c);
    assert(index_of(indexed, c) == index_of(a, c));
    assert forall|other: Seq<char>| #[trigger]
        loaded(indexed, c, now, other) == loaded(b, c, now, other) by {
        assert(fetched(indexed, c, normalized(other)) == fetched(a, c, normalized(other)));
        assert(cached(indexed, normalized(other), now) == cached(a, normalized(other), now));
        assert(loaded(a, c, now, other) == loaded(b, c, now, other));
    }
}

/// The doors that the codes lead to, in order; the first error where one of
/// them cannot be loaded.
pub open spec fn loaded_all(m: LoaderModel, c: CorpusModel, now: u64, codes: Seq<Seq<char>>) -> Result<
    Seq<DoorModel>,
    ErrorModel,
>
    decreases codes.len(),
{
    if codes.len() == 0 {
        Ok(Seq::empty())
    } else {
        match loaded_all(m, c, now, codes.drop_last()) {
            Ok(doors) => match loaded(m, c, now, codes.last()) {
                Ok(door) => Ok(doors.push(door)),
                Err(e) => Err(e),
            },
            Err(e) => Err(e),
        }
    }
}

impl DoorLoader {
    /// Loads the doors that the codes lead to, in order, and stops at the
    /// first that cannot be loaded.
    #[verifier::loop_isolation(false)]
    pub fn load_doors(&mut self, door_codes: &Vec<String>, corpus: &Corpus, now: u64) -> (r:
        Result<Vec<Door>, LoaderError>)
        ensures
            match r {
                Ok(doors) => loaded_all(
                    old(self).deep_view(),
                    corpus.deep_view(),
                    now,
                    door_codes.deep_view(),
                ) == Ok::<Seq<DoorModel>, ErrorModel>(doors.deep_view()),
                Err(e) => loaded_all(
                    old(self).deep_view(),
                    corpus.deep_view(),
                    now,
                    door_codes.deep_view(),
                ) matches Err(model) && model == e.deep_view(),
            },
            same_answers(final(self).deep_view(), old(self).deep_view(), corpus.deep_view(), now),
            old(self).deep_view().settled() ==> final(self).deep_view().settled(),
    {
        let ghost start = self.deep_view();
        let ghost c = corpus.deep_view();
        let ghost codes = door_codes.deep_view();
        let mut doors: Vec<Door> = Vec::new();
        let mut i: usize = 0;
        assert(codes.take(0) =~= Seq::empty());
        assert(doors.deep_view() =~= Seq::empty());
        while i < door_codes.len()
            invariant
                i <= door_codes.len(),
                same_answers(self.deep_view(), start, c, now),
                start.settled() ==> self.deep_view().settled(),
                loaded_all(start, c, now, codes.take(i as int)) == Ok::<
                    Seq<DoorModel>,
                    ErrorModel,
                >(doors.deep_view()),
            decreases door_codes.len() - i,
        {
            proof {
                let next = codes.take(i + 1);
                assert(next.drop_last() == codes.take(i as int));
                assert(next.last() == door_codes@[i as int]@);
                load_keeps_answers(self.deep_view(), start, c, now, door_codes@[i as int]@);
                assert(loaded(self.deep_view(), c, now, door_codes@[i as int]@) == loaded(
                    start,
                    c,
                    now,
                    door_codes@[i as int]@,
                ));
            }
            let ghost before = doors.deep_view();
            match self.load_door(door_codes[i].as_str(), corpus, now) {
                Ok(door) => {
                    doors.push(door);
                    assert(doors.deep_view() =~= before.push(door.deep_view()));
                },
                Err(e) => {
                    proof {
                        loaded_all_fails_on(start, c, now, codes, i as int);
                    }
                    return Err(e);
                },
            }
            i += 1;
        }
        assert(codes.take(door_codes.len() as int) == codes);
        Ok(doors)
    }
}

/// Where the codes before `at` can be loaded and the one at `at` cannot, the
/// whole fails with that code's error.
pub proof fn loaded_all_fails_on(m: LoaderModel, c: CorpusModel, now: u64, codes: Seq<Seq<char>>, at: int)
    requires
        0 <= at < codes.len(),
        loaded_all(m, c, now, codes.take(at)) is Ok,
        loaded(m, c, now, codes[at]) is Err,
    ensures
        loaded_all(m, c, now, codes) == Err::<Seq<DoorModel>, ErrorModel>(
            loaded(m, c, now, codes[at])->Err_0,
        ),
    decreases codes.len(),
{
    if at == codes.len() - 1 {
        assert(codes.drop_last() == codes.take(at));
    } else {
        assert(codes.drop_last().take(at) == codes.take(at));
        loaded_all_fails_on(m, c, now, codes.drop_last(), at);
    }
}

// ---------------------------------------------------------------------------
// Scanning the documents directory
// ---------------------------------------------------------------------------

/// The category directories that a scan visits, in order.
pub open spec fn categories() -> Seq<Seq<char>> {
    seq![
        "SECURITY"@,
        "WORKFLOWS"@,
        "ARCHITECTURE"@,
        "TOOLS"@,
        "AGENTS"@,
        "PROJECTS"@,
        "ERRORS"@,
        "LANGUAGES"@,
    ]
}

/// The number of category directories that a scan visits.
pub const CATEGORY_COUNT: usize = 8;

/// The name of the category directory that a scan visits as its `k`-th.
pub fn category_name(k: usize) -> (r: &'static str)
    requires
        k < CATEGORY_COUNT,
    ensures
        r@ == categories()[k as int],
{
    if k == 0 {
        "SECURITY"
    } else if k == 1 {
        "WORKFLOWS"
    } else if k == 2 {
        "ARCHITECTURE"
    } else if k == 3 {
        "TOOLS"
    } else if k == 4 {
        "AGENTS"
    } else if k == 5 {
        "PROJECTS"
    } else if k == 6 {
        "ERRORS"
    } else {
        "LANGUAGES"
    }
}

/// The listing of the first of `directories[from..]` that is the category's.
pub open spec fn directory_from(directories: Seq<CategoryDirModel>, category: Seq<char>, from: int) -> Option<
    ListingModel,
>
    decreases directories.len() - from,
{
    if from < 0 || from >= directories.len() {
        None
    } else if directories[from].category == category {
        Some(directories[from].listing)
    } else {
        directory_from(directories, category, from + 1)
    }
}

/// The entry that a scan makes for a door found at `path` in a category
/// directory.
pub open spec fn scanned_entry(root: Seq<char>, path: Seq<char>, category: Seq<char>, door: DoorModel) -> EntryModel {
    EntryModel {
        door_code: door.door_code,
        file_path: relative_to(root, path),
        category,
        short_code: short_code_of(door.door_code),
    }
}

/// The table after the entries of a directory are scanned into it: every
/// regular file named `*.json` that holds a door is entered under the
/// door's own code; every other entry is passed over.
pub open spec fn scanned_into(
    table: TableModel,
    root: Seq<char>,
    files: Seq<DoorFileModel>,
    category: Seq<char>,
    entries: Seq<DirEntryModel>,
) -> TableModel
    decreases entries.len(),
{
    if entries.len() == 0 {
        table
    } else {
        let before = scanned_into(table, root, files, category, entries.drop_last());
        let entry = entries.last();
        if entry.is_file && json_named(entry.path) {
            match read_door_file(files, entry.path) {
                Ok(door) => table_put(
                    before,
                    door.door_code,
                    scanned_entry(root, entry.path, category, door),
                ),
                Err(_) => before,
            }
        } else {
            before
        }
    }
}

/// The table after the first `upto` category directories are scanned; the
/// error of the first that exists and cannot be listed.
pub open spec fn scanned_categories(root: Seq<char>, c: CorpusModel, upto: int) -> Result<
    TableModel,
    ErrorModel,
>
    decreases upto,
{
    if upto <= 0 || upto > categories().len() {
        Ok(Seq::empty())
    } else {
        match scanned_categories(root, c, upto - 1) {
            Ok(table) => match directory_from(c.directories, categories()[upto - 1], 0) {
                Some(ListingModel::Entries(entries)) => Ok(
                    scanned_into(table, root, c.files, categories()[upto - 1], entries),
                ),
                Some(ListingModel::Failed(e)) => Err(ErrorModel::IoError(e)),
                None => Ok(table),
            },
            Err(e) => Err(e),
        }
    }
}

/// The index that the documents directory stands for: that the index is
/// not found, with the directory's path, where the directory is missing;
/// or else the table that scanning the category directories gives.
pub open spec fn scanned(root: Seq<char>, c: CorpusModel) -> Result<TableModel, ErrorModel> {
    if !c.contexts_exists {
        Err(ErrorModel::IndexNotFound(path_join(root, "CONTEXTS"@)))
    } else {
        scanned_categories(root, c, CATEGORY_COUNT as int)
    }
}

#[verifier::loop_isolation(false)]
fn find_directory<'a>(corpus: &'a Corpus, category: &str) -> (r: Option<&'a Listing>)
    ensures
        r.deep_view() == directory_from(corpus.deep_view().directories, category@, 0),
{
    let ghost directories = corpus.deep_view().directories;
    let mut i: usize = 0;
    while i < corpus.directories.len()
        invariant
            i <= corpus.directories.len(),
            directory_from(directories, category@, 0) == directory_from(
                directories,
                category@,
                i as int,
            ),
        decreases corpus.directories.len() - i,
    {
        assert(directories[i as int] == corpus.directories@[i as int].deep_view());
        if same(corpus.directories[i].category.as_str(), category) {
            return Some(&corpus.directories[i].listing);
        }
        i += 1;
    }
    None
}

#[verifier::loop_isolation(false)]
fn scan_directory(
    table: &mut HashTable,
    root: &str,
    corpus: &Corpus,
    category: &str,
    entries: &Vec<DirEntry>,
)
    ensures
        final(table).deep_view() == scanned_into(
            old(table).deep_view(),
            root@,
            corpus.deep_view().files,
            category@,
            entries.deep_view(),
        ),
        keyed_once(old(table).deep_view()) ==> keyed_once(final(table).deep_view()),
{
    let ghost start = table.deep_view();
    let ghost files = corpus.deep_view().files;
    let ghost model = entries.deep_view();
    let mut i: usize = 0;
    assert(model.take(0) =~= Seq::empty());
    while i < entries.len()
        invariant
            i <= entries.len(),
            table.deep_view() == scanned_into(start, root@, files, category@, model.take(i as int)),
            keyed_once(start) ==> keyed_once(table.deep_view()),
        decreases entries.len() - i,
    {
        let entry = &entries[i];
        proof {
            let next = model.take(i + 1);
            assert(next.drop_last() == model.take(i as int));
            assert(next.last() == model[i as int]);
            assert(model[i as int] == entry.deep_view());
        }
        if entry.is_file && is_json_named(entry.path.as_str()) {
            match corpus.read_door_file(entry.path.as_str()) {
                Ok(door) => {
                    let record = HashTableEntry {
                        door_code: door.door_code.clone(),
                        file_path: relative_path(root, entry.path.as_str()),
                        category: owned(category),
                        short_code: short_code_text(door.door_code.as_str()),
                    };
                    table.insert(door.door_code.clone(), record);
                },
                Err(_) => {},
            }
        }
        i += 1;
    }
    assert(model.take(entries.len() as int) == model);
}

impl DoorLoader {
    /// Builds the index from the documents directory, with every key once.
    /// Neither the cached index nor the cached doors are read or changed.
    #[verifier::loop_isolation(false)]
    pub fn scan_doors(&self, corpus: &Corpus) -> (r: Result<HashTable, LoaderError>)
        ensures
            result_model(r) == scanned(self.deep_view().config.phishri_path, corpus.deep_view()),
            r matches Ok(table) ==> keyed_once(table.deep_view()),
    {
        let ghost root = self.deep_view().config.phishri_path;
        let ghost c = corpus.deep_view();
        if !corpus.contexts_exists {
            return Err(LoaderError::IndexNotFound(self.config.contexts_path()));
        }
        let mut table = HashTable::new();
        let mut k: usize = 0;
        while k < CATEGORY_COUNT
            invariant
                k <= CATEGORY_COUNT,
                scanned_categories(root, c, k as int) == Ok::<TableModel, ErrorModel>(
                    table.deep_view(),
                ),
                keyed_once(table.deep_view()),
            decreases CATEGORY_COUNT - k,
        {
            let category = category_name(k);
            match find_directory(corpus, category) {
                Some(Listing::Entries(entries)) => {
                    scan_directory(
                        &mut table,
                        self.config.phishri_path.as_str(),
                        corpus,
                        category,
                        entries,
                    );
                },
                Some(Listing::Failed(e)) => {
                    proof {
                        scan_fails_on(root, c, k as int);
                    }
                    return Err(LoaderError::IoError(e.clone()));
                },
                None => {},
            }
            k += 1;
        }
        Ok(table)
    }
}

/// Where the first `at` category directories can be scanned and the next
/// cannot be listed, the scan fails with that directory's error.
pub proof fn scan_fails_on(root: Seq<char>, c: CorpusModel, at: int)
    requires
        0 <= at < CATEGORY_COUNT,
        scanned_categories(root, c, at) is Ok,
        directory_from(c.directories, categories()[at], 0) matches Some(ListingModel::Failed(_)),
    ensures
        scanned_categories(root, c, CATEGORY_COUNT as int) == scanned_categories(root, c, at + 1),
        scanned_categories(root, c, at + 1) is Err,
{
    scan_error_stays(root, c, at + 1, CATEGORY_COUNT as int);
}

proof fn scan_error_stays(root: Seq<char>, c: CorpusModel, from: int, upto: int)
    requires
        0 < from <= upto <= CATEGORY_COUNT,
        scanned_categories(root, c, from) is Err,
    ensures
        scanned_categories(root, c, upto) == scanned_categories(root, c, from),
    decreases upto - from,
{
    if from < upto {
        scan_error_stays(root, c, from, upto - 1);
    }
}


// ---------------------------------------------------------------------------
// Laws of the store
// ---------------------------------------------------------------------------

/// A door is looked up by the normal form of its code alone: two codes of
/// one normal form, such as a code and the same code with whitespace around
/// it, lead to the same door, or fail alike.
pub proof fn lookup_goes_by_normal_form(m: LoaderModel, c: CorpusModel, now: u64, a: Seq<char>, b: Seq<
    char,
>)
    requires
        normalized(a) == normalized(b),
    ensures
        loaded(m, c, now, a) == loaded(m, c, now, b),
        after_load(m, c, now, a) == after_load(m, c, now, b),
{
}

/// Whitespace around a code does not count.
pub proof fn normal_form_ignores_margins(code: Seq<char>)
    ensures
        normalized(trimmed(code)) == normalized(code),
{
    crate::text::trimmed_is_idempotent(code);
}

/// The normal form of a code is its own normal form, where the uppercase
/// form of the trimmed code is its own uppercase form and has no
/// whitespace around it.
pub proof fn normal_form_settles(code: Seq<char>)
    requires
        uppercase_of(normalized(code)) == normalized(code),
        trimmed(normalized(code)) == normalized(code),
    ensures
        normalized(normalized(code)) == normalized(code),
{
}

proof fn scanned_categories_alike(root: Seq<char>, a: CorpusModel, b: CorpusModel, upto: int)
    requires
        a.directories == b.directories,
        a.files == b.files,
    ensures
        scanned_categories(root, a, upto) == scanned_categories(root, b, upto),
    decreases upto,
{
    if 0 < upto <= categories().len() {
        scanned_categories_alike(root, a, b, upto - 1);
    }
}

/// The scan is a function of the documents directory alone: two corpora
/// with the same directories and files give the same index, whatever index
/// file and whatever session they hold; and no store's caches come into it.
pub proof fn scan_goes_by_documents_alone(root: Seq<char>, a: CorpusModel, b: CorpusModel)
    requires
        a.contexts_exists == b.contexts_exists,
        a.directories == b.directories,
        a.files == b.files,
    ensures
        scanned(root, a) == scanned(root, b),
{
    scanned_categories_alike(root, a, b, CATEGORY_COUNT as int);
}

/// The keys of a table.
pub open spec fn keys_of(table: TableModel) -> Set<Seq<char>> {
    Set::new(|key: Seq<char>| key_position(table, key, 0) < table.len())
}

/// Scanning twice gives the same keys.
pub proof fn scan_keys_are_stable(root: Seq<char>, a: CorpusModel, b: CorpusModel)
    requires
        a.contexts_exists == b.contexts_exists,
        a.directories == b.directories,
        a.files == b.files,
        scanned(root, a) is Ok,
    ensures
        scanned(root, b) is Ok,
        keys_of(scanned(root, a)->Ok_0) == keys_of(scanned(root, b)->Ok_0),
{
    scan_goes_by_documents_alone(root, a, b);
}

/// What stands under a key after an entry is put under a key: the entry
/// under that key, and what stood there under any other.
pub proof fn table_put_gets(table: TableModel, key: Seq<char>, entry: EntryModel, other: Seq<char>)
    ensures
        table_get(table_put(table, key, entry), key) == Some(entry),
        other != key ==> table_get(table_put(table, key, entry), other) == table_get(table, other),
{
    let at = key_position(table, key, 0);
    let after = table_put(table, key, entry);
    key_position_bounds(table, key, 0);
    key_position_bounds(table, other, 0);
    key_position_bounds(after, key, 0);
    key_position_bounds(after, other, 0);
    if at < table.len() {
        assert(after == table.update(at, (key, entry)));
        assert forall|j: int| 0 <= j < table.len() implies (#[trigger] after[j]).0 == table[j].0 by {}
        let pk = key_position(after, key, 0);
        if pk != at {
            if pk < at {
                assert(after[pk].0 == table[pk].0);
            } else {
                assert(after[at].0 == key);
            }
        }
        if other != key {
            let po = key_position(table, other, 0);
            let qo = key_position(after, other, 0);
            if po < table.len() {
                assert(after[po].0 == other);
                if qo < po {
                    assert(table[qo].0 == after[qo].0);
                }
                assert(qo == po);
                assert(po != at);
                assert(after[po] == table[po]);
            } else {
                if qo < after.len() {
                    assert(table[qo].0 == after[qo].0);
                }
            }
        }
    } else {
        assert(after == table.push((key, entry)));
        let pk = key_position(after, key, 0);
        assert(after[table.len() as int].0 == key);
        if pk < table.len() {
            assert(after[pk] == table[pk]);
        }
        assert(pk == table.len());
        if other != key {
            let po = key_position(table, other, 0);
            let qo = key_position(after, other, 0);
            if po < table.len() {
                assert(after[po] == table[po]);
                if qo < po {
                    assert(after[qo] == table[qo]);
                }
                assert(qo == po);
            } else {
                if qo < after.len() {
                    if qo < table.len() {
                        assert(after[qo] == table[qo]);
                    }
                }
            }
        }
    }
}


// ---------------------------------------------------------------------------
// Which files the store may ask for
// ---------------------------------------------------------------------------

/// The files that the records of a table lead to, below `root`.
pub open spec fn targets_of(table: TableModel, root: Seq<char>) -> Seq<Seq<char>> {
    Seq::new(table.len(), |i: int| path_join(root, table[i].1.file_path))
}

/// The files that the index of a store leads to, with the index file as it
/// is: none where there is no index to be had.
pub open spec fn index_targets(m: LoaderModel, index: IndexFileModel) -> Seq<Seq<char>> {
    match m.index {
        Some(table) => targets_of(table, m.config.phishri_path),
        None => match decoded_index(index, m.config.hash_table_path()) {
            Ok(table) => targets_of(table, m.config.phishri_path),
            Err(_) => Seq::empty(),
        },
    }
}

impl HashTable {
    /// The files that the records of the table lead to, below `root`.
    #[verifier::loop_isolation(false)]
    pub fn targets(&self, root: &str) -> (r: Vec<String>)
        ensures
            r.deep_view() == targets_of(self.deep_view(), root@),
    {
        let mut out: Vec<String> = Vec::new();
        let mut i: usize = 0;
        while i < self.entries.len()
            invariant
                i <= self.entries.len(),
                out@.len() == i,
                forall|j: int|
                    0 <= j < i ==> out@[j]@ == path_join(root@, self.entries@[j].1.file_path@),
            decreases self.entries.len() - i,
        {
            out.push(join_path(root, self.entries[i].1.file_path.as_str()));
            i += 1;
        }
        assert(out.deep_view() =~= targets_of(self.deep_view(), root@));
        out
    }
}

impl DoorLoader {
    /// The files that the index leads to, with the index file as it is.
    /// These are the files whose content the store may ask for when it
    /// loads a door by its code. Nothing is cached.
    pub fn index_targets(&self, index: &IndexFile) -> (r: Vec<String>)
        ensures
            r.deep_view() == index_targets(self.deep_view(), index.deep_view()),
    {
        let root = self.config.phishri_path.as_str();
        match &self.hash_table {
            Some(table) => table.targets(root),
            None => match decode_index(index, self.config.hash_table_path().as_str()) {
                Ok(table) => table.targets(root),
                Err(_) => {
                    let none: Vec<String> = Vec::new();
                    assert(none.deep_view() =~= Seq::empty());
                    none
                },
            },
        }
    }
}

} // verus!
