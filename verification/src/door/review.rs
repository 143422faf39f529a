//! Looking the doors over: validation of one door, audit of the corpus, and
//! statistics.
use vstd::prelude::*;
use vstd::string::*;
use crate::config::ConfigModel;
use crate::door::loader::{
    key_position, load_keeps_answers, loaded, same_answers, scanned, DoorLoader, HashTable,
    LoaderModel,
};
use crate::door::schema::{DoorModel, EntryModel};
use crate::door::store::{error_message, read_door_file, Corpus, CorpusModel, IndexFile, TableModel};
use crate::text::{
    eq_ignore_ascii_case, holds, lex_le, owned, same, same_ignoring_ascii_case, text_le,
    to_uppercase, uppercase_of,
};

verus! {

// ---------------------------------------------------------------------------
// Small lists
// ---------------------------------------------------------------------------

/// Every text of a list after `before`.
pub open spec fn each_after(before: Seq<char>, items: Seq<Seq<char>>) -> Seq<Seq<char>> {
    Seq::new(items.len(), |i: int| before + items[i])
}

/// A list of one text where `present` holds, the empty list otherwise.
pub open spec fn note(present: bool, text: Seq<char>) -> Seq<Seq<char>> {
    if present {
        seq![text]
    } else {
        Seq::empty()
    }
}

/// The list with `item` at its end, unless it holds the item.
pub open spec fn with_item(items: Seq<Seq<char>>, item: Seq<char>) -> Seq<Seq<char>> {
    if items.contains(item) {
        items
    } else {
        items.push(item)
    }
}

/// The list with the items, in uppercase, that it does not yet hold.
pub open spec fn with_upper_items(items: Seq<Seq<char>>, more: Seq<Seq<char>>) -> Seq<Seq<char>>
    decreases more.len(),
{
    if more.len() == 0 {
        items
    } else {
        with_item(with_upper_items(items, more.drop_last()), uppercase_of(more.last()))
    }
}

/// How often each text occurs, every text where it first occurs. A count
/// stops at the largest number.
pub open spec fn tallied(counts: Seq<(Seq<char>, usize)>, key: Seq<char>) -> Seq<(Seq<char>, usize)> {
    let at = tally_position(counts, key, 0);
    if at < counts.len() {
        counts.update(at, (key, bumped(counts[at].1)))
    } else {
        counts.push((key, 1usize))
    }
}

/// One more, up to the largest number.
pub open spec fn bumped(n: usize) -> usize {
    if n < usize::MAX {
        (n + 1) as usize
    } else {
        n
    }
}

pub open spec fn tally_position(counts: Seq<(Seq<char>, usize)>, key: Seq<char>, from: int) -> int
    decreases counts.len() - from,
{
    if from < 0 || from >= counts.len() {
        counts.len() as int
    } else if counts[from].0 == key {
        from
    } else {
        tally_position(counts, key, from + 1)
    }
}

/// Whether every text of a tally is counted in one place.
pub open spec fn counted_once(counts: Seq<(Seq<char>, usize)>) -> bool {
    forall|i: int, j: int| 0 <= i < j < counts.len() ==> counts[i].0 != counts[j].0
}

proof fn tally_position_bounds(counts: Seq<(Seq<char>, usize)>, key: Seq<char>, from: int)
    requires
        0 <= from <= counts.len(),
    ensures
        from <= tally_position(counts, key, from) <= counts.len(),
        tally_position(counts, key, from) < counts.len() ==> counts[tally_position(
            counts,
            key,
            from,
        )].0 == key,
        forall|j: int| from <= j < tally_position(counts, key, from) ==> counts[j].0 != key,
    decreases counts.len() - from,
{
    if from < counts.len() && counts[from].0 != key {
        tally_position_bounds(counts, key, from + 1);
    }
}

/// A tally that counts every text in one place does so still after one
/// more occurrence was counted.
pub proof fn tallied_counts_once(counts: Seq<(Seq<char>, usize)>, key: Seq<char>)
    requires
        counted_once(counts),
    ensures
        counted_once(tallied(counts, key)),
{
    tally_position_bounds(counts, key, 0);
    let at = tally_position(counts, key, 0);
    let after = tallied(counts, key);
    assert forall|i: int, j: int| 0 <= i < j < after.len() implies after[i].0 != after[j].0 by {
        if at < counts.len() {
            assert(after[i].0 == counts[i].0);
            assert(after[j].0 == counts[j].0);
        } else if j < counts.len() {
            assert(after[i] == counts[i]);
            assert(after[j] == counts[j]);
        } else {
            assert(after[i] == counts[i]);
        }
    }
}

/// The counts with every key of a list tallied.
pub open spec fn tallied_all(counts: Seq<(Seq<char>, usize)>, keys: Seq<Seq<char>>) -> Seq<
    (Seq<char>, usize),
>
    decreases keys.len(),
{
    if keys.len() == 0 {
        counts
    } else {
        tallied(tallied_all(counts, keys.drop_last()), keys.last())
    }
}

fn bump(n: usize) -> (r: usize)
    ensures
        r == bumped(n),
{
    if n < usize::MAX {
        n + 1
    } else {
        n
    }
}

/// Counts one more occurrence of `key`.
#[verifier::loop_isolation(false)]
pub fn tally(counts: &mut Vec<(String, usize)>, key: &str)
    ensures
        final(counts).deep_view() == tallied(old(counts).deep_view(), key@),
        counted_once(old(counts).deep_view()) ==> counted_once(final(counts).deep_view()),
{
    let ghost model = counts.deep_view();
    proof {
        if counted_once(model) {
            tallied_counts_once(model, key@);
        }
    }
    let mut i: usize = 0;
    while i < counts.len()
        invariant
            i <= counts.len(),
            counts.deep_view() == model,
            tally_position(model, key@, 0) == tally_position(model, key@, i as int),
        decreases counts.len() - i,
    {
        assert(model[i as int] == counts@[i as int].deep_view());
        if same(counts[i].0.as_str(), key) {
            let n = bump(counts[i].1);
            counts[i] = (owned(key), n);
            assert(counts.deep_view() =~= model.update(i as int, (key@, n)));
            return;
        }
        i += 1;
    }
    counts.push((owned(key), 1));
    assert(counts.deep_view() =~= model.push((key@, 1usize)));
}

/// Counts one more occurrence of every key of a list.
#[verifier::loop_isolation(false)]
pub fn tally_all(counts: &mut Vec<(String, usize)>, keys: &Vec<String>)
    ensures
        final(counts).deep_view() == tallied_all(old(counts).deep_view(), keys.deep_view()),
        counted_once(old(counts).deep_view()) ==> counted_once(final(counts).deep_view()),
{
    let ghost start = counts.deep_view();
    let ghost model = keys.deep_view();
    let mut i: usize = 0;
    assert(model.take(0) =~= Seq::empty());
    while i < keys.len()
        invariant
            i <= keys.len(),
            counts.deep_view() == tallied_all(start, model.take(i as int)),
            counted_once(start) ==> counted_once(counts.deep_view()),
        decreases keys.len() - i,
    {
        proof {
            let next = model.take(i + 1);
            assert(next.drop_last() == model.take(i as int));
            assert(next.last() == keys@[i as int]@);
        }
        tally(counts, keys[i].as_str());
        i += 1;
    }
    assert(model.take(keys.len() as int) == model);
}

/// Puts `item` at the end of the list, unless the list holds it.
pub fn add_item(items: &mut Vec<String>, item: String)
    ensures
        final(items).deep_view() == with_item(old(items).deep_view(), item@),
{
    let ghost model = items.deep_view();
    if !holds(items, item.as_str()) {
        items.push(item);
        assert(items.deep_view() =~= model.push(item@));
    }
}

/// Puts the items, in uppercase, at the end of the list, each unless the
/// list holds it.
#[verifier::loop_isolation(false)]
pub fn add_upper_items(items: &mut Vec<String>, more: &Vec<String>)
    ensures
        final(items).deep_view() == with_upper_items(old(items).deep_view(), more.deep_view()),
{
    let ghost start = items.deep_view();
    let ghost model = more.deep_view();
    let mut i: usize = 0;
    assert(model.take(0) =~= Seq::empty());
    while i < more.len()
        invariant
            i <= more.len(),
            items.deep_view() == with_upper_items(start, model.take(i as int)),
        decreases more.len() - i,
    {
        proof {
            let next = model.take(i + 1);
            assert(next.drop_last() == model.take(i as int));
            assert(next.last() == more@[i as int]@);
        }
        add_item(items, to_uppercase(more[i].as_str()));
        i += 1;
    }
    assert(model.take(more.len() as int) == model);
}

/// Appends to `out` every text of `items` after `before`.
#[verifier::loop_isolation(false)]
pub fn push_each_after(out: &mut Vec<String>, before: &str, items: &Vec<String>)
    ensures
        final(out).deep_view() == old(out).deep_view() + each_after(before@, items.deep_view()),
{
    let ghost start = out.deep_view();
    let ghost model = items.deep_view();
    let mut i: usize = 0;
    while i < items.len()
        invariant
            i <= items.len(),
            out.deep_view() == start + each_after(before@, model).take(i as int),
        decreases items.len() - i,
    {
        let mut line = owned(before);
        line.append(items[i].as_str());
        let ghost was = out.deep_view();
        out.push(line);
        assert(out.deep_view() =~= was.push(before@ + model[i as int]));
        assert(out.deep_view() =~= start + each_after(before@, model).take(i + 1));
        i += 1;
    }
    assert(each_after(before@, model).take(items.len() as int) == each_after(before@, model));
}

/// Appends a note to `out` where `present` holds.
pub fn push_note(out: &mut Vec<String>, present: bool, text: &str)
    ensures
        final(out).deep_view() == old(out).deep_view() + note(present, text@),
{
    let ghost start = out.deep_view();
    if present {
        out.push(owned(text));
        assert(out.deep_view() =~= start + seq![text@]);
    } else {
        assert(out.deep_view() =~= start + Seq::<Seq<char>>::empty());
    }
}

// ---------------------------------------------------------------------------
// Counts in order
// ---------------------------------------------------------------------------

/// Whether a counted text may stand before another: by count, the larger
/// count first; or else by text, in lexicographic order.
pub open spec fn stands_before(a: (Seq<char>, usize), b: (Seq<char>, usize), by_count: bool) -> bool {
    if by_count {
        a.1 >= b.1
    } else {
        lex_le(a.0, b.0)
    }
}

/// Where a counted text goes into an ordered list: before the first item,
/// at or after `from`, that may not stand before it.
pub open spec fn place_of(
    sorted: Seq<(Seq<char>, usize)>,
    item: (Seq<char>, usize),
    by_count: bool,
    from: int,
) -> int
    decreases sorted.len() - from,
{
    if from < 0 || from >= sorted.len() {
        sorted.len() as int
    } else if !stands_before(sorted[from], item, by_count) {
        from
    } else {
        place_of(sorted, item, by_count, from + 1)
    }
}

/// The counted texts in order; items that may stand before each other keep
/// the order they came in.
pub open spec fn ordered(items: Seq<(Seq<char>, usize)>, by_count: bool) -> Seq<(Seq<char>, usize)>
    decreases items.len(),
{
    if items.len() == 0 {
        Seq::empty()
    } else {
        let sorted = ordered(items.drop_last(), by_count);
        sorted.insert(place_of(sorted, items.last(), by_count, 0), items.last())
    }
}

fn may_stand_before(a: &(String, usize), b: &(String, usize), by_count: bool) -> (r: bool)
    ensures
        r == stands_before(a.deep_view(), b.deep_view(), by_count),
{
    if by_count {
        a.1 >= b.1
    } else {
        text_le(a.0.as_str(), b.0.as_str())
    }
}

/// The counted texts in order.
#[verifier::loop_isolation(false)]
pub fn order(items: &Vec<(String, usize)>, by_count: bool) -> (r: Vec<(String, usize)>)
    ensures
        r.deep_view() == ordered(items.deep_view(), by_count),
{
    let ghost model = items.deep_view();
    let mut out: Vec<(String, usize)> = Vec::new();
    let mut i: usize = 0;
    assert(model.take(0) =~= Seq::empty());
    assert(out.deep_view() =~= Seq::empty());
    while i < items.len()
        invariant
            i <= items.len(),
            out.deep_view() == ordered(model.take(i as int), by_count),
        decreases items.len() - i,
    {
        let item = (items[i].0.clone(), items[i].1);
        proof {
            let next = model.take(i + 1);
            assert(next.drop_last() == model.take(i as int));
            assert(next.last() == items@[i as int].deep_view());
            assert(item.deep_view() == items@[i as int].deep_view());
        }
        let ghost sorted = out.deep_view();
        let mut at: usize = 0;
        while at < out.len() && may_stand_before(&out[at], &item, by_count)
            invariant
                at <= out.len(),
                out.deep_view() == sorted,
                place_of(sorted, item.deep_view(), by_count, 0) == place_of(
                    sorted,
                    item.deep_view(),
                    by_count,
                    at as int,
                ),
            decreases out.len() - at,
        {
            assert(sorted[at as int] == out@[at as int].deep_view());
            at += 1;
        }
        proof {
            if at < out.len() {
                assert(sorted[at as int] == out@[at as int].deep_view());
            }
        }
        out.insert(at, item);
        assert(out.deep_view() =~= sorted.insert(at as int, item.deep_view()));
        i += 1;
    }
    assert(model.take(items.len() as int) == model);
    out
}

// ---------------------------------------------------------------------------
// Validation
// ---------------------------------------------------------------------------

/// What the validation of a door found.
#[derive(Debug)]
pub struct ValidationResult {
    pub valid: bool,
    pub door_code: Option<String>,
    pub file_path: Option<String>,
    pub errors: Vec<String>,
    pub warnings: Vec<String>,
    pub missing_prerequisites: Vec<String>,
    pub broken_references: Vec<String>,
}

pub struct ValidationModel {
    pub valid: bool,
    pub door_code: Option<Seq<char>>,
    pub file_path: Option<Seq<char>>,
    pub errors: Seq<Seq<char>>,
    pub warnings: Seq<Seq<char>>,
    pub missing_prerequisites: Seq<Seq<char>>,
    pub broken_references: Seq<Seq<char>>,
}

impl DeepView for ValidationResult {
    type V = ValidationModel;

    open spec fn deep_view(&self) -> ValidationModel {
        ValidationModel {
            valid: self.valid,
            door_code: self.door_code.deep_view(),
            file_path: self.file_path.deep_view(),
            errors: self.errors.deep_view(),
            warnings: self.warnings.deep_view(),
            missing_prerequisites: self.missing_prerequisites.deep_view(),
            broken_references: self.broken_references.deep_view(),
        }
    }
}

impl Default for ValidationResult {
    fn default() -> (r: Self)
        ensures
            r.deep_view() == nothing_validated(),
    {
        let r = ValidationResult {
            valid: false,
            door_code: None,
            file_path: None,
            errors: Vec::new(),
            warnings: Vec::new(),
            missing_prerequisites: Vec::new(),
            broken_references: Vec::new(),
        };
        assert(r.errors.deep_view() =~= Seq::empty());
        assert(r.warnings.deep_view() =~= Seq::empty());
        assert(r.missing_prerequisites.deep_view() =~= Seq::empty());
        assert(r.broken_references.deep_view() =~= Seq::empty());
        r
    }
}

/// A validation that has found nothing and is not valid.
pub open spec fn nothing_validated() -> ValidationModel {
    ValidationModel {
        valid: false,
        door_code: None,
        file_path: None,
        errors: Seq::empty(),
        warnings: Seq::empty(),
        missing_prerequisites: Seq::empty(),
        broken_references: Seq::empty(),
    }
}

/// Those of the codes whose door cannot be loaded, in order.
pub open spec fn unloadable(m: LoaderModel, c: CorpusModel, now: u64, codes: Seq<Seq<char>>) -> Seq<
    Seq<char>,
>
    decreases codes.len(),
{
    if codes.len() == 0 {
        Seq::empty()
    } else if loaded(m, c, now, codes.last()) is Err {
        unloadable(m, c, now, codes.drop_last()).push(codes.last())
    } else {
        unloadable(m, c, now, codes.drop_last())
    }
}

/// The door that a validation is about: the one the code leads to where a
/// code is given; or else the one in the file at the path where a path is
/// given; or else that one of the two must be given.
pub open spec fn validation_target(
    m: LoaderModel,
    c: CorpusModel,
    now: u64,
    code: Option<Seq<char>>,
    path: Option<Seq<char>>,
) -> Result<DoorModel, Seq<char>> {
    match code {
        Some(code) => match loaded(m, c, now, code) {
            Ok(door) => Ok(door),
            Err(e) => Err("Failed to load: "@ + error_message(e)),
        },
        None => match path {
            Some(path) => match read_door_file(c.files, path) {
                Ok(door) => Ok(door),
                Err(e) => Err("Failed to load: "@ + error_message(e)),
            },
            None => Err("Must provide door_code or file_path"@),
        },
    }
}

/// What the validation of a door finds.
///
/// Where the door cannot be had, that is the one error and nothing else is
/// found. Or else the validation names the door's own code, and the path
/// where the door was had by a path. An empty code is an error. An empty
/// summary, every prerequisite and every related door that cannot be
/// loaded, and missing metadata are warnings, in this order. The door is
/// valid where there is no error.
pub open spec fn validation_of(
    m: LoaderModel,
    c: CorpusModel,
    now: u64,
    code: Option<Seq<char>>,
    path: Option<Seq<char>>,
) -> ValidationModel {
    match validation_target(m, c, now, code, path) {
        Err(message) => ValidationModel { errors: seq![message], ..nothing_validated() },
        Ok(door) => {
            let missing = unloadable(m, c, now, door.context_bundle.prerequisites);
            let broken = unloadable(m, c, now, door.context_bundle.related_doors);
            let errors = note(door.door_code.len() == 0, "door_code is empty"@);
            ValidationModel {
                valid: errors.len() == 0,
                door_code: Some(door.door_code),
                file_path: if code is None {
                    path
                } else {
                    None
                },
                errors,
                warnings: note(door.context_bundle.summary.len() == 0, "summary is empty"@)
                    + each_after("Prerequisite not found: "@, missing) + each_after(
                    "Related door not found: "@,
                    broken,
                ) + note(door.context_bundle.metadata is None, "metadata missing"@),
                missing_prerequisites: missing,
                broken_references: broken,
            }
        },
    }
}

/// Those of the codes whose door cannot be loaded.
#[verifier::loop_isolation(false)]
fn find_unloadable(loader: &mut DoorLoader, codes: &Vec<String>, corpus: &Corpus, now: u64) -> (r:
    Vec<String>)
    ensures
        r.deep_view() == unloadable(
            old(loader).deep_view(),
            corpus.deep_view(),
            now,
            codes.deep_view(),
        ),
        same_answers(final(loader).deep_view(), old(loader).deep_view(), corpus.deep_view(), now),
        old(loader).deep_view().settled() ==> final(loader).deep_view().settled(),
{
    let ghost start = loader.deep_view();
    let ghost c = corpus.deep_view();
    let ghost model = codes.deep_view();
    let mut out: Vec<String> = Vec::new();
    let mut i: usize = 0;
    proof {
        assert(model.take(0) =~= Seq::empty());
        assert(out.deep_view() =~= Seq::empty());
        load_keeps_answers(start, start, c, now, Seq::empty());
    }
    while i < codes.len()
        invariant
            i <= codes.len(),
            same_answers(loader.deep_view(), start, c, now),
            start.settled() ==> loader.deep_view().settled(),
            out.deep_view() == unloadable(start, c, now, model.take(i as int)),
        decreases codes.len() - i,
    {
        proof {
            let next = model.take(i + 1);
            assert(next.drop_last() == model.take(i as int));
            assert(next.last() == codes@[i as int]@);
            load_keeps_answers(loader.deep_view(), start, c, now, codes@[i as int]@);
        }
        let ghost was = out.deep_view();
        if loader.load_door(codes[i].as_str(), corpus, now).is_err() {
            out.push(codes[i].clone());
            assert(out.deep_view() =~= was.push(codes@[i as int]@));
        }
        i += 1;
    }
    assert(model.take(codes.len() as int) == model);
    out
}

/// Validates a door, given by its code or by the path of its file.
pub fn validate(
    loader: &mut DoorLoader,
    door_code: Option<&str>,
    file_path: Option<&str>,
    corpus: &Corpus,
    now: u64,
) -> (r: ValidationResult)
    ensures
        r.deep_view() == validation_of(
            old(loader).deep_view(),
            corpus.deep_view(),
            now,
            door_code.deep_view(),
            file_path.deep_view(),
        ),
        same_answers(final(loader).deep_view(), old(loader).deep_view(), corpus.deep_view(), now),
        old(loader).deep_view().settled() ==> final(loader).deep_view().settled(),
{
    let ghost start = loader.deep_view();
    let ghost c = corpus.deep_view();
    let mut result = ValidationResult::default();
    proof {
        load_keeps_answers(start, start, c, now, Seq::empty());
    }
    let target = match door_code {
        Some(code) => {
            proof {
                load_keeps_answers(start, start, c, now, code@);
            }
            loader.load_door(code, corpus, now)
        },
        None => match file_path {
            Some(path) => {
                result.file_path = Some(owned(path));
                loader.load_door_file(path, corpus)
            },
            None => {
                result.errors.push(owned("Must provide door_code or file_path"));
                assert(result.errors.deep_view() =~= seq!["Must provide door_code or file_path"@]);
                return result;
            },
        },
    };
    let door = match target {
        Ok(door) => door,
        Err(e) => {
            let mut message = owned("Failed to load: ");
            message.append(e.message().as_str());
            result.file_path = None;
            result.errors.push(message);
            assert(result.errors.deep_view() =~= seq![message@]);
            return result;
        },
    };
    let ghost first = loader.deep_view();
    result.door_code = Some(door.door_code.clone());
    push_note(&mut result.errors, door.door_code.as_str().unicode_len() == 0, "door_code is empty");
    push_note(
        &mut result.warnings,
        door.context_bundle.summary.as_str().unicode_len() == 0,
        "summary is empty",
    );
    let missing = find_unloadable(loader, &door.context_bundle.prerequisites, corpus, now);
    push_each_after(&mut result.warnings, "Prerequisite not found: ", &missing);
    let ghost middle = loader.deep_view();
    let broken = find_unloadable(loader, &door.context_bundle.related_doors, corpus, now);
    proof {
        unloadable_alike(first, start, c, now, door.deep_view().context_bundle.prerequisites);
        answers_chain(middle, first, start, c, now);
        unloadable_alike(middle, start, c, now, door.deep_view().context_bundle.related_doors);
        answers_chain(loader.deep_view(), middle, start, c, now);
    }
    push_each_after(&mut result.warnings, "Related door not found: ", &broken);
    push_note(&mut result.warnings, door.context_bundle.metadata.is_none(), "metadata missing");
    result.missing_prerequisites = missing;
    result.broken_references = broken;
    result.valid = result.errors.len() == 0;
    proof {
        let model = validation_of(start, c, now, door_code.deep_view(), file_path.deep_view());
        assert(result.errors.deep_view() =~= model.errors);
        assert(result.warnings.deep_view() =~= model.warnings);
    }
    result
}

/// Answering alike carries over from store to store.
pub proof fn answers_chain(a: LoaderModel, b: LoaderModel, d: LoaderModel, c: CorpusModel, now: u64)
    requires
        same_answers(a, b, c, now),
        same_answers(b, d, c, now),
    ensures
        same_answers(a, d, c, now),
{
    assert forall|code: Seq<char>| #[trigger] loaded(a, c, now, code) == loaded(d, c, now, code) by {
        assert(loaded(a, c, now, code) == loaded(b, c, now, code));
        assert(loaded(b, c, now, code) == loaded(d, c, now, code));
    }
}

/// Stores that answer alike find the same codes unloadable.
pub proof fn unloadable_alike(a: LoaderModel, b: LoaderModel, c: CorpusModel, now: u64, codes: Seq<
    Seq<char>,
>)
    requires
        same_answers(a, b, c, now),
    ensures
        unloadable(a, c, now, codes) == unloadable(b, c, now, codes),
    decreases codes.len(),
{
    if codes.len() > 0 {
        unloadable_alike(a, b, c, now, codes.drop_last());
        assert(loaded(a, c, now, codes.last()) == loaded(b, c, now, codes.last()));
    }
}


// ---------------------------------------------------------------------------
// Audit
// ---------------------------------------------------------------------------

/// What an audit of the corpus found.
#[derive(Debug)]
pub struct AuditResult {
    pub healthy: bool,
    pub total_doors: usize,
    pub errors: Vec<String>,
    pub warnings: Vec<String>,
    pub missing_prerequisites: Vec<String>,
    pub broken_references: Vec<String>,
    pub by_category: Vec<(String, usize)>,
}

pub struct AuditModel {
    pub healthy: bool,
    pub total_doors: usize,
    pub errors: Seq<Seq<char>>,
    pub warnings: Seq<Seq<char>>,
    pub missing_prerequisites: Seq<Seq<char>>,
    pub broken_references: Seq<Seq<char>>,
    pub by_category: Seq<(Seq<char>, usize)>,
}

impl DeepView for AuditResult {
    type V = AuditModel;

    open spec fn deep_view(&self) -> AuditModel {
        AuditModel {
            healthy: self.healthy,
            total_doors: self.total_doors,
            errors: self.errors.deep_view(),
            warnings: self.warnings.deep_view(),
            missing_prerequisites: self.missing_prerequisites.deep_view(),
            broken_references: self.broken_references.deep_view(),
            by_category: self.by_category.deep_view(),
        }
    }
}

/// An audit that has found nothing and is not healthy.
pub open spec fn nothing_audited() -> AuditModel {
    AuditModel {
        healthy: false,
        total_doors: 0,
        errors: Seq::empty(),
        warnings: Seq::empty(),
        missing_prerequisites: Seq::empty(),
        broken_references: Seq::empty(),
        by_category: Seq::empty(),
    }
}

impl Default for AuditResult {
    fn default() -> (r: Self)
        ensures
            r.deep_view() == nothing_audited(),
    {
        let r = AuditResult {
            healthy: false,
            total_doors: 0,
            errors: Vec::new(),
            warnings: Vec::new(),
            missing_prerequisites: Vec::new(),
            broken_references: Vec::new(),
            by_category: Vec::new(),
        };
        assert(r.errors.deep_view() =~= Seq::empty());
        assert(r.warnings.deep_view() =~= Seq::empty());
        assert(r.missing_prerequisites.deep_view() =~= Seq::empty());
        assert(r.broken_references.deep_view() =~= Seq::empty());
        assert(r.by_category.deep_view() =~= Seq::empty());
        r
    }
}

/// Whether a record is in the scope of an audit: every record is where no
/// scope or the scope `all` is given; or else the records of the category
/// that the scope names, the case of ASCII letters aside, and the record
/// whose code the scope is.
pub open spec fn in_scope(scope: Option<Seq<char>>, record: (Seq<char>, EntryModel)) -> bool {
    match scope {
        None => true,
        Some(s) => s == "all"@ || same_ignoring_ascii_case(record.1.category, s) || record.0 == s,
    }
}

/// What an audit finds in the doors themselves.
pub struct Findings {
    pub errors: Seq<Seq<char>>,
    pub warnings: Seq<Seq<char>>,
    pub prerequisites: Seq<Seq<char>>,
    pub related: Seq<Seq<char>>,
}

/// What an audit finds in the doors of a table that are in its scope, one
/// after the other: that a door cannot be loaded is an error; an empty
/// summary and missing metadata are warnings; the prerequisites and the
/// related doors that are named are gathered in uppercase, each once.
pub open spec fn findings(
    m: LoaderModel,
    c: CorpusModel,
    now: u64,
    scope: Option<Seq<char>>,
    table: TableModel,
) -> Findings
    decreases table.len(),
{
    if table.len() == 0 {
        Findings {
            errors: Seq::empty(),
            warnings: Seq::empty(),
            prerequisites: Seq::empty(),
            related: Seq::empty(),
        }
    } else {
        let before = findings(m, c, now, scope, table.drop_last());
        let record = table.last();
        if !in_scope(scope, record) {
            before
        } else {
            match loaded(m, c, now, record.0) {
                Ok(door) => Findings {
                    errors: before.errors,
                    warnings: before.warnings + note(
                        door.context_bundle.summary.len() == 0,
                        record.0 + ": empty summary"@,
                    ) + note(door.context_bundle.metadata is None, record.0 + ": no metadata"@),
                    prerequisites: with_upper_items(
                        before.prerequisites,
                        door.context_bundle.prerequisites,
                    ),
                    related: with_upper_items(before.related, door.context_bundle.related_doors),
                },
                Err(_) => Findings {
                    errors: before.errors.push(record.0 + ": load failed"@),
                    ..before
                },
            }
        }
    }
}

/// Those of the codes that are no key of the table, in order.
pub open spec fn absent(codes: Seq<Seq<char>>, table: TableModel) -> Seq<Seq<char>>
    decreases codes.len(),
{
    if codes.len() == 0 {
        Seq::empty()
    } else if key_position(table, codes.last(), 0) >= table.len() {
        absent(codes.drop_last(), table).push(codes.last())
    } else {
        absent(codes.drop_last(), table)
    }
}

/// The categories of the records of a table, in order.
pub open spec fn categories_of(table: TableModel) -> Seq<Seq<char>> {
    Seq::new(table.len(), |i: int| table[i].1.category)
}

/// How many records of a table each category has.
pub open spec fn by_category(table: TableModel) -> Seq<(Seq<char>, usize)> {
    tallied_all(Seq::empty(), categories_of(table))
}

/// What an audit finds.
///
/// The corpus is scanned; where that fails, the failure is the one error.
/// Or else the doors in scope are looked at one by one. A prerequisite that
/// is named and is no code of the scanned corpus is missing; a related door
/// that is named and is no such code is a broken reference. The corpus is
/// healthy where there is no error and no prerequisite is missing.
pub open spec fn audit_of(m: LoaderModel, c: CorpusModel, now: u64, scope: Option<Seq<char>>) -> AuditModel {
    match scanned(m.config.phishri_path, c) {
        Err(e) => AuditModel {
            errors: seq!["Scan failed: "@ + error_message(e)],
            ..nothing_audited()
        },
        Ok(table) => {
            let found = findings(m, c, now, scope, table);
            let missing = absent(found.prerequisites, table);
            AuditModel {
                healthy: found.errors.len() == 0 && missing.len() == 0,
                total_doors: table.len() as usize,
                errors: found.errors,
                warnings: found.warnings,
                missing_prerequisites: missing,
                broken_references: absent(found.related, table),
                by_category: by_category(table),
            }
        },
    }
}

fn is_in_scope(scope: Option<&str>, record: &(String, crate::door::schema::HashTableEntry)) -> (r:
    bool)
    ensures
        r == in_scope(scope.deep_view(), record.deep_view()),
{
    match scope {
        None => true,
        Some(s) => same(s, "all") || eq_ignore_ascii_case(record.1.category.as_str(), s) || same(
            record.0.as_str(),
            s,
        ),
    }
}

#[verifier::loop_isolation(false)]
fn find_absent(codes: &Vec<String>, table: &HashTable) -> (r: Vec<String>)
    ensures
        r.deep_view() == absent(codes.deep_view(), table.deep_view()),
{
    let ghost model = codes.deep_view();
    let mut out: Vec<String> = Vec::new();
    let mut i: usize = 0;
    assert(model.take(0) =~= Seq::empty());
    assert(out.deep_view() =~= Seq::empty());
    while i < codes.len()
        invariant
            i <= codes.len(),
            out.deep_view() == absent(model.take(i as int), table.deep_view()),
        decreases codes.len() - i,
    {
        proof {
            let next = model.take(i + 1);
            assert(next.drop_last() == model.take(i as int));
            assert(next.last() == codes@[i as int]@);
            crate::door::loader::key_position_bounds(table.deep_view(), codes@[i as int]@, 0);
        }
        let ghost was = out.deep_view();
        if table.get(codes[i].as_str()).is_none() {
            out.push(codes[i].clone());
            assert(out.deep_view() =~= was.push(codes@[i as int]@));
        }
        i += 1;
    }
    assert(model.take(codes.len() as int) == model);
    out
}

#[verifier::loop_isolation(false)]
fn count_by_category(table: &HashTable) -> (r: Vec<(String, usize)>)
    ensures
        r.deep_view() == by_category(table.deep_view()),
        counted_once(r.deep_view()),
{
    let ghost keys = categories_of(table.deep_view());
    let mut counts: Vec<(String, usize)> = Vec::new();
    let mut i: usize = 0;
    assert(keys.take(0) =~= Seq::empty());
    assert(counts.deep_view() =~= Seq::empty());
    while i < table.entries.len()
        invariant
            i <= table.entries.len(),
            counts.deep_view() == tallied_all(Seq::empty(), keys.take(i as int)),
            counted_once(counts.deep_view()),
        decreases table.entries.len() - i,
    {
        proof {
            let next = keys.take(i + 1);
            assert(next.drop_last() == keys.take(i as int));
            assert(table.deep_view()[i as int] == table.entries@[i as int].deep_view());
            assert(next.last() == table.entries@[i as int].1.category@);
        }
        tally(&mut counts, table.entries[i].1.category.as_str());
        i += 1;
    }
    assert(keys.take(table.entries.len() as int) == keys);
    counts
}

/// Audits the corpus.
#[verifier::loop_isolation(false)]
pub fn audit(loader: &mut DoorLoader, scope: Option<&str>, corpus: &Corpus, now: u64) -> (r:
    AuditResult)
    ensures
        r.deep_view() == audit_of(
            old(loader).deep_view(),
            corpus.deep_view(),
            now,
            scope.deep_view(),
        ),
        same_answers(final(loader).deep_view(), old(loader).deep_view(), corpus.deep_view(), now),
        old(loader).deep_view().settled() ==> final(loader).deep_view().settled(),
{
    let ghost start = loader.deep_view();
    let ghost c = corpus.deep_view();
    let ghost wanted = scope.deep_view();
    let mut result = AuditResult::default();
    proof {
        load_keeps_answers(start, start, c, now, Seq::empty());
    }
    let table = match loader.scan_doors(corpus) {
        Ok(table) => table,
        Err(e) => {
            let mut message = owned("Scan failed: ");
            message.append(e.message().as_str());
            result.errors.push(message);
            assert(result.errors.deep_view() =~= seq![message@]);
            return result;
        },
    };
    let ghost model = table.deep_view();
    result.total_doors = table.len();
    let mut prerequisites: Vec<String> = Vec::new();
    let mut related: Vec<String> = Vec::new();
    let mut i: usize = 0;
    proof {
        assert(model.take(0) =~= Seq::empty());
        assert(prerequisites.deep_view() =~= Seq::empty());
        assert(related.deep_view() =~= Seq::empty());
    }
    while i < table.entries.len()
        invariant
            i <= table.entries.len(),
            same_answers(loader.deep_view(), start, c, now),
            start.settled() ==> loader.deep_view().settled(),
            result.total_doors == model.len(),
            result.errors.deep_view() == findings(start, c, now, wanted, model.take(i as int)).errors,
            result.warnings.deep_view() == findings(
                start,
                c,
                now,
                wanted,
                model.take(i as int),
            ).warnings,
            prerequisites.deep_view() == findings(
                start,
                c,
                now,
                wanted,
                model.take(i as int),
            ).prerequisites,
            related.deep_view() == findings(start, c, now, wanted, model.take(i as int)).related,
        decreases table.entries.len() - i,
    {
        let record = &table.entries[i];
        proof {
            let next = model.take(i + 1);
            assert(next.drop_last() == model.take(i as int));
            assert(next.last() == model[i as int]);
            assert(model[i as int] == record.deep_view());
            load_keeps_answers(loader.deep_view(), start, c, now, record.0@);
        }
        if is_in_scope(scope, record) {
            match loader.load_door(record.0.as_str(), corpus, now) {
                Ok(door) => {
                    let mut empty_summary = record.0.clone();
                    empty_summary.append(": empty summary");
                    push_note(
                        &mut result.warnings,
                        door.context_bundle.summary.as_str().unicode_len() == 0,
                        empty_summary.as_str(),
                    );
                    let mut no_metadata = record.0.clone();
                    no_metadata.append(": no metadata");
                    push_note(
                        &mut result.warnings,
                        door.context_bundle.metadata.is_none(),
                        no_metadata.as_str(),
                    );
                    add_upper_items(&mut prerequisites, &door.context_bundle.prerequisites);
                    add_upper_items(&mut related, &door.context_bundle.related_doors);
                },
                Err(_) => {
                    let mut failed = record.0.clone();
                    failed.append(": load failed");
                    let ghost was = result.errors.deep_view();
                    result.errors.push(failed);
                    assert(result.errors.deep_view() =~= was.push(failed@));
                },
            }
        }
        i += 1;
    }
    assert(model.take(table.entries.len() as int) == model);
    result.missing_prerequisites = find_absent(&prerequisites, &table);
    result.broken_references = find_absent(&related, &table);
    result.by_category = count_by_category(&table);
    result.healthy = result.errors.len() == 0 && result.missing_prerequisites.len() == 0;
    result
}

// ---------------------------------------------------------------------------
// Statistics
// ---------------------------------------------------------------------------

/// Numbers about the corpus.
#[derive(Debug)]
pub struct StatsResult {
    pub total_doors: usize,
    pub by_category: Vec<(String, usize)>,
    pub index_path: String,
    pub index_exists: bool,
    pub doors_with_prerequisites: usize,
    pub tag_counts: Vec<(String, usize)>,
}

pub struct StatsModel {
    pub total_doors: usize,
    pub by_category: Seq<(Seq<char>, usize)>,
    pub index_path: Seq<char>,
    pub index_exists: bool,
    pub doors_with_prerequisites: usize,
    pub tag_counts: Seq<(Seq<char>, usize)>,
}

impl DeepView for StatsResult {
    type V = StatsModel;

    open spec fn deep_view(&self) -> StatsModel {
        StatsModel {
            total_doors: self.total_doors,
            by_category: self.by_category.deep_view(),
            index_path: self.index_path@,
            index_exists: self.index_exists,
            doors_with_prerequisites: self.doors_with_prerequisites,
            tag_counts: self.tag_counts.deep_view(),
        }
    }
}

/// Statistics of nothing.
pub open spec fn nothing_counted() -> StatsModel {
    StatsModel {
        total_doors: 0,
        by_category: Seq::empty(),
        index_path: Seq::empty(),
        index_exists: false,
        doors_with_prerequisites: 0,
        tag_counts: Seq::empty(),
    }
}

impl Default for StatsResult {
    fn default() -> (r: Self)
        ensures
            r.deep_view() == nothing_counted(),
    {
        let r = StatsResult {
            total_doors: 0,
            by_category: Vec::new(),
            index_path: String::new(),
            index_exists: false,
            doors_with_prerequisites: 0,
            tag_counts: Vec::new(),
        };
        assert(r.by_category.deep_view() =~= Seq::empty());
        assert(r.tag_counts.deep_view() =~= Seq::empty());
        r
    }
}

/// The details that statistics give: how many doors have prerequisites, and
/// how often each tag is used.
pub struct Details {
    pub with_prerequisites: usize,
    pub tags: Seq<(Seq<char>, usize)>,
}

/// The details of the doors of a table that can be loaded.
pub open spec fn details(m: LoaderModel, c: CorpusModel, now: u64, table: TableModel) -> Details
    decreases table.len(),
{
    if table.len() == 0 {
        Details { with_prerequisites: 0, tags: Seq::empty() }
    } else {
        let before = details(m, c, now, table.drop_last());
        match loaded(m, c, now, table.last().0) {
            Ok(door) => Details {
                with_prerequisites: if door.context_bundle.prerequisites.len() > 0 {
                    bumped(before.with_prerequisites)
                } else {
                    before.with_prerequisites
                },
                tags: match door.context_bundle.metadata {
                    Some(meta) => tallied_all(before.tags, meta.tags),
                    None => before.tags,
                },
            },
            Err(_) => before,
        }
    }
}

/// The statistics of the corpus: nothing where the corpus cannot be
/// scanned; or else the number of doors, the doors by category, where the
/// index stands and whether it exists, and, where the granularity is
/// `detailed`, the details.
pub open spec fn stats_of(m: LoaderModel, c: CorpusModel, now: u64, granularity: Seq<char>) -> StatsModel {
    match scanned(m.config.phishri_path, c) {
        Err(_) => nothing_counted(),
        Ok(table) => {
            let detailed = granularity == "detailed"@;
            StatsModel {
                total_doors: table.len() as usize,
                by_category: by_category(table),
                index_path: m.config.hash_table_path(),
                index_exists: !(c.index is Missing),
                doors_with_prerequisites: if detailed {
                    details(m, c, now, table).with_prerequisites
                } else {
                    0
                },
                tag_counts: if detailed {
                    details(m, c, now, table).tags
                } else {
                    Seq::empty()
                },
            }
        },
    }
}

/// The statistics of the corpus. Every category and every tag is counted
/// in one place.
#[verifier::loop_isolation(false)]
pub fn stats(loader: &mut DoorLoader, granularity: &str, corpus: &Corpus, now: u64) -> (r:
    StatsResult)
    ensures
        r.deep_view() == stats_of(old(loader).deep_view(), corpus.deep_view(), now, granularity@),
        counted_once(r.by_category.deep_view()),
        counted_once(r.tag_counts.deep_view()),
        same_answers(final(loader).deep_view(), old(loader).deep_view(), corpus.deep_view(), now),
        old(loader).deep_view().settled() ==> final(loader).deep_view().settled(),
{
    let ghost start = loader.deep_view();
    let ghost c = corpus.deep_view();
    let mut result = StatsResult::default();
    proof {
        load_keeps_answers(start, start, c, now, Seq::empty());
    }
    let table = match loader.scan_doors(corpus) {
        Ok(table) => table,
        Err(_) => {
            return result;
        },
    };
    let ghost model = table.deep_view();
    result.total_doors = table.len();
    result.by_category = count_by_category(&table);
    result.index_path = loader.config().hash_table_path();
    result.index_exists = match &corpus.index {
        IndexFile::Missing => false,
        _ => true,
    };
    if same(granularity, "detailed") {
        let mut i: usize = 0;
        assert(model.take(0) =~= Seq::empty());
        while i < table.entries.len()
            invariant
                i <= table.entries.len(),
                same_answers(loader.deep_view(), start, c, now),
                start.settled() ==> loader.deep_view().settled(),
                result.total_doors == model.len(),
                result.by_category.deep_view() == by_category(model),
                result.index_path@ == start.config.hash_table_path(),
                result.index_exists == !(c.index is Missing),
                result.doors_with_prerequisites == details(
                    start,
                    c,
                    now,
                    model.take(i as int),
                ).with_prerequisites,
                result.tag_counts.deep_view() == details(start, c, now, model.take(i as int)).tags,
                counted_once(result.by_category.deep_view()),
                counted_once(result.tag_counts.deep_view()),
            decreases table.entries.len() - i,
        {
            let record = &table.entries[i];
            proof {
                let next = model.take(i + 1);
                assert(next.drop_last() == model.take(i as int));
                assert(next.last() == model[i as int]);
                assert(model[i as int] == record.deep_view());
                load_keeps_answers(loader.deep_view(), start, c, now, record.0@);
            }
            match loader.load_door(record.0.as_str(), corpus, now) {
                Ok(door) => {
                    if door.context_bundle.prerequisites.len() > 0 {
                        result.doors_with_prerequisites = bump(result.doors_with_prerequisites);
                    }
                    match &door.context_bundle.metadata {
                        Some(meta) => {
                            tally_all(&mut result.tag_counts, &meta.tags);
                        },
                        None => {},
                    }
                },
                Err(_) => {},
            }
            i += 1;
        }
        assert(model.take(table.entries.len() as int) == model);
    }
    result
}

} // verus!
