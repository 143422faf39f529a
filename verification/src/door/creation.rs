//! Making doors and rebuilding the index. Nothing here touches a file: a
//! function says what is to be written, and another takes how the writing
//! went.
use vstd::prelude::*;
use vstd::string::*;
use crate::config::{join_path, path_join, Config, ConfigModel};
use crate::door::loader::{
    categories, directory_from, index_of, json_named, load_keeps_answers, loaded, normalized,
    relative_to, same_answers, scanned, scanned_categories, scanned_entry, scanned_into, table_get,
    table_put_gets, DoorLoader, LoaderModel, CATEGORY_COUNT,
};
use crate::door::review::{note, push_note};
use crate::door::schema::{
    category_of, Confidence, ConfidenceModel, ContextBundle, ContextBundleModel, Door, DoorModel,
    KnownError, KnownErrorModel, Metadata, MetadataModel, Onboarding, OnboardingModel, Resources,
    ResourcesModel,
};
use crate::door::store::{
    read_door_file, Corpus, CorpusModel, DirEntryModel, DoorFileModel, ErrorModel, FileOp,
    FileOpModel, ListingModel, LoaderError, Outcome, OutcomeModel, TableModel,
};
use crate::text::{
    copy_texts, owned, second_segment, second_segment_of, to_uppercase, uppercase_of,
};

verus! {

// ---------------------------------------------------------------------------
// What a door is made from
// ---------------------------------------------------------------------------

/// What a door is made from.
#[derive(Debug)]
pub struct CreateDoorParams {
    pub door_code: String,
    pub category: String,
    pub semantic_path: String,
    pub summary: String,
    pub aliases: Vec<String>,
    pub prerequisites: Vec<String>,
    pub related_doors: Vec<String>,
    pub quick_start: String,
    pub common_patterns: Vec<String>,
    pub known_errors: Vec<String>,
    pub tags: Vec<String>,
    pub agent_affinity: Vec<String>,
}

pub struct ParamsModel {
    pub door_code: Seq<char>,
    pub category: Seq<char>,
    pub semantic_path: Seq<char>,
    pub summary: Seq<char>,
    pub aliases: Seq<Seq<char>>,
    pub prerequisites: Seq<Seq<char>>,
    pub related_doors: Seq<Seq<char>>,
    pub quick_start: Seq<char>,
    pub common_patterns: Seq<Seq<char>>,
    pub known_errors: Seq<Seq<char>>,
    pub tags: Seq<Seq<char>>,
    pub agent_affinity: Seq<Seq<char>>,
}

impl DeepView for CreateDoorParams {
    type V = ParamsModel;

    open spec fn deep_view(&self) -> ParamsModel {
        ParamsModel {
            door_code: self.door_code@,
            category: self.category@,
            semantic_path: self.semantic_path@,
            summary: self.summary@,
            aliases: self.aliases.deep_view(),
            prerequisites: self.prerequisites.deep_view(),
            related_doors: self.related_doors.deep_view(),
            quick_start: self.quick_start@,
            common_patterns: self.common_patterns.deep_view(),
            known_errors: self.known_errors.deep_view(),
            tags: self.tags.deep_view(),
            agent_affinity: self.agent_affinity.deep_view(),
        }
    }
}

/// Parameters with every text and every list empty.
pub open spec fn no_params() -> ParamsModel {
    ParamsModel {
        door_code: Seq::empty(),
        category: Seq::empty(),
        semantic_path: Seq::empty(),
        summary: Seq::empty(),
        aliases: Seq::empty(),
        prerequisites: Seq::empty(),
        related_doors: Seq::empty(),
        quick_start: Seq::empty(),
        common_patterns: Seq::empty(),
        known_errors: Seq::empty(),
        tags: Seq::empty(),
        agent_affinity: Seq::empty(),
    }
}

impl Default for CreateDoorParams {
    fn default() -> (r: Self)
        ensures
            r.deep_view() == no_params(),
    {
        let r = CreateDoorParams {
            door_code: String::new(),
            category: String::new(),
            semantic_path: String::new(),
            summary: String::new(),
            aliases: Vec::new(),
            prerequisites: Vec::new(),
            related_doors: Vec::new(),
            quick_start: String::new(),
            common_patterns: Vec::new(),
            known_errors: Vec::new(),
            tags: Vec::new(),
            agent_affinity: Vec::new(),
        };
        assert(r.aliases.deep_view() =~= Seq::empty());
        assert(r.prerequisites.deep_view() =~= Seq::empty());
        assert(r.related_doors.deep_view() =~= Seq::empty());
        assert(r.common_patterns.deep_view() =~= Seq::empty());
        assert(r.known_errors.deep_view() =~= Seq::empty());
        assert(r.tags.deep_view() =~= Seq::empty());
        assert(r.agent_affinity.deep_view() =~= Seq::empty());
        r
    }
}

impl Clone for CreateDoorParams {
    fn clone(&self) -> (r: Self)
        ensures
            r.deep_view() == self.deep_view(),
    {
        CreateDoorParams {
            door_code: self.door_code.clone(),
            category: self.category.clone(),
            semantic_path: self.semantic_path.clone(),
            summary: self.summary.clone(),
            aliases: copy_texts(&self.aliases),
            prerequisites: copy_texts(&self.prerequisites),
            related_doors: copy_texts(&self.related_doors),
            quick_start: self.quick_start.clone(),
            common_patterns: copy_texts(&self.common_patterns),
            known_errors: copy_texts(&self.known_errors),
            tags: copy_texts(&self.tags),
            agent_affinity: copy_texts(&self.agent_affinity),
        }
    }
}

/// The known issues that texts stand for.
pub open spec fn issues_of(texts: Seq<Seq<char>>) -> Seq<KnownErrorModel> {
    Seq::new(texts.len(), |i: int| KnownErrorModel::Text(texts[i]))
}

/// The door that is made from parameters at a time: with onboarding,
/// resources and metadata, full confidence, the subcategory taken from the
/// semantic path, and the first version.
pub open spec fn new_door(p: ParamsModel, timestamp: Seq<char>) -> DoorModel {
    DoorModel {
        door_code: p.door_code,
        semantic_path: p.semantic_path,
        aliases: p.aliases,
        context_bundle: ContextBundleModel {
            summary: p.summary,
            prerequisites: p.prerequisites,
            related_doors: p.related_doors,
            onboarding: Some(
                OnboardingModel {
                    quick_start: p.quick_start,
                    full_context_path: Seq::empty(),
                    common_patterns: p.common_patterns,
                    known_errors: issues_of(p.known_errors),
                },
            ),
            resources: Some(
                ResourcesModel {
                    docs: Seq::empty(),
                    code: Seq::empty(),
                    tests: Seq::empty(),
                    errors: Seq::empty(),
                },
            ),
            metadata: Some(
                MetadataModel {
                    last_updated: timestamp,
                    confidence: ConfidenceModel { score: "1.0"@, percent: 100 },
                    tags: p.tags,
                    category: p.category,
                    subcategory: second_segment_of(p.semantic_path),
                    version: "1.0.0"@,
                    agent_affinity: p.agent_affinity,
                },
            ),
        },
    }
}

#[verifier::loop_isolation(false)]
fn issues(texts: &Vec<String>) -> (r: Vec<KnownError>)
    ensures
        r.deep_view() == issues_of(texts.deep_view()),
{
    let mut out: Vec<KnownError> = Vec::new();
    let mut i: usize = 0;
    while i < texts.len()
        invariant
            i <= texts.len(),
            out@.len() == i,
            forall|j: int| 0 <= j < i ==> out@[j].deep_view() == KnownErrorModel::Text(texts@[j]@),
        decreases texts.len() - i,
    {
        out.push(KnownError::Text(texts[i].clone()));
        i += 1;
    }
    assert(out.deep_view() =~= issues_of(texts.deep_view()));
    out
}

/// The door that is made from parameters at a time.
pub fn build_door(params: &CreateDoorParams, timestamp: &str) -> (r: Door)
    ensures
        r.deep_view() == new_door(params.deep_view(), timestamp@),
{
    let docs: Vec<String> = Vec::new();
    let code: Vec<String> = Vec::new();
    let tests: Vec<String> = Vec::new();
    let errors: Vec<String> = Vec::new();
    assert(docs.deep_view() =~= Seq::empty());
    assert(code.deep_view() =~= Seq::empty());
    assert(tests.deep_view() =~= Seq::empty());
    assert(errors.deep_view() =~= Seq::empty());
    Door {
        door_code: params.door_code.clone(),
        semantic_path: params.semantic_path.clone(),
        aliases: copy_texts(&params.aliases),
        context_bundle: ContextBundle {
            summary: params.summary.clone(),
            prerequisites: copy_texts(&params.prerequisites),
            related_doors: copy_texts(&params.related_doors),
            onboarding: Some(
                Onboarding {
                    quick_start: params.quick_start.clone(),
                    full_context_path: String::new(),
                    common_patterns: copy_texts(&params.common_patterns),
                    known_errors: issues(&params.known_errors),
                },
            ),
            resources: Some(Resources { docs, code, tests, errors }),
            metadata: Some(
                Metadata {
                    last_updated: owned(timestamp),
                    confidence: Confidence { score: owned("1.0"), percent: 100 },
                    tags: copy_texts(&params.tags),
                    category: params.category.clone(),
                    subcategory: second_segment(params.semantic_path.as_str()),
                    version: owned("1.0.0"),
                    agent_affinity: copy_texts(&params.agent_affinity),
                },
            ),
        },
    }
}

/// The directory of a category's doors: the category in uppercase, below
/// the documents directory.
pub open spec fn category_dir(config: ConfigModel, category: Seq<char>) -> Seq<char> {
    path_join(config.contexts_path(), uppercase_of(category))
}

/// The file of a door: named by the door's code, in its category's
/// directory.
pub open spec fn door_file_path(config: ConfigModel, category: Seq<char>, code: Seq<char>) -> Seq<
    char,
> {
    path_join(category_dir(config, category), code + ".json"@)
}

fn category_directory(config: &Config, category: &str) -> (r: String)
    ensures
        r@ == category_dir(config.deep_view(), category@),
{
    join_path(config.contexts_path().as_str(), to_uppercase(category).as_str())
}

fn door_path(config: &Config, category: &str, code: &str) -> (r: String)
    ensures
        r@ == door_file_path(config.deep_view(), category@, code@),
{
    let mut name = owned(code);
    name.append(".json");
    join_path(category_directory(config, category).as_str(), name.as_str())
}

/// The two changes that put a door in its file.
pub open spec fn door_ops(config: ConfigModel, p: ParamsModel, timestamp: Seq<char>) -> Seq<
    FileOpModel,
> {
    seq![
        FileOpModel::CreateDir(category_dir(config, p.category)),
        FileOpModel::WriteDoor {
            path: door_file_path(config, p.category, p.door_code),
            door: new_door(p, timestamp),
        },
    ]
}

// ---------------------------------------------------------------------------
// One door
// ---------------------------------------------------------------------------

/// That a door was made.
#[derive(Debug)]
pub struct CreateResult {
    pub door_code: String,
    pub file_path: String,
    pub validated: bool,
}

pub struct CreateResultModel {
    pub door_code: Seq<char>,
    pub file_path: Seq<char>,
    pub validated: bool,
}

impl DeepView for CreateResult {
    type V = CreateResultModel;

    open spec fn deep_view(&self) -> CreateResultModel {
        CreateResultModel {
            door_code: self.door_code@,
            file_path: self.file_path@,
            validated: self.validated,
        }
    }
}

/// A door that is to be written, and what is said of it once it is.
#[derive(Debug)]
pub struct CreatePlan {
    pub ops: Vec<FileOp>,
    pub result: CreateResult,
}

pub struct CreatePlanModel {
    pub ops: Seq<FileOpModel>,
    pub result: CreateResultModel,
}

impl DeepView for CreatePlan {
    type V = CreatePlanModel;

    open spec fn deep_view(&self) -> CreatePlanModel {
        CreatePlanModel { ops: self.ops.deep_view(), result: self.result.deep_view() }
    }
}

/// What making a door comes to: that the door is invalid where its code is
/// empty or leads to a door already; or else the door to be written to its
/// file.
pub open spec fn creation_of(m: LoaderModel, c: CorpusModel, now: u64, p: ParamsModel, timestamp: Seq<
    char,
>) -> Result<CreatePlanModel, ErrorModel> {
    if p.door_code.len() == 0 {
        Err(ErrorModel::InvalidDoor("door_code cannot be empty"@))
    } else if loaded(m, c, now, p.door_code) is Ok {
        Err(ErrorModel::InvalidDoor("Door "@ + p.door_code + " already exists"@))
    } else {
        Ok(
            CreatePlanModel {
                ops: door_ops(m.config, p, timestamp),
                result: CreateResultModel {
                    door_code: p.door_code,
                    file_path: door_file_path(m.config, p.category, p.door_code),
                    validated: true,
                },
            },
        )
    }
}

fn ops_for(config: &Config, params: &CreateDoorParams, timestamp: &str) -> (r: Vec<FileOp>)
    ensures
        r.deep_view() == door_ops(config.deep_view(), params.deep_view(), timestamp@),
{
    let mut ops: Vec<FileOp> = Vec::new();
    ops.push(FileOp::CreateDir(category_directory(config, params.category.as_str())));
    ops.push(
        FileOp::WriteDoor {
            path: door_path(config, params.category.as_str(), params.door_code.as_str()),
            door: build_door(params, timestamp),
        },
    );
    assert(ops.deep_view() =~= door_ops(config.deep_view(), params.deep_view(), timestamp@));
    ops
}

/// Plans the making of a door at the time `timestamp`.
pub fn plan_door(
    loader: &mut DoorLoader,
    params: &CreateDoorParams,
    corpus: &Corpus,
    now: u64,
    timestamp: &str,
) -> (r: Result<CreatePlan, LoaderError>)
    ensures
        match r {
            Ok(plan) => creation_of(
                old(loader).deep_view(),
                corpus.deep_view(),
                now,
                params.deep_view(),
                timestamp@,
            ) == Ok::<CreatePlanModel, ErrorModel>(plan.deep_view()),
            Err(e) => creation_of(
                old(loader).deep_view(),
                corpus.deep_view(),
                now,
                params.deep_view(),
                timestamp@,
            ) == Err::<CreatePlanModel, ErrorModel>(e.deep_view()),
        },
        same_answers(final(loader).deep_view(), old(loader).deep_view(), corpus.deep_view(), now),
        old(loader).deep_view().settled() ==> final(loader).deep_view().settled(),
{
    proof {
        load_keeps_answers(
            loader.deep_view(),
            loader.deep_view(),
            corpus.deep_view(),
            now,
            params.door_code@,
        );
        load_keeps_answers(
            loader.deep_view(),
            loader.deep_view(),
            corpus.deep_view(),
            now,
            Seq::empty(),
        );
    }
    if params.door_code.as_str().unicode_len() == 0 {
        return Err(LoaderError::InvalidDoor(owned("door_code cannot be empty")));
    }
    let ghost config = loader.deep_view().config;
    if loader.load_door(params.door_code.as_str(), corpus, now).is_ok() {
        let mut message = owned("Door ");
        message.append(params.door_code.as_str());
        message.append(" already exists");
        return Err(LoaderError::InvalidDoor(message));
    }
    assert(loader.deep_view().config == config);
    let ops = ops_for(loader.config(), params, timestamp);
    let file_path = door_path(
        loader.config(),
        params.category.as_str(),
        params.door_code.as_str(),
    );
    Ok(
        CreatePlan {
            ops,
            result: CreateResult { door_code: params.door_code.clone(), file_path, validated: true },
        },
    )
}

/// The store with its caches dropped.
pub open spec fn cleared(m: LoaderModel) -> LoaderModel {
    LoaderModel { index: None, cache: Seq::empty(), ..m }
}

/// Takes how the writing of a door went: the system's message as an error
/// where it failed; or else the caches are dropped and the door is made.
pub fn door_written(loader: &mut DoorLoader, result: CreateResult, outcome: &Outcome) -> (r: Result<
    CreateResult,
    LoaderError,
>)
    ensures
        match outcome.failure {
            Some(message) => r matches Err(e) && e.deep_view() == ErrorModel::IoError(message@)
                && final(loader).deep_view() == old(loader).deep_view(),
            None => {
                &&& r matches Ok(made) && made.deep_view() == result.deep_view()
                &&& final(loader).deep_view() == cleared(old(loader).deep_view())
            },
        },
        old(loader).deep_view().settled() ==> final(loader).deep_view().settled(),
{
    match &outcome.failure {
        Some(message) => Err(LoaderError::IoError(message.clone())),
        None => {
            loader.clear_cache();
            Ok(result)
        },
    }
}

// ---------------------------------------------------------------------------
// The index
// ---------------------------------------------------------------------------

/// That the index was rebuilt.
#[derive(Debug)]
pub struct RebuildResult {
    pub doors_indexed: usize,
    pub hash_table_path: String,
}

pub struct RebuildResultModel {
    pub doors_indexed: usize,
    pub hash_table_path: Seq<char>,
}

impl DeepView for RebuildResult {
    type V = RebuildResultModel;

    open spec fn deep_view(&self) -> RebuildResultModel {
        RebuildResultModel {
            doors_indexed: self.doors_indexed,
            hash_table_path: self.hash_table_path@,
        }
    }
}

/// An index that is to be written, and what is said of it once it is.
#[derive(Debug)]
pub struct RebuildPlan {
    pub ops: Vec<FileOp>,
    pub result: RebuildResult,
}

pub struct RebuildPlanModel {
    pub ops: Seq<FileOpModel>,
    pub result: RebuildResultModel,
}

impl DeepView for RebuildPlan {
    type V = RebuildPlanModel;

    open spec fn deep_view(&self) -> RebuildPlanModel {
        RebuildPlanModel { ops: self.ops.deep_view(), result: self.result.deep_view() }
    }
}

/// What rebuilding the index comes to: the error of the scan; or else the
/// scanned table to be written to the index file, and the number of its
/// doors.
pub open spec fn rebuild_of(config: ConfigModel, c: CorpusModel) -> Result<
    RebuildPlanModel,
    ErrorModel,
> {
    match scanned(config.phishri_path, c) {
        Err(e) => Err(e),
        Ok(table) => Ok(
            RebuildPlanModel {
                ops: seq![
                    FileOpModel::CreateDir(config.indexes_path()),
                    FileOpModel::WriteIndex { path: config.hash_table_path(), table },
                ],
                result: RebuildResultModel {
                    doors_indexed: table.len() as usize,
                    hash_table_path: config.hash_table_path(),
                },
            },
        ),
    }
}

/// Plans the rebuilding of the index from the documents directory.
pub fn plan_rebuild(loader: &DoorLoader, corpus: &Corpus) -> (r: Result<RebuildPlan, LoaderError>)
    ensures
        match r {
            Ok(plan) => rebuild_of(loader.deep_view().config, corpus.deep_view()) == Ok::<
                RebuildPlanModel,
                ErrorModel,
            >(plan.deep_view()),
            Err(e) => rebuild_of(loader.deep_view().config, corpus.deep_view()) == Err::<
                RebuildPlanModel,
                ErrorModel,
            >(e.deep_view()),
        },
{
    let table = match loader.scan_doors(corpus) {
        Ok(table) => table,
        Err(e) => {
            return Err(e);
        },
    };
    let doors_indexed = table.len();
    let ghost model = table.deep_view();
    let config = loader.config();
    let mut ops: Vec<FileOp> = Vec::new();
    ops.push(FileOp::CreateDir(config.indexes_path()));
    ops.push(FileOp::WriteIndex { path: config.hash_table_path(), table });
    assert(ops.deep_view() =~= seq![
        FileOpModel::CreateDir(config.deep_view().indexes_path()),
        FileOpModel::WriteIndex { path: config.deep_view().hash_table_path(), table: model },
    ]);
    Ok(
        RebuildPlan {
            ops,
            result: RebuildResult { doors_indexed, hash_table_path: config.hash_table_path() },
        },
    )
}

/// Takes how the writing of the index went: the system's message as an
/// error where it failed; or else the caches are dropped and the index is
/// rebuilt.
pub fn index_written(loader: &mut DoorLoader, result: RebuildResult, outcome: &Outcome) -> (r:
    Result<RebuildResult, LoaderError>)
    ensures
        match outcome.failure {
            Some(message) => r matches Err(e) && e.deep_view() == ErrorModel::IoError(message@)
                && final(loader).deep_view() == old(loader).deep_view(),
            None => {
                &&& r matches Ok(made) && made.deep_view() == result.deep_view()
                &&& final(loader).deep_view() == cleared(old(loader).deep_view())
            },
        },
        old(loader).deep_view().settled() ==> final(loader).deep_view().settled(),
{
    match &outcome.failure {
        Some(message) => Err(LoaderError::IoError(message.clone())),
        None => {
            loader.clear_cache();
            Ok(result)
        },
    }
}


// ---------------------------------------------------------------------------
// Several doors at once
// ---------------------------------------------------------------------------

/// How the making of several doors went.
#[derive(Debug)]
pub struct BatchCreateResult {
    pub success: bool,
    pub created: Vec<String>,
    pub errors: Vec<String>,
    pub indexes_updated: bool,
    pub total_doors: usize,
}

pub struct BatchResultModel {
    pub success: bool,
    pub created: Seq<Seq<char>>,
    pub errors: Seq<Seq<char>>,
    pub indexes_updated: bool,
    pub total_doors: usize,
}

impl DeepView for BatchCreateResult {
    type V = BatchResultModel;

    open spec fn deep_view(&self) -> BatchResultModel {
        BatchResultModel {
            success: self.success,
            created: self.created.deep_view(),
            errors: self.errors.deep_view(),
            indexes_updated: self.indexes_updated,
            total_doors: self.total_doors,
        }
    }
}

/// A batch of which nothing was made and nothing is known.
pub open spec fn nothing_made() -> BatchResultModel {
    BatchResultModel {
        success: false,
        created: Seq::empty(),
        errors: Seq::empty(),
        indexes_updated: false,
        total_doors: 0,
    }
}

impl Default for BatchCreateResult {
    fn default() -> (r: Self)
        ensures
            r.deep_view() == nothing_made(),
    {
        let r = BatchCreateResult {
            success: false,
            created: Vec::new(),
            errors: Vec::new(),
            indexes_updated: false,
            total_doors: 0,
        };
        assert(r.created.deep_view() =~= Seq::empty());
        assert(r.errors.deep_view() =~= Seq::empty());
        r
    }
}

/// What stands against making the doors of a batch: for every door in
/// order, that its code is empty, and that its code leads to a door already.
pub open spec fn batch_errors(m: LoaderModel, c: CorpusModel, now: u64, items: Seq<ParamsModel>) -> Seq<
    Seq<char>,
>
    decreases items.len(),
{
    if items.len() == 0 {
        Seq::empty()
    } else {
        batch_errors(m, c, now, items.drop_last()) + note(
            items.last().door_code.len() == 0,
            "Empty door_code"@,
        ) + note(
            loaded(m, c, now, items.last().door_code) is Ok,
            "Door "@ + items.last().door_code + " exists"@,
        )
    }
}

/// The changes that put the doors of a batch in their files, door by door.
pub open spec fn batch_ops(config: ConfigModel, items: Seq<ParamsModel>, timestamp: Seq<char>) -> Seq<
    FileOpModel,
>
    decreases items.len(),
{
    if items.len() == 0 {
        Seq::empty()
    } else {
        batch_ops(config, items.drop_last(), timestamp) + door_ops(config, items.last(), timestamp)
    }
}

/// The codes of the doors of a batch.
pub open spec fn batch_codes(items: Seq<ParamsModel>) -> Seq<Seq<char>> {
    Seq::new(items.len(), |i: int| items[i].door_code)
}

/// The files of the doors of a batch.
pub open spec fn batch_paths(config: ConfigModel, items: Seq<ParamsModel>) -> Seq<Seq<char>> {
    Seq::new(items.len(), |i: int| door_file_path(config, items[i].category, items[i].door_code))
}

/// What is to be done about a batch.
#[derive(Debug)]
pub enum BatchPlan {
    /// Nothing is written; the batch has failed as a whole.
    Rejected(BatchCreateResult),
    /// The doors are written one after the other, each after its directory
    /// is made; `codes` and `paths` name them in the same order.
    Write { ops: Vec<FileOp>, codes: Vec<String>, paths: Vec<String> },
}

pub enum BatchPlanModel {
    Rejected(BatchResultModel),
    Write { ops: Seq<FileOpModel>, codes: Seq<Seq<char>>, paths: Seq<Seq<char>> },
}

impl DeepView for BatchPlan {
    type V = BatchPlanModel;

    open spec fn deep_view(&self) -> BatchPlanModel {
        match self {
            BatchPlan::Rejected(result) => BatchPlanModel::Rejected(result.deep_view()),
            BatchPlan::Write { ops, codes, paths } => BatchPlanModel::Write {
                ops: ops.deep_view(),
                codes: codes.deep_view(),
                paths: paths.deep_view(),
            },
        }
    }
}

/// What making a batch comes to. Where the batch is to be validated and
/// anything stands against one of its doors, nothing is written and the
/// batch fails with all that stands against it. Or else all its doors are
/// to be written.
pub open spec fn batch_of(
    m: LoaderModel,
    c: CorpusModel,
    now: u64,
    items: Seq<ParamsModel>,
    validate: bool,
    timestamp: Seq<char>,
) -> BatchPlanModel {
    if validate && batch_errors(m, c, now, items).len() > 0 {
        BatchPlanModel::Rejected(
            BatchResultModel { errors: batch_errors(m, c, now, items), ..nothing_made() },
        )
    } else {
        BatchPlanModel::Write {
            ops: batch_ops(m.config, items, timestamp),
            codes: batch_codes(items),
            paths: batch_paths(m.config, items),
        }
    }
}

#[verifier::loop_isolation(false)]
fn check_batch(loader: &mut DoorLoader, items: &Vec<CreateDoorParams>, corpus: &Corpus, now: u64) -> (r:
    Vec<String>)
    ensures
        r.deep_view() == batch_errors(
            old(loader).deep_view(),
            corpus.deep_view(),
            now,
            items.deep_view(),
        ),
        same_answers(final(loader).deep_view(), old(loader).deep_view(), corpus.deep_view(), now),
        old(loader).deep_view().settled() ==> final(loader).deep_view().settled(),
{
    let ghost start = loader.deep_view();
    let ghost c = corpus.deep_view();
    let ghost model = items.deep_view();
    let mut errors: Vec<String> = Vec::new();
    let mut i: usize = 0;
    proof {
        assert(model.take(0) =~= Seq::empty());
        assert(errors.deep_view() =~= Seq::empty());
        load_keeps_answers(start, start, c, now, Seq::empty());
    }
    while i < items.len()
        invariant
            i <= items.len(),
            same_answers(loader.deep_view(), start, c, now),
            start.settled() ==> loader.deep_view().settled(),
            errors.deep_view() == batch_errors(start, c, now, model.take(i as int)),
        decreases items.len() - i,
    {
        let item = &items[i];
        proof {
            let next = model.take(i + 1);
            assert(next.drop_last() == model.take(i as int));
            assert(next.last() == item.deep_view());
            load_keeps_answers(loader.deep_view(), start, c, now, item.door_code@);
        }
        push_note(&mut errors, item.door_code.as_str().unicode_len() == 0, "Empty door_code");
        let exists = loader.load_door(item.door_code.as_str(), corpus, now).is_ok();
        let mut message = owned("Door ");
        message.append(item.door_code.as_str());
        message.append(" exists");
        push_note(&mut errors, exists, message.as_str());
        i += 1;
    }
    assert(model.take(items.len() as int) == model);
    errors
}

/// Plans the making of a batch of doors at the time `timestamp`.
#[verifier::loop_isolation(false)]
pub fn plan_batch(
    loader: &mut DoorLoader,
    items: &Vec<CreateDoorParams>,
    validate: bool,
    corpus: &Corpus,
    now: u64,
    timestamp: &str,
) -> (r: BatchPlan)
    ensures
        r.deep_view() == batch_of(
            old(loader).deep_view(),
            corpus.deep_view(),
            now,
            items.deep_view(),
            validate,
            timestamp@,
        ),
        same_answers(final(loader).deep_view(), old(loader).deep_view(), corpus.deep_view(), now),
        old(loader).deep_view().settled() ==> final(loader).deep_view().settled(),
{
    let ghost start = loader.deep_view();
    let ghost model = items.deep_view();
    proof {
        load_keeps_answers(start, start, corpus.deep_view(), now, Seq::empty());
    }
    if validate {
        let errors = check_batch(loader, items, corpus, now);
        if errors.len() > 0 {
            let mut result = BatchCreateResult::default();
            result.errors = errors;
            return BatchPlan::Rejected(result);
        }
    }
    let config = loader.config();
    let ghost cm = config.deep_view();
    let mut ops: Vec<FileOp> = Vec::new();
    let mut codes: Vec<String> = Vec::new();
    let mut paths: Vec<String> = Vec::new();
    let mut i: usize = 0;
    proof {
        assert(model.take(0) =~= Seq::empty());
        assert(ops.deep_view() =~= Seq::empty());
    }
    while i < items.len()
        invariant
            i <= items.len(),
            ops.deep_view() == batch_ops(cm, model.take(i as int), timestamp@),
            codes@.len() == i,
            paths@.len() == i,
            forall|j: int| 0 <= j < i ==> codes@[j]@ == model[j].door_code,
            forall|j: int|
                0 <= j < i ==> paths@[j]@ == door_file_path(
                    cm,
                    model[j].category,
                    model[j].door_code,
                ),
        decreases items.len() - i,
    {
        let item = &items[i];
        proof {
            let next = model.take(i + 1);
            assert(next.drop_last() == model.take(i as int));
            assert(next.last() == item.deep_view());
        }
        let ghost was = ops.deep_view();
        let mut pair = ops_for(config, item, timestamp);
        ops.append(&mut pair);
        assert(ops.deep_view() =~= was + door_ops(cm, item.deep_view(), timestamp@));
        codes.push(item.door_code.clone());
        paths.push(door_path(config, item.category.as_str(), item.door_code.as_str()));
        i += 1;
    }
    proof {
        assert(model.take(items.len() as int) == model);
        assert(codes.deep_view() =~= batch_codes(model));
        assert(paths.deep_view() =~= batch_paths(cm, model));
    }
    BatchPlan::Write { ops, codes, paths }
}

/// A batch after its doors were written, or not: how it went so far, the
/// files to be removed again, and whether the index is to be rebuilt.
#[derive(Debug)]
pub struct BatchProgress {
    pub result: BatchCreateResult,
    pub undo: Vec<FileOp>,
    pub rebuild: bool,
}

pub struct BatchProgressModel {
    pub result: BatchResultModel,
    pub undo: Seq<FileOpModel>,
    pub rebuild: bool,
}

impl DeepView for BatchProgress {
    type V = BatchProgressModel;

    open spec fn deep_view(&self) -> BatchProgressModel {
        BatchProgressModel {
            result: self.result.deep_view(),
            undo: self.undo.deep_view(),
            rebuild: self.rebuild,
        }
    }
}

/// How many doors of a batch were written in full when `completed` changes
/// were made: every door takes two.
pub open spec fn doors_written(completed: usize, doors: nat) -> int {
    if completed / 2 < doors {
        (completed / 2) as int
    } else {
        doors as int
    }
}

/// The removal of every file of a list.
pub open spec fn removals(paths: Seq<Seq<char>>) -> Seq<FileOpModel> {
    Seq::new(paths.len(), |i: int| FileOpModel::Remove(paths[i]))
}

/// What a batch comes to once its doors were written, or not.
///
/// Where a change failed, the batch has failed: the doors written before
/// are named, their files are to be removed again, and the one error says
/// whether a directory or a door could not be written. Or else the batch
/// has succeeded with all its doors, and the index is to be rebuilt where
/// that is wanted and a door was made.
pub open spec fn batch_progress(
    codes: Seq<Seq<char>>,
    paths: Seq<Seq<char>>,
    outcome: OutcomeModel,
    update_indexes: bool,
) -> BatchProgressModel {
    match outcome.failure {
        Some(message) => {
            let written = doors_written(outcome.completed, codes.len());
            BatchProgressModel {
                result: BatchResultModel {
                    created: codes.take(written),
                    errors: seq![
                        (if outcome.completed % 2 == 0 {
                            "Dir error: "@
                        } else {
                            "Write error: "@
                        }) + message,
                    ],
                    ..nothing_made()
                },
                undo: removals(
                    if written <= paths.len() {
                        paths.take(written)
                    } else {
                        paths
                    },
                ),
                rebuild: false,
            }
        },
        None => BatchProgressModel {
            result: BatchResultModel { success: true, created: codes, ..nothing_made() },
            undo: Seq::empty(),
            rebuild: update_indexes && codes.len() > 0,
        },
    }
}

/// Takes how the writing of a batch went. The caches are dropped where the
/// index is to be rebuilt.
#[verifier::loop_isolation(false)]
pub fn batch_written(
    loader: &mut DoorLoader,
    codes: Vec<String>,
    paths: &Vec<String>,
    outcome: &Outcome,
    update_indexes: bool,
) -> (r: BatchProgress)
    ensures
        r.deep_view() == batch_progress(
            codes.deep_view(),
            paths.deep_view(),
            outcome.deep_view(),
            update_indexes,
        ),
        final(loader).deep_view() == (if r.rebuild {
            cleared(old(loader).deep_view())
        } else {
            old(loader).deep_view()
        }),
        old(loader).deep_view().settled() ==> final(loader).deep_view().settled(),
{
    let mut result = BatchCreateResult::default();
    let ghost all = codes.deep_view();
    match &outcome.failure {
        Some(message) => {
            let written: usize = if outcome.completed / 2 < codes.len() {
                outcome.completed / 2
            } else {
                codes.len()
            };
            let mut codes = codes;
            codes.truncate(written);
            assert(codes.deep_view() =~= all.take(written as int));
            let mut error = if outcome.completed % 2 == 0 {
                owned("Dir error: ")
            } else {
                owned("Write error: ")
            };
            error.append(message.as_str());
            result.errors.push(error);
            assert(result.errors.deep_view() =~= seq![error@]);
            result.created = codes;
            let kept: usize = if written <= paths.len() {
                written
            } else {
                paths.len()
            };
            let mut undo: Vec<FileOp> = Vec::new();
            let mut i: usize = 0;
            while i < kept
                invariant
                    i <= kept <= paths.len(),
                    undo@.len() == i,
                    forall|j: int|
                        0 <= j < i ==> undo@[j].deep_view() == FileOpModel::Remove(paths@[j]@),
                decreases kept - i,
            {
                undo.push(FileOp::Remove(paths[i].clone()));
                i += 1;
            }
            proof {
                let wanted = if written <= paths.len() {
                    paths.deep_view().take(written as int)
                } else {
                    paths.deep_view()
                };
                assert(undo.deep_view() =~= removals(wanted));
            }
            BatchProgress { result, undo, rebuild: false }
        },
        None => {
            let rebuild = update_indexes && codes.len() > 0;
            result.created = codes;
            result.success = true;
            if rebuild {
                loader.clear_cache();
            }
            let undo: Vec<FileOp> = Vec::new();
            assert(undo.deep_view() =~= Seq::empty());
            BatchProgress { result, undo, rebuild }
        },
    }
}

/// The batch with the index rebuilt, holding `total_doors` doors.
pub fn batch_indexed(result: BatchCreateResult, total_doors: usize) -> (r: BatchCreateResult)
    ensures
        r.deep_view() == (BatchResultModel {
            indexes_updated: true,
            total_doors,
            ..result.deep_view()
        }),
{
    let mut result = result;
    result.indexes_updated = true;
    result.total_doors = total_doors;
    result
}

/// Where a batch is to be validated and a code of it is empty or leads to a
/// door already, nothing is written and the batch fails.
pub proof fn invalid_batch_writes_nothing(
    m: LoaderModel,
    c: CorpusModel,
    now: u64,
    items: Seq<ParamsModel>,
    timestamp: Seq<char>,
    at: int,
)
    requires
        0 <= at < items.len(),
        items[at].door_code.len() == 0 || loaded(m, c, now, items[at].door_code) is Ok,
    ensures
        batch_of(m, c, now, items, true, timestamp) matches BatchPlanModel::Rejected(result)
            && !result.success && result.created.len() == 0 && result.errors.len() > 0,
    decreases items.len(),
{
    if at < items.len() - 1 {
        assert(items.drop_last()[at] == items[at]);
        invalid_batch_writes_nothing(m, c, now, items.drop_last(), timestamp, at);
    }
}


// ---------------------------------------------------------------------------
// A door that was made can be read
// ---------------------------------------------------------------------------

/// The door that a scan finds in an entry of a directory: the entry is a
/// regular file named `*.json` that holds a door.
pub open spec fn door_in(files: Seq<DoorFileModel>, entry: DirEntryModel) -> Option<DoorModel> {
    if entry.is_file && json_named(entry.path) {
        match read_door_file(files, entry.path) {
            Ok(door) => Some(door),
            Err(_) => None,
        }
    } else {
        None
    }
}

/// Whether no entry of a list after the first `from` holds a door of the
/// code.
pub open spec fn none_claims(files: Seq<DoorFileModel>, entries: Seq<DirEntryModel>, from: int, code: Seq<
    char,
>) -> bool {
    forall|i: int|
        from <= i < entries.len() ==> !(door_in(files, #[trigger] entries[i]) matches Some(door)
            && door.door_code == code)
}

proof fn scan_into_keeps(
    table: TableModel,
    root: Seq<char>,
    files: Seq<DoorFileModel>,
    category: Seq<char>,
    entries: Seq<DirEntryModel>,
    code: Seq<char>,
)
    requires
        none_claims(files, entries, 0, code),
    ensures
        table_get(scanned_into(table, root, files, category, entries), code) == table_get(
            table,
            code,
        ),
    decreases entries.len(),
{
    if entries.len() > 0 {
        let rest = entries.drop_last();
        assert forall|i: int| 0 <= i < rest.len() implies !(door_in(
            files,
            #[trigger] rest[i],
        ) matches Some(door) && door.door_code == code) by {
            assert(rest[i] == entries[i]);
        }
        scan_into_keeps(table, root, files, category, rest, code);
        let last = entries[entries.len() - 1];
        match door_in(files, last) {
            Some(door) => {
                table_put_gets(
                    scanned_into(table, root, files, category, rest),
                    door.door_code,
                    scanned_entry(root, last.path, category, door),
                    code,
                );
            },
            None => {},
        }
    }
}

proof fn scan_into_enters(
    table: TableModel,
    root: Seq<char>,
    files: Seq<DoorFileModel>,
    category: Seq<char>,
    entries: Seq<DirEntryModel>,
    at: int,
    door: DoorModel,
)
    requires
        0 <= at < entries.len(),
        door_in(files, entries[at]) == Some(door),
        none_claims(files, entries, at + 1, door.door_code),
    ensures
        table_get(scanned_into(table, root, files, category, entries), door.door_code) == Some(
            scanned_entry(root, entries[at].path, category, door),
        ),
    decreases entries.len(),
{
    let rest = entries.drop_last();
    let last = entries[entries.len() - 1];
    let before = scanned_into(table, root, files, category, rest);
    if at == entries.len() - 1 {
        table_put_gets(
            before,
            door.door_code,
            scanned_entry(root, last.path, category, door),
            door.door_code,
        );
    } else {
        assert(rest[at] == entries[at]);
        assert forall|i: int| at + 1 <= i < rest.len() implies !(door_in(
            files,
            #[trigger] rest[i],
        ) matches Some(other) && other.door_code == door.door_code) by {
            assert(rest[i] == entries[i]);
        }
        scan_into_enters(table, root, files, category, rest, at, door);
        match door_in(files, last) {
            Some(other) => {
                table_put_gets(
                    before,
                    other.door_code,
                    scanned_entry(root, last.path, category, other),
                    door.door_code,
                );
            },
            None => {},
        }
    }
}

/// Whether no file of the category directories after the first `from`
/// holds a door of the code.
pub open spec fn later_categories_are_free(c: CorpusModel, from: int, code: Seq<char>) -> bool {
    forall|k: int|
        #![trigger categories()[k]]
        from <= k < CATEGORY_COUNT ==> match directory_from(c.directories, categories()[k], 0) {
            Some(ListingModel::Entries(entries)) => none_claims(c.files, entries, 0, code),
            _ => true,
        }
}

proof fn scan_categories_enter(
    root: Seq<char>,
    c: CorpusModel,
    category: int,
    at: int,
    door: DoorModel,
    upto: int,
)
    requires
        0 <= category < upto <= CATEGORY_COUNT,
        scanned_categories(root, c, upto) is Ok,
        directory_from(c.directories, categories()[category], 0) matches Some(
            ListingModel::Entries(entries),
        ) && 0 <= at < entries.len() && door_in(c.files, entries[at]) == Some(door) && none_claims(
            c.files,
            entries,
            at + 1,
            door.door_code,
        ),
        later_categories_are_free(c, category + 1, door.door_code),
    ensures
        directory_from(c.directories, categories()[category], 0) matches Some(
            ListingModel::Entries(entries),
        ) && table_get(scanned_categories(root, c, upto)->Ok_0, door.door_code) == Some(
            scanned_entry(root, entries[at].path, categories()[category], door),
        ),
    decreases upto,
{
    let before = scanned_categories(root, c, upto - 1)->Ok_0;
    if upto - 1 == category {
        let entries = directory_from(c.directories, categories()[category], 0)->0->Entries_0;
        scan_into_enters(before, root, c.files, categories()[category], entries, at, door);
    } else {
        scan_categories_enter(root, c, category, at, door, upto - 1);
        let k = upto - 1;
        match directory_from(c.directories, categories()[k], 0) {
            Some(ListingModel::Entries(entries)) => {
                scan_into_keeps(before, root, c.files, categories()[k], entries, door.door_code);
            },
            _ => {},
        }
    }
}

/// The scan enters a door under its code, with the path of its file as
/// the index stores it: the door stands in a file of a category directory,
/// and no file that the scan comes to later holds a door of the same code.
pub proof fn scan_enters_door(root: Seq<char>, c: CorpusModel, category: int, at: int, door: DoorModel)
    requires
        0 <= category < CATEGORY_COUNT,
        scanned(root, c) is Ok,
        directory_from(c.directories, categories()[category], 0) matches Some(
            ListingModel::Entries(entries),
        ) && 0 <= at < entries.len() && door_in(c.files, entries[at]) == Some(door) && none_claims(
            c.files,
            entries,
            at + 1,
            door.door_code,
        ),
        later_categories_are_free(c, category + 1, door.door_code),
    ensures
        directory_from(c.directories, categories()[category], 0) matches Some(
            ListingModel::Entries(entries),
        ) && table_get(scanned(root, c)->Ok_0, door.door_code) == Some(
            scanned_entry(root, entries[at].path, categories()[category], door),
        ),
{
    scan_categories_enter(root, c, category, at, door, CATEGORY_COUNT as int);
}

/// The file of a door stands below the root, and the path that the index
/// stores for it leads back to it.
pub proof fn door_file_is_below_root(config: ConfigModel, category: Seq<char>, code: Seq<char>)
    ensures
        path_join(
            config.phishri_path,
            relative_to(config.phishri_path, door_file_path(config, category, code)),
        ) == door_file_path(config, category, code),
{
    reveal_strlit("/");
    let root = config.phishri_path;
    let path = door_file_path(config, category, code);
    let tail = "CONTEXTS"@ + "/"@ + uppercase_of(category) + "/"@ + (code + ".json"@);
    assert(path =~= root + "/"@ + tail);
    assert(path.subrange(0, (root + "/"@).len() as int) =~= root + "/"@);
    assert(path.skip(root.len() as int + 1) =~= tail);
}

/// A door that was made can be read by its code, and is the door that was
/// made: it has the code, the summary and, where one was given, the
/// category that it was made from.
///
/// The door is read from the files as they are after it was written and
/// the index was rebuilt, by a store whose caches were dropped: the door
/// stands in its file, and the index leads from the code to that file. The
/// code is in its normal form.
pub proof fn created_door_is_read(
    m: LoaderModel,
    p: ParamsModel,
    timestamp: Seq<char>,
    c: CorpusModel,
    now: u64,
    table: TableModel,
)
    requires
        normalized(p.door_code) == p.door_code,
        read_door_file(c.files, door_file_path(m.config, p.category, p.door_code)) == Ok::<
            DoorModel,
            ErrorModel,
        >(new_door(p, timestamp)),
        index_of(cleared(m), c) == Ok::<TableModel, ErrorModel>(table),
        table_get(table, p.door_code) matches Some(entry) && entry.file_path == relative_to(
            m.config.phishri_path,
            door_file_path(m.config, p.category, p.door_code),
        ),
    ensures
        loaded(cleared(m), c, now, p.door_code) == Ok::<DoorModel, ErrorModel>(
            new_door(p, timestamp),
        ),
        new_door(p, timestamp).door_code == p.door_code,
        new_door(p, timestamp).context_bundle.summary == p.summary,
        p.category.len() > 0 ==> category_of(new_door(p, timestamp)) == p.category,
{
    door_file_is_below_root(m.config, p.category, p.door_code);
}

/// The index that is rebuilt after a door was made leads from the door's
/// code to the door's file: the door stands in its file, in the directory
/// of one of the categories that a scan visits, and no file that the scan
/// comes to later holds a door of the same code.
pub proof fn rebuilt_index_leads_to_created_door(
    config: ConfigModel,
    p: ParamsModel,
    timestamp: Seq<char>,
    c: CorpusModel,
    category: int,
    at: int,
)
    requires
        0 <= category < CATEGORY_COUNT,
        uppercase_of(p.category) == categories()[category],
        scanned(config.phishri_path, c) is Ok,
        directory_from(c.directories, categories()[category], 0) matches Some(
            ListingModel::Entries(entries),
        ) && 0 <= at < entries.len() && entries[at].is_file && entries[at].path == door_file_path(
            config,
            p.category,
            p.door_code,
        ) && none_claims(c.files, entries, at + 1, p.door_code),
        json_named(door_file_path(config, p.category, p.door_code)),
        read_door_file(c.files, door_file_path(config, p.category, p.door_code)) == Ok::<
            DoorModel,
            ErrorModel,
        >(new_door(p, timestamp)),
        later_categories_are_free(c, category + 1, p.door_code),
    ensures
        table_get(scanned(config.phishri_path, c)->Ok_0, p.door_code) matches Some(entry)
            && entry.file_path == relative_to(
            config.phishri_path,
            door_file_path(config, p.category, p.door_code),
        ),
{
    scan_enters_door(config.phishri_path, c, category, at, new_door(p, timestamp));
}

} // verus!
