//! What the operations of the server do: each reads its arguments from a
//! loosely typed payload, asks the manager, and shows what came back.
use vstd::prelude::*;
use vstd::string::*;
use crate::config::{join_path, path_join, sanitize_id, sanitized, Config, ConfigModel};
use crate::door::creation::{
    batch_indexed, batch_of, batch_progress, cleared, creation_of, rebuild_of, BatchCreateResult,
    BatchPlan, BatchPlanModel, BatchResultModel, CreateDoorParams, CreateResult, CreateResultModel,
    ParamsModel, RebuildResult, RebuildResultModel,
};
use crate::door::loader::{load_keeps_answers, loaded, same_answers, LoaderModel};
use crate::door::manager::{
    chain_of, chain_text_of, line_of, listed_doors, prerequisites_of, DoorListItem, DoorManager,
    ListItemModel,
};
use crate::door::review::{
    answers_chain, audit_of, order, ordered, stats_of, validation_of, AuditModel, AuditResult,
    StatsModel, StatsResult, ValidationModel, ValidationResult,
};
use crate::door::schema::{full_text_of, Door, DoorModel};
use crate::door::store::{
    error_message, Corpus, CorpusModel, ErrorModel, FileOp, FileOpModel, LoaderError, Outcome,
    OutcomeModel, SessionRecord, SessionRecordModel, TextFile, TextFileModel,
};
use crate::json::{
    bool_arg_or, bool_field_or, field, field_of, natural_arg_or, natural_field_or, text_arg,
    text_arg_or_empty, text_field, text_field_or_empty, text_list_arg, text_list_field,
    text_list_member, text_member_or_empty, JsonModel, JsonValue,
};
use crate::mcp::protocol::{error_result, text_result, ToolCallResult, ToolCallResultModel};
use crate::text::{
    contains, decimal, decimal_of, each_wrapped, has_infix, headed, join, joined, labelled,
    lowercase_of, owned, preview, preview_of, same, section, to_lowercase,
    to_uppercase, uppercase_of, words, words_of, wrapped_items,
};

verus! {

/// The failure that a message and an error make.
pub open spec fn failure(before: Seq<char>, e: ErrorModel) -> ToolCallResultModel {
    error_result(before + error_message(e))
}

fn fail(before: &str, e: &LoaderError) -> (r: ToolCallResult)
    ensures
        r.deep_view() == failure(before@, e.deep_view()),
{
    let mut message = owned(before);
    message.append(e.message().as_str());
    ToolCallResult::error(message)
}

// ---------------------------------------------------------------------------
// Reading a door
// ---------------------------------------------------------------------------

/// What reading a door gives: the full text of the door that the argument
/// `door_code` leads to.
pub open spec fn read_door_result(m: LoaderModel, c: CorpusModel, now: u64, args: Option<JsonModel>) -> ToolCallResultModel {
    let code = text_field_or_empty(args, "door_code"@);
    if code.len() == 0 {
        error_result("Missing required parameter: door_code"@)
    } else {
        match loaded(m, c, now, code) {
            Ok(door) => text_result(full_text_of(door)),
            Err(e) => failure("Failed to read door "@ + code + ": "@, e),
        }
    }
}

pub fn tool_read_door(
    manager: &mut DoorManager,
    arguments: &Option<JsonValue>,
    corpus: &Corpus,
    now: u64,
) -> (r: ToolCallResult)
    ensures
        r.deep_view() == read_door_result(
            old(manager).deep_view().loader,
            corpus.deep_view(),
            now,
            arguments.deep_view(),
        ),
        same_answers(
            final(manager).deep_view().loader,
            old(manager).deep_view().loader,
            corpus.deep_view(),
            now,
        ),
        old(manager).deep_view().loader.settled() ==> final(manager).deep_view().loader.settled(),
        final(manager).deep_view().config == old(manager).deep_view().config,
{
    let door_code = text_arg_or_empty(arguments, "door_code");
    if door_code.as_str().unicode_len() == 0 {
        proof {
            load_keeps_answers(
                manager.deep_view().loader,
                manager.deep_view().loader,
                corpus.deep_view(),
                now,
                Seq::empty(),
            );
        }
        return ToolCallResult::error(owned("Missing required parameter: door_code"));
    }
    match manager.read_door(door_code.as_str(), corpus, now) {
        Ok(door) => ToolCallResult::text(door.full_text()),
        Err(e) => {
            let mut before = owned("Failed to read door ");
            before.append(door_code.as_str());
            before.append(": ");
            fail(before.as_str(), &e)
        },
    }
}

// ---------------------------------------------------------------------------
// Listing
// ---------------------------------------------------------------------------

/// The lines of the doors of a list.
pub open spec fn lines_of(items: Seq<ListItemModel>) -> Seq<Seq<char>> {
    Seq::new(items.len(), |i: int| line_of(items[i]))
}

/// What listing the doors gives: a heading, and the line of every door of
/// the category that the argument `category` names, of at most as many
/// doors as the argument `limit` says, or fifty.
pub open spec fn list_doors_result(m: LoaderModel, c: CorpusModel, now: u64, args: Option<JsonModel>) -> ToolCallResultModel {
    let category = text_field(args, "category"@);
    let limit = natural_field_or(args, "limit"@, 50) as usize;
    match listed_doors(m, c, now, category, limit as int) {
        Ok(items) => text_result(
            (match category {
                Some(name) => "# Doors in category: "@ + name + "\n\n"@,
                None => "# All Doors\n\n"@,
            }) + each_wrapped(lines_of(items), "- "@, "\n"@),
        ),
        Err(e) => failure("Failed to list doors: "@, e),
    }
}

#[verifier::loop_isolation(false)]
fn lines(items: &Vec<DoorListItem>) -> (r: Vec<String>)
    ensures
        r.deep_view() == lines_of(items.deep_view()),
{
    let mut out: Vec<String> = Vec::new();
    let mut i: usize = 0;
    while i < items.len()
        invariant
            i <= items.len(),
            out@.len() == i,
            forall|j: int| 0 <= j < i ==> out@[j]@ == line_of(items@[j].deep_view()),
        decreases items.len() - i,
    {
        out.push(items[i].to_line());
        i += 1;
    }
    assert(out.deep_view() =~= lines_of(items.deep_view()));
    out
}

pub fn tool_list_doors(
    manager: &mut DoorManager,
    arguments: &Option<JsonValue>,
    corpus: &Corpus,
    now: u64,
) -> (r: ToolCallResult)
    ensures
        r.deep_view() == list_doors_result(
            old(manager).deep_view().loader,
            corpus.deep_view(),
            now,
            arguments.deep_view(),
        ),
        same_answers(
            final(manager).deep_view().loader,
            old(manager).deep_view().loader,
            corpus.deep_view(),
            now,
        ),
        old(manager).deep_view().loader.settled() ==> final(manager).deep_view().loader.settled(),
        final(manager).deep_view().config == old(manager).deep_view().config,
{
    let category = text_arg(arguments, "category");
    let limit = natural_arg_or(arguments, "limit", 50) as usize;
    let wanted: Option<&str> = match &category {
        Some(name) => Some(name.as_str()),
        None => None,
    };
    match manager.list_doors(wanted, limit, corpus, now) {
        Ok(items) => {
            let mut out = match &category {
                Some(name) => {
                    let mut heading = owned("# Doors in category: ");
                    heading.append(name.as_str());
                    heading.append("\n\n");
                    heading
                },
                None => owned("# All Doors\n\n"),
            };
            out.append(wrapped_items(&lines(&items), "- ", "\n").as_str());
            ToolCallResult::text(out)
        },
        Err(e) => fail("Failed to list doors: ", &e),
    }
}

// ---------------------------------------------------------------------------
// Chains and prerequisites
// ---------------------------------------------------------------------------

/// What loading a chain gives: the text of the chain of the codes that the
/// argument `door_codes` lists, with prerequisites unless the argument
/// `include_prerequisites` says otherwise.
pub open spec fn load_chain_result(m: LoaderModel, c: CorpusModel, now: u64, args: Option<JsonModel>) -> ToolCallResultModel {
    let codes = text_list_field(args, "door_codes"@);
    if codes.len() == 0 {
        error_result("Missing required parameter: door_codes"@)
    } else {
        match chain_of(m, c, now, codes, bool_field_or(args, "include_prerequisites"@, true)) {
            Ok(chain) => text_result(chain_text_of(chain)),
            Err(e) => failure("Failed to load chain: "@, e),
        }
    }
}

pub fn tool_load_chain(
    manager: &mut DoorManager,
    arguments: &Option<JsonValue>,
    corpus: &Corpus,
    now: u64,
) -> (r: ToolCallResult)
    ensures
        r.deep_view() == load_chain_result(
            old(manager).deep_view().loader,
            corpus.deep_view(),
            now,
            arguments.deep_view(),
        ),
        same_answers(
            final(manager).deep_view().loader,
            old(manager).deep_view().loader,
            corpus.deep_view(),
            now,
        ),
        old(manager).deep_view().loader.settled() ==> final(manager).deep_view().loader.settled(),
        final(manager).deep_view().config == old(manager).deep_view().config,
{
    let door_codes = text_list_arg(arguments, "door_codes");
    if door_codes.len() == 0 {
        proof {
            load_keeps_answers(
                manager.deep_view().loader,
                manager.deep_view().loader,
                corpus.deep_view(),
                now,
                Seq::empty(),
            );
        }
        return ToolCallResult::error(owned("Missing required parameter: door_codes"));
    }
    let deep = bool_arg_or(arguments, "include_prerequisites", true);
    match manager.load_chain(&door_codes, deep, corpus, now) {
        Ok(chain) => ToolCallResult::text(chain.to_text()),
        Err(e) => fail("Failed to load chain: ", &e),
    }
}

/// The prerequisites one per line, each after its number, the one that is
/// the target marked.
pub open spec fn numbered_with_target(items: Seq<Seq<char>>, target: Seq<char>) -> Seq<char>
    decreases items.len(),
{
    if items.len() == 0 {
        Seq::empty()
    } else {
        numbered_with_target(items.drop_last(), target) + decimal_of(items.len()) + ". "@
            + items.last() + section(items.last() == target, " ← (target)"@) + "\n"@
    }
}

/// What asking for prerequisites gives: that the door that the argument
/// `door_code` names has none, where the search finds at most the door
/// itself; or else what the search finds, in order.
pub open spec fn get_prerequisites_result(
    m: LoaderModel,
    c: CorpusModel,
    now: u64,
    args: Option<JsonModel>,
) -> ToolCallResultModel {
    let code = text_field_or_empty(args, "door_code"@);
    if code.len() == 0 {
        error_result("Missing required parameter: door_code"@)
    } else {
        let found = prerequisites_of(m, c, now, code);
        if found.len() <= 1 {
            text_result("Door "@ + code + " has no prerequisites."@)
        } else {
            text_result(
                "# Prerequisites for "@ + code + "\n\n"@ + "Read these doors in order:\n\n"@
                    + numbered_with_target(found, uppercase_of(code)),
            )
        }
    }
}

#[verifier::loop_isolation(false)]
fn numbered_lines(items: &Vec<String>, target: &str) -> (r: String)
    ensures
        r@ == numbered_with_target(items.deep_view(), target@),
{
    let mut out = String::new();
    let ghost model = items.deep_view();
    let mut i: usize = 0;
    assert(model.take(0) =~= Seq::empty());
    while i < items.len()
        invariant
            i <= items.len(),
            out@ == numbered_with_target(model.take(i as int), target@),
        decreases items.len() - i,
    {
        proof {
            let next = model.take(i + 1);
            assert(next.drop_last() == model.take(i as int));
            assert(next.last() == items@[i as int]@);
        }
        out.append(decimal((i + 1) as u64).as_str());
        out.append(". ");
        out.append(items[i].as_str());
        let marker = if same(items[i].as_str(), target) {
            owned(" ← (target)")
        } else {
            String::new()
        };
        out.append(marker.as_str());
        out.append("\n");
        i += 1;
    }
    assert(model.take(items.len() as int) == model);
    out
}

pub fn tool_get_prerequisites(
    manager: &mut DoorManager,
    arguments: &Option<JsonValue>,
    corpus: &Corpus,
    now: u64,
) -> (r: ToolCallResult)
    ensures
        r.deep_view() == get_prerequisites_result(
            old(manager).deep_view().loader,
            corpus.deep_view(),
            now,
            arguments.deep_view(),
        ),
        same_answers(
            final(manager).deep_view().loader,
            old(manager).deep_view().loader,
            corpus.deep_view(),
            now,
        ),
        old(manager).deep_view().loader.settled() ==> final(manager).deep_view().loader.settled(),
        final(manager).deep_view().config == old(manager).deep_view().config,
{
    let door_code = text_arg_or_empty(arguments, "door_code");
    if door_code.as_str().unicode_len() == 0 {
        proof {
            load_keeps_answers(
                manager.deep_view().loader,
                manager.deep_view().loader,
                corpus.deep_view(),
                now,
                Seq::empty(),
            );
        }
        return ToolCallResult::error(owned("Missing required parameter: door_code"));
    }
    match manager.get_prerequisites(door_code.as_str(), corpus, now) {
        Ok(found) => {
            if found.len() <= 1 {
                let mut out = owned("Door ");
                out.append(door_code.as_str());
                out.append(" has no prerequisites.");
                ToolCallResult::text(out)
            } else {
                let mut out = owned("# Prerequisites for ");
                out.append(door_code.as_str());
                out.append("\n\n");
                out.append("Read these doors in order:\n\n");
                out.append(
                    numbered_lines(&found, to_uppercase(door_code.as_str()).as_str()).as_str(),
                );
                ToolCallResult::text(out)
            }
        },
        Err(e) => fail("Failed to get prerequisites: ", &e),
    }
}


// ---------------------------------------------------------------------------
// Searching by semantic path
// ---------------------------------------------------------------------------

/// The most doors that a search by semantic path looks at.
pub const SEMANTIC_SEARCH_LIMIT: usize = 268;

/// The lines of the doors of a list whose semantic path holds `path`, the
/// case of letters aside: the code, an arrow, and the semantic path.
pub open spec fn semantic_matches(m: LoaderModel, c: CorpusModel, now: u64, items: Seq<ListItemModel>, path: Seq<
    char,
>) -> Seq<Seq<char>>
    decreases items.len(),
{
    if items.len() == 0 {
        Seq::empty()
    } else {
        let before = semantic_matches(m, c, now, items.drop_last(), path);
        match loaded(m, c, now, items.last().full_code) {
            Ok(door) => if has_infix(uppercase_of(door.semantic_path), uppercase_of(path)) {
                before.push(items.last().full_code + " → "@ + door.semantic_path)
            } else {
                before
            },
            Err(_) => before,
        }
    }
}

/// What a search by semantic path gives: the doors, among the first 268 of
/// the index, whose semantic path holds the argument `path`.
pub open spec fn search_semantic_result(m: LoaderModel, c: CorpusModel, now: u64, args: Option<JsonModel>) -> ToolCallResultModel {
    let path = text_field_or_empty(args, "path"@);
    if path.len() == 0 {
        error_result("Missing required parameter: path"@)
    } else {
        match listed_doors(m, c, now, None, SEMANTIC_SEARCH_LIMIT as int) {
            Err(e) => failure("Semantic search failed: "@, e),
            Ok(items) => {
                let matches = semantic_matches(m, c, now, items, path);
                if matches.len() == 0 {
                    text_result("No doors found with semantic path containing: "@ + path)
                } else {
                    text_result(
                        "# Semantic Search: "@ + path + "\n\n"@ + each_wrapped(
                            matches,
                            "- "@,
                            "\n"@,
                        ),
                    )
                }
            },
        }
    }
}

#[verifier::loop_isolation(false)]
pub fn tool_search_semantic(
    manager: &mut DoorManager,
    arguments: &Option<JsonValue>,
    corpus: &Corpus,
    now: u64,
) -> (r: ToolCallResult)
    ensures
        r.deep_view() == search_semantic_result(
            old(manager).deep_view().loader,
            corpus.deep_view(),
            now,
            arguments.deep_view(),
        ),
        same_answers(
            final(manager).deep_view().loader,
            old(manager).deep_view().loader,
            corpus.deep_view(),
            now,
        ),
        old(manager).deep_view().loader.settled() ==> final(manager).deep_view().loader.settled(),
        final(manager).deep_view().config == old(manager).deep_view().config,
{
    let ghost start = manager.deep_view().loader;
    let ghost c = corpus.deep_view();
    proof {
        load_keeps_answers(start, start, c, now, Seq::empty());
    }
    let path = text_arg_or_empty(arguments, "path");
    if path.as_str().unicode_len() == 0 {
        return ToolCallResult::error(owned("Missing required parameter: path"));
    }
    let items = match manager.list_doors(None, SEMANTIC_SEARCH_LIMIT, corpus, now) {
        Ok(items) => items,
        Err(e) => {
            return fail("Semantic search failed: ", &e);
        },
    };
    let ghost model = items.deep_view();
    let wanted = to_uppercase(path.as_str());
    let mut matches: Vec<String> = Vec::new();
    let mut i: usize = 0;
    proof {
        assert(model.take(0) =~= Seq::empty());
        assert(matches.deep_view() =~= Seq::empty());
    }
    while i < items.len()
        invariant
            i <= items.len(),
            same_answers(manager.deep_view().loader, start, c, now),
            start.settled() ==> manager.deep_view().loader.settled(),
            manager.deep_view().config == old(manager).deep_view().config,
            matches.deep_view() == semantic_matches(start, c, now, model.take(i as int), path@),
        decreases items.len() - i,
    {
        let item = &items[i];
        proof {
            let next = model.take(i + 1);
            assert(next.drop_last() == model.take(i as int));
            assert(next.last() == item.deep_view());
        }
        let ghost here = manager.deep_view().loader;
        let ghost was = matches.deep_view();
        match manager.read_door(item.full_code.as_str(), corpus, now) {
            Ok(door) => {
                if contains(to_uppercase(door.semantic_path.as_str()).as_str(), wanted.as_str()) {
                    let mut line = item.full_code.clone();
                    line.append(" → ");
                    line.append(door.semantic_path.as_str());
                    matches.push(line);
                    assert(matches.deep_view() =~= was.push(line@));
                }
            },
            Err(_) => {},
        }
        proof {
            answers_chain(manager.deep_view().loader, here, start, c, now);
        }
        i += 1;
    }
    assert(model.take(items.len() as int) == model);
    if matches.len() == 0 {
        let mut out = owned("No doors found with semantic path containing: ");
        out.append(path.as_str());
        ToolCallResult::text(out)
    } else {
        let mut out = owned("# Semantic Search: ");
        out.append(path.as_str());
        out.append("\n\n");
        out.append(wrapped_items(&matches, "- ", "\n").as_str());
        ToolCallResult::text(out)
    }
}

// ---------------------------------------------------------------------------
// Finding doors by a query
// ---------------------------------------------------------------------------

/// The most doors that a query looks at.
pub const FIND_LIMIT: usize = 300;

/// A score and a weight more, up to the largest score.
pub open spec fn plus(score: usize, weight: usize) -> usize {
    if score <= usize::MAX - weight {
        (score + weight) as usize
    } else {
        usize::MAX
    }
}

/// The score with `weight` more for every term that the text holds.
pub open spec fn with_hits(score: usize, text: Seq<char>, terms: Seq<Seq<char>>, weight: usize) -> usize
    decreases terms.len(),
{
    if terms.len() == 0 {
        score
    } else {
        let before = with_hits(score, text, terms.drop_last(), weight);
        if has_infix(text, terms.last()) {
            plus(before, weight)
        } else {
            before
        }
    }
}

/// The score with what the aliases add: 15 for every term that an alias
/// holds, and 50 for an alias that is the query, the case of letters aside.
pub open spec fn with_aliases(score: usize, aliases: Seq<Seq<char>>, terms: Seq<Seq<char>>, query: Seq<
    char,
>) -> usize
    decreases aliases.len(),
{
    if aliases.len() == 0 {
        score
    } else {
        let before = with_aliases(score, aliases.drop_last(), terms, query);
        let alias = lowercase_of(aliases.last());
        let held = with_hits(before, alias, terms, 15);
        if alias == query {
            plus(held, 50)
        } else {
            held
        }
    }
}

/// The score with what the tags add: 12 for every term that a tag holds.
pub open spec fn with_tags(score: usize, tags: Seq<Seq<char>>, terms: Seq<Seq<char>>) -> usize
    decreases tags.len(),
{
    if tags.len() == 0 {
        score
    } else {
        with_hits(with_tags(score, tags.drop_last(), terms), lowercase_of(tags.last()), terms, 12)
    }
}

/// How well a door answers a query in lowercase, whose words are the terms:
/// for every term, 10 where the code holds it, 8 where the semantic path
/// does, 5 where the summary does, and what the aliases and the tags add.
pub open spec fn door_score(door: DoorModel, terms: Seq<Seq<char>>, query: Seq<char>) -> usize {
    let by_code = with_hits(0, lowercase_of(door.door_code), terms, 10);
    let by_alias = with_aliases(by_code, door.aliases, terms, query);
    let by_path = with_hits(by_alias, lowercase_of(door.semantic_path), terms, 8);
    let by_summary = with_hits(by_path, lowercase_of(door.context_bundle.summary), terms, 5);
    match door.context_bundle.metadata {
        Some(meta) => with_tags(by_summary, meta.tags, terms),
        None => by_summary,
    }
}

/// The line of a door that answers a query.
pub open spec fn match_line(door: DoorModel, score: usize) -> Seq<char> {
    "- **"@ + door.door_code + "** (score: "@ + decimal_of(score as nat) + ") - "@ + preview_of(
        door.context_bundle.summary,
        80,
        77,
    ) + "\n"@
}

/// The doors of a list that answer a query with a score above none, each
/// as its line and its score. A door is read by its listed name.
pub open spec fn query_matches(
    m: LoaderModel,
    c: CorpusModel,
    now: u64,
    items: Seq<ListItemModel>,
    terms: Seq<Seq<char>>,
    query: Seq<char>,
) -> Seq<(Seq<char>, usize)>
    decreases items.len(),
{
    if items.len() == 0 {
        Seq::empty()
    } else {
        let before = query_matches(m, c, now, items.drop_last(), terms, query);
        match loaded(m, c, now, items.last().short_code) {
            Ok(door) => if door_score(door, terms, query) > 0 {
                before.push((
                    match_line(door, door_score(door, terms, query)),
                    door_score(door, terms, query),
                ))
            } else {
                before
            },
            Err(_) => before,
        }
    }
}

/// The texts of counted texts, in order.
pub open spec fn texts_of(items: Seq<(Seq<char>, usize)>) -> Seq<Seq<char>> {
    Seq::new(items.len(), |i: int| items[i].0)
}

/// The first `limit` items of a list, or all of them.
pub open spec fn first_of<T>(items: Seq<T>, limit: int) -> Seq<T> {
    if 0 <= limit < items.len() {
        items.take(limit)
    } else {
        items
    }
}

/// What a query gives: the doors, among the first 300 of the index, that
/// answer the argument `query`, the best first, as many as the argument
/// `limit` says, or five.
pub open spec fn find_door_result(m: LoaderModel, c: CorpusModel, now: u64, args: Option<JsonModel>) -> ToolCallResultModel {
    let query = text_field_or_empty(args, "query"@);
    let limit = natural_field_or(args, "limit"@, 5) as usize;
    if query.len() == 0 {
        error_result("Missing required parameter: query"@)
    } else {
        match listed_doors(m, c, now, None, FIND_LIMIT as int) {
            Err(e) => failure("Search failed: "@, e),
            Ok(items) => {
                let lower = lowercase_of(query);
                let matches = ordered(
                    query_matches(m, c, now, items, words_of(lower), lower),
                    true,
                );
                if matches.len() == 0 {
                    text_result("No doors found matching: "@ + query)
                } else {
                    let shown = first_of(texts_of(matches), limit as int);
                    text_result(
                        "# Search Results for: \""@ + query + "\"\n\n"@ + each_wrapped(
                            shown,
                            ""@,
                            ""@,
                        ) + "\n_Found "@ + decimal_of(matches.len()) + " matches, showing top "@
                            + decimal_of(shown.len()) + "_"@,
                    )
                }
            },
        }
    }
}

fn raise(score: usize, weight: usize) -> (r: usize)
    ensures
        r == plus(score, weight),
{
    if score <= usize::MAX - weight {
        score + weight
    } else {
        usize::MAX
    }
}

#[verifier::loop_isolation(false)]
fn add_hits(score: usize, text: &str, terms: &Vec<String>, weight: usize) -> (r: usize)
    ensures
        r == with_hits(score, text@, terms.deep_view(), weight),
{
    let ghost model = terms.deep_view();
    let mut total = score;
    let mut i: usize = 0;
    assert(model.take(0) =~= Seq::empty());
    while i < terms.len()
        invariant
            i <= terms.len(),
            total == with_hits(score, text@, model.take(i as int), weight),
        decreases terms.len() - i,
    {
        proof {
            let next = model.take(i + 1);
            assert(next.drop_last() == model.take(i as int));
            assert(next.last() == terms@[i as int]@);
        }
        if contains(text, terms[i].as_str()) {
            total = raise(total, weight);
        }
        i += 1;
    }
    assert(model.take(terms.len() as int) == model);
    total
}

#[verifier::loop_isolation(false)]
fn add_aliases(score: usize, aliases: &Vec<String>, terms: &Vec<String>, query: &str) -> (r: usize)
    ensures
        r == with_aliases(score, aliases.deep_view(), terms.deep_view(), query@),
{
    let ghost model = aliases.deep_view();
    let mut total = score;
    let mut i: usize = 0;
    assert(model.take(0) =~= Seq::empty());
    while i < aliases.len()
        invariant
            i <= aliases.len(),
            total == with_aliases(score, model.take(i as int), terms.deep_view(), query@),
        decreases aliases.len() - i,
    {
        proof {
            let next = model.take(i + 1);
            assert(next.drop_last() == model.take(i as int));
            assert(next.last() == aliases@[i as int]@);
        }
        let alias = to_lowercase(aliases[i].as_str());
        total = add_hits(total, alias.as_str(), terms, 15);
        if same(alias.as_str(), query) {
            total = raise(total, 50);
        }
        i += 1;
    }
    assert(model.take(aliases.len() as int) == model);
    total
}

#[verifier::loop_isolation(false)]
fn add_tags(score: usize, tags: &Vec<String>, terms: &Vec<String>) -> (r: usize)
    ensures
        r == with_tags(score, tags.deep_view(), terms.deep_view()),
{
    let ghost model = tags.deep_view();
    let mut total = score;
    let mut i: usize = 0;
    assert(model.take(0) =~= Seq::empty());
    while i < tags.len()
        invariant
            i <= tags.len(),
            total == with_tags(score, model.take(i as int), terms.deep_view()),
        decreases tags.len() - i,
    {
        proof {
            let next = model.take(i + 1);
            assert(next.drop_last() == model.take(i as int));
            assert(next.last() == tags@[i as int]@);
        }
        total = add_hits(total, to_lowercase(tags[i].as_str()).as_str(), terms, 12);
        i += 1;
    }
    assert(model.take(tags.len() as int) == model);
    total
}

/// How well a door answers a query.
pub fn score_door(door: &Door, terms: &Vec<String>, query: &str) -> (r: usize)
    ensures
        r == door_score(door.deep_view(), terms.deep_view(), query@),
{
    let by_code = add_hits(0, to_lowercase(door.door_code.as_str()).as_str(), terms, 10);
    let by_alias = add_aliases(by_code, &door.aliases, terms, query);
    let by_path = add_hits(
        by_alias,
        to_lowercase(door.semantic_path.as_str()).as_str(),
        terms,
        8,
    );
    let by_summary = add_hits(
        by_path,
        to_lowercase(door.context_bundle.summary.as_str()).as_str(),
        terms,
        5,
    );
    match &door.context_bundle.metadata {
        Some(meta) => add_tags(by_summary, &meta.tags, terms),
        None => by_summary,
    }
}

fn line_of_match(door: &Door, score: usize) -> (r: String)
    ensures
        r@ == match_line(door.deep_view(), score),
{
    let mut line = owned("- **");
    line.append(door.door_code.as_str());
    line.append("** (score: ");
    line.append(decimal(score as u64).as_str());
    line.append(") - ");
    line.append(preview(door.context_bundle.summary.as_str(), 80, 77).as_str());
    line.append("\n");
    line
}

#[verifier::loop_isolation(false)]
fn first_texts(items: &Vec<(String, usize)>, limit: usize) -> (r: Vec<String>)
    ensures
        r.deep_view() == first_of(texts_of(items.deep_view()), limit as int),
{
    let n: usize = if limit < items.len() {
        limit
    } else {
        items.len()
    };
    let mut out: Vec<String> = Vec::new();
    let mut i: usize = 0;
    while i < n
        invariant
            i <= n <= items.len(),
            out@.len() == i,
            forall|j: int| 0 <= j < i ==> out@[j]@ == items@[j].0@,
        decreases n - i,
    {
        out.push(items[i].0.clone());
        i += 1;
    }
    assert(out.deep_view() =~= first_of(texts_of(items.deep_view()), limit as int));
    out
}

#[verifier::loop_isolation(false)]
pub fn tool_find_door(
    manager: &mut DoorManager,
    arguments: &Option<JsonValue>,
    corpus: &Corpus,
    now: u64,
) -> (r: ToolCallResult)
    ensures
        r.deep_view() == find_door_result(
            old(manager).deep_view().loader,
            corpus.deep_view(),
            now,
            arguments.deep_view(),
        ),
        same_answers(
            final(manager).deep_view().loader,
            old(manager).deep_view().loader,
            corpus.deep_view(),
            now,
        ),
        old(manager).deep_view().loader.settled() ==> final(manager).deep_view().loader.settled(),
        final(manager).deep_view().config == old(manager).deep_view().config,
{
    let ghost start = manager.deep_view().loader;
    let ghost c = corpus.deep_view();
    proof {
        load_keeps_answers(start, start, c, now, Seq::empty());
    }
    let query = text_arg_or_empty(arguments, "query");
    if query.as_str().unicode_len() == 0 {
        return ToolCallResult::error(owned("Missing required parameter: query"));
    }
    let limit = natural_arg_or(arguments, "limit", 5) as usize;
    let lower = to_lowercase(query.as_str());
    let terms = words(lower.as_str());
    let items = match manager.list_doors(None, FIND_LIMIT, corpus, now) {
        Ok(items) => items,
        Err(e) => {
            return fail("Search failed: ", &e);
        },
    };
    let ghost model = items.deep_view();
    let mut matches: Vec<(String, usize)> = Vec::new();
    let mut i: usize = 0;
    proof {
        assert(model.take(0) =~= Seq::empty());
        assert(matches.deep_view() =~= Seq::empty());
    }
    while i < items.len()
        invariant
            i <= items.len(),
            same_answers(manager.deep_view().loader, start, c, now),
            start.settled() ==> manager.deep_view().loader.settled(),
            manager.deep_view().config == old(manager).deep_view().config,
            matches.deep_view() == query_matches(
                start,
                c,
                now,
                model.take(i as int),
                terms.deep_view(),
                lower@,
            ),
        decreases items.len() - i,
    {
        let item = &items[i];
        proof {
            let next = model.take(i + 1);
            assert(next.drop_last() == model.take(i as int));
            assert(next.last() == item.deep_view());
        }
        let ghost here = manager.deep_view().loader;
        let ghost was = matches.deep_view();
        match manager.read_door(item.short_code.as_str(), corpus, now) {
            Ok(door) => {
                let score = score_door(&door, &terms, lower.as_str());
                if score > 0 {
                    let line = line_of_match(&door, score);
                    matches.push((line, score));
                    assert(matches.deep_view() =~= was.push((line@, score)));
                }
            },
            Err(_) => {},
        }
        proof {
            answers_chain(manager.deep_view().loader, here, start, c, now);
        }
        i += 1;
    }
    assert(model.take(items.len() as int) == model);
    let ranked = order(&matches, true);
    if ranked.len() == 0 {
        let mut out = owned("No doors found matching: ");
        out.append(query.as_str());
        ToolCallResult::text(out)
    } else {
        let shown = first_texts(&ranked, limit);
        let mut out = owned("# Search Results for: \"");
        out.append(query.as_str());
        out.append("\"\n\n");
        out.append(wrapped_items(&shown, "", "").as_str());
        out.append("\n_Found ");
        out.append(decimal(ranked.len() as u64).as_str());
        out.append(" matches, showing top ");
        out.append(decimal(shown.len() as u64).as_str());
        out.append("_");
        ToolCallResult::text(out)
    }
}


// ---------------------------------------------------------------------------
// Showing what looking the doors over found
// ---------------------------------------------------------------------------

/// `YES` or `NO`.
pub open spec fn yes_no(b: bool) -> Seq<char> {
    if b {
        "YES"@
    } else {
        "NO"@
    }
}

fn yes_or_no(b: bool) -> (r: &'static str)
    ensures
        r@ == yes_no(b),
{
    if b {
        "YES"
    } else {
        "NO"
    }
}

/// The lines of counted texts: the text, a colon, and the count.
pub open spec fn count_lines(items: Seq<(Seq<char>, usize)>) -> Seq<char>
    decreases items.len(),
{
    if items.len() == 0 {
        Seq::empty()
    } else {
        count_lines(items.drop_last()) + "- "@ + items.last().0 + ": "@ + decimal_of(
            items.last().1 as nat,
        ) + "\n"@
    }
}

/// The lines of the first `limit` of the counted texts.
#[verifier::loop_isolation(false)]
fn lines_of_counts(items: &Vec<(String, usize)>, limit: usize) -> (r: String)
    ensures
        r@ == count_lines(first_of(items.deep_view(), limit as int)),
{
    let n: usize = if limit < items.len() {
        limit
    } else {
        items.len()
    };
    let ghost model = first_of(items.deep_view(), limit as int);
    assert(model.len() == n);
    let mut out = String::new();
    let mut i: usize = 0;
    assert(model.take(0) =~= Seq::empty());
    while i < n
        invariant
            i <= n <= items.len(),
            out@ == count_lines(model.take(i as int)),
        decreases n - i,
    {
        proof {
            let next = model.take(i + 1);
            assert(next.drop_last() == model.take(i as int));
            assert(next.last() == items@[i as int].deep_view());
        }
        out.append("- ");
        out.append(items[i].0.as_str());
        out.append(": ");
        out.append(decimal(items[i].1 as u64).as_str());
        out.append("\n");
        i += 1;
    }
    assert(model.take(n as int) == model);
    out
}

fn lines_of_all_counts(items: &Vec<(String, usize)>) -> (r: String)
    ensures
        r@ == count_lines(items.deep_view()),
{
    lines_of_counts(items, items.len())
}

/// A heading and a list, one item per line, where the list is not empty.
pub open spec fn listed(heading: Seq<char>, items: Seq<Seq<char>>) -> Seq<char> {
    section(items.len() > 0, heading + each_wrapped(items, "- "@, "\n"@))
}

fn listed_text(heading: &str, items: &Vec<String>) -> (r: String)
    ensures
        r@ == listed(heading@, items.deep_view()),
{
    headed(items.len() > 0, heading, wrapped_items(items, "- ", "\n").as_str())
}

/// How a validation is shown.
pub open spec fn validation_text(v: ValidationModel) -> Seq<char> {
    "# Validation Result\n\n**Valid:** "@ + yes_no(v.valid) + "\n"@ + (match v.door_code {
        Some(code) => "**Door:** "@ + code + "\n"@,
        None => Seq::empty(),
    }) + listed("\n## Errors\n"@, v.errors) + listed("\n## Warnings\n"@, v.warnings) + section(
        v.missing_prerequisites.len() > 0,
        "\n**Missing Prerequisites:** "@ + joined(v.missing_prerequisites, ", "@) + "\n"@,
    ) + section(
        v.broken_references.len() > 0,
        "**Broken References:** "@ + joined(v.broken_references, ", "@) + "\n"@,
    )
}

fn show_validation(v: &ValidationResult) -> (r: String)
    ensures
        r@ == validation_text(v.deep_view()),
{
    let mut out = owned("# Validation Result\n\n**Valid:** ");
    out.append(yes_or_no(v.valid));
    out.append("\n");
    let door = match &v.door_code {
        Some(code) => {
            let mut line = owned("**Door:** ");
            line.append(code.as_str());
            line.append("\n");
            line
        },
        None => String::new(),
    };
    out.append(door.as_str());
    out.append(listed_text("\n## Errors\n", &v.errors).as_str());
    out.append(listed_text("\n## Warnings\n", &v.warnings).as_str());
    out.append(
        labelled(
            v.missing_prerequisites.len() > 0,
            "\n**Missing Prerequisites:** ",
            join(&v.missing_prerequisites, ", ").as_str(),
            "\n",
        ).as_str(),
    );
    out.append(
        labelled(
            v.broken_references.len() > 0,
            "**Broken References:** ",
            join(&v.broken_references, ", ").as_str(),
            "\n",
        ).as_str(),
    );
    out
}

/// What validating a door gives: how the validation of the door that the
/// argument `door_code` or the argument `file_path` gives is shown.
pub open spec fn validate_door_result(m: LoaderModel, c: CorpusModel, now: u64, args: Option<JsonModel>) -> ToolCallResultModel {
    let code = text_field(args, "door_code"@);
    let path = text_field(args, "file_path"@);
    if code is None && path is None {
        error_result("Must provide door_code or file_path"@)
    } else {
        text_result(validation_text(validation_of(m, c, now, code, path)))
    }
}

pub fn tool_validate_door(
    manager: &mut DoorManager,
    arguments: &Option<JsonValue>,
    corpus: &Corpus,
    now: u64,
) -> (r: ToolCallResult)
    ensures
        r.deep_view() == validate_door_result(
            old(manager).deep_view().loader,
            corpus.deep_view(),
            now,
            arguments.deep_view(),
        ),
        same_answers(
            final(manager).deep_view().loader,
            old(manager).deep_view().loader,
            corpus.deep_view(),
            now,
        ),
        old(manager).deep_view().loader.settled() ==> final(manager).deep_view().loader.settled(),
        final(manager).deep_view().config == old(manager).deep_view().config,
{
    let door_code = text_arg(arguments, "door_code");
    let file_path = text_arg(arguments, "file_path");
    if door_code.is_none() && file_path.is_none() {
        return ToolCallResult::error(owned("Must provide door_code or file_path"));
    }
    let code: Option<&str> = match &door_code {
        Some(code) => Some(code.as_str()),
        None => None,
    };
    let path: Option<&str> = match &file_path {
        Some(path) => Some(path.as_str()),
        None => None,
    };
    let result = manager.validate_door(code, path, corpus, now);
    ToolCallResult::text(show_validation(&result))
}

/// A heading with a number, and the texts in a row, where there are texts.
pub open spec fn counted_row(heading: Seq<char>, items: Seq<Seq<char>>) -> Seq<char> {
    section(
        items.len() > 0,
        (heading + decimal_of(items.len()) + ")\n"@) + (joined(items, ", "@) + "\n"@),
    )
}

fn counted_row_text(heading: &str, items: &Vec<String>) -> (r: String)
    ensures
        r@ == counted_row(heading@, items.deep_view()),
{
    let mut head = owned(heading);
    head.append(decimal(items.len() as u64).as_str());
    head.append(")\n");
    let mut body = join(items, ", ");
    body.append("\n");
    headed(items.len() > 0, head.as_str(), body.as_str())
}

/// The most warnings that an audit shows.
pub const SHOWN_WARNINGS: usize = 20;

/// How the warnings of an audit are shown: their number, the first twenty,
/// and how many more there are.
pub open spec fn warnings_text(warnings: Seq<Seq<char>>) -> Seq<char> {
    section(
        warnings.len() > 0,
        ("\n## Warnings ("@ + decimal_of(warnings.len()) + ")\n"@) + (each_wrapped(
            first_of(warnings, SHOWN_WARNINGS as int),
            "- "@,
            "\n"@,
        ) + section(
            warnings.len() > SHOWN_WARNINGS,
            "... and "@ + decimal_of((warnings.len() - SHOWN_WARNINGS) as nat) + " more\n"@,
        )),
    )
}

#[verifier::loop_isolation(false)]
fn first_items(items: &Vec<String>, limit: usize) -> (r: Vec<String>)
    ensures
        r.deep_view() == first_of(items.deep_view(), limit as int),
{
    let n: usize = if limit < items.len() {
        limit
    } else {
        items.len()
    };
    let mut out: Vec<String> = Vec::new();
    let mut i: usize = 0;
    while i < n
        invariant
            i <= n <= items.len(),
            out@.len() == i,
            forall|j: int| 0 <= j < i ==> out@[j]@ == items@[j]@,
        decreases n - i,
    {
        out.push(items[i].clone());
        i += 1;
    }
    assert(out.deep_view() =~= first_of(items.deep_view(), limit as int));
    out
}

fn show_warnings(warnings: &Vec<String>) -> (r: String)
    ensures
        r@ == warnings_text(warnings.deep_view()),
{
    let mut head = owned("\n## Warnings (");
    head.append(decimal(warnings.len() as u64).as_str());
    head.append(")\n");
    let mut body = wrapped_items(&first_items(warnings, SHOWN_WARNINGS), "- ", "\n");
    let more: usize = if warnings.len() > SHOWN_WARNINGS {
        warnings.len() - SHOWN_WARNINGS
    } else {
        0
    };
    body.append(
        labelled(
            warnings.len() > SHOWN_WARNINGS,
            "... and ",
            decimal(more as u64).as_str(),
            " more\n",
        ).as_str(),
    );
    headed(warnings.len() > 0, head.as_str(), body.as_str())
}

/// The head of an audit as it is shown: whether the corpus is healthy, the
/// number of doors, and the doors by category.
pub open spec fn audit_head(a: AuditModel) -> Seq<char> {
    "# PhiSHRI Audit Report\n\n**Healthy:** "@ + yes_no(a.healthy) + "\n**Total Doors:** "@
        + decimal_of(a.total_doors as nat) + "\n"@ + "\n## By Category\n"@ + count_lines(
        ordered(a.by_category, false),
    )
}

/// How an audit is shown.
pub open spec fn audit_text(a: AuditModel) -> Seq<char> {
    audit_head(a) + listed("\n## Errors\n"@, a.errors) + warnings_text(a.warnings) + counted_row(
        "\n## Missing Prerequisites ("@,
        a.missing_prerequisites,
    ) + counted_row("\n## Broken References ("@, a.broken_references)
}

fn show_audit_head(a: &AuditResult) -> (r: String)
    ensures
        r@ == audit_head(a.deep_view()),
{
    let mut out = owned("# PhiSHRI Audit Report\n\n**Healthy:** ");
    out.append(yes_or_no(a.healthy));
    out.append("\n**Total Doors:** ");
    out.append(decimal(a.total_doors as u64).as_str());
    out.append("\n");
    out.append("\n## By Category\n");
    out.append(lines_of_all_counts(&order(&a.by_category, false)).as_str());
    out
}

fn show_audit(a: &AuditResult) -> (r: String)
    ensures
        r@ == audit_text(a.deep_view()),
{
    let mut out = show_audit_head(a);
    out.append(listed_text("\n## Errors\n", &a.errors).as_str());
    out.append(show_warnings(&a.warnings).as_str());
    out.append(counted_row_text("\n## Missing Prerequisites (", &a.missing_prerequisites).as_str());
    out.append(counted_row_text("\n## Broken References (", &a.broken_references).as_str());
    out
}

/// What an audit gives: how the audit of the scope that the argument
/// `scope` names is shown.
pub open spec fn audit_result(m: LoaderModel, c: CorpusModel, now: u64, args: Option<JsonModel>) -> ToolCallResultModel {
    text_result(audit_text(audit_of(m, c, now, text_field(args, "scope"@))))
}

pub fn tool_audit(
    manager: &mut DoorManager,
    arguments: &Option<JsonValue>,
    corpus: &Corpus,
    now: u64,
) -> (r: ToolCallResult)
    ensures
        r.deep_view() == audit_result(
            old(manager).deep_view().loader,
            corpus.deep_view(),
            now,
            arguments.deep_view(),
        ),
        same_answers(
            final(manager).deep_view().loader,
            old(manager).deep_view().loader,
            corpus.deep_view(),
            now,
        ),
        old(manager).deep_view().loader.settled() ==> final(manager).deep_view().loader.settled(),
        final(manager).deep_view().config == old(manager).deep_view().config,
{
    let scope = text_arg(arguments, "scope");
    let wanted: Option<&str> = match &scope {
        Some(scope) => Some(scope.as_str()),
        None => None,
    };
    let result = manager.audit(wanted, corpus, now);
    ToolCallResult::text(show_audit(&result))
}

/// The most tags that statistics show.
pub const SHOWN_TAGS: usize = 15;

/// How statistics are shown; the details where `detailed` holds.
pub open spec fn stats_text(s: StatsModel, detailed: bool) -> Seq<char> {
    "# PhiSHRI Statistics\n\n**Total Doors:** "@ + decimal_of(s.total_doors as nat)
        + "\n**Index Exists:** "@ + yes_no(s.index_exists) + "\n"@ + "\n## By Category\n"@
        + count_lines(ordered(s.by_category, false)) + section(
        detailed,
        ("\n**Doors with Prerequisites:** "@ + decimal_of(s.doors_with_prerequisites as nat)
            + "\n"@) + section(
            s.tag_counts.len() > 0,
            "\n## Top Tags\n"@ + count_lines(
                first_of(ordered(s.tag_counts, true), SHOWN_TAGS as int),
            ),
        ),
    )
}

fn show_stats(s: &StatsResult, detailed: bool) -> (r: String)
    ensures
        r@ == stats_text(s.deep_view(), detailed),
{
    let mut out = owned("# PhiSHRI Statistics\n\n**Total Doors:** ");
    out.append(decimal(s.total_doors as u64).as_str());
    out.append("\n**Index Exists:** ");
    out.append(yes_or_no(s.index_exists));
    out.append("\n");
    out.append("\n## By Category\n");
    out.append(lines_of_all_counts(&order(&s.by_category, false)).as_str());
    let mut head = owned("\n**Doors with Prerequisites:** ");
    head.append(decimal(s.doors_with_prerequisites as u64).as_str());
    head.append("\n");
    let tags = headed(
        s.tag_counts.len() > 0,
        "\n## Top Tags\n",
        lines_of_counts(&order(&s.tag_counts, true), SHOWN_TAGS).as_str(),
    );
    out.append(headed(detailed, head.as_str(), tags.as_str()).as_str());
    out
}

/// The granularity that statistics are asked with: the argument
/// `granularity`, or `summary`.
pub open spec fn granularity_of(args: Option<JsonModel>) -> Seq<char> {
    match text_field(args, "granularity"@) {
        Some(g) => g,
        None => "summary"@,
    }
}

/// What asking for statistics gives.
pub open spec fn stats_result(m: LoaderModel, c: CorpusModel, now: u64, args: Option<JsonModel>) -> ToolCallResultModel {
    text_result(
        stats_text(
            stats_of(m, c, now, granularity_of(args)),
            granularity_of(args) == "detailed"@,
        ),
    )
}

pub fn tool_stats(
    manager: &mut DoorManager,
    arguments: &Option<JsonValue>,
    corpus: &Corpus,
    now: u64,
) -> (r: ToolCallResult)
    ensures
        r.deep_view() == stats_result(
            old(manager).deep_view().loader,
            corpus.deep_view(),
            now,
            arguments.deep_view(),
        ),
        same_answers(
            final(manager).deep_view().loader,
            old(manager).deep_view().loader,
            corpus.deep_view(),
            now,
        ),
        old(manager).deep_view().loader.settled() ==> final(manager).deep_view().loader.settled(),
        final(manager).deep_view().config == old(manager).deep_view().config,
{
    let granularity = match text_arg(arguments, "granularity") {
        Some(g) => g,
        None => owned("summary"),
    };
    let result = manager.stats(granularity.as_str(), corpus, now);
    ToolCallResult::text(show_stats(&result, same(granularity.as_str(), "detailed")))
}


// ---------------------------------------------------------------------------
// Operations that write
// ---------------------------------------------------------------------------

/// What an operation waits for while changes to the files are made.
#[derive(Debug)]
pub enum Stage {
    /// A session record is written, after the two directories of the
    /// session are made: what to say once it is, and what to say before
    /// the system's message where the writing fails.
    Session { done: String, failed: String },
    /// The index is written on its own.
    Rebuild(RebuildResult),
    /// A new door is written.
    Door(CreateResult),
    /// The index is written after a new door was.
    DoorIndex(CreateResult),
    /// The doors of a batch are written.
    Batch { codes: Vec<String>, paths: Vec<String>, update_indexes: bool },
    /// The doors of a failed batch are removed again.
    BatchUndo(BatchCreateResult),
    /// The index is written after a batch was.
    BatchIndex { result: BatchCreateResult, doors_indexed: usize },
}

pub enum StageModel {
    Session { done: Seq<char>, failed: Seq<char> },
    Rebuild(RebuildResultModel),
    Door(CreateResultModel),
    DoorIndex(CreateResultModel),
    Batch { codes: Seq<Seq<char>>, paths: Seq<Seq<char>>, update_indexes: bool },
    BatchUndo(BatchResultModel),
    BatchIndex { result: BatchResultModel, doors_indexed: usize },
}

impl DeepView for Stage {
    type V = StageModel;

    open spec fn deep_view(&self) -> StageModel {
        match self {
            Stage::Session { done, failed } => StageModel::Session { done: done@, failed: failed@ },
            Stage::Rebuild(r) => StageModel::Rebuild(r.deep_view()),
            Stage::Door(r) => StageModel::Door(r.deep_view()),
            Stage::DoorIndex(r) => StageModel::DoorIndex(r.deep_view()),
            Stage::Batch { codes, paths, update_indexes } => StageModel::Batch {
                codes: codes.deep_view(),
                paths: paths.deep_view(),
                update_indexes: *update_indexes,
            },
            Stage::BatchUndo(r) => StageModel::BatchUndo(r.deep_view()),
            Stage::BatchIndex { result, doors_indexed } => StageModel::BatchIndex {
                result: result.deep_view(),
                doors_indexed: *doors_indexed,
            },
        }
    }
}

/// What an operation comes to: its result, or changes to be made to the
/// files before it goes on.
#[derive(Debug)]
pub enum ToolStep {
    Done(ToolCallResult),
    Perform { ops: Vec<FileOp>, stage: Stage },
}

pub enum ToolStepModel {
    Done(ToolCallResultModel),
    Perform { ops: Seq<FileOpModel>, stage: StageModel },
}

impl DeepView for ToolStep {
    type V = ToolStepModel;

    open spec fn deep_view(&self) -> ToolStepModel {
        match self {
            ToolStep::Done(r) => ToolStepModel::Done(r.deep_view()),
            ToolStep::Perform { ops, stage } => ToolStepModel::Perform {
                ops: ops.deep_view(),
                stage: stage.deep_view(),
            },
        }
    }
}

// ---------------------------------------------------------------------------
// The session
// ---------------------------------------------------------------------------

/// What asking for the bootstrap gives: the text of the session's
/// bootstrap file under a heading; or that this is a new session where
/// there is no such file.
pub open spec fn get_bootstrap_result(config: ConfigModel, c: CorpusModel) -> ToolCallResultModel {
    match c.bootstrap {
        TextFileModel::Missing => text_result(
            "# No Bootstrap File\n\nNo session state found at: "@ + config.bootstrap_path()
                + "\n\nThis is a new session for agent '"@ + config.agent_id + "' (session: "@
                + config.session_id + ")"@,
        ),
        TextFileModel::Present(content) => text_result(
            "# Session Bootstrap\n\n**Agent:** "@ + config.agent_id + "\n**Session:** "@
                + config.session_id + "\n**Path:** "@ + config.bootstrap_path() + "\n\n---\n\n"@
                + content,
        ),
        TextFileModel::Unreadable(e) => error_result("Failed to read bootstrap: "@ + e),
    }
}

pub fn tool_get_bootstrap(config: &Config, corpus: &Corpus) -> (r: ToolCallResult)
    ensures
        r.deep_view() == get_bootstrap_result(config.deep_view(), corpus.deep_view()),
{
    match &corpus.bootstrap {
        TextFile::Missing => {
            let mut out = owned("# No Bootstrap File\n\nNo session state found at: ");
            out.append(config.bootstrap_path().as_str());
            out.append("\n\nThis is a new session for agent '");
            out.append(config.agent_id.as_str());
            out.append("' (session: ");
            out.append(config.session_id.as_str());
            out.append(")");
            ToolCallResult::text(out)
        },
        TextFile::Present(content) => {
            let mut out = owned("# Session Bootstrap\n\n**Agent:** ");
            out.append(config.agent_id.as_str());
            out.append("\n**Session:** ");
            out.append(config.session_id.as_str());
            out.append("\n**Path:** ");
            out.append(config.bootstrap_path().as_str());
            out.append("\n\n---\n\n");
            out.append(content.as_str());
            ToolCallResult::text(out)
        },
        TextFile::Unreadable(e) => {
            let mut out = owned("Failed to read bootstrap: ");
            out.append(e.as_str());
            ToolCallResult::error(out)
        },
    }
}

/// The changes that write a record of the session: the directory of the
/// session and that of its checkpoints are made, then the record is
/// written.
pub open spec fn session_ops(config: ConfigModel, path: Seq<char>, record: SessionRecordModel) -> Seq<
    FileOpModel,
> {
    seq![
        FileOpModel::CreateDir(config.session_path()),
        FileOpModel::CreateDir(config.checkpoints_path()),
        FileOpModel::WriteRecord { path, record },
    ]
}

fn ops_of_session(config: &Config, path: String, record: SessionRecord) -> (r: Vec<FileOp>)
    ensures
        r.deep_view() == session_ops(config.deep_view(), path@, record.deep_view()),
{
    let mut ops: Vec<FileOp> = Vec::new();
    ops.push(FileOp::CreateDir(config.session_path()));
    ops.push(FileOp::CreateDir(config.checkpoints_path()));
    ops.push(FileOp::WriteRecord { path, record });
    assert(ops.deep_view() =~= session_ops(config.deep_view(), path@, record.deep_view()));
    ops
}

/// What updating the bootstrap comes to: the progress, the completed
/// batch, the next options and the loaded doors that the arguments name
/// are to be written to the session's bootstrap file, with the session's
/// identity and the time.
pub open spec fn update_bootstrap_step(config: ConfigModel, args: Option<JsonModel>, timestamp: Seq<
    char,
>) -> ToolStepModel {
    ToolStepModel::Perform {
        ops: session_ops(
            config,
            config.bootstrap_path(),
            SessionRecordModel::Bootstrap {
                agent_id: config.agent_id,
                session_id: config.session_id,
                updated_at: timestamp,
                progress: text_field_or_empty(args, "progress"@),
                batch_completed: text_field_or_empty(args, "batch_completed"@),
                next_options: text_list_field(args, "next_options"@),
                doors_loaded: text_list_field(args, "doors_loaded"@),
            },
        ),
        stage: StageModel::Session {
            done: "Bootstrap updated successfully at: "@ + config.bootstrap_path(),
            failed: "Failed to write bootstrap: "@,
        },
    }
}

pub fn tool_update_bootstrap(config: &Config, arguments: &Option<JsonValue>, timestamp: &str) -> (r:
    ToolStep)
    ensures
        r.deep_view() == update_bootstrap_step(
            config.deep_view(),
            arguments.deep_view(),
            timestamp@,
        ),
{
    let record = SessionRecord::Bootstrap {
        agent_id: config.agent_id.clone(),
        session_id: config.session_id.clone(),
        updated_at: owned(timestamp),
        progress: text_arg_or_empty(arguments, "progress"),
        batch_completed: text_arg_or_empty(arguments, "batch_completed"),
        next_options: text_list_arg(arguments, "next_options"),
        doors_loaded: text_list_arg(arguments, "doors_loaded"),
    };
    let path = config.bootstrap_path();
    let mut done = owned("Bootstrap updated successfully at: ");
    done.append(path.as_str());
    ToolStep::Perform {
        ops: ops_of_session(config, path, record),
        stage: Stage::Session { done, failed: owned("Failed to write bootstrap: ") },
    }
}

/// The file of a checkpoint: named by the sanitized name, in the
/// directory of the session's checkpoints.
pub open spec fn checkpoint_path(config: ConfigModel, name: Seq<char>) -> Seq<char> {
    path_join(config.checkpoints_path(), sanitized(name) + ".json"@)
}

/// What making a checkpoint comes to: the loaded doors and the notes that
/// the arguments name are to be written, under the name that the argument
/// `checkpoint_name` gives, with the session's identity and the time.
pub open spec fn session_checkpoint_step(config: ConfigModel, args: Option<JsonModel>, timestamp: Seq<
    char,
>) -> ToolStepModel {
    let name = text_field_or_empty(args, "checkpoint_name"@);
    if name.len() == 0 {
        ToolStepModel::Done(error_result("Missing required parameter: checkpoint_name"@))
    } else {
        ToolStepModel::Perform {
            ops: session_ops(
                config,
                checkpoint_path(config, name),
                SessionRecordModel::Checkpoint {
                    name,
                    created_at: timestamp,
                    agent_id: config.agent_id,
                    session_id: config.session_id,
                    doors_loaded: text_list_field(args, "doors_loaded"@),
                    notes: text_field_or_empty(args, "notes"@),
                },
            ),
            stage: StageModel::Session {
                done: "Checkpoint '"@ + name + "' created at: "@ + checkpoint_path(config, name),
                failed: "Failed to create checkpoint: "@,
            },
        }
    }
}

pub fn tool_session_checkpoint(config: &Config, arguments: &Option<JsonValue>, timestamp: &str) -> (r:
    ToolStep)
    ensures
        r.deep_view() == session_checkpoint_step(
            config.deep_view(),
            arguments.deep_view(),
            timestamp@,
        ),
{
    let name = text_arg_or_empty(arguments, "checkpoint_name");
    if name.as_str().unicode_len() == 0 {
        return ToolStep::Done(
            ToolCallResult::error(owned("Missing required parameter: checkpoint_name")),
        );
    }
    let mut file = sanitize_id(name.as_str());
    file.append(".json");
    let path = join_path(config.checkpoints_path().as_str(), file.as_str());
    let mut done = owned("Checkpoint '");
    done.append(name.as_str());
    done.append("' created at: ");
    done.append(path.as_str());
    let record = SessionRecord::Checkpoint {
        name,
        created_at: owned(timestamp),
        agent_id: config.agent_id.clone(),
        session_id: config.session_id.clone(),
        doors_loaded: text_list_arg(arguments, "doors_loaded"),
        notes: text_arg_or_empty(arguments, "notes"),
    };
    ToolStep::Perform {
        ops: ops_of_session(config, path, record),
        stage: Stage::Session { done, failed: owned("Failed to create checkpoint: ") },
    }
}


// ---------------------------------------------------------------------------
// Making doors
// ---------------------------------------------------------------------------

/// The parameters of a door that a JSON value gives: every text that is
/// missing is empty, and so is every list.
pub open spec fn params_from(value: JsonModel) -> ParamsModel {
    ParamsModel {
        door_code: text_field_or_empty(Some(value), "door_code"@),
        category: text_field_or_empty(Some(value), "category"@),
        semantic_path: text_field_or_empty(Some(value), "semantic_path"@),
        summary: text_field_or_empty(Some(value), "summary"@),
        aliases: text_list_field(Some(value), "aliases"@),
        prerequisites: text_list_field(Some(value), "prerequisites"@),
        related_doors: text_list_field(Some(value), "related_doors"@),
        quick_start: text_field_or_empty(Some(value), "quick_start"@),
        common_patterns: text_list_field(Some(value), "common_patterns"@),
        known_errors: text_list_field(Some(value), "known_errors"@),
        tags: text_list_field(Some(value), "tags"@),
        agent_affinity: text_list_field(Some(value), "agent_affinity"@),
    }
}

/// The parameters of a door that a JSON value gives.
pub fn params_of(value: &JsonValue) -> (r: CreateDoorParams)
    ensures
        r.deep_view() == params_from(value.deep_view()),
{
    CreateDoorParams {
        door_code: text_member_or_empty(value, "door_code"),
        category: text_member_or_empty(value, "category"),
        semantic_path: text_member_or_empty(value, "semantic_path"),
        summary: text_member_or_empty(value, "summary"),
        aliases: text_list_member(value, "aliases"),
        prerequisites: text_list_member(value, "prerequisites"),
        related_doors: text_list_member(value, "related_doors"),
        quick_start: text_member_or_empty(value, "quick_start"),
        common_patterns: text_list_member(value, "common_patterns"),
        known_errors: text_list_member(value, "known_errors"),
        tags: text_list_member(value, "tags"),
        agent_affinity: text_list_member(value, "agent_affinity"),
    }
}

/// How the making of a door is shown.
pub open spec fn created_text(result: CreateResultModel) -> Seq<char> {
    "# Door Created\n\n- **Code:** "@ + result.door_code + "\n- **File:** "@ + result.file_path
        + "\n- **Validated:** "@ + (if result.validated {
        "true"@
    } else {
        "false"@
    })
}

fn show_created(result: &CreateResult) -> (r: String)
    ensures
        r@ == created_text(result.deep_view()),
{
    let mut out = owned("# Door Created\n\n- **Code:** ");
    out.append(result.door_code.as_str());
    out.append("\n- **File:** ");
    out.append(result.file_path.as_str());
    out.append("\n- **Validated:** ");
    out.append(
        if result.validated {
            "true"
        } else {
            "false"
        },
    );
    out
}

/// What making a door comes to: a failure where there are no arguments,
/// where the code, the category or the summary is missing, or where the
/// door cannot be made; or else the door to be written.
pub open spec fn create_door_step(
    m: LoaderModel,
    c: CorpusModel,
    now: u64,
    timestamp: Seq<char>,
    args: Option<JsonModel>,
) -> ToolStepModel {
    match args {
        None => ToolStepModel::Done(error_result("Missing arguments"@)),
        Some(value) => {
            let p = params_from(value);
            if p.door_code.len() == 0 || p.category.len() == 0 || p.summary.len() == 0 {
                ToolStepModel::Done(
                    error_result("Missing required fields: door_code, category, summary"@),
                )
            } else {
                match creation_of(m, c, now, p, timestamp) {
                    Ok(plan) => ToolStepModel::Perform {
                        ops: plan.ops,
                        stage: StageModel::Door(plan.result),
                    },
                    Err(e) => ToolStepModel::Done(failure("Create failed: "@, e)),
                }
            }
        },
    }
}

pub fn tool_create_door(
    manager: &mut DoorManager,
    arguments: &Option<JsonValue>,
    corpus: &Corpus,
    now: u64,
    timestamp: &str,
) -> (r: ToolStep)
    ensures
        r.deep_view() == create_door_step(
            old(manager).deep_view().loader,
            corpus.deep_view(),
            now,
            timestamp@,
            arguments.deep_view(),
        ),
        same_answers(
            final(manager).deep_view().loader,
            old(manager).deep_view().loader,
            corpus.deep_view(),
            now,
        ),
        old(manager).deep_view().loader.settled() ==> final(manager).deep_view().loader.settled(),
        final(manager).deep_view().config == old(manager).deep_view().config,
{
    let value = match arguments {
        Some(value) => value,
        None => {
            return ToolStep::Done(ToolCallResult::error(owned("Missing arguments")));
        },
    };
    let params = params_of(value);
    if params.door_code.as_str().unicode_len() == 0 || params.category.as_str().unicode_len() == 0
        || params.summary.as_str().unicode_len() == 0 {
        return ToolStep::Done(
            ToolCallResult::error(owned("Missing required fields: door_code, category, summary")),
        );
    }
    match manager.create_door(&params, corpus, now, timestamp) {
        Ok(plan) => ToolStep::Perform { ops: plan.ops, stage: Stage::Door(plan.result) },
        Err(e) => ToolStep::Done(fail("Create failed: ", &e)),
    }
}

/// The parameters of the doors that the items of a list give.
pub open spec fn params_all(items: Seq<JsonModel>) -> Seq<ParamsModel> {
    Seq::new(items.len(), |i: int| params_from(items[i]))
}

#[verifier::loop_isolation(false)]
fn all_params(items: &Vec<JsonValue>) -> (r: Vec<CreateDoorParams>)
    ensures
        r.deep_view() == params_all(items.deep_view()),
{
    let mut out: Vec<CreateDoorParams> = Vec::new();
    let mut i: usize = 0;
    while i < items.len()
        invariant
            i <= items.len(),
            out@.len() == i,
            forall|j: int| 0 <= j < i ==> out@[j].deep_view() == params_from(items@[j].deep_view()),
        decreases items.len() - i,
    {
        out.push(params_of(&items[i]));
        i += 1;
    }
    assert(out.deep_view() =~= params_all(items.deep_view()));
    out
}

/// How the making of a batch is shown.
pub open spec fn batch_text(result: BatchResultModel) -> Seq<char> {
    "# Batch Create Result\n\n**Success:** "@ + yes_no(result.success) + "\n**Created:** "@
        + decimal_of(result.created.len()) + "\n"@ + section(
        result.created.len() > 0,
        "\n## Created Doors\n"@ + joined(result.created, ", "@) + "\n"@,
    ) + listed("\n## Errors\n"@, result.errors) + section(
        result.indexes_updated,
        "\n**Total Doors After:** "@ + decimal_of(result.total_doors as nat) + "\n"@,
    )
}

fn show_batch(result: &BatchCreateResult) -> (r: String)
    ensures
        r@ == batch_text(result.deep_view()),
{
    let mut out = owned("# Batch Create Result\n\n**Success:** ");
    out.append(yes_or_no(result.success));
    out.append("\n**Created:** ");
    out.append(decimal(result.created.len() as u64).as_str());
    out.append("\n");
    out.append(
        labelled(
            result.created.len() > 0,
            "\n## Created Doors\n",
            join(&result.created, ", ").as_str(),
            "\n",
        ).as_str(),
    );
    out.append(listed_text("\n## Errors\n", &result.errors).as_str());
    out.append(
        labelled(
            result.indexes_updated,
            "\n**Total Doors After:** ",
            decimal(result.total_doors as u64).as_str(),
            "\n",
        ).as_str(),
    );
    out
}

/// What making a batch comes to: a failure where there are no arguments or
/// no list of doors; how the batch failed where it is rejected; or else
/// the doors to be written. The batch is validated and the index is
/// rebuilt afterwards unless the arguments say otherwise.
pub open spec fn batch_create_step(
    m: LoaderModel,
    c: CorpusModel,
    now: u64,
    timestamp: Seq<char>,
    args: Option<JsonModel>,
) -> ToolStepModel {
    if args is None {
        ToolStepModel::Done(error_result("Missing arguments"@))
    } else {
        match field(args, "doors"@) {
            Some(JsonModel::Array(items)) => match batch_of(
                m,
                c,
                now,
                params_all(items),
                bool_field_or(args, "validate"@, true),
                timestamp,
            ) {
                BatchPlanModel::Rejected(result) => ToolStepModel::Done(
                    text_result(batch_text(result)),
                ),
                BatchPlanModel::Write { ops, codes, paths } => ToolStepModel::Perform {
                    ops,
                    stage: StageModel::Batch {
                        codes,
                        paths,
                        update_indexes: bool_field_or(args, "update_indexes"@, true),
                    },
                },
            },
            _ => ToolStepModel::Done(error_result("Missing doors array"@)),
        }
    }
}

pub fn tool_batch_create(
    manager: &mut DoorManager,
    arguments: &Option<JsonValue>,
    corpus: &Corpus,
    now: u64,
    timestamp: &str,
) -> (r: ToolStep)
    ensures
        r.deep_view() == batch_create_step(
            old(manager).deep_view().loader,
            corpus.deep_view(),
            now,
            timestamp@,
            arguments.deep_view(),
        ),
        same_answers(
            final(manager).deep_view().loader,
            old(manager).deep_view().loader,
            corpus.deep_view(),
            now,
        ),
        old(manager).deep_view().loader.settled() ==> final(manager).deep_view().loader.settled(),
        final(manager).deep_view().config == old(manager).deep_view().config,
{
    if arguments.is_none() {
        return ToolStep::Done(ToolCallResult::error(owned("Missing arguments")));
    }
    let items = match field_of(arguments, "doors") {
        Some(value) => match value.as_array() {
            Some(items) => items,
            None => {
                return ToolStep::Done(ToolCallResult::error(owned("Missing doors array")));
            },
        },
        None => {
            return ToolStep::Done(ToolCallResult::error(owned("Missing doors array")));
        },
    };
    let validate = bool_arg_or(arguments, "validate", true);
    let update_indexes = bool_arg_or(arguments, "update_indexes", true);
    let doors = all_params(items);
    match manager.batch_create(&doors, validate, corpus, now, timestamp) {
        BatchPlan::Rejected(result) => ToolStep::Done(ToolCallResult::text(show_batch(&result))),
        BatchPlan::Write { ops, codes, paths } => ToolStep::Perform {
            ops,
            stage: Stage::Batch { codes, paths, update_indexes },
        },
    }
}

// ---------------------------------------------------------------------------
// Rebuilding the index
// ---------------------------------------------------------------------------

/// How the rebuilding of the index is shown.
pub open spec fn rebuilt_text(result: RebuildResultModel) -> Seq<char> {
    "# Index Rebuild Complete\n\n- Doors indexed: "@ + decimal_of(result.doors_indexed as nat)
        + "\n- Hash table: "@ + result.hash_table_path
}

fn show_rebuilt(result: &RebuildResult) -> (r: String)
    ensures
        r@ == rebuilt_text(result.deep_view()),
{
    let mut out = owned("# Index Rebuild Complete\n\n- Doors indexed: ");
    out.append(decimal(result.doors_indexed as u64).as_str());
    out.append("\n- Hash table: ");
    out.append(result.hash_table_path.as_str());
    out
}

/// What rebuilding the index comes to: the scanned index to be written,
/// or why the documents directory cannot be scanned.
pub open spec fn rebuild_indexes_step(config: ConfigModel, c: CorpusModel) -> ToolStepModel {
    match rebuild_of(config, c) {
        Ok(plan) => ToolStepModel::Perform { ops: plan.ops, stage: StageModel::Rebuild(plan.result) },
        Err(e) => ToolStepModel::Done(failure("Index rebuild failed: "@, e)),
    }
}

pub fn tool_rebuild_indexes(manager: &DoorManager, corpus: &Corpus) -> (r: ToolStep)
    ensures
        r.deep_view() == rebuild_indexes_step(
            manager.deep_view().loader.config,
            corpus.deep_view(),
        ),
{
    match manager.rebuild_indexes(corpus) {
        Ok(plan) => ToolStep::Perform { ops: plan.ops, stage: Stage::Rebuild(plan.result) },
        Err(e) => ToolStep::Done(fail("Index rebuild failed: ", &e)),
    }
}


// ---------------------------------------------------------------------------
// Going on after the files were changed
// ---------------------------------------------------------------------------

/// Whether the manager drops its caches when an operation goes on after
/// changes were made.
pub open spec fn drops_caches(stage: StageModel, outcome: OutcomeModel) -> bool {
    match stage {
        StageModel::Session { .. } => false,
        StageModel::Rebuild(_) => outcome.failure is None,
        StageModel::Door(_) => outcome.failure is None,
        StageModel::DoorIndex(_) => outcome.failure is None,
        StageModel::Batch { codes, paths, update_indexes } => batch_progress(
            codes,
            paths,
            outcome,
            update_indexes,
        ).rebuild,
        StageModel::BatchUndo(_) => false,
        StageModel::BatchIndex { .. } => outcome.failure is None,
    }
}

/// The index to be written after doors were, and the stage to wait in
/// meanwhile; or what to say at once where the documents directory cannot
/// be scanned, which is no failure of the operation.
pub open spec fn then_index(
    config: ConfigModel,
    c: CorpusModel,
    waiting: spec_fn(usize) -> StageModel,
    otherwise: Seq<char>,
) -> ToolStepModel {
    match rebuild_of(config, c) {
        Ok(plan) => ToolStepModel::Perform {
            ops: plan.ops,
            stage: waiting(plan.result.doors_indexed),
        },
        Err(_) => ToolStepModel::Done(text_result(otherwise)),
    }
}

/// What an operation comes to once the changes it waited for were made, or
/// not, with the files as they are now.
///
/// A session record: what was to be said, or the failure; a failure of one
/// of the two directories is said to be one of the session directory. The
/// index on its own: that it was rebuilt, or the failure. A new door: the
/// failure, or else the index is to be written next, and the door is made
/// whether or not that works. A batch: where a change failed, the doors
/// written before are to be removed again and the batch has failed; or
/// else the index is to be written next where that is wanted, and the
/// batch has succeeded whether or not that works.
pub open spec fn resumed_step(config: ConfigModel, stage: StageModel, outcome: OutcomeModel, c: CorpusModel) -> ToolStepModel {
    match stage {
        StageModel::Session { done, failed } => match outcome.failure {
            None => ToolStepModel::Done(text_result(done)),
            Some(e) => ToolStepModel::Done(
                error_result(
                    (if outcome.completed < 2 {
                        "Failed to create session directory: "@
                    } else {
                        failed
                    }) + e,
                ),
            ),
        },
        StageModel::Rebuild(result) => match outcome.failure {
            None => ToolStepModel::Done(text_result(rebuilt_text(result))),
            Some(e) => ToolStepModel::Done(
                failure("Index rebuild failed: "@, ErrorModel::IoError(e)),
            ),
        },
        StageModel::Door(result) => match outcome.failure {
            None => then_index(
                config,
                c,
                |n: usize| StageModel::DoorIndex(result),
                created_text(result),
            ),
            Some(e) => ToolStepModel::Done(failure("Create failed: "@, ErrorModel::IoError(e))),
        },
        StageModel::DoorIndex(result) => ToolStepModel::Done(text_result(created_text(result))),
        StageModel::Batch { codes, paths, update_indexes } => {
            let progress = batch_progress(codes, paths, outcome, update_indexes);
            if progress.undo.len() > 0 {
                ToolStepModel::Perform {
                    ops: progress.undo,
                    stage: StageModel::BatchUndo(progress.result),
                }
            } else if progress.rebuild {
                then_index(
                    config,
                    c,
                    |n: usize| StageModel::BatchIndex { result: progress.result, doors_indexed: n },
                    batch_text(progress.result),
                )
            } else {
                ToolStepModel::Done(text_result(batch_text(progress.result)))
            }
        },
        StageModel::BatchUndo(result) => ToolStepModel::Done(text_result(batch_text(result))),
        StageModel::BatchIndex { result, doors_indexed } => match outcome.failure {
            None => ToolStepModel::Done(
                text_result(
                    batch_text(
                        BatchResultModel {
                            indexes_updated: true,
                            total_doors: doors_indexed,
                            ..result
                        },
                    ),
                ),
            ),
            Some(_) => ToolStepModel::Done(text_result(batch_text(result))),
        },
    }
}

/// Goes on with an operation after the changes it waited for were made, or
/// not; `corpus` is the files as they are now.
pub fn resume_tool(manager: &mut DoorManager, stage: Stage, outcome: &Outcome, corpus: &Corpus) -> (r:
    ToolStep)
    ensures
        r.deep_view() == resumed_step(
            old(manager).deep_view().loader.config,
            stage.deep_view(),
            outcome.deep_view(),
            corpus.deep_view(),
        ),
        final(manager).deep_view().config == old(manager).deep_view().config,
        final(manager).deep_view().loader == (if drops_caches(
            stage.deep_view(),
            outcome.deep_view(),
        ) {
            cleared(old(manager).deep_view().loader)
        } else {
            old(manager).deep_view().loader
        }),
        old(manager).deep_view().loader.settled() ==> final(manager).deep_view().loader.settled(),
{
    match stage {
        Stage::Session { done, failed } => match &outcome.failure {
            None => ToolStep::Done(ToolCallResult::text(done)),
            Some(e) => {
                let mut message = if outcome.completed < 2 {
                    owned("Failed to create session directory: ")
                } else {
                    failed
                };
                message.append(e.as_str());
                ToolStep::Done(ToolCallResult::error(message))
            },
        },
        Stage::Rebuild(result) => match manager.index_written(result, outcome) {
            Ok(result) => ToolStep::Done(ToolCallResult::text(show_rebuilt(&result))),
            Err(e) => ToolStep::Done(fail("Index rebuild failed: ", &e)),
        },
        Stage::Door(result) => match manager.door_written(result, outcome) {
            Ok(result) => match manager.rebuild_indexes(corpus) {
                Ok(plan) => ToolStep::Perform { ops: plan.ops, stage: Stage::DoorIndex(result) },
                Err(_) => ToolStep::Done(ToolCallResult::text(show_created(&result))),
            },
            Err(e) => ToolStep::Done(fail("Create failed: ", &e)),
        },
        Stage::DoorIndex(result) => {
            if outcome.failure.is_none() {
                manager.clear_cache();
            }
            ToolStep::Done(ToolCallResult::text(show_created(&result)))
        },
        Stage::Batch { codes, paths, update_indexes } => {
            let progress = manager.batch_written(codes, &paths, outcome, update_indexes);
            if progress.undo.len() > 0 {
                ToolStep::Perform { ops: progress.undo, stage: Stage::BatchUndo(progress.result) }
            } else if progress.rebuild {
                match manager.rebuild_indexes(corpus) {
                    Ok(plan) => ToolStep::Perform {
                        ops: plan.ops,
                        stage: Stage::BatchIndex {
                            result: progress.result,
                            doors_indexed: plan.result.doors_indexed,
                        },
                    },
                    Err(_) => ToolStep::Done(ToolCallResult::text(show_batch(&progress.result))),
                }
            } else {
                ToolStep::Done(ToolCallResult::text(show_batch(&progress.result)))
            }
        },
        Stage::BatchUndo(result) => ToolStep::Done(ToolCallResult::text(show_batch(&result))),
        Stage::BatchIndex { result, doors_indexed } => {
            if outcome.failure.is_none() {
                manager.clear_cache();
                let result = batch_indexed(result, doors_indexed);
                ToolStep::Done(ToolCallResult::text(show_batch(&result)))
            } else {
                ToolStep::Done(ToolCallResult::text(show_batch(&result)))
            }
        },
    }
}

// ---------------------------------------------------------------------------
// From a name to an operation
// ---------------------------------------------------------------------------

/// What calling an operation by its name comes to; a failure where no
/// operation has the name.
pub open spec fn tool_step(
    m: LoaderModel,
    config: ConfigModel,
    name: Seq<char>,
    args: Option<JsonModel>,
    c: CorpusModel,
    now: u64,
    timestamp: Seq<char>,
) -> ToolStepModel {
    if name == "phishri_read_door"@ {
        ToolStepModel::Done(read_door_result(m, c, now, args))
    } else if name == "phishri_list_doors"@ {
        ToolStepModel::Done(list_doors_result(m, c, now, args))
    } else if name == "phishri_find_door"@ {
        ToolStepModel::Done(find_door_result(m, c, now, args))
    } else if name == "phishri_load_chain"@ {
        ToolStepModel::Done(load_chain_result(m, c, now, args))
    } else if name == "phishri_create_door"@ {
        create_door_step(m, c, now, timestamp, args)
    } else if name == "phishri_validate_door"@ {
        ToolStepModel::Done(validate_door_result(m, c, now, args))
    } else if name == "phishri_batch_create"@ {
        batch_create_step(m, c, now, timestamp, args)
    } else if name == "phishri_get_bootstrap"@ {
        ToolStepModel::Done(get_bootstrap_result(config, c))
    } else if name == "phishri_update_bootstrap"@ {
        update_bootstrap_step(config, args, timestamp)
    } else if name == "phishri_session_checkpoint"@ {
        session_checkpoint_step(config, args, timestamp)
    } else if name == "phishri_search_semantic"@ {
        ToolStepModel::Done(search_semantic_result(m, c, now, args))
    } else if name == "phishri_get_prerequisites"@ {
        ToolStepModel::Done(get_prerequisites_result(m, c, now, args))
    } else if name == "phishri_rebuild_indexes"@ {
        rebuild_indexes_step(m.config, c)
    } else if name == "phishri_audit"@ {
        ToolStepModel::Done(audit_result(m, c, now, args))
    } else if name == "phishri_stats"@ {
        ToolStepModel::Done(stats_result(m, c, now, args))
    } else {
        ToolStepModel::Done(error_result("Unknown tool: "@ + name))
    }
}

/// Calls an operation by its name.
pub fn dispatch_tool(
    manager: &mut DoorManager,
    config: &Config,
    name: &str,
    arguments: &Option<JsonValue>,
    corpus: &Corpus,
    now: u64,
    timestamp: &str,
) -> (r: ToolStep)
    ensures
        r.deep_view() == tool_step(
            old(manager).deep_view().loader,
            config.deep_view(),
            name@,
            arguments.deep_view(),
            corpus.deep_view(),
            now,
            timestamp@,
        ),
        same_answers(
            final(manager).deep_view().loader,
            old(manager).deep_view().loader,
            corpus.deep_view(),
            now,
        ),
        old(manager).deep_view().loader.settled() ==> final(manager).deep_view().loader.settled(),
        final(manager).deep_view().config == old(manager).deep_view().config,
{
    if same(name, "phishri_read_door") {
        ToolStep::Done(tool_read_door(manager, arguments, corpus, now))
    } else if same(name, "phishri_list_doors") {
        ToolStep::Done(tool_list_doors(manager, arguments, corpus, now))
    } else if same(name, "phishri_find_door") {
        ToolStep::Done(tool_find_door(manager, arguments, corpus, now))
    } else if same(name, "phishri_load_chain") {
        ToolStep::Done(tool_load_chain(manager, arguments, corpus, now))
    } else if same(name, "phishri_create_door") {
        tool_create_door(manager, arguments, corpus, now, timestamp)
    } else if same(name, "phishri_validate_door") {
        ToolStep::Done(tool_validate_door(manager, arguments, corpus, now))
    } else if same(name, "phishri_batch_create") {
        tool_batch_create(manager, arguments, corpus, now, timestamp)
    } else if same(name, "phishri_get_bootstrap") {
        ToolStep::Done(tool_get_bootstrap(config, corpus))
    } else if same(name, "phishri_update_bootstrap") {
        tool_update_bootstrap(config, arguments, timestamp)
    } else if same(name, "phishri_session_checkpoint") {
        tool_session_checkpoint(config, arguments, timestamp)
    } else if same(name, "phishri_search_semantic") {
        ToolStep::Done(tool_search_semantic(manager, arguments, corpus, now))
    } else if same(name, "phishri_get_prerequisites") {
        ToolStep::Done(tool_get_prerequisites(manager, arguments, corpus, now))
    } else if same(name, "phishri_rebuild_indexes") {
        tool_rebuild_indexes(manager, corpus)
    } else if same(name, "phishri_audit") {
        ToolStep::Done(tool_audit(manager, arguments, corpus, now))
    } else if same(name, "phishri_stats") {
        ToolStep::Done(tool_stats(manager, arguments, corpus, now))
    } else {
        let mut message = owned("Unknown tool: ");
        message.append(name);
        ToolStep::Done(ToolCallResult::error(message))
    }
}

} // verus!
