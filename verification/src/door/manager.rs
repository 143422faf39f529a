//! The knowledge manager: what can be asked of the doors as a whole.
use vstd::prelude::*;
use vstd::string::*;
use crate::config::{Config, ConfigModel};
use crate::door::loader::{
    after_load, cache_position, cache_position_bounds, cached, index_keeps_answers, index_of, index_targets,
    listing_of, load_keeps_answers, loaded, located, normalized, same_answers, CachedModel,
    DoorLoader, LoaderModel,
};
use crate::door::creation::{
    batch_of, batch_progress, batch_written, cleared, creation_of, door_written, index_written,
    plan_batch, plan_door, plan_rebuild, rebuild_of, BatchPlan, BatchProgress, CreateDoorParams,
    CreatePlan, CreatePlanModel, CreateResult, RebuildPlan, RebuildPlanModel, RebuildResult,
};
use crate::door::review::{
    audit, audit_of, stats, stats_of, validate, validation_of, AuditResult, StatsResult,
    ValidationResult,
};
use crate::door::schema::{full_text_of, Door, DoorModel};
use crate::door::store::{
    file_from, result_model, Corpus, CorpusModel, DoorFileModel, ErrorModel, FileContentModel,
    IndexFile, LoaderError, Outcome,
};
use crate::text::{
    chars_of, copy_texts, decimal, decimal_of, first_line, first_line_of, holds, owned,
    text_of_range, to_uppercase, uppercase_of,
};

verus! {

// ---------------------------------------------------------------------------
// A door in a list
// ---------------------------------------------------------------------------

/// A door as a list shows it.
#[derive(Debug)]
pub struct DoorListItem {
    pub short_code: String,
    pub full_code: String,
    pub summary: String,
}

pub struct ListItemModel {
    pub short_code: Seq<char>,
    pub full_code: Seq<char>,
    pub summary: Seq<char>,
}

impl DeepView for DoorListItem {
    type V = ListItemModel;

    open spec fn deep_view(&self) -> ListItemModel {
        ListItemModel {
            short_code: self.short_code@,
            full_code: self.full_code@,
            summary: self.summary@,
        }
    }
}

impl Clone for DoorListItem {
    fn clone(&self) -> (r: Self)
        ensures
            r.deep_view() == self.deep_view(),
    {
        DoorListItem {
            short_code: self.short_code.clone(),
            full_code: self.full_code.clone(),
            summary: self.summary.clone(),
        }
    }
}

/// The number of bytes that a character takes in UTF-8.
pub open spec fn utf8_width(c: char) -> nat {
    if (c as u32) < 0x80 {
        1
    } else if (c as u32) < 0x800 {
        2
    } else if (c as u32) < 0x10000 {
        3
    } else {
        4
    }
}

/// The number of bytes that a text takes in UTF-8.
pub open spec fn utf8_len(s: Seq<char>) -> nat
    decreases s.len(),
{
    if s.len() == 0 {
        0
    } else {
        utf8_len(s.drop_last()) + utf8_width(s.last())
    }
}

/// The number of characters at the start of `s`, beginning with the first
/// `taken`, that together take at most `limit` bytes; `bytes` is what the
/// first `taken` take.
pub open spec fn fitting_chars(s: Seq<char>, limit: nat, taken: int, bytes: nat) -> int
    decreases s.len() - taken,
{
    if taken < 0 || taken >= s.len() || bytes + utf8_width(s[taken]) > limit {
        taken
    } else {
        fitting_chars(s, limit, taken + 1, bytes + utf8_width(s[taken]))
    }
}

/// The longest beginning of a text that takes at most `limit` bytes.
pub open spec fn fitting_prefix(s: Seq<char>, limit: nat) -> Seq<char> {
    s.take(fitting_chars(s, limit, 0, 0))
}

/// The longest summary that a line shows in full, in bytes.
pub const LINE_SUMMARY_BYTES: usize = 60;

/// The bytes of a longer summary that a line shows before the ellipsis.
pub const LINE_SUMMARY_KEPT: usize = 57;

/// A summary as a line shows it: in full where it takes at most 60 bytes;
/// or else the longest beginning that takes at most 57 bytes, and `...`.
pub open spec fn shortened(summary: Seq<char>) -> Seq<char> {
    if utf8_len(summary) > LINE_SUMMARY_BYTES {
        fitting_prefix(summary, LINE_SUMMARY_KEPT as nat) + "..."@
    } else {
        summary
    }
}

/// The line of a door in a list: short code and summary; short code and
/// full code where the door has no summary.
pub open spec fn line_of(item: ListItemModel) -> Seq<char> {
    if item.summary.len() == 0 {
        item.short_code + " ("@ + item.full_code + ")"@
    } else {
        item.short_code + ": "@ + shortened(item.summary)
    }
}

fn width(c: char) -> (r: usize)
    ensures
        r == utf8_width(c),
{
    let v: u32 = c as u32;
    if v < 0x80 {
        1
    } else if v < 0x800 {
        2
    } else if v < 0x10000 {
        3
    } else {
        4
    }
}

/// Whether a text takes more than `limit` bytes.
#[verifier::loop_isolation(false)]
fn takes_more_than(chars: &Vec<char>, limit: usize) -> (r: bool)
    requires
        limit < usize::MAX - 4,
    ensures
        r == (utf8_len(chars@) > limit),
{
    let mut bytes: usize = 0;
    let mut i: usize = 0;
    assert(chars@.take(0) =~= Seq::empty());
    while i < chars.len()
        invariant
            i <= chars.len(),
            bytes == utf8_len(chars@.take(i as int)),
            bytes <= limit,
        decreases chars.len() - i,
    {
        proof {
            let next = chars@.take(i + 1);
            assert(next.drop_last() == chars@.take(i as int));
            assert(next.last() == chars@[i as int]);
        }
        bytes = bytes + width(chars[i]);
        if bytes > limit {
            proof {
                utf8_len_grows(chars@, i + 1);
            }
            return true;
        }
        i += 1;
    }
    assert(chars@.take(chars.len() as int) == chars@);
    false
}

/// A text takes at least as many bytes as any of its beginnings.
pub proof fn utf8_len_grows(s: Seq<char>, n: int)
    requires
        0 <= n <= s.len(),
    ensures
        utf8_len(s.take(n)) <= utf8_len(s),
    decreases s.len(),
{
    if n < s.len() {
        assert(s.drop_last().take(n) == s.take(n));
        utf8_len_grows(s.drop_last(), n);
    } else {
        assert(s.take(n) == s);
    }
}

#[verifier::loop_isolation(false)]
fn fitting(chars: &Vec<char>, limit: usize) -> (r: usize)
    requires
        limit < usize::MAX - 4,
    ensures
        r == fitting_chars(chars@, limit as nat, 0, 0),
        r <= chars.len(),
{
    let mut bytes: usize = 0;
    let mut i: usize = 0;
    while i < chars.len() && bytes + width(chars[i]) <= limit
        invariant
            i <= chars.len(),
            bytes <= limit,
            fitting_chars(chars@, limit as nat, 0, 0) == fitting_chars(
                chars@,
                limit as nat,
                i as int,
                bytes as nat,
            ),
        decreases chars.len() - i,
    {
        bytes = bytes + width(chars[i]);
        i += 1;
    }
    i
}

impl DoorListItem {
    /// The line of the door in a list.
    pub fn to_line(&self) -> (r: String)
        ensures
            r@ == line_of(self.deep_view()),
    {
        let mut out = self.short_code.clone();
        if self.summary.as_str().unicode_len() == 0 {
            out.append(" (");
            out.append(self.full_code.as_str());
            out.append(")");
        } else {
            out.append(": ");
            let chars = chars_of(self.summary.as_str());
            if takes_more_than(&chars, LINE_SUMMARY_BYTES) {
                let kept = fitting(&chars, LINE_SUMMARY_KEPT);
                let mut head = text_of_range(&chars, 0, kept);
                head.append("...");
                out.append(head.as_str());
            } else {
                out.append(self.summary.as_str());
            }
        }
        out
    }
}

// ---------------------------------------------------------------------------
// A chain of doors
// ---------------------------------------------------------------------------

/// The doors of a chain in the order in which they are to be read.
#[derive(Debug)]
pub struct ChainResult {
    pub doors: Vec<Door>,
    pub order: Vec<String>,
    pub prerequisites_added: bool,
}

pub struct ChainModel {
    pub doors: Seq<DoorModel>,
    pub order: Seq<Seq<char>>,
    pub prerequisites_added: bool,
}

impl DeepView for ChainResult {
    type V = ChainModel;

    open spec fn deep_view(&self) -> ChainModel {
        ChainModel {
            doors: self.doors.deep_view(),
            order: self.order.deep_view(),
            prerequisites_added: self.prerequisites_added,
        }
    }
}

/// The items of a list, one per line, each after its number, counted from
/// one.
pub open spec fn numbered(items: Seq<Seq<char>>) -> Seq<char>
    decreases items.len(),
{
    if items.len() == 0 {
        Seq::empty()
    } else {
        numbered(items.drop_last()) + decimal_of(items.len()) + ". "@ + items.last() + "\n"@
    }
}

/// The full texts of the doors, each followed by a rule.
pub open spec fn door_texts(doors: Seq<DoorModel>) -> Seq<char>
    decreases doors.len(),
{
    if doors.len() == 0 {
        Seq::empty()
    } else {
        door_texts(doors.drop_last()) + full_text_of(doors.last()) + "\n---\n\n"@
    }
}

/// The text of a chain: how many doors it has, whether prerequisites were
/// added, the order, and the full text of every door.
pub open spec fn chain_text_of(chain: ChainModel) -> Seq<char> {
    "# Door Chain ("@ + decimal_of(chain.doors.len()) + " doors)\n\n"@ + (
    if chain.prerequisites_added {
        "*Prerequisites automatically included*\n\n"@
    } else {
        Seq::empty()
    }) + "## Load Order\n"@ + numbered(chain.order) + "\n"@ + "---\n\n"@ + door_texts(
        chain.doors,
    )
}

#[verifier::loop_isolation(false)]
fn numbered_text(items: &Vec<String>) -> (r: String)
    ensures
        r@ == numbered(items.deep_view()),
{
    let mut out = String::new();
    let ghost model = items.deep_view();
    let mut i: usize = 0;
    assert(model.take(0) =~= Seq::empty());
    while i < items.len()
        invariant
            i <= items.len(),
            out@ == numbered(model.take(i as int)),
        decreases items.len() - i,
    {
        proof {
            let next = model.take(i + 1);
            assert(next.drop_last() == model.take(i as int));
            assert(next.last() == items@[i as int]@);
        }
        out.append(decimal((i + 1) as u64).as_str());
        out.append(". ");
        out.append(items[i].as_str());
        out.append("\n");
        i += 1;
    }
    assert(model.take(items.len() as int) == model);
    out
}

#[verifier::loop_isolation(false)]
fn texts_of_doors(doors: &Vec<Door>) -> (r: String)
    ensures
        r@ == door_texts(doors.deep_view()),
{
    let mut out = String::new();
    let ghost model = doors.deep_view();
    let mut i: usize = 0;
    assert(model.take(0) =~= Seq::empty());
    while i < doors.len()
        invariant
            i <= doors.len(),
            out@ == door_texts(model.take(i as int)),
        decreases doors.len() - i,
    {
        proof {
            let next = model.take(i + 1);
            assert(next.drop_last() == model.take(i as int));
            assert(next.last() == doors@[i as int].deep_view());
        }
        out.append(doors[i].full_text().as_str());
        out.append("\n---\n\n");
        i += 1;
    }
    assert(model.take(doors.len() as int) == model);
    out
}

impl ChainResult {
    /// The text of the chain.
    pub fn to_text(&self) -> (r: String)
        ensures
            r@ == chain_text_of(self.deep_view()),
    {
        let mut out = owned("# Door Chain (");
        out.append(decimal(self.doors.len() as u64).as_str());
        out.append(" doors)\n\n");
        let note = if self.prerequisites_added {
            owned("*Prerequisites automatically included*\n\n")
        } else {
            String::new()
        };
        out.append(note.as_str());
        out.append("## Load Order\n");
        out.append(numbered_text(&self.order).as_str());
        out.append("\n");
        out.append("---\n\n");
        out.append(texts_of_doors(&self.doors).as_str());
        out
    }
}


// ---------------------------------------------------------------------------
// The manager
// ---------------------------------------------------------------------------

/// The knowledge manager: a store, and the configuration it was made with.
#[derive(Debug)]
pub struct DoorManager {
    loader: DoorLoader,
    config: Config,
}

pub struct ManagerModel {
    pub loader: LoaderModel,
    pub config: ConfigModel,
}

impl DeepView for DoorManager {
    type V = ManagerModel;

    closed spec fn deep_view(&self) -> ManagerModel {
        ManagerModel { loader: self.loader.deep_view(), config: self.config.deep_view() }
    }
}

/// A door as a list shows it: under its listed name and code, with the
/// first line of its summary, or with none where it cannot be loaded.
pub open spec fn list_item(m: LoaderModel, c: CorpusModel, now: u64, pair: (Seq<char>, Seq<char>)) -> ListItemModel {
    ListItemModel {
        short_code: pair.0,
        full_code: pair.1,
        summary: match loaded(m, c, now, pair.1) {
            Ok(door) => first_line_of(door.context_bundle.summary),
            Err(_) => Seq::empty(),
        },
    }
}

/// The doors of a listing as a list shows them.
pub open spec fn list_items(
    m: LoaderModel,
    c: CorpusModel,
    now: u64,
    pairs: Seq<(Seq<char>, Seq<char>)>,
) -> Seq<ListItemModel> {
    Seq::new(pairs.len(), |i: int| list_item(m, c, now, pairs[i]))
}

/// The doors of the index as a list shows them: those of a category where
/// one is named, ordered by listed name, at most `limit` of them.
pub open spec fn listed_doors(
    m: LoaderModel,
    c: CorpusModel,
    now: u64,
    category: Option<Seq<char>>,
    limit: int,
) -> Result<Seq<ListItemModel>, ErrorModel> {
    match index_of(m, c) {
        Ok(table) => Ok(list_items(m, c, now, listing_of(table, category, limit))),
        Err(e) => Err(e),
    }
}

/// The items of a vector last to first.
fn reversed<T>(items: Vec<T>) -> (r: Vec<T>)
    ensures
        r@ == items@.reverse(),
{
    let mut items = items;
    let ghost all = items@;
    let mut out: Vec<T> = Vec::new();
    while items.len() > 0
        invariant
            items@.len() + out@.len() == all.len(),
            items@ == all.take(items@.len() as int),
            forall|j: int| 0 <= j < out@.len() ==> out@[j] == all[all.len() - 1 - j],
        decreases items.len(),
    {
        let ghost before = items@;
        match items.pop() {
            Some(item) => {
                out.push(item);
            },
            None => {},
        }
    }
    assert(out@ =~= all.reverse());
    out
}

// ---------------------------------------------------------------------------
// What a walk over the doors can reach
// ---------------------------------------------------------------------------

/// The codes of a list in uppercase.
pub open spec fn upper_all(codes: Seq<Seq<char>>) -> Seq<Seq<char>> {
    Seq::new(codes.len(), |i: int| uppercase_of(codes[i]))
}

/// The prerequisites, in uppercase, of the doors that a cache holds.
pub open spec fn cache_prerequisites(cache: Seq<CachedModel>) -> Seq<Seq<char>>
    decreases cache.len(),
{
    if cache.len() == 0 {
        Seq::empty()
    } else {
        cache_prerequisites(cache.drop_last()) + upper_all(
            cache.last().door.context_bundle.prerequisites,
        )
    }
}

/// The prerequisites, in uppercase, of the doors that the files hold.
pub open spec fn file_prerequisites(files: Seq<DoorFileModel>) -> Seq<Seq<char>>
    decreases files.len(),
{
    if files.len() == 0 {
        Seq::empty()
    } else {
        match files.last().content {
            FileContentModel::Door(door) => file_prerequisites(files.drop_last()) + upper_all(
                door.context_bundle.prerequisites,
            ),
            _ => file_prerequisites(files.drop_last()),
        }
    }
}

/// Every code that a walk from `roots` can come to: the roots and the
/// prerequisites of every door that can be loaded, all in uppercase.
pub open spec fn universe(m: LoaderModel, c: CorpusModel, roots: Seq<Seq<char>>) -> Seq<Seq<char>> {
    upper_all(roots) + cache_prerequisites(m.cache) + file_prerequisites(c.files)
}

proof fn cache_prerequisites_hold(cache: Seq<CachedModel>, at: int, j: int)
    requires
        0 <= at < cache.len(),
        0 <= j < cache[at].door.context_bundle.prerequisites.len(),
    ensures
        cache_prerequisites(cache).contains(
            uppercase_of(cache[at].door.context_bundle.prerequisites[j]),
        ),
    decreases cache.len(),
{
    let wanted = uppercase_of(cache[at].door.context_bundle.prerequisites[j]);
    let head = cache_prerequisites(cache.drop_last());
    let tail = upper_all(cache.last().door.context_bundle.prerequisites);
    if at == cache.len() - 1 {
        assert(tail[j] == wanted);
        assert((head + tail)[head.len() + j] == wanted);
    } else {
        assert(cache.drop_last()[at] == cache[at]);
        cache_prerequisites_hold(cache.drop_last(), at, j);
        let k = choose|k: int| 0 <= k < head.len() && head[k] == wanted;
        assert((head + tail)[k] == wanted);
    }
}

proof fn file_prerequisites_hold(files: Seq<DoorFileModel>, at: int, door: DoorModel, j: int)
    requires
        0 <= at < files.len(),
        files[at].content == FileContentModel::Door(door),
        0 <= j < door.context_bundle.prerequisites.len(),
    ensures
        file_prerequisites(files).contains(uppercase_of(door.context_bundle.prerequisites[j])),
    decreases files.len(),
{
    let wanted = uppercase_of(door.context_bundle.prerequisites[j]);
    let head = file_prerequisites(files.drop_last());
    if at == files.len() - 1 {
        let tail = upper_all(door.context_bundle.prerequisites);
        assert(tail[j] == wanted);
        assert((head + tail)[head.len() + j] == wanted);
    } else {
        assert(files.drop_last()[at] == files[at]);
        file_prerequisites_hold(files.drop_last(), at, door, j);
        let k = choose|k: int| 0 <= k < head.len() && head[k] == wanted;
        match files.last().content {
            FileContentModel::Door(other) => {
                let tail = upper_all(other.context_bundle.prerequisites);
                assert((head + tail)[k] == wanted);
            },
            _ => {},
        }
    }
}

proof fn file_from_is_held(files: Seq<DoorFileModel>, path: Seq<char>, from: int)
    requires
        0 <= from <= files.len(),
        file_from(files, path, from) is Some,
    ensures
        exists|at: int| 0 <= at < files.len() && files[at].content == file_from(files, path, from)->0,
    decreases files.len() - from,
{
    if files[from].path != path {
        file_from_is_held(files, path, from + 1);
    }
}

/// The prerequisites of every door that can be loaded are in the universe,
/// whatever the roots.
pub proof fn prerequisites_are_in_universe(
    m: LoaderModel,
    c: CorpusModel,
    roots: Seq<Seq<char>>,
    now: u64,
    code: Seq<char>,
    j: int,
)
    requires
        loaded(m, c, now, code) is Ok,
        0 <= j < loaded(m, c, now, code)->Ok_0.context_bundle.prerequisites.len(),
    ensures
        universe(m, c, roots).contains(
            uppercase_of(loaded(m, c, now, code)->Ok_0.context_bundle.prerequisites[j]),
        ),
{
    let door = loaded(m, c, now, code)->Ok_0;
    let wanted = uppercase_of(door.context_bundle.prerequisites[j]);
    let key = normalized(code);
    let a = upper_all(roots);
    let b = cache_prerequisites(m.cache);
    let f = file_prerequisites(c.files);
    if cached(m, key, now) is Some {
        cache_position_bounds(m.cache, key, 0);
        cache_prerequisites_hold(m.cache, cache_position(m.cache, key, 0), j);
        let k = choose|k: int| 0 <= k < b.len() && b[k] == wanted;
        assert((a + b + f)[a.len() + k] == wanted);
    } else {
        let path = located(m, c, key)->Ok_0;
        file_from_is_held(c.files, path, 0);
        let at = choose|at: int|
            0 <= at < c.files.len() && c.files[at].content == file_from(c.files, path, 0)->0;
        file_prerequisites_hold(c.files, at, door, j);
        let k = choose|k: int| 0 <= k < f.len() && f[k] == wanted;
        assert((a + b + f)[a.len() + b.len() + k] == wanted);
    }
}

/// The roots are in the universe.
pub proof fn roots_are_in_universe(m: LoaderModel, c: CorpusModel, roots: Seq<Seq<char>>, j: int)
    requires
        0 <= j < roots.len(),
    ensures
        universe(m, c, roots).contains(uppercase_of(roots[j])),
{
    let a = upper_all(roots);
    assert(a[j] == uppercase_of(roots[j]));
    assert(universe(m, c, roots)[j] == uppercase_of(roots[j]));
}

/// How many places of the universe hold a code that is not yet seen.
pub open spec fn unseen(all: Seq<Seq<char>>, seen: Seq<Seq<char>>) -> nat
    decreases all.len(),
{
    if all.len() == 0 {
        0
    } else {
        unseen(all.drop_last(), seen) + (if seen.contains(all.last()) {
            0nat
        } else {
            1nat
        })
    }
}

/// Seeing one more code leaves no more places unseen, and fewer where the
/// code is new and in the universe.
pub proof fn unseen_shrinks(all: Seq<Seq<char>>, seen: Seq<Seq<char>>, code: Seq<char>)
    ensures
        unseen(all, seen.push(code)) <= unseen(all, seen),
        all.contains(code) && !seen.contains(code) ==> unseen(all, seen.push(code)) < unseen(
            all,
            seen,
        ),
    decreases all.len(),
{
    let more = seen.push(code);
    assert(more[seen.len() as int] == code);
    assert forall|x: Seq<char>| seen.contains(x) implies more.contains(x) by {
        let k = choose|k: int| 0 <= k < seen.len() && seen[k] == x;
        assert(more[k] == x);
    }
    if all.len() > 0 {
        unseen_shrinks(all.drop_last(), seen, code);
        if all.contains(code) && !seen.contains(code) {
            if all.last() == code {
            } else {
                let k = choose|k: int| 0 <= k < all.len() && all[k] == code;
                assert(all.drop_last()[k] == code);
            }
        }
    }
}


// ---------------------------------------------------------------------------
// Chains
// ---------------------------------------------------------------------------

/// Those of the prerequisites that are not yet seen, in order.
pub open spec fn unseen_prerequisites(prerequisites: Seq<Seq<char>>, seen: Seq<Seq<char>>) -> Seq<
    Seq<char>,
>
    decreases prerequisites.len(),
{
    if prerequisites.len() == 0 {
        Seq::empty()
    } else if seen.contains(uppercase_of(prerequisites.last())) {
        unseen_prerequisites(prerequisites.drop_last(), seen)
    } else {
        unseen_prerequisites(prerequisites.drop_last(), seen).push(prerequisites.last())
    }
}

/// The chain that a walk gives from a state of work, with `fuel` steps to
/// go; nothing where the fuel does not suffice.
///
/// The walk takes the code on top of the stack, in uppercase. A code that
/// was seen is passed over. Any other is loaded, which ends the walk with
/// the error where the door cannot be loaded; the code is then seen, those
/// of the door's prerequisites that are not yet seen go on the stack where
/// prerequisites are wanted, and the code and the door are recorded. With
/// the stack empty, the chain is what was recorded, last to first.
pub open spec fn chain_walk(
    m: LoaderModel,
    c: CorpusModel,
    now: u64,
    deep: bool,
    stack: Seq<Seq<char>>,
    seen: Seq<Seq<char>>,
    order: Seq<Seq<char>>,
    doors: Seq<DoorModel>,
    fuel: nat,
) -> Option<Result<ChainModel, ErrorModel>>
    decreases fuel,
{
    if stack.len() == 0 {
        Some(
            Ok(
                ChainModel {
                    doors: doors.reverse(),
                    order: order.reverse(),
                    prerequisites_added: deep,
                },
            ),
        )
    } else if fuel == 0 {
        None
    } else {
        let code = uppercase_of(stack.last());
        if seen.contains(code) {
            chain_walk(m, c, now, deep, stack.drop_last(), seen, order, doors, (fuel - 1) as nat)
        } else {
            match loaded(m, c, now, code) {
                Err(e) => Some(Err(e)),
                Ok(door) => chain_walk(
                    m,
                    c,
                    now,
                    deep,
                    if deep {
                        stack.drop_last() + unseen_prerequisites(
                            door.context_bundle.prerequisites,
                            seen.push(code),
                        )
                    } else {
                        stack.drop_last()
                    },
                    seen.push(code),
                    order.push(code),
                    doors.push(door),
                    (fuel - 1) as nat,
                ),
            }
        }
    }
}

/// Whether the walk from `codes`, with nothing seen and nothing recorded,
/// ends with `outcome` whenever it has at least `need` steps of fuel.
pub open spec fn chain_ends(
    m: LoaderModel,
    c: CorpusModel,
    now: u64,
    codes: Seq<Seq<char>>,
    deep: bool,
    outcome: Result<ChainModel, ErrorModel>,
    need: nat,
) -> bool {
    forall|fuel: nat|
        fuel >= need ==> #[trigger] chain_walk(
            m,
            c,
            now,
            deep,
            codes,
            Seq::empty(),
            Seq::empty(),
            Seq::empty(),
            fuel,
        ) == Some(outcome)
}

/// Whether `outcome` is what loading the chain of `codes` gives: the walk
/// from the codes ends with it whenever it has fuel enough.
pub open spec fn chain_outcome(
    m: LoaderModel,
    c: CorpusModel,
    now: u64,
    codes: Seq<Seq<char>>,
    deep: bool,
    outcome: Result<ChainModel, ErrorModel>,
) -> bool {
    exists|need: nat| #[trigger] chain_ends(m, c, now, codes, deep, outcome, need)
}

/// Loading a chain has one outcome.
pub proof fn chain_outcome_is_unique(
    m: LoaderModel,
    c: CorpusModel,
    now: u64,
    codes: Seq<Seq<char>>,
    deep: bool,
    a: Result<ChainModel, ErrorModel>,
    b: Result<ChainModel, ErrorModel>,
)
    requires
        chain_outcome(m, c, now, codes, deep, a),
        chain_outcome(m, c, now, codes, deep, b),
    ensures
        a == b,
{
    let na = choose|need: nat| #[trigger] chain_ends(m, c, now, codes, deep, a, need);
    let nb = choose|need: nat| #[trigger] chain_ends(m, c, now, codes, deep, b, need);
    let fuel = na + nb;
    assert(chain_walk(
        m,
        c,
        now,
        deep,
        codes,
        Seq::empty(),
        Seq::empty(),
        Seq::empty(),
        fuel,
    ) == Some(a));
}

/// What loading the chain of `codes` gives.
pub open spec fn chain_of(m: LoaderModel, c: CorpusModel, now: u64, codes: Seq<Seq<char>>, deep: bool) -> Result<
    ChainModel,
    ErrorModel,
> {
    choose|outcome: Result<ChainModel, ErrorModel>| chain_outcome(m, c, now, codes, deep, outcome)
}

/// An outcome of loading a chain is the outcome.
pub proof fn chain_outcome_is_chain(
    m: LoaderModel,
    c: CorpusModel,
    now: u64,
    codes: Seq<Seq<char>>,
    deep: bool,
    outcome: Result<ChainModel, ErrorModel>,
)
    requires
        chain_outcome(m, c, now, codes, deep, outcome),
    ensures
        chain_of(m, c, now, codes, deep) == outcome,
{
    chain_outcome_is_unique(m, c, now, codes, deep, chain_of(m, c, now, codes, deep), outcome);
}

/// Puts on the stack those of the prerequisites that are not yet seen.
#[verifier::loop_isolation(false)]
fn push_unseen(stack: &mut Vec<String>, prerequisites: &Vec<String>, seen: &Vec<String>)
    ensures
        final(stack).deep_view() == old(stack).deep_view() + unseen_prerequisites(
            prerequisites.deep_view(),
            seen.deep_view(),
        ),
{
    let ghost start = stack.deep_view();
    let ghost model = prerequisites.deep_view();
    let mut i: usize = 0;
    assert(model.take(0) =~= Seq::empty());
    assert(stack.deep_view() =~= start + Seq::<Seq<char>>::empty());
    while i < prerequisites.len()
        invariant
            i <= prerequisites.len(),
            stack.deep_view() == start + unseen_prerequisites(
                model.take(i as int),
                seen.deep_view(),
            ),
        decreases prerequisites.len() - i,
    {
        proof {
            let next = model.take(i + 1);
            assert(next.drop_last() == model.take(i as int));
            assert(next.last() == prerequisites@[i as int]@);
        }
        let ghost before = stack.deep_view();
        let upper = to_uppercase(prerequisites[i].as_str());
        if !holds(seen, upper.as_str()) {
            stack.push(prerequisites[i].clone());
            assert(stack.deep_view() =~= before.push(prerequisites@[i as int]@));
            assert(stack.deep_view() =~= start + unseen_prerequisites(
                model.take(i + 1),
                seen.deep_view(),
            ));
        }
        i += 1;
    }
    assert(model.take(prerequisites.len() as int) == model);
}

/// Every unseen prerequisite is one of the prerequisites.
proof fn unseen_prerequisites_are_prerequisites(prerequisites: Seq<Seq<char>>, seen: Seq<Seq<char>>, k: int)
    requires
        0 <= k < unseen_prerequisites(prerequisites, seen).len(),
    ensures
        exists|j: int|
            0 <= j < prerequisites.len() && prerequisites[j] == unseen_prerequisites(
                prerequisites,
                seen,
            )[k],
    decreases prerequisites.len(),
{
    let rest = unseen_prerequisites(prerequisites.drop_last(), seen);
    if !seen.contains(uppercase_of(prerequisites.last())) && k == rest.len() {
        assert(prerequisites[prerequisites.len() - 1] == unseen_prerequisites(
            prerequisites,
            seen,
        )[k]);
    } else {
        unseen_prerequisites_are_prerequisites(prerequisites.drop_last(), seen, k);
        let j = choose|j: int|
            0 <= j < prerequisites.drop_last().len() && prerequisites.drop_last()[j] == rest[k];
        assert(prerequisites[j] == rest[k]);
    }
}

impl DoorManager {
    /// A manager with a store of its own.
    pub fn new(config: Config) -> (r: DoorManager)
        ensures
            r.deep_view().config == config.deep_view(),
            r.deep_view().loader == (LoaderModel {
                config: config.deep_view(),
                index: None,
                cache: Seq::empty(),
            }),
            r.deep_view().loader.settled(),
    {
        let loader = DoorLoader::new(config.clone());
        DoorManager { loader, config }
    }

    /// The configuration of the manager.
    pub fn config(&self) -> (r: &Config)
        ensures
            r.deep_view() == self.deep_view().config,
    {
        &self.config
    }

    /// Reads a door by its code.
    pub fn read_door(&mut self, door_code: &str, corpus: &Corpus, now: u64) -> (r: Result<
        Door,
        LoaderError,
    >)
        ensures
            result_model(r) == loaded(
                old(self).deep_view().loader,
                corpus.deep_view(),
                now,
                door_code@,
            ),
            final(self).deep_view().loader == after_load(
                old(self).deep_view().loader,
                corpus.deep_view(),
                now,
                door_code@,
            ),
            same_answers(
                final(self).deep_view().loader,
                old(self).deep_view().loader,
                corpus.deep_view(),
                now,
            ),
            old(self).deep_view().loader.settled() ==> final(self).deep_view().loader.settled(),
            final(self).deep_view().config == old(self).deep_view().config,
    {
        proof {
            load_keeps_answers(
                self.deep_view().loader,
                self.deep_view().loader,
                corpus.deep_view(),
                now,
                door_code@,
            );
        }
        self.loader.load_door(door_code, corpus, now)
    }

    /// The doors of the index as a list shows them.
    #[verifier::loop_isolation(false)]
    pub fn list_doors(&mut self, category: Option<&str>, limit: usize, corpus: &Corpus, now: u64) -> (r:
        Result<Vec<DoorListItem>, LoaderError>)
        ensures
            match r {
                Ok(items) => listed_doors(
                    old(self).deep_view().loader,
                    corpus.deep_view(),
                    now,
                    category.deep_view(),
                    limit as int,
                ) == Ok::<Seq<ListItemModel>, ErrorModel>(items.deep_view()),
                Err(e) => listed_doors(
                    old(self).deep_view().loader,
                    corpus.deep_view(),
                    now,
                    category.deep_view(),
                    limit as int,
                ) == Err::<Seq<ListItemModel>, ErrorModel>(e.deep_view()),
            },
            same_answers(
                final(self).deep_view().loader,
                old(self).deep_view().loader,
                corpus.deep_view(),
                now,
            ),
            old(self).deep_view().loader.settled() ==> final(self).deep_view().loader.settled(),
            final(self).deep_view().config == old(self).deep_view().config,
    {
        let ghost start = self.deep_view().loader;
        let ghost c = corpus.deep_view();
        proof {
            index_keeps_answers(start, start, c, now);
        }
        let pairs = match self.loader.list_doors(category, limit, corpus) {
            Ok(pairs) => pairs,
            Err(e) => {
                return Err(e);
            },
        };
        let ghost listing = pairs.deep_view();
        let mut items: Vec<DoorListItem> = Vec::new();
        let mut i: usize = 0;
        while i < pairs.len()
            invariant
                i <= pairs.len(),
                same_answers(self.deep_view().loader, start, c, now),
                start.settled() ==> self.deep_view().loader.settled(),
                self.deep_view().config == old(self).deep_view().config,
                items@.len() == i,
                forall|j: int|
                    0 <= j < i ==> items@[j].deep_view() == list_item(start, c, now, listing[j]),
            decreases pairs.len() - i,
        {
            let pair = &pairs[i];
            assert(listing[i as int] == pair.deep_view());
            proof {
                load_keeps_answers(self.deep_view().loader, start, c, now, pair.1@);
            }
            let summary = match self.loader.load_door(pair.1.as_str(), corpus, now) {
                Ok(door) => first_line(door.context_bundle.summary.as_str()),
                Err(_) => String::new(),
            };
            items.push(
                DoorListItem { short_code: pair.0.clone(), full_code: pair.1.clone(), summary },
            );
            i += 1;
        }
        assert(items.deep_view() =~= list_items(start, c, now, listing));
        Ok(items)
    }

    /// Loads the doors that the codes name and, where prerequisites are
    /// wanted, every door that they need, each door once, a door after the
    /// doors it was found to need. Fails as a whole where a door cannot be
    /// loaded.
    #[verifier::loop_isolation(false)]
    pub fn load_chain(
        &mut self,
        door_codes: &Vec<String>,
        include_prerequisites: bool,
        corpus: &Corpus,
        now: u64,
    ) -> (r: Result<ChainResult, LoaderError>)
        ensures
            chain_outcome(
                old(self).deep_view().loader,
                corpus.deep_view(),
                now,
                door_codes.deep_view(),
                include_prerequisites,
                result_model(r),
            ),
            result_model(r) == chain_of(
                old(self).deep_view().loader,
                corpus.deep_view(),
                now,
                door_codes.deep_view(),
                include_prerequisites,
            ),
            same_answers(
                final(self).deep_view().loader,
                old(self).deep_view().loader,
                corpus.deep_view(),
                now,
            ),
            old(self).deep_view().loader.settled() ==> final(self).deep_view().loader.settled(),
            final(self).deep_view().config == old(self).deep_view().config,
    {
        let ghost start = self.deep_view().loader;
        let ghost c = corpus.deep_view();
        let ghost roots = door_codes.deep_view();
        let ghost all = universe(start, c, roots);
        let ghost deep = include_prerequisites;
        let mut stack = copy_texts(door_codes);
        let mut seen: Vec<String> = Vec::new();
        let mut order: Vec<String> = Vec::new();
        let mut doors: Vec<Door> = Vec::new();
        let ghost mut steps: nat = 0;
        proof {
            assert(seen.deep_view() =~= Seq::empty());
            assert(order.deep_view() =~= Seq::empty());
            assert(doors.deep_view() =~= Seq::empty());
            assert forall|j: int| 0 <= j < stack.deep_view().len() implies all.contains(
                uppercase_of(#[trigger] stack.deep_view()[j]),
            ) by {
                roots_are_in_universe(start, c, roots, j);
            }
        }
        while stack.len() > 0
            invariant
                same_answers(self.deep_view().loader, start, c, now),
                start.settled() ==> self.deep_view().loader.settled(),
                self.deep_view().config == old(self).deep_view().config,
                forall|j: int|
                    0 <= j < stack.deep_view().len() ==> all.contains(
                        uppercase_of(#[trigger] stack.deep_view()[j]),
                    ),
                forall|fuel: nat| #[trigger]
                    chain_walk(
                        start,
                        c,
                        now,
                        deep,
                        roots,
                        Seq::empty(),
                        Seq::empty(),
                        Seq::empty(),
                        fuel + steps,
                    ) == chain_walk(
                        start,
                        c,
                        now,
                        deep,
                        stack.deep_view(),
                        seen.deep_view(),
                        order.deep_view(),
                        doors.deep_view(),
                        fuel,
                    ),
            decreases unseen(all, seen.deep_view()), stack.len(),
        {
            let ghost stack_before = stack.deep_view();
            let ghost seen_before = seen.deep_view();
            let ghost order_before = order.deep_view();
            let ghost doors_before = doors.deep_view();
            let top = match stack.pop() {
                Some(top) => top,
                None => String::new(),
            };
            assert(stack.deep_view() =~= stack_before.drop_last());
            assert(top@ == stack_before.last());
            let code = to_uppercase(top.as_str());
            if !holds(&seen, code.as_str()) {
                proof {
                    load_keeps_answers(self.deep_view().loader, start, c, now, code@);
                }
                let door = match self.loader.load_door(code.as_str(), corpus, now) {
                    Ok(door) => door,
                    Err(e) => {
                        proof {
                            let outcome = Err::<ChainModel, ErrorModel>(e.deep_view());
                            assert forall|fuel: nat| fuel >= steps + 1 implies #[trigger] chain_walk(
                                start,
                                c,
                                now,
                                deep,
                                roots,
                                Seq::empty(),
                                Seq::empty(),
                                Seq::empty(),
                                fuel,
                            ) == Some(outcome) by {
                                let rest = (fuel - steps) as nat;
                                assert(fuel == rest + steps);
                                assert(chain_walk(
                                    start,
                                    c,
                                    now,
                                    deep,
                                    stack_before,
                                    seen_before,
                                    order_before,
                                    doors_before,
                                    rest,
                                ) == Some(outcome));
                            }
                            assert(chain_ends(start, c, now, roots, deep, outcome, steps + 1));
                            chain_outcome_is_chain(start, c, now, roots, deep, outcome);
                        }
                        return Err(e);
                    },
                };
                seen.push(code.clone());
                assert(seen.deep_view() =~= seen_before.push(code@));
                if include_prerequisites {
                    push_unseen(&mut stack, &door.context_bundle.prerequisites, &seen);
                }
                order.push(code);
                doors.push(door);
                proof {
                    assert(order.deep_view() =~= order_before.push(code@));
                    assert(doors.deep_view() =~= doors_before.push(door.deep_view()));
                    unseen_shrinks(all, seen_before, code@);
                    assert(all.contains(code@));
                    let found = door.deep_view().context_bundle.prerequisites;
                    let added = unseen_prerequisites(found, seen.deep_view());
                    assert forall|j: int| 0 <= j < stack.deep_view().len() implies all.contains(
                        uppercase_of(#[trigger] stack.deep_view()[j]),
                    ) by {
                        if j < stack_before.len() - 1 {
                            assert(stack.deep_view()[j] == stack_before[j]);
                        } else {
                            let k = j - (stack_before.len() - 1);
                            assert(stack.deep_view()[j] == added[k]);
                            unseen_prerequisites_are_prerequisites(found, seen.deep_view(), k);
                            let i = choose|i: int| 0 <= i < found.len() && found[i] == added[k];
                            prerequisites_are_in_universe(start, c, roots, now, code@, i);
                        }
                    }
                }
            }
            proof {
                assert forall|fuel: nat| #[trigger]
                    chain_walk(
                        start,
                        c,
                        now,
                        deep,
                        roots,
                        Seq::empty(),
                        Seq::empty(),
                        Seq::empty(),
                        fuel + (steps + 1),
                    ) == chain_walk(
                        start,
                        c,
                        now,
                        deep,
                        stack.deep_view(),
                        seen.deep_view(),
                        order.deep_view(),
                        doors.deep_view(),
                        fuel,
                    ) by {
                    let more = (fuel + 1) as nat;
                    assert(more + steps == fuel + (steps + 1));
                    assert(chain_walk(
                        start,
                        c,
                        now,
                        deep,
                        stack_before,
                        seen_before,
                        order_before,
                        doors_before,
                        more,
                    ) == chain_walk(
                        start,
                        c,
                        now,
                        deep,
                        stack.deep_view(),
                        seen.deep_view(),
                        order.deep_view(),
                        doors.deep_view(),
                        fuel,
                    ));
                }
                steps = steps + 1;
            }
        }
        let ghost order_model = order.deep_view();
        let ghost doors_model = doors.deep_view();
        let result = ChainResult {
            doors: reversed(doors),
            order: reversed(order),
            prerequisites_added: include_prerequisites,
        };
        proof {
            assert(result.order.deep_view() =~= order_model.reverse());
            assert(result.doors.deep_view() =~= doors_model.reverse());
            let outcome = Ok::<ChainModel, ErrorModel>(result.deep_view());
            assert forall|fuel: nat| fuel >= steps implies #[trigger] chain_walk(
                start,
                c,
                now,
                deep,
                roots,
                Seq::empty(),
                Seq::empty(),
                Seq::empty(),
                fuel,
            ) == Some(outcome) by {
                let rest = (fuel - steps) as nat;
                assert(fuel == rest + steps);
                assert(chain_walk(
                    start,
                    c,
                    now,
                    deep,
                    stack.deep_view(),
                    seen.deep_view(),
                    order_model,
                    doors_model,
                    rest,
                ) is Some);
            }
            assert(chain_ends(start, c, now, roots, deep, outcome, steps));
            chain_outcome_is_chain(start, c, now, roots, deep, outcome);
        }
        Ok(result)
    }
}


// ---------------------------------------------------------------------------
// Prerequisites
// ---------------------------------------------------------------------------

/// What a search for prerequisites has gathered: the codes it has seen, and
/// the codes it has done with, each with whether its door is missing.
pub struct Gathered {
    pub seen: Seq<Seq<char>>,
    pub found: Seq<(Seq<char>, bool)>,
}

/// What a search gathers from one code, in uppercase, with `fuel` levels
/// of prerequisites to go down; nothing where the fuel does not suffice.
///
/// A code that was seen adds nothing. Any other is seen from then on. Where
/// its door cannot be loaded, the code is done with as missing. Or else the
/// door's prerequisites are gathered one after the other, and then the code
/// is done with.
pub open spec fn gather(m: LoaderModel, c: CorpusModel, now: u64, code: Seq<char>, g: Gathered, fuel: nat) -> Option<
    Gathered,
>
    decreases fuel, 0nat,
{
    let name = uppercase_of(code);
    if g.seen.contains(name) {
        Some(g)
    } else if fuel == 0 {
        None
    } else {
        match loaded(m, c, now, name) {
            Err(_) => Some(
                Gathered { seen: g.seen.push(name), found: g.found.push((name, true)) },
            ),
            Ok(door) => match gather_each(
                m,
                c,
                now,
                door.context_bundle.prerequisites,
                Gathered { seen: g.seen.push(name), found: g.found },
                (fuel - 1) as nat,
            ) {
                Some(deeper) => Some(
                    Gathered { seen: deeper.seen, found: deeper.found.push((name, false)) },
                ),
                None => None,
            },
        }
    }
}

/// What a search gathers from the codes of a list, one after the other.
pub open spec fn gather_each(
    m: LoaderModel,
    c: CorpusModel,
    now: u64,
    codes: Seq<Seq<char>>,
    g: Gathered,
    fuel: nat,
) -> Option<Gathered>
    decreases fuel, 1 + codes.len(),
{
    if codes.len() == 0 {
        Some(g)
    } else {
        match gather_each(m, c, now, codes.drop_last(), g, fuel) {
            Some(before) => gather(m, c, now, codes.last(), before, fuel),
            None => None,
        }
    }
}

/// How a code that is done with is shown: the code, marked where its door
/// is missing.
pub open spec fn found_text(entry: (Seq<char>, bool)) -> Seq<char> {
    if entry.1 {
        entry.0 + "[MISSING]"@
    } else {
        entry.0
    }
}

pub open spec fn found_texts(found: Seq<(Seq<char>, bool)>) -> Seq<Seq<char>> {
    Seq::new(found.len(), |i: int| found_text(found[i]))
}

/// Whether the search from `code` ends with `g` whenever it has at least
/// `need` levels of fuel.
pub open spec fn gather_ends(
    m: LoaderModel,
    c: CorpusModel,
    now: u64,
    code: Seq<char>,
    from: Gathered,
    g: Gathered,
    need: nat,
) -> bool {
    forall|fuel: nat| fuel >= need ==> #[trigger] gather(m, c, now, code, from, fuel) == Some(g)
}

/// Whether the search through `codes` ends with `g` whenever it has at
/// least `need` levels of fuel.
pub open spec fn gather_each_ends(
    m: LoaderModel,
    c: CorpusModel,
    now: u64,
    codes: Seq<Seq<char>>,
    from: Gathered,
    g: Gathered,
    need: nat,
) -> bool {
    forall|fuel: nat|
        fuel >= need ==> #[trigger] gather_each(m, c, now, codes, from, fuel) == Some(g)
}

/// Whether `found` is what the search for the prerequisites of `code`
/// gives: the codes that the search from `code` is done with, in the order
/// in which it was done with them, the code itself last.
pub open spec fn prerequisites_outcome(
    m: LoaderModel,
    c: CorpusModel,
    now: u64,
    code: Seq<char>,
    found: Seq<(Seq<char>, bool)>,
) -> bool {
    exists|seen: Seq<Seq<char>>, need: nat| #[trigger]
        gather_ends(
            m,
            c,
            now,
            code,
            Gathered { seen: Seq::empty(), found: Seq::empty() },
            Gathered { seen, found },
            need,
        )
}

/// The search for prerequisites has one outcome.
pub proof fn prerequisites_outcome_is_unique(
    m: LoaderModel,
    c: CorpusModel,
    now: u64,
    code: Seq<char>,
    a: Seq<(Seq<char>, bool)>,
    b: Seq<(Seq<char>, bool)>,
)
    requires
        prerequisites_outcome(m, c, now, code, a),
        prerequisites_outcome(m, c, now, code, b),
    ensures
        a == b,
{
    let from = Gathered { seen: Seq::empty(), found: Seq::empty() };
    let (sa, na) = choose|seen: Seq<Seq<char>>, need: nat| #[trigger]
        gather_ends(m, c, now, code, from, Gathered { seen, found: a }, need);
    let (sb, nb) = choose|seen: Seq<Seq<char>>, need: nat| #[trigger]
        gather_ends(m, c, now, code, from, Gathered { seen, found: b }, need);
    let fuel = na + nb;
    assert(gather(m, c, now, code, from, fuel) == Some(Gathered { seen: sa, found: a }));
    assert(gather(m, c, now, code, from, fuel) == Some(Gathered { seen: sb, found: b }));
}

/// What the search for the prerequisites of `code` gives, as it is shown.
pub open spec fn prerequisites_of(m: LoaderModel, c: CorpusModel, now: u64, code: Seq<char>) -> Seq<
    Seq<char>,
> {
    found_texts(
        choose|found: Seq<(Seq<char>, bool)>| prerequisites_outcome(m, c, now, code, found),
    )
}

impl DoorManager {
    /// Gathers the prerequisites of a code into `found`, which holds the
    /// codes that are done with as they are shown; `marks` holds them as the
    /// search records them.
    #[verifier::loop_isolation(false)]
    fn collect_prerequisites(
        &mut self,
        door_code: &str,
        corpus: &Corpus,
        now: u64,
        found: &mut Vec<String>,
        seen: &mut Vec<String>,
        Ghost(start): Ghost<LoaderModel>,
        Ghost(roots): Ghost<Seq<Seq<char>>>,
        Ghost(marks): Ghost<Seq<(Seq<char>, bool)>>,
    ) -> (r: Ghost<(nat, Seq<(Seq<char>, bool)>)>)
        requires
            same_answers(old(self).deep_view().loader, start, corpus.deep_view(), now),
            start.settled() ==> old(self).deep_view().loader.settled(),
            universe(start, corpus.deep_view(), roots).contains(uppercase_of(door_code@)),
            old(found).deep_view() == found_texts(marks),
        ensures
            same_answers(final(self).deep_view().loader, start, corpus.deep_view(), now),
            start.settled() ==> final(self).deep_view().loader.settled(),
            final(self).deep_view().config == old(self).deep_view().config,
            final(found).deep_view() == found_texts(r@.1),
            gather_ends(
                start,
                corpus.deep_view(),
                now,
                door_code@,
                Gathered { seen: old(seen).deep_view(), found: marks },
                Gathered { seen: final(seen).deep_view(), found: r@.1 },
                r@.0,
            ),
            unseen(universe(start, corpus.deep_view(), roots), final(seen).deep_view()) <= unseen(
                universe(start, corpus.deep_view(), roots),
                old(seen).deep_view(),
            ),
        decreases unseen(universe(start, corpus.deep_view(), roots), old(seen).deep_view()),
    {
        let ghost c = corpus.deep_view();
        let ghost all = universe(start, c, roots);
        let ghost seen_before = seen.deep_view();
        let ghost from = Gathered { seen: seen_before, found: marks };
        let name = to_uppercase(door_code);
        if holds(seen, name.as_str()) {
            return Ghost((0nat, marks));
        }
        seen.push(name.clone());
        let ghost seen_first = seen.deep_view();
        proof {
            assert(seen_first =~= seen_before.push(name@));
            unseen_shrinks(all, seen_before, name@);
            load_keeps_answers(self.deep_view().loader, start, c, now, name@);
        }
        let door = match self.loader.load_door(name.as_str(), corpus, now) {
            Ok(door) => door,
            Err(_) => {
                let ghost texts = found.deep_view();
                let mut marked = name.clone();
                marked.append("[MISSING]");
                found.push(marked);
                let ghost after = marks.push((name@, true));
                proof {
                    assert(found.deep_view() =~= texts.push(found_text((name@, true))));
                    assert(found.deep_view() =~= found_texts(after));
                }
                return Ghost((1nat, after));
            },
        };
        let ghost wanted = door.deep_view().context_bundle.prerequisites;
        let ghost first = Gathered { seen: seen_first, found: marks };
        let ghost mut need: nat = 0;
        let ghost mut current = marks;
        let mut i: usize = 0;
        assert(wanted.take(0) =~= Seq::empty());
        while i < door.context_bundle.prerequisites.len()
            invariant
                i <= door.context_bundle.prerequisites.len(),
                same_answers(self.deep_view().loader, start, c, now),
                start.settled() ==> self.deep_view().loader.settled(),
                self.deep_view().config == old(self).deep_view().config,
                found.deep_view() == found_texts(current),
                unseen(all, seen.deep_view()) <= unseen(all, seen_first),
                gather_each_ends(
                    start,
                    c,
                    now,
                    wanted.take(i as int),
                    first,
                    Gathered { seen: seen.deep_view(), found: current },
                    need,
                ),
            decreases door.context_bundle.prerequisites.len() - i,
        {
            let ghost seen_here = seen.deep_view();
            let ghost here = Gathered { seen: seen_here, found: current };
            proof {
                prerequisites_are_in_universe(start, c, roots, now, name@, i as int);
            }
            let deeper = self.collect_prerequisites(
                door.context_bundle.prerequisites[i].as_str(),
                corpus,
                now,
                found,
                seen,
                Ghost(start),
                Ghost(roots),
                Ghost(current),
            );
            proof {
                let next = wanted.take(i + 1);
                assert(next.drop_last() == wanted.take(i as int));
                assert(next.last() == door.context_bundle.prerequisites@[i as int]@);
                let after = Gathered { seen: seen.deep_view(), found: deeper@.1 };
                let more = need + deeper@.0;
                assert forall|fuel: nat| fuel >= more implies #[trigger] gather_each(
                    start,
                    c,
                    now,
                    next,
                    first,
                    fuel,
                ) == Some(after) by {
                    assert(gather_each(start, c, now, wanted.take(i as int), first, fuel) == Some(
                        here,
                    ));
                    assert(gather(start, c, now, next.last(), here, fuel) == Some(after));
                }
                need = more;
                current = deeper@.1;
            }
            i += 1;
        }
        assert(wanted.take(door.context_bundle.prerequisites.len() as int) == wanted);
        let ghost texts = found.deep_view();
        let ghost deepest = Gathered { seen: seen.deep_view(), found: current };
        found.push(name);
        let ghost after = current.push((name@, false));
        proof {
            assert(found.deep_view() =~= texts.push(found_text((name@, false))));
            assert(found.deep_view() =~= found_texts(after));
            let done = Gathered { seen: seen.deep_view(), found: after };
            assert forall|fuel: nat| fuel >= need + 1 implies #[trigger] gather(
                start,
                c,
                now,
                door_code@,
                from,
                fuel,
            ) == Some(done) by {
                let less = (fuel - 1) as nat;
                assert(gather_each(start, c, now, wanted, first, less) == Some(deepest));
            }
        }
        Ghost((need + 1, after))
    }

    /// The codes that a door needs, each once, a code after the codes it
    /// was found to need, the door's own code last. A code whose door cannot
    /// be loaded is marked as missing and the search goes on.
    pub fn get_prerequisites(&mut self, door_code: &str, corpus: &Corpus, now: u64) -> (r: Result<
        Vec<String>,
        LoaderError,
    >)
        ensures
            r is Ok,
            r->Ok_0.deep_view() == prerequisites_of(
                old(self).deep_view().loader,
                corpus.deep_view(),
                now,
                door_code@,
            ),
            exists|found: Seq<(Seq<char>, bool)>|
                r->Ok_0.deep_view() == found_texts(found) && #[trigger] prerequisites_outcome(
                    old(self).deep_view().loader,
                    corpus.deep_view(),
                    now,
                    door_code@,
                    found,
                ),
            same_answers(
                final(self).deep_view().loader,
                old(self).deep_view().loader,
                corpus.deep_view(),
                now,
            ),
            old(self).deep_view().loader.settled() ==> final(self).deep_view().loader.settled(),
            final(self).deep_view().config == old(self).deep_view().config,
    {
        let ghost start = self.deep_view().loader;
        let ghost c = corpus.deep_view();
        let ghost roots = seq![door_code@];
        let mut found: Vec<String> = Vec::new();
        let mut seen: Vec<String> = Vec::new();
        proof {
            roots_are_in_universe(start, c, roots, 0);
            assert(found.deep_view() =~= found_texts(Seq::empty()));
            assert(seen.deep_view() =~= Seq::empty());
        }
        let outcome = self.collect_prerequisites(
            door_code,
            corpus,
            now,
            &mut found,
            &mut seen,
            Ghost(start),
            Ghost(roots),
            Ghost(Seq::empty()),
        );
        proof {
            assert(gather_ends(
                start,
                c,
                now,
                door_code@,
                Gathered { seen: Seq::empty(), found: Seq::empty() },
                Gathered { seen: seen.deep_view(), found: outcome@.1 },
                outcome@.0,
            ));
            assert(prerequisites_outcome(start, c, now, door_code@, outcome@.1));
            let chosen = choose|found: Seq<(Seq<char>, bool)>|
                prerequisites_outcome(start, c, now, door_code@, found);
            prerequisites_outcome_is_unique(start, c, now, door_code@, chosen, outcome@.1);
        }
        Ok(found)
    }
}


// ---------------------------------------------------------------------------
// Looking the doors over, and making them
// ---------------------------------------------------------------------------

impl DoorManager {
    /// Validates a door, given by its code or by the path of its file.
    pub fn validate_door(
        &mut self,
        door_code: Option<&str>,
        file_path: Option<&str>,
        corpus: &Corpus,
        now: u64,
    ) -> (r: ValidationResult)
        ensures
            r.deep_view() == validation_of(
                old(self).deep_view().loader,
                corpus.deep_view(),
                now,
                door_code.deep_view(),
                file_path.deep_view(),
            ),
            same_answers(
                final(self).deep_view().loader,
                old(self).deep_view().loader,
                corpus.deep_view(),
                now,
            ),
            old(self).deep_view().loader.settled() ==> final(self).deep_view().loader.settled(),
            final(self).deep_view().config == old(self).deep_view().config,
    {
        validate(&mut self.loader, door_code, file_path, corpus, now)
    }

    /// Audits the corpus, or the part of it that the scope names.
    pub fn audit(&mut self, scope: Option<&str>, corpus: &Corpus, now: u64) -> (r: AuditResult)
        ensures
            r.deep_view() == audit_of(
                old(self).deep_view().loader,
                corpus.deep_view(),
                now,
                scope.deep_view(),
            ),
            same_answers(
                final(self).deep_view().loader,
                old(self).deep_view().loader,
                corpus.deep_view(),
                now,
            ),
            old(self).deep_view().loader.settled() ==> final(self).deep_view().loader.settled(),
            final(self).deep_view().config == old(self).deep_view().config,
    {
        audit(&mut self.loader, scope, corpus, now)
    }

    /// The statistics of the corpus.
    pub fn stats(&mut self, granularity: &str, corpus: &Corpus, now: u64) -> (r: StatsResult)
        ensures
            r.deep_view() == stats_of(
                old(self).deep_view().loader,
                corpus.deep_view(),
                now,
                granularity@,
            ),
            same_answers(
                final(self).deep_view().loader,
                old(self).deep_view().loader,
                corpus.deep_view(),
                now,
            ),
            old(self).deep_view().loader.settled() ==> final(self).deep_view().loader.settled(),
            final(self).deep_view().config == old(self).deep_view().config,
    {
        stats(&mut self.loader, granularity, corpus, now)
    }

    /// The files that the index leads to, with the index file as it is.
    pub fn index_targets(&self, index: &IndexFile) -> (r: Vec<String>)
        ensures
            r.deep_view() == index_targets(self.deep_view().loader, index.deep_view()),
    {
        self.loader.index_targets(index)
    }

    /// Drops the caches of the store.
    pub fn clear_cache(&mut self)
        ensures
            final(self).deep_view().config == old(self).deep_view().config,
            final(self).deep_view().loader == cleared(old(self).deep_view().loader),
            old(self).deep_view().loader.settled() ==> final(self).deep_view().loader.settled(),
    {
        self.loader.clear_cache();
    }

    /// Plans the rebuilding of the index from the documents directory.
    pub fn rebuild_indexes(&self, corpus: &Corpus) -> (r: Result<RebuildPlan, LoaderError>)
        ensures
            match r {
                Ok(plan) => rebuild_of(self.deep_view().loader.config, corpus.deep_view()) == Ok::<
                    RebuildPlanModel,
                    ErrorModel,
                >(plan.deep_view()),
                Err(e) => rebuild_of(self.deep_view().loader.config, corpus.deep_view()) == Err::<
                    RebuildPlanModel,
                    ErrorModel,
                >(e.deep_view()),
            },
    {
        plan_rebuild(&self.loader, corpus)
    }

    /// Takes how the writing of the index went.
    pub fn index_written(&mut self, result: RebuildResult, outcome: &Outcome) -> (r: Result<
        RebuildResult,
        LoaderError,
    >)
        ensures
            final(self).deep_view().config == old(self).deep_view().config,
            match outcome.failure {
                Some(message) => r matches Err(e) && e.deep_view() == ErrorModel::IoError(message@)
                    && final(self).deep_view().loader == old(self).deep_view().loader,
                None => {
                    &&& r matches Ok(made) && made.deep_view() == result.deep_view()
                    &&& final(self).deep_view().loader == cleared(old(self).deep_view().loader)
                },
            },
            old(self).deep_view().loader.settled() ==> final(self).deep_view().loader.settled(),
    {
        index_written(&mut self.loader, result, outcome)
    }

    /// Plans the making of a door at the time `timestamp`.
    pub fn create_door(
        &mut self,
        params: &CreateDoorParams,
        corpus: &Corpus,
        now: u64,
        timestamp: &str,
    ) -> (r: Result<CreatePlan, LoaderError>)
        ensures
            match r {
                Ok(plan) => creation_of(
                    old(self).deep_view().loader,
                    corpus.deep_view(),
                    now,
                    params.deep_view(),
                    timestamp@,
                ) == Ok::<CreatePlanModel, ErrorModel>(plan.deep_view()),
                Err(e) => creation_of(
                    old(self).deep_view().loader,
                    corpus.deep_view(),
                    now,
                    params.deep_view(),
                    timestamp@,
                ) == Err::<CreatePlanModel, ErrorModel>(e.deep_view()),
            },
            same_answers(
                final(self).deep_view().loader,
                old(self).deep_view().loader,
                corpus.deep_view(),
                now,
            ),
            old(self).deep_view().loader.settled() ==> final(self).deep_view().loader.settled(),
            final(self).deep_view().config == old(self).deep_view().config,
    {
        plan_door(&mut self.loader, params, corpus, now, timestamp)
    }

    /// Takes how the writing of a door went.
    pub fn door_written(&mut self, result: CreateResult, outcome: &Outcome) -> (r: Result<
        CreateResult,
        LoaderError,
    >)
        ensures
            final(self).deep_view().config == old(self).deep_view().config,
            match outcome.failure {
                Some(message) => r matches Err(e) && e.deep_view() == ErrorModel::IoError(message@)
                    && final(self).deep_view().loader == old(self).deep_view().loader,
                None => {
                    &&& r matches Ok(made) && made.deep_view() == result.deep_view()
                    &&& final(self).deep_view().loader == cleared(old(self).deep_view().loader)
                },
            },
            old(self).deep_view().loader.settled() ==> final(self).deep_view().loader.settled(),
    {
        door_written(&mut self.loader, result, outcome)
    }

    /// Plans the making of a batch of doors at the time `timestamp`.
    pub fn batch_create(
        &mut self,
        doors: &Vec<CreateDoorParams>,
        validate: bool,
        corpus: &Corpus,
        now: u64,
        timestamp: &str,
    ) -> (r: BatchPlan)
        ensures
            r.deep_view() == batch_of(
                old(self).deep_view().loader,
                corpus.deep_view(),
                now,
                doors.deep_view(),
                validate,
                timestamp@,
            ),
            same_answers(
                final(self).deep_view().loader,
                old(self).deep_view().loader,
                corpus.deep_view(),
                now,
            ),
            old(self).deep_view().loader.settled() ==> final(self).deep_view().loader.settled(),
            final(self).deep_view().config == old(self).deep_view().config,
    {
        plan_batch(&mut self.loader, doors, validate, corpus, now, timestamp)
    }

    /// Takes how the writing of a batch went.
    pub fn batch_written(
        &mut self,
        codes: Vec<String>,
        paths: &Vec<String>,
        outcome: &Outcome,
        update_indexes: bool,
    ) -> (r: BatchProgress)
        ensures
            r.deep_view() == batch_progress(
                codes.deep_view(),
                paths.deep_view(),
                outcome.deep_view(),
                update_indexes,
            ),
            final(self).deep_view().config == old(self).deep_view().config,
            final(self).deep_view().loader == (if r.rebuild {
                cleared(old(self).deep_view().loader)
            } else {
                old(self).deep_view().loader
            }),
            old(self).deep_view().loader.settled() ==> final(self).deep_view().loader.settled(),
    {
        batch_written(&mut self.loader, codes, paths, outcome, update_indexes)
    }
}


// ---------------------------------------------------------------------------
// The search for prerequisites records a code at most once
// ---------------------------------------------------------------------------

/// Whether a code is among the codes that a search is done with.
pub open spec fn is_found(found: Seq<(Seq<char>, bool)>, code: Seq<char>) -> bool {
    exists|i: int| 0 <= i < found.len() && (#[trigger] found[i]).0 == code
}

/// Whether no code is recorded twice, and every code that the search is
/// done with was seen.
pub open spec fn is_tidy(g: Gathered) -> bool {
    &&& forall|i: int, j: int|
        0 <= i < j < g.found.len() ==> (#[trigger] g.found[i]).0 != (#[trigger] g.found[j]).0
    &&& forall|i: int| 0 <= i < g.found.len() ==> g.seen.contains((#[trigger] g.found[i]).0)
}

/// What a search adds to what was gathered: it stays tidy, what was seen
/// stays seen, and every code that it is newly done with is newly seen.
pub open spec fn adds_tidily(before: Gathered, after: Gathered) -> bool {
    &&& is_tidy(after)
    &&& forall|x: Seq<char>| before.seen.contains(x) ==> after.seen.contains(x)
    &&& forall|i: int|
        0 <= i < after.found.len() ==> is_found(before.found, (#[trigger] after.found[i]).0) || (
        after.seen.contains(after.found[i].0) && !before.seen.contains(after.found[i].0))
}

proof fn pushed_is_seen(seen: Seq<Seq<char>>, name: Seq<char>)
    ensures
        seen.push(name).contains(name),
        forall|x: Seq<char>| seen.contains(x) ==> seen.push(name).contains(x),
        forall|x: Seq<char>| seen.push(name).contains(x) ==> seen.contains(x) || x == name,
{
    let more = seen.push(name);
    assert(more[seen.len() as int] == name);
    assert forall|x: Seq<char>| seen.contains(x) implies more.contains(x) by {
        let k = choose|k: int| 0 <= k < seen.len() && seen[k] == x;
        assert(more[k] == x);
    }
    assert forall|x: Seq<char>| more.contains(x) implies seen.contains(x) || x == name by {
        let k = choose|k: int| 0 <= k < more.len() && more[k] == x;
        if k < seen.len() {
            assert(seen[k] == x);
        }
    }
}

/// A search from one code adds tidily to what was gathered.
pub proof fn gather_is_tidy(m: LoaderModel, c: CorpusModel, now: u64, code: Seq<char>, g: Gathered, fuel: nat)
    requires
        is_tidy(g),
        gather(m, c, now, code, g, fuel) is Some,
    ensures
        adds_tidily(g, gather(m, c, now, code, g, fuel)->0),
    decreases fuel, 0nat,
{
    let name = uppercase_of(code);
    let after = gather(m, c, now, code, g, fuel)->0;
    if g.seen.contains(name) {
        assert forall|i: int| 0 <= i < after.found.len() implies is_found(
            g.found,
            (#[trigger] after.found[i]).0,
        ) by {
            assert(g.found[i].0 == after.found[i].0);
        }
    } else {
        pushed_is_seen(g.seen, name);
        let first = Gathered { seen: g.seen.push(name), found: g.found };
        match loaded(m, c, now, name) {
            Err(_) => {
                assert forall|i: int| 0 <= i < after.found.len() implies is_found(
                    g.found,
                    (#[trigger] after.found[i]).0,
                ) || (after.seen.contains(after.found[i].0) && !g.seen.contains(
                    after.found[i].0,
                )) by {
                    if i < g.found.len() {
                        assert(g.found[i].0 == after.found[i].0);
                    }
                }
            },
            Ok(door) => {
                let deeper = gather_each(
                    m,
                    c,
                    now,
                    door.context_bundle.prerequisites,
                    first,
                    (fuel - 1) as nat,
                )->0;
                gather_each_is_tidy(
                    m,
                    c,
                    now,
                    door.context_bundle.prerequisites,
                    first,
                    (fuel - 1) as nat,
                );
                assert forall|i: int| 0 <= i < deeper.found.len() implies (
                #[trigger] deeper.found[i]).0 != name by {
                    if is_found(first.found, deeper.found[i].0) {
                        let k = choose|k: int|
                            0 <= k < g.found.len() && (#[trigger] g.found[k]).0
                                == deeper.found[i].0;
                        assert(g.seen.contains(g.found[k].0));
                    }
                }
                assert forall|i: int| 0 <= i < after.found.len() implies is_found(
                    g.found,
                    (#[trigger] after.found[i]).0,
                ) || (after.seen.contains(after.found[i].0) && !g.seen.contains(
                    after.found[i].0,
                )) by {
                    if i < deeper.found.len() {
                        assert(after.found[i] == deeper.found[i]);
                    }
                }
                assert forall|i: int, j: int| 0 <= i < j < after.found.len() implies (
                #[trigger] after.found[i]).0 != (#[trigger] after.found[j]).0 by {
                    assert(after.found[i] == deeper.found[i]);
                    if j < deeper.found.len() {
                        assert(after.found[j] == deeper.found[j]);
                    }
                }
                assert forall|i: int| 0 <= i < after.found.len() implies after.seen.contains(
                    (#[trigger] after.found[i]).0,
                ) by {
                    if i < deeper.found.len() {
                        assert(after.found[i] == deeper.found[i]);
                    }
                }
            },
        }
    }
}

/// A search through the codes of a list adds tidily to what was gathered.
pub proof fn gather_each_is_tidy(
    m: LoaderModel,
    c: CorpusModel,
    now: u64,
    codes: Seq<Seq<char>>,
    g: Gathered,
    fuel: nat,
)
    requires
        is_tidy(g),
        gather_each(m, c, now, codes, g, fuel) is Some,
    ensures
        adds_tidily(g, gather_each(m, c, now, codes, g, fuel)->0),
    decreases fuel, 1 + codes.len(),
{
    if codes.len() == 0 {
        assert forall|i: int| 0 <= i < g.found.len() implies is_found(
            g.found,
            (#[trigger] g.found[i]).0,
        ) by {}
    } else {
        let before = gather_each(m, c, now, codes.drop_last(), g, fuel)->0;
        gather_each_is_tidy(m, c, now, codes.drop_last(), g, fuel);
        gather_is_tidy(m, c, now, codes.last(), before, fuel);
        let after = gather(m, c, now, codes.last(), before, fuel)->0;
        assert forall|i: int| 0 <= i < after.found.len() implies is_found(
            g.found,
            (#[trigger] after.found[i]).0,
        ) || (after.seen.contains(after.found[i].0) && !g.seen.contains(
            after.found[i].0,
        )) by {
            if is_found(before.found, after.found[i].0) {
                let k = choose|k: int|
                    0 <= k < before.found.len() && (#[trigger] before.found[k]).0
                        == after.found[i].0;
                assert(is_found(g.found, before.found[k].0) || (before.seen.contains(
                    before.found[k].0,
                ) && !g.seen.contains(before.found[k].0)));
            }
        }
    }
}

/// The search for the prerequisites of a door is done with every code at
/// most once, whether the door of the code is there or missing, and
/// however the doors name each other.
pub proof fn prerequisites_are_distinct(
    m: LoaderModel,
    c: CorpusModel,
    now: u64,
    code: Seq<char>,
    found: Seq<(Seq<char>, bool)>,
)
    requires
        prerequisites_outcome(m, c, now, code, found),
    ensures
        forall|i: int, j: int|
            0 <= i < j < found.len() ==> (#[trigger] found[i]).0 != (#[trigger] found[j]).0,
{
    let from = Gathered { seen: Seq::empty(), found: Seq::empty() };
    let (seen, need) = choose|seen: Seq<Seq<char>>, need: nat| #[trigger]
        gather_ends(m, c, now, code, from, Gathered { seen, found }, need);
    assert(gather(m, c, now, code, from, need) == Some(Gathered { seen, found }));
    gather_is_tidy(m, c, now, code, from, need);
}


// ---------------------------------------------------------------------------
// Walks over small graphs
// ---------------------------------------------------------------------------

/// A list of one code holds that code and no other.
proof fn one_code(code: Seq<char>)
    ensures
        seq![code].len() == 1,
        seq![code].last() == code,
        seq![code].drop_last() == Seq::<Seq<char>>::empty(),
        seq![code] == Seq::<Seq<char>>::empty().push(code),
        forall|x: Seq<char>| seq![code].contains(x) <==> x == code,
{
    let s = seq![code];
    assert(s.drop_last() =~= Seq::<Seq<char>>::empty());
    assert(s =~= Seq::<Seq<char>>::empty().push(code));
    assert(s[0] == code);
}

/// A list of two codes holds those two and no other.
proof fn two_codes(first: Seq<char>, second: Seq<char>)
    ensures
        forall|x: Seq<char>| seq![first].push(second).contains(x) <==> x == first || x == second,
{
    let s = seq![first].push(second);
    assert(s[0] == first);
    assert(s[1] == second);
}

/// Where a door needs a second and the second needs a third, which needs
/// nothing, the chain of the first, with prerequisites, is the third, the
/// second, the first.
pub proof fn chain_puts_prerequisites_first(
    m: LoaderModel,
    c: CorpusModel,
    now: u64,
    first: Seq<char>,
    second: Seq<char>,
    third: Seq<char>,
    a: DoorModel,
    b: DoorModel,
    d: DoorModel,
)
    requires
        uppercase_of(first) != uppercase_of(second),
        uppercase_of(second) != uppercase_of(third),
        uppercase_of(first) != uppercase_of(third),
        loaded(m, c, now, uppercase_of(first)) == Ok::<DoorModel, ErrorModel>(a),
        loaded(m, c, now, uppercase_of(second)) == Ok::<DoorModel, ErrorModel>(b),
        loaded(m, c, now, uppercase_of(third)) == Ok::<DoorModel, ErrorModel>(d),
        a.context_bundle.prerequisites == seq![second],
        b.context_bundle.prerequisites == seq![third],
        d.context_bundle.prerequisites == Seq::<Seq<char>>::empty(),
    ensures
        chain_of(m, c, now, seq![first], true) == Ok::<ChainModel, ErrorModel>(
            ChainModel {
                doors: seq![d, b, a],
                order: seq![uppercase_of(third), uppercase_of(second), uppercase_of(first)],
                prerequisites_added: true,
            },
        ),
{
    let ua = uppercase_of(first);
    let ub = uppercase_of(second);
    let ud = uppercase_of(third);
    let none = Seq::<Seq<char>>::empty();
    let outcome = Ok::<ChainModel, ErrorModel>(
        ChainModel { doors: seq![d, b, a], order: seq![ud, ub, ua], prerequisites_added: true },
    );
    one_code(first);
    one_code(second);
    one_code(third);
    one_code(ua);
    two_codes(ua, ub);
    let seen1 = none.push(ua);
    let seen2 = seen1.push(ub);
    let seen3 = seen2.push(ud);
    assert(seen1 == seq![ua]);
    assert(seen2 == seq![ua].push(ub));
    reveal_with_fuel(unseen_prerequisites, 3);
    assert(unseen_prerequisites(seq![second], seen1) == seq![second]) by {
        assert(!seen1.contains(ub));
        assert(none.push(second) == seq![second]);
    }
    assert(unseen_prerequisites(seq![third], seen2) == seq![third]) by {
        assert(!seen2.contains(ud));
        assert(none.push(third) == seq![third]);
    }
    assert(unseen_prerequisites(none, seen3) == none);
    let order3 = none.push(ua).push(ub).push(ud);
    let doors3 = Seq::<DoorModel>::empty().push(a).push(b).push(d);
    assert(order3.reverse() =~= seq![ud, ub, ua]);
    assert(doors3.reverse() =~= seq![d, b, a]);
    assert forall|fuel: nat| fuel >= 3 implies #[trigger] chain_walk(
        m,
        c,
        now,
        true,
        seq![first],
        none,
        none,
        Seq::empty(),
        fuel,
    ) == Some(outcome) by {
        let f1 = (fuel - 1) as nat;
        let f2 = (fuel - 2) as nat;
        let f3 = (fuel - 3) as nat;
        assert(none + seq![second] =~= seq![second]);
        assert(none + seq![third] =~= seq![third]);
        assert(none + none =~= none);
        assert(chain_walk(m, c, now, true, none, seen3, order3, doors3, f3) == Some(outcome));
        assert(chain_walk(
            m,
            c,
            now,
            true,
            seq![third],
            seen2,
            none.push(ua).push(ub),
            Seq::<DoorModel>::empty().push(a).push(b),
            f2,
        ) == Some(outcome));
        assert(chain_walk(
            m,
            c,
            now,
            true,
            seq![second],
            seen1,
            none.push(ua),
            Seq::<DoorModel>::empty().push(a),
            f1,
        ) == Some(outcome));
    }
    assert(chain_ends(m, c, now, seq![first], true, outcome, 3));
    chain_outcome_is_chain(m, c, now, seq![first], true, outcome);
}

/// Where two doors need each other, the search for the prerequisites of
/// the first ends, and is done with the second and then the first, each
/// once; and so is their chain.
pub proof fn cycle_is_walked_once(
    m: LoaderModel,
    c: CorpusModel,
    now: u64,
    first: Seq<char>,
    second: Seq<char>,
    a: DoorModel,
    b: DoorModel,
)
    requires
        uppercase_of(first) != uppercase_of(second),
        loaded(m, c, now, uppercase_of(first)) == Ok::<DoorModel, ErrorModel>(a),
        loaded(m, c, now, uppercase_of(second)) == Ok::<DoorModel, ErrorModel>(b),
        a.context_bundle.prerequisites == seq![second],
        b.context_bundle.prerequisites == seq![first],
    ensures
        prerequisites_of(m, c, now, first) == seq![uppercase_of(second), uppercase_of(first)],
        chain_of(m, c, now, seq![first], true) == Ok::<ChainModel, ErrorModel>(
            ChainModel {
                doors: seq![b, a],
                order: seq![uppercase_of(second), uppercase_of(first)],
                prerequisites_added: true,
            },
        ),
{
    let ua = uppercase_of(first);
    let ub = uppercase_of(second);
    let none = Seq::<Seq<char>>::empty();
    one_code(first);
    one_code(second);
    one_code(ua);
    two_codes(ua, ub);
    let seen1 = none.push(ua);
    let seen2 = seen1.push(ub);
    assert(seen1 == seq![ua]);
    assert(seen2 == seq![ua].push(ub));
    // The search.
    let nothing = Seq::<(Seq<char>, bool)>::empty();
    let from = Gathered { seen: none, found: nothing };
    let found = nothing.push((ub, false)).push((ua, false));
    let g1 = Gathered { seen: seen1, found: nothing };
    let g2 = Gathered { seen: seen2, found: nothing };
    let g3 = Gathered { seen: seen2, found: nothing.push((ub, false)) };
    let done = Gathered { seen: seen2, found };
    reveal_with_fuel(gather_each, 3);
    assert forall|fuel: nat| fuel >= 2 implies #[trigger] gather(m, c, now, first, from, fuel)
        == Some(done) by {
        let f1 = (fuel - 1) as nat;
        let f2 = (fuel - 2) as nat;
        assert(gather(m, c, now, first, g2, f2) == Some(g2));
        assert(gather_each(m, c, now, seq![first], g2, f2) == Some(g2));
        assert(gather(m, c, now, second, g1, f1) == Some(g3));
        assert(gather_each(m, c, now, seq![second], g1, f1) == Some(g3));
    }
    assert(gather_ends(m, c, now, first, from, done, 2));
    assert(prerequisites_outcome(m, c, now, first, found));
    let chosen = choose|found: Seq<(Seq<char>, bool)>|
        prerequisites_outcome(m, c, now, first, found);
    prerequisites_outcome_is_unique(m, c, now, first, chosen, found);
    assert(found_texts(found) =~= seq![ub, ua]);
    // The chain.
    let outcome = Ok::<ChainModel, ErrorModel>(
        ChainModel { doors: seq![b, a], order: seq![ub, ua], prerequisites_added: true },
    );
    reveal_with_fuel(unseen_prerequisites, 3);
    assert(unseen_prerequisites(seq![second], seen1) == seq![second]) by {
        assert(!seen1.contains(ub));
        assert(none.push(second) == seq![second]);
    }
    assert(unseen_prerequisites(seq![first], seen2) == none);
    let order2 = none.push(ua).push(ub);
    let doors2 = Seq::<DoorModel>::empty().push(a).push(b);
    assert(order2.reverse() =~= seq![ub, ua]);
    assert(doors2.reverse() =~= seq![b, a]);
    assert forall|fuel: nat| fuel >= 2 implies #[trigger] chain_walk(
        m,
        c,
        now,
        true,
        seq![first],
        none,
        none,
        Seq::empty(),
        fuel,
    ) == Some(outcome) by {
        let f1 = (fuel - 1) as nat;
        let f2 = (fuel - 2) as nat;
        assert(none + seq![second] =~= seq![second]);
        assert(none + none =~= none);
        assert(chain_walk(m, c, now, true, none, seen2, order2, doors2, f2) == Some(outcome));
        assert(chain_walk(
            m,
            c,
            now,
            true,
            seq![second],
            seen1,
            none.push(ua),
            Seq::<DoorModel>::empty().push(a),
            f1,
        ) == Some(outcome));
    }
    assert(chain_ends(m, c, now, seq![first], true, outcome, 2));
    chain_outcome_is_chain(m, c, now, seq![first], true, outcome);
}

/// Where a door needs a door that cannot be loaded, the search for its
/// prerequisites marks that door as missing and goes on to the door
/// itself, while its chain fails with the error of the missing door.
pub proof fn missing_prerequisite_is_marked(
    m: LoaderModel,
    c: CorpusModel,
    now: u64,
    code: Seq<char>,
    needed: Seq<char>,
    door: DoorModel,
    e: ErrorModel,
)
    requires
        uppercase_of(code) != uppercase_of(needed),
        loaded(m, c, now, uppercase_of(code)) == Ok::<DoorModel, ErrorModel>(door),
        loaded(m, c, now, uppercase_of(needed)) == Err::<DoorModel, ErrorModel>(e),
        door.context_bundle.prerequisites == seq![needed],
    ensures
        prerequisites_of(m, c, now, code) == seq![
            uppercase_of(needed) + "[MISSING]"@,
            uppercase_of(code),
        ],
        chain_of(m, c, now, seq![code], true) == Err::<ChainModel, ErrorModel>(e),
{
    let ua = uppercase_of(code);
    let uz = uppercase_of(needed);
    let none = Seq::<Seq<char>>::empty();
    one_code(code);
    one_code(needed);
    one_code(ua);
    two_codes(ua, uz);
    let seen1 = none.push(ua);
    let seen2 = seen1.push(uz);
    assert(seen1 == seq![ua]);
    let nothing = Seq::<(Seq<char>, bool)>::empty();
    let from = Gathered { seen: none, found: nothing };
    let found = nothing.push((uz, true)).push((ua, false));
    let g1 = Gathered { seen: seen1, found: nothing };
    let g2 = Gathered { seen: seen2, found: nothing.push((uz, true)) };
    let done = Gathered { seen: seen2, found };
    reveal_with_fuel(gather_each, 3);
    assert forall|fuel: nat| fuel >= 2 implies #[trigger] gather(m, c, now, code, from, fuel)
        == Some(done) by {
        let f1 = (fuel - 1) as nat;
        assert(gather(m, c, now, needed, g1, f1) == Some(g2));
        assert(gather_each(m, c, now, seq![needed], g1, f1) == Some(g2));
    }
    assert(gather_ends(m, c, now, code, from, done, 2));
    assert(prerequisites_outcome(m, c, now, code, found));
    let chosen = choose|found: Seq<(Seq<char>, bool)>|
        prerequisites_outcome(m, c, now, code, found);
    prerequisites_outcome_is_unique(m, c, now, code, chosen, found);
    assert(found_texts(found) =~= seq![uz + "[MISSING]"@, ua]);
    let outcome = Err::<ChainModel, ErrorModel>(e);
    reveal_with_fuel(unseen_prerequisites, 3);
    assert(unseen_prerequisites(seq![needed], seen1) == seq![needed]) by {
        assert(!seen1.contains(uz));
        assert(none.push(needed) == seq![needed]);
    }
    assert forall|fuel: nat| fuel >= 2 implies #[trigger] chain_walk(
        m,
        c,
        now,
        true,
        seq![code],
        none,
        none,
        Seq::empty(),
        fuel,
    ) == Some(outcome) by {
        let f1 = (fuel - 1) as nat;
        assert(none + seq![needed] =~= seq![needed]);
        assert(chain_walk(
            m,
            c,
            now,
            true,
            seq![needed],
            seen1,
            none.push(ua),
            Seq::<DoorModel>::empty().push(door),
            f1,
        ) == Some(outcome));
    }
    assert(chain_ends(m, c, now, seq![code], true, outcome, 2));
    chain_outcome_is_chain(m, c, now, seq![code], true, outcome);
}

} // verus!
