//! The shape of a door document and of the entries of the indexes.
use vstd::prelude::*;
use vstd::string::*;
use crate::json::{member, JsonModel, JsonValue};
use crate::text::{
    copy_texts, each_wrapped, is_ascii_digit, is_ascii_letter, ascii_digit, ascii_letter, chars_of,
    decimal, decimal_of, has_prefix, headed, join, joined, labelled, owned, section, starts_with,
    text_of_range, wrapped_items,
};

verus! {

/// A known issue of a door, by the JSON value it is written as.
#[derive(Debug)]
pub enum KnownError {
    /// A text.
    Text(String),
    /// An object, which may describe the issue in a member `error`.
    Record(JsonValue),
    /// Any other value, and that value in compact JSON notation.
    Other { document: JsonValue, rendered: String },
}

/// Quick-start material of a door.
#[derive(Debug)]
pub struct Onboarding {
    pub quick_start: String,
    pub full_context_path: String,
    pub common_patterns: Vec<String>,
    pub known_errors: Vec<KnownError>,
}

/// References that a door points to.
#[derive(Debug)]
pub struct Resources {
    pub docs: Vec<String>,
    pub code: Vec<String>,
    pub tests: Vec<String>,
    pub errors: Vec<String>,
}

/// A confidence score between 0 and 1: the score as written, and the whole
/// percentage it rounds to.
#[derive(Debug)]
pub struct Confidence {
    pub score: String,
    pub percent: u64,
}

/// What is known about a door besides its content.
#[derive(Debug)]
pub struct Metadata {
    pub last_updated: String,
    pub confidence: Confidence,
    pub tags: Vec<String>,
    pub category: String,
    pub subcategory: String,
    pub version: String,
    pub agent_affinity: Vec<String>,
}

/// The content of a door.
#[derive(Debug)]
pub struct ContextBundle {
    pub summary: String,
    pub prerequisites: Vec<String>,
    pub related_doors: Vec<String>,
    pub onboarding: Option<Onboarding>,
    pub resources: Option<Resources>,
    pub metadata: Option<Metadata>,
}

/// A door document.
#[derive(Debug)]
pub struct Door {
    pub door_code: String,
    pub semantic_path: String,
    pub aliases: Vec<String>,
    pub context_bundle: ContextBundle,
}

/// An entry of the code index: where a door is stored.
#[derive(Debug)]
pub struct HashTableEntry {
    pub door_code: String,
    pub file_path: String,
    pub category: String,
    pub short_code: String,
}

/// An entry of the semantic map: a search key and the door it leads to.
#[derive(Debug)]
pub struct SemanticMapEntry {
    pub key: String,
    pub door_code: String,
    pub match_type: String,
}

// ---------------------------------------------------------------------------
// Models
// ---------------------------------------------------------------------------

pub enum KnownErrorModel {
    Text(Seq<char>),
    Record(JsonModel),
    Other { document: JsonModel, rendered: Seq<char> },
}

pub struct OnboardingModel {
    pub quick_start: Seq<char>,
    pub full_context_path: Seq<char>,
    pub common_patterns: Seq<Seq<char>>,
    pub known_errors: Seq<KnownErrorModel>,
}

pub struct ResourcesModel {
    pub docs: Seq<Seq<char>>,
    pub code: Seq<Seq<char>>,
    pub tests: Seq<Seq<char>>,
    pub errors: Seq<Seq<char>>,
}

pub struct ConfidenceModel {
    pub score: Seq<char>,
    pub percent: u64,
}

pub struct MetadataModel {
    pub last_updated: Seq<char>,
    pub confidence: ConfidenceModel,
    pub tags: Seq<Seq<char>>,
    pub category: Seq<char>,
    pub subcategory: Seq<char>,
    pub version: Seq<char>,
    pub agent_affinity: Seq<Seq<char>>,
}

pub struct ContextBundleModel {
    pub summary: Seq<char>,
    pub prerequisites: Seq<Seq<char>>,
    pub related_doors: Seq<Seq<char>>,
    pub onboarding: Option<OnboardingModel>,
    pub resources: Option<ResourcesModel>,
    pub metadata: Option<MetadataModel>,
}

pub struct DoorModel {
    pub door_code: Seq<char>,
    pub semantic_path: Seq<char>,
    pub aliases: Seq<Seq<char>>,
    pub context_bundle: ContextBundleModel,
}

pub struct EntryModel {
    pub door_code: Seq<char>,
    pub file_path: Seq<char>,
    pub category: Seq<char>,
    pub short_code: Seq<char>,
}

pub struct SemanticMapEntryModel {
    pub key: Seq<char>,
    pub door_code: Seq<char>,
    pub match_type: Seq<char>,
}

impl DeepView for KnownError {
    type V = KnownErrorModel;

    open spec fn deep_view(&self) -> KnownErrorModel {
        match self {
            KnownError::Text(t) => KnownErrorModel::Text(t@),
            KnownError::Record(r) => KnownErrorModel::Record(r.deep_view()),
            KnownError::Other { document, rendered } => KnownErrorModel::Other {
                document: document.deep_view(),
                rendered: rendered@,
            },
        }
    }
}

impl DeepView for Onboarding {
    type V = OnboardingModel;

    open spec fn deep_view(&self) -> OnboardingModel {
        OnboardingModel {
            quick_start: self.quick_start@,
            full_context_path: self.full_context_path@,
            common_patterns: self.common_patterns.deep_view(),
            known_errors: self.known_errors.deep_view(),
        }
    }
}

impl DeepView for Resources {
    type V = ResourcesModel;

    open spec fn deep_view(&self) -> ResourcesModel {
        ResourcesModel {
            docs: self.docs.deep_view(),
            code: self.code.deep_view(),
            tests: self.tests.deep_view(),
            errors: self.errors.deep_view(),
        }
    }
}

impl DeepView for Confidence {
    type V = ConfidenceModel;

    open spec fn deep_view(&self) -> ConfidenceModel {
        ConfidenceModel { score: self.score@, percent: self.percent }
    }
}

impl DeepView for Metadata {
    type V = MetadataModel;

    open spec fn deep_view(&self) -> MetadataModel {
        MetadataModel {
            last_updated: self.last_updated@,
            confidence: self.confidence.deep_view(),
            tags: self.tags.deep_view(),
            category: self.category@,
            subcategory: self.subcategory@,
            version: self.version@,
            agent_affinity: self.agent_affinity.deep_view(),
        }
    }
}

impl DeepView for ContextBundle {
    type V = ContextBundleModel;

    open spec fn deep_view(&self) -> ContextBundleModel {
        ContextBundleModel {
            summary: self.summary@,
            prerequisites: self.prerequisites.deep_view(),
            related_doors: self.related_doors.deep_view(),
            onboarding: self.onboarding.deep_view(),
            resources: self.resources.deep_view(),
            metadata: self.metadata.deep_view(),
        }
    }
}

impl DeepView for Door {
    type V = DoorModel;

    open spec fn deep_view(&self) -> DoorModel {
        DoorModel {
            door_code: self.door_code@,
            semantic_path: self.semantic_path@,
            aliases: self.aliases.deep_view(),
            context_bundle: self.context_bundle.deep_view(),
        }
    }
}

impl DeepView for HashTableEntry {
    type V = EntryModel;

    open spec fn deep_view(&self) -> EntryModel {
        EntryModel {
            door_code: self.door_code@,
            file_path: self.file_path@,
            category: self.category@,
            short_code: self.short_code@,
        }
    }
}

impl DeepView for SemanticMapEntry {
    type V = SemanticMapEntryModel;

    open spec fn deep_view(&self) -> SemanticMapEntryModel {
        SemanticMapEntryModel {
            key: self.key@,
            door_code: self.door_code@,
            match_type: self.match_type@,
        }
    }
}

// ---------------------------------------------------------------------------
// Copies
// ---------------------------------------------------------------------------

impl Clone for KnownError {
    fn clone(&self) -> (r: Self)
        ensures
            r.deep_view() == self.deep_view(),
    {
        match self {
            KnownError::Text(t) => KnownError::Text(t.clone()),
            KnownError::Record(r) => KnownError::Record(r.clone()),
            KnownError::Other { document, rendered } => KnownError::Other {
                document: document.clone(),
                rendered: rendered.clone(),
            },
        }
    }
}

impl Clone for Onboarding {
    fn clone(&self) -> (r: Self)
        ensures
            r.deep_view() == self.deep_view(),
    {
        Onboarding {
            quick_start: self.quick_start.clone(),
            full_context_path: self.full_context_path.clone(),
            common_patterns: copy_texts(&self.common_patterns),
            known_errors: self.known_errors.clone(),
        }
    }
}

impl Clone for Resources {
    fn clone(&self) -> (r: Self)
        ensures
            r.deep_view() == self.deep_view(),
    {
        Resources {
            docs: copy_texts(&self.docs),
            code: copy_texts(&self.code),
            tests: copy_texts(&self.tests),
            errors: copy_texts(&self.errors),
        }
    }
}

impl Clone for Confidence {
    fn clone(&self) -> (r: Self)
        ensures
            r.deep_view() == self.deep_view(),
    {
        Confidence { score: self.score.clone(), percent: self.percent }
    }
}

impl Clone for Metadata {
    fn clone(&self) -> (r: Self)
        ensures
            r.deep_view() == self.deep_view(),
    {
        Metadata {
            last_updated: self.last_updated.clone(),
            confidence: self.confidence.clone(),
            tags: copy_texts(&self.tags),
            category: self.category.clone(),
            subcategory: self.subcategory.clone(),
            version: self.version.clone(),
            agent_affinity: copy_texts(&self.agent_affinity),
        }
    }
}

impl Clone for ContextBundle {
    fn clone(&self) -> (r: Self)
        ensures
            r.deep_view() == self.deep_view(),
    {
        ContextBundle {
            summary: self.summary.clone(),
            prerequisites: copy_texts(&self.prerequisites),
            related_doors: copy_texts(&self.related_doors),
            onboarding: match &self.onboarding {
                Some(o) => Some(o.clone()),
                None => None,
            },
            resources: match &self.resources {
                Some(r) => Some(r.clone()),
                None => None,
            },
            metadata: match &self.metadata {
                Some(m) => Some(m.clone()),
                None => None,
            },
        }
    }
}

impl Clone for Door {
    fn clone(&self) -> (r: Self)
        ensures
            r.deep_view() == self.deep_view(),
    {
        Door {
            door_code: self.door_code.clone(),
            semantic_path: self.semantic_path.clone(),
            aliases: copy_texts(&self.aliases),
            context_bundle: self.context_bundle.clone(),
        }
    }
}

impl Clone for HashTableEntry {
    fn clone(&self) -> (r: Self)
        ensures
            r.deep_view() == self.deep_view(),
    {
        HashTableEntry {
            door_code: self.door_code.clone(),
            file_path: self.file_path.clone(),
            category: self.category.clone(),
            short_code: self.short_code.clone(),
        }
    }
}

impl Clone for SemanticMapEntry {
    fn clone(&self) -> (r: Self)
        ensures
            r.deep_view() == self.deep_view(),
    {
        SemanticMapEntry {
            key: self.key.clone(),
            door_code: self.door_code.clone(),
            match_type: self.match_type.clone(),
        }
    }
}


// ---------------------------------------------------------------------------
// The short code
// ---------------------------------------------------------------------------

/// Where the short code of `code` ends, seen from position `at`: `end` is
/// where it ends as far as the characters before `at` tell, `found` whether a
/// digit stands among them.
pub open spec fn short_code_end(code: Seq<char>, at: int, end: int, found: bool) -> int
    decreases code.len() - at,
{
    if at < 0 || at >= code.len() {
        end
    } else if ascii_digit(code[at]) {
        short_code_end(code, at + 1, at + 1, true)
    } else if found && ascii_letter(code[at]) {
        end
    } else if !found {
        short_code_end(code, at + 1, at + 1, false)
    } else {
        short_code_end(code, at + 1, end, found)
    }
}

/// The short code of a door code: the code up to its last digit that stands
/// before the first letter after a digit; the whole code where it has no
/// digit.
pub open spec fn short_code_of(code: Seq<char>) -> Seq<char> {
    code.take(short_code_end(code, 0, 0, false))
}

/// Whether a digit stands among the first `upto` characters of a code.
pub open spec fn has_digit(code: Seq<char>, upto: int) -> bool {
    exists|i: int| 0 <= i < upto && i < code.len() && ascii_digit(#[trigger] code[i])
}

proof fn short_code_end_is_sound(code: Seq<char>, at: int, end: int, found: bool)
    requires
        0 <= end <= at <= code.len(),
        found == has_digit(code, at),
        found ==> end > 0 && ascii_digit(code[end - 1]),
        !found ==> end == at,
    ensures
        ({
            let r = short_code_end(code, at, end, found);
            &&& end <= r <= code.len()
            &&& has_digit(code, code.len() as int) ==> r > 0 && ascii_digit(code[r - 1])
            &&& !has_digit(code, code.len() as int) ==> r == code.len()
        }),
    decreases code.len() - at,
{
    if at < code.len() {
        if ascii_digit(code[at]) {
            assert(has_digit(code, at + 1));
            short_code_end_is_sound(code, at + 1, at + 1, true);
        } else if found && ascii_letter(code[at]) {
            let i = choose|i: int| 0 <= i < at && i < code.len() && ascii_digit(#[trigger] code[i]);
            assert(has_digit(code, code.len() as int));
        } else {
            assert(has_digit(code, at + 1) == has_digit(code, at)) by {
                if has_digit(code, at + 1) {
                    let i = choose|i: int|
                        0 <= i < at + 1 && i < code.len() && ascii_digit(#[trigger] code[i]);
                    assert(i != at);
                }
            }
            if !found {
                short_code_end_is_sound(code, at + 1, at + 1, false);
            } else {
                short_code_end_is_sound(code, at + 1, end, found);
            }
        }
    }
}

/// The short code of a code is a beginning of the code: the whole code
/// where the code has no digit, or else a beginning that ends with a digit.
pub proof fn short_code_is_a_prefix(code: Seq<char>)
    ensures
        short_code_of(code).len() <= code.len(),
        short_code_of(code) == code.take(short_code_of(code).len() as int),
        !has_digit(code, code.len() as int) ==> short_code_of(code) == code,
        has_digit(code, code.len() as int) ==> short_code_of(code).len() > 0 && ascii_digit(
            short_code_of(code).last(),
        ),
{
    short_code_end_is_sound(code, 0, 0, false);
    assert(code.take(code.len() as int) == code);
}

/// The short code of a door code.
#[verifier::loop_isolation(false)]
pub fn short_code_text(code: &str) -> (r: String)
    ensures
        r@ == short_code_of(code@),
{
    let chars = chars_of(code);
    let mut end: usize = 0;
    let mut found = false;
    let mut at: usize = 0;
    while at < chars.len()
        invariant
            end <= at <= chars.len(),
            short_code_end(code@, 0, 0, false) == short_code_end(code@, at as int, end as int, found),
        decreases chars.len() - at,
    {
        let c = chars[at];
        if is_ascii_digit(c) {
            found = true;
            end = at + 1;
        } else if found && is_ascii_letter(c) {
            break;
        } else if !found {
            end = at + 1;
        }
        at += 1;
    }
    text_of_range(&chars, 0, end)
}

// ---------------------------------------------------------------------------
// The category
// ---------------------------------------------------------------------------

/// The category that a door code's first characters stand for.
pub open spec fn category_of_code(code: Seq<char>) -> Seq<char> {
    if has_prefix(code, "S"@) {
        "SECURITY"@
    } else if has_prefix(code, "W"@) {
        "WORKFLOWS"@
    } else if has_prefix(code, "R"@) {
        "ARCHITECTURE"@
    } else if has_prefix(code, "T"@) || has_prefix(code, "D"@) {
        "TOOLS"@
    } else if has_prefix(code, "A"@) {
        "AGENTS"@
    } else if has_prefix(code, "P"@) || has_prefix(code, "000"@) {
        "PROJECTS"@
    } else if has_prefix(code, "E"@) {
        "ERRORS"@
    } else {
        "UNKNOWN"@
    }
}

/// The category of a door: the one its metadata names, or else the one its
/// code stands for.
pub open spec fn category_of(door: DoorModel) -> Seq<char> {
    match door.context_bundle.metadata {
        Some(meta) if meta.category.len() > 0 => meta.category,
        _ => category_of_code(door.door_code),
    }
}

// ---------------------------------------------------------------------------
// The text of a door
// ---------------------------------------------------------------------------

/// The summary view of a door.
pub open spec fn summary_text_of(door: DoorModel) -> Seq<char> {
    "# "@ + door.door_code + " ("@ + short_code_of(door.door_code) + ")\n\n"@ + section(
        door.semantic_path.len() > 0,
        "**Path:** "@ + door.semantic_path + "\n\n"@,
    ) + section(
        door.context_bundle.summary.len() > 0,
        "## Summary\n"@ + door.context_bundle.summary + "\n\n"@,
    ) + section(
        door.aliases.len() > 0,
        "**Aliases:** "@ + joined(door.aliases, ", "@) + "\n\n"@,
    )
}

/// A heading, a list of items one per line, and an empty line; nothing where
/// the list is empty.
pub open spec fn listing(heading: Seq<char>, items: Seq<Seq<char>>, before: Seq<char>, after: Seq<
    char,
>) -> Seq<char> {
    section(items.len() > 0, heading + each_wrapped(items, before, after) + "\n"@)
}

/// How a known issue is shown: a text as it is; an object by the text of its
/// member `error`, or as unknown where it has none; any other value in JSON
/// notation.
pub open spec fn known_error_text(e: KnownErrorModel) -> Seq<char> {
    match e {
        KnownErrorModel::Text(t) => t,
        KnownErrorModel::Record(record) => match member(record, "error"@) {
            Some(JsonModel::Text(t)) => t,
            _ => "Unknown error"@,
        },
        KnownErrorModel::Other { rendered, .. } => rendered,
    }
}

pub open spec fn known_error_texts(errors: Seq<KnownErrorModel>) -> Seq<Seq<char>> {
    Seq::new(errors.len(), |i: int| known_error_text(errors[i]))
}

pub open spec fn onboarding_text_of(onboarding: Option<OnboardingModel>) -> Seq<char> {
    match onboarding {
        Some(o) => section(o.quick_start.len() > 0, "## Quick Start\n"@ + o.quick_start + "\n\n"@)
            + listing("## Common Patterns\n"@, o.common_patterns, "- `"@, "`\n"@) + listing(
            "## Known Issues\n"@,
            known_error_texts(o.known_errors),
            "- "@,
            "\n"@,
        ),
        None => Seq::empty(),
    }
}

pub open spec fn resources_text_of(resources: Option<ResourcesModel>) -> Seq<char> {
    match resources {
        Some(r) => section(
            r.docs.len() > 0 || r.code.len() > 0,
            "## Resources\n"@ + section(
                r.docs.len() > 0,
                "### Documentation\n"@ + each_wrapped(r.docs, "- "@, "\n"@),
            ) + section(
                r.code.len() > 0,
                "### Code\n"@ + each_wrapped(r.code, "- "@, "\n"@),
            ) + "\n"@,
        ),
        None => Seq::empty(),
    }
}

pub open spec fn metadata_text_of(metadata: Option<MetadataModel>) -> Seq<char> {
    match metadata {
        Some(m) => "## Metadata\n"@ + "- **Category:** "@ + m.category + "\n"@ + section(
            m.subcategory.len() > 0,
            "- **Subcategory:** "@ + m.subcategory + "\n"@,
        ) + section(m.tags.len() > 0, "- **Tags:** "@ + joined(m.tags, ", "@) + "\n"@) + section(
            m.agent_affinity.len() > 0,
            "- **Agent Affinity:** "@ + joined(m.agent_affinity, ", "@) + "\n"@,
        ) + "- **Confidence:** "@ + decimal_of(m.confidence.percent as nat) + "%\n"@ + section(
            m.last_updated.len() > 0,
            "- **Updated:** "@ + m.last_updated + "\n"@,
        ),
        None => Seq::empty(),
    }
}

/// The full view of a door: its summary view, then its prerequisites, its
/// related doors, its onboarding, its resources and its metadata, each under
/// a heading of its own and only where there is something to show.
pub open spec fn full_text_of(door: DoorModel) -> Seq<char> {
    summary_text_of(door) + listing(
        "## Prerequisites\n"@,
        door.context_bundle.prerequisites,
        "- "@,
        "\n"@,
    ) + listing("## Related Doors\n"@, door.context_bundle.related_doors, "- "@, "\n"@)
        + onboarding_text_of(door.context_bundle.onboarding) + resources_text_of(
        door.context_bundle.resources,
    ) + metadata_text_of(door.context_bundle.metadata)
}

impl KnownError {
    /// How the issue is shown in a door's text.
    pub fn text(&self) -> (r: String)
        ensures
            r@ == known_error_text(self.deep_view()),
    {
        match self {
            KnownError::Text(t) => t.clone(),
            KnownError::Record(record) => match record.get("error") {
                Some(JsonValue::Text(t)) => t.clone(),
                _ => owned("Unknown error"),
            },
            KnownError::Other { rendered, .. } => rendered.clone(),
        }
    }
}

/// The texts under which known issues are shown.
#[verifier::loop_isolation(false)]
fn known_error_lines(errors: &Vec<KnownError>) -> (r: Vec<String>)
    ensures
        r.deep_view() == known_error_texts(errors.deep_view()),
{
    let mut out: Vec<String> = Vec::new();
    let mut i: usize = 0;
    while i < errors.len()
        invariant
            i <= errors.len(),
            out@.len() == i,
            forall|j: int| 0 <= j < i ==> out@[j]@ == known_error_text(errors@[j].deep_view()),
        decreases errors.len() - i,
    {
        out.push(errors[i].text());
        i += 1;
    }
    assert(out.deep_view() =~= known_error_texts(errors.deep_view()));
    out
}

/// A heading, the items one per line and an empty line, where there are items.
fn listing_text(heading: &str, items: &Vec<String>, before: &str, after: &str) -> (r: String)
    ensures
        r@ == listing(heading@, items.deep_view(), before@, after@),
{
    if items.len() > 0 {
        let mut part = owned(heading);
        part.append(wrapped_items(items, before, after).as_str());
        part.append("\n");
        part
    } else {
        String::new()
    }
}

fn onboarding_text(onboarding: &Option<Onboarding>) -> (r: String)
    ensures
        r@ == onboarding_text_of(onboarding.deep_view()),
{
    match onboarding {
        Some(o) => {
            let mut part = labelled(
                o.quick_start.as_str().unicode_len() > 0,
                "## Quick Start\n",
                o.quick_start.as_str(),
                "\n\n",
            );
            part.append(
                listing_text("## Common Patterns\n", &o.common_patterns, "- `", "`\n").as_str(),
            );
            let lines = known_error_lines(&o.known_errors);
            part.append(listing_text("## Known Issues\n", &lines, "- ", "\n").as_str());
            part
        },
        None => String::new(),
    }
}

fn resources_text(resources: &Option<Resources>) -> (r: String)
    ensures
        r@ == resources_text_of(resources.deep_view()),
{
    match resources {
        Some(res) => {
            if res.docs.len() > 0 || res.code.len() > 0 {
                let mut part = owned("## Resources\n");
                part.append(
                    headed(
                        res.docs.len() > 0,
                        "### Documentation\n",
                        wrapped_items(&res.docs, "- ", "\n").as_str(),
                    ).as_str(),
                );
                part.append(
                    headed(
                        res.code.len() > 0,
                        "### Code\n",
                        wrapped_items(&res.code, "- ", "\n").as_str(),
                    ).as_str(),
                );
                part.append("\n");
                part
            } else {
                String::new()
            }
        },
        None => String::new(),
    }
}

fn metadata_text(metadata: &Option<Metadata>) -> (r: String)
    ensures
        r@ == metadata_text_of(metadata.deep_view()),
{
    match metadata {
        Some(meta) => {
            let mut part = owned("## Metadata\n");
            part.append("- **Category:** ");
            part.append(meta.category.as_str());
            part.append("\n");
            part.append(
                labelled(
                    meta.subcategory.as_str().unicode_len() > 0,
                    "- **Subcategory:** ",
                    meta.subcategory.as_str(),
                    "\n",
                ).as_str(),
            );
            part.append(
                labelled(
                    meta.tags.len() > 0,
                    "- **Tags:** ",
                    join(&meta.tags, ", ").as_str(),
                    "\n",
                ).as_str(),
            );
            part.append(
                labelled(
                    meta.agent_affinity.len() > 0,
                    "- **Agent Affinity:** ",
                    join(&meta.agent_affinity, ", ").as_str(),
                    "\n",
                ).as_str(),
            );
            part.append("- **Confidence:** ");
            part.append(decimal(meta.confidence.percent).as_str());
            part.append("%\n");
            part.append(
                labelled(
                    meta.last_updated.as_str().unicode_len() > 0,
                    "- **Updated:** ",
                    meta.last_updated.as_str(),
                    "\n",
                ).as_str(),
            );
            part
        },
        None => String::new(),
    }
}

impl Door {
    /// The short code of the door, such as `D05` for `D05SILENT_INSTALL`.
    pub fn short_code(&self) -> (r: String)
        ensures
            r@ == short_code_of(self.door_code@),
    {
        short_code_text(self.door_code.as_str())
    }

    /// The category of the door: the one its metadata names, or else the one
    /// that its code begins with.
    pub fn category(&self) -> (r: String)
        ensures
            r@ == category_of(self.deep_view()),
    {
        match &self.context_bundle.metadata {
            Some(meta) => {
                if meta.category.as_str().unicode_len() > 0 {
                    return meta.category.clone();
                }
            },
            None => {},
        }
        let code = self.door_code.as_str();
        if starts_with(code, "S") {
            owned("SECURITY")
        } else if starts_with(code, "W") {
            owned("WORKFLOWS")
        } else if starts_with(code, "R") {
            owned("ARCHITECTURE")
        } else if starts_with(code, "T") || starts_with(code, "D") {
            owned("TOOLS")
        } else if starts_with(code, "A") {
            owned("AGENTS")
        } else if starts_with(code, "P") || starts_with(code, "000") {
            owned("PROJECTS")
        } else if starts_with(code, "E") {
            owned("ERRORS")
        } else {
            owned("UNKNOWN")
        }
    }

    /// The summary view of the door.
    pub fn summary_text(&self) -> (r: String)
        ensures
            r@ == summary_text_of(self.deep_view()),
    {
        let mut out = owned("# ");
        out.append(self.door_code.as_str());
        out.append(" (");
        out.append(self.short_code().as_str());
        out.append(")\n\n");
        out.append(
            labelled(
                self.semantic_path.as_str().unicode_len() > 0,
                "**Path:** ",
                self.semantic_path.as_str(),
                "\n\n",
            ).as_str(),
        );
        out.append(
            labelled(
                self.context_bundle.summary.as_str().unicode_len() > 0,
                "## Summary\n",
                self.context_bundle.summary.as_str(),
                "\n\n",
            ).as_str(),
        );
        out.append(
            labelled(
                self.aliases.len() > 0,
                "**Aliases:** ",
                join(&self.aliases, ", ").as_str(),
                "\n\n",
            ).as_str(),
        );
        out
    }

    /// The full view of the door.
    pub fn full_text(&self) -> (r: String)
        ensures
            r@ == full_text_of(self.deep_view()),
    {
        let mut out = self.summary_text();
        out.append(
            listing_text("## Prerequisites\n", &self.context_bundle.prerequisites, "- ", "\n").as_str(),
        );
        out.append(
            listing_text("## Related Doors\n", &self.context_bundle.related_doors, "- ", "\n").as_str(),
        );
        out.append(onboarding_text(&self.context_bundle.onboarding).as_str());
        out.append(resources_text(&self.context_bundle.resources).as_str());
        out.append(metadata_text(&self.context_bundle.metadata).as_str());
        out
    }
}

} // verus!
