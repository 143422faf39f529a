//! The prompts and the resources that the server offers.
use vstd::prelude::*;
use vstd::string::*;
use crate::door::loader::{loaded, same_answers, LoaderModel};
use crate::door::manager::{listed_doors, DoorListItem, DoorManager, ListItemModel};
use crate::door::review::stats_of;
use crate::door::store::{error_message, Corpus, CorpusModel, ErrorModel, LoaderError};
use crate::mcp::protocol::{
    DoorSummary, DoorSummaryModel, PromptArgument, PromptArgumentModel, PromptContent,
    PromptContentModel, PromptDefinition, PromptDefinitionModel, PromptGetParams,
    PromptGetParamsModel, PromptGetResult, PromptGetResultModel, PromptMessage,
    PromptMessageModel, PromptValue, PromptValueModel, ResourceBody, ResourceBodyModel,
    ResourceDefinition, ResourceDefinitionModel, ResourceReadContent, ResourceReadContentModel,
    ResourceReadResult, ResourceReadResultModel,
};
use crate::text::{
    has_prefix, lowercase_of, owned, same, starts_with, strip_prefixes, to_lowercase,
    to_uppercase, uppercase_of, without_prefixes,
};

verus! {

// ---------------------------------------------------------------------------
// Prompts
// ---------------------------------------------------------------------------

/// A prompt with one required argument.
pub open spec fn prompt_with(name: Seq<char>, description: Seq<char>, argument: Seq<char>, about: Seq<
    char,
>) -> PromptDefinitionModel {
    PromptDefinitionModel {
        name,
        description,
        arguments: Some(
            seq![PromptArgumentModel { name: argument, description: about, required: Some(true) }],
        ),
    }
}

/// A prompt without arguments.
pub open spec fn plain_prompt(name: Seq<char>, description: Seq<char>) -> PromptDefinitionModel {
    PromptDefinitionModel { name, description, arguments: None }
}

/// The prompts of the server.
pub open spec fn prompt_definitions() -> Seq<PromptDefinitionModel> {
    seq![
        prompt_with(
            "open_door"@,
            "Open a PhiSHRI door to load context for a specific topic"@,
            "door_code"@,
            "The door code to open (e.g., D05, S01, W115)"@,
        ),
        prompt_with(
            "explore_category"@,
            "Explore all doors in a specific category"@,
            "category"@,
            "Category: SECURITY, TOOLS, WORKFLOWS, ARCHITECTURE, AGENTS, PROJECTS, ERRORS"@,
        ),
        prompt_with(
            "find_context"@,
            "Find relevant doors for your current task using natural language"@,
            "query"@,
            "Describe what you're working on or need help with"@,
        ),
        plain_prompt("session_resume"@, "Resume a previous session from a checkpoint"@),
        plain_prompt(
            "phishri_overview"@,
            "Get an overview of the PhiSHRI knowledge base and available doors"@,
        ),
    ]
}

fn prompt_taking(name: &str, description: &str, argument: &str, about: &str) -> (r:
    PromptDefinition)
    ensures
        r.deep_view() == prompt_with(name@, description@, argument@, about@),
{
    let mut arguments: Vec<PromptArgument> = Vec::new();
    arguments.push(
        PromptArgument { name: owned(argument), description: owned(about), required: Some(true) },
    );
    let r = PromptDefinition {
        name: owned(name),
        description: owned(description),
        arguments: Some(arguments),
    };
    assert(r.deep_view().arguments->0 =~= seq![
        PromptArgumentModel { name: argument@, description: about@, required: Some(true) },
    ]);
    r
}

fn prompt_plain(name: &str, description: &str) -> (r: PromptDefinition)
    ensures
        r.deep_view() == plain_prompt(name@, description@),
{
    PromptDefinition { name: owned(name), description: owned(description), arguments: None }
}

/// The prompts of the server.
pub fn list_prompts() -> (r: Vec<PromptDefinition>)
    ensures
        r.deep_view() == prompt_definitions(),
{
    let mut prompts: Vec<PromptDefinition> = Vec::new();
    prompts.push(
        prompt_taking(
            "open_door",
            "Open a PhiSHRI door to load context for a specific topic",
            "door_code",
            "The door code to open (e.g., D05, S01, W115)",
        ),
    );
    prompts.push(
        prompt_taking(
            "explore_category",
            "Explore all doors in a specific category",
            "category",
            "Category: SECURITY, TOOLS, WORKFLOWS, ARCHITECTURE, AGENTS, PROJECTS, ERRORS",
        ),
    );
    prompts.push(
        prompt_taking(
            "find_context",
            "Find relevant doors for your current task using natural language",
            "query",
            "Describe what you're working on or need help with",
        ),
    );
    prompts.push(prompt_plain("session_resume", "Resume a previous session from a checkpoint"));
    prompts.push(
        prompt_plain(
            "phishri_overview",
            "Get an overview of the PhiSHRI knowledge base and available doors",
        ),
    );
    assert(prompts.deep_view() =~= prompt_definitions());
    prompts
}

/// The value of the first of `values[from..]` that is named `name`.
pub open spec fn value_from(values: Seq<PromptValueModel>, name: Seq<char>, from: int) -> Option<
    Seq<char>,
>
    decreases values.len() - from,
{
    if from < 0 || from >= values.len() {
        None
    } else if values[from].name == name {
        Some(values[from].value)
    } else {
        value_from(values, name, from + 1)
    }
}

/// The argument that a prompt is asked with under a name, or `default`.
pub open spec fn prompt_argument(arguments: Option<Seq<PromptValueModel>>, name: Seq<char>, default: Seq<
    char,
>) -> Seq<char> {
    match arguments {
        Some(values) => match value_from(values, name, 0) {
            Some(value) => value,
            None => default,
        },
        None => default,
    }
}

#[verifier::loop_isolation(false)]
fn argument_or(arguments: &Option<Vec<PromptValue>>, name: &str, default: &str) -> (r: String)
    ensures
        r@ == prompt_argument(arguments.deep_view(), name@, default@),
{
    match arguments {
        Some(values) => {
            let ghost model = values.deep_view();
            let mut i: usize = 0;
            while i < values.len()
                invariant
                    i <= values.len(),
                    value_from(model, name@, 0) == value_from(model, name@, i as int),
                decreases values.len() - i,
            {
                assert(model[i as int] == values@[i as int].deep_view());
                if same(values[i].name.as_str(), name) {
                    return values[i].value.clone();
                }
                i += 1;
            }
            owned(default)
        },
        None => owned(default),
    }
}

/// A prompt of one message from the user.
pub open spec fn prompt_of(description: Seq<char>, text: Seq<char>) -> PromptGetResultModel {
    PromptGetResultModel {
        description: Some(description),
        messages: seq![
            PromptMessageModel { role: "user"@, content: PromptContentModel::Text { text } },
        ],
    }
}

fn prompt_saying(description: String, text: String) -> (r: PromptGetResult)
    ensures
        r.deep_view() == prompt_of(description@, text@),
{
    let mut messages: Vec<PromptMessage> = Vec::new();
    messages.push(PromptMessage { role: owned("user"), content: PromptContent::Text { text } });
    let r = PromptGetResult { description: Some(description), messages };
    assert(r.deep_view().messages =~= seq![
        PromptMessageModel { role: "user"@, content: PromptContentModel::Text { text: text@ } },
    ]);
    r
}

/// The prompt of a name, asked with arguments; nothing where no prompt has
/// the name. An argument that is not given has its default: the door
/// `D05`, the category `TOOLS`, the query `general development`.
pub open spec fn prompt_for(params: PromptGetParamsModel) -> Option<PromptGetResultModel> {
    if params.name == "open_door"@ {
        let door_code = prompt_argument(params.arguments, "door_code"@, "D05"@);
        Some(
            prompt_of(
                "Load context from door "@ + door_code,
                "Please open PhiSHRI door "@ + door_code
                    + " and use the context to help me with my current task. After loading, summarize the key points and ask how you can help."@,
            ),
        )
    } else if params.name == "explore_category"@ {
        let category = prompt_argument(params.arguments, "category"@, "TOOLS"@);
        Some(
            prompt_of(
                "Explore "@ + category + " category"@,
                "List all PhiSHRI doors in the "@ + category
                    + " category and give me a brief overview of each. Highlight the most commonly useful ones."@,
            ),
        )
    } else if params.name == "find_context"@ {
        let query = prompt_argument(params.arguments, "query"@, "general development"@);
        Some(
            prompt_of(
                "Find relevant context"@,
                "I need help with: "@ + query
                    + "\n\nSearch PhiSHRI for relevant doors, load the most applicable ones, and use that context to assist me. Explain what context you loaded and why."@,
            ),
        )
    } else if params.name == "session_resume"@ {
        Some(
            prompt_of(
                "Resume previous session"@,
                "Check for any saved PhiSHRI session state or checkpoints. If found, load the context and summarize where we left off. If not, list available checkpoints or start fresh."@,
            ),
        )
    } else if params.name == "phishri_overview"@ {
        Some(
            prompt_of(
                "PhiSHRI knowledge base overview"@,
                "Give me an overview of the PhiSHRI knowledge base:\n1. How many doors are available and in what categories?\n2. What are the most useful doors for common development tasks?\n3. How do I use door codes to load context?\n4. Show some example door codes and what they contain."@,
            ),
        )
    } else {
        None
    }
}

/// The prompt of a name, asked with arguments.
pub fn get_prompt(params: &PromptGetParams) -> (r: Option<PromptGetResult>)
    ensures
        r.deep_view() == prompt_for(params.deep_view()),
{
    let name = params.name.as_str();
    if same(name, "open_door") {
        let door_code = argument_or(&params.arguments, "door_code", "D05");
        let mut description = owned("Load context from door ");
        description.append(door_code.as_str());
        let mut text = owned("Please open PhiSHRI door ");
        text.append(door_code.as_str());
        text.append(
            " and use the context to help me with my current task. After loading, summarize the key points and ask how you can help.",
        );
        Some(prompt_saying(description, text))
    } else if same(name, "explore_category") {
        let category = argument_or(&params.arguments, "category", "TOOLS");
        let mut description = owned("Explore ");
        description.append(category.as_str());
        description.append(" category");
        let mut text = owned("List all PhiSHRI doors in the ");
        text.append(category.as_str());
        text.append(
            " category and give me a brief overview of each. Highlight the most commonly useful ones.",
        );
        Some(prompt_saying(description, text))
    } else if same(name, "find_context") {
        let query = argument_or(&params.arguments, "query", "general development");
        let mut text = owned("I need help with: ");
        text.append(query.as_str());
        text.append(
            "\n\nSearch PhiSHRI for relevant doors, load the most applicable ones, and use that context to assist me. Explain what context you loaded and why.",
        );
        Some(prompt_saying(owned("Find relevant context"), text))
    } else if same(name, "session_resume") {
        Some(
            prompt_saying(
                owned("Resume previous session"),
                owned(
                    "Check for any saved PhiSHRI session state or checkpoints. If found, load the context and summarize where we left off. If not, list available checkpoints or start fresh.",
                ),
            ),
        )
    } else if same(name, "phishri_overview") {
        Some(
            prompt_saying(
                owned("PhiSHRI knowledge base overview"),
                owned(
                    "Give me an overview of the PhiSHRI knowledge base:\n1. How many doors are available and in what categories?\n2. What are the most useful doors for common development tasks?\n3. How do I use door codes to load context?\n4. Show some example door codes and what they contain.",
                ),
            ),
        )
    } else {
        None
    }
}

// ---------------------------------------------------------------------------
// Resources
// ---------------------------------------------------------------------------

/// The kind of content that every resource has.
pub open spec fn json_kind() -> Seq<char> {
    "application/json"@
}

/// The resource of a category: the doors of the category, under the
/// category's name in lowercase.
pub open spec fn category_resource(name: Seq<char>, description: Seq<char>) -> ResourceDefinitionModel {
    ResourceDefinitionModel {
        uri: "phishri://category/"@ + lowercase_of(name),
        name: name + " Doors"@,
        description: Some(description),
        mime_type: Some(json_kind()),
    }
}

/// A resource that stands on its own.
pub open spec fn single_resource(uri: Seq<char>, name: Seq<char>, description: Seq<char>) -> ResourceDefinitionModel {
    ResourceDefinitionModel {
        uri,
        name,
        description: Some(description),
        mime_type: Some(json_kind()),
    }
}

/// The resources of the server: the doors of each of the eight categories,
/// the index of all doors, and the statistics.
pub open spec fn resource_definitions() -> Seq<ResourceDefinitionModel> {
    seq![
        category_resource(
            "SECURITY"@,
            "Security best practices, OWASP, authentication, encryption"@,
        ),
        category_resource("TOOLS"@, "Development tools, deployment, installers, CI/CD"@),
        category_resource("WORKFLOWS"@, "Git workflows, code review, testing, automation"@),
        category_resource("ARCHITECTURE"@, "System design, microservices, APIs, patterns"@),
        category_resource("AGENTS"@, "AI agent patterns, coordination, memory management"@),
        category_resource("PROJECTS"@, "Project-specific context and configurations"@),
        category_resource("ERRORS"@, "Common errors, debugging, troubleshooting"@),
        category_resource("LANGUAGES"@, "Language-specific patterns and best practices"@),
        single_resource("phishri://index"@, "Door Index"@, "Complete index of all PhiSHRI doors"@),
        single_resource("phishri://stats"@, "Statistics"@, "PhiSHRI knowledge base statistics"@),
    ]
}

fn resource_of_category(name: &str, description: &str) -> (r: ResourceDefinition)
    ensures
        r.deep_view() == category_resource(name@, description@),
{
    let mut uri = owned("phishri://category/");
    uri.append(to_lowercase(name).as_str());
    let mut title = owned(name);
    title.append(" Doors");
    ResourceDefinition {
        uri,
        name: title,
        description: Some(owned(description)),
        mime_type: Some(owned("application/json")),
    }
}

fn resource_alone(uri: &str, name: &str, description: &str) -> (r: ResourceDefinition)
    ensures
        r.deep_view() == single_resource(uri@, name@, description@),
{
    ResourceDefinition {
        uri: owned(uri),
        name: owned(name),
        description: Some(owned(description)),
        mime_type: Some(owned("application/json")),
    }
}

/// The resources of the server.
pub fn list_resources() -> (r: Vec<ResourceDefinition>)
    ensures
        r.deep_view() == resource_definitions(),
{
    let mut resources: Vec<ResourceDefinition> = Vec::new();
    resources.push(
        resource_of_category(
            "SECURITY",
            "Security best practices, OWASP, authentication, encryption",
        ),
    );
    resources.push(
        resource_of_category("TOOLS", "Development tools, deployment, installers, CI/CD"),
    );
    resources.push(
        resource_of_category("WORKFLOWS", "Git workflows, code review, testing, automation"),
    );
    resources.push(
        resource_of_category("ARCHITECTURE", "System design, microservices, APIs, patterns"),
    );
    resources.push(
        resource_of_category("AGENTS", "AI agent patterns, coordination, memory management"),
    );
    resources.push(resource_of_category("PROJECTS", "Project-specific context and configurations"));
    resources.push(resource_of_category("ERRORS", "Common errors, debugging, troubleshooting"));
    resources.push(
        resource_of_category("LANGUAGES", "Language-specific patterns and best practices"),
    );
    resources.push(
        resource_alone("phishri://index", "Door Index", "Complete index of all PhiSHRI doors"),
    );
    resources.push(
        resource_alone("phishri://stats", "Statistics", "PhiSHRI knowledge base statistics"),
    );
    assert(resources.deep_view() =~= resource_definitions());
    resources
}

/// The most doors that the index resource lists.
pub const INDEX_RESOURCE_LIMIT: usize = 1000;

/// The most doors that the resource of a category lists.
pub const CATEGORY_RESOURCE_LIMIT: usize = 500;

/// The doors of a list, each as its code and its summary.
pub open spec fn summaries(items: Seq<ListItemModel>) -> Seq<DoorSummaryModel> {
    Seq::new(
        items.len(),
        |i: int| DoorSummaryModel { code: items[i].full_code, summary: items[i].summary },
    )
}

/// An error as a resource holds it.
pub open spec fn error_body(message: Seq<char>) -> ResourceBodyModel {
    ResourceBodyModel::Text("{\"error\": \""@ + message + "\"}"@)
}

/// A listing as a resource holds it, or the error where there is none.
pub open spec fn listing_body(listing: Result<Seq<ListItemModel>, ErrorModel>) -> ResourceBodyModel {
    match listing {
        Ok(items) => ResourceBodyModel::Doors(summaries(items)),
        Err(e) => error_body(error_message(e)),
    }
}

/// What a resource holds: the index, the statistics, the doors of a
/// category, or a door; an error for any other identifier.
pub open spec fn resource_body(m: LoaderModel, c: CorpusModel, now: u64, uri: Seq<char>) -> ResourceBodyModel {
    if uri == "phishri://index"@ {
        listing_body(listed_doors(m, c, now, None, INDEX_RESOURCE_LIMIT as int))
    } else if uri == "phishri://stats"@ {
        let stats = stats_of(m, c, now, "category"@);
        ResourceBodyModel::Stats {
            total_doors: stats.total_doors,
            index_exists: stats.index_exists,
            by_category: stats.by_category,
        }
    } else if has_prefix(uri, "phishri://category/"@) {
        listing_body(
            listed_doors(
                m,
                c,
                now,
                Some(uppercase_of(without_prefixes(uri, "phishri://category/"@))),
                CATEGORY_RESOURCE_LIMIT as int,
            ),
        )
    } else if has_prefix(uri, "phishri://door/"@) {
        match loaded(m, c, now, without_prefixes(uri, "phishri://door/"@)) {
            Ok(door) => ResourceBodyModel::Door(door),
            Err(e) => error_body(error_message(e)),
        }
    } else {
        error_body("Unknown resource: "@ + uri)
    }
}

/// The answer to reading a resource.
pub open spec fn resource_read(m: LoaderModel, c: CorpusModel, now: u64, uri: Seq<char>) -> ResourceReadResultModel {
    ResourceReadResultModel {
        contents: seq![
            ResourceReadContentModel {
                uri,
                mime_type: Some(json_kind()),
                body: resource_body(m, c, now, uri),
            },
        ],
    }
}

fn body_of_error(message: &str) -> (r: ResourceBody)
    ensures
        r.deep_view() == error_body(message@),
{
    let mut text = owned("{\"error\": \"");
    text.append(message);
    text.append("\"}");
    ResourceBody::Text(text)
}

#[verifier::loop_isolation(false)]
fn body_of_listing(listing: Result<Vec<DoorListItem>, LoaderError>) -> (r: ResourceBody)
    ensures
        r.deep_view() == listing_body(
            match listing {
                Ok(items) => Ok(items.deep_view()),
                Err(e) => Err(e.deep_view()),
            },
        ),
{
    match listing {
        Ok(items) => {
            let mut doors: Vec<DoorSummary> = Vec::new();
            let mut i: usize = 0;
            while i < items.len()
                invariant
                    i <= items.len(),
                    doors@.len() == i,
                    forall|j: int|
                        0 <= j < i ==> doors@[j].deep_view() == (DoorSummaryModel {
                            code: items@[j].full_code@,
                            summary: items@[j].summary@,
                        }),
                decreases items.len() - i,
            {
                doors.push(
                    DoorSummary {
                        code: items[i].full_code.clone(),
                        summary: items[i].summary.clone(),
                    },
                );
                i += 1;
            }
            assert(doors.deep_view() =~= summaries(items.deep_view()));
            ResourceBody::Doors(doors)
        },
        Err(e) => body_of_error(e.message().as_str()),
    }
}

/// Reads a resource.
pub fn read_resource(manager: &mut DoorManager, uri: &str, corpus: &Corpus, now: u64) -> (r:
    ResourceReadResult)
    ensures
        r.deep_view() == resource_read(
            old(manager).deep_view().loader,
            corpus.deep_view(),
            now,
            uri@,
        ),
        same_answers(
            final(manager).deep_view().loader,
            old(manager).deep_view().loader,
            corpus.deep_view(),
            now,
        ),
        old(manager).deep_view().loader.settled() ==> final(manager).deep_view().loader.settled(),
        final(manager).deep_view().config == old(manager).deep_view().config,
{
    let body = if same(uri, "phishri://index") {
        body_of_listing(manager.list_doors(None, INDEX_RESOURCE_LIMIT, corpus, now))
    } else if same(uri, "phishri://stats") {
        let stats = manager.stats("category", corpus, now);
        ResourceBody::Stats {
            total_doors: stats.total_doors,
            index_exists: stats.index_exists,
            by_category: stats.by_category,
        }
    } else if starts_with(uri, "phishri://category/") {
        let category = to_uppercase(strip_prefixes(uri, "phishri://category/").as_str());
        body_of_listing(
            manager.list_doors(Some(category.as_str()), CATEGORY_RESOURCE_LIMIT, corpus, now),
        )
    } else if starts_with(uri, "phishri://door/") {
        let code = strip_prefixes(uri, "phishri://door/");
        match manager.read_door(code.as_str(), corpus, now) {
            Ok(door) => ResourceBody::Door(door),
            Err(e) => body_of_error(e.message().as_str()),
        }
    } else {
        let mut message = owned("Unknown resource: ");
        message.append(uri);
        body_of_error(message.as_str())
    };
    let mut contents: Vec<ResourceReadContent> = Vec::new();
    contents.push(
        ResourceReadContent { uri: owned(uri), mime_type: Some(owned("application/json")), body },
    );
    let r = ResourceReadResult { contents };
    assert(r.deep_view().contents =~= resource_read(
        old(manager).deep_view().loader,
        corpus.deep_view(),
        now,
        uri@,
    ).contents);
    r
}

} // verus!
