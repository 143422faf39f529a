//! The operations that the server announces, each with the schema of its
//! parameters.
use vstd::prelude::*;
use vstd::string::*;
use crate::json::{member, with_item, with_member, JsonModel, JsonValue, NumberModel};
use crate::mcp::protocol::{ToolDefinition, ToolDefinitionModel};
use crate::text::owned;

verus! {

/// The number of operations.
pub const TOOL_COUNT: usize = 15;

// ---------------------------------------------------------------------------
// The parts of a schema
// ---------------------------------------------------------------------------

/// A property of a kind, without a description.
pub open spec fn plain_of(kind: Seq<char>) -> JsonModel {
    with_member(JsonModel::Object(Seq::empty()), "type"@, JsonModel::Text(kind))
}

/// A property of a kind, with its description.
pub open spec fn property_of(kind: Seq<char>, description: Seq<char>) -> JsonModel {
    with_member(plain_of(kind), "description"@, JsonModel::Text(description))
}

/// A property that is a text.
pub open spec fn text_property_of(description: Seq<char>) -> JsonModel {
    property_of("string"@, description)
}

/// A property that is a list of texts, without a description.
pub open spec fn plain_list_of() -> JsonModel {
    with_member(plain_of("array"@), "items"@, plain_of("string"@))
}

/// A property that is a list of texts.
pub open spec fn list_property_of(description: Seq<char>) -> JsonModel {
    with_member(plain_list_of(), "description"@, JsonModel::Text(description))
}

/// The schema of an object with the given properties, of which those named
/// are required; `required` is left out where it names none.
pub open spec fn schema_of(properties: JsonModel, required: JsonModel) -> JsonModel {
    let schema = with_member(plain_of("object"@), "properties"@, properties);
    match required {
        JsonModel::Array(names) if names.len() > 0 => with_member(schema, "required"@, required),
        _ => schema,
    }
}

/// An operation as it is announced.
pub open spec fn tool_of(name: Seq<char>, description: Seq<char>, input_schema: JsonModel) -> ToolDefinitionModel {
    ToolDefinitionModel { name, description, input_schema }
}

/// Whether a value is the schema of an object.
pub open spec fn is_object_schema(schema: JsonModel) -> bool {
    schema is Object && member(schema, "type"@) == Some(JsonModel::Text("object"@))
}

fn plain(kind: &str) -> (r: JsonValue)
    ensures
        r.deep_view() == plain_of(kind@),
{
    JsonValue::empty_object().with("type", JsonValue::text(kind))
}

fn property(kind: &str, description: &str) -> (r: JsonValue)
    ensures
        r.deep_view() == property_of(kind@, description@),
{
    plain(kind).with("description", JsonValue::text(description))
}

fn text_property(description: &str) -> (r: JsonValue)
    ensures
        r.deep_view() == text_property_of(description@),
{
    property("string", description)
}

fn plain_list() -> (r: JsonValue)
    ensures
        r.deep_view() == plain_list_of(),
{
    plain("array").with("items", plain("string"))
}

fn list_property(description: &str) -> (r: JsonValue)
    ensures
        r.deep_view() == list_property_of(description@),
{
    plain_list().with("description", JsonValue::text(description))
}

fn schema(properties: JsonValue, required: JsonValue) -> (r: JsonValue)
    ensures
        r.deep_view() == schema_of(properties.deep_view(), required.deep_view()),
        is_object_schema(r.deep_view()),
{
    let named = match required.as_array() {
        Some(names) => names.len() > 0,
        None => false,
    };
    let schema = plain("object").with("properties", properties);
    proof {
        let members = schema.deep_view()->Object_0;
        assert(members[0] == ("type"@, JsonModel::Text("object"@)));
    }
    if named {
        let r = schema.with("required", required);
        proof {
            let members = r.deep_view()->Object_0;
            assert(members[0] == ("type"@, JsonModel::Text("object"@)));
        }
        r
    } else {
        schema
    }
}

fn tool(name: &str, description: &str, input_schema: JsonValue) -> (r: ToolDefinition)
    ensures
        r.deep_view() == tool_of(name@, description@, input_schema.deep_view()),
{
    ToolDefinition { name: owned(name), description: owned(description), input_schema }
}

/// The seven categories that a door can be listed or made under.
pub open spec fn categories_of() -> JsonModel {
    with_item(with_item(with_item(with_item(with_item(with_item(with_item(JsonModel::Array(Seq::empty()), JsonModel::Text("SECURITY"@)), JsonModel::Text("TOOLS"@)), JsonModel::Text("WORKFLOWS"@)), JsonModel::Text("ARCHITECTURE"@)), JsonModel::Text("AGENTS"@)), JsonModel::Text("PROJECTS"@)), JsonModel::Text("ERRORS"@))
}

fn categories() -> (r: JsonValue)
    ensures
        r.deep_view() == categories_of(),
{
    JsonValue::empty_array().and(JsonValue::text("SECURITY")).and(JsonValue::text("TOOLS")).and(JsonValue::text("WORKFLOWS")).and(JsonValue::text("ARCHITECTURE")).and(JsonValue::text("AGENTS")).and(JsonValue::text("PROJECTS")).and(JsonValue::text("ERRORS"))
}

/// What every door has to be made with.
pub open spec fn required_of_a_door_of() -> JsonModel {
    with_item(with_item(with_item(with_item(JsonModel::Array(Seq::empty()), JsonModel::Text("door_code"@)), JsonModel::Text("category"@)), JsonModel::Text("semantic_path"@)), JsonModel::Text("summary"@))
}

fn required_of_a_door() -> (r: JsonValue)
    ensures
        r.deep_view() == required_of_a_door_of(),
{
    JsonValue::empty_array().and(JsonValue::text("door_code")).and(JsonValue::text("category")).and(JsonValue::text("semantic_path")).and(JsonValue::text("summary"))
}

/// The properties that a door is made from, each with its description.
pub open spec fn door_properties_of() -> JsonModel {
    with_member(
        with_member(
        with_member(
        with_member(
        with_member(
        with_member(
        with_member(
        with_member(
        with_member(
        with_member(
        with_member(
        with_member(
        JsonModel::Object(Seq::empty()),
        "door_code"@,
        text_property_of("Unique door code (e.g., 'D15NEW_FEATURE', 'S26HARDENING'). Format: PREFIX + NUMBER + DESCRIPTIVE_NAME"@),
    ),
        "category"@,
        with_member(text_property_of("Door category"@), "enum"@, categories_of()),
    ),
        "semantic_path"@,
        text_property_of("Semantic path in hierarchy (e.g., 'TOOLS.DEPLOYMENT.SILENT')"@),
    ),
        "summary"@,
        text_property_of("Brief summary of what this door covers (1-2 sentences)"@),
    ),
        "aliases"@,
        list_property_of("Alternative names/search terms for this door"@),
    ),
        "prerequisites"@,
        list_property_of("Door codes that should be read before this one"@),
    ),
        "related_doors"@,
        list_property_of("Related door codes for further exploration"@),
    ),
        "quick_start"@,
        text_property_of("Quick start instructions"@),
    ),
        "common_patterns"@,
        list_property_of("Common code patterns or examples"@),
    ),
        "known_errors"@,
        list_property_of("Known issues and gotchas"@),
    ),
        "tags"@,
        list_property_of("Searchable tags"@),
    ),
        "agent_affinity"@,
        list_property_of("Agents this door is most relevant to (e.g., ['VSCC', 'DC'])"@),
    )
}

fn door_properties() -> (r: JsonValue)
    ensures
        r.deep_view() == door_properties_of(),
{
    JsonValue::empty_object().with(
        "door_code",
        text_property("Unique door code (e.g., 'D15NEW_FEATURE', 'S26HARDENING'). Format: PREFIX + NUMBER + DESCRIPTIVE_NAME"),
    ).with(
        "category",
        text_property("Door category").with("enum", categories()),
    ).with(
        "semantic_path",
        text_property("Semantic path in hierarchy (e.g., 'TOOLS.DEPLOYMENT.SILENT')"),
    ).with(
        "summary",
        text_property("Brief summary of what this door covers (1-2 sentences)"),
    ).with(
        "aliases",
        list_property("Alternative names/search terms for this door"),
    ).with(
        "prerequisites",
        list_property("Door codes that should be read before this one"),
    ).with(
        "related_doors",
        list_property("Related door codes for further exploration"),
    ).with(
        "quick_start",
        text_property("Quick start instructions"),
    ).with(
        "common_patterns",
        list_property("Common code patterns or examples"),
    ).with(
        "known_errors",
        list_property("Known issues and gotchas"),
    ).with(
        "tags",
        list_property("Searchable tags"),
    ).with(
        "agent_affinity",
        list_property("Agents this door is most relevant to (e.g., ['VSCC', 'DC'])"),
    )
}

/// The properties that a door is made from, by their kinds alone.
pub open spec fn plain_door_properties_of() -> JsonModel {
    with_member(
        with_member(
        with_member(
        with_member(
        with_member(
        with_member(
        with_member(
        with_member(
        with_member(
        with_member(
        with_member(
        with_member(
        JsonModel::Object(Seq::empty()),
        "door_code"@,
        plain_of("string"@),
    ),
        "category"@,
        plain_of("string"@),
    ),
        "semantic_path"@,
        plain_of("string"@),
    ),
        "summary"@,
        plain_of("string"@),
    ),
        "aliases"@,
        plain_list_of(),
    ),
        "prerequisites"@,
        plain_list_of(),
    ),
        "related_doors"@,
        plain_list_of(),
    ),
        "quick_start"@,
        plain_of("string"@),
    ),
        "common_patterns"@,
        plain_list_of(),
    ),
        "known_errors"@,
        plain_list_of(),
    ),
        "tags"@,
        plain_list_of(),
    ),
        "agent_affinity"@,
        plain_list_of(),
    )
}

fn plain_door_properties() -> (r: JsonValue)
    ensures
        r.deep_view() == plain_door_properties_of(),
{
    JsonValue::empty_object().with(
        "door_code",
        plain("string"),
    ).with(
        "category",
        plain("string"),
    ).with(
        "semantic_path",
        plain("string"),
    ).with(
        "summary",
        plain("string"),
    ).with(
        "aliases",
        plain_list(),
    ).with(
        "prerequisites",
        plain_list(),
    ).with(
        "related_doors",
        plain_list(),
    ).with(
        "quick_start",
        plain("string"),
    ).with(
        "common_patterns",
        plain_list(),
    ).with(
        "known_errors",
        plain_list(),
    ).with(
        "tags",
        plain_list(),
    ).with(
        "agent_affinity",
        plain_list(),
    )
}

// ---------------------------------------------------------------------------
// The operations
// ---------------------------------------------------------------------------

/// Reading a door.
pub open spec fn read_door_tool() -> ToolDefinitionModel {
    tool_of(
        "phishri_read_door"@,
        "Read a specific door by code. Returns complete context bundle including summary, prerequisites, related doors, and resources."@,
        schema_of(
            with_member(
                JsonModel::Object(Seq::empty()),
                "door_code"@,
                text_property_of("Door code (e.g., D05, W115, S01, A01, P01, E03). Supports various prefixes: S=Security, W=Workflows, R=Architecture, T/D=Tools, A=Agents, P=Projects, E=Errors."@),
            ),
            with_item(JsonModel::Array(Seq::empty()), JsonModel::Text("door_code"@)),
        ),
    )
}

fn tool_read_door() -> (r: ToolDefinition)
    ensures
        r.deep_view() == read_door_tool(),
        is_object_schema(r.input_schema.deep_view()),
{
    tool(
        "phishri_read_door",
        "Read a specific door by code. Returns complete context bundle including summary, prerequisites, related doors, and resources.",
        schema(
            JsonValue::empty_object().with(
                "door_code",
                text_property("Door code (e.g., D05, W115, S01, A01, P01, E03). Supports various prefixes: S=Security, W=Workflows, R=Architecture, T/D=Tools, A=Agents, P=Projects, E=Errors."),
            ),
            JsonValue::empty_array().and(JsonValue::text("door_code")),
        ),
    )
}

/// Listing the doors.
pub open spec fn list_doors_tool() -> ToolDefinitionModel {
    tool_of(
        "phishri_list_doors"@,
        "List available doors in the PhiSHRI knowledge base, optionally filtered by category. Returns door codes with brief descriptions."@,
        schema_of(
            with_member(
                with_member(
                JsonModel::Object(Seq::empty()),
                "category"@,
                with_member(text_property_of("Filter by category: SECURITY, TOOLS, WORKFLOWS, ARCHITECTURE, AGENTS, PROJECTS, ERRORS. Leave empty for all doors."@), "enum"@, categories_of()),
            ),
                "limit"@,
                with_member(with_member(with_member(property_of("integer"@, "Maximum number of doors to return (default: 50, max: 268)"@), "default"@, JsonModel::Number(NumberModel::Unsigned(50))), "minimum"@, JsonModel::Number(NumberModel::Unsigned(1))), "maximum"@, JsonModel::Number(NumberModel::Unsigned(268))),
            ),
            JsonModel::Array(Seq::empty()),
        ),
    )
}

fn tool_list_doors() -> (r: ToolDefinition)
    ensures
        r.deep_view() == list_doors_tool(),
        is_object_schema(r.input_schema.deep_view()),
{
    tool(
        "phishri_list_doors",
        "List available doors in the PhiSHRI knowledge base, optionally filtered by category. Returns door codes with brief descriptions.",
        schema(
            JsonValue::empty_object().with(
                "category",
                text_property("Filter by category: SECURITY, TOOLS, WORKFLOWS, ARCHITECTURE, AGENTS, PROJECTS, ERRORS. Leave empty for all doors.").with("enum", categories()),
            ).with(
                "limit",
                property("integer", "Maximum number of doors to return (default: 50, max: 268)").with("default", JsonValue::natural(50)).with("minimum", JsonValue::natural(1)).with("maximum", JsonValue::natural(268)),
            ),
            JsonValue::empty_array(),
        ),
    )
}

/// Finding doors by a query.
pub open spec fn find_door_tool() -> ToolDefinitionModel {
    tool_of(
        "phishri_find_door"@,
        "Search for doors using natural language query. Uses fuzzy matching against door names, aliases, tags, and descriptions. Returns matches ranked by confidence score."@,
        schema_of(
            with_member(
                with_member(
                JsonModel::Object(Seq::empty()),
                "query"@,
                text_property_of("Search query (e.g., 'enterprise deployment', 'silent install', 'security hardening', 'git workflow')"@),
            ),
                "limit"@,
                with_member(with_member(with_member(property_of("integer"@, "Maximum number of results to return (default: 5)"@), "default"@, JsonModel::Number(NumberModel::Unsigned(5))), "minimum"@, JsonModel::Number(NumberModel::Unsigned(1))), "maximum"@, JsonModel::Number(NumberModel::Unsigned(20))),
            ),
            with_item(JsonModel::Array(Seq::empty()), JsonModel::Text("query"@)),
        ),
    )
}

fn tool_find_door() -> (r: ToolDefinition)
    ensures
        r.deep_view() == find_door_tool(),
        is_object_schema(r.input_schema.deep_view()),
{
    tool(
        "phishri_find_door",
        "Search for doors using natural language query. Uses fuzzy matching against door names, aliases, tags, and descriptions. Returns matches ranked by confidence score.",
        schema(
            JsonValue::empty_object().with(
                "query",
                text_property("Search query (e.g., 'enterprise deployment', 'silent install', 'security hardening', 'git workflow')"),
            ).with(
                "limit",
                property("integer", "Maximum number of results to return (default: 5)").with("default", JsonValue::natural(5)).with("minimum", JsonValue::natural(1)).with("maximum", JsonValue::natural(20)),
            ),
            JsonValue::empty_array().and(JsonValue::text("query")),
        ),
    )
}

/// Loading a chain of doors.
pub open spec fn load_chain_tool() -> ToolDefinitionModel {
    tool_of(
        "phishri_load_chain"@,
        "Load multiple doors with automatic prerequisite resolution. Ensures doors are loaded in the correct order based on their dependency graph."@,
        schema_of(
            with_member(
                with_member(
                JsonModel::Object(Seq::empty()),
                "door_codes"@,
                list_property_of("Array of door codes to load (e.g., ['D05', 'D06', 'W115'])"@),
            ),
                "include_prerequisites"@,
                with_member(property_of("boolean"@, "Automatically include and load prerequisite doors (default: true)"@), "default"@, JsonModel::Bool(true)),
            ),
            with_item(JsonModel::Array(Seq::empty()), JsonModel::Text("door_codes"@)),
        ),
    )
}

fn tool_load_chain() -> (r: ToolDefinition)
    ensures
        r.deep_view() == load_chain_tool(),
        is_object_schema(r.input_schema.deep_view()),
{
    tool(
        "phishri_load_chain",
        "Load multiple doors with automatic prerequisite resolution. Ensures doors are loaded in the correct order based on their dependency graph.",
        schema(
            JsonValue::empty_object().with(
                "door_codes",
                list_property("Array of door codes to load (e.g., ['D05', 'D06', 'W115'])"),
            ).with(
                "include_prerequisites",
                property("boolean", "Automatically include and load prerequisite doors (default: true)").with("default", JsonValue::Bool(true)),
            ),
            JsonValue::empty_array().and(JsonValue::text("door_codes")),
        ),
    )
}

/// Making a door.
pub open spec fn create_door_tool() -> ToolDefinitionModel {
    tool_of(
        "phishri_create_door"@,
        "Create a new door with enforced template structure. Validates all fields and prevents malformed doors. Automatically updates indexes after creation."@,
        schema_of(
            door_properties_of(),
            required_of_a_door_of(),
        ),
    )
}

fn tool_create_door() -> (r: ToolDefinition)
    ensures
        r.deep_view() == create_door_tool(),
        is_object_schema(r.input_schema.deep_view()),
{
    tool(
        "phishri_create_door",
        "Create a new door with enforced template structure. Validates all fields and prevents malformed doors. Automatically updates indexes after creation.",
        schema(
            door_properties(),
            required_of_a_door(),
        ),
    )
}

/// Validating a door.
pub open spec fn validate_door_tool() -> ToolDefinitionModel {
    tool_of(
        "phishri_validate_door"@,
        "Validate a door's structure, check prerequisites exist, verify no broken references. Use before committing new doors."@,
        schema_of(
            with_member(
                with_member(
                JsonModel::Object(Seq::empty()),
                "door_code"@,
                text_property_of("Door code to validate (validates existing door)"@),
            ),
                "file_path"@,
                text_property_of("Path to door JSON file to validate (alternative to door_code)"@),
            ),
            JsonModel::Array(Seq::empty()),
        ),
    )
}

fn tool_validate_door() -> (r: ToolDefinition)
    ensures
        r.deep_view() == validate_door_tool(),
        is_object_schema(r.input_schema.deep_view()),
{
    tool(
        "phishri_validate_door",
        "Validate a door's structure, check prerequisites exist, verify no broken references. Use before committing new doors.",
        schema(
            JsonValue::empty_object().with(
                "door_code",
                text_property("Door code to validate (validates existing door)"),
            ).with(
                "file_path",
                text_property("Path to door JSON file to validate (alternative to door_code)"),
            ),
            JsonValue::empty_array(),
        ),
    )
}

/// Making a batch of doors.
pub open spec fn batch_create_tool() -> ToolDefinitionModel {
    tool_of(
        "phishri_batch_create"@,
        "Create multiple doors atomically with validation. Rolls back all on any error. Updates indexes once after all doors created."@,
        schema_of(
            with_member(
                with_member(
                with_member(
                JsonModel::Object(Seq::empty()),
                "doors"@,
                with_member(with_member(plain_of("array"@), "items"@, schema_of(plain_door_properties_of(), required_of_a_door_of())), "description"@, JsonModel::Text("Array of door definitions to create"@)),
            ),
                "validate"@,
                with_member(property_of("boolean"@, "Validate all doors before creating (default: true)"@), "default"@, JsonModel::Bool(true)),
            ),
                "update_indexes"@,
                with_member(property_of("boolean"@, "Rebuild indexes after creation (default: true)"@), "default"@, JsonModel::Bool(true)),
            ),
            with_item(JsonModel::Array(Seq::empty()), JsonModel::Text("doors"@)),
        ),
    )
}

fn tool_batch_create() -> (r: ToolDefinition)
    ensures
        r.deep_view() == batch_create_tool(),
        is_object_schema(r.input_schema.deep_view()),
{
    tool(
        "phishri_batch_create",
        "Create multiple doors atomically with validation. Rolls back all on any error. Updates indexes once after all doors created.",
        schema(
            JsonValue::empty_object().with(
                "doors",
                plain("array").with("items", schema(plain_door_properties(), required_of_a_door())).with("description", JsonValue::text("Array of door definitions to create")),
            ).with(
                "validate",
                property("boolean", "Validate all doors before creating (default: true)").with("default", JsonValue::Bool(true)),
            ).with(
                "update_indexes",
                property("boolean", "Rebuild indexes after creation (default: true)").with("default", JsonValue::Bool(true)),
            ),
            JsonValue::empty_array().and(JsonValue::text("doors")),
        ),
    )
}

/// Reading the bootstrap of the session.
pub open spec fn get_bootstrap_tool() -> ToolDefinitionModel {
    tool_of(
        "phishri_get_bootstrap"@,
        "Get current session state from bootstrap file. Returns progress tracking, completed batches, loaded doors, and recommended next steps for session continuity."@,
        schema_of(
            JsonModel::Object(Seq::empty()),
            JsonModel::Array(Seq::empty()),
        ),
    )
}

fn tool_get_bootstrap() -> (r: ToolDefinition)
    ensures
        r.deep_view() == get_bootstrap_tool(),
        is_object_schema(r.input_schema.deep_view()),
{
    tool(
        "phishri_get_bootstrap",
        "Get current session state from bootstrap file. Returns progress tracking, completed batches, loaded doors, and recommended next steps for session continuity.",
        schema(
            JsonValue::empty_object(),
            JsonValue::empty_array(),
        ),
    )
}

/// Updating the bootstrap of the session.
pub open spec fn update_bootstrap_tool() -> ToolDefinitionModel {
    tool_of(
        "phishri_update_bootstrap"@,
        "Update session state in bootstrap file. Use this to track progress, mark completed work, and set next steps for session continuity."@,
        schema_of(
            with_member(
                with_member(
                with_member(
                with_member(
                JsonModel::Object(Seq::empty()),
                "progress"@,
                text_property_of("Current progress description (e.g., 'Completed security audit phase 1')"@),
            ),
                "batch_completed"@,
                text_property_of("Description of completed batch/milestone"@),
            ),
                "next_options"@,
                list_property_of("Array of recommended next steps or door codes"@),
            ),
                "doors_loaded"@,
                list_property_of("Array of door codes loaded in this session"@),
            ),
            JsonModel::Array(Seq::empty()),
        ),
    )
}

fn tool_update_bootstrap() -> (r: ToolDefinition)
    ensures
        r.deep_view() == update_bootstrap_tool(),
        is_object_schema(r.input_schema.deep_view()),
{
    tool(
        "phishri_update_bootstrap",
        "Update session state in bootstrap file. Use this to track progress, mark completed work, and set next steps for session continuity.",
        schema(
            JsonValue::empty_object().with(
                "progress",
                text_property("Current progress description (e.g., 'Completed security audit phase 1')"),
            ).with(
                "batch_completed",
                text_property("Description of completed batch/milestone"),
            ).with(
                "next_options",
                list_property("Array of recommended next steps or door codes"),
            ).with(
                "doors_loaded",
                list_property("Array of door codes loaded in this session"),
            ),
            JsonValue::empty_array(),
        ),
    )
}

/// Making a checkpoint of the session.
pub open spec fn session_checkpoint_tool() -> ToolDefinitionModel {
    tool_of(
        "phishri_session_checkpoint"@,
        "Create a named session checkpoint with loaded doors and notes. Enables easy resumption of complex multi-session tasks."@,
        schema_of(
            with_member(
                with_member(
                with_member(
                JsonModel::Object(Seq::empty()),
                "checkpoint_name"@,
                text_property_of("Name for this checkpoint (e.g., 'security-audit-phase1', 'deployment-prep')"@),
            ),
                "doors_loaded"@,
                list_property_of("Array of door codes that were loaded/referenced"@),
            ),
                "notes"@,
                text_property_of("Optional notes about current state or context"@),
            ),
            with_item(with_item(JsonModel::Array(Seq::empty()), JsonModel::Text("checkpoint_name"@)), JsonModel::Text("doors_loaded"@)),
        ),
    )
}

fn tool_session_checkpoint() -> (r: ToolDefinition)
    ensures
        r.deep_view() == session_checkpoint_tool(),
        is_object_schema(r.input_schema.deep_view()),
{
    tool(
        "phishri_session_checkpoint",
        "Create a named session checkpoint with loaded doors and notes. Enables easy resumption of complex multi-session tasks.",
        schema(
            JsonValue::empty_object().with(
                "checkpoint_name",
                text_property("Name for this checkpoint (e.g., 'security-audit-phase1', 'deployment-prep')"),
            ).with(
                "doors_loaded",
                list_property("Array of door codes that were loaded/referenced"),
            ).with(
                "notes",
                text_property("Optional notes about current state or context"),
            ),
            JsonValue::empty_array().and(JsonValue::text("checkpoint_name")).and(JsonValue::text("doors_loaded")),
        ),
    )
}

/// Searching by semantic path.
pub open spec fn search_semantic_tool() -> ToolDefinitionModel {
    tool_of(
        "phishri_search_semantic"@,
        "Search by semantic path to find doors in the knowledge hierarchy (e.g., TOOLS.DEPLOYMENT.SILENT, SECURITY.HARDENING, WORKFLOWS.GIT)."@,
        schema_of(
            with_member(
                JsonModel::Object(Seq::empty()),
                "path"@,
                text_property_of("Semantic path to resolve (e.g., 'TOOLS.DEPLOYMENT.SILENT', 'SECURITY.HARDENING'). Supports partial paths."@),
            ),
            with_item(JsonModel::Array(Seq::empty()), JsonModel::Text("path"@)),
        ),
    )
}

fn tool_search_semantic() -> (r: ToolDefinition)
    ensures
        r.deep_view() == search_semantic_tool(),
        is_object_schema(r.input_schema.deep_view()),
{
    tool(
        "phishri_search_semantic",
        "Search by semantic path to find doors in the knowledge hierarchy (e.g., TOOLS.DEPLOYMENT.SILENT, SECURITY.HARDENING, WORKFLOWS.GIT).",
        schema(
            JsonValue::empty_object().with(
                "path",
                text_property("Semantic path to resolve (e.g., 'TOOLS.DEPLOYMENT.SILENT', 'SECURITY.HARDENING'). Supports partial paths."),
            ),
            JsonValue::empty_array().and(JsonValue::text("path")),
        ),
    )
}

/// Asking for the prerequisites of a door.
pub open spec fn get_prerequisites_tool() -> ToolDefinitionModel {
    tool_of(
        "phishri_get_prerequisites"@,
        "Get the prerequisite chain for a door - what doors should be read first. Returns ordered list based on dependency graph."@,
        schema_of(
            with_member(
                JsonModel::Object(Seq::empty()),
                "door_code"@,
                text_property_of("Door code to get prerequisites for"@),
            ),
            with_item(JsonModel::Array(Seq::empty()), JsonModel::Text("door_code"@)),
        ),
    )
}

fn tool_get_prerequisites() -> (r: ToolDefinition)
    ensures
        r.deep_view() == get_prerequisites_tool(),
        is_object_schema(r.input_schema.deep_view()),
{
    tool(
        "phishri_get_prerequisites",
        "Get the prerequisite chain for a door - what doors should be read first. Returns ordered list based on dependency graph.",
        schema(
            JsonValue::empty_object().with(
                "door_code",
                text_property("Door code to get prerequisites for"),
            ),
            JsonValue::empty_array().and(JsonValue::text("door_code")),
        ),
    )
}

/// Rebuilding the index.
pub open spec fn rebuild_indexes_tool() -> ToolDefinitionModel {
    tool_of(
        "phishri_rebuild_indexes"@,
        "Rebuild HASH_TABLE and SEMANTIC_MAP indexes from door files. Use after adding or modifying doors to update the search indexes."@,
        schema_of(
            JsonModel::Object(Seq::empty()),
            JsonModel::Array(Seq::empty()),
        ),
    )
}

fn tool_rebuild_indexes() -> (r: ToolDefinition)
    ensures
        r.deep_view() == rebuild_indexes_tool(),
        is_object_schema(r.input_schema.deep_view()),
{
    tool(
        "phishri_rebuild_indexes",
        "Rebuild HASH_TABLE and SEMANTIC_MAP indexes from door files. Use after adding or modifying doors to update the search indexes.",
        schema(
            JsonValue::empty_object(),
            JsonValue::empty_array(),
        ),
    )
}

/// Auditing the corpus.
pub open spec fn audit_tool() -> ToolDefinitionModel {
    tool_of(
        "phishri_audit"@,
        "Run system health check. Finds orphan doors, broken references, missing prerequisites, duplicate codes, and structural issues."@,
        schema_of(
            with_member(
                with_member(
                JsonModel::Object(Seq::empty()),
                "scope"@,
                with_member(text_property_of("Audit scope: 'all' for entire system, category name, or specific door_code"@), "default"@, JsonModel::Text("all"@)),
            ),
                "fix"@,
                with_member(property_of("boolean"@, "Attempt to auto-fix issues (remove broken refs, etc). Default: false (report only)"@), "default"@, JsonModel::Bool(false)),
            ),
            JsonModel::Array(Seq::empty()),
        ),
    )
}

fn tool_audit() -> (r: ToolDefinition)
    ensures
        r.deep_view() == audit_tool(),
        is_object_schema(r.input_schema.deep_view()),
{
    tool(
        "phishri_audit",
        "Run system health check. Finds orphan doors, broken references, missing prerequisites, duplicate codes, and structural issues.",
        schema(
            JsonValue::empty_object().with(
                "scope",
                text_property("Audit scope: 'all' for entire system, category name, or specific door_code").with("default", JsonValue::text("all")),
            ).with(
                "fix",
                property("boolean", "Attempt to auto-fix issues (remove broken refs, etc). Default: false (report only)").with("default", JsonValue::Bool(false)),
            ),
            JsonValue::empty_array(),
        ),
    )
}

/// Asking for statistics.
pub open spec fn stats_tool() -> ToolDefinitionModel {
    tool_of(
        "phishri_stats"@,
        "Get PhiSHRI statistics: door counts by category, coverage gaps, index health, and growth metrics."@,
        schema_of(
            with_member(
                JsonModel::Object(Seq::empty()),
                "granularity"@,
                with_member(with_member(text_property_of("Detail level: 'summary' (totals), 'category' (per-category), 'detailed' (full breakdown)"@), "enum"@, with_item(with_item(with_item(JsonModel::Array(Seq::empty()), JsonModel::Text("summary"@)), JsonModel::Text("category"@)), JsonModel::Text("detailed"@))), "default"@, JsonModel::Text("summary"@)),
            ),
            JsonModel::Array(Seq::empty()),
        ),
    )
}

fn tool_stats() -> (r: ToolDefinition)
    ensures
        r.deep_view() == stats_tool(),
        is_object_schema(r.input_schema.deep_view()),
{
    tool(
        "phishri_stats",
        "Get PhiSHRI statistics: door counts by category, coverage gaps, index health, and growth metrics.",
        schema(
            JsonValue::empty_object().with(
                "granularity",
                text_property("Detail level: 'summary' (totals), 'category' (per-category), 'detailed' (full breakdown)").with("enum", JsonValue::empty_array().and(JsonValue::text("summary")).and(JsonValue::text("category")).and(JsonValue::text("detailed"))).with("default", JsonValue::text("summary")),
            ),
            JsonValue::empty_array(),
        ),
    )
}

/// The operations of the server, in the order in which they are announced:
/// reading, then creation and validation, then session state, then the
/// indexes, then quality and statistics.
pub open spec fn tool_definitions() -> Seq<ToolDefinitionModel> {
    seq![
        read_door_tool(),
        list_doors_tool(),
        find_door_tool(),
        load_chain_tool(),
        create_door_tool(),
        validate_door_tool(),
        batch_create_tool(),
        get_bootstrap_tool(),
        update_bootstrap_tool(),
        session_checkpoint_tool(),
        search_semantic_tool(),
        get_prerequisites_tool(),
        rebuild_indexes_tool(),
        audit_tool(),
        stats_tool(),
    ]
}

/// The names of the operations, in the order in which they are announced.
pub open spec fn tool_names() -> Seq<Seq<char>> {
    seq![
        "phishri_read_door"@,
        "phishri_list_doors"@,
        "phishri_find_door"@,
        "phishri_load_chain"@,
        "phishri_create_door"@,
        "phishri_validate_door"@,
        "phishri_batch_create"@,
        "phishri_get_bootstrap"@,
        "phishri_update_bootstrap"@,
        "phishri_session_checkpoint"@,
        "phishri_search_semantic"@,
        "phishri_get_prerequisites"@,
        "phishri_rebuild_indexes"@,
        "phishri_audit"@,
        "phishri_stats"@,
    ]
}

/// The operations of the server.
pub fn get_tool_definitions() -> (r: Vec<ToolDefinition>)
    ensures
        r.deep_view() == tool_definitions(),
        r@.len() == TOOL_COUNT,
        forall|i: int| 0 <= i < TOOL_COUNT ==> (#[trigger] r@[i]).name@ == tool_names()[i],
        forall|i: int|
            0 <= i < TOOL_COUNT ==> is_object_schema((#[trigger] r@[i]).input_schema.deep_view()),
{
    let mut tools: Vec<ToolDefinition> = Vec::new();
    tools.push(tool_read_door());
    tools.push(tool_list_doors());
    tools.push(tool_find_door());
    tools.push(tool_load_chain());
    tools.push(tool_create_door());
    tools.push(tool_validate_door());
    tools.push(tool_batch_create());
    tools.push(tool_get_bootstrap());
    tools.push(tool_update_bootstrap());
    tools.push(tool_session_checkpoint());
    tools.push(tool_search_semantic());
    tools.push(tool_get_prerequisites());
    tools.push(tool_rebuild_indexes());
    tools.push(tool_audit());
    tools.push(tool_stats());
    assert(tools.deep_view() =~= tool_definitions());
    tools
}

} // verus!
