use phishri::config::{Config, Environment};
use phishri::door::creation::{CreateDoorParams, BatchPlan};
use phishri::door::loader::{
    category_from_path, decode_index, extract_short_code, normalize_door_code, DoorLoader,
    HashTable, CACHE_TTL_MILLIS,
};
use phishri::door::manager::{ChainResult, DoorListItem, DoorManager};
use phishri::door::review::{tally, tally_all};
use phishri::door::schema::{
    Confidence, ContextBundle, Door, HashTableEntry, KnownError, Metadata, Onboarding, Resources,
};
use phishri::door::store::{
    CategoryDir, Corpus, DirEntry, DoorFile, FileContent, FileOp, FlatIndex, IndexFile, Listing,
    LoaderError, Outcome, TextFile,
};
use phishri::json::JsonValue;

const ROOT: &str = "/kb";

fn config() -> Config {
    Config::new(&Environment {
        knowledge_base: ROOT.to_string(),
        session_root: Some("/sessions".to_string()),
        home: None,
        agent_id: Some("tester".to_string()),
        session_id: Some("s1".to_string()),
        clock_millis: 0,
    })
}

fn door(code: &str, prerequisites: &[&str]) -> Door {
    Door {
        door_code: code.to_string(),
        semantic_path: String::new(),
        aliases: vec![],
        context_bundle: ContextBundle {
            summary: format!("About {}", code),
            prerequisites: prerequisites.iter().map(|s| s.to_string()).collect(),
            related_doors: vec![],
            onboarding: None,
            resources: None,
            metadata: None,
        },
    }
}

fn path_of(category: &str, code: &str) -> String {
    format!("{}/CONTEXTS/{}/{}.json", ROOT, category, code)
}

fn entry(category: &str, code: &str, short: &str) -> (String, HashTableEntry) {
    (
        code.to_string(),
        HashTableEntry {
            door_code: code.to_string(),
            file_path: format!("CONTEXTS/{}/{}.json", category, code),
            category: category.to_string(),
            short_code: short.to_string(),
        },
    )
}

/// A corpus whose doors all stand in one category, indexed under their codes.
fn corpus(category: &str, doors: Vec<Door>) -> Corpus {
    let mut files = vec![];
    let mut entries = vec![];
    let mut index = vec![];
    for d in doors {
        let path = path_of(category, &d.door_code);
        entries.push(DirEntry { path: path.clone(), is_file: true });
        index.push(entry(category, &d.door_code, &d.short_code()));
        files.push(DoorFile { path, content: FileContent::Door(d) });
    }
    Corpus {
        contexts_exists: true,
        directories: vec![CategoryDir {
            category: category.to_string(),
            listing: Listing::Entries(entries),
        }],
        files,
        index: IndexFile::Present { text: "{}".to_string(), flat: FlatIndex::Entries(index) },
        bootstrap: TextFile::Missing,
    }
}

fn bare_door(code: &str) -> Door {
    Door {
        door_code: code.to_string(),
        semantic_path: String::new(),
        aliases: vec![],
        context_bundle: ContextBundle {
            summary: String::new(),
            prerequisites: vec![],
            related_doors: vec![],
            onboarding: None,
            resources: None,
            metadata: None,
        },
    }
}

#[test]
fn test_normalize_door_code() {
    assert_eq!(normalize_door_code("d05"), "D05");
    assert_eq!(normalize_door_code("  D05  "), "D05");
    assert_eq!(normalize_door_code("D05SILENT_INSTALL"), "D05SILENT_INSTALL");
}

#[test]
fn normalization_settles_on_concrete_codes() {
    for code in ["d05", "  D05  ", "D05SILENT_INSTALL", "", " straße ", "\tw115git\n"] {
        let once = normalize_door_code(code);
        assert_eq!(normalize_door_code(&once), once);
    }
    assert_eq!(normalize_door_code(" straße "), "STRASSE");
}

#[test]
fn test_door_list_item_to_line() {
    let item = DoorListItem {
        short_code: "D05".to_string(),
        full_code: "D05SILENT_INSTALL".to_string(),
        summary: "Silent installation patterns".to_string(),
    };

    let line = item.to_line();
    assert!(line.contains("D05"));
    assert!(line.contains("Silent"));
}

#[test]
fn to_line_shortens_a_long_summary_and_names_the_code_without_one() {
    let item = |summary: &str| DoorListItem {
        short_code: "D05".to_string(),
        full_code: "D05SILENT_INSTALL".to_string(),
        summary: summary.to_string(),
    };
    assert_eq!(item("").to_line(), "D05 (D05SILENT_INSTALL)");
    assert_eq!(item("Silent installation patterns").to_line(), "D05: Silent installation patterns");
    let sixty = "a".repeat(60);
    assert_eq!(item(&sixty).to_line(), format!("D05: {}", sixty));
    let longer = "b".repeat(61);
    assert_eq!(item(&longer).to_line(), format!("D05: {}...", "b".repeat(57)));
    // 31 characters of two bytes each: 62 bytes; 57 bytes hold 28 of them.
    let accented = "é".repeat(31);
    assert_eq!(item(&accented).to_line(), format!("D05: {}...", "é".repeat(28)));
    let thirty = "é".repeat(30);
    assert_eq!(item(&thirty).to_line(), format!("D05: {}", thirty));
}

#[test]
fn test_short_code_extraction() {
    let door = bare_door("D05SILENT_INSTALL");
    assert_eq!(door.short_code(), "D05");
}

#[test]
fn short_code_edge_cases() {
    assert_eq!(bare_door("").short_code(), "");
    assert_eq!(bare_door("SILENT").short_code(), "SILENT");
    assert_eq!(bare_door("W115GIT").short_code(), "W115");
    assert_eq!(bare_door("000START").short_code(), "000");
    assert_eq!(bare_door("D05").short_code(), "D05");
    assert_eq!(bare_door("D05_7X").short_code(), "D05_7");
    assert_eq!(bare_door("D05_X").short_code(), "D05");
    assert_eq!(bare_door("AB_C1D").short_code(), "AB_C1");
}

#[test]
fn test_category_inference() {
    assert_eq!(bare_door("S01HARDENING").category(), "SECURITY");
    assert_eq!(bare_door("W115GIT").category(), "WORKFLOWS");
    assert_eq!(bare_door("T01WIX").category(), "TOOLS");
    assert_eq!(bare_door("A01VSCC").category(), "AGENTS");
}

#[test]
fn category_comes_from_metadata_before_the_code() {
    assert_eq!(bare_door("R01").category(), "ARCHITECTURE");
    assert_eq!(bare_door("D05").category(), "TOOLS");
    assert_eq!(bare_door("P01").category(), "PROJECTS");
    assert_eq!(bare_door("000A").category(), "PROJECTS");
    assert_eq!(bare_door("E03").category(), "ERRORS");
    assert_eq!(bare_door("X01").category(), "UNKNOWN");
    assert_eq!(bare_door("").category(), "UNKNOWN");
    let mut with_meta = bare_door("S01");
    with_meta.context_bundle.metadata = Some(metadata("WORKFLOWS"));
    assert_eq!(with_meta.category(), "WORKFLOWS");
    with_meta.context_bundle.metadata = Some(metadata(""));
    assert_eq!(with_meta.category(), "SECURITY");
}

fn metadata(category: &str) -> Metadata {
    Metadata {
        last_updated: "2024-05-01T00:00:00+00:00".to_string(),
        confidence: Confidence { score: "0.9".to_string(), percent: 90 },
        tags: vec!["install".to_string(), "msi".to_string()],
        category: category.to_string(),
        subcategory: "DEPLOYMENT".to_string(),
        version: "1.0.0".to_string(),
        agent_affinity: vec!["VSCC".to_string()],
    }
}

#[test]
fn full_text_shows_every_section_that_has_content() {
    let d = Door {
        door_code: "D05SILENT_INSTALL".to_string(),
        semantic_path: "TOOLS.DEPLOYMENT.SILENT".to_string(),
        aliases: vec!["silent".to_string(), "quiet".to_string()],
        context_bundle: ContextBundle {
            summary: "Silent installation patterns".to_string(),
            prerequisites: vec!["D01".to_string()],
            related_doors: vec!["D06".to_string(), "W115".to_string()],
            onboarding: Some(Onboarding {
                quick_start: "Run msiexec /qn".to_string(),
                full_context_path: String::new(),
                common_patterns: vec!["msiexec /i app.msi /qn".to_string()],
                known_errors: vec![
                    KnownError::Text("Needs elevation".to_string()),
                    KnownError::Record(JsonValue::parse(r#"{"error": "1603", "fix": "retry"}"#).unwrap()),
                    KnownError::Record(JsonValue::parse(r#"{"code": 5}"#).unwrap()),
                    KnownError::Other { document: JsonValue::natural(42), rendered: "42".to_string() },
                ],
            }),
            resources: Some(Resources {
                docs: vec!["docs/install.md".to_string()],
                code: vec!["src/install.rs".to_string()],
                tests: vec![],
                errors: vec![],
            }),
            metadata: Some(metadata("TOOLS")),
        },
    };
    let expected = "# D05SILENT_INSTALL (D05)\n\n\
**Path:** TOOLS.DEPLOYMENT.SILENT\n\n\
## Summary\nSilent installation patterns\n\n\
**Aliases:** silent, quiet\n\n\
## Prerequisites\n- D01\n\n\
## Related Doors\n- D06\n- W115\n\n\
## Quick Start\nRun msiexec /qn\n\n\
## Common Patterns\n- `msiexec /i app.msi /qn`\n\n\
## Known Issues\n- Needs elevation\n- 1603\n- Unknown error\n- 42\n\n\
## Resources\n### Documentation\n- docs/install.md\n### Code\n- src/install.rs\n\n\
## Metadata\n- **Category:** TOOLS\n- **Subcategory:** DEPLOYMENT\n- **Tags:** install, msi\n\
- **Agent Affinity:** VSCC\n- **Confidence:** 90%\n- **Updated:** 2024-05-01T00:00:00+00:00\n";
    assert_eq!(d.full_text(), expected);
    assert!(d.full_text().starts_with(&d.summary_text()));
    let copy = d.clone();
    assert_eq!(copy.full_text(), expected);
}

#[test]
fn full_text_of_a_bare_door_is_its_heading() {
    assert_eq!(bare_door("D05X").full_text(), "# D05X (D05)\n\n");
    assert_eq!(bare_door("D05X").summary_text(), "# D05X (D05)\n\n");
    let mut d = bare_door("D05X");
    d.context_bundle.resources =
        Some(Resources { docs: vec![], code: vec![], tests: vec!["t".to_string()], errors: vec![] });
    d.context_bundle.onboarding = Some(Onboarding {
        quick_start: String::new(),
        full_context_path: "x".to_string(),
        common_patterns: vec![],
        known_errors: vec![],
    });
    assert_eq!(d.full_text(), "# D05X (D05)\n\n");
    let mut meta = metadata("");
    meta.subcategory = String::new();
    meta.tags = vec![];
    meta.agent_affinity = vec![];
    meta.last_updated = String::new();
    meta.confidence = Confidence { score: "1.0".to_string(), percent: 100 };
    d.context_bundle.metadata = Some(meta);
    assert_eq!(
        d.full_text(),
        "# D05X (D05)\n\n## Metadata\n- **Category:** \n- **Confidence:** 100%\n"
    );
}

#[test]
fn index_helpers_derive_category_and_short_code() {
    assert_eq!(category_from_path("CONTEXTS/TOOLS/D05.json"), "TOOLS");
    assert_eq!(category_from_path("CONTEXTS\\SECURITY\\S01.json"), "SECURITY");
    assert_eq!(category_from_path("a/WORKFLOWS/b/TOOLS/c.json"), "TOOLS");
    assert_eq!(category_from_path("a/AGENTS/x"), "AGENTS");
    assert_eq!(category_from_path("a/ARCHITECTURE/x"), "ARCHITECTURE");
    assert_eq!(category_from_path("a/PROJECTS/x"), "PROJECTS");
    assert_eq!(category_from_path("a/ERRORS/x"), "ERRORS");
    assert_eq!(category_from_path("a/LANGUAGES/x"), "UNKNOWN");
    assert_eq!(category_from_path("TOOLS/D05.json"), "UNKNOWN");
    assert_eq!(category_from_path(""), "UNKNOWN");
    assert_eq!(extract_short_code("D05SILENT_INSTALL"), "D05");
    assert_eq!(extract_short_code("W115GIT"), "W115");
    assert_eq!(extract_short_code("SILENT"), "SILENT");
    assert_eq!(extract_short_code("D5X"), "D5");
    assert_eq!(extract_short_code("5"), "5");
    assert_eq!(extract_short_code(""), "");
    assert_eq!(extract_short_code("A_1B"), "A1B");
    assert_eq!(extract_short_code("D0_5X"), "D0");
}

#[test]
fn index_is_decoded_from_either_format() {
    let wrapped = IndexFile::Present {
        text: r#"{"version": "1", "mappings": {"D05SILENT": "CONTEXTS/TOOLS/D05SILENT.json", "S01X": 7}}"#
            .to_string(),
        flat: FlatIndex::Malformed("missing field `door_code`".to_string()),
    };
    let table = decode_index(&wrapped, "/kb/INDEXES/HASH_TABLE.json").unwrap();
    assert_eq!(table.len(), 2);
    let e = table.get("D05SILENT").unwrap();
    assert_eq!(e.door_code, "D05SILENT");
    assert_eq!(e.file_path, "CONTEXTS/TOOLS/D05SILENT.json");
    assert_eq!(e.category, "TOOLS");
    assert_eq!(e.short_code, "D05");
    let s = table.get("S01X").unwrap();
    assert_eq!(s.file_path, "");
    assert_eq!(s.category, "UNKNOWN");

    let not_an_object = IndexFile::Present {
        text: r#"{"mappings": []}"#.to_string(),
        flat: FlatIndex::Malformed("x".to_string()),
    };
    assert_eq!(decode_index(&not_an_object, "p").unwrap().len(), 0);

    let flat = IndexFile::Present {
        text: "{}".to_string(),
        flat: FlatIndex::Entries(vec![
            entry("TOOLS", "D05", "D05"),
            entry("TOOLS", "D06", "D06"),
            entry("SECURITY", "D05", "D05"),
        ]),
    };
    let table = decode_index(&flat, "p").unwrap();
    assert_eq!(table.len(), 2);
    assert_eq!(table.get("D05").unwrap().category, "SECURITY");
    assert!(table.get("D07").is_none());

    let broken = IndexFile::Present {
        text: "not json".to_string(),
        flat: FlatIndex::Malformed("expected value at line 1 column 1".to_string()),
    };
    match decode_index(&broken, "p") {
        Err(LoaderError::ParseError(m)) => assert_eq!(m, "expected value at line 1 column 1"),
        other => panic!("unexpected: {:?}", other),
    }
    match decode_index(&IndexFile::Missing, "/kb/INDEXES/HASH_TABLE.json") {
        Err(LoaderError::IndexNotFound(p)) => assert_eq!(p, "/kb/INDEXES/HASH_TABLE.json"),
        other => panic!("unexpected: {:?}", other),
    }
    match decode_index(&IndexFile::Unreadable("denied".to_string()), "p") {
        Err(LoaderError::IoError(m)) => assert_eq!(m, "denied"),
        other => panic!("unexpected: {:?}", other),
    }
}

#[test]
fn error_messages_name_their_kind() {
    assert_eq!(LoaderError::DoorNotFound("D99".into()).message(), "Door not found: D99");
    assert_eq!(LoaderError::IndexNotFound("p".into()).message(), "Index not found: p");
    assert_eq!(LoaderError::IoError("denied".into()).message(), "IO error: denied");
    assert_eq!(LoaderError::ParseError("eof".into()).message(), "JSON parse error: eof");
    assert_eq!(LoaderError::InvalidDoor("x".into()).message(), "Invalid door file: x");
}

#[test]
fn lookups_are_case_insensitive_and_accept_short_codes() {
    let c = corpus("TOOLS", vec![door("D05SILENT_INSTALL", &[]), door("D06MSI", &[])]);
    let mut loader = DoorLoader::new(config());
    let upper = loader.load_door("D05SILENT_INSTALL", &c, 0).unwrap();
    let lower = loader.load_door("d05silent_install", &c, 0).unwrap();
    let padded = loader.load_door("  D05SILENT_INSTALL ", &c, 0).unwrap();
    assert_eq!(upper.door_code, "D05SILENT_INSTALL");
    assert_eq!(lower.full_text(), upper.full_text());
    assert_eq!(padded.full_text(), upper.full_text());
    assert_eq!(loader.load_door("d05", &c, 0).unwrap().door_code, "D05SILENT_INSTALL");
    assert_eq!(loader.load_door("D06M", &c, 0).unwrap().door_code, "D06MSI");
    match loader.load_door("Z99", &c, 0) {
        Err(LoaderError::DoorNotFound(code)) => assert_eq!(code, "Z99"),
        other => panic!("unexpected: {:?}", other),
    }
    assert_eq!(
        loader.resolve_door_path("d06msi", &c).unwrap(),
        "/kb/CONTEXTS/TOOLS/D06MSI.json"
    );
}

#[test]
fn loading_reports_what_is_wrong_with_a_file() {
    let mut c = corpus("TOOLS", vec![door("D05", &[]), door("D06", &[]), door("D07", &[])]);
    c.files[0].content = FileContent::Unreadable("permission denied".to_string());
    c.files[1].content = FileContent::Malformed("missing field".to_string());
    c.files.remove(2);
    let mut loader = DoorLoader::new(config());
    assert!(matches!(loader.load_door("D05", &c, 0), Err(LoaderError::IoError(m)) if m == "permission denied"));
    assert!(matches!(loader.load_door("D06", &c, 0), Err(LoaderError::ParseError(m)) if m == "missing field"));
    assert!(matches!(loader.load_door("D07", &c, 0), Err(LoaderError::DoorNotFound(p)) if p == "/kb/CONTEXTS/TOOLS/D07.json"));
    assert!(matches!(loader.load_door_file("/nowhere.json", &c), Err(LoaderError::DoorNotFound(p)) if p == "/nowhere.json"));
    let mut no_index = corpus("TOOLS", vec![door("D05", &[])]);
    no_index.index = IndexFile::Missing;
    let mut fresh = DoorLoader::new(config());
    assert!(matches!(fresh.load_door("D05", &no_index, 0), Err(LoaderError::IndexNotFound(p)) if p == "/kb/INDEXES/HASH_TABLE.json"));
    assert!(matches!(fresh.load_hash_table(&no_index), Err(LoaderError::IndexNotFound(_))));
}

#[test]
fn cache_answers_for_five_minutes_and_is_cleared_as_a_whole() {
    let before = corpus("TOOLS", vec![door("D05", &[])]);
    let mut changed = corpus("TOOLS", vec![door("D05", &["D01"])]);
    changed.index = IndexFile::Missing;
    let mut loader = DoorLoader::new(config());
    assert!(loader.load_door("D05", &before, 1000).unwrap().context_bundle.prerequisites.is_empty());
    // Within the time to live the cached door answers, whatever the files hold.
    let cached = loader.load_door("d05", &changed, 1000 + CACHE_TTL_MILLIS - 1).unwrap();
    assert!(cached.context_bundle.prerequisites.is_empty());
    // At the time to live the door is read again, through the cached index.
    let reread = loader.load_door("D05", &changed, 1000 + CACHE_TTL_MILLIS).unwrap();
    assert_eq!(reread.context_bundle.prerequisites, vec!["D01"]);
    assert_eq!(loader.load_hash_table(&changed).unwrap().len(), 1);
    loader.clear_cache();
    assert!(matches!(loader.load_door("D05", &changed, 1000), Err(LoaderError::IndexNotFound(_))));
    assert!(matches!(loader.load_hash_table(&changed), Err(LoaderError::IndexNotFound(_))));
}

#[test]
fn listing_filters_orders_and_limits() {
    let mut c = corpus("TOOLS", vec![door("T20Z", &[]), door("D05A", &[]), door("NOSHORT", &[])]);
    if let IndexFile::Present { flat: FlatIndex::Entries(index), .. } = &mut c.index {
        index.push(entry("SECURITY", "S01HARD", "S01"));
        index[2].1.short_code = String::new();
    }
    let mut loader = DoorLoader::new(config());
    let all = loader.list_doors(None, 10, &c).unwrap();
    let names: Vec<&str> = all.iter().map(|p| p.0.as_str()).collect();
    assert_eq!(names, vec!["D05", "NOSHORT", "S01", "T20"]);
    assert_eq!(all[1].1, "NOSHORT");
    let tools = loader.list_doors(Some("tools"), 10, &c).unwrap();
    assert_eq!(tools.len(), 3);
    let limited = loader.list_doors(None, 2, &c).unwrap();
    assert_eq!(limited.len(), 2);
    assert_eq!(limited[1].0, "NOSHORT");
    assert!(loader.list_doors(Some("AGENTS"), 10, &c).unwrap().is_empty());
    assert!(loader.list_doors(None, 0, &c).unwrap().is_empty());
    let mut manager = DoorManager::new(config());
    let items = manager.list_doors(Some("SECURITY"), 5, &c, 0).unwrap();
    assert_eq!(items.len(), 1);
    assert_eq!(items[0].full_code, "S01HARD");
    assert_eq!(items[0].summary, "");
    let items = manager.list_doors(Some("TOOLS"), 1, &c, 0).unwrap();
    assert_eq!(items[0].summary, "About D05A");
}

#[test]
fn scan_builds_the_index_from_the_documents_alone() {
    let mut c = corpus("TOOLS", vec![door("D05SILENT", &[]), door("D06MSI", &[])]);
    c.files[1].content = FileContent::Malformed("bad".to_string());
    if let Listing::Entries(entries) = &mut c.directories[0].listing {
        entries.push(DirEntry { path: "/kb/CONTEXTS/TOOLS/notes.txt".to_string(), is_file: true });
        entries.push(DirEntry { path: "/kb/CONTEXTS/TOOLS/sub.json".to_string(), is_file: false });
        entries.push(DirEntry { path: "/kb/CONTEXTS/TOOLS/.json".to_string(), is_file: true });
    }
    c.directories.push(CategoryDir {
        category: "IGNORED".to_string(),
        listing: Listing::Failed("never listed".to_string()),
    });
    c.index = IndexFile::Missing;
    let loader = DoorLoader::new(config());
    let first = loader.scan_doors(&c).unwrap();
    assert_eq!(first.len(), 1);
    let e = first.get("D05SILENT").unwrap();
    assert_eq!(e.file_path, "CONTEXTS/TOOLS/D05SILENT.json");
    assert_eq!(e.category, "TOOLS");
    assert_eq!(e.short_code, "D05");
    // Twice over the same documents, with another index file: the same keys.
    c.index = IndexFile::Unreadable("x".to_string());
    let second = loader.scan_doors(&c).unwrap();
    let keys = |t: &HashTable| t.entries.iter().map(|r| r.0.clone()).collect::<Vec<_>>();
    assert_eq!(keys(&first), keys(&second));
}

#[test]
fn scan_keys_a_door_by_its_own_code_and_fails_without_documents() {
    let mut c = corpus("SECURITY", vec![door("S01", &[])]);
    c.files[0].content = FileContent::Door(door("S77REAL", &[]));
    let loader = DoorLoader::new(config());
    let table = loader.scan_doors(&c).unwrap();
    assert!(table.get("S01").is_none());
    assert_eq!(table.get("S77REAL").unwrap().file_path, "CONTEXTS/SECURITY/S01.json");
    c.directories[0].listing = Listing::Failed("denied".to_string());
    assert!(matches!(loader.scan_doors(&c), Err(LoaderError::IoError(m)) if m == "denied"));
    c.contexts_exists = false;
    assert!(matches!(loader.scan_doors(&c), Err(LoaderError::IndexNotFound(p)) if p == "/kb/CONTEXTS"));
}

fn chain(manager: &mut DoorManager, c: &Corpus, codes: &[&str], deep: bool) -> Result<ChainResult, LoaderError> {
    let codes: Vec<String> = codes.iter().map(|s| s.to_string()).collect();
    manager.load_chain(&codes, deep, c, 0)
}

#[test]
fn chain_puts_prerequisites_before_the_doors_that_need_them() {
    let c = corpus("TOOLS", vec![door("A", &["B"]), door("B", &["C"]), door("C", &[])]);
    let mut manager = DoorManager::new(config());
    let result = chain(&mut manager, &c, &["A"], true).unwrap();
    assert_eq!(result.order, vec!["C", "B", "A"]);
    let codes: Vec<&str> = result.doors.iter().map(|d| d.door_code.as_str()).collect();
    assert_eq!(codes, vec!["C", "B", "A"]);
    assert!(result.prerequisites_added);
    let plain = chain(&mut manager, &c, &["a"], false).unwrap();
    assert_eq!(plain.order, vec!["A"]);
    assert!(!plain.prerequisites_added);
    let several = chain(&mut manager, &c, &["C", "A", "c"], true).unwrap();
    assert_eq!(several.order, vec!["B", "A", "C"]);
    let none = chain(&mut manager, &c, &[], true).unwrap();
    assert!(none.order.is_empty());
}

#[test]
fn chain_survives_cycles_and_fails_as_a_whole_on_a_missing_door() {
    let cyclic = corpus("TOOLS", vec![door("A", &["B"]), door("B", &["A"])]);
    let mut manager = DoorManager::new(config());
    assert_eq!(chain(&mut manager, &cyclic, &["A"], true).unwrap().order, vec!["B", "A"]);
    let broken = corpus("TOOLS", vec![door("A", &["Z"])]);
    let mut manager = DoorManager::new(config());
    match chain(&mut manager, &broken, &["A"], true) {
        Err(LoaderError::DoorNotFound(code)) => assert_eq!(code, "Z"),
        other => panic!("unexpected: {:?}", other),
    }
    assert_eq!(chain(&mut manager, &broken, &["A"], false).unwrap().order, vec!["A"]);
}

#[test]
fn chain_text_lists_the_order_and_the_doors() {
    let c = corpus("TOOLS", vec![door("A1X", &["B2Y"]), bare_door("B2Y")]);
    let mut manager = DoorManager::new(config());
    let text = chain(&mut manager, &c, &["A1X"], true).unwrap().to_text();
    assert_eq!(
        text,
        "# Door Chain (2 doors)\n\n*Prerequisites automatically included*\n\n## Load Order\n1. B2Y\n2. A1X\n\n---\n\n\
# B2Y (B2)\n\n\n---\n\n# A1X (A1)\n\n## Summary\nAbout A1X\n\n## Prerequisites\n- B2Y\n\n\n---\n\n"
    );
    let plain = chain(&mut manager, &c, &["B2Y"], false).unwrap().to_text();
    assert_eq!(plain, "# Door Chain (1 doors)\n\n## Load Order\n1. B2Y\n\n---\n\n# B2Y (B2)\n\n\n---\n\n");
}

#[test]
fn prerequisites_come_before_the_door_each_once() {
    let c = corpus(
        "TOOLS",
        vec![door("A", &["B", "C"]), door("B", &["C"]), door("C", &[])],
    );
    let mut manager = DoorManager::new(config());
    assert_eq!(manager.get_prerequisites("a", &c, 0).unwrap(), vec!["C", "B", "A"]);
    assert_eq!(manager.get_prerequisites("C", &c, 0).unwrap(), vec!["C"]);
}

#[test]
fn prerequisites_survive_cycles_and_mark_missing_doors() {
    let cyclic = corpus("TOOLS", vec![door("A", &["B"]), door("B", &["A"])]);
    let mut manager = DoorManager::new(config());
    let found = manager.get_prerequisites("A", &cyclic, 0).unwrap();
    assert_eq!(found, vec!["B", "A"]);
    let own = corpus("TOOLS", vec![door("A", &["A", "a"])]);
    let mut manager = DoorManager::new(config());
    assert_eq!(manager.get_prerequisites("A", &own, 0).unwrap(), vec!["A"]);
    let broken = corpus("TOOLS", vec![door("A", &["Z", "z", "Y"])]);
    let mut manager = DoorManager::new(config());
    assert_eq!(
        manager.get_prerequisites("A", &broken, 0).unwrap(),
        vec!["Z[MISSING]", "Y[MISSING]", "A"]
    );
    assert_eq!(manager.get_prerequisites("Q", &broken, 0).unwrap(), vec!["Q[MISSING]"]);
}

#[test]
fn validation_warns_and_only_a_missing_code_is_an_error() {
    let mut d = door("D05", &["D01", "D06"]);
    d.context_bundle.related_doors = vec!["D06".to_string(), "NOPE".to_string()];
    d.context_bundle.summary = String::new();
    let c = corpus("TOOLS", vec![d, door("D06", &[])]);
    let mut manager = DoorManager::new(config());
    let v = manager.validate_door(Some("d05"), Some("ignored"), &c, 0);
    assert!(v.valid);
    assert_eq!(v.door_code.as_deref(), Some("D05"));
    assert_eq!(v.file_path, None);
    assert!(v.errors.is_empty());
    assert_eq!(
        v.warnings,
        vec![
            "summary is empty",
            "Prerequisite not found: D01",
            "Related door not found: NOPE",
            "metadata missing"
        ]
    );
    assert_eq!(v.missing_prerequisites, vec!["D01"]);
    assert_eq!(v.broken_references, vec!["NOPE"]);

    let by_path = manager.validate_door(None, Some("/kb/CONTEXTS/TOOLS/D06.json"), &c, 0);
    assert!(by_path.valid);
    assert_eq!(by_path.file_path.as_deref(), Some("/kb/CONTEXTS/TOOLS/D06.json"));
    assert_eq!(by_path.warnings, vec!["metadata missing"]);

    let missing = manager.validate_door(Some("Z99"), None, &c, 0);
    assert!(!missing.valid);
    assert_eq!(missing.errors, vec!["Failed to load: Door not found: Z99"]);
    assert_eq!(missing.door_code, None);
    let neither = manager.validate_door(None, None, &c, 0);
    assert!(!neither.valid);
    assert_eq!(neither.errors, vec!["Must provide door_code or file_path"]);
    let no_file = manager.validate_door(None, Some("/x.json"), &c, 0);
    assert_eq!(no_file.errors, vec!["Failed to load: Door not found: /x.json"]);
    assert_eq!(no_file.file_path, None);

    let mut nameless = corpus("TOOLS", vec![door("D09", &[])]);
    nameless.files[0].content = FileContent::Door(door("", &[]));
    let v = manager.validate_door(None, Some("/kb/CONTEXTS/TOOLS/D09.json"), &nameless, 0);
    assert!(!v.valid);
    assert_eq!(v.errors, vec!["door_code is empty"]);
    assert_eq!(v.door_code.as_deref(), Some(""));
}

#[test]
fn audit_checks_references_against_the_whole_corpus() {
    let mut a = door("A01", &["B01", "gone"]);
    a.context_bundle.related_doors = vec!["S01".to_string(), "lost".to_string()];
    let mut b = door("B01", &[]);
    b.context_bundle.summary = String::new();
    let mut c = corpus("AGENTS", vec![a, b]);
    let security = corpus("SECURITY", vec![door("S01", &[])]);
    c.directories.extend(security.directories);
    c.files.extend(security.files);
    if let (IndexFile::Present { flat: FlatIndex::Entries(index), .. }, IndexFile::Present { flat: FlatIndex::Entries(more), .. }) =
        (&mut c.index, security.index)
    {
        index.extend(more);
    }
    let mut manager = DoorManager::new(config());
    let all = manager.audit(None, &c, 0);
    assert!(!all.healthy);
    assert_eq!(all.total_doors, 3);
    assert!(all.errors.is_empty());
    assert_eq!(
        all.warnings,
        vec!["S01: no metadata", "A01: no metadata", "B01: empty summary", "B01: no metadata"]
    );
    assert_eq!(all.missing_prerequisites, vec!["GONE"]);
    assert_eq!(all.broken_references, vec!["LOST"]);
    assert_eq!(all.by_category, vec![("SECURITY".to_string(), 1), ("AGENTS".to_string(), 2)]);

    // In the scope of one category the other categories still count as present.
    let agents = manager.audit(Some("agents"), &c, 0);
    assert_eq!(agents.broken_references, vec!["LOST"]);
    assert_eq!(agents.warnings.len(), 3);
    let one = manager.audit(Some("S01"), &c, 0);
    assert!(one.healthy);
    assert_eq!(one.warnings, vec!["S01: no metadata"]);
    assert_eq!(manager.audit(Some("all"), &c, 0).warnings.len(), 4);

    c.files.remove(0);
    let broken = manager.audit(Some("AGENTS"), &c, 400_000);
    assert!(broken.errors.is_empty());
    c.contexts_exists = false;
    let failed = manager.audit(None, &c, 0);
    assert!(!failed.healthy);
    assert_eq!(failed.errors, vec!["Scan failed: Index not found: /kb/CONTEXTS"]);
    assert_eq!(failed.total_doors, 0);
}

#[test]
fn stats_count_doors_and_tags() {
    let mut a = door("D05", &["D06"]);
    a.context_bundle.metadata = Some(metadata("TOOLS"));
    let mut b = door("D06", &[]);
    let mut meta = metadata("TOOLS");
    meta.tags = vec!["msi".to_string(), "silent".to_string(), "msi".to_string()];
    b.context_bundle.metadata = Some(meta);
    let c = corpus("TOOLS", vec![a, b, door("D07", &["D05"])]);
    let mut manager = DoorManager::new(config());
    let summary = manager.stats("summary", &c, 0);
    assert_eq!(summary.total_doors, 3);
    assert_eq!(summary.by_category, vec![("TOOLS".to_string(), 3)]);
    assert_eq!(summary.index_path, "/kb/INDEXES/HASH_TABLE.json");
    assert!(summary.index_exists);
    assert_eq!(summary.doors_with_prerequisites, 0);
    assert!(summary.tag_counts.is_empty());
    let detailed = manager.stats("detailed", &c, 0);
    assert_eq!(detailed.doors_with_prerequisites, 2);
    assert_eq!(
        detailed.tag_counts,
        vec![("install".to_string(), 1), ("msi".to_string(), 3), ("silent".to_string(), 1)]
    );
    let mut gone = corpus("TOOLS", vec![]);
    gone.contexts_exists = false;
    gone.index = IndexFile::Missing;
    let nothing = manager.stats("detailed", &gone, 0);
    assert_eq!(nothing.total_doors, 0);
    assert_eq!(nothing.index_path, "");
    assert!(!nothing.index_exists);
}

fn params(code: &str, category: &str) -> CreateDoorParams {
    CreateDoorParams {
        door_code: code.to_string(),
        category: category.to_string(),
        semantic_path: "TOOLS.DEPLOYMENT.SILENT".to_string(),
        summary: format!("Summary of {}", code),
        known_errors: vec!["needs admin".to_string()],
        tags: vec!["t".to_string()],
        ..CreateDoorParams::default()
    }
}

/// The corpus after the changes of a plan were made.
fn written(mut c: Corpus, ops: &[FileOp]) -> Corpus {
    for op in ops {
        match op {
            FileOp::WriteDoor { path, door } => {
                c.files.retain(|f| &f.path != path);
                c.files.push(DoorFile { path: path.clone(), content: FileContent::Door(door.clone()) });
                let category = path.rsplit('/').nth(1).unwrap().to_string();
                let entry = DirEntry { path: path.clone(), is_file: true };
                match c.directories.iter_mut().find(|d| d.category == category) {
                    Some(CategoryDir { listing: Listing::Entries(entries), .. }) => entries.push(entry),
                    _ => c.directories.push(CategoryDir { category, listing: Listing::Entries(vec![entry]) }),
                }
            }
            FileOp::WriteIndex { table, .. } => {
                let records = table.entries.iter().map(|r| (r.0.clone(), r.1.clone())).collect();
                c.index = IndexFile::Present { text: "{}".to_string(), flat: FlatIndex::Entries(records) };
            }
            FileOp::Remove(path) => c.files.retain(|f| &f.path != path),
            _ => {}
        }
    }
    c
}

fn done(n: usize) -> Outcome {
    Outcome { completed: n, failure: None }
}

#[test]
fn created_door_can_be_read_back() {
    let c = corpus("TOOLS", vec![door("D05", &[])]);
    let mut manager = DoorManager::new(config());
    let p = params("D15NEW", "tools");
    let plan = manager.create_door(&p, &c, 0, "2024-06-01T12:00:00+00:00").unwrap();
    assert_eq!(plan.result.door_code, "D15NEW");
    assert_eq!(plan.result.file_path, "/kb/CONTEXTS/TOOLS/D15NEW.json");
    assert!(plan.result.validated);
    assert!(matches!(&plan.ops[0], FileOp::CreateDir(d) if d == "/kb/CONTEXTS/TOOLS"));
    let c = written(c, &plan.ops);
    let made = manager.door_written(plan.result, &done(2)).unwrap();
    let rebuild = manager.rebuild_indexes(&c).unwrap();
    assert_eq!(rebuild.result.doors_indexed, 2);
    assert_eq!(rebuild.result.hash_table_path, "/kb/INDEXES/HASH_TABLE.json");
    assert!(matches!(&rebuild.ops[0], FileOp::CreateDir(d) if d == "/kb/INDEXES"));
    let c = written(c, &rebuild.ops);
    manager.index_written(rebuild.result, &done(2)).unwrap();
    let read = manager.read_door(&made.door_code, &c, 1).unwrap();
    assert_eq!(read.door_code, p.door_code);
    assert_eq!(read.category(), p.category);
    assert_eq!(read.context_bundle.summary, p.summary);
    let meta = read.context_bundle.metadata.as_ref().unwrap();
    assert_eq!(meta.last_updated, "2024-06-01T12:00:00+00:00");
    assert_eq!(meta.confidence.percent, 100);
    assert_eq!(meta.subcategory, "DEPLOYMENT");
    assert_eq!(meta.version, "1.0.0");
    assert!(matches!(&read.context_bundle.onboarding.as_ref().unwrap().known_errors[0], KnownError::Text(t) if t == "needs admin"));
    assert!(read.full_text().contains("- **Confidence:** 100%\n"));
}

#[test]
fn create_refuses_an_empty_or_a_taken_code_and_reports_write_failures() {
    let c = corpus("TOOLS", vec![door("D05SILENT", &[])]);
    let mut manager = DoorManager::new(config());
    match manager.create_door(&params("", "TOOLS"), &c, 0, "t") {
        Err(LoaderError::InvalidDoor(m)) => assert_eq!(m, "door_code cannot be empty"),
        other => panic!("unexpected: {:?}", other),
    }
    match manager.create_door(&params("d05", "TOOLS"), &c, 0, "t") {
        Err(LoaderError::InvalidDoor(m)) => assert_eq!(m, "Door d05 already exists"),
        other => panic!("unexpected: {:?}", other),
    }
    let plan = manager.create_door(&params("D99", "TOOLS"), &c, 0, "t").unwrap();
    let failed = Outcome { completed: 1, failure: Some("disk full".to_string()) };
    match manager.door_written(plan.result, &failed) {
        Err(LoaderError::IoError(m)) => assert_eq!(m, "disk full"),
        other => panic!("unexpected: {:?}", other),
    }
    let rebuild = manager.rebuild_indexes(&c).unwrap();
    assert!(matches!(manager.index_written(rebuild.result, &failed), Err(LoaderError::IoError(_))));
}

#[test]
fn batch_with_a_collision_writes_nothing() {
    let c = corpus("TOOLS", vec![door("D05", &[])]);
    let mut manager = DoorManager::new(config());
    let items = vec![params("D20", "TOOLS"), params("D21", "TOOLS"), params("D05", "TOOLS")];
    match manager.batch_create(&items, true, &c, 0, "t") {
        BatchPlan::Rejected(result) => {
            assert!(!result.success);
            assert!(result.created.is_empty());
            assert_eq!(result.errors, vec!["Door D05 exists"]);
            assert!(!result.indexes_updated);
        }
        other => panic!("unexpected: {:?}", other),
    }
    let empty = vec![params("", "TOOLS")];
    match manager.batch_create(&empty, true, &c, 0, "t") {
        BatchPlan::Rejected(result) => {
            assert_eq!(result.errors, vec!["Empty door_code", "Door  exists"])
        }
        other => panic!("unexpected: {:?}", other),
    }
    // Without validation the same batch is written.
    match manager.batch_create(&items, false, &c, 0, "t") {
        BatchPlan::Write { ops, codes, paths } => {
            assert_eq!(ops.len(), 6);
            assert_eq!(codes, vec!["D20", "D21", "D05"]);
            assert_eq!(paths[2], "/kb/CONTEXTS/TOOLS/D05.json");
        }
        other => panic!("unexpected: {:?}", other),
    }
}

#[test]
fn batch_rolls_back_what_it_wrote_when_a_write_fails() {
    let c = corpus("TOOLS", vec![]);
    let mut manager = DoorManager::new(config());
    let items = vec![params("D20", "TOOLS"), params("D21", "SECURITY"), params("D22", "TOOLS")];
    let (codes, paths) = match manager.batch_create(&items, true, &c, 0, "t") {
        BatchPlan::Write { ops, codes, paths } => {
            assert!(matches!(&ops[2], FileOp::CreateDir(d) if d == "/kb/CONTEXTS/SECURITY"));
            assert!(matches!(&ops[5], FileOp::WriteDoor { path, door } if path == "/kb/CONTEXTS/TOOLS/D22.json" && door.door_code == "D22"));
            (codes, paths)
        }
        other => panic!("unexpected: {:?}", other),
    };
    let failed = Outcome { completed: 5, failure: Some("disk full".to_string()) };
    let progress = manager.batch_written(codes.clone(), &paths, &failed, true);
    assert!(!progress.result.success);
    assert_eq!(progress.result.created, vec!["D20", "D21"]);
    assert_eq!(progress.result.errors, vec!["Write error: disk full"]);
    assert!(!progress.rebuild);
    assert_eq!(progress.undo.len(), 2);
    assert!(matches!(&progress.undo[1], FileOp::Remove(p) if p == "/kb/CONTEXTS/SECURITY/D21.json"));
    let dir_failed = Outcome { completed: 0, failure: Some("denied".to_string()) };
    let progress = manager.batch_written(codes.clone(), &paths, &dir_failed, true);
    assert_eq!(progress.result.errors, vec!["Dir error: denied"]);
    assert!(progress.result.created.is_empty());
    assert!(progress.undo.is_empty());
    let ok = manager.batch_written(codes.clone(), &paths, &done(6), true);
    assert!(ok.result.success);
    assert_eq!(ok.result.created.len(), 3);
    assert!(ok.rebuild);
    let not_wanted = manager.batch_written(codes, &paths, &done(6), false);
    assert!(not_wanted.result.success);
    assert!(!not_wanted.rebuild);
    let nothing = manager.batch_written(vec![], &vec![], &done(0), true);
    assert!(nothing.result.success);
    assert!(!nothing.rebuild);
}

#[test]
fn several_doors_are_loaded_in_order_up_to_the_first_failure() {
    let c = corpus("TOOLS", vec![door("D05", &[]), door("D06", &[])]);
    let mut loader = DoorLoader::new(config());
    let codes: Vec<String> = ["d06", "D05", "d06"].iter().map(|s| s.to_string()).collect();
    let doors = loader.load_doors(&codes, &c, 0).unwrap();
    let found: Vec<&str> = doors.iter().map(|d| d.door_code.as_str()).collect();
    assert_eq!(found, vec!["D06", "D05", "D06"]);
    let codes: Vec<String> = ["D05", "Z1", "Z2"].iter().map(|s| s.to_string()).collect();
    assert!(matches!(loader.load_doors(&codes, &c, 0), Err(LoaderError::DoorNotFound(code)) if code == "Z1"));
    assert!(loader.load_doors(&vec![], &c, 0).unwrap().is_empty());
}

#[test]
fn index_targets_are_the_files_that_the_index_leads_to() {
    let c = corpus("TOOLS", vec![door("D05", &[]), door("D06", &[])]);
    let mut loader = DoorLoader::new(config());
    assert_eq!(
        loader.index_targets(&c.index),
        vec!["/kb/CONTEXTS/TOOLS/D05.json", "/kb/CONTEXTS/TOOLS/D06.json"]
    );
    assert!(loader.index_targets(&IndexFile::Missing).is_empty());
    // Once the index is cached, the cached index counts.
    loader.load_hash_table(&c).unwrap();
    assert_eq!(loader.index_targets(&IndexFile::Missing).len(), 2);
}

#[test]
fn a_table_and_a_tally_hold_every_key_once() {
    let mut table = HashTable::new();
    for (category, code) in [("TOOLS", "D05"), ("TOOLS", "D06"), ("SECURITY", "D05"), ("TOOLS", "D06")] {
        let (key, record) = entry(category, code, code);
        table.insert(key, record);
    }
    let keys: Vec<&str> = table.entries.iter().map(|(key, _)| key.as_str()).collect();
    assert_eq!(keys, vec!["D05", "D06"]);
    assert_eq!(table.get("D05").unwrap().category, "SECURITY");

    let mut counts: Vec<(String, usize)> = Vec::new();
    tally_all(&mut counts, &vec!["b".to_string(), "a".to_string(), "b".to_string()]);
    tally(&mut counts, "a");
    assert_eq!(counts, vec![("b".to_string(), 2), ("a".to_string(), 2)]);
}
