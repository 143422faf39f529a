//! Where the knowledge base and the sessions are stored.
//!
//! The knowledge base is shared and read-only. Every pair of an agent and a
//! session has a directory of its own under the session root:
//!
//! ```text
//! <session root>/sessions/<agent>_<session>/bootstrap.json
//! <session root>/sessions/<agent>_<session>/checkpoints/
//! ```
//!
//! In the name of the directory the agent is written without `_`, so that
//! the first `_` parts agent and session and no two pairs share a name.
//!
//! A path is a text whose components are joined by `/`.
use vstd::prelude::*;
use vstd::string::*;
use crate::text::{
    ascii_digit, ascii_letter, chars_of, find_char, has_prefix, hex, hex_of, is_ascii_digit,
    is_ascii_letter, owned, push_char, starts_with, text_of_range,
};

verus! {

/// The longest identifier that `sanitize_id` gives.
pub const MAX_ID_CHARS: usize = 64;

/// Whether a character may stand in an identifier: a letter or a digit of
/// ASCII, `-` or `_`.
pub open spec fn safe_char(c: char) -> bool {
    ascii_letter(c) || ascii_digit(c) || c == '-' || c == '_'
}

/// An identifier made safe for a file name: the first 64 characters, each
/// kept where it is a letter or a digit of ASCII, `-` or `_`, or else
/// replaced by `_`.
pub open spec fn sanitized(id: Seq<char>) -> Seq<char> {
    Seq::new(
        if id.len() <= MAX_ID_CHARS {
            id.len()
        } else {
            MAX_ID_CHARS as nat
        },
        |i: int|
            if safe_char(id[i]) {
                id[i]
            } else {
                '_'
            },
    )
}

/// Makes an identifier safe for a file name.
#[verifier::loop_isolation(false)]
pub fn sanitize_id(id: &str) -> (r: String)
    ensures
        r@ == sanitized(id@),
{
    let chars = chars_of(id);
    let n: usize = if chars.len() <= MAX_ID_CHARS {
        chars.len()
    } else {
        MAX_ID_CHARS
    };
    let mut out = String::new();
    let mut i: usize = 0;
    while i < n
        invariant
            i <= n <= chars.len(),
            out@ == sanitized(id@).take(i as int),
        decreases n - i,
    {
        let c = chars[i];
        if is_ascii_letter(c) || is_ascii_digit(c) || c == '-' || c == '_' {
            push_char(&mut out, c);
        } else {
            push_char(&mut out, '_');
        }
        assert(out@ =~= sanitized(id@).take(i + 1));
        i += 1;
    }
    assert(sanitized(id@).take(n as int) =~= sanitized(id@));
    out
}

/// A sanitized identifier is at most 64 characters long, holds only safe
/// characters, keeps every safe character of the input in its place and has
/// `_` in the place of every other.
pub proof fn sanitized_is_safe(id: Seq<char>)
    ensures
        sanitized(id).len() <= MAX_ID_CHARS,
        sanitized(id).len() <= id.len(),
        id.len() <= MAX_ID_CHARS ==> sanitized(id).len() == id.len(),
        forall|i: int| 0 <= i < sanitized(id).len() ==> safe_char(#[trigger] sanitized(id)[i]),
        forall|i: int|
            0 <= i < sanitized(id).len() && safe_char(id[i]) ==> #[trigger] sanitized(id)[i]
                == id[i],
        forall|i: int|
            0 <= i < sanitized(id).len() && !safe_char(id[i]) ==> #[trigger] sanitized(id)[i]
                == '_',
{
}

/// Two identifiers of one length that differ only where both hold a
/// character that is not safe are sanitized to the same identifier.
pub proof fn sanitized_merges_unsafe(a: Seq<char>, b: Seq<char>)
    requires
        a.len() == b.len(),
        forall|i: int| 0 <= i < a.len() && a[i] != b[i] ==> !safe_char(a[i]) && !safe_char(b[i]),
    ensures
        sanitized(a) == sanitized(b),
{
    assert(sanitized(a) =~= sanitized(b));
}

/// Sanitizing an identifier that is already sanitized changes nothing.
pub proof fn sanitized_is_idempotent(id: Seq<char>)
    ensures
        sanitized(sanitized(id)) == sanitized(id),
{
    assert(sanitized(sanitized(id)) =~= sanitized(id));
}

/// `part` below `base`.
pub open spec fn path_join(base: Seq<char>, part: Seq<char>) -> Seq<char> {
    base + "/"@ + part
}

/// `part` below `base`.
pub fn join_path(base: &str, part: &str) -> (r: String)
    ensures
        r@ == path_join(base@, part@),
{
    let mut out = owned(base);
    out.append("/");
    out.append(part);
    out
}

// ---------------------------------------------------------------------------
// The name of a session's directory
// ---------------------------------------------------------------------------

/// How a character of an agent is written in the name of a directory: `-`
/// as `--`, `_` as `-u`, every other character as itself.
pub open spec fn escaped_char(c: char) -> Seq<char> {
    if c == '-' {
        seq!['-', '-']
    } else if c == '_' {
        seq!['-', 'u']
    } else {
        seq![c]
    }
}

/// An agent as it is written in the name of a directory.
pub open spec fn escaped(id: Seq<char>) -> Seq<char>
    decreases id.len(),
{
    if id.len() == 0 {
        Seq::empty()
    } else {
        escaped_char(id.first()) + escaped(id.skip(1))
    }
}

/// The agent that a text is the written form of, where it is one.
pub open spec fn unescaped(text: Seq<char>) -> Option<Seq<char>>
    decreases text.len(),
{
    if text.len() == 0 {
        Some(Seq::empty())
    } else if text[0] == '-' {
        if text.len() >= 2 && (text[1] == '-' || text[1] == 'u') {
            match unescaped(text.skip(2)) {
                Some(rest) => Some(
                    seq![if text[1] == '-' {
                        '-'
                    } else {
                        '_'
                    }] + rest,
                ),
                None => None,
            }
        } else {
            None
        }
    } else if text[0] == '_' {
        None
    } else {
        match unescaped(text.skip(1)) {
            Some(rest) => Some(seq![text[0]] + rest),
            None => None,
        }
    }
}

/// The name of the directory of an agent's session: the agent as it is
/// written, `_`, the session.
pub open spec fn session_name(agent_id: Seq<char>, session_id: Seq<char>) -> Seq<char> {
    escaped(agent_id) + "_"@ + session_id
}

/// The written form of an agent holds no `_`, and the agent is read back
/// from it.
pub proof fn escaped_is_read_back(id: Seq<char>)
    ensures
        forall|i: int| 0 <= i < escaped(id).len() ==> escaped(id)[i] != '_',
        unescaped(escaped(id)) == Some(id),
    decreases id.len(),
{
    if id.len() > 0 {
        let c = id.first();
        let rest = id.skip(1);
        let tail = escaped(rest);
        let text = escaped(id);
        escaped_is_read_back(rest);
        assert(text == escaped_char(c) + tail);
        if c == '-' || c == '_' {
            assert(text.skip(2) =~= tail);
            assert(seq![c] + rest =~= id);
        } else {
            assert(text.skip(1) =~= tail);
            assert(seq![c] + rest =~= id);
        }
        assert forall|i: int| 0 <= i < text.len() implies text[i] != '_' by {
            let n = escaped_char(c).len() as int;
            if i >= n {
                assert(text[i] == tail[i - n]);
            }
        }
    }
}

/// A text that is the written form of an agent is the written form of the
/// agent that is read from it, and of no other.
pub proof fn unescaped_is_written_back(text: Seq<char>)
    requires
        unescaped(text) is Some,
    ensures
        escaped(unescaped(text)->0) == text,
    decreases text.len(),
{
    if text.len() > 0 {
        if text[0] == '-' {
            let rest = unescaped(text.skip(2))->0;
            let c = if text[1] == '-' {
                '-'
            } else {
                '_'
            };
            unescaped_is_written_back(text.skip(2));
            let id = seq![c] + rest;
            assert(id.first() == c);
            assert(id.skip(1) =~= rest);
            assert(escaped_char(c) + text.skip(2) =~= text);
        } else {
            let rest = unescaped(text.skip(1))->0;
            unescaped_is_written_back(text.skip(1));
            let id = seq![text[0]] + rest;
            assert(id.first() == text[0]);
            assert(id.skip(1) =~= rest);
            assert(escaped_char(text[0]) + text.skip(1) =~= text);
        }
    }
}

/// An agent as it is written in the name of a directory.
#[verifier::loop_isolation(false)]
fn escape(id: &str) -> (r: String)
    ensures
        r@ == escaped(id@),
{
    let chars = chars_of(id);
    let mut out = String::new();
    let mut i: usize = 0;
    assert(id@.skip(0) =~= id@);
    while i < chars.len()
        invariant
            i <= chars.len(),
            escaped(id@) == out@ + escaped(id@.skip(i as int)),
        decreases chars.len() - i,
    {
        let c = chars[i];
        let ghost before = out@;
        let ghost tail = escaped(id@.skip(i + 1));
        assert(id@.skip(i as int).first() == c);
        assert(id@.skip(i as int).skip(1) =~= id@.skip(i + 1));
        if c == '-' {
            push_char(&mut out, '-');
            push_char(&mut out, '-');
        } else if c == '_' {
            push_char(&mut out, '-');
            push_char(&mut out, 'u');
        } else {
            push_char(&mut out, c);
        }
        assert(out@ =~= before + escaped_char(c));
        assert(before + (escaped_char(c) + tail) =~= (before + escaped_char(c)) + tail);
        i += 1;
    }
    assert(out@ + Seq::<char>::empty() =~= out@);
    out
}

/// The agent that `chars[..to]` is the written form of, where it is one.
#[verifier::loop_isolation(false)]
fn unescape(chars: &Vec<char>, to: usize) -> (r: Option<String>)
    requires
        to <= chars.len(),
    ensures
        r.deep_view() == unescaped(chars@.take(to as int)),
{
    let ghost text = chars@.take(to as int);
    let mut out = String::new();
    let mut i: usize = 0;
    assert(text.skip(0) =~= text);
    assert(Seq::<char>::empty() + unescaped(text)->0 =~= unescaped(text)->0);
    while i < to
        invariant
            i <= to,
            unescaped(text) == match unescaped(text.skip(i as int)) {
                Some(rest) => Some(out@ + rest),
                None => None,
            },
        decreases to - i,
    {
        let c = chars[i];
        let ghost before = out@;
        let ghost here = text.skip(i as int);
        assert(here[0] == c);
        if c == '-' {
            if i + 1 < to && (chars[i + 1] == '-' || chars[i + 1] == 'u') {
                let d = if chars[i + 1] == '-' {
                    '-'
                } else {
                    '_'
                };
                assert(here[1] == chars[i + 1]);
                assert(here.skip(2) =~= text.skip(i + 2));
                push_char(&mut out, d);
                assert forall|rest: Seq<char>| before + (seq![d] + rest) == out@ + rest by {
                    assert(before + (seq![d] + rest) =~= out@ + rest);
                }
                i += 2;
            } else {
                return None;
            }
        } else if c == '_' {
            return None;
        } else {
            assert(here.skip(1) =~= text.skip(i + 1));
            push_char(&mut out, c);
            assert forall|rest: Seq<char>| before + (seq![c] + rest) == out@ + rest by {
                assert(before + (seq![c] + rest) =~= out@ + rest);
            }
            i += 1;
        }
    }
    assert(out@ + Seq::<char>::empty() =~= out@);
    Some(out)
}

/// What the process was started with, read once: the knowledge base that was
/// found, the overrides of the session root and of the two identifiers, the
/// home directory, and the clock in milliseconds.
#[derive(Debug)]
pub struct Environment {
    pub knowledge_base: String,
    pub session_root: Option<String>,
    pub home: Option<String>,
    pub agent_id: Option<String>,
    pub session_id: Option<String>,
    pub clock_millis: u64,
}

/// The paths and identifiers that a server works with.
#[derive(Debug)]
pub struct Config {
    /// Root directory of the knowledge base.
    pub phishri_path: String,
    /// Root directory of the session storage.
    pub session_root: String,
    /// The agent that is served.
    pub agent_id: String,
    /// The session that is served.
    pub session_id: String,
}

pub struct ConfigModel {
    pub phishri_path: Seq<char>,
    pub session_root: Seq<char>,
    pub agent_id: Seq<char>,
    pub session_id: Seq<char>,
}

impl DeepView for Config {
    type V = ConfigModel;

    open spec fn deep_view(&self) -> ConfigModel {
        ConfigModel {
            phishri_path: self.phishri_path@,
            session_root: self.session_root@,
            agent_id: self.agent_id@,
            session_id: self.session_id@,
        }
    }
}

impl Clone for Config {
    fn clone(&self) -> (r: Self)
        ensures
            r.deep_view() == self.deep_view(),
    {
        Config {
            phishri_path: self.phishri_path.clone(),
            session_root: self.session_root.clone(),
            agent_id: self.agent_id.clone(),
            session_id: self.session_id.clone(),
        }
    }
}

/// The agent that is served: the override, sanitized, or `default`.
pub open spec fn resolved_agent_id(agent_id: Option<Seq<char>>) -> Seq<char> {
    match agent_id {
        Some(id) => sanitized(id),
        None => "default"@,
    }
}

/// The session that is served: the override, sanitized, or the clock in
/// hexadecimal notation.
pub open spec fn resolved_session_id(session_id: Option<Seq<char>>, clock_millis: u64) -> Seq<char> {
    match session_id {
        Some(id) => sanitized(id),
        None => hex_of(clock_millis as nat),
    }
}

/// The session root: the override, or `.phishri` below the home directory,
/// or `/tmp/.phishri` where neither is known.
pub open spec fn resolved_session_root(session_root: Option<Seq<char>>, home: Option<Seq<char>>) -> Seq<
    char,
> {
    match session_root {
        Some(root) => root,
        None => match home {
            Some(h) => path_join(h, ".phishri"@),
            None => "/tmp/.phishri"@,
        },
    }
}

impl ConfigModel {
    pub open spec fn contexts_path(self) -> Seq<char> {
        path_join(self.phishri_path, "CONTEXTS"@)
    }

    pub open spec fn indexes_path(self) -> Seq<char> {
        path_join(self.phishri_path, "INDEXES"@)
    }

    pub open spec fn hash_table_path(self) -> Seq<char> {
        path_join(self.indexes_path(), "HASH_TABLE.json"@)
    }

    pub open spec fn session_dir_name(self) -> Seq<char> {
        session_name(self.agent_id, self.session_id)
    }

    pub open spec fn session_path(self) -> Seq<char> {
        path_join(path_join(self.session_root, "sessions"@), self.session_dir_name())
    }

    pub open spec fn bootstrap_path(self) -> Seq<char> {
        path_join(self.session_path(), "bootstrap.json"@)
    }

    pub open spec fn checkpoints_path(self) -> Seq<char> {
        path_join(self.session_path(), "checkpoints"@)
    }
}

impl Config {
    /// The configuration that an environment gives.
    pub fn new(env: &Environment) -> (r: Config)
        ensures
            r.phishri_path@ == env.knowledge_base@,
            r.session_root@ == resolved_session_root(
                env.session_root.deep_view(),
                env.home.deep_view(),
            ),
            r.agent_id@ == resolved_agent_id(env.agent_id.deep_view()),
            r.session_id@ == resolved_session_id(env.session_id.deep_view(), env.clock_millis),
    {
        let agent_id = match &env.agent_id {
            Some(id) => sanitize_id(id.as_str()),
            None => owned("default"),
        };
        let session_id = match &env.session_id {
            Some(id) => sanitize_id(id.as_str()),
            None => hex(env.clock_millis),
        };
        let session_root = match &env.session_root {
            Some(root) => root.clone(),
            None => match &env.home {
                Some(h) => join_path(h.as_str(), ".phishri"),
                None => owned("/tmp/.phishri"),
            },
        };
        Config { phishri_path: env.knowledge_base.clone(), session_root, agent_id, session_id }
    }

    /// The configuration that an environment gives, for the agent and the
    /// session that are named. The two identifiers are taken as they are.
    pub fn with_session(env: &Environment, agent_id: &str, session_id: &str) -> (r: Config)
        ensures
            r.phishri_path@ == env.knowledge_base@,
            r.session_root@ == resolved_session_root(
                env.session_root.deep_view(),
                env.home.deep_view(),
            ),
            r.agent_id@ == agent_id@,
            r.session_id@ == session_id@,
    {
        let mut config = Config::new(env);
        config.agent_id = owned(agent_id);
        config.session_id = owned(session_id);
        config
    }

    /// The directory of the documents.
    pub fn contexts_path(&self) -> (r: String)
        ensures
            r@ == self.deep_view().contexts_path(),
    {
        join_path(self.phishri_path.as_str(), "CONTEXTS")
    }

    /// The directory of the indexes.
    pub fn indexes_path(&self) -> (r: String)
        ensures
            r@ == self.deep_view().indexes_path(),
    {
        join_path(self.phishri_path.as_str(), "INDEXES")
    }

    /// The file of the code index.
    pub fn hash_table_path(&self) -> (r: String)
        ensures
            r@ == self.deep_view().hash_table_path(),
    {
        join_path(self.indexes_path().as_str(), "HASH_TABLE.json")
    }

    /// The file of the semantic map.
    pub fn semantic_map_path(&self) -> (r: String)
        ensures
            r@ == path_join(self.deep_view().indexes_path(), "SEMANTIC_MAP.json"@),
    {
        join_path(self.indexes_path().as_str(), "SEMANTIC_MAP.json")
    }

    /// The file of the language patterns.
    pub fn nlp_patterns_path(&self) -> (r: String)
        ensures
            r@ == path_join(self.deep_view().indexes_path(), "NLP_PATTERNS.json"@),
    {
        join_path(self.indexes_path().as_str(), "NLP_PATTERNS.json")
    }

    /// The file of the prerequisite table.
    pub fn prerequisites_path(&self) -> (r: String)
        ensures
            r@ == path_join(self.deep_view().indexes_path(), "PREREQUISITES.json"@),
    {
        join_path(self.indexes_path().as_str(), "PREREQUISITES.json")
    }

    /// The name of the session's directory: the agent as it is written,
    /// `_`, the session.
    pub fn session_dir_name(&self) -> (r: String)
        ensures
            r@ == self.deep_view().session_dir_name(),
    {
        let mut out = escape(self.agent_id.as_str());
        out.append("_");
        out.append(self.session_id.as_str());
        out
    }

    /// The directory of the session.
    pub fn session_path(&self) -> (r: String)
        ensures
            r@ == self.deep_view().session_path(),
    {
        let sessions = join_path(self.session_root.as_str(), "sessions");
        join_path(sessions.as_str(), self.session_dir_name().as_str())
    }

    /// The bootstrap file of the session.
    pub fn bootstrap_path(&self) -> (r: String)
        ensures
            r@ == self.deep_view().bootstrap_path(),
    {
        join_path(self.session_path().as_str(), "bootstrap.json")
    }

    /// The directory of the session's checkpoints.
    pub fn checkpoints_path(&self) -> (r: String)
        ensures
            r@ == self.deep_view().checkpoints_path(),
    {
        join_path(self.session_path().as_str(), "checkpoints")
    }
}

/// The agent and the session are read back from the name of their
/// directory.
pub proof fn session_name_is_read_back(agent_id: Seq<char>, session_id: Seq<char>)
    ensures
        agent_and_session(session_name(agent_id, session_id)) == Some((agent_id, session_id)),
        session_of(session_name(agent_id, session_id), agent_id) == Some(session_id),
{
    let written = escaped(agent_id);
    let name = session_name(agent_id, session_id);
    let at = written.len() as int;
    escaped_is_read_back(agent_id);
    reveal_strlit("_");
    assert(name[at] == '_');
    assert forall|i: int| 0 <= i < at implies name[i] != '_' by {
        assert(name[i] == written[i]);
    }
    first_is_found(name, '_', 0, at);
    assert(name.take(at) =~= written);
    assert(name.skip(at + 1) =~= session_id);
    assert(name.subrange(0, at + 1) =~= written + "_"@);
}

/// The first place of a character after `from` is where it stands with no
/// other before it.
proof fn first_is_found(s: Seq<char>, c: char, from: int, at: int)
    requires
        0 <= from <= at < s.len(),
        s[at] == c,
        forall|i: int| from <= i < at ==> s[i] != c,
    ensures
        find_char(s, c, from) == at,
    decreases at - from,
{
    if from < at {
        first_is_found(s, c, from + 1, at);
    }
}

/// The written form of an agent that holds only safe characters holds only
/// safe characters.
proof fn escaped_is_safe(id: Seq<char>)
    requires
        forall|i: int| 0 <= i < id.len() ==> safe_char(#[trigger] id[i]),
    ensures
        forall|i: int| 0 <= i < escaped(id).len() ==> safe_char(#[trigger] escaped(id)[i]),
    decreases id.len(),
{
    if id.len() > 0 {
        let rest = id.skip(1);
        assert forall|i: int| 0 <= i < rest.len() implies safe_char(#[trigger] rest[i]) by {
            assert(rest[i] == id[i + 1]);
        }
        escaped_is_safe(rest);
        let head = escaped_char(id.first());
        assert(safe_char(id[0]));
        assert forall|i: int| 0 <= i < escaped(id).len() implies safe_char(
            #[trigger] escaped(id)[i],
        ) by {
            if i >= head.len() {
                assert(escaped(id)[i] == escaped(rest)[i - head.len()]);
            }
        }
    }
}

/// Where the agent and the session hold only safe characters, so does the
/// name of their directory.
pub proof fn session_name_is_safe(agent_id: Seq<char>, session_id: Seq<char>)
    requires
        forall|i: int| 0 <= i < agent_id.len() ==> safe_char(#[trigger] agent_id[i]),
        forall|i: int| 0 <= i < session_id.len() ==> safe_char(#[trigger] session_id[i]),
    ensures
        forall|i: int|
            0 <= i < session_name(agent_id, session_id).len() ==> safe_char(
                #[trigger] session_name(agent_id, session_id)[i],
            ),
{
    escaped_is_safe(agent_id);
    reveal_strlit("_");
    let written = escaped(agent_id);
    let name = session_name(agent_id, session_id);
    assert forall|i: int| 0 <= i < name.len() implies safe_char(#[trigger] name[i]) by {
        if i < written.len() {
            assert(name[i] == written[i]);
        } else if i > written.len() {
            assert(name[i] == session_id[i - written.len() - 1]);
        }
    }
}

/// Two sessions that differ in the agent or in the session have different
/// names of their directories.
pub proof fn session_names_are_apart(a: ConfigModel, b: ConfigModel)
    requires
        a.agent_id != b.agent_id || a.session_id != b.session_id,
    ensures
        a.session_dir_name() != b.session_dir_name(),
{
    session_name_is_read_back(a.agent_id, a.session_id);
    session_name_is_read_back(b.agent_id, b.session_id);
}

/// Two sessions under one root that differ in the agent or in the session
/// have different directories, bootstrap files and checkpoint directories;
/// all sessions of one knowledge base share its paths.
pub proof fn sessions_are_apart(a: ConfigModel, b: ConfigModel)
    requires
        a.session_root == b.session_root,
        a.agent_id != b.agent_id || a.session_id != b.session_id,
    ensures
        a.session_path() != b.session_path(),
        a.bootstrap_path() != b.bootstrap_path(),
        a.checkpoints_path() != b.checkpoints_path(),
        a.phishri_path == b.phishri_path ==> a.hash_table_path() == b.hash_table_path()
            && a.contexts_path() == b.contexts_path(),
{
    session_names_are_apart(a, b);
    let base = path_join(a.session_root, "sessions"@) + "/"@;
    let x = a.session_dir_name();
    let y = b.session_dir_name();
    assert(a.session_path() =~= base + x);
    assert(b.session_path() =~= base + y);
    assert((base + x).skip(base.len() as int) =~= x);
    assert((base + y).skip(base.len() as int) =~= y);
    let ta = "/"@ + "bootstrap.json"@;
    assert(a.bootstrap_path() =~= a.session_path() + ta);
    assert(b.bootstrap_path() =~= b.session_path() + ta);
    assert((a.session_path() + ta).take(a.session_path().len() as int) =~= a.session_path());
    assert((b.session_path() + ta).take(b.session_path().len() as int) =~= b.session_path());
    let tc = "/"@ + "checkpoints"@;
    assert(a.checkpoints_path() =~= a.session_path() + tc);
    assert(b.checkpoints_path() =~= b.session_path() + tc);
    assert((a.session_path() + tc).take(a.session_path().len() as int) =~= a.session_path());
    assert((b.session_path() + tc).take(b.session_path().len() as int) =~= b.session_path());
}


// ---------------------------------------------------------------------------
// The sessions that are stored
// ---------------------------------------------------------------------------

/// The session that a directory name stands for, where the directory is
/// one of the agent: what follows the agent as it is written and a `_`.
pub open spec fn session_of(name: Seq<char>, agent_id: Seq<char>) -> Option<Seq<char>> {
    if has_prefix(name, escaped(agent_id) + "_"@) {
        Some(name.skip(escaped(agent_id).len() as int + 1))
    } else {
        None
    }
}

/// The sessions of an agent among the names of the session directories, in
/// order.
pub open spec fn sessions_of(names: Seq<Seq<char>>, agent_id: Seq<char>) -> Seq<Seq<char>>
    decreases names.len(),
{
    if names.len() == 0 {
        Seq::empty()
    } else {
        match session_of(names.last(), agent_id) {
            Some(session) => sessions_of(names.drop_last(), agent_id).push(session),
            None => sessions_of(names.drop_last(), agent_id),
        }
    }
}

/// The sessions of an agent among the names of the session directories.
#[verifier::loop_isolation(false)]
pub fn agent_sessions(names: &Vec<String>, agent_id: &str) -> (r: Vec<String>)
    ensures
        r.deep_view() == sessions_of(names.deep_view(), agent_id@),
{
    let mut prefix = escape(agent_id);
    prefix.append("_");
    let skipped = prefix.as_str().unicode_len();
    proof {
        reveal_strlit("_");
    }
    let ghost model = names.deep_view();
    let mut out: Vec<String> = Vec::new();
    let mut i: usize = 0;
    assert(model.take(0) =~= Seq::empty());
    assert(out.deep_view() =~= Seq::empty());
    while i < names.len()
        invariant
            i <= names.len(),
            out.deep_view() == sessions_of(model.take(i as int), agent_id@),
        decreases names.len() - i,
    {
        proof {
            let next = model.take(i + 1);
            assert(next.drop_last() == model.take(i as int));
            assert(next.last() == names@[i as int]@);
        }
        let ghost before = out.deep_view();
        if starts_with(names[i].as_str(), prefix.as_str()) {
            let chars = chars_of(names[i].as_str());
            let session = text_of_range(&chars, skipped, chars.len());
            assert(session@ == names@[i as int]@.skip(skipped as int));
            out.push(session);
            assert(out.deep_view() =~= before.push(names@[i as int]@.skip(skipped as int)));
        }
        i += 1;
    }
    assert(model.take(names.len() as int) == model);
    out
}

/// The agent and the session that the name of a session directory stands
/// for: the agent that is written before its first `_`, and what stands
/// after; nothing where the name has no `_` or no agent is written so.
pub open spec fn agent_and_session(name: Seq<char>) -> Option<(Seq<char>, Seq<char>)> {
    let at = find_char(name, '_', 0);
    if at < name.len() {
        match unescaped(name.take(at)) {
            Some(agent_id) => Some((agent_id, name.skip(at + 1))),
            None => None,
        }
    } else {
        None
    }
}

/// The agent and the session that the name of a session directory stands
/// for.
#[verifier::loop_isolation(false)]
pub fn split_session_name(name: &str) -> (r: Option<(String, String)>)
    ensures
        r.deep_view() == agent_and_session(name@),
{
    let chars = chars_of(name);
    let mut at: usize = 0;
    while at < chars.len() && chars[at] != '_'
        invariant
            at <= chars.len(),
            find_char(name@, '_', 0) == find_char(name@, '_', at as int),
        decreases chars.len() - at,
    {
        at += 1;
    }
    if at < chars.len() {
        match unescape(&chars, at) {
            Some(agent) => {
                let session = text_of_range(&chars, at + 1, chars.len());
                assert(name@.skip(at + 1) == name@.subrange(at + 1, name@.len() as int));
                Some((agent, session))
            },
            None => None,
        }
    } else {
        None
    }
}

/// The seconds of a day.
pub const SECONDS_PER_DAY: u64 = 86400;

/// Whether a session that was last changed so long ago is older than so
/// many days.
pub open spec fn older_than(age_secs: u64, age_nanos: u32, max_age_days: u64) -> bool {
    age_secs > max_age_days * SECONDS_PER_DAY || (age_secs == max_age_days * SECONDS_PER_DAY
        && age_nanos > 0)
}

/// Whether a session that was last changed `age_secs` seconds and
/// `age_nanos` nanoseconds ago is older than `max_age_days` days.
pub fn is_older_than(age_secs: u64, age_nanos: u32, max_age_days: u64) -> (r: bool)
    ensures
        r == older_than(age_secs, age_nanos, max_age_days),
{
    if max_age_days > u64::MAX / SECONDS_PER_DAY {
        false
    } else {
        let limit = max_age_days * SECONDS_PER_DAY;
        age_secs > limit || (age_secs == limit && age_nanos > 0)
    }
}

} // verus!
