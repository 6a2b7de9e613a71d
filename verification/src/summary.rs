//! Slim JSON metadata stored with each audit row: a few fields of the write
//! tool's arguments, never the document bodies themselves.

use vstd::prelude::*;
use vstd::string::*;
use vstd::utf8::encode_utf8;

use crate::json::{
    first_key_at, lemma_lookup_found, lookup, to_json_string, json_text, JsonData, JsonMap,
    JsonNumber, JsonValue,
};

verus! {

/// How many characters of a title the summary keeps.
pub const TITLE_SUMMARY_MAX_CHARS: usize = 128;

/// The write tools whose arguments are summarised.
#[derive(Clone, Copy, Debug, PartialEq, Eq)]
pub enum WriteTool {
    /// `memory.store`: a document is stored.
    MemoryStore,
    /// `memory.note`: a note is attached to a chunk.
    MemoryNote,
    /// `tree.tag`: tags are set on a chunk.
    TreeTag,
}

// ---------------------------------------------------------------------------
// Specification

/// The write tool a tool name denotes, if any.
pub open spec fn tool_of(name: Seq<char>) -> Option<WriteTool> {
    if name == "memory.store"@ {
        Some(WriteTool::MemoryStore)
    } else if name == "memory.note"@ {
        Some(WriteTool::MemoryNote)
    } else if name == "tree.tag"@ {
        Some(WriteTool::TreeTag)
    } else {
        None
    }
}

/// The text of member `key`, when it is a string.
pub open spec fn str_member(members: Seq<(Seq<char>, JsonData)>, key: Seq<char>) -> Option<Seq<char>> {
    match lookup(members, key) {
        Some(JsonData::Str(s)) => Some(s),
        _ => None,
    }
}

/// The elements of member `key`, when it is an array.
pub open spec fn array_member(members: Seq<(Seq<char>, JsonData)>, key: Seq<char>) -> Option<Seq<JsonData>> {
    match lookup(members, key) {
        Some(JsonData::Array(a)) => Some(a),
        _ => None,
    }
}

/// The text of member `key` of the object in member `metadata`, when both are
/// there with those types.
pub open spec fn metadata_str(members: Seq<(Seq<char>, JsonData)>, key: Seq<char>) -> Option<Seq<char>> {
    match lookup(members, "metadata"@) {
        Some(JsonData::Object(m)) => str_member(m, key),
        _ => None,
    }
}

/// `s`, or `default` when there is none.
pub open spec fn text_or(s: Option<Seq<char>>, default: Seq<char>) -> Seq<char> {
    match s {
        Some(t) => t,
        None => default,
    }
}

/// The first `TITLE_SUMMARY_MAX_CHARS` characters of a title.
pub open spec fn truncated_title(title: Seq<char>) -> Seq<char> {
    if title.len() <= TITLE_SUMMARY_MAX_CHARS {
        title
    } else {
        title.take(TITLE_SUMMARY_MAX_CHARS as int)
    }
}

/// How many tags the arguments carry: the length of the `tags` array, else 0.
pub open spec fn tag_count(args: Seq<(Seq<char>, JsonData)>) -> u64 {
    match array_member(args, "tags"@) {
        Some(a) => a.len() as u64,
        None => 0,
    }
}

/// The UTF-8 length of the note's `content`, else 0. The content itself never
/// enters the summary.
pub open spec fn note_length(args: Seq<(Seq<char>, JsonData)>) -> u64 {
    match str_member(args, "content"@) {
        Some(s) => encode_utf8(s).len() as usize as u64,
        None => 0,
    }
}

/// The summary of a `memory.store` call: its title (cut to the limit), its
/// namespace (`mcp` when absent) and how many tags it carries.
pub open spec fn store_summary(args: Seq<(Seq<char>, JsonData)>) -> JsonData {
    JsonData::Object(
        seq![
            ("title"@, JsonData::Str(truncated_title(text_or(str_member(args, "title"@), ""@)))),
            ("namespace"@, JsonData::Str(text_or(str_member(args, "namespace"@), "mcp"@))),
            ("tag_count"@, JsonData::Number(JsonNumber::PosInt(tag_count(args)))),
        ],
    )
}

/// The summary of a `memory.note` call: the annotated chunk and the length of
/// the note's text.
pub open spec fn note_summary(args: Seq<(Seq<char>, JsonData)>) -> JsonData {
    JsonData::Object(
        seq![
            ("chunk_id"@, JsonData::Str(text_or(metadata_str(args, "annotates_chunk_id"@), ""@))),
            ("note_text_length"@, JsonData::Number(JsonNumber::PosInt(note_length(args)))),
        ],
    )
}

/// The summary of a `tree.tag` call: the tagged chunk and the tags.
pub open spec fn tag_summary(args: Seq<(Seq<char>, JsonData)>) -> JsonData {
    JsonData::Object(
        seq![
            ("chunk_id"@, JsonData::Str(text_or(metadata_str(args, "tags_for_chunk_id"@), ""@))),
            ("tags"@, JsonData::Array(
                match array_member(args, "tags"@) {
                    Some(a) => a,
                    None => Seq::empty(),
                },
            )),
        ],
    )
}

/// The summary of a call of `tool` with `args`; none for other tools.
pub open spec fn write_summary(tool: Seq<char>, args: Seq<(Seq<char>, JsonData)>) -> Option<JsonData> {
    match tool_of(tool) {
        Some(WriteTool::MemoryStore) => Some(store_summary(args)),
        Some(WriteTool::MemoryNote) => Some(note_summary(args)),
        Some(WriteTool::TreeTag) => Some(tag_summary(args)),
        None => None,
    }
}

// ---------------------------------------------------------------------------
// Laws

/// Document bodies never reach the summary: two argument objects that agree on
/// every member but `content`, and whose contents have the same UTF-8 length,
/// have the same summary.
pub proof fn lemma_summary_ignores_content(
    tool: Seq<char>,
    a: Seq<(Seq<char>, JsonData)>,
    b: Seq<(Seq<char>, JsonData)>,
)
    requires
        forall|k: Seq<char>| k != "content"@ ==> #[trigger] lookup(a, k) == lookup(b, k),
        note_length(a) == note_length(b),
    ensures
        write_summary(tool, a) == write_summary(tool, b),
{
    reveal_strlit("content");
    reveal_strlit("title");
    reveal_strlit("namespace");
    reveal_strlit("tags");
    reveal_strlit("metadata");
    assert("content"@.len() == 7);
    assert("title"@.len() == 5);
    assert("namespace"@.len() == 9);
    assert("tags"@.len() == 4);
    assert("metadata"@.len() == 8);
    assert(lookup(a, "title"@) == lookup(b, "title"@));
    assert(lookup(a, "namespace"@) == lookup(b, "namespace"@));
    assert(lookup(a, "tags"@) == lookup(b, "tags"@));
    assert(lookup(a, "metadata"@) == lookup(b, "metadata"@));
}

/// The member `key` of a summary, if the summary is an object that has it.
pub open spec fn summary_member(summary: Option<JsonData>, key: Seq<char>) -> Option<JsonData> {
    match summary {
        Some(JsonData::Object(members)) => lookup(members, key),
        _ => None,
    }
}

/// The text under `key` in `members`, when it is a string, else `default`.
pub open spec fn text_at(members: Seq<(Seq<char>, JsonData)>, key: Seq<char>, default: Seq<char>) -> Seq<char> {
    match lookup(members, key) {
        Some(JsonData::Str(s)) => s,
        _ => default,
    }
}

/// The text under `key` of the object under `metadata`, else "".
pub open spec fn metadata_text_at(members: Seq<(Seq<char>, JsonData)>, key: Seq<char>) -> Seq<char> {
    match lookup(members, "metadata"@) {
        Some(JsonData::Object(m)) => text_at(m, key, ""@),
        _ => ""@,
    }
}

proof fn lemma_key_lengths()
    ensures
        "title"@.len() == 5,
        "namespace"@.len() == 9,
        "namespace"@[0] == 'n',
        "tag_count"@.len() == 9,
        "tag_count"@[0] == 't',
        "chunk_id"@.len() == 8,
        "note_text_length"@.len() == 16,
        "tags"@.len() == 4,
        "memory.store"@.len() == 12,
        "memory.note"@.len() == 11,
        "tree.tag"@.len() == 8,
{
    reveal_strlit("title");
    reveal_strlit("namespace");
    reveal_strlit("tag_count");
    reveal_strlit("chunk_id");
    reveal_strlit("note_text_length");
    reveal_strlit("tags");
    reveal_strlit("memory.store");
    reveal_strlit("memory.note");
    reveal_strlit("tree.tag");
}

/// A `memory.store` summary has exactly the members `title`, `namespace` and
/// `tag_count`: the title given (a string, else empty) cut to its first
/// `TITLE_SUMMARY_MAX_CHARS` characters, the namespace given (a string, else
/// `mcp`), and the length of the `tags` array (else 0).
pub proof fn lemma_store_summary_members(args: Seq<(Seq<char>, JsonData)>)
    ensures
        ({
            let s = write_summary("memory.store"@, args);
            let title = text_at(args, "title"@, ""@);
            &&& s matches Some(JsonData::Object(m)) && m.len() == 3
            &&& summary_member(s, "title"@) matches Some(JsonData::Str(t)) && t.len() <= TITLE_SUMMARY_MAX_CHARS
                && t == title.take(t.len() as int)
                && (title.len() <= TITLE_SUMMARY_MAX_CHARS ==> t == title)
                && (title.len() > TITLE_SUMMARY_MAX_CHARS ==> t.len() == TITLE_SUMMARY_MAX_CHARS)
            &&& summary_member(s, "namespace"@) == Some(JsonData::Str(text_at(args, "namespace"@, "mcp"@)))
            &&& summary_member(s, "tag_count"@) == Some(JsonData::Number(JsonNumber::PosInt(
                match lookup(args, "tags"@) {
                    Some(JsonData::Array(a)) => a.len() as u64,
                    _ => 0,
                },
            )))
        }),
{
    lemma_key_lengths();
    let s = write_summary("memory.store"@, args);
    let m = s->0->Object_0;
    assert(first_key_at(m, "title"@, 0));
    assert(first_key_at(m, "namespace"@, 1));
    assert(first_key_at(m, "tag_count"@, 2));
    lemma_lookup_found(m, "title"@, 0);
    lemma_lookup_found(m, "namespace"@, 1);
    lemma_lookup_found(m, "tag_count"@, 2);
    let title = text_at(args, "title"@, ""@);
    assert(title.take(title.len() as int) =~= title);
}

/// A `memory.note` summary has exactly the members `chunk_id` (the
/// `metadata.annotates_chunk_id` text, else empty) and `note_text_length` (the
/// number of UTF-8 bytes of the `content` text, else 0).
pub proof fn lemma_note_summary_members(args: Seq<(Seq<char>, JsonData)>)
    ensures
        ({
            let s = write_summary("memory.note"@, args);
            &&& s matches Some(JsonData::Object(m)) && m.len() == 2
            &&& summary_member(s, "chunk_id"@) == Some(
                JsonData::Str(metadata_text_at(args, "annotates_chunk_id"@)),
            )
            &&& summary_member(s, "note_text_length"@) == Some(JsonData::Number(JsonNumber::PosInt(
                match lookup(args, "content"@) {
                    Some(JsonData::Str(c)) => encode_utf8(c).len() as usize as u64,
                    _ => 0,
                },
            )))
        }),
{
    lemma_key_lengths();
    let s = write_summary("memory.note"@, args);
    let m = s->0->Object_0;
    assert(first_key_at(m, "chunk_id"@, 0));
    assert(first_key_at(m, "note_text_length"@, 1));
    lemma_lookup_found(m, "chunk_id"@, 0);
    lemma_lookup_found(m, "note_text_length"@, 1);
}

/// A `tree.tag` summary has exactly the members `chunk_id` (the
/// `metadata.tags_for_chunk_id` text, else empty) and `tags`: the `tags` array
/// given, element for element whatever its length, else an empty array.
pub proof fn lemma_tag_summary_members(args: Seq<(Seq<char>, JsonData)>)
    ensures
        ({
            let s = write_summary("tree.tag"@, args);
            &&& s matches Some(JsonData::Object(m)) && m.len() == 2
            &&& summary_member(s, "chunk_id"@) == Some(
                JsonData::Str(metadata_text_at(args, "tags_for_chunk_id"@)),
            )
            &&& (lookup(args, "tags"@) matches Some(JsonData::Array(a)) ==> summary_member(s, "tags"@)
                == Some(JsonData::Array(a)))
            &&& (!(lookup(args, "tags"@) matches Some(JsonData::Array(_))) ==> summary_member(
                s,
                "tags"@,
            ) == Some(JsonData::Array(Seq::empty())))
        }),
{
    lemma_key_lengths();
    let s = write_summary("tree.tag"@, args);
    let m = s->0->Object_0;
    assert(first_key_at(m, "chunk_id"@, 0));
    assert(first_key_at(m, "tags"@, 1));
    lemma_lookup_found(m, "chunk_id"@, 0);
    lemma_lookup_found(m, "tags"@, 1);
}

/// Only the three write tools get a summary.
pub proof fn lemma_summary_only_for_write_tools(tool: Seq<char>, args: Seq<(Seq<char>, JsonData)>)
    ensures
        write_summary(tool, args) is Some <==> tool_of(tool) is Some,
{
}

/// A stored title never exceeds the limit, and is the start of the title given.
pub proof fn lemma_title_bounded(title: Seq<char>)
    ensures
        truncated_title(title).len() <= TITLE_SUMMARY_MAX_CHARS,
        truncated_title(title) == title.take(truncated_title(title).len() as int),
{
    assert(title.take(title.len() as int) =~= title);
}

// ---------------------------------------------------------------------------
// Code

/// The write tool `name` denotes, if any.
pub fn classify_tool(name: &str) -> (t: Option<WriteTool>)
    ensures
        t == tool_of(name@),
{
    let n = name.to_owned();
    if n == "memory.store".to_owned() {
        Some(WriteTool::MemoryStore)
    } else if n == "memory.note".to_owned() {
        Some(WriteTool::MemoryNote)
    } else if n == "tree.tag".to_owned() {
        Some(WriteTool::TreeTag)
    } else {
        None
    }
}

/// The text of member `key` of `args`, when it is a string, else `default`.
fn str_member_or(args: &JsonMap, key: &str, default: &str) -> (s: String)
    ensures
        s@ == text_or(str_member(args.data(), key@), default@),
{
    match args.get(key) {
        Some(JsonValue::String(s)) => s.clone(),
        _ => default.to_owned(),
    }
}

/// The text of member `key` of the object in member `metadata`, else "".
fn metadata_str_or_empty(args: &JsonMap, key: &str) -> (s: String)
    ensures
        s@ == text_or(metadata_str(args.data(), key@), ""@),
{
    match args.get("metadata") {
        Some(JsonValue::Object(m)) => {
            assert(JsonValue::Object(*m).data()->Object_0 =~= m.data());
            str_member_or(m, key, "")
        },
        _ => "".to_owned(),
    }
}

/// The first `TITLE_SUMMARY_MAX_CHARS` characters of `title`.
fn truncate_title(title: &str) -> (t: String)
    ensures
        t@ == truncated_title(title@),
{
    let n = title.unicode_len();
    let keep = if n < TITLE_SUMMARY_MAX_CHARS {
        n
    } else {
        TITLE_SUMMARY_MAX_CHARS
    };
    let t = title.substring_char(0, keep).to_owned();
    assert(title@.subrange(0, title@.len() as int) =~= title@);
    t
}

/// A string member as a value.
fn string_value(s: String) -> (v: JsonValue)
    ensures
        v.data() == JsonData::Str(s@),
{
    JsonValue::String(s)
}

/// A non-negative integer as a value.
fn count_value(n: u64) -> (v: JsonValue)
    ensures
        v.data() == JsonData::Number(JsonNumber::PosInt(n)),
{
    JsonValue::Number(JsonNumber::PosInt(n))
}

/// An array with no elements.
fn empty_array() -> (v: JsonValue)
    ensures
        v.data() == JsonData::Array(Seq::empty()),
{
    let v = JsonValue::Array(Vec::new());
    assert(v.data()->Array_0 =~= Seq::<JsonData>::empty());
    v
}

/// The object with the given members, in order.
fn object_of(entries: Vec<(String, JsonValue)>) -> (v: JsonValue)
    ensures
        v.data() == JsonData::Object(
            Seq::new(entries@.len(), |i: int| (entries@[i].0@, entries@[i].1.data())),
        ),
{
    let v = JsonValue::Object(JsonMap { entries });
    assert(v.data()->Object_0 =~= Seq::new(
        entries@.len(),
        |i: int| (entries@[i].0@, entries@[i].1.data()),
    ));
    v
}

/// The summary value of a call of `tool_name` with `args`; none for tools that
/// are not write tools.
pub fn write_summary_value(tool_name: &str, args: &JsonMap) -> (r: Option<JsonValue>)
    ensures
        match r {
            Some(v) => write_summary(tool_name@, args.data()) == Some(v.data()),
            None => write_summary(tool_name@, args.data()) is None,
        },
{
    match classify_tool(tool_name) {
        Some(WriteTool::MemoryStore) => {
            let title = str_member_or(args, "title", "");
            let truncated = truncate_title(title.as_str());
            let namespace = str_member_or(args, "namespace", "mcp");
            let count: u64 = match args.get("tags") {
                Some(JsonValue::Array(a)) => a.len() as u64,
                _ => 0,
            };
            let mut entries: Vec<(String, JsonValue)> = Vec::new();
            entries.push(("title".to_owned(), string_value(truncated)));
            entries.push(("namespace".to_owned(), string_value(namespace)));
            entries.push(("tag_count".to_owned(), count_value(count)));
            let v = object_of(entries);
            assert(v.data()->Object_0 =~= store_summary(args.data())->Object_0);
            Some(v)
        },
        Some(WriteTool::MemoryNote) => {
            let chunk_id = metadata_str_or_empty(args, "annotates_chunk_id");
            let length: u64 = match args.get("content") {
                Some(JsonValue::String(s)) => s.as_str().len() as u64,
                _ => 0,
            };
            let mut entries: Vec<(String, JsonValue)> = Vec::new();
            entries.push(("chunk_id".to_owned(), string_value(chunk_id)));
            entries.push(("note_text_length".to_owned(), count_value(length)));
            let v = object_of(entries);
            assert(v.data()->Object_0 =~= note_summary(args.data())->Object_0);
            Some(v)
        },
        Some(WriteTool::TreeTag) => {
            let chunk_id = metadata_str_or_empty(args, "tags_for_chunk_id");
            let tags = match args.get("tags") {
                Some(v) => match v {
                    JsonValue::Array(_) => v.duplicate(),
                    _ => empty_array(),
                },
                None => empty_array(),
            };
            let mut entries: Vec<(String, JsonValue)> = Vec::new();
            entries.push(("chunk_id".to_owned(), string_value(chunk_id)));
            entries.push(("tags".to_owned(), tags));
            let v = object_of(entries);
            assert(v.data()->Object_0 =~= tag_summary(args.data())->Object_0);
            Some(v)
        },
        None => None,
    }
}

/// Slim JSON metadata for the audit row of a call of `tool_name` with `params`:
/// the JSON text of `write_summary`, never a document body. `None` exactly for
/// tools other than the three write tools.
pub fn summarize_write_args(tool_name: &str, params: &JsonMap) -> (r: Option<String>)
    ensures
        write_summary(tool_name@, params.data()) is None ==> r is None,
        write_summary(tool_name@, params.data()) matches Some(d) ==> (r matches Some(s) && s@
            == json_text(d)),
{
    match write_summary_value(tool_name, params) {
        Some(v) => to_json_string(&v),
        None => None,
    }
}

} // verus!
