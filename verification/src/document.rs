//! Configuration documents: evaluating a Lua configuration into the JSON
//! document its table converts to, the key order of such documents, and
//! the `custom` section they carry.

use vstd::prelude::*;
use crate::config::{JsonValue, JsonView, json_view, members_view};
use crate::config_keys::{lemma_members_view, strings_view, unknown_key_warnings, warnings_spec};
use crate::text::{chars_of, same_text};

verus! {

/// `a` sorts before `b`: character by character, a proper prefix first.
pub open spec fn text_less(a: Seq<char>, b: Seq<char>) -> bool
    decreases a.len(),
{
    if a.len() == 0 {
        b.len() > 0
    } else if b.len() == 0 {
        false
    } else if a[0] != b[0] {
        (a[0] as int) < (b[0] as int)
    } else {
        text_less(a.drop_first(), b.drop_first())
    }
}

/// The members' keys are strictly ascending (so no key occurs twice).
pub open spec fn ascending_keys(members: Seq<(Seq<char>, JsonView)>) -> bool {
    forall|i: int, j: int| 0 <= i < j < members.len() ==> text_less(members[i].0, members[j].0)
}

/// `text_less` is transitive.
pub proof fn lemma_text_less_transitive(a: Seq<char>, b: Seq<char>, c: Seq<char>)
    requires
        text_less(a, b),
        text_less(b, c),
    ensures
        text_less(a, c),
    decreases a.len(),
{
    if a.len() > 0 && a[0] == b[0] && b[0] == c[0] {
        lemma_text_less_transitive(a.drop_first(), b.drop_first(), c.drop_first());
    }
}

/// Whether `a` sorts before `b` (see [`text_less`]).
pub fn text_before(a: &str, b: &str) -> (r: bool)
    ensures
        r == text_less(a@, b@),
{
    let x = chars_of(a);
    let y = chars_of(b);
    let mut k: usize = 0;
    assert(x@.skip(0) =~= x@);
    assert(y@.skip(0) =~= y@);
    while k < x.len() && k < y.len()
        invariant
            x@ == a@,
            y@ == b@,
            k <= x@.len(),
            k <= y@.len(),
            text_less(a@, b@) == text_less(x@.skip(k as int), y@.skip(k as int)),
        decreases x@.len() - k,
    {
        assert(x@.skip(k as int)[0] == x@[k as int]);
        assert(y@.skip(k as int)[0] == y@[k as int]);
        if x[k] != y[k] {
            return x[k] < y[k];
        }
        assert(x@.skip(k as int).drop_first() =~= x@.skip(k + 1));
        assert(y@.skip(k as int).drop_first() =~= y@.skip(k + 1));
        k = k + 1;
    }
    k < y.len()
}

/// Every object in the document, however deep, has strictly ascending
/// keys.
pub open spec fn sorted_document(document: JsonView) -> bool
    decreases document, 0int,
{
    match document {
        JsonView::Array(items) => sorted_items(items, items.len() as int),
        JsonView::Object(members) => ascending_keys(members) && sorted_members(
            members,
            members.len() as int,
        ),
        _ => true,
    }
}

/// The first `n` items are sorted documents.
pub open spec fn sorted_items(items: Seq<JsonView>, n: int) -> bool
    decreases items, n,
{
    if n <= 0 || n > items.len() {
        true
    } else {
        sorted_items(items, n - 1) && sorted_document(items[n - 1])
    }
}

/// The values of the first `n` members are sorted documents.
pub open spec fn sorted_members(members: Seq<(Seq<char>, JsonView)>, n: int) -> bool
    decreases members, n,
{
    if n <= 0 || n > members.len() {
        true
    } else {
        sorted_members(members, n - 1) && sorted_document(members[n - 1].1)
    }
}

#[verifier::external_type_specification]
#[verifier::external_body]
pub struct ExJsonValue(serde_json::Value);

/// A `serde_json::Value` as the library's document, variant by variant.
///
/// This build of `serde_json` keeps an object's members in a `BTreeMap`
/// (its `preserve_order` feature is off), which holds each key once and
/// iterates keys in ascending order; string order is byte order, which for
/// UTF-8 is the order of the characters. So every object of the result has
/// strictly ascending keys. Nothing else is claimed: the input is opaque.
#[verifier::external_body]
fn json_document(value: &serde_json::Value) -> (r: JsonValue)
    ensures
        sorted_document(r@),
{
    match value {
        serde_json::Value::Null => JsonValue::Null,
        serde_json::Value::Bool(flag) => JsonValue::Bool(*flag),
        serde_json::Value::Number(number) => JsonValue::Number(number.to_string()),
        serde_json::Value::String(text) => JsonValue::Text(text.clone()),
        serde_json::Value::Array(items) => JsonValue::Array(items.iter().map(json_document).collect()),
        serde_json::Value::Object(members) => JsonValue::Object(
            members.iter().map(|(key, value)| (key.clone(), json_document(value))).collect(),
        ),
    }
}

/// Where a reading of a Lua chunk stands: in code, inside a string
/// opened by the given quote, or in a line comment.
#[derive(Debug, Clone, Copy, PartialEq, Eq, Structural)]
pub enum LexState {
    /// Code.
    Code,
    /// A short string opened by this quote.
    Quoted(char),
    /// A `--` comment, up to the end of the line.
    Comment,
}

/// A character that can be part of a Lua name.
pub open spec fn name_char(c: char) -> bool {
    ('a' <= c && c <= 'z') || ('A' <= c && c <= 'Z') || ('0' <= c && c <= '9') || c == '_'
}

/// The name `word` stands at `i` on its own (not inside a longer name).
pub open spec fn word_at(s: Seq<char>, i: int, word: Seq<char>) -> bool {
    &&& 0 <= i && i + word.len() <= s.len()
    &&& s.subrange(i, i + word.len()) == word
    &&& (i == 0 || !name_char(s[i - 1]))
    &&& (i + word.len() == s.len() || !name_char(s[i + word.len()]))
}

/// A keyword that makes code repeat or defines a function stands at `i`.
pub open spec fn repeating_word_at(s: Seq<char>, i: int) -> bool {
    ||| word_at(s, i, "while"@)
    ||| word_at(s, i, "repeat"@)
    ||| word_at(s, i, "for"@)
    ||| word_at(s, i, "goto"@)
    ||| word_at(s, i, "function"@)
}

/// `[[` or `[=` stands at `i`: a long bracket may open there.
pub open spec fn long_bracket_at(s: Seq<char>, i: int) -> bool {
    0 <= i && i + 1 < s.len() && s[i] == '[' && (s[i + 1] == '[' || s[i + 1] == '=')
}

/// Whether the chunk from `i`, in state `state`, holds only data: no
/// `while`, `repeat`, `for`, `goto` or `function` in code, no long
/// bracket in code and no comment opening with `[`. Strings and line
/// comments are skipped the way Lua reads them (a backslash escapes the
/// next character; a comment ends at `\n` or `\r`); anything this reading
/// cannot place for sure is refused.
pub open spec fn data_from(s: Seq<char>, i: int, state: LexState) -> bool
    decreases s.len() - i,
{
    if i < 0 || i >= s.len() {
        true
    } else {
        match state {
            LexState::Code => if repeating_word_at(s, i) || long_bracket_at(s, i) {
                false
            } else if s[i] == '"' || s[i] == '\'' {
                data_from(s, i + 1, LexState::Quoted(s[i]))
            } else if s[i] == '-' && i + 1 < s.len() && s[i + 1] == '-' {
                if i + 2 < s.len() && s[i + 2] == '[' {
                    false
                } else {
                    data_from(s, i + 2, LexState::Comment)
                }
            } else {
                data_from(s, i + 1, LexState::Code)
            },
            LexState::Quoted(q) => if s[i] == '\\' {
                if i + 1 >= s.len() {
                    true
                } else {
                    data_from(s, i + 2, state)
                }
            } else if s[i] == q {
                data_from(s, i + 1, LexState::Code)
            } else {
                data_from(s, i + 1, state)
            },
            LexState::Comment => if s[i] == '\n' || s[i] == '\r' {
                data_from(s, i + 1, LexState::Code)
            } else {
                data_from(s, i + 1, LexState::Comment)
            },
        }
    }
}

/// A chunk that holds only data (see [`data_from`]).
pub open spec fn data_chunk(source: Seq<char>) -> bool {
    data_from(source, 0, LexState::Code)
}

/// Whether `c` can be part of a Lua name.
fn is_name_char(c: char) -> (r: bool)
    ensures
        r == name_char(c),
{
    ('a' <= c && c <= 'z') || ('A' <= c && c <= 'Z') || ('0' <= c && c <= '9') || c == '_'
}

/// Whether the name `word` stands at `i` on its own.
fn is_word_at(s: &Vec<char>, i: usize, word: &str) -> (r: bool)
    requires
        i < s@.len(),
    ensures
        r == word_at(s@, i as int, word@),
{
    let w = chars_of(word);
    if w.len() > s.len() - i {
        return false;
    }
    let mut k: usize = 0;
    while k < w.len()
        invariant
            w@ == word@,
            i < s@.len(),
            s@.len() <= usize::MAX,
            w@.len() <= s@.len() - i,
            k <= w@.len(),
            forall|j: int| 0 <= j < k ==> s@[i + j] == w@[j],
        decreases w@.len() - k,
    {
        if s[i + k] != w[k] {
            assert(s@.subrange(i as int, i + w@.len())[k as int] != w@[k as int]);
            return false;
        }
        k = k + 1;
    }
    assert(s@.subrange(i as int, i + w@.len()) =~= w@);
    let before = i == 0 || !is_name_char(s[i - 1]);
    let end = i + w.len();
    let after = end == s.len() || !is_name_char(s[end]);
    before && after
}

/// Whether a Lua chunk holds only data: see [`data_from`].
pub fn is_data_chunk(source: &str) -> (r: bool)
    ensures
        r == data_chunk(source@),
{
    let s = chars_of(source);
    let mut state = LexState::Code;
    let mut i: usize = 0;
    while i < s.len()
        invariant
            s@ == source@,
            i <= s@.len(),
            data_chunk(source@) == data_from(s@, i as int, state),
        decreases s@.len() - i,
    {
        let c = s[i];
        match state {
            LexState::Code => {
                if is_word_at(&s, i, "while") || is_word_at(&s, i, "repeat") || is_word_at(&s, i, "for")
                    || is_word_at(&s, i, "goto") || is_word_at(&s, i, "function") {
                    return false;
                }
                if c == '[' && i + 1 < s.len() && (s[i + 1] == '[' || s[i + 1] == '=') {
                    return false;
                }
                if c == '"' || c == '\'' {
                    state = LexState::Quoted(c);
                    i = i + 1;
                } else if c == '-' && i + 1 < s.len() && s[i + 1] == '-' {
                    if i + 2 < s.len() && s[i + 2] == '[' {
                        return false;
                    }
                    state = LexState::Comment;
                    i = i + 2;
                } else {
                    i = i + 1;
                }
            },
            LexState::Quoted(q) => {
                if c == '\\' {
                    if i + 1 >= s.len() {
                        return true;
                    }
                    i = i + 2;
                } else if c == q {
                    state = LexState::Code;
                    i = i + 1;
                } else {
                    i = i + 1;
                }
            },
            LexState::Comment => {
                if c == '\n' || c == '\r' {
                    state = LexState::Code;
                }
                i = i + 1;
            },
        }
    }
    true
}

#[verifier::external_type_specification]
#[verifier::external_body]
pub struct ExLua(mlua::Lua);

/// The most memory, in bytes, the Lua state of a configuration may use.
pub const CONFIG_MEMORY_LIMIT: usize = 65536;

/// The base-library functions a configuration chunk runs without: those
/// that compile or run other chunks (which could hold loops), and those
/// that write to the process's output.
pub fn hidden_globals() -> (r: Vec<&'static str>)
    ensures
        r@.map_values(|n: &str| n@) == seq!["load"@, "loadfile"@, "dofile"@, "print"@, "warn"@],
{
    let r = vec!["load", "loadfile", "dofile", "print", "warn"];
    assert(r@.map_values(|n: &str| n@) =~= seq!["load"@, "loadfile"@, "dofile"@, "print"@, "warn"@]);
    r
}

/// A Lua 5.4 state from `mlua::Lua::new_with` with the base and `math`
/// libraries only: no `io`, `os`, `package`, `string`, `table`, `utf8` or
/// `coroutine`, so nothing that exits the process, reads or writes files,
/// runs other programs, loads modules or walks a caller-given range.
/// A refusal is returned as its message. Nothing is claimed of the state
/// (when the process cannot allocate a Lua VM at all, mlua panics).
#[verifier::external_body]
fn math_only_lua() -> (r: Result<mlua::Lua, String>) {
    mlua::Lua::new_with(mlua::StdLib::MATH, mlua::LuaOptions::default()).map_err(|error| error.to_string())
}

/// Sets the global `name` of `lua` to `nil` (`Table::set` on
/// `Lua::globals`); a failure is returned as its message.
#[verifier::external_body]
fn hide_global(lua: &mlua::Lua, name: &str) -> (r: Result<(), String>) {
    lua.globals().set(name, mlua::Value::Nil).map_err(|error| error.to_string())
}

/// `Lua::set_memory_limit(limit)`: from then on an allocation that would
/// take the state past `limit` bytes fails with a Lua memory error.
/// A failure is returned as its message; the previous limit is dropped.
#[verifier::external_body]
fn limit_memory(lua: &mlua::Lua, limit: usize) -> (r: Result<(), String>) {
    lua.set_memory_limit(limit).map(|_previous| ()).map_err(|error| error.to_string())
}

/// A Lua state in which configuration chunks run. Only
/// [`restricted_lua`] makes one, so each has the base and `math`
/// libraries only, none of the [`hidden_globals`], and a memory limit of
/// [`CONFIG_MEMORY_LIMIT`] bytes.
struct ConfigLua {
    lua: mlua::Lua,
}

/// The state for configuration chunks: `math_only_lua`, each of the
/// [`hidden_globals`] set to `nil`, then the memory limit. The first
/// failing step's message is the error.
fn restricted_lua() -> (r: Result<ConfigLua, String>) {
    let lua = match math_only_lua() {
        Ok(lua) => lua,
        Err(error) => return Err(error),
    };
    let hidden = hidden_globals();
    let mut i: usize = 0;
    while i < hidden.len()
        decreases hidden@.len() - i,
    {
        match hide_global(&lua, hidden[i]) {
            Ok(()) => {},
            Err(error) => return Err(error),
        }
        i = i + 1;
    }
    match limit_memory(&lua, CONFIG_MEMORY_LIMIT) {
        Ok(()) => Ok(ConfigLua { lua }),
        Err(error) => Err(error),
    }
}

#[verifier::external_type_specification]
#[verifier::external_body]
pub struct ExLuaValue(mlua::Value);

/// What a configuration chunk returned, with the state that holds it; the
/// state no longer has a memory limit. Only [`run_chunk`] makes one.
struct ChunkResult {
    lua: mlua::Lua,
    value: mlua::Value,
}

/// Runs a chunk in a configuration state (`Lua::load`, named
/// `source_name`, read as text and never as bytecode, then `eval`), then
/// lifts the state's memory limit (`Lua::set_memory_limit(0)`) so that
/// converting the result can grow mlua's reference stack. A failure of
/// either step is returned as its message. The state is consumed: no
/// second chunk runs without the limit.
///
/// What a chunk returns may depend on what the state lets it read, so
/// nothing is claimed of it. Why every call comes back, with a result or
/// an error: a data chunk (`data_chunk`) has no loop, no function
/// definition and no `goto`, so each of its statements runs at most once;
/// the functions it can reach in a [`ConfigLua`] (the base library without
/// the hidden ones, and `math`) each end, or raise an error (a metamethod
/// chain too long, the C stack exhausted); and the memory limit bounds what
/// the statements build.
#[verifier::external_body]
fn run_chunk(state: ConfigLua, source: &str, source_name: &str) -> (r: Result<ChunkResult, String>)
    requires
        data_chunk(source@),
{
    let value: mlua::Value = state.lua.load(source).set_name(source_name).set_mode(mlua::ChunkMode::Text).eval().map_err(|error| error.to_string())?;
    state.lua.set_memory_limit(0).map_err(|error| error.to_string())?;
    Ok(ChunkResult { lua: state.lua, value })
}

/// The most a chunk's result may weigh when expanded as a tree: one per
/// value and one per byte of text, a table counted again at each place it
/// stands (a table placed twice is converted twice).
pub const CONFIG_EXPANSION_LIMIT: usize = 262144;

/// The keys and values of a table's entries (`Table::pairs`, which does
/// not call `__pairs`); none for a value that is not a table. An error of
/// the walk is returned as its message. Nothing is claimed of the items.
#[verifier::external_body]
fn table_items(value: &mlua::Value) -> (r: Result<Vec<mlua::Value>, String>) {
    match value {
        mlua::Value::Table(table) => {
            let mut items: Vec<mlua::Value> = Vec::new();
            for pair in table.pairs::<mlua::Value, mlua::Value>() {
                let (key, item) = pair.map_err(|error| error.to_string())?;
                items.push(key);
                items.push(item);
            }
            Ok(items)
        },
        _ => Ok(Vec::new()),
    }
}

/// The number of bytes of a Lua string (`String::as_bytes`), 0 for any
/// other value. Nothing is claimed of the number.
#[verifier::external_body]
fn text_bytes(value: &mlua::Value) -> (r: usize) {
    match value {
        mlua::Value::String(text) => text.as_bytes().len(),
        _ => 0,
    }
}

/// What a configuration chunk returned, weighed: at most
/// [`CONFIG_EXPANSION_LIMIT`] as a tree. Only [`weighed_chunk`] makes one.
struct WeighedChunk {
    lua: mlua::Lua,
    value: mlua::Value,
}

/// The message for a result that expands past [`CONFIG_EXPANSION_LIMIT`].
pub fn expansion_error() -> (r: String)
    ensures
        r@ == "the configuration's table expands to too many values"@,
{
    "the configuration's table expands to too many values".to_owned()
}

/// Walks what a chunk returned as a tree, every table at every place it
/// stands, adding one per key or value and one per byte of text; refuses
/// it, with [`expansion_error`], as soon as the sum reaches `limit`. A
/// table that contains itself expands without end, so it is refused too.
fn weighed_chunk(chunk: ChunkResult, limit: usize) -> (r: Result<WeighedChunk, String>) {
    let mut pending: Vec<mlua::Value> = match table_items(&chunk.value) {
        Ok(items) => items,
        Err(error) => return Err(error),
    };
    let mut weight: usize = 1;
    while pending.len() > 0
        invariant
            1 <= weight,
        decreases limit - weight,
    {
        if weight >= limit {
            return Err(expansion_error());
        }
        let item = match pending.pop() {
            Some(item) => item,
            None => return Err(expansion_error()),
        };
        let bytes = text_bytes(&item);
        if bytes >= limit - weight {
            return Err(expansion_error());
        }
        weight = weight + 1 + bytes;
        let mut more = match table_items(&item) {
            Ok(items) => items,
            Err(error) => return Err(error),
        };
        while more.len() > 0
            decreases more@.len(),
        {
            match more.pop() {
                Some(next) => pending.push(next),
                None => {},
            }
        }
    }
    Ok(WeighedChunk { lua: chunk.lua, value: chunk.value })
}

/// Converts what a chunk returned to JSON with `LuaSerdeExt::from_value`
/// (recursive tables are refused), then to the library's document; an
/// error is returned as its message.
///
/// Nothing is claimed of the document but its key order (see
/// `json_document`). Why the conversion comes back: it visits each table
/// once per place it stands, so it makes no more values and text than
/// [`weighed_chunk`] counted (under [`CONFIG_EXPANSION_LIMIT`]); and it
/// recurses once per level of nesting, where a level costs the chunk at
/// least a table, a slot and the instruction that built it (over 70
/// bytes), so under 700 levels were built within [`CONFIG_MEMORY_LIMIT`]:
/// within the calling thread's stack and, with the limit lifted, within
/// what mlua's reference stack can grow to.
#[verifier::external_body]
fn chunk_json(chunk: WeighedChunk) -> (r: Result<JsonValue, String>)
    ensures
        r matches Ok(document) ==> sorted_document(document@),
{
    let json: serde_json::Value = mlua::LuaSerdeExt::from_value(&chunk.lua, chunk.value).map_err(|error| error.to_string())?;
    Ok(json_document(&json))
}

/// Evaluates a Lua configuration: the document its table converts to, with
/// the unknown-key warnings of that document, or an error. A chunk that
/// does not hold only data (a loop, a function, a `goto`, a long bracket;
/// see [`data_from`]) is refused before it runs; one that does runs in a
/// [`restricted_lua`] state: base and `math` libraries only, without the
/// [`hidden_globals`], within [`CONFIG_MEMORY_LIMIT`] bytes. What it
/// returns is converted only when it weighs less than
/// [`CONFIG_EXPANSION_LIMIT`] as a tree (see [`weighed_chunk`]).
pub fn load_document(source: &str, source_name: &str) -> (r: Result<(JsonValue, Vec<String>), String>)
    ensures
        !data_chunk(source@) ==> (r matches Err(e) && e@
            == "a configuration chunk may hold only data: no loops, functions, goto or long brackets"@),
        r matches Ok((document, warnings)) ==> {
            &&& data_chunk(source@)
            &&& sorted_document(document@)
            &&& strings_view(warnings@) == warnings_spec(document@)
        },
{
    if !is_data_chunk(source) {
        return Err("a configuration chunk may hold only data: no loops, functions, goto or long brackets".to_owned());
    }
    let state = match restricted_lua() {
        Ok(state) => state,
        Err(error) => return Err(error),
    };
    let chunk = match run_chunk(state, source, source_name) {
        Ok(chunk) => chunk,
        Err(error) => return Err(error),
    };
    let weighed = match weighed_chunk(chunk, CONFIG_EXPANSION_LIMIT) {
        Ok(weighed) => weighed,
        Err(error) => return Err(error),
    };
    match chunk_json(weighed) {
        Ok(document) => {
            let warnings = unknown_key_warnings(&document);
            Ok((document, warnings))
        },
        Err(error) => Err(error),
    }
}

/// Index of the first member keyed `key`, or `-1`.
pub open spec fn first_member(members: Seq<(Seq<char>, JsonView)>, key: Seq<char>, from: int) -> int
    decreases members.len() - from,
{
    if from < 0 || from >= members.len() {
        -1
    } else if members[from].0 == key {
        from
    } else {
        first_member(members, key, from + 1)
    }
}

/// The members of the document's `custom` object; none when the document
/// is not an object or has no `custom` object.
pub open spec fn custom_members(document: JsonView) -> Seq<(Seq<char>, JsonView)> {
    match document {
        JsonView::Object(members) => {
            let k = first_member(members, "custom"@, 0);
            if k < 0 {
                Seq::empty()
            } else {
                match members[k].1 {
                    JsonView::Object(section) => section,
                    _ => Seq::empty(),
                }
            }
        },
        _ => Seq::empty(),
    }
}

/// A sorted document's member values are sorted documents.
proof fn lemma_sorted_member(members: Seq<(Seq<char>, JsonView)>, n: int, k: int)
    requires
        sorted_members(members, n),
        0 <= k < n <= members.len(),
    ensures
        sorted_document(members[k].1),
    decreases n,
{
    if k < n - 1 {
        lemma_sorted_member(members, n - 1, k);
    }
}

/// The `custom` section of a configuration document, as the typed
/// configuration holds it: the members of its `custom` object, in the
/// document's order (ascending keys for an evaluated document).
pub fn custom_section(document: &JsonValue) -> (r: Vec<(String, JsonValue)>)
    ensures
        members_view(r@, r@.len() as int) == custom_members(document@),
        sorted_document(document@) ==> ascending_keys(custom_members(document@)),
{
    proof {
        reveal_strlit("custom");
    }
    match document {
        JsonValue::Object(members) => {
            let ghost mv = members_view(members@, members@.len() as int);
            proof {
                lemma_members_view(members@, members@.len() as int);
            }
            let mut i: usize = 0;
            while i < members.len()
                invariant
                    i <= members@.len(),
                    *document == JsonValue::Object(*members),
                    mv == members_view(members@, members@.len() as int),
                    mv.len() == members@.len(),
                    forall|k: int| 0 <= k < members@.len() ==> #[trigger] mv[k] == (members@[k].0@, json_view(members@[k].1)),
                    first_member(mv, "custom"@, 0) == first_member(mv, "custom"@, i as int),
                decreases members@.len() - i,
            {
                if same_text(members[i].0.as_str(), "custom") {
                    assert(mv[i as int].0 == "custom"@);
                    proof {
                        if sorted_document(document@) {
                            lemma_sorted_member(mv, mv.len() as int, i as int);
                        }
                    }
                    return match &members[i].1 {
                        JsonValue::Object(_) => {
                            let copy = members[i].1.duplicate();
                            match copy {
                                JsonValue::Object(out) => out,
                                _ => Vec::new(),
                            }
                        },
                        _ => {
                            let r: Vec<(String, JsonValue)> = Vec::new();
                            assert(members_view(r@, 0) =~= Seq::<(Seq<char>, JsonView)>::empty());
                            r
                        },
                    };
                }
                i = i + 1;
            }
            let r: Vec<(String, JsonValue)> = Vec::new();
            assert(members_view(r@, 0) =~= Seq::<(Seq<char>, JsonView)>::empty());
            r
        },
        _ => {
            let r: Vec<(String, JsonValue)> = Vec::new();
            assert(members_view(r@, 0) =~= Seq::<(Seq<char>, JsonView)>::empty());
            r
        },
    }
}

} // verus!
