use playback::config::JsonValue;
use playback::document::{custom_section, hidden_globals, is_data_chunk, load_document, text_before};
use playback::launcher::custom_keys_ascending;

const ONLY_DATA: &str = "a configuration chunk may hold only data: no loops, functions, goto or long brackets";

fn refusal(source: &str) -> String {
    load_document(source, "chunk.lua").expect_err("refused")
}

#[test]
fn loops_and_functions_are_refused_before_running() {
    assert_eq!(refusal("while true do end return {}"), ONLY_DATA);
    assert_eq!(refusal("repeat until false return {}"), ONLY_DATA);
    assert_eq!(refusal("for i = 1, 10 do end return {}"), ONLY_DATA);
    assert_eq!(refusal("::top:: goto top"), ONLY_DATA);
    assert_eq!(refusal("local f = function() return {} end return f()"), ONLY_DATA);
    assert_eq!(refusal("return { text = [[long string]] }"), ONLY_DATA);
    assert_eq!(refusal("return { text = [==[long string]==] }"), ONLY_DATA);
    assert_eq!(refusal("--[[ block comment ]] return {}"), ONLY_DATA);
}

#[test]
fn keywords_inside_strings_comments_and_names_are_data() {
    assert!(is_data_chunk("-- settings for mpv, used while playing\nreturn { custom = { title = 'while we wait' } }"));
    assert!(is_data_chunk("return { forward = 1, functional = \"repeat \\\" goto\", format = 'x' }"));
    assert!(is_data_chunk("return { t = {1, 2}, [1] = 'a' }"));
    assert!(is_data_chunk("return { while_not = 1, endwhile = 2, goto_next = 3 }"));
    assert!(!is_data_chunk("return { x = 'a' } while true do end"));
    let (document, warnings) =
        load_document("-- for the living room\nreturn { custom = { title = 'while we wait' } }", "chunk.lua").expect("data");
    assert!(warnings.is_empty());
    assert_eq!(custom_section(&document), vec![("title".to_owned(), JsonValue::Text("while we wait".to_owned()))]);
}

#[test]
fn chunks_cannot_reach_the_process() {
    assert!(load_document("os.exit(1) return {}", "exit.lua").is_err());
    assert!(load_document("io.write('x') return {}", "io.lua").is_err());
    assert!(load_document("return { x = require('os') }", "require.lua").is_err());
    assert!(load_document("return load('return {}')()", "load.lua").is_err());
    assert!(load_document("print('x') return {}", "print.lua").is_err());
    assert!(load_document("return { x = ('x'):rep(3) }", "string.lua").is_err());
    assert!(load_document("return { x = table.move({}, 1, 10, 1) }", "table.lua").is_err());
    assert_eq!(
        hidden_globals(),
        vec!["load", "loadfile", "dofile", "print", "warn"]
    );
}

#[test]
fn math_and_base_functions_stay_available() {
    let (document, _) =
        load_document("return { playback = { volume = math.floor(80.6), speed = tonumber('1.5') } }", "math.lua")
            .expect("data");
    assert_eq!(
        document,
        JsonValue::Object(vec![(
            "playback".to_owned(),
            JsonValue::Object(vec![
                ("speed".to_owned(), JsonValue::Number("1.5".to_owned())),
                ("volume".to_owned(), JsonValue::Number("80".to_owned())),
            ]),
        )])
    );
}

#[test]
fn growing_past_the_memory_limit_is_an_error() {
    let mut source = String::from("local s = 'abcdefgh'\n");
    for _ in 0..20 {
        source.push_str("s = s .. s\n");
    }
    source.push_str("return { custom = { s = s } }");
    assert!(load_document(&source, "grow.lua").is_err());
}

/// A chunk that nests `levels` tables, `per_statement` of them per statement.
fn nested_chunk(levels: usize, per_statement: usize) -> String {
    let mut source = String::from("local a = {}\n");
    let mut built = 0;
    while built < levels {
        let step = per_statement.min(levels - built);
        source.push_str("a = ");
        source.push_str(&"{".repeat(step));
        source.push('a');
        source.push_str(&"}".repeat(step));
        source.push('\n');
        built += step;
    }
    source.push_str("return { deep = a }");
    source
}

#[test]
fn moderately_nested_tables_load() {
    assert!(load_document(&nested_chunk(200, 100), "nested.lua").is_ok());
}

#[test]
fn nesting_up_to_the_memory_limit_comes_back() {
    for levels in [500, 600, 700, 800, 900] {
        let _ = load_document(&nested_chunk(levels, 100), "deep.lua");
    }
}

#[test]
fn deeply_nested_tables_exhaust_the_memory_limit() {
    assert!(load_document(&nested_chunk(1000, 100), "deeper.lua").is_err());
    assert!(load_document(&nested_chunk(1500, 100), "deeper.lua").is_err());
    assert!(load_document(&nested_chunk(2500, 50), "deeper.lua").is_err());
}

#[test]
fn wide_tables_load() {
    let items: Vec<String> = (1..=1000).map(|n| n.to_string()).collect();
    let source = format!("return {{ custom = {{ list = {{ {} }} }} }}", items.join(", "));
    let (document, _) = load_document(&source, "wide.lua").expect("wide");
    match &custom_section(&document)[0].1 {
        JsonValue::Array(list) => assert_eq!(list.len(), 1000),
        other => panic!("not a list: {other:?}"),
    }
}

#[test]
fn nesting_past_the_memory_limit_is_an_error() {
    assert!(load_document(&nested_chunk(8000, 100), "deepest.lua").is_err());
}

#[test]
fn texts_sort_character_by_character() {
    assert!(text_before("a", "b"));
    assert!(text_before("a", "ab"));
    assert!(!text_before("ab", "a"));
    assert!(!text_before("vo", "vo"));
    assert!(text_before("", "x"));
    assert!(!text_before("", ""));
    assert!(text_before("Z", "a"));
}

#[test]
fn custom_keys_must_ascend() {
    let text = |value: &str| JsonValue::Text(value.to_owned());
    assert!(custom_keys_ascending(&vec![]));
    assert!(custom_keys_ascending(&vec![("vo".to_owned(), text("gpu"))]));
    assert!(custom_keys_ascending(&vec![("fs".to_owned(), text("a")), ("vo".to_owned(), text("gpu"))]));
    assert!(!custom_keys_ascending(&vec![("vo".to_owned(), text("gpu")), ("fs".to_owned(), text("a"))]));
    assert!(!custom_keys_ascending(&vec![("vo".to_owned(), text("gpu")), ("vo".to_owned(), text("x"))]));
}


#[test]
fn nesting_next_to_a_full_memory_comes_back() {
    for doublings in 8..14 {
        let mut source = String::from("local s = 'abcdefgh'\n");
        for _ in 0..doublings {
            source.push_str("s = s .. s\n");
        }
        source.push_str("return { custom = { s = s }, deep = ");
        source.push_str(&"{".repeat(60));
        source.push_str(&"}".repeat(60));
        source.push_str(" }");
        let _ = load_document(&source, "full.lua");
    }
}

#[test]
fn shared_tables_are_weighed_at_each_place() {
    let mut source = String::from("local a = { 'x' }\n");
    for _ in 0..30 {
        source.push_str("a = { a, a }\n");
    }
    source.push_str("return { custom = { tree = a } }");
    assert_eq!(
        load_document(&source, "shared.lua").expect_err("too large"),
        "the configuration's table expands to too many values"
    );
    let mut source = String::from("local s = 'abcdefgh'\n");
    for _ in 0..10 {
        source.push_str("s = s .. s\n");
    }
    source.push_str("return { custom = { list = { ");
    source.push_str(&vec!["s"; 40].join(", "));
    source.push_str(" } } }");
    assert!(load_document(&source, "strings.lua").is_err());
    let mut source = String::from("local a = { 'x' }\n");
    for _ in 0..4 {
        source.push_str("a = { a, a }\n");
    }
    source.push_str("return { custom = { tree = a } }");
    assert!(load_document(&source, "small.lua").is_ok());
}

#[test]
fn tables_that_contain_themselves_are_refused() {
    assert!(load_document("local t = {} t.self = t return t", "self.lua").is_err());
}

#[test]
fn chunks_are_read_as_text() {
    assert!(load_document("\u{1b}Lua return {}", "bytecode.lua").is_err());
}
