use std::collections::HashMap;

use taeko::database::{MarkdownDatabase, MarkdownDatabaseStruct};
use taeko::decode::{
    copy_pairs, decode_text, json_outcome, yaml_outcome, Deserializeable, Loader, TaekoSerialTransformer,
};
use taeko::sources::is_wanted;
use taeko::error::{report, DecodeError, Format, TaekoError};
use taeko::markdown::{as_html, content, frontmatter, is_markdown_path};
use taeko::matter::{chars_of, find_close, split_matter};
use taeko::store::{InputStore, TaekoCoreDatabase};

fn s(text: &str) -> String {
    String::from(text)
}

#[test]
fn lib_test() {
    let mut mf = MarkdownDatabaseStruct::new();
    let path = "/site/test_content/11.md";
    mf.set_text(s(path), s("---\nname: Dustin\n---\n# Hello World\n"));
    assert_eq!(
        Ok(&"---\nname: Dustin\n---\n# Hello World\n".to_string()),
        mf.text(&path.to_string())
    );
    assert_eq!(Ok(Some(String::from("name: Dustin\n"))), mf.frontmatter(path.to_string()));
    assert_eq!(Ok(String::from("# Hello World\n")), mf.content(path.to_string()));
    assert_eq!(Ok(String::from("<h1>Hello World</h1>\n")), mf.as_html(path.to_string()));
}

#[test]
fn reference_test() {
    let mut context = MarkdownDatabaseStruct::new();
    context.set_text(String::from("README.md"), String::from("---\nname: Dustin\n---\n# Hello World"));
    let front = context.frontmatter(String::from("README.md"));
    let html = context.as_html(String::from("README.md"));
    assert_eq!(front, Ok(Some(s("name: Dustin\n"))));
    assert_eq!(html, Ok(s("<h1>Hello World</h1>\n")));
    println!("Hello, world!");
}

#[test]
fn json_works() {
    let mut json = Loader::new(Format::Json);
    json.set_text("./test_content/simple.json".to_string(), String::from(r#"{"name": "Taeko"}"#));
    let actual = json.from_text("./test_content/simple.json".to_string()).unwrap();
    let actual_map: HashMap<String, String> = actual.into_iter().collect();
    let mut expected_map = HashMap::new();
    expected_map.insert("name".to_string(), "Taeko".to_string());
    assert_eq!(expected_map, actual_map);
}

#[test]
fn yaml_works() {
    let mut json = Loader::new(Format::Yaml);
    json.set_text("./test_content/simple.json".to_string(), String::from(r#"name: Taeko"#));
    let actual = json.from_text("./test_content/simple.json".to_string()).unwrap();
    let actual_map: HashMap<String, String> = actual.into_iter().collect();
    let mut expected_map = HashMap::new();
    expected_map.insert("name".to_string(), "Taeko".to_string());
    assert_eq!(expected_map, actual_map);
}

#[test]
fn repeated_queries_compute_once() {
    let mut db = MarkdownDatabaseStruct::new();
    db.set_text(s("a.md"), s("---\nk: v\n---\nText\n"));
    let first = db.content(s("a.md"));
    assert_eq!(db.computations(), 1);
    for _ in 0..5 {
        assert_eq!(db.content(s("a.md")), first);
    }
    assert_eq!(db.computations(), 1);
    let front = db.frontmatter(s("a.md"));
    assert_eq!(db.computations(), 2);
    assert_eq!(db.frontmatter(s("a.md")), front);
    assert_eq!(db.computations(), 2);
    let html = db.as_html(s("a.md"));
    assert_eq!(db.computations(), 3);
    assert_eq!(db.as_html(s("a.md")), html);
    assert_eq!(db.as_html(s("a.md")), html);
    assert_eq!(db.computations(), 3);
}

#[test]
fn a_changed_text_is_read_again_and_others_stay() {
    let mut db = MarkdownDatabaseStruct::new();
    db.set_text(s("a.md"), s("one\n"));
    db.set_text(s("b.md"), s("other\n"));
    assert_eq!(db.as_html(s("a.md")), Ok(s("<p>one</p>\n")));
    assert_eq!(db.as_html(s("b.md")), Ok(s("<p>other</p>\n")));
    assert_eq!(db.computations(), 4);
    db.set_text(s("a.md"), s("two\n"));
    assert_eq!(db.as_html(s("b.md")), Ok(s("<p>other</p>\n")));
    assert_eq!(db.computations(), 4);
    assert_eq!(db.content(s("a.md")), Ok(s("two\n")));
    assert_eq!(db.as_html(s("a.md")), Ok(s("<p>two</p>\n")));
    assert_eq!(db.computations(), 6);
}

#[test]
fn html_stands_while_the_body_comes_out_the_same() {
    let mut db = MarkdownDatabaseStruct::new();
    db.set_text(s("a.md"), s("---\nname: A\n---\nBody\n"));
    assert_eq!(db.as_html(s("a.md")), Ok(s("<p>Body</p>\n")));
    assert_eq!(db.computations(), 2);
    db.set_text(s("a.md"), s("---\nname: B\n---\nBody\n"));
    assert_eq!(db.as_html(s("a.md")), Ok(s("<p>Body</p>\n")));
    assert_eq!(db.computations(), 3);
    assert_eq!(db.frontmatter(s("a.md")), Ok(Some(s("name: B\n"))));
    assert_eq!(db.computations(), 4);
}

#[test]
fn frontmatter_round_trip() {
    let mut db = MarkdownDatabaseStruct::new();
    db.set_text(s("page.md"), s("---\nname: A\n---\nBody\n"));
    assert_eq!(db.frontmatter(s("page.md")), Ok(Some(s("name: A\n"))));
    assert_eq!(db.content(s("page.md")), Ok(s("Body\n")));
    assert_eq!(db.as_html(s("page.md")), Ok(s("<p>Body</p>\n")));
    assert_eq!(frontmatter(&db, s("page.md")), Ok(Some(s("name: A\n"))));
    assert_eq!(content(&db, s("page.md")), Ok(s("Body\n")));
    assert_eq!(as_html(&db, s("page.md")), Ok(s("<p>Body</p>\n")));
    assert_eq!(db.computations(), 3);
}

#[test]
fn an_unclosed_block_is_no_block() {
    let mut db = MarkdownDatabaseStruct::new();
    db.set_text(s("page.md"), s("---\nname: A\nBody\n"));
    assert_eq!(db.frontmatter(s("page.md")), Ok(None));
    assert_eq!(db.content(s("page.md")), Ok(s("---\nname: A\nBody\n")));
    assert_eq!(split_matter("---"), None);
    assert_eq!(split_matter("---\n"), None);
    assert_eq!(split_matter(""), None);
    assert_eq!(split_matter("text\n---\nname: A\n---\n"), None);
    assert_eq!(split_matter("----\nname: A\n---\n"), None);
    assert_eq!(split_matter("---\nname: A\n----\n"), None);
    assert_eq!(split_matter("---\nname: A\n ---\n"), None);
}

#[test]
fn blocks_at_the_edges() {
    assert_eq!(split_matter("---\n---\n"), Some((s(""), s(""))));
    assert_eq!(split_matter("---\n---"), Some((s(""), s(""))));
    assert_eq!(split_matter("---\na: 1\n---"), Some((s("a: 1\n"), s(""))));
    assert_eq!(split_matter("---\na: 1\n---\n---\nrest"), Some((s("a: 1\n"), s("---\nrest"))));
    assert_eq!(split_matter("---\nä: ö\n---\nüber\n"), Some((s("ä: ö\n"), s("über\n"))));
    assert_eq!(split_matter("---\na\n--- \n---\nb"), Some((s("a\n--- \n"), s("b"))));
    assert_eq!(find_close(&chars_of("---\nab\n---\nc")), Some(7));
    assert_eq!(find_close(&chars_of("---\nab\n")), None);
    assert_eq!(chars_of("aä-"), vec!['a', 'ä', '-']);
}

#[test]
fn paths_that_are_no_markdown_sources() {
    let mut db = MarkdownDatabaseStruct::new();
    db.set_text(s("notes.txt"), s("text"));
    assert_eq!(db.content(s("notes.txt")), Err(TaekoError::InvalidPath));
    assert_eq!(db.frontmatter(s("notes.txt")), Err(TaekoError::InvalidPath));
    assert_eq!(db.as_html(s("notes.txt")), Err(TaekoError::InvalidPath));
    assert_eq!(content(&db, s("notes.txt")), Err(TaekoError::InvalidPath));
    assert_eq!(db.computations(), 0);
    assert!(is_markdown_path(&s("a.md")));
    assert!(is_markdown_path(&s("dir/a.md")));
    assert!(!is_markdown_path(&s(".md")));
    assert!(!is_markdown_path(&s("dir/.md")));
    assert!(!is_markdown_path(&s("a.mdx")));
    assert!(!is_markdown_path(&s("amd")));
    assert!(!is_markdown_path(&s("")));
}

#[test]
fn inputs_that_were_never_set() {
    let mut db = MarkdownDatabaseStruct::new();
    assert_eq!(db.text(&s("a.md")), Err(TaekoError::NotFound));
    assert_eq!(db.blob(&s("a.bin")), Err(TaekoError::NotFound));
    assert_eq!(db.content(s("a.md")), Err(TaekoError::NotFound));
    assert_eq!(db.frontmatter(s("a.md")), Err(TaekoError::NotFound));
    assert_eq!(db.as_html(s("a.md")), Err(TaekoError::NotFound));
    assert_eq!(db.computations(), 0);
    db.set_text(s("a.md"), s("x"));
    assert_eq!(db.content(s("a.md")), Ok(s("x")));
    let mut loader = Loader::new(Format::Json);
    assert_eq!(loader.from_text(s("a.json")), Err(TaekoError::NotFound));
}

#[test]
fn the_store_keeps_the_last_value_and_counts_sets() {
    let mut store = InputStore::new();
    assert_eq!(store.current_revision(), 0);
    store.set_text(s("a"), s("1"));
    store.set_blob(s("a"), vec![1u8, 2, 3]);
    store.set_text(s("b"), s("2"));
    store.set_text(s("a"), s("3"));
    assert_eq!(store.current_revision(), 4);
    assert_eq!(store.text(&s("a")), Ok(&s("3")));
    assert_eq!(store.text(&s("b")), Ok(&s("2")));
    assert_eq!(store.blob(&s("a")), Ok(&vec![1u8, 2, 3]));
    assert_eq!(store.blob(&s("b")), Err(TaekoError::NotFound));
    assert_eq!(store.text(&s("a")), Ok(&s("3")));
    assert_eq!(store.current_revision(), 4);
}

#[test]
fn decoding_json() {
    assert_eq!(
        decode_text(Format::Json, r#"{"name":"Taeko"}"#),
        Ok(vec![(s("name"), s("Taeko"))])
    );
    assert_eq!(
        decode_text(Format::Json, r#"{"b":"2","a":"1"}"#),
        Ok(vec![(s("a"), s("1")), (s("b"), s("2"))])
    );
    assert_eq!(
        decode_text(Format::Json, r#"{"name":}"#),
        Err(TaekoError::Decode(DecodeError { format: Format::Json, line: 1, column: 9 }))
    );
    let mut loader = Loader::new(Format::Json);
    loader.set_text(s("bad"), s("{\n\"name\":}"));
    assert_eq!(
        loader.from_text(s("bad")),
        Err(TaekoError::Decode(DecodeError { format: Format::Json, line: 2, column: 8 }))
    );
    loader.set_text(s("bad"), s(r#"{"name":"ok"}"#));
    assert_eq!(loader.from_text(s("bad")), Ok(vec![(s("name"), s("ok"))]));
}

#[test]
fn decoding_yaml() {
    assert_eq!(
        decode_text(Format::Yaml, "name: Taeko\nkind: site\n"),
        Ok(vec![(s("kind"), s("site")), (s("name"), s("Taeko"))])
    );
    let failed = decode_text(Format::Yaml, "name: [Taeko");
    assert!(matches!(
        failed,
        Err(TaekoError::Decode(DecodeError { format: Format::Yaml, .. }))
    ));
    assert_ne!(decode_text(Format::Yaml, "- a\n- b\n").ok(), Some(vec![]));
}

#[test]
fn outcomes_of_the_decoders() {
    assert_eq!(json_outcome(Ok(vec![(s("a"), s("b"))])), Ok(vec![(s("a"), s("b"))]));
    assert_eq!(
        json_outcome::<Vec<(String, String)>>(Err((3, 7))),
        Err(TaekoError::Decode(DecodeError { format: Format::Json, line: 3, column: 7 }))
    );
    assert_eq!(yaml_outcome(Ok(vec![(s("a"), s("b"))])), Ok(vec![(s("a"), s("b"))]));
    assert_eq!(
        yaml_outcome::<Vec<(String, String)>>(Err(Some((2, 5)))),
        Err(TaekoError::Decode(DecodeError { format: Format::Yaml, line: 2, column: 5 }))
    );
    assert_eq!(
        yaml_outcome::<Vec<(String, String)>>(Err(None)),
        Err(TaekoError::Decode(DecodeError { format: Format::Yaml, line: 0, column: 0 }))
    );
}

#[test]
fn metadata_read_as_fields() {
    let mut db = MarkdownDatabaseStruct::new();
    db.set_text(s("README.md"), s("---\nname: Dustin\nrole: author\n---\n# Hello World"));
    db.set_text(s("plain.md"), s("# Hello World"));
    db.set_text(s("broken.md"), s("---\nname: [Dustin\n---\n# Hello World"));
    assert_eq!(
        db.deserialize(s("README.md")),
        Ok(vec![(s("name"), s("Dustin")), (s("role"), s("author"))])
    );
    assert_eq!(db.deserialize(s("plain.md")), Err(()));
    assert_eq!(db.deserialize(s("broken.md")), Err(()));
    assert_eq!(db.deserialize(s("missing.md")), Err(()));
}

#[test]
fn wanted_file_types() {
    let types = vec![s("md"), s("markdown")];
    assert!(is_wanted(&s("md"), &types));
    assert!(is_wanted(&s("markdown"), &types));
    assert!(!is_wanted(&s("txt"), &types));
    assert!(!is_wanted(&s("MD"), &types));
    assert!(!is_wanted(&s("md"), &vec![]));
}

#[test]
fn decoded_values_are_cached_and_failures_are_not() {
    let mut loader = Loader::new(Format::Json);
    loader.set_text(s("a"), s(r#"{"name":"Taeko"}"#));
    loader.set_text(s("b"), s(r#"{"name":}"#));
    let first = loader.from_text(s("a"));
    assert_eq!(first, Ok(vec![(s("name"), s("Taeko"))]));
    assert_eq!(loader.decodes(), 1);
    for _ in 0..4 {
        assert_eq!(loader.from_text(s("a")), first);
    }
    assert_eq!(loader.decodes(), 1);
    let failed = loader.from_text(s("b"));
    assert_eq!(
        failed,
        Err(TaekoError::Decode(DecodeError { format: Format::Json, line: 1, column: 9 }))
    );
    assert_eq!(loader.from_text(s("b")), failed);
    assert_eq!(loader.decodes(), 1);
    loader.set_text(s("b"), s(r#"{"name":"fixed"}"#));
    assert_eq!(loader.from_text(s("a")), first);
    assert_eq!(loader.decodes(), 1);
    assert_eq!(loader.from_text(s("b")), Ok(vec![(s("name"), s("fixed"))]));
    assert_eq!(loader.decodes(), 2);
    loader.set_text(s("a"), s(r#"{"name":"Other"}"#));
    assert_eq!(loader.from_text(s("a")), Ok(vec![(s("name"), s("Other"))]));
    assert_eq!(loader.decodes(), 3);
    let pairs = vec![(s("k"), s("v")), (s("l"), s("w"))];
    assert_eq!(copy_pairs(&pairs), pairs);
}

#[test]
fn a_failure_is_reported_with_kind_and_path() {
    assert_eq!(
        report("content", "notes/a.md", &TaekoError::NotFound),
        "content of notes/a.md: the input was never set"
    );
    assert_eq!(
        report("as_html", "a.txt", &TaekoError::InvalidPath),
        "as_html of a.txt: the path does not name a markdown source"
    );
    assert_eq!(TaekoError::UnregisteredQuery.message(), "the kind of query is not registered");
    assert_eq!(TaekoError::CycleDetected.message(), "the query depends on itself");
    let json = DecodeError { format: Format::Json, line: 1, column: 9 };
    let yaml = DecodeError { format: Format::Yaml, line: 0, column: 0 };
    assert_eq!(TaekoError::Decode(json).message(), "the text is not the JSON that was asked for");
    assert_eq!(TaekoError::Decode(yaml).message(), "the text is not the YAML that was asked for");
}
