use taeko::context::{Answer, Context};
use taeko::cache::{find_entry, is_unchanged, still_stands, Entry};
use taeko::engine::{copy_dep, has_dep, same_dep, Dep, QueryEngine};
use taeko::store::{InputStore, TaekoCoreDatabase};
use taeko::error::TaekoError;

fn s(text: &str) -> String {
    String::from(text)
}

fn reads_of(deps: &Vec<Dep>) -> Vec<String> {
    deps.iter().map(|d| format!("{:?}", d)).collect()
}

#[test]
fn a_query_that_asks_for_itself_is_rejected() {
    let mut engine = QueryEngine::new();
    engine.register(s("a"));
    engine.register(s("b"));
    assert_eq!(engine.begin(s("a"), s("x")), Ok(()));
    assert_eq!(engine.begin(s("b"), s("x")), Ok(()));
    assert_eq!(engine.begin(s("a"), s("x")), Err(TaekoError::CycleDetected));
    assert_eq!(engine.begin(s("b"), s("x")), Err(TaekoError::CycleDetected));
    assert_eq!(engine.begin(s("a"), s("y")), Ok(()));
    assert!(engine.is_under_way(&s("a"), &s("y")));
    let inner = engine.finish().unwrap();
    assert_eq!((inner.kind.as_str(), inner.arg.as_str()), ("a", "y"));
    assert!(!engine.is_under_way(&s("a"), &s("y")));
    assert_eq!(engine.begin(s("a"), s("y")), Ok(()));
}

#[test]
fn a_kind_must_be_registered_first() {
    let mut engine = QueryEngine::new();
    assert!(!engine.is_registered(&s("a")));
    assert_eq!(engine.begin(s("a"), s("x")), Err(TaekoError::UnregisteredQuery));
    assert!(engine.finish().is_none());
    engine.register(s("a"));
    engine.register(s("a"));
    assert!(engine.is_registered(&s("a")));
    assert!(!engine.is_registered(&s("b")));
    assert_eq!(engine.begin(s("a"), s("x")), Ok(()));
    assert_eq!(engine.begin(s("b"), s("x")), Err(TaekoError::UnregisteredQuery));
}

#[test]
fn reads_are_recorded_once_and_in_order() {
    let mut engine = QueryEngine::new();
    engine.register(s("outer"));
    engine.register(s("inner"));
    engine.record(Dep::Text(s("lost")));
    assert_eq!(engine.begin(s("outer"), s("x")), Ok(()));
    engine.record(Dep::Text(s("t")));
    engine.record(Dep::Blob(s("t")));
    engine.record(Dep::Text(s("t")));
    assert_eq!(engine.begin(s("inner"), s("y")), Ok(()));
    engine.record(Dep::Text(s("u")));
    let inner = engine.finish().unwrap();
    assert_eq!(reads_of(&inner.reads), vec![s("Text(\"u\")")]);
    assert_eq!(engine.begin(s("inner"), s("y")), Ok(()));
    assert!(engine.finish().unwrap().reads.is_empty());
    let outer = engine.finish().unwrap();
    assert_eq!(
        reads_of(&outer.reads),
        vec![s("Text(\"t\")"), s("Blob(\"t\")"), s("Query(\"inner\", \"y\")"), s("Text(\"u\")")]
    );
    assert!(engine.finish().is_none());
}

#[test]
fn dependencies_compare_by_what_they_name() {
    assert!(same_dep(&Dep::Text(s("a")), &Dep::Text(s("a"))));
    assert!(!same_dep(&Dep::Text(s("a")), &Dep::Blob(s("a"))));
    assert!(!same_dep(&Dep::Text(s("a")), &Dep::Text(s("b"))));
    assert!(same_dep(&Dep::Query(s("k"), s("a")), &Dep::Query(s("k"), s("a"))));
    assert!(!same_dep(&Dep::Query(s("k"), s("a")), &Dep::Query(s("l"), s("a"))));
    assert!(!same_dep(&Dep::Query(s("k"), s("a")), &Dep::Query(s("k"), s("b"))));
    let reads = vec![Dep::Text(s("a")), Dep::Query(s("k"), s("a"))];
    assert!(has_dep(&reads, &Dep::Query(s("k"), s("a"))));
    assert!(!has_dep(&reads, &Dep::Blob(s("a"))));
}

#[test]
fn the_context_answers_the_content_layer() {
    let mut ctx = Context::new();
    assert!(ctx.is_idle());
    ctx.set_text(s("page.md"), s("---\nname: A\n---\nBody\n"));
    ctx.set_blob(s("logo"), vec![7u8]);
    assert_eq!(ctx.query(s("frontmatter"), s("page.md")), Ok(Answer::Front(Some(s("name: A\n")))));
    assert_eq!(ctx.query(s("content"), s("page.md")), Ok(Answer::Text(s("Body\n"))));
    assert_eq!(ctx.query(s("as_html"), s("page.md")), Ok(Answer::Text(s("<p>Body</p>\n"))));
    assert_eq!(ctx.db.computations(), 3);
    assert_eq!(ctx.query(s("as_html"), s("page.md")), Ok(Answer::Text(s("<p>Body</p>\n"))));
    assert_eq!(ctx.db.computations(), 3);
    assert_eq!(ctx.query(s("as_html"), s("none.md")), Err(TaekoError::NotFound));
    assert_eq!(ctx.query(s("content"), s("page.txt")), Err(TaekoError::InvalidPath));
    assert_eq!(ctx.query(s("rendered"), s("page.md")), Err(TaekoError::UnregisteredQuery));
    assert!(ctx.is_idle());
}

#[test]
fn a_further_layer_runs_between_begin_and_finish() {
    let mut ctx = Context::new();
    ctx.register(s("rendered"));
    ctx.set_text(s("page.md"), s("Body\n"));
    assert_eq!(ctx.query(s("rendered"), s("page.md")), Ok(Answer::Run));
    assert!(!ctx.is_idle());
    assert_eq!(ctx.query(s("as_html"), s("page.md")), Ok(Answer::Text(s("<p>Body</p>\n"))));
    ctx.record(Dep::Blob(s("logo")));
    assert_eq!(ctx.query(s("rendered"), s("page.md")), Err(TaekoError::CycleDetected));
    let done = ctx.finish().unwrap();
    assert_eq!(done.kind, "rendered");
    assert_eq!(done.arg, "page.md");
    assert_eq!(
        reads_of(&done.reads),
        vec![s("Query(\"as_html\", \"page.md\")"), s("Text(\"page.md\")"), s("Blob(\"logo\")")]
    );
    assert!(ctx.is_idle());
    assert!(ctx.finish().is_none());
}

#[test]
fn a_completed_query_is_answered_from_the_cache() {
    let mut ctx = Context::new();
    ctx.register(s("rendered"));
    ctx.set_text(s("page.md"), s("Body\n"));
    ctx.set_text(s("other.md"), s("Other\n"));
    assert!(!ctx.complete(s("nothing under way")));
    assert_eq!(ctx.query(s("rendered"), s("page.md")), Ok(Answer::Run));
    assert_eq!(ctx.query(s("as_html"), s("page.md")), Ok(Answer::Text(s("<p>Body</p>\n"))));
    assert!(ctx.complete(s("<html><p>Body</p>\n</html>")));
    assert!(ctx.is_idle());
    for _ in 0..3 {
        assert_eq!(
            ctx.query(s("rendered"), s("page.md")),
            Ok(Answer::Text(s("<html><p>Body</p>\n</html>")))
        );
        assert!(ctx.is_idle());
    }
    ctx.set_text(s("other.md"), s("Changed\n"));
    ctx.set_blob(s("page.md"), vec![1u8]);
    assert_eq!(
        ctx.query(s("rendered"), s("page.md")),
        Ok(Answer::Text(s("<html><p>Body</p>\n</html>")))
    );
    ctx.set_text(s("page.md"), s("New\n"));
    assert_eq!(ctx.query(s("rendered"), s("page.md")), Ok(Answer::Run));
    assert_eq!(ctx.query(s("as_html"), s("page.md")), Ok(Answer::Text(s("<p>New</p>\n"))));
    assert!(ctx.complete(s("<html><p>New</p>\n</html>")));
    assert_eq!(
        ctx.query(s("rendered"), s("page.md")),
        Ok(Answer::Text(s("<html><p>New</p>\n</html>")))
    );
    assert_eq!(ctx.cache.len(), 1);
    assert_eq!(ctx.cache[0].verified_at, 5);
}

#[test]
fn a_cached_answer_hands_its_reads_to_the_query_around_it() {
    let mut ctx = Context::new();
    ctx.register(s("rendered"));
    ctx.register(s("site"));
    ctx.set_text(s("page.md"), s("Body\n"));
    assert_eq!(ctx.query(s("rendered"), s("page.md")), Ok(Answer::Run));
    assert_eq!(ctx.query(s("content"), s("page.md")), Ok(Answer::Text(s("Body\n"))));
    ctx.record(Dep::Blob(s("logo")));
    assert!(ctx.complete(s("page")));
    assert_eq!(ctx.query(s("site"), s("all")), Ok(Answer::Run));
    assert_eq!(ctx.query(s("rendered"), s("page.md")), Ok(Answer::Text(s("page"))));
    let site = ctx.finish().unwrap();
    assert_eq!(
        reads_of(&site.reads),
        vec![
            s("Query(\"rendered\", \"page.md\")"),
            s("Query(\"content\", \"page.md\")"),
            s("Text(\"page.md\")"),
            s("Blob(\"logo\")")
        ]
    );
    assert_eq!(ctx.query(s("site"), s("all")), Ok(Answer::Run));
    assert!(!ctx.is_idle());
}

#[test]
fn cached_values_stand_until_an_input_they_read_is_set() {
    let mut inputs = InputStore::new();
    inputs.set_text(s("a"), s("1"));
    inputs.set_blob(s("b"), vec![1u8]);
    let entry = Entry {
        kind: s("k"),
        arg: s("x"),
        value: s("v"),
        reads: vec![Dep::Text(s("a")), Dep::Blob(s("b")), Dep::Query(s("q"), s("a")), Dep::Text(s("c"))],
        verified_at: 2,
    };
    assert!(still_stands(&inputs, &entry));
    assert!(is_unchanged(&inputs, &Dep::Text(s("a")), 1));
    assert!(!is_unchanged(&inputs, &Dep::Blob(s("b")), 1));
    assert!(is_unchanged(&inputs, &Dep::Text(s("c")), 0));
    inputs.set_text(s("c"), s("3"));
    assert!(!still_stands(&inputs, &entry));
    let entries = vec![entry];
    assert_eq!(find_entry(&entries, &s("k"), &s("x")), Some(0));
    assert_eq!(find_entry(&entries, &s("k"), &s("y")), None);
    assert_eq!(find_entry(&entries, &s("x"), &s("k")), None);
    assert!(same_dep(&copy_dep(&Dep::Query(s("q"), s("a"))), &Dep::Query(s("q"), s("a"))));
}

#[test]
fn inputs_read_through_the_context_are_recorded() {
    let mut ctx = Context::new();
    ctx.register(s("rendered"));
    ctx.set_text(s("site.toml"), s("title = \"T\""));
    ctx.set_blob(s("logo"), vec![1u8, 2]);
    assert_eq!(ctx.text(s("site.toml")), Ok(s("title = \"T\"")));
    assert_eq!(ctx.query(s("rendered"), s("home")), Ok(Answer::Run));
    assert_eq!(ctx.text(s("site.toml")), Ok(s("title = \"T\"")));
    assert_eq!(ctx.blob(s("logo")), Ok(vec![1u8, 2]));
    assert_eq!(ctx.blob(s("banner")), Err(TaekoError::NotFound));
    assert_eq!(ctx.text(s("missing")), Err(TaekoError::NotFound));
    assert!(ctx.complete(s("home page")));
    assert_eq!(
        reads_of(&ctx.cache[0].reads),
        vec![
            s("Text(\"site.toml\")"),
            s("Blob(\"logo\")"),
            s("Blob(\"banner\")"),
            s("Text(\"missing\")")
        ]
    );
    assert_eq!(ctx.query(s("rendered"), s("home")), Ok(Answer::Text(s("home page"))));
    ctx.set_blob(s("banner"), vec![9u8]);
    assert_eq!(ctx.query(s("rendered"), s("home")), Ok(Answer::Run));
    assert!(ctx.finish().is_some());
    assert_eq!(ctx.query(s("rendered"), s("home")), Ok(Answer::Run));
}
