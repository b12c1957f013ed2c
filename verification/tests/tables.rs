use taeko::markdown::{body_text, front_text};
use taeko::table::Table;

fn s(text: &str) -> String {
    String::from(text)
}

#[test]
fn a_table_keeps_one_slot_for_each_name() {
    let mut table: Table<u32> = Table::new();
    assert_eq!(table.find(&s("a")), None);
    assert!(table.get(&s("a")).is_none());
    table.put(&s("a"), 1, 1, 1);
    table.put(&s("b"), 2, 2, 2);
    table.put(&s("a"), 3, 3, 4);
    assert_eq!(table.slots.len(), 2);
    assert_eq!(table.find(&s("a")), Some(0));
    assert_eq!(table.find(&s("b")), Some(1));
    assert_eq!(table.find(&s("c")), None);
    let a = table.get(&s("a")).unwrap();
    assert_eq!((a.name.as_str(), a.value, a.changed_at, a.verified_at), ("a", 3, 3, 4));
    let b = table.get(&s("b")).unwrap();
    assert_eq!((b.name.as_str(), b.value, b.changed_at, b.verified_at), ("b", 2, 2, 2));
}

#[test]
fn the_two_halves_of_a_document() {
    assert_eq!(front_text("---\ntitle: T\n---\nBody"), Some(s("title: T\n")));
    assert_eq!(body_text("---\ntitle: T\n---\nBody"), s("Body"));
    assert_eq!(front_text("Body only"), None);
    assert_eq!(body_text("Body only"), s("Body only"));
    assert_eq!(front_text("---\ntitle: T\nBody"), None);
    assert_eq!(body_text("---\ntitle: T\nBody"), s("---\ntitle: T\nBody"));
}
