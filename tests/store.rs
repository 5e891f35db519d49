use todo_list::item::TodoItem;
use todo_list::shared::SharedStore;
use todo_list::store::ItemStore;

fn item(title: &str, completed: bool) -> TodoItem {
    TodoItem::new(title.to_string(), completed)
}

fn triples(v: &[TodoItem]) -> Vec<(Option<i32>, String, bool)> {
    v.iter().map(|t| (t.id, t.title.clone(), t.completed)).collect()
}

#[test]
fn empty_store_lists_nothing() {
    let s = ItemStore::new();
    assert!(s.list().is_empty());
    assert_eq!(s.len(), 0);
}

#[test]
fn first_add_assigns_id_one() {
    let mut s = ItemStore::new();
    let r = s.add(item("first", false));
    assert_eq!(triples(&r), vec![(Some(1), "first".to_string(), false)]);
}

#[test]
fn two_adds_then_list() {
    let mut s = ItemStore::new();
    let r1 = s.add(item("A", false));
    assert_eq!(triples(&r1), vec![(Some(1), "A".to_string(), false)]);
    let r2 = s.add(item("B", true));
    let expected = vec![(Some(1), "A".to_string(), false), (Some(2), "B".to_string(), true)];
    assert_eq!(triples(&r2), expected);
    assert_eq!(triples(&s.list()), expected);
}

#[test]
fn added_item_appears_in_next_list() {
    let mut s = ItemStore::new();
    s.add(item("buy milk", false));
    let l = s.list();
    assert_eq!(l.len(), 1);
    let id = l[0].id.unwrap();
    assert!(id > 0);
    assert_eq!(l[0].title, "buy milk");
    assert!(!l[0].completed);
}

#[test]
fn supplied_id_is_overwritten() {
    let mut s = ItemStore::new();
    s.add(item("x", false));
    let mut t = item("y", true);
    t.id = Some(42);
    let r = s.add(t);
    assert_eq!(r[1].id, Some(2));
    assert_eq!(r[1].title, "y");
}

#[test]
fn ids_distinct_and_increasing() {
    let mut s = ItemStore::new();
    for k in 0..50 {
        s.add(item("same", k % 2 == 0));
    }
    let l = s.list();
    assert_eq!(l.len(), 50);
    for (i, t) in l.iter().enumerate() {
        assert_eq!(t.id, Some(i as i32 + 1));
    }
}

#[test]
fn list_never_shrinks() {
    let mut s = ItemStore::new();
    let mut prev = s.list().len();
    for _ in 0..5 {
        let before = s.list();
        s.add(item("t", false));
        let now = s.list();
        assert!(now.len() >= prev);
        assert_eq!(triples(&now[..before.len()]), triples(&before));
        prev = now.len();
    }
}

#[test]
fn empty_and_duplicate_titles_allowed() {
    let mut s = ItemStore::new();
    s.add(item("", false));
    let r = s.add(item("", true));
    assert_eq!(triples(&r), vec![(Some(1), String::new(), false), (Some(2), String::new(), true)]);
}

#[test]
fn list_is_a_copy() {
    let mut s = ItemStore::new();
    s.add(item("keep", false));
    let mut l = s.list();
    l[0].title.push_str(" changed");
    assert_eq!(s.list()[0].title, "keep");
}

#[test]
fn duplicate_copies_fields() {
    let mut t = item("copy me", true);
    t.id = Some(7);
    let d = t.duplicate();
    assert_eq!((d.id, d.title.as_str(), d.completed), (Some(7), "copy me", true));
}

#[test]
fn shared_store_scenario() {
    let s = SharedStore::new();
    assert!(s.list().is_empty());
    let r1 = s.add(item("A", false)).unwrap();
    assert_eq!(triples(&r1), vec![(Some(1), "A".to_string(), false)]);
    let r2 = s.add(item("B", true)).unwrap();
    let expected = vec![(Some(1), "A".to_string(), false), (Some(2), "B".to_string(), true)];
    assert_eq!(triples(&r2), expected);
    assert_eq!(triples(&s.list()), expected);
}

#[test]
fn shared_store_ids_unique() {
    let s = SharedStore::new();
    for _ in 0..20 {
        s.add(item("n", false)).unwrap();
    }
    let l = s.list();
    let mut ids: Vec<i32> = l.iter().map(|t| t.id.unwrap()).collect();
    ids.dedup();
    assert_eq!(ids, (1..=20).collect::<Vec<i32>>());
}
