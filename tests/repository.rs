use media_catalog::models::{Category, MediaItem, Query, SortField, SortOrder, Status};
use media_catalog::repo::{RepoError, Repository};
use media_catalog::sqlite_repo::SqliteRepo;

fn open() -> SqliteRepo {
    let repo = SqliteRepo::new(":memory:").unwrap();
    repo.init().unwrap();
    repo
}

fn record(title: &str, category: Category, rating: Option<u8>) -> MediaItem {
    let mut it = MediaItem::new_at(title.to_string(), category, 1_700_000_000);
    it.rating = rating;
    it
}

fn titles(items: &[MediaItem]) -> Vec<String> {
    items.iter().map(|i| i.title.clone()).collect()
}

#[test]
fn insert_then_get() {
    let repo = open();
    let mut it = record("Dune", Category::Book, Some(9));
    it.notes = Some("classic".to_string());
    it.cover_path = Some("/covers/dune.png".to_string());
    it.updated_at = 1_700_000_500;
    let before = it.clone();
    let id = repo.add(&mut it).unwrap();
    assert_eq!(it.id, Some(id));
    let got = repo.get(id).unwrap().unwrap();
    assert_eq!(got, MediaItem { id: Some(id), ..before });
    assert_eq!(got, it);
}

#[test]
fn get_missing_is_none() {
    let repo = open();
    assert!(repo.get(12345).unwrap().is_none());
}

#[test]
fn update_keeps_identity_and_creation_time() {
    let repo = open();
    let mut it = record("Dune", Category::Book, None);
    let id = repo.add(&mut it).unwrap();
    let mut changed = it.clone();
    changed.title = "Dune (1965)".to_string();
    changed.category = Category::Other;
    changed.status = Status::Finished;
    changed.rating = Some(10);
    changed.notes = Some("reread".to_string());
    changed.cover_path = Some("c.jpg".to_string());
    changed.updated_at = 1_800_000_000;
    changed.created_at = 5;
    repo.update(&changed).unwrap();
    let got = repo.get(id).unwrap().unwrap();
    assert_eq!(got.id, Some(id));
    assert_eq!(got.created_at, 1_700_000_000);
    assert_eq!(got, MediaItem { created_at: 1_700_000_000, ..changed });
}

#[test]
fn update_and_delete_of_missing_rows_succeed() {
    let repo = open();
    let mut it = record("Ghost", Category::Game, None);
    it.id = Some(77);
    repo.update(&it).unwrap();
    repo.delete(77).unwrap();
    it.id = None;
    repo.update(&it).unwrap();
    assert!(repo.list(&Query::default()).unwrap().is_empty());
}

#[test]
fn delete_removes_row() {
    let repo = open();
    let mut a = record("A", Category::Book, None);
    let mut b = record("B", Category::Book, None);
    let ida = repo.add(&mut a).unwrap();
    let idb = repo.add(&mut b).unwrap();
    assert_ne!(ida, idb);
    repo.delete(ida).unwrap();
    assert!(repo.get(ida).unwrap().is_none());
    assert_eq!(titles(&repo.list(&Query::default()).unwrap()), vec!["B"]);
}

#[test]
fn filter_conjunction_matches_reference_set() {
    let repo = open();
    let rows = [
        ("Alpha", Category::Book, Some(5)),
        ("Banana", Category::Book, Some(9)),
        ("Alps", Category::Book, Some(4)),
        ("Cat", Category::Book, Some(6)),
        ("Java", Category::Movie, Some(8)),
        ("Saga", Category::Book, None),
        ("ALPHA", Category::Book, Some(10)),
    ];
    for (t, c, r) in rows {
        repo.add(&mut record(t, c, r)).unwrap();
    }
    let q = Query {
        title_substr: "a".to_string(),
        category: Some(Category::Book),
        min_rating: Some(5),
        ..Query::default()
    };
    let got = repo.list(&q).unwrap();
    let mut expected: Vec<String> = rows
        .iter()
        .filter(|(t, c, r)| t.contains('a') && *c == Category::Book && r.map_or(false, |v| v >= 5))
        .map(|(t, _, _)| t.to_string())
        .collect();
    expected.sort();
    assert_eq!(titles(&got), expected);
    assert_eq!(titles(&got), vec!["Alpha", "Banana", "Cat"]);
}

#[test]
fn unrated_records_sort_last_both_ways() {
    let repo = open();
    for (t, r) in [("A", None), ("B", Some(3)), ("C", Some(8)), ("D", None), ("E", Some(5))] {
        repo.add(&mut record(t, Category::Music, r)).unwrap();
    }
    let asc = Query { sort_field: SortField::Rating, ..Query::default() };
    assert_eq!(titles(&repo.list(&asc).unwrap()), vec!["B", "E", "C", "A", "D"]);
    let desc = Query { sort_order: SortOrder::Desc, ..asc };
    assert_eq!(titles(&repo.list(&desc).unwrap()), vec!["C", "E", "B", "A", "D"]);
}

#[test]
fn category_and_status_orderings_break_ties() {
    let repo = open();
    let mut a = record("Zed", Category::Book, None);
    a.updated_at = 10;
    let mut b = record("Amy", Category::Book, None);
    b.updated_at = 30;
    let mut c = record("Max", Category::Movie, None);
    c.updated_at = 20;
    for it in [&mut a, &mut b, &mut c] {
        repo.add(it).unwrap();
    }
    let by_cat = Query { sort_field: SortField::Category, ..Query::default() };
    assert_eq!(titles(&repo.list(&by_cat).unwrap()), vec!["Amy", "Zed", "Max"]);
    let by_status = Query { sort_field: SortField::Status, ..Query::default() };
    assert_eq!(titles(&repo.list(&by_status).unwrap()), vec!["Amy", "Max", "Zed"]);
    let by_update = Query { sort_field: SortField::UpdatedAt, sort_order: SortOrder::Desc, ..Query::default() };
    assert_eq!(titles(&repo.list(&by_update).unwrap()), vec!["Amy", "Max", "Zed"]);
}

#[test]
fn stats_are_consistent() {
    let repo = open();
    let cats = [Category::Book, Category::Game, Category::Book, Category::Music, Category::Book];
    for (i, c) in cats.iter().enumerate() {
        let mut it = record(&format!("R{i}"), *c, None);
        if i % 2 == 0 {
            it.status = Status::Finished;
        }
        repo.add(&mut it).unwrap();
    }
    let filtered = Query { category: Some(Category::Game), ..Query::default() };
    assert_eq!(repo.list(&filtered).unwrap().len(), 1);
    let st = repo.stats().unwrap();
    assert_eq!(st.total, 5);
    assert_eq!(st.finished, 3);
    assert_eq!(st.unfinished, st.total - st.finished);
    assert_eq!(st.by_category.iter().map(|(_, n)| n).sum::<usize>(), st.total);
}

#[test]
fn init_twice_keeps_rows() {
    let repo = open();
    repo.add(&mut record("Kept", Category::Other, None)).unwrap();
    repo.init().unwrap();
    repo.init().unwrap();
    assert_eq!(titles(&repo.list(&Query::default()).unwrap()), vec!["Kept"]);
    assert_eq!(repo.stats().unwrap().total, 1);
}

#[test]
fn three_records_scenario() {
    let repo = open();
    let mut dune = record("Dune", Category::Movie, None);
    let mut messiah = record("Dune Messiah", Category::Book, Some(8));
    let mut foundation = record("Foundation", Category::Book, Some(6));
    repo.add(&mut dune).unwrap();
    repo.add(&mut messiah).unwrap();
    repo.add(&mut foundation).unwrap();
    let q = Query { title_substr: "Dune".to_string(), ..Query::default() };
    let got = repo.list(&q).unwrap();
    assert_eq!(got, vec![dune, messiah]);
    let st = repo.stats().unwrap();
    assert_eq!(st.total, 3);
    let mut by_cat = st.by_category.clone();
    by_cat.sort();
    assert_eq!(by_cat, vec![("Book".to_string(), 2), ("Movie".to_string(), 1)]);
    assert_eq!(st.finished, 0);
    assert_eq!(st.unfinished, 3);
}

#[test]
fn title_filter_is_case_sensitive() {
    let repo = open();
    repo.add(&mut record("Dune", Category::Book, None)).unwrap();
    repo.add(&mut record("dune", Category::Book, None)).unwrap();
    let q = Query { title_substr: "Dun".to_string(), ..Query::default() };
    assert_eq!(titles(&repo.list(&q).unwrap()), vec!["Dune"]);
}

#[test]
fn storage_failures_surface_as_sqlite_errors() {
    let repo = SqliteRepo::new(":memory:").unwrap();
    assert!(matches!(repo.list(&Query::default()), Err(RepoError::Sqlite(_))));
    assert!(matches!(repo.stats(), Err(RepoError::Sqlite(_))));
    let mut it = record("No table", Category::Book, None);
    assert!(matches!(repo.add(&mut it), Err(RepoError::Sqlite(_))));
    assert_eq!(it.id, None);
    assert!(matches!(
        SqliteRepo::new("/no/such/directory/catalog.sqlite"),
        Err(RepoError::Sqlite(_))
    ));
}
