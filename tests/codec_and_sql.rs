use media_catalog::codec::{cat_to_i, i_to_cat, i_to_status, status_to_i};
use media_catalog::models::{Category, MediaItem, Query, SortField, SortOrder, Stats, Status};
use media_catalog::sql::{
    compile_list, compile_query, delete_statement, get_statement, insert_statement, order_by_sql,
    find_by_id, row_to_item, rows_to_items, stats_from_counts, update_statement, RawRow, SqlParam,
};

const SELECT: &str = "SELECT id, title, category, status, rating, notes, cover_path, created_at, updated_at FROM media";

fn item(title: &str, category: Category, rating: Option<u8>) -> MediaItem {
    let mut it = MediaItem::new_at(title.to_string(), category, 1_700_000_000);
    it.set_rating_at(rating, 1_700_000_000);
    it
}

#[test]
fn category_codes_round_trip() {
    for (i, c) in Category::ALL.iter().enumerate() {
        assert_eq!(cat_to_i(*c), i as i64);
        assert_eq!(i_to_cat(cat_to_i(*c)), *c);
    }
}

#[test]
fn status_codes_round_trip() {
    for (i, s) in Status::ALL.iter().enumerate() {
        assert_eq!(status_to_i(*s), i as i64);
        assert_eq!(i_to_status(status_to_i(*s)), *s);
    }
}

#[test]
fn unknown_codes_fall_back() {
    for code in [-1i64, 5, 99, i64::MIN, i64::MAX] {
        assert_eq!(i_to_cat(code), Category::Other);
    }
    for code in [-1i64, 3, 42, i64::MIN, i64::MAX] {
        assert_eq!(i_to_status(code), Status::Planned);
    }
}

#[test]
fn display_names() {
    assert_eq!(Category::Book.as_str(), "Book");
    assert_eq!(Category::Music.as_str(), "Music");
    assert_eq!(Status::InProgress.as_str(), "In Progress");
    assert_eq!(Status::Finished.as_str(), "Finished");
}

#[test]
fn defaults() {
    let q = Query::default();
    assert_eq!(q.title_substr, "");
    assert!(q.category.is_none() && q.status.is_none() && q.min_rating.is_none());
    assert_eq!(q.sort_field, SortField::Title);
    assert_eq!(q.sort_order, SortOrder::Asc);
    let s = Stats::default();
    assert_eq!((s.total, s.finished, s.unfinished, s.by_category.len()), (0, 0, 0, 0));
}

#[test]
fn new_item_and_mutations() {
    let mut it = MediaItem::new_at("Dune".to_string(), Category::Book, 100);
    assert_eq!(it.id, None);
    assert_eq!(it.status, Status::Planned);
    assert_eq!((it.created_at, it.updated_at), (100, 100));
    it.mark_finished_at(200);
    assert_eq!(it.status, Status::Finished);
    assert_eq!((it.created_at, it.updated_at), (100, 200));
    it.set_rating_at(Some(9), 300);
    assert_eq!(it.rating, Some(9));
    assert_eq!(it.updated_at, 300);
    let now = MediaItem::new("Now".to_string(), Category::Game);
    assert_eq!(now.created_at, now.updated_at);
    assert!(now.created_at > 1_600_000_000);
}

#[test]
fn insert_binds_every_field_but_identity() {
    let mut it = item("Dune", Category::Movie, Some(7));
    it.notes = Some("n".to_string());
    it.updated_at = 1_700_000_100;
    let st = insert_statement(&it);
    assert!(st.sql.starts_with("INSERT INTO media (title, category, status, rating"));
    assert_eq!(
        st.params,
        vec![
            SqlParam::Text("Dune".to_string()),
            SqlParam::Int(1),
            SqlParam::Int(0),
            SqlParam::Int(7),
            SqlParam::Text("n".to_string()),
            SqlParam::Null,
            SqlParam::Int(1_700_000_000),
            SqlParam::Int(1_700_000_100),
        ]
    );
}

#[test]
fn update_binds_mutable_fields_and_identity() {
    let mut it = item("Dune", Category::Book, None);
    it.id = Some(42);
    it.status = Status::Finished;
    let st = update_statement(&it);
    assert!(!st.sql.contains("created_at"));
    assert!(st.sql.ends_with("WHERE id=?8"));
    assert_eq!(st.params.len(), 8);
    assert_eq!(st.params[2], SqlParam::Int(2));
    assert_eq!(st.params[3], SqlParam::Null);
    assert_eq!(st.params[7], SqlParam::Int(42));
    it.id = None;
    assert_eq!(update_statement(&it).params[7], SqlParam::Null);
}

#[test]
fn delete_and_get_statements() {
    let d = delete_statement(5);
    assert_eq!(d.sql, "DELETE FROM media WHERE id = ?1");
    assert_eq!(d.params, vec![SqlParam::Int(5)]);
    let g = get_statement(6);
    assert_eq!(g.sql, format!("{SELECT} WHERE id=?1"));
    assert_eq!(g.params, vec![SqlParam::Int(6)]);
}

#[test]
fn empty_query_selects_everything_by_title() {
    let st = compile_query(&Query::default());
    assert_eq!(st.sql, format!("{SELECT} ORDER BY title ASC"));
    assert!(st.params.is_empty());
}

#[test]
fn filters_join_in_fixed_order() {
    let q = Query {
        title_substr: "a".to_string(),
        category: Some(Category::Book),
        status: Some(Status::InProgress),
        min_rating: Some(5),
        sort_field: SortField::Rating,
        sort_order: SortOrder::Desc,
    };
    let st = compile_query(&q);
    assert_eq!(
        st.sql,
        format!(
            "{SELECT} WHERE instr(title, ?) > 0 AND category = ? AND status = ? AND rating >= ? ORDER BY rating DESC NULLS LAST, title ASC"
        )
    );
    assert_eq!(
        st.params,
        vec![SqlParam::Text("a".to_string()), SqlParam::Int(0), SqlParam::Int(1), SqlParam::Int(5)]
    );
}

#[test]
fn title_filter_is_trimmed() {
    let q = Query { title_substr: "  Dune \t".to_string(), ..Query::default() };
    let st = compile_query(&q);
    assert_eq!(st.params, vec![SqlParam::Text("Dune".to_string())]);
    let blank = Query { title_substr: "   ".to_string(), ..Query::default() };
    assert!(compile_query(&blank).params.is_empty());
    assert!(!compile_query(&blank).sql.contains("WHERE"));
}

#[test]
fn compile_with_given_title() {
    let q = Query { min_rating: Some(3), ..Query::default() };
    let st = compile_list(&q, "x");
    assert_eq!(st.sql, format!("{SELECT} WHERE instr(title, ?) > 0 AND rating >= ? ORDER BY title ASC"));
    assert_eq!(st.params, vec![SqlParam::Text("x".to_string()), SqlParam::Int(3)]);
}

#[test]
fn order_table() {
    let expected = [
        (SortField::Title, SortOrder::Asc, "title ASC"),
        (SortField::Title, SortOrder::Desc, "title DESC"),
        (SortField::Category, SortOrder::Asc, "category ASC, title ASC"),
        (SortField::Category, SortOrder::Desc, "category DESC, title ASC"),
        (SortField::Status, SortOrder::Asc, "status ASC, updated_at DESC"),
        (SortField::Status, SortOrder::Desc, "status DESC, updated_at DESC"),
        (SortField::Rating, SortOrder::Asc, "rating ASC NULLS LAST, title ASC"),
        (SortField::Rating, SortOrder::Desc, "rating DESC NULLS LAST, title ASC"),
        (SortField::CreatedAt, SortOrder::Asc, "created_at ASC"),
        (SortField::CreatedAt, SortOrder::Desc, "created_at DESC"),
        (SortField::UpdatedAt, SortOrder::Asc, "updated_at ASC"),
        (SortField::UpdatedAt, SortOrder::Desc, "updated_at DESC"),
    ];
    for (f, o, text) in expected {
        assert_eq!(order_by_sql(f, o), text);
    }
}

fn raw(id: i64, category: i64, status: i64, rating: Option<i64>) -> RawRow {
    RawRow {
        id,
        title: "T".to_string(),
        category,
        status,
        rating,
        notes: None,
        cover_path: Some("c.png".to_string()),
        created_at: 10,
        updated_at: 20,
    }
}

#[test]
fn rows_decode_to_records() {
    let it = row_to_item(raw(3, 2, 2, Some(8)));
    assert_eq!(it.id, Some(3));
    assert_eq!(it.category, Category::Game);
    assert_eq!(it.status, Status::Finished);
    assert_eq!(it.rating, Some(8));
    assert_eq!(it.cover_path.as_deref(), Some("c.png"));
    assert_eq!((it.created_at, it.updated_at), (10, 20));
    let odd = row_to_item(raw(4, 17, -3, Some(300)));
    assert_eq!(odd.category, Category::Other);
    assert_eq!(odd.status, Status::Planned);
    assert_eq!(odd.rating, Some(44));
    assert_eq!(row_to_item(raw(5, 0, 0, Some(-1))).rating, Some(255));
    assert_eq!(row_to_item(raw(6, 0, 0, None)).rating, None);
    let cols = vec![
        (1, "a".to_string(), 0, 0, None, None, None, 1, 2),
        (2, "b".to_string(), 1, 1, Some(4), Some("x".to_string()), None, 3, 4),
    ];
    let items = rows_to_items(cols);
    assert_eq!(items.len(), 2);
    assert_eq!(items[0].title, "a");
    assert_eq!(items[1].rating, Some(4));
    assert_eq!(items[1].notes.as_deref(), Some("x"));
}

#[test]
fn stats_from_valid_counts() {
    let st = stats_from_counts(3, &vec![(0, 2), (1, 1)], 1).unwrap();
    assert_eq!((st.total, st.finished, st.unfinished), (3, 1, 2));
    assert_eq!(st.by_category, vec![("Book".to_string(), 2), ("Movie".to_string(), 1)]);
    let odd = stats_from_counts(1, &vec![(9, 1)], 0).unwrap();
    assert_eq!(odd.by_category, vec![("Other".to_string(), 1)]);
}

#[test]
fn stats_from_inconsistent_counts() {
    assert!(stats_from_counts(1, &vec![], 2).is_none());
    assert!(stats_from_counts(-1, &vec![], 0).is_none());
    assert!(stats_from_counts(1, &vec![(0, -1)], 0).is_none());
    assert!(stats_from_counts(3, &vec![(0, 2)], 0).is_none());
    assert!(stats_from_counts(3, &vec![(0, 2), (1, 2)], 0).is_none());
    assert!(stats_from_counts(0, &vec![], 0).is_some());
}

#[test]
fn find_by_id_takes_the_matching_record() {
    let mut a = item("A", Category::Book, None);
    a.id = Some(1);
    let mut b = item("B", Category::Game, Some(3));
    b.id = Some(2);
    let mut c = item("C", Category::Movie, None);
    c.id = Some(2);
    let found = find_by_id(vec![a.clone(), b.clone(), c], 2).unwrap();
    assert_eq!(found, b);
    assert_eq!(find_by_id(vec![a.clone()], 7), None);
    assert_eq!(find_by_id(vec![], 1), None);
}

#[test]
fn title_filter_trims_unicode_whitespace() {
    let q = Query { title_substr: "\u{3000}\u{A0} Dune Messiah\n\u{2003}".to_string(), ..Query::default() };
    assert_eq!(compile_query(&q).params, vec![SqlParam::Text("Dune Messiah".to_string())]);
}
