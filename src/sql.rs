//! The canonical schema and the statements the repository runs: how a record
//! becomes bound parameters, how a stored row becomes a record, and how a query
//! compiles into one parameterized SELECT. User values never enter the SQL text;
//! each one is bound to a `?` placeholder.
use vstd::prelude::*;

use crate::codec::{
    cat_code, cat_of_code, cat_to_i, i_to_cat, i_to_status, status_code, status_of_code,
    status_to_i,
};
use crate::models::{
    opt_chars, ItemView, MediaItem, Query, SortField, SortOrder, Stats, Status,
};

verus! {

/// A value bound to one placeholder of a statement.
#[derive(Debug, Clone, PartialEq, Eq)]
pub enum SqlParam {
    Null,
    Int(i64),
    Text(String),
}

pub enum ParamView {
    Null,
    Int(i64),
    Text(Seq<char>),
}

impl View for SqlParam {
    type V = ParamView;

    open spec fn view(&self) -> ParamView {
        match self {
            SqlParam::Null => ParamView::Null,
            SqlParam::Int(i) => ParamView::Int(*i),
            SqlParam::Text(s) => ParamView::Text(s@),
        }
    }
}

pub open spec fn params_view(p: Seq<SqlParam>) -> Seq<ParamView> {
    p.map_values(|x: SqlParam| x@)
}

/// SQL text together with the values bound to its placeholders, in order.
#[derive(Debug, Clone)]
pub struct Statement {
    pub sql: String,
    pub params: Vec<SqlParam>,
}

/// One stored row, column by column, as read back from the table.
#[derive(Debug, Clone)]
pub struct RawRow {
    pub id: i64,
    pub title: String,
    pub category: i64,
    pub status: i64,
    pub rating: Option<i64>,
    pub notes: Option<String>,
    pub cover_path: Option<String>,
    pub created_at: i64,
    pub updated_at: i64,
}

pub struct RowView {
    pub id: i64,
    pub title: Seq<char>,
    pub category: i64,
    pub status: i64,
    pub rating: Option<i64>,
    pub notes: Option<Seq<char>>,
    pub cover_path: Option<Seq<char>>,
    pub created_at: i64,
    pub updated_at: i64,
}

impl View for RawRow {
    type V = RowView;

    open spec fn view(&self) -> RowView {
        RowView {
            id: self.id,
            title: self.title@,
            category: self.category,
            status: self.status,
            rating: self.rating,
            notes: opt_chars(self.notes),
            cover_path: opt_chars(self.cover_path),
            created_at: self.created_at,
            updated_at: self.updated_at,
        }
    }
}

/// The columns of a stored row in schema order, as the database hands them out.
pub type RowColumns = (i64, String, i64, i64, Option<i64>, Option<String>, Option<String>, i64, i64);

pub open spec fn columns_view(c: RowColumns) -> RowView {
    RowView {
        id: c.0,
        title: c.1@,
        category: c.2,
        status: c.3,
        rating: c.4,
        notes: opt_chars(c.5),
        cover_path: opt_chars(c.6),
        created_at: c.7,
        updated_at: c.8,
    }
}

impl RawRow {
    pub fn from_columns(c: RowColumns) -> (r: RawRow)
        ensures
            r@ == columns_view(c),
    {
        let (id, title, category, status, rating, notes, cover_path, created_at, updated_at) = c;
        RawRow { id, title, category, status, rating, notes, cover_path, created_at, updated_at }
    }
}

// ---------------------------------------------------------------------------
// Schema and fixed statements
// ---------------------------------------------------------------------------

/// Creates the table and its three indexes unless they already exist.
pub fn schema_sql() -> (r: &'static str)
    ensures
        r@ == schema_text(),
{
    "PRAGMA foreign_keys = ON;
CREATE TABLE IF NOT EXISTS media (
    id INTEGER PRIMARY KEY AUTOINCREMENT,
    title TEXT NOT NULL,
    category INTEGER NOT NULL,
    status INTEGER NOT NULL,
    rating INTEGER,
    notes TEXT,
    cover_path TEXT,
    created_at INTEGER NOT NULL,
    updated_at INTEGER NOT NULL
);
CREATE INDEX IF NOT EXISTS idx_media_title ON media(title);
CREATE INDEX IF NOT EXISTS idx_media_category ON media(category);
CREATE INDEX IF NOT EXISTS idx_media_status ON media(status);"
}

pub open spec fn schema_text() -> Seq<char> {
    "PRAGMA foreign_keys = ON;
CREATE TABLE IF NOT EXISTS media (
    id INTEGER PRIMARY KEY AUTOINCREMENT,
    title TEXT NOT NULL,
    category INTEGER NOT NULL,
    status INTEGER NOT NULL,
    rating INTEGER,
    notes TEXT,
    cover_path TEXT,
    created_at INTEGER NOT NULL,
    updated_at INTEGER NOT NULL
);
CREATE INDEX IF NOT EXISTS idx_media_title ON media(title);
CREATE INDEX IF NOT EXISTS idx_media_category ON media(category);
CREATE INDEX IF NOT EXISTS idx_media_status ON media(status);"@
}

pub open spec fn select_text() -> Seq<char> {
    "SELECT id, title, category, status, rating, notes, cover_path, created_at, updated_at FROM media"@
}

pub open spec fn insert_text() -> Seq<char> {
    "INSERT INTO media (title, category, status, rating, notes, cover_path, created_at, updated_at) VALUES (?1, ?2, ?3, ?4, ?5, ?6, ?7, ?8)"@
}

pub open spec fn update_text() -> Seq<char> {
    "UPDATE media SET title=?1, category=?2, status=?3, rating=?4, notes=?5, cover_path=?6, updated_at=?7 WHERE id=?8"@
}

pub open spec fn delete_text() -> Seq<char> {
    "DELETE FROM media WHERE id = ?1"@
}

pub open spec fn by_id_text() -> Seq<char> {
    select_text() + " WHERE id=?1"@
}

pub open spec fn count_text() -> Seq<char> {
    "SELECT COUNT(*) FROM media"@
}

pub open spec fn count_by_category_text() -> Seq<char> {
    "SELECT category, COUNT(*) FROM media GROUP BY category"@
}

pub open spec fn count_by_status_text() -> Seq<char> {
    "SELECT COUNT(*) FROM media WHERE status = ?1"@
}

fn select_sql() -> (r: &'static str)
    ensures
        r@ == select_text(),
{
    "SELECT id, title, category, status, rating, notes, cover_path, created_at, updated_at FROM media"
}

pub fn count_sql() -> (r: &'static str)
    ensures
        r@ == count_text(),
{
    "SELECT COUNT(*) FROM media"
}

pub fn count_by_category_sql() -> (r: &'static str)
    ensures
        r@ == count_by_category_text(),
{
    "SELECT category, COUNT(*) FROM media GROUP BY category"
}

// ---------------------------------------------------------------------------
// Encoding records as parameters
// ---------------------------------------------------------------------------

pub open spec fn text_param(o: Option<Seq<char>>) -> ParamView {
    match o {
        Some(s) => ParamView::Text(s),
        None => ParamView::Null,
    }
}

pub open spec fn rating_param(r: Option<u8>) -> ParamView {
    match r {
        Some(v) => ParamView::Int(v as i64),
        None => ParamView::Null,
    }
}

pub open spec fn id_param(id: Option<i64>) -> ParamView {
    match id {
        Some(v) => ParamView::Int(v),
        None => ParamView::Null,
    }
}

/// The values an insert binds: every field but the identity, in column order.
pub open spec fn insert_params(it: ItemView) -> Seq<ParamView> {
    seq![
        ParamView::Text(it.title),
        ParamView::Int(cat_code(it.category)),
        ParamView::Int(status_code(it.status)),
        rating_param(it.rating),
        text_param(it.notes),
        text_param(it.cover_path),
        ParamView::Int(it.created_at),
        ParamView::Int(it.updated_at),
    ]
}

/// The values an update binds: the mutable fields, then the identity that
/// selects the row. A record without identity binds NULL, which selects none.
pub open spec fn update_params(it: ItemView) -> Seq<ParamView> {
    seq![
        ParamView::Text(it.title),
        ParamView::Int(cat_code(it.category)),
        ParamView::Int(status_code(it.status)),
        rating_param(it.rating),
        text_param(it.notes),
        text_param(it.cover_path),
        ParamView::Int(it.updated_at),
        id_param(it.id),
    ]
}

fn text_value(o: &Option<String>) -> (r: SqlParam)
    ensures
        r@ == text_param(opt_chars(*o)),
{
    match o {
        Some(s) => SqlParam::Text(s.clone()),
        None => SqlParam::Null,
    }
}

fn rating_value(r: Option<u8>) -> (p: SqlParam)
    ensures
        p@ == rating_param(r),
{
    match r {
        Some(v) => SqlParam::Int(v as i64),
        None => SqlParam::Null,
    }
}

/// The statement that stores a new record; the store assigns its identity.
pub fn insert_statement(item: &MediaItem) -> (r: Statement)
    ensures
        r.sql@ == insert_text(),
        params_view(r.params@) == insert_params(item@),
{
    let params: Vec<SqlParam> = vec![
        SqlParam::Text(item.title.clone()),
        SqlParam::Int(cat_to_i(item.category)),
        SqlParam::Int(status_to_i(item.status)),
        rating_value(item.rating),
        text_value(&item.notes),
        text_value(&item.cover_path),
        SqlParam::Int(item.created_at),
        SqlParam::Int(item.updated_at),
    ];
    let sql = String::from_str(
        "INSERT INTO media (title, category, status, rating, notes, cover_path, created_at, updated_at) VALUES (?1, ?2, ?3, ?4, ?5, ?6, ?7, ?8)",
    );
    assert(params_view(params@) =~= insert_params(item@));
    Statement { sql, params }
}

/// The statement that overwrites the mutable fields of the record's row.
pub fn update_statement(item: &MediaItem) -> (r: Statement)
    ensures
        r.sql@ == update_text(),
        params_view(r.params@) == update_params(item@),
{
    let id = match item.id {
        Some(v) => SqlParam::Int(v),
        None => SqlParam::Null,
    };
    let params: Vec<SqlParam> = vec![
        SqlParam::Text(item.title.clone()),
        SqlParam::Int(cat_to_i(item.category)),
        SqlParam::Int(status_to_i(item.status)),
        rating_value(item.rating),
        text_value(&item.notes),
        text_value(&item.cover_path),
        SqlParam::Int(item.updated_at),
        id,
    ];
    let sql = String::from_str(
        "UPDATE media SET title=?1, category=?2, status=?3, rating=?4, notes=?5, cover_path=?6, updated_at=?7 WHERE id=?8",
    );
    assert(params_view(params@) =~= update_params(item@));
    Statement { sql, params }
}

/// The statement that removes the row with the given identity, if any.
pub fn delete_statement(id: i64) -> (r: Statement)
    ensures
        r.sql@ == delete_text(),
        params_view(r.params@) == seq![ParamView::Int(id)],
{
    let params: Vec<SqlParam> = vec![SqlParam::Int(id)];
    assert(params_view(params@) =~= seq![ParamView::Int(id)]);
    Statement { sql: String::from_str("DELETE FROM media WHERE id = ?1"), params }
}

/// The statement that reads the row with the given identity, if any.
pub fn get_statement(id: i64) -> (r: Statement)
    ensures
        r.sql@ == by_id_text(),
        params_view(r.params@) == seq![ParamView::Int(id)],
{
    let params: Vec<SqlParam> = vec![SqlParam::Int(id)];
    assert(params_view(params@) =~= seq![ParamView::Int(id)]);
    let sql = String::from_str(select_sql()).concat(" WHERE id=?1");
    Statement { sql, params }
}

/// The statement that counts the records of one status.
pub fn count_by_status_statement(s: Status) -> (r: Statement)
    ensures
        r.sql@ == count_by_status_text(),
        params_view(r.params@) == seq![ParamView::Int(status_code(s))],
{
    let params: Vec<SqlParam> = vec![SqlParam::Int(status_to_i(s))];
    assert(params_view(params@) =~= seq![ParamView::Int(status_code(s))]);
    Statement { sql: String::from_str("SELECT COUNT(*) FROM media WHERE status = ?1"), params }
}

// ---------------------------------------------------------------------------
// Decoding rows
// ---------------------------------------------------------------------------

/// A stored rating as a record holds it: its low eight bits, as a cast to `u8`
/// keeps them. Ratings the library writes are already in that range.
pub open spec fn rating_of(r: Option<i64>) -> Option<u8> {
    match r {
        Some(v) => Some((v & 255) as u8),
        None => None,
    }
}

/// The record a stored row stands for.
pub open spec fn item_of_row(r: RowView) -> ItemView {
    ItemView {
        id: Some(r.id),
        title: r.title,
        category: cat_of_code(r.category),
        status: status_of_code(r.status),
        rating: rating_of(r.rating),
        notes: r.notes,
        cover_path: r.cover_path,
        created_at: r.created_at,
        updated_at: r.updated_at,
    }
}

pub fn row_to_item(row: RawRow) -> (r: MediaItem)
    ensures
        r@ == item_of_row(row@),
{
    let rating = match row.rating {
        Some(v) => {
            let low: i64 = v & 255;
            assert(0 <= v & 255 <= 255) by (bit_vector);
            Some(low as u8)
        },
        None => None,
    };
    MediaItem {
        id: Some(row.id),
        title: row.title,
        category: i_to_cat(row.category),
        status: i_to_status(row.status),
        rating,
        notes: row.notes,
        cover_path: row.cover_path,
        created_at: row.created_at,
        updated_at: row.updated_at,
    }
}

/// Decodes rows in order.
pub fn rows_to_items(rows: Vec<RowColumns>) -> (r: Vec<MediaItem>)
    ensures
        r@.len() == rows@.len(),
        forall|i: int|
            0 <= i < rows@.len() ==> #[trigger] r@[i]@ == item_of_row(
                columns_view(rows@[i]),
            ),
{
    let mut rows = rows;
    let ghost orig = rows@;
    let mut out: Vec<MediaItem> = Vec::new();
    while rows.len() > 0
        invariant
            out@.len() + rows@.len() == orig.len(),
            rows@ == orig.subrange(out@.len() as int, orig.len() as int),
            forall|i: int|
                0 <= i < out@.len() ==> #[trigger] out@[i]@ == item_of_row(
                    columns_view(orig[i]),
                ),
        decreases rows@.len(),
    {
        let c = rows.remove(0);
        out.push(row_to_item(RawRow::from_columns(c)));
        assert(rows@ =~= orig.subrange(out@.len() as int, orig.len() as int));
    }
    out
}

/// The first record with the given identity, taken out of the list.
pub fn find_by_id(items: Vec<MediaItem>, id: i64) -> (r: Option<MediaItem>)
    ensures
        r is Some <==> exists|i: int| 0 <= i < items@.len() && (#[trigger] items@[i]).id == Some(id),
        r matches Some(it) ==> {
            &&& it.id == Some(id)
            &&& exists|i: int|
                0 <= i < items@.len() && #[trigger] items@[i] == it && forall|j: int|
                    0 <= j < i ==> (#[trigger] items@[j]).id != Some(id)
        },
{
    let mut i: usize = 0;
    while i < items.len()
        invariant
            i <= items@.len(),
            forall|j: int| 0 <= j < i ==> (#[trigger] items@[j]).id != Some(id),
        ensures
            i <= items@.len(),
            forall|j: int| 0 <= j < i ==> (#[trigger] items@[j]).id != Some(id),
            i < items@.len() ==> items@[i as int].id == Some(id),
        decreases items@.len() - i,
    {
        let found = match items[i].id {
            Some(x) => x == id,
            None => false,
        };
        if found {
            break;
        }
        i = i + 1;
    }
    if i < items.len() {
        let ghost orig = items@;
        let mut rest = items;
        let it = rest.remove(i);
        assert(orig[i as int] == it);
        assert(exists|k: int| 0 <= k < items@.len() && (#[trigger] items@[k]).id == Some(id));
        Some(it)
    } else {
        assert(!exists|k: int| 0 <= k < items@.len() && (#[trigger] items@[k]).id == Some(id));
        None
    }
}

// ---------------------------------------------------------------------------
// Aggregates
// ---------------------------------------------------------------------------

pub open spec fn sum_counts(groups: Seq<(i64, i64)>) -> int
    decreases groups.len(),
{
    if groups.len() == 0 {
        0
    } else {
        sum_counts(groups.drop_last()) + groups.last().1
    }
}

pub open spec fn sum_named(counts: Seq<(String, usize)>) -> int
    decreases counts.len(),
{
    if counts.len() == 0 {
        0
    } else {
        sum_named(counts.drop_last()) + counts.last().1
    }
}

proof fn lemma_prefix_sum_le(groups: Seq<(i64, i64)>, n: int)
    requires
        0 <= n <= groups.len(),
        forall|i: int| 0 <= i < groups.len() ==> 0 <= #[trigger] groups[i].1,
    ensures
        sum_counts(groups.take(n)) <= sum_counts(groups),
    decreases groups.len(),
{
    if n < groups.len() {
        let rest = groups.drop_last();
        assert forall|i: int| 0 <= i < rest.len() implies 0 <= #[trigger] rest[i].1 by {
            assert(rest[i] == groups[i]);
        }
        lemma_prefix_sum_le(rest, n);
        assert(rest.take(n) =~= groups.take(n));
        assert(0 <= groups[groups.len() - 1].1);
    } else {
        assert(groups.take(n) =~= groups);
    }
}

/// Counts that describe a real table: none negative, none beyond `usize`, no
/// more finished records than records, and category counts that add up to the
/// total.
pub open spec fn counts_valid(total: i64, groups: Seq<(i64, i64)>, finished: i64) -> bool {
    &&& 0 <= finished <= total
    &&& total <= usize::MAX
    &&& forall|i: int| 0 <= i < groups.len() ==> 0 <= #[trigger] groups[i].1 <= usize::MAX
    &&& sum_counts(groups) == total
}

/// The snapshot holds the given counts as they are, each group's category code
/// decoded to its name, and the unfinished count derived as total less finished.
pub open spec fn built_from(st: Stats, total: i64, groups: Seq<(i64, i64)>, finished: i64) -> bool {
    &&& st.total == total
    &&& st.finished == finished
    &&& st.unfinished == total - finished
    &&& st.by_category@.len() == groups.len()
    &&& forall|i: int|
        0 <= i < groups.len() ==> {
            &&& (#[trigger] st.by_category@[i]).0@ == cat_of_code(groups[i].0).name()
            &&& st.by_category@[i].1 == groups[i].1
        }
}

/// Builds the snapshot from the total count, the (category code, count) groups
/// and the finished count. The unfinished count is derived, never queried.
pub fn stats_from_counts(total: i64, groups: &Vec<(i64, i64)>, finished: i64) -> (r: Option<Stats>)
    ensures
        r is Some <==> counts_valid(total, groups@, finished),
        r matches Some(st) ==> built_from(st, total, groups@, finished) && sum_named(
            st.by_category@,
        ) == st.total,
{
    if total < 0 || finished < 0 || finished > total || total as u64 > usize::MAX as u64 {
        return None;
    }
    let mut by_category: Vec<(String, usize)> = Vec::new();
    let mut sum: i64 = 0;
    let mut i: usize = 0;
    while i < groups.len()
        invariant
            i <= groups@.len(),
            0 <= total <= usize::MAX,
            0 <= sum <= total,
            sum == sum_counts(groups@.take(i as int)),
            sum == sum_named(by_category@),
            by_category@.len() == i,
            forall|j: int| 0 <= j < i ==> 0 <= #[trigger] groups@[j].1 <= usize::MAX,
            forall|j: int|
                0 <= j < i ==> {
                    &&& (#[trigger] by_category@[j]).0@ == cat_of_code(groups@[j].0).name()
                    &&& by_category@[j].1 == groups@[j].1
                },
        decreases groups@.len() - i,
    {
        let (code, count) = groups[i];
        assert(groups@.take(i + 1).drop_last() =~= groups@.take(i as int));
        if count < 0 {
            return None;
        }
        if count > total - sum {
            proof {
                if counts_valid(total, groups@, finished) {
                    lemma_prefix_sum_le(groups@, i + 1);
                }
            }
            return None;
        }
        let ghost before = by_category@;
        by_category.push((String::from_str(i_to_cat(code).as_str()), count as usize));
        assert(by_category@.drop_last() =~= before);
        sum = sum + count;
        i = i + 1;
    }
    assert(groups@.take(i as int) =~= groups@);
    if sum != total {
        return None;
    }
    Some(
        Stats {
            total: total as usize,
            by_category,
            finished: finished as usize,
            unfinished: (total - finished) as usize,
        },
    )
}

// ---------------------------------------------------------------------------
// Compiling queries
// ---------------------------------------------------------------------------

/// The ORDER BY expression for each sort field and direction. Ties are broken
/// by title for category and rating, by most recent update for status; unrated
/// rows come after rated ones in both directions.
pub open spec fn order_text(f: SortField, o: SortOrder) -> Seq<char> {
    match (f, o) {
        (SortField::Title, SortOrder::Asc) => "title ASC"@,
        (SortField::Title, SortOrder::Desc) => "title DESC"@,
        (SortField::Category, SortOrder::Asc) => "category ASC, title ASC"@,
        (SortField::Category, SortOrder::Desc) => "category DESC, title ASC"@,
        (SortField::Status, SortOrder::Asc) => "status ASC, updated_at DESC"@,
        (SortField::Status, SortOrder::Desc) => "status DESC, updated_at DESC"@,
        (SortField::Rating, SortOrder::Asc) => "rating ASC NULLS LAST, title ASC"@,
        (SortField::Rating, SortOrder::Desc) => "rating DESC NULLS LAST, title ASC"@,
        (SortField::CreatedAt, SortOrder::Asc) => "created_at ASC"@,
        (SortField::CreatedAt, SortOrder::Desc) => "created_at DESC"@,
        (SortField::UpdatedAt, SortOrder::Asc) => "updated_at ASC"@,
        (SortField::UpdatedAt, SortOrder::Desc) => "updated_at DESC"@,
    }
}

pub fn order_by_sql(f: SortField, o: SortOrder) -> (r: &'static str)
    ensures
        r@ == order_text(f, o),
{
    match (f, o) {
        (SortField::Title, SortOrder::Asc) => "title ASC",
        (SortField::Title, SortOrder::Desc) => "title DESC",
        (SortField::Category, SortOrder::Asc) => "category ASC, title ASC",
        (SortField::Category, SortOrder::Desc) => "category DESC, title ASC",
        (SortField::Status, SortOrder::Asc) => "status ASC, updated_at DESC",
        (SortField::Status, SortOrder::Desc) => "status DESC, updated_at DESC",
        (SortField::Rating, SortOrder::Asc) => "rating ASC NULLS LAST, title ASC",
        (SortField::Rating, SortOrder::Desc) => "rating DESC NULLS LAST, title ASC",
        (SortField::CreatedAt, SortOrder::Asc) => "created_at ASC",
        (SortField::CreatedAt, SortOrder::Desc) => "created_at DESC",
        (SortField::UpdatedAt, SortOrder::Asc) => "updated_at ASC",
        (SortField::UpdatedAt, SortOrder::Desc) => "updated_at DESC",
    }
}

pub open spec fn title_pred() -> Seq<char> {
    "instr(title, ?) > 0"@
}

pub open spec fn category_pred() -> Seq<char> {
    "category = ?"@
}

pub open spec fn status_pred() -> Seq<char> {
    "status = ?"@
}

pub open spec fn rating_pred() -> Seq<char> {
    "rating >= ?"@
}

/// The filter of a query as (predicate, bound value) pairs: one per set field,
/// in the order title, category, status, minimum rating. `title` is the query's
/// title text with surrounding whitespace removed; when empty it sets no filter.
/// The title predicate is case-sensitive containment.
pub open spec fn filter_terms(title: Seq<char>, q: Query) -> Seq<(Seq<char>, ParamView)> {
    let t = if title.len() > 0 {
        seq![(title_pred(), ParamView::Text(title))]
    } else {
        Seq::empty()
    };
    let c = match q.category {
        Some(c) => seq![(category_pred(), ParamView::Int(cat_code(c)))],
        None => Seq::empty(),
    };
    let s = match q.status {
        Some(s) => seq![(status_pred(), ParamView::Int(status_code(s)))],
        None => Seq::empty(),
    };
    let r = match q.min_rating {
        Some(m) => seq![(rating_pred(), ParamView::Int(m as i64))],
        None => Seq::empty(),
    };
    t + c + s + r
}

pub open spec fn preds_of(terms: Seq<(Seq<char>, ParamView)>) -> Seq<Seq<char>> {
    terms.map_values(|t: (Seq<char>, ParamView)| t.0)
}

pub open spec fn values_of(terms: Seq<(Seq<char>, ParamView)>) -> Seq<ParamView> {
    terms.map_values(|t: (Seq<char>, ParamView)| t.1)
}

/// Predicates joined by " AND ".
pub open spec fn join_and(p: Seq<Seq<char>>) -> Seq<char>
    decreases p.len(),
{
    if p.len() == 0 {
        Seq::empty()
    } else if p.len() == 1 {
        p[0]
    } else {
        join_and(p.drop_last()) + " AND "@ + p.last()
    }
}

/// No WHERE clause for no predicates, else their conjunction.
pub open spec fn where_text(p: Seq<Seq<char>>) -> Seq<char> {
    if p.len() == 0 {
        Seq::empty()
    } else {
        " WHERE "@ + join_and(p)
    }
}

/// The full SELECT a query compiles to, given its trimmed title text.
pub open spec fn list_text(title: Seq<char>, q: Query) -> Seq<char> {
    select_text() + where_text(preds_of(filter_terms(title, q))) + " ORDER BY "@ + order_text(
        q.sort_field,
        q.sort_order,
    )
}

pub open spec fn strs_view(v: Seq<&'static str>) -> Seq<Seq<char>> {
    v.map_values(|p: &'static str| p@)
}

/// The predicates and bound values of a query's filter, in fixed order.
fn filter_parts(q: &Query, title: &str) -> (r: (Vec<&'static str>, Vec<SqlParam>))
    ensures
        strs_view(r.0@) == preds_of(filter_terms(title@, *q)),
        params_view(r.1@) == values_of(filter_terms(title@, *q)),
{
    let ghost terms: Seq<(Seq<char>, ParamView)> = Seq::empty();
    let mut preds: Vec<&'static str> = Vec::new();
    let mut params: Vec<SqlParam> = Vec::new();
    if !title.is_empty() {
        preds.push("instr(title, ?) > 0");
        params.push(SqlParam::Text(String::from_str(title)));
        proof {
            terms = terms.push((title_pred(), ParamView::Text(title@)));
        }
    }
    if let Some(c) = q.category {
        preds.push("category = ?");
        params.push(SqlParam::Int(cat_to_i(c)));
        proof {
            terms = terms.push((category_pred(), ParamView::Int(cat_code(c))));
        }
    }
    if let Some(st) = q.status {
        preds.push("status = ?");
        params.push(SqlParam::Int(status_to_i(st)));
        proof {
            terms = terms.push((status_pred(), ParamView::Int(status_code(st))));
        }
    }
    if let Some(m) = q.min_rating {
        preds.push("rating >= ?");
        params.push(SqlParam::Int(m as i64));
        proof {
            terms = terms.push((rating_pred(), ParamView::Int(m as i64)));
        }
    }
    assert(terms =~= filter_terms(title@, *q));
    assert(strs_view(preds@) =~= preds_of(terms));
    assert(params_view(params@) =~= values_of(terms));
    (preds, params)
}

/// Appends the WHERE clause of the given predicates.
fn append_where(sql: &mut String, preds: &Vec<&'static str>)
    ensures
        final(sql)@ == old(sql)@ + where_text(strs_view(preds@)),
{
    let ghost pv = strs_view(preds@);
    let ghost start = sql@;
    if preds.len() > 0 {
        sql.append(" WHERE ");
        sql.append(preds[0]);
        assert(pv.take(1) =~= seq![pv[0]]);
        assert(sql@ =~= start + " WHERE "@ + join_and(pv.take(1)));
        let mut i: usize = 1;
        while i < preds.len()
            invariant
                1 <= i <= preds@.len(),
                pv == strs_view(preds@),
                sql@ == start + " WHERE "@ + join_and(pv.take(i as int)),
            decreases preds@.len() - i,
        {
            sql.append(" AND ");
            sql.append(preds[i]);
            assert(pv.take(i + 1).drop_last() =~= pv.take(i as int));
            assert(sql@ =~= start + " WHERE "@ + join_and(pv.take(i + 1)));
            i = i + 1;
        }
        assert(pv.take(i as int) =~= pv);
        assert(sql@ =~= start + where_text(pv));
    } else {
        assert(sql@ =~= start + where_text(pv));
    }
}

/// Compiles a query whose title text has already been trimmed.
pub fn compile_list(q: &Query, title: &str) -> (r: Statement)
    ensures
        r.sql@ == list_text(title@, *q),
        params_view(r.params@) == values_of(filter_terms(title@, *q)),
{
    let (preds, params) = filter_parts(q, title);
    let mut sql = String::from_str(select_sql());
    append_where(&mut sql, &preds);
    sql.append(" ORDER BY ");
    sql.append(order_by_sql(q.sort_field, q.sort_order));
    assert(sql@ =~= list_text(title@, *q));
    Statement { sql, params }
}

/// Whitespace as `char::is_whitespace` defines it: the Unicode White_Space set.
pub open spec fn is_ws(c: char) -> bool {
    ||| c == '\t' || c == '\n' || c == '\u{0B}' || c == '\u{0C}' || c == '\r' || c == ' '
    ||| c == '\u{85}' || c == '\u{A0}' || c == '\u{1680}'
    ||| '\u{2000}' <= c <= '\u{200A}'
    ||| c == '\u{2028}' || c == '\u{2029}' || c == '\u{202F}' || c == '\u{205F}'
    ||| c == '\u{3000}'
}

pub open spec fn trim_start_of(s: Seq<char>) -> Seq<char>
    decreases s.len(),
{
    if s.len() > 0 && is_ws(s[0]) {
        trim_start_of(s.drop_first())
    } else {
        s
    }
}

pub open spec fn trim_end_of(s: Seq<char>) -> Seq<char>
    decreases s.len(),
{
    if s.len() > 0 && is_ws(s.last()) {
        trim_end_of(s.drop_last())
    } else {
        s
    }
}

/// The text without its leading and trailing whitespace.
pub open spec fn trimmed(s: Seq<char>) -> Seq<char> {
    trim_end_of(trim_start_of(s))
}

/// Relies on str::trim: the text without leading and trailing whitespace, where
/// whitespace is what `char::is_whitespace` accepts.
#[verifier::external_body]
fn trim(s: &str) -> (r: &str)
    ensures
        r@ == trimmed(s@),
{
    s.trim()
}

/// Compiles a query into one parameterized SELECT over the whole table.
pub fn compile_query(q: &Query) -> (r: Statement)
    ensures
        r.sql@ == list_text(trimmed(q.title_substr@), *q),
        params_view(r.params@) == values_of(filter_terms(trimmed(q.title_substr@), *q)),
{
    let title = trim(q.title_substr.as_str());
    compile_list(q, title)
}

} // verus!
