//! The record and query model: plain value types with no behaviour of their own
//! beyond names, defaults and the small mutations a caller makes before saving.
use vstd::prelude::*;

verus! {

/// The closed set of record categories.
#[derive(Debug, Clone, Copy, PartialEq, Eq, Structural)]
pub enum Category {
    Book,
    Movie,
    Game,
    Music,
    Other,
}

impl Category {
    /// Every category, in code order.
    pub const ALL: [Category; 5] = [
        Category::Book,
        Category::Movie,
        Category::Game,
        Category::Music,
        Category::Other,
    ];

    /// The display name of a category.
    pub open spec fn name(self) -> Seq<char> {
        match self {
            Category::Book => "Book"@,
            Category::Movie => "Movie"@,
            Category::Game => "Game"@,
            Category::Music => "Music"@,
            Category::Other => "Other"@,
        }
    }

    pub fn as_str(&self) -> (r: &'static str)
        ensures
            r@ == self.name(),
    {
        match self {
            Category::Book => "Book",
            Category::Movie => "Movie",
            Category::Game => "Game",
            Category::Music => "Music",
            Category::Other => "Other",
        }
    }
}

/// The workflow status of a record. Any status may follow any other.
#[derive(Debug, Clone, Copy, PartialEq, Eq, Structural)]
pub enum Status {
    Planned,
    InProgress,
    Finished,
}

impl Status {
    /// Every status, in workflow order.
    pub const ALL: [Status; 3] = [Status::Planned, Status::InProgress, Status::Finished];

    /// The display name of a status.
    pub open spec fn name(self) -> Seq<char> {
        match self {
            Status::Planned => "Planned"@,
            Status::InProgress => "In Progress"@,
            Status::Finished => "Finished"@,
        }
    }

    pub fn as_str(&self) -> (r: &'static str)
        ensures
            r@ == self.name(),
    {
        match self {
            Status::Planned => "Planned",
            Status::InProgress => "In Progress",
            Status::Finished => "Finished",
        }
    }
}

/// The column a listing is ordered by.
#[derive(Debug, Clone, Copy, PartialEq, Eq, Structural)]
pub enum SortField {
    Title,
    Category,
    Status,
    Rating,
    CreatedAt,
    UpdatedAt,
}

impl Default for SortField {
    fn default() -> (r: SortField)
        ensures
            r == SortField::Title,
    {
        SortField::Title
    }
}

/// The direction of a listing's primary ordering.
#[derive(Debug, Clone, Copy, PartialEq, Eq, Structural)]
pub enum SortOrder {
    Asc,
    Desc,
}

impl Default for SortOrder {
    fn default() -> (r: SortOrder)
        ensures
            r == SortOrder::Asc,
    {
        SortOrder::Asc
    }
}

/// A filter and sort request for a listing. Unset filters match every record.
#[derive(Debug, Clone)]
pub struct Query {
    /// Case-sensitive substring of the title; surrounding whitespace is ignored
    /// and an all-whitespace value sets no filter.
    pub title_substr: String,
    pub category: Option<Category>,
    pub status: Option<Status>,
    /// Inclusive lower bound on the rating; unrated records never pass it.
    pub min_rating: Option<u8>,
    pub sort_field: SortField,
    pub sort_order: SortOrder,
}

impl Default for Query {
    fn default() -> (r: Query)
        ensures
            r.title_substr@ == Seq::<char>::empty(),
            r.category is None,
            r.status is None,
            r.min_rating is None,
            r.sort_field == SortField::Title,
            r.sort_order == SortOrder::Asc,
    {
        Query {
            title_substr: String::new(),
            category: None,
            status: None,
            min_rating: None,
            sort_field: SortField::default(),
            sort_order: SortOrder::default(),
        }
    }
}

/// A catalog record. Timestamps are whole seconds since the Unix epoch.
#[derive(Debug, Clone, PartialEq, Eq)]
pub struct MediaItem {
    /// Assigned by the store when the record is first saved; never changed after.
    pub id: Option<i64>,
    pub title: String,
    pub category: Category,
    pub status: Status,
    pub rating: Option<u8>,
    pub notes: Option<String>,
    pub cover_path: Option<String>,
    pub created_at: i64,
    pub updated_at: i64,
}

/// The value of a record, with its text fields as character sequences.
pub struct ItemView {
    pub id: Option<i64>,
    pub title: Seq<char>,
    pub category: Category,
    pub status: Status,
    pub rating: Option<u8>,
    pub notes: Option<Seq<char>>,
    pub cover_path: Option<Seq<char>>,
    pub created_at: i64,
    pub updated_at: i64,
}

/// The characters of an optional text.
pub open spec fn opt_chars(o: Option<String>) -> Option<Seq<char>> {
    match o {
        Some(s) => Some(s@),
        None => None,
    }
}

impl View for MediaItem {
    type V = ItemView;

    open spec fn view(&self) -> ItemView {
        ItemView {
            id: self.id,
            title: self.title@,
            category: self.category,
            status: self.status,
            rating: self.rating,
            notes: opt_chars(self.notes),
            cover_path: opt_chars(self.cover_path),
            created_at: self.created_at,
            updated_at: self.updated_at,
        }
    }
}

/// Relies on chrono::Local::now and DateTime::timestamp: the current time in
/// whole seconds since the Unix epoch. Nothing is promised of its value.
#[verifier::external_body]
fn now_seconds() -> (r: i64) {
    chrono::Local::now().timestamp()
}

impl MediaItem {
    /// A new, unsaved record stamped with the given time.
    pub fn new_at(title: String, category: Category, now: i64) -> (r: MediaItem)
        ensures
            r@ == (ItemView {
                id: None,
                title: title@,
                category,
                status: Status::Planned,
                rating: None,
                notes: None,
                cover_path: None,
                created_at: now,
                updated_at: now,
            }),
    {
        MediaItem {
            id: None,
            title,
            category,
            status: Status::Planned,
            rating: None,
            notes: None,
            cover_path: None,
            created_at: now,
            updated_at: now,
        }
    }

    /// A new, unsaved record stamped with the current time.
    pub fn new(title: String, category: Category) -> (r: MediaItem)
        ensures
            r.id is None,
            r.title@ == title@,
            r.category == category,
            r.status == Status::Planned,
            r.rating is None,
            r.notes is None,
            r.cover_path is None,
            r.created_at == r.updated_at,
    {
        let now = now_seconds();
        MediaItem::new_at(title, category, now)
    }

    /// Marks the record finished, stamping the given time.
    pub fn mark_finished_at(&mut self, now: i64)
        ensures
            final(self)@ == (ItemView { status: Status::Finished, updated_at: now, ..old(self)@ }),
    {
        self.status = Status::Finished;
        self.updated_at = now;
    }

    /// Marks the record finished, stamping the current time.
    pub fn mark_finished(&mut self)
        ensures
            final(self)@ == (ItemView {
                status: Status::Finished,
                updated_at: final(self).updated_at,
                ..old(self)@
            }),
    {
        let now = now_seconds();
        self.mark_finished_at(now);
    }

    /// Sets or clears the rating, stamping the given time.
    pub fn set_rating_at(&mut self, rating: Option<u8>, now: i64)
        ensures
            final(self)@ == (ItemView { rating, updated_at: now, ..old(self)@ }),
    {
        self.rating = rating;
        self.updated_at = now;
    }

    /// Sets or clears the rating, stamping the current time.
    pub fn set_rating(&mut self, rating: Option<u8>)
        ensures
            final(self)@ == (ItemView { rating, updated_at: final(self).updated_at, ..old(self)@ }),
    {
        let now = now_seconds();
        self.set_rating_at(rating, now);
    }
}

/// An aggregate snapshot of the whole catalog.
#[derive(Debug, Clone)]
pub struct Stats {
    pub total: usize,
    /// Record counts per stored category, by category name. Categories with no
    /// records do not appear.
    pub by_category: Vec<(String, usize)>,
    pub finished: usize,
    pub unfinished: usize,
}

impl Default for Stats {
    fn default() -> (r: Stats)
        ensures
            r.total == 0,
            r.by_category@.len() == 0,
            r.finished == 0,
            r.unfinished == 0,
    {
        Stats { total: 0, by_category: Vec::new(), finished: 0, unfinished: 0 }
    }
}

} // verus!
