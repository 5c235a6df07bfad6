//! The project record.

use crate::db::query::{
    self, bound_values, delete_text, held_all, insert_text, page_text, select_text, text_value, time_value,
    update_text, uuid_value, SqlValue,
};
use sea_query::Value;
use sea_query_binder::SqlxValues;
use vstd::prelude::*;

verus! {

/// Nanoseconds in a second.
pub const NANOS_PER_SECOND: i64 = 1_000_000_000;

/// A point in time: nanoseconds since 1970-01-01 00:00:00 UTC.
#[derive(Debug, Copy, Clone, PartialEq, Eq, Structural)]
pub struct Timestamp {
    pub nanos: i64,
}

impl Timestamp {
    /// The instant `secs` seconds and `subsec` nanoseconds after the epoch,
    /// or the nearest instant that can be written where that one cannot.
    pub open spec fn at(secs: int, subsec: int) -> Timestamp {
        let nanos = secs * NANOS_PER_SECOND + subsec;
        Timestamp {
            nanos: if nanos > i64::MAX {
                i64::MAX
            } else if nanos < i64::MIN {
                i64::MIN
            } else {
                nanos as i64
            },
        }
    }

    /// What a clock can read: an instant at or after the epoch.
    pub open spec fn is_clock_reading(self) -> bool {
        self.nanos >= 0
    }

    /// The epoch itself.
    pub fn epoch() -> (t: Timestamp)
        ensures
            t.nanos == 0,
    {
        Timestamp { nanos: 0 }
    }

    /// Makes one instant of a clock's seconds and nanoseconds.
    pub fn from_clock(secs: i64, subsec: u32) -> (t: Timestamp)
        ensures
            t == Timestamp::at(secs as int, subsec as int),
            secs >= 0 ==> t.is_clock_reading(),
    {
        assert(-9_223_372_036_854_775_808_000_000_000 <= secs * 1_000_000_000
            <= 9_223_372_036_854_775_807_000_000_000) by (nonlinear_arith)
            requires
                -9_223_372_036_854_775_808 <= secs <= 9_223_372_036_854_775_807,
        ;
        assert(secs >= 0 ==> secs * 1_000_000_000 >= 0) by (nonlinear_arith);
        let nanos: i128 = secs as i128 * 1_000_000_000 + subsec as i128;
        if nanos > i64::MAX as i128 {
            Timestamp { nanos: i64::MAX }
        } else if nanos < i64::MIN as i128 {
            Timestamp { nanos: i64::MIN }
        } else {
            Timestamp { nanos: nanos as i64 }
        }
    }
}

/// Whether `id` has the shape of a random (version 4) identifier: the
/// version field holds 4 and the variant field holds binary 10.
pub open spec fn is_random_id(id: u128) -> bool {
    id & 0x0000_0000_0000_f000_c000_0000_0000_0000 == 0x0000_0000_0000_4000_8000_0000_0000_0000
}

/// `uuid::Uuid::new_v4`, as a number. The crate draws 128 random bits and
/// overwrites the version and variant fields, so of the result only the
/// shape is known.
#[verifier::external_body]
fn random_id() -> (id: u128)
    ensures
        is_random_id(id),
{
    uuid::Uuid::new_v4().as_u128()
}

/// `chrono::Utc::now`, as whole seconds since the epoch and the nanoseconds
/// into the second. The crate reads the system clock as a duration since
/// the epoch, so the seconds are not negative and the nanoseconds stay
/// under a second.
#[verifier::external_body]
fn clock() -> (reading: (i64, u32))
    ensures
        reading.0 >= 0,
        reading.1 < NANOS_PER_SECOND,
{
    let now = chrono::Utc::now();
    (now.timestamp(), now.timestamp_subsec_nanos())
}

/// The current time.
pub fn now() -> (t: Timestamp)
    ensures
        t.is_clock_reading(),
{
    let reading = clock();
    Timestamp::from_clock(reading.0, reading.1)
}

/// The table of projects and its columns.
pub const TABLE: &'static str = "project";

pub const ID: &'static str = "id";

pub const NAME: &'static str = "name";

pub const DESCRIPTION: &'static str = "description";

pub const AUTHOR: &'static str = "author";

pub const CREATED: &'static str = "created";

pub const MODIFIED: &'static str = "modified";

/// All columns, in the order in which a row is written and read.
pub open spec fn all_columns() -> Seq<Seq<char>> {
    seq![ID@, NAME@, DESCRIPTION@, AUTHOR@, CREATED@, MODIFIED@]
}

/// The columns that an `UPDATE` sets: the texts and the time of
/// modification.
pub open spec fn update_columns() -> Seq<Seq<char>> {
    seq![NAME@, DESCRIPTION@, AUTHOR@, MODIFIED@]
}

/// The columns that a `SELECT` by identifier fetches: all but the
/// identifier, which the caller has.
pub open spec fn select_columns() -> Seq<Seq<char>> {
    seq![NAME@, DESCRIPTION@, AUTHOR@, CREATED@, MODIFIED@]
}

/// A project as the database holds it.
#[derive(Debug, Clone, PartialEq, Eq)]
pub struct Project {
    id: u128,
    name: String,
    description: String,
    author: String,
    created: Timestamp,
    modified: Timestamp,
}

/// A project as a plain value.
pub struct ProjectView {
    pub id: u128,
    pub name: Seq<char>,
    pub description: Seq<char>,
    pub author: Seq<char>,
    pub created: Timestamp,
    pub modified: Timestamp,
}

impl View for Project {
    type V = ProjectView;

    closed spec fn view(&self) -> ProjectView {
        ProjectView {
            id: self.id,
            name: self.name@,
            description: self.description@,
            author: self.author@,
            created: self.created,
            modified: self.modified,
        }
    }
}

impl DeepView for Project {
    type V = ProjectView;

    open spec fn deep_view(&self) -> ProjectView {
        self@
    }
}

impl Default for Project {
    /// The empty project: the nil identifier, no text, both times at the
    /// epoch.
    fn default() -> (project: Self)
        ensures
            project@ == (ProjectView {
                id: 0,
                name: Seq::empty(),
                description: Seq::empty(),
                author: Seq::empty(),
                created: Timestamp { nanos: 0 },
                modified: Timestamp { nanos: 0 },
            }),
    {
        Project {
            id: 0,
            name: String::new(),
            description: String::new(),
            author: String::new(),
            created: Timestamp::epoch(),
            modified: Timestamp::epoch(),
        }
    }
}

impl Project {
    /// A project with the given texts, the nil identifier and both times at
    /// the epoch.
    pub fn new(name: String, description: String, author: String) -> (project: Self)
        ensures
            project@ == (ProjectView {
                id: 0,
                name: name@,
                description: description@,
                author: author@,
                created: Timestamp { nanos: 0 },
                modified: Timestamp { nanos: 0 },
            }),
    {
        Project { id: 0, name, description, author, created: Timestamp::epoch(), modified: Timestamp::epoch() }
    }

    /// A project with every field given.
    pub fn from_parts(
        id: u128,
        name: String,
        description: String,
        author: String,
        created: Timestamp,
        modified: Timestamp,
    ) -> (project: Self)
        ensures
            project@ == (ProjectView {
                id,
                name: name@,
                description: description@,
                author: author@,
                created,
                modified,
            }),
    {
        Project { id, name, description, author, created, modified }
    }

    pub fn id(&self) -> (id: u128)
        ensures
            id == self@.id,
    {
        self.id
    }

    pub fn name(&self) -> (name: &String)
        ensures
            name@ == self@.name,
    {
        &self.name
    }

    pub fn description(&self) -> (description: &String)
        ensures
            description@ == self@.description,
    {
        &self.description
    }

    pub fn author(&self) -> (author: &String)
        ensures
            author@ == self@.author,
    {
        &self.author
    }

    pub fn created(&self) -> (created: Timestamp)
        ensures
            created == self@.created,
    {
        self.created
    }

    pub fn modified(&self) -> (modified: Timestamp)
        ensures
            modified == self@.modified,
    {
        self.modified
    }

    /// Gives the project the identifier `id`.
    pub fn set_id(&mut self, id: u128) -> (this: &mut Self)
        ensures
            this@ == (ProjectView { id, ..old(self)@ }),
            *final(self) == *final(this),
    {
        self.id = id;
        self
    }

    /// Gives the project a fresh random identifier.
    pub fn assign_id(&mut self) -> (this: &mut Self)
        ensures
            is_random_id(this@.id),
            this@ == (ProjectView { id: this@.id, ..old(self)@ }),
            *final(self) == *final(this),
    {
        let id = random_id();
        self.set_id(id)
    }

    /// Marks the project as created, and last modified, at `at`.
    pub fn set_created(&mut self, at: Timestamp) -> (this: &mut Self)
        ensures
            this@ == (ProjectView { created: at, modified: at, ..old(self)@ }),
            *final(self) == *final(this),
    {
        self.created = at;
        self.modified = at;
        self
    }

    /// Marks the project as created, and last modified, now.
    pub fn assign_created(&mut self) -> (this: &mut Self)
        ensures
            this@.created.is_clock_reading(),
            this@ == (ProjectView { created: this@.created, modified: this@.created, ..old(self)@ }),
            *final(self) == *final(this),
    {
        let at = now();
        self.set_created(at)
    }

    /// Marks the project as last modified at `at`.
    pub fn set_modified(&mut self, at: Timestamp)
        ensures
            final(self)@ == (ProjectView { modified: at, ..old(self)@ }),
    {
        self.modified = at;
    }

    /// Renames the project and marks it as modified at `at`.
    pub fn set_name_at(&mut self, name: String, at: Timestamp)
        ensures
            final(self)@ == (ProjectView { name: name@, modified: at, ..old(self)@ }),
    {
        self.name = name;
        self.modified = at;
    }

    /// Renames the project and marks it as modified now.
    pub fn set_name(&mut self, name: String)
        ensures
            final(self)@.modified.is_clock_reading(),
            final(self)@ == (ProjectView {
                name: name@,
                modified: final(self)@.modified,
                ..old(self)@
            }),
    {
        let at = now();
        self.set_name_at(name, at);
    }

    /// Describes the project anew and marks it as modified at `at`.
    pub fn set_description_at(&mut self, description: String, at: Timestamp)
        ensures
            final(self)@ == (ProjectView { description: description@, modified: at, ..old(self)@ }),
    {
        self.description = description;
        self.modified = at;
    }

    /// Describes the project anew and marks it as modified now.
    pub fn set_description(&mut self, description: String)
        ensures
            final(self)@.modified.is_clock_reading(),
            final(self)@ == (ProjectView {
                description: description@,
                modified: final(self)@.modified,
                ..old(self)@
            }),
    {
        let at = now();
        self.set_description_at(description, at);
    }

    /// The values of an `INSERT`: every field, in the order of
    /// [`all_columns`].
    pub open spec fn insert_row(self) -> Seq<SqlValue> {
        seq![
            SqlValue::Uuid(self@.id),
            SqlValue::Text(self@.name),
            SqlValue::Text(self@.description),
            SqlValue::Text(self@.author),
            SqlValue::DateTime(self@.created),
            SqlValue::DateTime(self@.modified),
        ]
    }

    /// The values of an `UPDATE`: the fields that it sets, in the order of
    /// [`update_columns`].
    pub open spec fn update_row(self) -> Seq<SqlValue> {
        seq![
            SqlValue::Text(self@.name),
            SqlValue::Text(self@.description),
            SqlValue::Text(self@.author),
            SqlValue::DateTime(self@.modified),
        ]
    }

    /// The statement that stores this project as a new row, and the values
    /// it binds: every field of the project, the identifier first.
    pub fn insert_query(&self) -> (query: (String, SqlxValues))
        ensures
            query.0@ == insert_text(TABLE@, all_columns(), self.insert_row()),
            bound_values(query.1) == self.insert_row(),
    {
        let mut columns: Vec<String> = Vec::new();
        columns.push(String::from_str(ID));
        columns.push(String::from_str(NAME));
        columns.push(String::from_str(DESCRIPTION));
        columns.push(String::from_str(AUTHOR));
        columns.push(String::from_str(CREATED));
        columns.push(String::from_str(MODIFIED));
        let mut row: Vec<Value> = Vec::new();
        row.push(uuid_value(self.id));
        row.push(text_value(&self.name));
        row.push(text_value(&self.description));
        row.push(text_value(&self.author));
        row.push(time_value(self.created));
        row.push(time_value(self.modified));
        assert(columns.deep_view() =~= all_columns());
        assert(held_all(row@) =~= self.insert_row());
        query::insert(TABLE, &columns, row)
    }

    /// The statement that writes this project's texts and time of
    /// modification over the row with its identifier, and the values it
    /// binds: those fields, then the identifier.
    pub fn update_query(&self) -> (query: (String, SqlxValues))
        ensures
            query.0@ == update_text(
                TABLE@,
                update_columns(),
                self.update_row(),
                ID@,
                SqlValue::Uuid(self@.id),
            ),
            bound_values(query.1) == self.update_row().push(SqlValue::Uuid(self@.id)),
    {
        let mut columns: Vec<String> = Vec::new();
        columns.push(String::from_str(NAME));
        columns.push(String::from_str(DESCRIPTION));
        columns.push(String::from_str(AUTHOR));
        columns.push(String::from_str(MODIFIED));
        let mut row: Vec<Value> = Vec::new();
        row.push(text_value(&self.name));
        row.push(text_value(&self.description));
        row.push(text_value(&self.author));
        row.push(time_value(self.modified));
        assert(columns.deep_view() =~= update_columns());
        assert(held_all(row@) =~= self.update_row());
        query::update(TABLE, &columns, row, ID, uuid_value(self.id))
    }

    /// The statement that deletes the row with this project's identifier,
    /// and the one value it binds: the identifier.
    pub fn delete_query(&self) -> (query: (String, SqlxValues))
        ensures
            query.0@ == delete_text(TABLE@, ID@, SqlValue::Uuid(self@.id)),
            bound_values(query.1) == seq![SqlValue::Uuid(self@.id)],
    {
        query::delete(TABLE, ID, uuid_value(self.id))
    }

    /// The statement that fetches the project with the identifier `id`, at
    /// most one row, and the values it binds: the identifier, then the
    /// limit of one.
    pub fn select_query(id: u128) -> (query: (String, SqlxValues))
        ensures
            query.0@ == select_text(TABLE@, select_columns(), ID@, SqlValue::Uuid(id), 1),
            bound_values(query.1) == seq![SqlValue::Uuid(id), SqlValue::Unsigned(1)],
    {
        let mut columns: Vec<String> = Vec::new();
        columns.push(String::from_str(NAME));
        columns.push(String::from_str(DESCRIPTION));
        columns.push(String::from_str(AUTHOR));
        columns.push(String::from_str(CREATED));
        columns.push(String::from_str(MODIFIED));
        assert(columns.deep_view() =~= select_columns());
        query::select(TABLE, &columns, ID, uuid_value(id), 1)
    }

    /// The statement that fetches the page `page` of the projects, pages
    /// being counted from zero and holding `page_size` rows each, and the
    /// values it binds: the size of the page, then the number of rows that
    /// come before it.
    ///
    /// SQLite counts rows in 63 bits. Where the size of the page or the
    /// number of rows before it does not fit, there is no statement, and no
    /// row that it could fetch.
    pub fn list_query(page: u64, page_size: u64) -> (query: Option<(String, SqlxValues)>)
        ensures
            query is Some <==> page_size <= i64::MAX && page * page_size <= i64::MAX,
            query matches Some(q) ==> {
                &&& q.0@ == page_text(TABLE@, all_columns(), page_size, (page * page_size) as u64)
                &&& bound_values(q.1) == seq![
                    SqlValue::Unsigned(page_size),
                    SqlValue::Unsigned((page * page_size) as u64),
                ]
            },
    {
        let most: u64 = 0x7fff_ffff_ffff_ffff;
        if page_size > most {
            return None;
        }
        if page != 0 && page_size > most / page {
            assert(page * page_size > most) by (nonlinear_arith)
                requires
                    page > 0,
                    page_size > most / page,
            ;
            return None;
        }
        assert(page * page_size <= most) by (nonlinear_arith)
            requires
                page == 0 || page_size <= most / page,
                page_size >= 0,
        ;
        let mut columns: Vec<String> = Vec::new();
        columns.push(String::from_str(ID));
        columns.push(String::from_str(NAME));
        columns.push(String::from_str(DESCRIPTION));
        columns.push(String::from_str(AUTHOR));
        columns.push(String::from_str(CREATED));
        columns.push(String::from_str(MODIFIED));
        assert(columns.deep_view() =~= all_columns());
        Some(query::select_page(TABLE, &columns, page_size, page * page_size))
    }
}

} // verus!
