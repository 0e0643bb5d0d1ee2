//! Flat rows as the datastore returns them: named columns, each holding a
//! value of one storage class.

use crate::error::{DecodeError, DecodeErrorView, Fault};
use vstd::prelude::*;

verus! {

/// `str`'s `==`: true exactly when both hold the same characters.
pub assume_specification[ <str as PartialEq>::eq ](a: &str, b: &str) -> (same: bool)
    ensures
        same == (a@ == b@),
;

/// A point in time, in milliseconds since the Unix epoch.
#[derive(Clone, Copy, Debug, PartialEq, Eq, Structural)]
pub struct Timestamp {
    pub millis: i64,
}

/// What a column of a row, or a parameter of a statement, holds.
#[derive(Debug, PartialEq, Eq)]
pub enum Value {
    Null,
    Integer(i64),
    Text(String),
    /// A storage class that no field of the schema uses.
    Other,
}

pub enum ValueView {
    Null,
    Integer(i64),
    Text(Seq<char>),
    Other,
}

impl View for Value {
    type V = ValueView;

    open spec fn view(&self) -> ValueView {
        match self {
            Value::Null => ValueView::Null,
            Value::Integer(n) => ValueView::Integer(*n),
            Value::Text(s) => ValueView::Text(s@),
            Value::Other => ValueView::Other,
        }
    }
}

impl Clone for Value {
    fn clone(&self) -> (copy: Value)
        ensures
            copy@ == self@,
    {
        match self {
            Value::Null => Value::Null,
            Value::Integer(n) => Value::Integer(*n),
            Value::Text(s) => Value::Text(s.clone()),
            Value::Other => Value::Other,
        }
    }
}

/// One named column of a row.
#[derive(Debug, PartialEq, Eq)]
pub struct Column {
    pub name: String,
    pub value: Value,
}

pub struct ColumnView {
    pub name: Seq<char>,
    pub value: ValueView,
}

impl View for Column {
    type V = ColumnView;

    open spec fn view(&self) -> ColumnView {
        ColumnView { name: self.name@, value: self.value@ }
    }
}

impl Clone for Column {
    fn clone(&self) -> (copy: Column)
        ensures
            copy@ == self@,
    {
        Column { name: self.name.clone(), value: self.value.clone() }
    }
}

/// One row of a result set. Where a name occurs twice, the first column of
/// that name is the one that is read.
#[derive(Debug, PartialEq, Eq)]
pub struct Row {
    pub columns: Vec<Column>,
}

pub type RowView = Seq<ColumnView>;

impl View for Row {
    type V = Seq<ColumnView>;

    open spec fn view(&self) -> Seq<ColumnView> {
        self.columns@.map_values(|c: Column| c@)
    }
}

impl Clone for Row {
    fn clone(&self) -> (copy: Row)
        ensures
            copy@ == self@,
    {
        let mut columns: Vec<Column> = Vec::new();
        let mut i: usize = 0;
        while i < self.columns.len()
            invariant
                i <= self.columns.len(),
                columns@.len() == i,
                forall|j: int| 0 <= j < i ==> (#[trigger] columns@[j])@ == self.columns@[j]@,
            decreases self.columns.len() - i,
        {
            columns.push(self.columns[i].clone());
            i += 1;
        }
        let copy = Row { columns };
        assert(copy@ =~= self@);
        copy
    }
}

/// The rows of a result set, by their views.
pub open spec fn rows_view(rows: Seq<Row>) -> Seq<RowView> {
    rows.map_values(|r: Row| r@)
}

/// The value of the first column called `name`, if the row has one.
pub open spec fn cell(row: RowView, name: Seq<char>) -> Option<ValueView>
    decreases row.len(),
{
    if row.len() == 0 {
        None
    } else if row[0].name == name {
        Some(row[0].value)
    } else {
        cell(row.drop_first(), name)
    }
}

/// The text that a value holds, if it is one.
pub open spec fn as_text(value: ValueView) -> Option<Seq<char>> {
    match value {
        ValueView::Text(s) => Some(s),
        _ => None,
    }
}

/// The text that a nullable value holds: none for `Null`.
pub open spec fn as_nullable_text(value: ValueView) -> Option<Option<Seq<char>>> {
    match value {
        ValueView::Null => Some(None),
        ValueView::Text(s) => Some(Some(s)),
        _ => None,
    }
}

/// The time that a value holds: an integer counts milliseconds.
pub open spec fn as_timestamp(value: ValueView) -> Option<Timestamp> {
    match value {
        ValueView::Integer(n) => Some(Timestamp { millis: n }),
        _ => None,
    }
}

/// The time that a nullable value holds: none for `Null`.
pub open spec fn as_nullable_timestamp(value: ValueView) -> Option<Option<Timestamp>> {
    match value {
        ValueView::Null => Some(None),
        ValueView::Integer(n) => Some(Some(Timestamp { millis: n })),
        _ => None,
    }
}

/// The text that a value holds, empty for `Null`.
pub open spec fn as_text_or_empty(value: ValueView) -> Option<Seq<char>> {
    match value {
        ValueView::Null => Some(Seq::empty()),
        ValueView::Text(s) => Some(s),
        _ => None,
    }
}

/// The time that a value holds, the epoch for `Null`.
pub open spec fn as_timestamp_or_epoch(value: ValueView) -> Option<Timestamp> {
    match value {
        ValueView::Null => Some(Timestamp { millis: 0 }),
        ValueView::Integer(n) => Some(Timestamp { millis: n }),
        _ => None,
    }
}

/// The 32-bit count that a value holds: an integer within `i32`'s range.
pub open spec fn as_count(value: ValueView) -> Option<i32> {
    match value {
        ValueView::Integer(n) => if i32::MIN <= n <= i32::MAX {
            Some(n as i32)
        } else {
            None
        },
        _ => None,
    }
}

/// The error of a column that failed by `fault`.
pub open spec fn failed(fault: Fault, name: Seq<char>) -> DecodeErrorView {
    DecodeErrorView { fault, column: name }
}

/// Reads a field from the column `name`, converting its value by `convert`.
/// A value that does not convert is of the wrong type. Where the row has no
/// such column, the field takes `fallback`; a field without one is required.
pub open spec fn field<T>(
    row: RowView,
    name: Seq<char>,
    convert: spec_fn(ValueView) -> Option<T>,
    fallback: Option<T>,
) -> Result<T, DecodeErrorView> {
    match cell(row, name) {
        Some(value) => match convert(value) {
            Some(read) => Ok(read),
            None => Err(failed(Fault::WrongType, name)),
        },
        None => match fallback {
            Some(default) => Ok(default),
            None => Err(failed(Fault::MissingColumn, name)),
        },
    }
}

/// A text column that the entity cannot do without.
pub open spec fn required_text(row: RowView, name: Seq<char>) -> Result<
    Seq<char>,
    DecodeErrorView,
> {
    field(row, name, |v: ValueView| as_text(v), None)
}

/// A text column that is empty where the row leaves it out.
pub open spec fn defaulted_text(row: RowView, name: Seq<char>) -> Result<
    Seq<char>,
    DecodeErrorView,
> {
    field(row, name, |v: ValueView| as_text(v), Some(Seq::<char>::empty()))
}

/// A nullable text column that the entity cannot do without.
pub open spec fn required_nullable_text(row: RowView, name: Seq<char>) -> Result<
    Option<Seq<char>>,
    DecodeErrorView,
> {
    field(row, name, |v: ValueView| as_nullable_text(v), None)
}

/// A nullable text column that is absent where the row leaves it out.
pub open spec fn defaulted_nullable_text(row: RowView, name: Seq<char>) -> Result<
    Option<Seq<char>>,
    DecodeErrorView,
> {
    field(row, name, |v: ValueView| as_nullable_text(v), Some(None::<Seq<char>>))
}

/// A time column that the entity cannot do without.
pub open spec fn required_timestamp(row: RowView, name: Seq<char>) -> Result<
    Timestamp,
    DecodeErrorView,
> {
    field(row, name, |v: ValueView| as_timestamp(v), None)
}

/// A time column that is the epoch where the row leaves it out.
pub open spec fn defaulted_timestamp(row: RowView, name: Seq<char>) -> Result<
    Timestamp,
    DecodeErrorView,
> {
    field(row, name, |v: ValueView| as_timestamp(v), Some(Timestamp { millis: 0 }))
}

/// A nullable time column that is absent where the row leaves it out.
pub open spec fn defaulted_nullable_timestamp(row: RowView, name: Seq<char>) -> Result<
    Option<Timestamp>,
    DecodeErrorView,
> {
    field(row, name, |v: ValueView| as_nullable_timestamp(v), Some(None::<Timestamp>))
}

/// A text column that is empty where the row leaves it out or holds `Null`.
pub open spec fn lenient_text(row: RowView, name: Seq<char>) -> Result<
    Seq<char>,
    DecodeErrorView,
> {
    field(row, name, |v: ValueView| as_text_or_empty(v), Some(Seq::<char>::empty()))
}

/// A time column that is the epoch where the row leaves it out or holds
/// `Null`.
pub open spec fn lenient_timestamp(row: RowView, name: Seq<char>) -> Result<
    Timestamp,
    DecodeErrorView,
> {
    field(row, name, |v: ValueView| as_timestamp_or_epoch(v), Some(Timestamp { millis: 0 }))
}

/// A 32-bit count that the entity cannot do without.
pub open spec fn required_count(row: RowView, name: Seq<char>) -> Result<i32, DecodeErrorView> {
    field(row, name, |v: ValueView| as_count(v), None)
}

/// Whether a read field and its model agree: the same value, or the same
/// error.
pub open spec fn text_agrees(
    read: Result<String, DecodeError>,
    model: Result<Seq<char>, DecodeErrorView>,
) -> bool {
    match (read, model) {
        (Ok(s), Ok(t)) => s@ == t,
        (Err(e), Err(f)) => e@ == f,
        _ => false,
    }
}

/// As `text_agrees`, for a nullable text.
pub open spec fn nullable_text_agrees(
    read: Result<Option<String>, DecodeError>,
    model: Result<Option<Seq<char>>, DecodeErrorView>,
) -> bool {
    match (read, model) {
        (Ok(Some(s)), Ok(Some(t))) => s@ == t,
        (Ok(None), Ok(None)) => true,
        (Err(e), Err(f)) => e@ == f,
        _ => false,
    }
}

/// As `text_agrees`, for a field that is its own model.
pub open spec fn plain_agrees<T>(
    read: Result<T, DecodeError>,
    model: Result<T, DecodeErrorView>,
) -> bool {
    match (read, model) {
        (Ok(s), Ok(t)) => s == t,
        (Err(e), Err(f)) => e@ == f,
        _ => false,
    }
}

impl Value {
    /// The text of a `Text` value.
    pub fn text(&self) -> (read: Option<String>)
        ensures
            match (read, as_text(self@)) {
                (Some(s), Some(t)) => s@ == t,
                (None, None) => true,
                _ => false,
            },
    {
        match self {
            Value::Text(s) => Some(s.clone()),
            _ => None,
        }
    }

    /// The text of a `Text` value, none for `Null`.
    pub fn nullable_text(&self) -> (read: Option<Option<String>>)
        ensures
            match (read, as_nullable_text(self@)) {
                (Some(Some(s)), Some(Some(t))) => s@ == t,
                (Some(None), Some(None)) => true,
                (None, None) => true,
                _ => false,
            },
    {
        match self {
            Value::Null => Some(None),
            Value::Text(s) => Some(Some(s.clone())),
            _ => None,
        }
    }

    /// The time of an `Integer` value.
    pub fn timestamp(&self) -> (read: Option<Timestamp>)
        ensures
            read == as_timestamp(self@),
    {
        match self {
            Value::Integer(n) => Some(Timestamp { millis: *n }),
            _ => None,
        }
    }

    /// The time of an `Integer` value, none for `Null`.
    pub fn nullable_timestamp(&self) -> (read: Option<Option<Timestamp>>)
        ensures
            read == as_nullable_timestamp(self@),
    {
        match self {
            Value::Null => Some(None),
            Value::Integer(n) => Some(Some(Timestamp { millis: *n })),
            _ => None,
        }
    }

    /// The count of an `Integer` value that fits 32 bits.
    pub fn count(&self) -> (read: Option<i32>)
        ensures
            read == as_count(self@),
    {
        match self {
            Value::Integer(n) => {
                if -2147483648 <= *n && *n <= 2147483647 {
                    Some(*n as i32)
                } else {
                    None
                }
            },
            _ => None,
        }
    }
}

impl Row {
    /// The value of the first column called `name`.
    pub fn get(&self, name: &str) -> (found: Option<&Value>)
        ensures
            match found {
                Some(value) => cell(self@, name@) == Some(value@),
                None => cell(self@, name@) is None,
            },
    {
        let mut i: usize = 0;
        assert(self@.skip(0) =~= self@);
        while i < self.columns.len()
            invariant
                i <= self.columns.len(),
                cell(self@, name@) == cell(self@.skip(i as int), name@),
            decreases self.columns.len() - i,
        {
            let ghost rest = self@.skip(i as int);
            assert(rest[0] == self.columns[i as int]@);
            if self.columns[i].name.as_str().eq(name) {
                return Some(&self.columns[i].value);
            }
            assert(rest.drop_first() =~= self@.skip(i + 1));
            i += 1;
        }
        None
    }

    /// Reads a text column that has to be there.
    pub fn required_text(&self, name: &str) -> (read: Result<String, DecodeError>)
        ensures
            text_agrees(read, required_text(self@, name@)),
    {
        match self.get(name) {
            Some(value) => match value.text() {
                Some(s) => Ok(s),
                None => Err(DecodeError::new(Fault::WrongType, name)),
            },
            None => Err(DecodeError::new(Fault::MissingColumn, name)),
        }
    }

    /// Reads a text column, empty where the row leaves it out.
    pub fn defaulted_text(&self, name: &str) -> (read: Result<String, DecodeError>)
        ensures
            text_agrees(read, defaulted_text(self@, name@)),
    {
        match self.get(name) {
            Some(value) => match value.text() {
                Some(s) => Ok(s),
                None => Err(DecodeError::new(Fault::WrongType, name)),
            },
            None => Ok(String::new()),
        }
    }

    /// Reads a nullable text column that has to be there.
    pub fn required_nullable_text(&self, name: &str) -> (read: Result<Option<String>, DecodeError>)
        ensures
            nullable_text_agrees(read, required_nullable_text(self@, name@)),
    {
        match self.get(name) {
            Some(value) => match value.nullable_text() {
                Some(s) => Ok(s),
                None => Err(DecodeError::new(Fault::WrongType, name)),
            },
            None => Err(DecodeError::new(Fault::MissingColumn, name)),
        }
    }

    /// Reads a nullable text column, absent where the row leaves it out.
    pub fn defaulted_nullable_text(&self, name: &str) -> (read: Result<Option<String>, DecodeError>)
        ensures
            nullable_text_agrees(read, defaulted_nullable_text(self@, name@)),
    {
        match self.get(name) {
            Some(value) => match value.nullable_text() {
                Some(s) => Ok(s),
                None => Err(DecodeError::new(Fault::WrongType, name)),
            },
            None => Ok(None),
        }
    }

    /// Reads a time column that has to be there.
    pub fn required_timestamp(&self, name: &str) -> (read: Result<Timestamp, DecodeError>)
        ensures
            plain_agrees(read, required_timestamp(self@, name@)),
    {
        match self.get(name) {
            Some(value) => match value.timestamp() {
                Some(t) => Ok(t),
                None => Err(DecodeError::new(Fault::WrongType, name)),
            },
            None => Err(DecodeError::new(Fault::MissingColumn, name)),
        }
    }

    /// Reads a time column, the epoch where the row leaves it out.
    pub fn defaulted_timestamp(&self, name: &str) -> (read: Result<Timestamp, DecodeError>)
        ensures
            plain_agrees(read, defaulted_timestamp(self@, name@)),
    {
        match self.get(name) {
            Some(value) => match value.timestamp() {
                Some(t) => Ok(t),
                None => Err(DecodeError::new(Fault::WrongType, name)),
            },
            None => Ok(Timestamp { millis: 0 }),
        }
    }

    /// Reads a nullable time column, absent where the row leaves it out.
    pub fn defaulted_nullable_timestamp(&self, name: &str) -> (read: Result<
        Option<Timestamp>,
        DecodeError,
    >)
        ensures
            plain_agrees(read, defaulted_nullable_timestamp(self@, name@)),
    {
        match self.get(name) {
            Some(value) => match value.nullable_timestamp() {
                Some(t) => Ok(t),
                None => Err(DecodeError::new(Fault::WrongType, name)),
            },
            None => Ok(None),
        }
    }

    /// Reads a text column, empty where the row leaves it out or holds
    /// `Null`.
    pub fn lenient_text(&self, name: &str) -> (read: Result<String, DecodeError>)
        ensures
            text_agrees(read, lenient_text(self@, name@)),
    {
        match self.get(name) {
            Some(value) => match value.nullable_text() {
                Some(Some(s)) => Ok(s),
                Some(None) => Ok(String::new()),
                None => Err(DecodeError::new(Fault::WrongType, name)),
            },
            None => Ok(String::new()),
        }
    }

    /// Reads a time column, the epoch where the row leaves it out or holds
    /// `Null`.
    pub fn lenient_timestamp(&self, name: &str) -> (read: Result<Timestamp, DecodeError>)
        ensures
            plain_agrees(read, lenient_timestamp(self@, name@)),
    {
        match self.get(name) {
            Some(value) => match value.nullable_timestamp() {
                Some(Some(t)) => Ok(t),
                Some(None) => Ok(Timestamp { millis: 0 }),
                None => Err(DecodeError::new(Fault::WrongType, name)),
            },
            None => Ok(Timestamp { millis: 0 }),
        }
    }

    /// Reads a 32-bit count that has to be there.
    pub fn required_count(&self, name: &str) -> (read: Result<i32, DecodeError>)
        ensures
            plain_agrees(read, required_count(self@, name@)),
    {
        match self.get(name) {
            Some(value) => match value.count() {
                Some(n) => Ok(n),
                None => Err(DecodeError::new(Fault::WrongType, name)),
            },
            None => Err(DecodeError::new(Fault::MissingColumn, name)),
        }
    }
}

} // verus!
