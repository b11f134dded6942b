//! What is asked of the document store and what it answers, as plain values.

use crate::text::views_of;
use vstd::prelude::*;

verus! {

/// What the document store answered to a read.
#[derive(Debug)]
pub enum StoreRead<T> {
    /// The record.
    Found(T),
    /// There is no such record.
    Missing,
    /// The store could not be read; the text says why.
    Failed(String),
}

/// What the document store answered to a write.
#[derive(Debug)]
pub enum StoreWrite<T> {
    /// The write was done; this is what the store returned.
    Done(T),
    /// The write failed.
    Failed(StoreFailure),
}

/// Why a write to the document store failed.
#[derive(Debug)]
pub struct StoreFailure {
    /// The store's description of the failure.
    pub text: String,
    /// The code of the write error, where the failure is one.
    pub write_error_code: Option<i32>,
}

/// The code with which the document store refuses a second document with a
/// key that must be unique.
pub const DUPLICATE_KEY_CODE: i32 = 11000;

/// Whether a failure of the document store is the refusal of a duplicate key.
pub open spec fn is_duplicate_key(failure: StoreFailure) -> bool {
    failure.write_error_code == Some(DUPLICATE_KEY_CODE)
}

impl StoreFailure {
    /// Whether the store refused a duplicate key.
    pub fn duplicate_key(&self) -> (r: bool)
        ensures
            r == is_duplicate_key(*self),
    {
        match self.write_error_code {
            Some(code) => code == DUPLICATE_KEY_CODE,
            None => false,
        }
    }
}

/// The value that a field is set to.
#[derive(Debug)]
pub enum FieldValue {
    Text(String),
    List(Vec<String>),
    /// Milliseconds since the Unix epoch.
    Instant(i64),
}

/// One field of a document and the value it is set to.
#[derive(Debug)]
pub struct FieldUpdate {
    pub field: String,
    pub value: FieldValue,
}

/// A field's new value as a mathematical value.
pub enum ValueModel {
    Text(Seq<char>),
    List(Seq<Seq<char>>),
    Instant(int),
}

/// A change of one field as a mathematical value.
pub struct FieldChange {
    pub field: Seq<char>,
    pub value: ValueModel,
}

impl View for FieldUpdate {
    type V = FieldChange;

    open spec fn view(&self) -> FieldChange {
        FieldChange {
            field: self.field@,
            value: match self.value {
                FieldValue::Text(s) => ValueModel::Text(s@),
                FieldValue::List(l) => ValueModel::List(views_of(l@)),
                FieldValue::Instant(t) => ValueModel::Instant(t as int),
            },
        }
    }
}

/// The changes in a list of field updates.
pub open spec fn changes_of(updates: Seq<FieldUpdate>) -> Seq<FieldChange> {
    Seq::new(updates.len(), |i: int| updates[i]@)
}

/// The change of a text field, if a new value is given.
pub open spec fn text_change(field: Seq<char>, value: Option<String>) -> Seq<FieldChange> {
    match value {
        Some(s) => seq![FieldChange { field, value: ValueModel::Text(s@) }],
        None => Seq::empty(),
    }
}

/// The change of a list field, if a new value is given.
pub open spec fn list_change(field: Seq<char>, value: Option<Vec<String>>) -> Seq<FieldChange> {
    match value {
        Some(l) => seq![FieldChange { field, value: ValueModel::List(views_of(l@)) }],
        None => Seq::empty(),
    }
}

/// Appends the change of a text field, if a new value is given.
pub fn push_text(updates: &mut Vec<FieldUpdate>, field: &str, value: Option<String>)
    ensures
        changes_of(final(updates)@) == changes_of(old(updates)@) + text_change(field@, value),
{
    match value {
        Some(s) => {
            updates.push(FieldUpdate { field: String::from_str(field), value: FieldValue::Text(s) });
        },
        None => {},
    }
}

/// Appends the change of a list field, if a new value is given.
pub fn push_list(updates: &mut Vec<FieldUpdate>, field: &str, value: Option<Vec<String>>)
    ensures
        changes_of(final(updates)@) == changes_of(old(updates)@) + list_change(field@, value),
{
    match value {
        Some(l) => {
            updates.push(FieldUpdate { field: String::from_str(field), value: FieldValue::List(l) });
        },
        None => {},
    }
}

} // verus!
