//! The record model: scripture collections, sparse filter parameters,
//! verse records, and the values bound to a prepared statement.

use vstd::prelude::*;

verus! {

/// An enumerated identifier for a supported scripture collection.
///
/// Each variant maps to a stable lowercase string stored in the corpus;
/// that mapping is the only place collection identity is interpreted.
#[derive(Debug, Clone, Copy)]
pub enum Scripture {
    SGGS,
}

/// The canonical string form of a collection identifier, as stored in
/// the corpus.
pub open spec fn spec_scripture_name(s: Scripture) -> Seq<char> {
    match s {
        Scripture::SGGS => "sggs"@,
    }
}

impl Scripture {
    /// The canonical lowercase name of the collection.
    pub fn name(&self) -> (r: &'static str)
        ensures
            r@ == spec_scripture_name(*self),
    {
        match self {
            Scripture::SGGS => "sggs",
        }
    }
}

/// A sparse filter specification: every field is independently optional,
/// and any subset of fields (including the empty set, meaning "match
/// everything") is a valid query.
#[derive(Debug)]
pub struct QueryParams {
    /// Exact match on the collection identifier.
    pub scripture: Option<Scripture>,
    /// Exact match on the page number.
    pub page: Option<i16>,
    /// Exact match on the hymn (composition) number.
    pub hymn: Option<i16>,
    /// Prefix match on the normalized original-script search column.
    pub gurmukhi: Option<String>,
    /// Prefix match on the normalized transliteration search column.
    pub transliteration: Option<String>,
}

impl QueryParams {
    /// The empty filter set, matching every record.
    pub fn new() -> (r: Self)
        ensures
            r.scripture is None,
            r.page is None,
            r.hymn is None,
            r.gurmukhi is None,
            r.transliteration is None,
    {
        QueryParams {
            scripture: None,
            page: None,
            hymn: None,
            gurmukhi: None,
            transliteration: None,
        }
    }

    /// Adds an exact-match filter on the collection identifier.
    pub fn scripture(self, scripture: Scripture) -> (r: Self)
        ensures
            r == (QueryParams { scripture: Some(scripture), ..self }),
    {
        QueryParams { scripture: Some(scripture), ..self }
    }

    /// Adds an exact-match filter on the page number.
    pub fn page(self, page: i16) -> (r: Self)
        ensures
            r == (QueryParams { page: Some(page), ..self }),
    {
        QueryParams { page: Some(page), ..self }
    }

    /// Adds an exact-match filter on the hymn number.
    pub fn hymn(self, hymn: i16) -> (r: Self)
        ensures
            r == (QueryParams { hymn: Some(hymn), ..self }),
    {
        QueryParams { hymn: Some(hymn), ..self }
    }

    /// Adds a prefix-match filter on the original-script search column.
    pub fn gurmukhi(self, gurmukhi: String) -> (r: Self)
        ensures
            r == (QueryParams { gurmukhi: Some(gurmukhi), ..self }),
    {
        QueryParams { gurmukhi: Some(gurmukhi), ..self }
    }

    /// Adds a prefix-match filter on the transliteration search column.
    pub fn transliteration(self, transliteration: String) -> (r: Self)
        ensures
            r == (QueryParams { transliteration: Some(transliteration), ..self }),
    {
        QueryParams { transliteration: Some(transliteration), ..self }
    }
}

/// One verse line of the corpus: an immutable value snapshot with no
/// ties back to the store it was read from.
#[derive(Debug)]
pub struct Record {
    /// Unique, stable row identifier.
    pub id: i32,
    /// Collection string, the canonical form of a `Scripture` variant.
    pub scripture: String,
    /// Page locator within the collection.
    pub page: i64,
    /// Line locator within the page.
    pub line: i64,
    /// Hymn (composition) locator within the collection.
    pub hymn: i64,
    /// Display text in the original script.
    pub gurmukhi: String,
    /// Display text in the transliteration.
    pub transliteration: String,
    /// Display text of the translation.
    pub translation: String,
    /// Opaque serialized metadata.
    pub attributes: String,
    /// Normalized original-script form used only for matching.
    pub gurmukhi_search: String,
    /// Normalized transliteration form used only for matching.
    pub transliteration_search: String,
}

/// A value bound positionally to a prepared statement.
#[derive(Debug)]
pub enum Value {
    /// An integer argument, bound for the page and hymn filters.
    Int(i64),
    /// A text argument, bound for the collection and prefix filters.
    Text(String),
}

/// The mathematical model of a bound value.
pub enum ValueModel {
    Int(int),
    Text(Seq<char>),
}

impl View for Value {
    type V = ValueModel;

    open spec fn view(&self) -> ValueModel {
        match self {
            Value::Int(i) => ValueModel::Int(*i as int),
            Value::Text(s) => ValueModel::Text(s@),
        }
    }
}

impl DeepView for Value {
    type V = ValueModel;

    open spec fn deep_view(&self) -> ValueModel {
        self.view()
    }
}

} // verus!
