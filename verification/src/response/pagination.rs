//! The pagination token carried by paginated responses.

use vstd::prelude::*;

verus! {

/// A continuation token for a paginated response.
///
/// The wire carries either a bare string or an object with an optional
/// `cursor` field; an object without a cursor signals the last page.
#[derive(Clone, PartialEq, Eq, Debug)]
pub enum Pagination {
    /// A bare string token.
    Bare(String),
    /// An object with an optional cursor.
    WithCursor {
        /// The cursor, absent on the last page.
        cursor: Option<String>,
    },
}

/// What `as_cursor` yields: the cursor of the object form, if any.
pub open spec fn cursor_of(p: Pagination) -> Option<Seq<char>> {
    match p {
        Pagination::WithCursor { cursor: Some(c) } => Some(c@),
        _ => None,
    }
}

impl Pagination {
    /// The cursor to continue from, when progression is possible.
    ///
    /// Only the object form can carry a cursor; the bare-string form and a
    /// cursor-less object both yield nothing.
    pub fn as_cursor(&self) -> (r: Option<&str>)
        ensures
            r is Some <==> cursor_of(*self) is Some,
            r matches Some(c) ==> cursor_of(*self) == Some(c@),
    {
        match self {
            Pagination::WithCursor { cursor: Some(c) } => Some(c.as_str()),
            _ => None,
        }
    }
}

} // verus!
