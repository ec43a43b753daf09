use vstd::prelude::*;

use crate::error::DataverseError;
use crate::request::{base_plan, protocol_headers, Method, RequestPlan};
use crate::url::Endpoint;

verus! {

pub open spec fn opt_view(s: Option<String>) -> Option<Seq<char>> {
    match s {
        Some(t) => Some(t@),
        None => None,
    }
}

/// One page of a multi-record query: the records, and the opaque cursor that
/// leads to the next page when the server holds more.
#[derive(Debug)]
pub struct Page<E> {
    pub entities: Vec<E>,
    next_link: Option<String>,
}

impl<E> Page<E> {
    /// The continuation cursor, verbatim as the server sent it.
    pub closed spec fn cursor(&self) -> Option<Seq<char>> {
        opt_view(self.next_link)
    }

    /// The records of the page, in the order the server sent them.
    pub closed spec fn records(&self) -> Seq<E> {
        self.entities@
    }

    pub open spec fn incomplete(&self) -> bool {
        self.cursor() is Some
    }

    /// What continuing from this page amounts to: a GET of the cursor, or
    /// `NoNextPage` when there is none.
    pub open spec fn continuation(&self) -> Result<Seq<char>, DataverseError> {
        match self.cursor() {
            Some(c) => Ok(c),
            None => Err(DataverseError::NoNextPage),
        }
    }

    pub fn new(entities: Vec<E>, next_link: Option<String>) -> (r: Self)
        ensures
            r.records() == entities@,
            r.cursor() == opt_view(next_link),
    {
        Page { entities, next_link }
    }

    /// Whether the server holds more records than this page.
    pub fn is_incomplete(&self) -> (r: bool)
        ensures
            r == self.incomplete(),
    {
        self.next_link.is_some()
    }

    pub fn into_inner(self) -> (r: Vec<E>)
        ensures
            r@ == self.records(),
    {
        self.entities
    }
}

impl Endpoint {
    /// The call that fetches the page after `page`: a GET of its cursor,
    /// verbatim; fails with `NoNextPage` when the page has no cursor.
    pub fn next_page_request<E>(&self, page: &Page<E>) -> (r: Result<RequestPlan, DataverseError>)
        ensures
            match page.continuation() {
                Ok(u) => r matches Ok(p) && p.method == Method::Get && p.url@ == u
                    && p.header_list() == protocol_headers() && p.body is None,
                Err(e) => r == Err::<RequestPlan, DataverseError>(e),
            },
    {
        match &page.next_link {
            None => Err(DataverseError::NoNextPage),
            Some(link) => Ok(base_plan(Method::Get, link.clone())),
        }
    }
}

/// A page without a cursor is complete, and continuing from it fails with
/// `NoNextPage`.
pub proof fn lemma_page_without_cursor<E>(page: Page<E>)
    requires
        page.cursor() is None,
    ensures
        !page.incomplete(),
        page.continuation() == Err::<Seq<char>, DataverseError>(DataverseError::NoNextPage),
{
}

/// A page with a cursor is incomplete, and continuing from it requests the
/// cursor itself, unchanged.
pub proof fn lemma_page_with_cursor<E>(page: Page<E>, c: Seq<char>)
    requires
        page.cursor() == Some(c),
    ensures
        page.incomplete(),
        page.continuation() == Ok::<Seq<char>, DataverseError>(c),
{
}

} // verus!
