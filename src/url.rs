use vstd::prelude::*;

use crate::id::{hyphenated_form, EntityId};

verus! {

/// Version of the service's web API that every URL addresses.
pub const VERSION: &'static str = "9.2";

/// Columns joined by commas, in the given order, repeats kept.
pub open spec fn joined(cols: Seq<Seq<char>>) -> Seq<char>
    decreases cols.len(),
{
    if cols.len() == 0 {
        Seq::empty()
    } else if cols.len() == 1 {
        cols[0]
    } else {
        joined(cols.drop_last()) + seq![','] + cols.last()
    }
}

pub open spec fn column_views(cols: Seq<&str>) -> Seq<Seq<char>> {
    cols.map_values(|c: &str| c@)
}

/// `{base}/api/data/v{VERSION}/`, with no doubled slash when `base` already
/// ends in one.
pub open spec fn api_root(base: Seq<char>) -> Seq<char> {
    if base.len() > 0 && base.last() == '/' {
        base + "api/data/v"@ + VERSION@ + "/"@
    } else {
        base + "/api/data/v"@ + VERSION@ + "/"@
    }
}

pub open spec fn simple_url(base: Seq<char>, collection: Seq<char>) -> Seq<char> {
    api_root(base) + collection
}

pub open spec fn targeted_url(base: Seq<char>, collection: Seq<char>, id: u128) -> Seq<char> {
    simple_url(base, collection) + "("@ + hyphenated_form(id) + ")"@
}

pub open spec fn retrieve_url(
    base: Seq<char>,
    collection: Seq<char>,
    id: u128,
    cols: Seq<Seq<char>>,
) -> Seq<char> {
    targeted_url(base, collection, id) + "?$select="@ + joined(cols)
}

pub open spec fn query_url(base: Seq<char>, query: Seq<char>, cols: Seq<Seq<char>>) -> Seq<char> {
    api_root(base) + query + "&$select="@ + joined(cols)
}

/// Joins column names with commas, keeping their order and any repeats.
pub fn join_columns(columns: &[&str]) -> (r: String)
    ensures
        r@ == joined(column_views(columns@)),
{
    let mut select = String::new();
    let mut i: usize = 0;
    while i < columns.len()
        invariant
            i <= columns@.len(),
            select@ == joined(column_views(columns@.subrange(0, i as int))),
        decreases columns@.len() - i,
    {
        let ghost prev = columns@.subrange(0, i as int);
        let ghost next = columns@.subrange(0, i + 1);
        assert(next.drop_last() =~= prev);
        assert(column_views(next).drop_last() =~= column_views(prev));
        if i > 0 {
            select.append(",");
        }
        select.append(columns[i]);
        proof {
            reveal_strlit(",");
        }
        assert(select@ =~= joined(column_views(next)));
        i += 1;
    }
    assert(columns@.subrange(0, columns@.len() as int) =~= columns@);
    select
}

/// The address of a service instance; builds every URL the protocol uses.
#[derive(Debug, Clone)]
pub struct Endpoint {
    pub url: String,
}

impl Endpoint {
    pub fn new(url: String) -> (r: Endpoint)
        ensures
            r.url@ == url@,
    {
        Endpoint { url }
    }

    fn api_root(&self) -> (r: String)
        ensures
            r@ == api_root(self.url@),
    {
        let mut root = self.url.clone();
        let n = self.url.as_str().unicode_len();
        if n > 0 && self.url.as_str().get_char(n - 1) == '/' {
            root.append("api/data/v");
        } else {
            root.append("/api/data/v");
        }
        root.append(VERSION);
        root.append("/");
        root
    }

    /// `{base}/api/data/v{VERSION}/{collection}`.
    pub fn build_simple_url(&self, collection: &str) -> (r: String)
        ensures
            r@ == simple_url(self.url@, collection@),
    {
        let mut u = self.api_root();
        u.append(collection);
        u
    }

    /// The simple URL followed by `({id})`, the identifier hyphenated.
    pub fn build_targeted_url(&self, collection: &str, id: EntityId) -> (r: String)
        ensures
            r@ == targeted_url(self.url@, collection@, id.value),
    {
        let mut u = self.build_simple_url(collection);
        u.append("(");
        let h = id.to_hyphenated();
        u.append(h.as_str());
        u.append(")");
        u
    }

    /// The targeted URL followed by `?$select=` and the joined columns.
    pub fn build_retrieve_url(&self, collection: &str, id: EntityId, columns: &[&str]) -> (r:
        String)
        ensures
            r@ == retrieve_url(self.url@, collection@, id.value, column_views(columns@)),
    {
        let mut u = self.build_targeted_url(collection, id);
        u.append("?$select=");
        let select = join_columns(columns);
        u.append(select.as_str());
        u
    }

    /// The API root followed by a rendered query fragment, `&$select=` and
    /// the joined columns.
    pub fn build_query_url(&self, columns: &[&str], query: &str) -> (r: String)
        ensures
            r@ == query_url(self.url@, query@, column_views(columns@)),
    {
        let mut u = self.api_root();
        u.append(query);
        u.append("&$select=");
        let select = join_columns(columns);
        u.append(select.as_str());
        u
    }
}

} // verus!
