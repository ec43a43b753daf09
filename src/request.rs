use vstd::prelude::*;

use crate::id::EntityId;
use crate::url::{column_views, query_url, retrieve_url, simple_url, targeted_url, Endpoint};

verus! {

/// Minimal identity of one record: its collection and its identifier.
#[derive(Debug, Clone)]
pub struct Reference {
    pub entity_name: String,
    pub entity_id: EntityId,
}

impl Reference {
    pub fn new(entity_name: String, entity_id: EntityId) -> (r: Reference)
        ensures
            r.entity_name@ == entity_name@,
            r.entity_id == entity_id,
    {
        Reference { entity_name, entity_id }
    }
}

/// Payload of a merge: `subordinate` is folded into `target` and deactivated.
#[derive(Debug, Clone)]
pub struct MergeRequest {
    pub entity_name: String,
    pub target: EntityId,
    pub subordinate: EntityId,
    pub cascade: bool,
}

impl MergeRequest {
    pub fn new(entity_name: &str, target: EntityId, subordinate: EntityId, cascade: bool) -> (r:
        MergeRequest)
        ensures
            r.entity_name@ == entity_name@,
            r.target == target,
            r.subordinate == subordinate,
            r.cascade == cascade,
    {
        MergeRequest { entity_name: String::from_str(entity_name), target, subordinate, cascade }
    }
}

#[derive(Debug, Clone, Copy, PartialEq, Eq, Structural)]
pub enum Method {
    Get,
    Post,
    Patch,
    Delete,
}

#[derive(Debug, Clone)]
pub struct Header {
    pub name: String,
    pub value: String,
}

pub open spec fn header_views(hs: Seq<Header>) -> Seq<(Seq<char>, Seq<char>)> {
    hs.map_values(|h: Header| (h.name@, h.value@))
}

/// One HTTP call, fully decided: what a transport has to send.
#[derive(Debug, Clone)]
pub struct RequestPlan {
    pub method: Method,
    pub url: String,
    pub headers: Vec<Header>,
    pub body: Option<Vec<u8>>,
}

impl RequestPlan {
    pub open spec fn header_list(&self) -> Seq<(Seq<char>, Seq<char>)> {
        header_views(self.headers@)
    }

    pub open spec fn body_bytes(&self) -> Option<Seq<u8>> {
        match self.body {
            Some(b) => Some(b@),
            None => None,
        }
    }
}

/// Headers carried by every call: the two protocol-version markers and the
/// JSON accept header.
pub open spec fn protocol_headers() -> Seq<(Seq<char>, Seq<char>)> {
    seq![
        ("OData-MaxVersion"@, "4.0"@),
        ("OData-Version"@, "4.0"@),
        ("Accept"@, "application/json"@),
    ]
}

pub open spec fn json_content() -> (Seq<char>, Seq<char>) {
    ("Content-Type"@, "application/json"@)
}

/// Asks the server to overwrite whatever version of the record it holds.
pub open spec fn overwrite_assertion() -> (Seq<char>, Seq<char>) {
    ("If-Match"@, "*"@)
}

pub open spec fn batch_content(batch_id: Seq<char>) -> (Seq<char>, Seq<char>) {
    ("Content-Type"@, "multipart/mixed; boundary=batch_"@ + batch_id)
}

pub open spec fn bearer(token: Seq<char>) -> (Seq<char>, Seq<char>) {
    ("Authorization"@, "Bearer "@ + token)
}

fn push_header(hs: &mut Vec<Header>, name: &str, value: &str)
    ensures
        header_views(final(hs)@) == header_views(old(hs)@).push((name@, value@)),
{
    let ghost before = hs@;
    hs.push(Header { name: String::from_str(name), value: String::from_str(value) });
    assert(header_views(hs@) =~= header_views(before).push((name@, value@)));
}

fn protocol_header_vec() -> (r: Vec<Header>)
    ensures
        header_views(r@) == protocol_headers(),
{
    let mut hs: Vec<Header> = Vec::new();
    assert(header_views(hs@) =~= Seq::empty());
    push_header(&mut hs, "OData-MaxVersion", "4.0");
    push_header(&mut hs, "OData-Version", "4.0");
    push_header(&mut hs, "Accept", "application/json");
    assert(header_views(hs@) =~= protocol_headers());
    hs
}

/// The plan shared by all calls: method, URL and the protocol headers.
pub(crate) fn base_plan(method: Method, url: String) -> (r: RequestPlan)
    ensures
        r.method == method,
        r.url@ == url@,
        r.header_list() == protocol_headers(),
        r.body is None,
{
    RequestPlan { method, url, headers: protocol_header_vec(), body: None }
}

impl RequestPlan {
    /// Adds the bearer authorization header for `token`; nothing else changes.
    pub fn authorize(self, token: &str) -> (r: RequestPlan)
        ensures
            r.method == self.method,
            r.url@ == self.url@,
            r.header_list() == self.header_list().push(bearer(token@)),
            r.body_bytes() == self.body_bytes(),
    {
        let mut hs = self.headers;
        let mut value = String::from_str("Bearer ");
        value.append(token);
        let ghost before = hs@;
        hs.push(Header { name: String::from_str("Authorization"), value });
        assert(header_views(hs@) =~= header_views(before).push(bearer(token@)));
        RequestPlan { method: self.method, url: self.url, headers: hs, body: self.body }
    }
}

impl Endpoint {
    /// POST of an encoded entity to its collection.
    pub fn create_request(&self, reference: &Reference, body: Vec<u8>) -> (r: RequestPlan)
        ensures
            r.method == Method::Post,
            r.url@ == simple_url(self.url@, reference.entity_name@),
            r.header_list() == protocol_headers().push(json_content()),
            r.body_bytes() == Some(body@),
    {
        let url = self.build_simple_url(reference.entity_name.as_str());
        let mut plan = base_plan(Method::Post, url);
        push_header(&mut plan.headers, "Content-Type", "application/json");
        plan.body = Some(body);
        plan
    }

    /// PATCH of an encoded entity onto its record, overwriting unconditionally.
    pub fn update_request(&self, reference: &Reference, body: Vec<u8>) -> (r: RequestPlan)
        ensures
            r.method == Method::Patch,
            r.url@ == targeted_url(self.url@, reference.entity_name@, reference.entity_id.value),
            r.header_list() == protocol_headers().push(json_content()).push(overwrite_assertion()),
            r.body_bytes() == Some(body@),
    {
        let url = self.build_targeted_url(reference.entity_name.as_str(), reference.entity_id);
        let mut plan = base_plan(Method::Patch, url);
        push_header(&mut plan.headers, "Content-Type", "application/json");
        push_header(&mut plan.headers, "If-Match", "*");
        plan.body = Some(body);
        plan
    }

    /// PATCH of an encoded entity onto its record, creating it when absent.
    pub fn upsert_request(&self, reference: &Reference, body: Vec<u8>) -> (r: RequestPlan)
        ensures
            r.method == Method::Patch,
            r.url@ == targeted_url(self.url@, reference.entity_name@, reference.entity_id.value),
            r.header_list() == protocol_headers().push(json_content()),
            r.body_bytes() == Some(body@),
    {
        let url = self.build_targeted_url(reference.entity_name.as_str(), reference.entity_id);
        let mut plan = base_plan(Method::Patch, url);
        push_header(&mut plan.headers, "Content-Type", "application/json");
        plan.body = Some(body);
        plan
    }

    /// DELETE of one record, with no body.
    pub fn delete_request(&self, reference: &Reference) -> (r: RequestPlan)
        ensures
            r.method == Method::Delete,
            r.url@ == targeted_url(self.url@, reference.entity_name@, reference.entity_id.value),
            r.header_list() == protocol_headers(),
            r.body is None,
    {
        let url = self.build_targeted_url(reference.entity_name.as_str(), reference.entity_id);
        base_plan(Method::Delete, url)
    }

    /// GET of one record, projected on `columns`.
    pub fn retrieve_request(&self, reference: &Reference, columns: &[&str]) -> (r: RequestPlan)
        ensures
            r.method == Method::Get,
            r.url@ == retrieve_url(
                self.url@,
                reference.entity_name@,
                reference.entity_id.value,
                column_views(columns@),
            ),
            r.header_list() == protocol_headers(),
            r.body is None,
    {
        let url = self.build_retrieve_url(
            reference.entity_name.as_str(),
            reference.entity_id,
            columns,
        );
        base_plan(Method::Get, url)
    }

    /// GET of the records a rendered query selects, projected on `columns`.
    pub fn retrieve_multiple_request(&self, columns: &[&str], query: &str) -> (r: RequestPlan)
        ensures
            r.method == Method::Get,
            r.url@ == query_url(self.url@, query@, column_views(columns@)),
            r.header_list() == protocol_headers(),
            r.body is None,
    {
        let url = self.build_query_url(columns, query);
        base_plan(Method::Get, url)
    }

    /// POST of a pre-rendered batch envelope to the batch collection.
    pub fn execute_request(&self, batch_id: &str, envelope: Vec<u8>) -> (r: RequestPlan)
        ensures
            r.method == Method::Post,
            r.url@ == simple_url(self.url@, "$batch"@),
            r.header_list() == protocol_headers().push(batch_content(batch_id@)),
            r.body_bytes() == Some(envelope@),
    {
        let url = self.build_simple_url("$batch");
        let mut plan = base_plan(Method::Post, url);
        let mut value = String::from_str("multipart/mixed; boundary=batch_");
        value.append(batch_id);
        push_header(&mut plan.headers, "Content-Type", value.as_str());
        plan.body = Some(envelope);
        plan
    }

    /// POST of an encoded merge payload. Any entity name is accepted here;
    /// only the server decides which kinds can be merged.
    pub fn merge_request(&self, body: Vec<u8>) -> (r: RequestPlan)
        ensures
            r.method == Method::Post,
            r.url@ == simple_url(self.url@, "Merge"@),
            r.header_list() == protocol_headers().push(json_content()),
            r.body_bytes() == Some(body@),
    {
        let url = self.build_simple_url("Merge");
        let mut plan = base_plan(Method::Post, url);
        push_header(&mut plan.headers, "Content-Type", "application/json");
        plan.body = Some(body);
        plan
    }
}

} // verus!
