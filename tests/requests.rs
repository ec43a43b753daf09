use dataverse_client::{
    DataverseError, EntityId, Endpoint, Header, MergeRequest, Method, Page, Reference,
    RequestPlan,
};

const ID: u128 = 0xa1a2a3a4b1b2c1c2d1d2d3d4d5d6d7d8;

fn endpoint() -> Endpoint {
    Endpoint::new(String::from("https://org.example.com/"))
}

fn reference() -> Reference {
    Reference::new(String::from("contacts"), EntityId::from_u128(ID))
}

fn pairs(plan: &RequestPlan) -> Vec<(String, String)> {
    plan.headers.iter().map(|h: &Header| (h.name.clone(), h.value.clone())).collect()
}

fn expected(extra: &[(&str, &str)]) -> Vec<(String, String)> {
    let mut v = vec![
        (String::from("OData-MaxVersion"), String::from("4.0")),
        (String::from("OData-Version"), String::from("4.0")),
        (String::from("Accept"), String::from("application/json")),
    ];
    for (n, val) in extra {
        v.push((n.to_string(), val.to_string()));
    }
    v
}

const TARGET: &str =
    "https://org.example.com/api/data/v9.2/contacts(a1a2a3a4-b1b2-c1c2-d1d2-d3d4d5d6d7d8)";

#[test]
fn create_posts_json_to_collection() {
    let plan = endpoint().create_request(&reference(), b"{}".to_vec());
    assert_eq!(plan.method, Method::Post);
    assert_eq!(plan.url, "https://org.example.com/api/data/v9.2/contacts");
    assert_eq!(pairs(&plan), expected(&[("Content-Type", "application/json")]));
    assert_eq!(plan.body, Some(b"{}".to_vec()));
}

#[test]
fn update_overwrites_unconditionally() {
    let plan = endpoint().update_request(&reference(), b"{\"a\":1}".to_vec());
    assert_eq!(plan.method, Method::Patch);
    assert_eq!(plan.url, TARGET);
    assert_eq!(
        pairs(&plan),
        expected(&[("Content-Type", "application/json"), ("If-Match", "*")])
    );
    assert_eq!(plan.body, Some(b"{\"a\":1}".to_vec()));
}

#[test]
fn upsert_omits_overwrite_assertion() {
    let plan = endpoint().upsert_request(&reference(), b"{}".to_vec());
    assert_eq!(plan.method, Method::Patch);
    assert_eq!(plan.url, TARGET);
    assert_eq!(pairs(&plan), expected(&[("Content-Type", "application/json")]));
}

#[test]
fn delete_has_no_body() {
    let plan = endpoint().delete_request(&reference());
    assert_eq!(plan.method, Method::Delete);
    assert_eq!(plan.url, TARGET);
    assert_eq!(pairs(&plan), expected(&[]));
    assert_eq!(plan.body, None);
}

#[test]
fn retrieve_projects_columns() {
    let plan = endpoint().retrieve_request(&reference(), &["fullname", "telephone1"]);
    assert_eq!(plan.method, Method::Get);
    assert_eq!(plan.url, format!("{}?$select=fullname,telephone1", TARGET));
    assert_eq!(plan.body, None);
}

#[test]
fn retrieve_multiple_uses_query_fragment() {
    let plan = endpoint().retrieve_multiple_request(&["fullname"], "contacts?$top=10");
    assert_eq!(plan.method, Method::Get);
    assert_eq!(
        plan.url,
        "https://org.example.com/api/data/v9.2/contacts?$top=10&$select=fullname"
    );
}

#[test]
fn execute_posts_batch_envelope() {
    let plan = endpoint().execute_request("42", b"--batch_42--".to_vec());
    assert_eq!(plan.method, Method::Post);
    assert_eq!(plan.url, "https://org.example.com/api/data/v9.2/$batch");
    assert_eq!(
        pairs(&plan),
        expected(&[("Content-Type", "multipart/mixed; boundary=batch_42")])
    );
    assert_eq!(plan.body, Some(b"--batch_42--".to_vec()));
}

#[test]
fn merge_accepts_any_entity_name() {
    let request = MergeRequest::new("no_such_kind", EntityId::from_u128(1), EntityId::from_u128(2), false);
    assert_eq!(request.entity_name, "no_such_kind");
    assert_eq!(request.target, EntityId::from_u128(1));
    assert_eq!(request.subordinate, EntityId::from_u128(2));
    assert!(!request.cascade);
    let plan = endpoint().merge_request(b"{}".to_vec());
    assert_eq!(plan.method, Method::Post);
    assert_eq!(plan.url, "https://org.example.com/api/data/v9.2/Merge");
    assert_eq!(pairs(&plan), expected(&[("Content-Type", "application/json")]));
}

#[test]
fn authorize_adds_bearer_token() {
    let plan = endpoint().delete_request(&reference()).authorize("tok");
    assert_eq!(plan.method, Method::Delete);
    assert_eq!(plan.url, TARGET);
    assert_eq!(pairs(&plan), expected(&[("Authorization", "Bearer tok")]));
}

#[test]
fn page_without_cursor_is_complete() {
    let page: Page<u32> = Page::new(vec![1, 2], None);
    assert!(!page.is_incomplete());
    assert_eq!(endpoint().next_page_request(&page).err(), Some(DataverseError::NoNextPage));
    assert_eq!(page.into_inner(), vec![1, 2]);
}

#[test]
fn page_with_cursor_continues_verbatim() {
    let cursor = "https://org.example.com/api/data/v9.2/contacts?$skiptoken=%3Ccookie%20pagenumber=%222%22/%3E";
    let page: Page<u32> = Page::new(vec![1], Some(String::from(cursor)));
    assert!(page.is_incomplete());
    let plan = endpoint().next_page_request(&page).ok().unwrap();
    assert_eq!(plan.method, Method::Get);
    assert_eq!(plan.url, cursor);
    assert_eq!(pairs(&plan), expected(&[]));
    assert_eq!(plan.body, None);
}

#[test]
fn empty_page() {
    let page: Page<u32> = Page::new(Vec::new(), None);
    assert!(!page.is_incomplete());
    assert!(page.entities.is_empty());
}
