use dataverse_client::{
    token_is_usable, MIN_TOKEN_VALIDITY_SECS,
    extract_identifier, find_uuid, interpret_created, interpret_empty, interpret_payload,
    server_error, DataverseError, EntityId, FALLBACK_MESSAGE, NO_IDENTIFIER_MESSAGE,
};

const ID: u128 = 0xa1a2a3a4b1b2c1c2d1d2d3d4d5d6d7d8;

fn no_identifier() -> DataverseError {
    DataverseError::ProtocolViolation { message: String::from(NO_IDENTIFIER_MESSAGE) }
}

#[test]
fn identifier_inside_surrounding_text() {
    let header = "https://org.example.com/api/data/v9.2/contacts(a1a2a3a4-b1b2-c1c2-d1d2-d3d4d5d6d7d8)";
    assert_eq!(extract_identifier(Some(header)), Ok(EntityId::from_u128(ID)));
}

#[test]
fn identifier_in_upper_case() {
    let header = "x(A1A2A3A4-B1B2-C1C2-D1D2-D3D4D5D6D7D8)y";
    assert_eq!(extract_identifier(Some(header)), Ok(EntityId::from_u128(ID)));
}

#[test]
fn leftmost_identifier_wins() {
    let header = "00000000-0000-0000-0000-000000000001 and a1a2a3a4-b1b2-c1c2-d1d2-d3d4d5d6d7d8";
    assert_eq!(extract_identifier(Some(header)), Ok(EntityId::from_u128(1)));
    assert_eq!(find_uuid(header), Some(0));
}

#[test]
fn identifier_after_near_miss() {
    let header = "a1a2a3a4-b1b2-c1c2-d1d2-d3d4d5d6d7dg/00000000-0000-0000-0000-00000000002a";
    assert_eq!(extract_identifier(Some(header)), Ok(EntityId::from_u128(0x2a)));
    assert_eq!(find_uuid(header), Some(37));
}

#[test]
fn header_without_identifier_is_protocol_violation() {
    assert_eq!(extract_identifier(Some("contacts(not-an-id)")), Err(no_identifier()));
    assert_eq!(extract_identifier(Some("a1a2a3a4b1b2c1c2d1d2d3d4d5d6d7d8")), Err(no_identifier()));
    assert_eq!(extract_identifier(Some("")), Err(no_identifier()));
}

#[test]
fn missing_header_is_protocol_violation() {
    assert_eq!(extract_identifier(None), Err(no_identifier()));
}

#[test]
fn client_error_carries_body() {
    assert_eq!(
        interpret_empty(404, Some(String::from("not found"))),
        Err(DataverseError::Server { message: String::from("not found") })
    );
}

#[test]
fn server_error_without_body_uses_fallback() {
    assert_eq!(
        interpret_empty(500, None),
        Err(DataverseError::Server { message: String::from(FALLBACK_MESSAGE) })
    );
    assert_eq!(FALLBACK_MESSAGE, "no error details provided from server");
}

#[test]
fn status_boundaries() {
    assert_eq!(interpret_empty(200, None), Ok(()));
    assert_eq!(interpret_empty(204, None), Ok(()));
    assert_eq!(interpret_empty(399, None), Ok(()));
    assert!(interpret_empty(400, None).is_err());
    assert!(interpret_empty(599, None).is_err());
    assert_eq!(interpret_empty(600, None), Ok(()));
}

#[test]
fn failure_status_for_every_interpreter() {
    let expected = DataverseError::Server { message: String::from("boom") };
    assert_eq!(interpret_empty(409, Some(String::from("boom"))), Err(expected.clone()));
    assert_eq!(
        interpret_created(409, Some(String::from("boom")), Some("a1a2a3a4-b1b2-c1c2-d1d2-d3d4d5d6d7d8")),
        Err(expected.clone())
    );
    assert_eq!(
        interpret_payload::<u32>(409, Some(String::from("boom")), Ok(7)),
        Err(expected.clone())
    );
    assert_eq!(server_error(Some(String::from("boom"))), expected);
}

#[test]
fn created_reads_identifier_header() {
    let header = "https://org.example.com/api/data/v9.2/contacts(a1a2a3a4-b1b2-c1c2-d1d2-d3d4d5d6d7d8)";
    assert_eq!(interpret_created(204, None, Some(header)), Ok(EntityId::from_u128(ID)));
    assert_eq!(interpret_created(204, None, None), Err(no_identifier()));
}

#[test]
fn payload_passes_through_on_success() {
    assert_eq!(interpret_payload::<u32>(200, None, Ok(7)), Ok(7));
    let decoding = DataverseError::Decoding { message: String::from("bad json") };
    assert_eq!(interpret_payload::<u32>(200, None, Err(decoding.clone())), Err(decoding));
}

#[test]
fn error_messages() {
    assert_eq!(DataverseError::Server { message: String::from("m") }.message(), "m");
    assert_eq!(DataverseError::NoNextPage.message(), "");
}

#[test]
fn token_freshness_threshold() {
    assert_eq!(MIN_TOKEN_VALIDITY_SECS, 120);
    assert!(!token_is_usable(0));
    assert!(!token_is_usable(119));
    assert!(token_is_usable(120));
    assert!(token_is_usable(3600));
}
