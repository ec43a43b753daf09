//! Request/response core of a client for an OData-style record service:
//! URL construction, request planning, response classification, identifier
//! extraction and continuation paging.
pub mod error;
pub mod id;
pub mod url;
pub mod request;
pub mod page;
pub mod response;

pub use error::{DataverseError, FALLBACK_MESSAGE, NO_IDENTIFIER_MESSAGE};
pub use id::{extract_identifier, find_uuid, EntityId};
pub use page::Page;
pub use request::{Header, MergeRequest, Method, Reference, RequestPlan};
pub use response::{interpret_created, interpret_empty, interpret_payload, is_failure, server_error};
pub use token::{token_is_usable, MIN_TOKEN_VALIDITY_SECS};
pub use url::{join_columns, Endpoint, VERSION};
pub mod token;
