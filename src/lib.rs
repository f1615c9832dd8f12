//! Typed client library for the Geocodio geocoding web API.
//!
//! The library holds the response schema and the tolerant reading of it
//! from JSON, the address normaliser, and the construction of every request
//! the client sends (query strings, the credential parameter, and the batch
//! payload).
pub mod address;
pub mod congressional;
pub mod decode;
pub mod errors;
pub mod input;
pub mod json;
pub mod query;
pub mod types;

pub use address::AddressComponents;
pub use congressional::{
    Bio, CongressionalDistrict, CongressionalSocial, Contact, Legislator, References,
    StateLegislativeDistrict, StateLegislativeDistricts,
};
pub use errors::{api_key_from_env, Error};
pub use input::{AddressInput, AddressParams};
pub use json::JsonValue;
pub use query::{
    batch_payload, geocode_params, geocode_target, join_fields, request_query,
    request_target, RequestTarget,
};
pub use types::{
    CarrierRoute, FacilityCode, Fields, Input, RecordType, SchoolDistrict, SchoolDistricts,
    Timezone, Zip4,
};
