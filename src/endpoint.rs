use vstd::prelude::*;

verus! {

/// Paths of the server's API that this library calls.
pub struct Endpoint;

impl Endpoint {
    /// Root of the API, replacing whatever path the server address had.
    pub const BASE_API: &'static str = "/api/v1/";
    pub const FETCH_API_KEY: &'static str = "fetch_api_key";
    pub const FETCH_DEV_API_KEY: &'static str = "dev_fetch_api_key";
    pub const REGISTER_EVENT_QUEUE: &'static str = "register";
    pub const EVENTS_QUEUE: &'static str = "events";
}

} // verus!
