//! Whether the library server is there.

use vstd::prelude::*;
use vstd::string::*;
use crate::abs_client::{AbsClient, StatusResponse};
use crate::text::glue;

verus! {

/// Tells whether the library server is there.
pub struct HealthService<'a> {
    pub client: &'a AbsClient,
}

/// The text of an optional string; empty where there is none.
pub open spec fn text_or_default(value: Option<String>) -> Seq<char> {
    match value {
        Some(text) => text@,
        None => Seq::empty(),
    }
}

/// The line that tells the status of the library server.
pub open spec fn status_line(status: Result<StatusResponse, String>) -> Seq<char> {
    match status {
        Ok(s) => "ABS app="@ + text_or_default(s.app) + " version="@ + text_or_default(
            s.server_version,
        ),
        Err(e) => "error: "@ + e@,
    }
}

impl<'a> HealthService<'a> {
    /// The service on top of `client`.
    pub fn new(client: &'a AbsClient) -> (r: Self)
        ensures
            r.client == client,
    {
        Self { client }
    }

    /// The line that tells what the library server answered: its name and
    /// version, or the error.
    pub fn status_text(&self, status: Result<StatusResponse, String>) -> (r: String)
        ensures
            r@ == status_line(status),
    {
        match status {
            Ok(s) => {
                let mut line = String::from_str("ABS app=");
                match &s.app {
                    Some(app) => line.append(app.as_str()),
                    None => {},
                }
                line.append(" version=");
                match &s.server_version {
                    Some(version) => line.append(version.as_str()),
                    None => {},
                }
                assert(line@ =~= status_line(status));
                line
            },
            Err(e) => glue("error: ", e.as_str()),
        }
    }
}

} // verus!
