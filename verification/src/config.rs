//! The settings of the program.

use vstd::prelude::*;
use vstd::string::*;
use crate::ident::{uuid_parse, uuid_parsed};
use crate::text::glue;

verus! {

/// The settings: where the library server is and how to open it, the tool
/// that converts books, the database, and the library that is synced.
#[derive(Debug, Clone, PartialEq)]
pub struct Config {
    pub abs_api_key: String,
    pub abs_base_url: String,
    pub kepubify_path: String,
    pub db_connection_string: String,
    pub library_id: u128,
}

/// The converter that is used where none is named.
pub const DEFAULT_KEPUBIFY_PATH: &'static str = "kepubify";

/// The database that is used where none is named.
pub const DEFAULT_DB_CONNECTION_STRING: &'static str = "sqlite://db.sqlite?mode=rwc";

/// The text of a setting: `fallback` where it is not set.
pub open spec fn setting_or(value: Option<String>, fallback: Seq<char>) -> Seq<char> {
    match value {
        Some(text) => text@,
        None => fallback,
    }
}

/// Why a configuration is refused.
pub open spec fn validation_error(config: Config) -> Option<Seq<char>> {
    if config.abs_api_key@.len() == 0 {
        Some("ABS_API_KEY is missing"@)
    } else if config.abs_base_url@.len() == 0 {
        Some("ABS_BASE_URL is missing"@)
    } else {
        None
    }
}

/// A setting, or `fallback` where it is not set.
fn value_or(value: Option<String>, fallback: &str) -> (r: String)
    ensures
        r@ == setting_or(value, fallback@),
{
    match value {
        Some(text) => text,
        None => fallback.to_string(),
    }
}

impl Config {
    /// The configuration that the given settings make. A setting that is not
    /// set is empty, but for the converter and the database, which have
    /// defaults. The library has to be named by an identifier; otherwise the
    /// settings are refused with `Invalid LIBRARY_ID: ` and what was given.
    pub fn from_values(
        abs_api_key: Option<String>,
        abs_base_url: Option<String>,
        kepubify_path: Option<String>,
        db_connection_string: Option<String>,
        library_id: Option<String>,
    ) -> (r: Result<Config, String>)
        ensures
            match r {
                Ok(config) => {
                    &&& uuid_parsed(setting_or(library_id, Seq::<char>::empty())) == Some(
                        config.library_id,
                    )
                    &&& config.abs_api_key@ == setting_or(abs_api_key, Seq::<char>::empty())
                    &&& config.abs_base_url@ == setting_or(abs_base_url, Seq::<char>::empty())
                    &&& config.kepubify_path@ == setting_or(kepubify_path, "kepubify"@)
                    &&& config.db_connection_string@ == setting_or(
                        db_connection_string,
                        "sqlite://db.sqlite?mode=rwc"@,
                    )
                },
                Err(message) => {
                    &&& uuid_parsed(setting_or(library_id, Seq::<char>::empty())) is None
                    &&& message@ == "Invalid LIBRARY_ID: "@ + setting_or(
                        library_id,
                        Seq::<char>::empty(),
                    )
                },
            },
    {
        let library = value_or(library_id, "");
        proof {
            reveal_strlit("");
            assert(""@ =~= Seq::<char>::empty());
        }
        match uuid_parse(library.as_str()) {
            Some(id) => Ok(
                Config {
                    abs_api_key: value_or(abs_api_key, ""),
                    abs_base_url: value_or(abs_base_url, ""),
                    kepubify_path: value_or(kepubify_path, "kepubify"),
                    db_connection_string: value_or(
                        db_connection_string,
                        "sqlite://db.sqlite?mode=rwc",
                    ),
                    library_id: id,
                },
            ),
            None => Err(glue("Invalid LIBRARY_ID: ", library.as_str())),
        }
    }

    /// Whether the configuration can be used: it has to name the key of the
    /// library server and its address.
    pub fn validate(&self) -> (r: Result<(), String>)
        ensures
            match r {
                Ok(_) => validation_error(*self) is None,
                Err(message) => validation_error(*self) == Some(message@),
            },
    {
        if self.abs_api_key.as_str().unicode_len() == 0 {
            return Err(String::from_str("ABS_API_KEY is missing"));
        }
        if self.abs_base_url.as_str().unicode_len() == 0 {
            return Err(String::from_str("ABS_BASE_URL is missing"));
        }
        Ok(())
    }
}

} // verus!
