//! The settings the server is started with.

use crate::mcp::error::{McpServerError, McpServerErrorView};
use crate::text::{lowercase, lowercase_of, optional_text, owned, same_text};
use vstd::prelude::*;

verus! {

/// The settings of one server process. They are fixed once read.
pub struct Config {
    pub linkedin_access_token: String,
    pub linkedin_person_id: String,
    pub server_address: String,
    pub debug_mode: bool,
}

/// What a `Config` holds.
pub struct ConfigView {
    pub linkedin_access_token: Seq<char>,
    pub linkedin_person_id: Seq<char>,
    pub server_address: Seq<char>,
    pub debug_mode: bool,
}

impl View for Config {
    type V = ConfigView;

    open spec fn view(&self) -> ConfigView {
        ConfigView {
            linkedin_access_token: self.linkedin_access_token@,
            linkedin_person_id: self.linkedin_person_id@,
            server_address: self.server_address@,
            debug_mode: self.debug_mode,
        }
    }
}

/// The settings that the given values amount to. `debug_lowered` is the debug
/// switch as it was set, in lower case.
///
/// The access token and the member's identifier are required, the token being
/// asked for first. The address defaults to `0.0.0.0:3000`. Simulation is on
/// exactly when the switch, in lower case, reads `true`.
pub open spec fn settings(
    access_token: Option<Seq<char>>,
    person_id: Option<Seq<char>>,
    server_address: Option<Seq<char>>,
    debug_lowered: Option<Seq<char>>,
) -> Result<ConfigView, McpServerErrorView> {
    if access_token is None {
        Err(
            McpServerErrorView::ConfigError(
                "LINKEDIN_ACCESS_TOKEN environment variable not set"@,
            ),
        )
    } else if person_id is None {
        Err(McpServerErrorView::ConfigError("LINKEDIN_PERSON_ID environment variable not set"@))
    } else {
        Ok(
            ConfigView {
                linkedin_access_token: access_token->0,
                linkedin_person_id: person_id->0,
                server_address: match server_address {
                    Some(address) => address,
                    None => "0.0.0.0:3000"@,
                },
                debug_mode: debug_lowered == Some("true"@),
            },
        )
    }
}

/// The debug switch in lower case, where it is set.
pub open spec fn lowered(debug_mode: Option<Seq<char>>) -> Option<Seq<char>> {
    match debug_mode {
        Some(switch) => Some(lowercase_of(switch)),
        None => None,
    }
}

/// The view of a result of building a `Config`.
pub open spec fn config_result(result: Result<Config, McpServerError>) -> Result<
    ConfigView,
    McpServerErrorView,
> {
    match result {
        Ok(config) => Ok(config@),
        Err(error) => Err(error@),
    }
}

impl Config {
    /// Builds the settings from the values found under `LINKEDIN_ACCESS_TOKEN`,
    /// `LINKEDIN_PERSON_ID`, `SERVER_ADDRESS` and `DEBUG_MODE`, each `None` where
    /// nothing is set.
    pub fn new(
        access_token: Option<String>,
        person_id: Option<String>,
        server_address: Option<String>,
        debug_mode: Option<String>,
    ) -> (result: Result<Config, McpServerError>)
        ensures
            config_result(result) == settings(
                optional_text(access_token),
                optional_text(person_id),
                optional_text(server_address),
                lowered(optional_text(debug_mode)),
            ),
    {
        let debug_lowered = match debug_mode {
            Some(switch) => Some(lowercase(switch.as_str())),
            None => None,
        };
        Config::assemble(access_token, person_id, server_address, debug_lowered)
    }

    /// Builds the settings from the same values as `new`, with the debug switch
    /// already in lower case.
    pub fn assemble(
        access_token: Option<String>,
        person_id: Option<String>,
        server_address: Option<String>,
        debug_lowered: Option<String>,
    ) -> (result: Result<Config, McpServerError>)
        ensures
            config_result(result) == settings(
                optional_text(access_token),
                optional_text(person_id),
                optional_text(server_address),
                optional_text(debug_lowered),
            ),
    {
        let linkedin_access_token = match access_token {
            Some(token) => token,
            None => {
                return Err(
                    McpServerError::ConfigError(
                        owned("LINKEDIN_ACCESS_TOKEN environment variable not set"),
                    ),
                );
            },
        };
        let linkedin_person_id = match person_id {
            Some(id) => id,
            None => {
                return Err(
                    McpServerError::ConfigError(
                        owned("LINKEDIN_PERSON_ID environment variable not set"),
                    ),
                );
            },
        };
        let server_address = match server_address {
            Some(address) => address,
            None => owned("0.0.0.0:3000"),
        };
        let debug_mode = match debug_lowered {
            Some(switch) => same_text(switch.as_str(), "true"),
            None => false,
        };
        Ok(Config { linkedin_access_token, linkedin_person_id, server_address, debug_mode })
    }
}

} // verus!
