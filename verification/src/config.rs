use vstd::prelude::*;

verus! {

/// Why a configuration value was rejected.
#[derive(Clone, Copy, Debug, PartialEq, Eq)]
pub enum ConfigError {
    /// The application identifier must be a non-zero integer.
    ZeroApplicationId,
}

/// Startup configuration: the numeric application identifier and the bot token.
/// Created once at startup and immutable for the life of the process.
#[derive(Clone, Debug, PartialEq, Eq)]
pub struct Config {
    pub application_id: u64,
    pub token: String,
}

impl Config {
    /// A configuration is well formed when its application identifier is non-zero.
    pub open spec fn wf(self) -> bool {
        self.application_id != 0
    }

    /// Builds a configuration, rejecting a zero application identifier.
    pub fn new(application_id: u64, token: String) -> (r: Result<Config, ConfigError>)
        ensures
            r is Ok <==> application_id != 0,
            r matches Ok(c) ==> c.wf() && c.application_id == application_id && c.token@ == token@,
            r matches Err(e) ==> e == ConfigError::ZeroApplicationId,
    {
        if application_id == 0 {
            Err(ConfigError::ZeroApplicationId)
        } else {
            Ok(Config { application_id, token })
        }
    }
}

} // verus!
