//! The service's configuration, built from the values of its environment.

use vstd::prelude::*;
use crate::errors::AppError;
use crate::numbers::{parse_i64, parse_u16, parse_u64, parsed_i64, parsed_unsigned};

verus! {

/// Port used when none is configured.
pub const DEFAULT_PORT: u16 = 8080;

/// Lifetime of an access token in minutes when none is configured.
pub const DEFAULT_ACCESS_TOKEN_MINUTES: i64 = 15;

/// Lifetime of a refresh token in days when none is configured.
pub const DEFAULT_REFRESH_TOKEN_DAYS: i64 = 7;

/// Largest upload in bytes when none is configured: 50 MB.
pub const DEFAULT_MAX_FILE_SIZE: usize = 52428800;

/// Application configuration.
#[derive(Clone, Debug, PartialEq, Eq)]
pub struct Config {
    /// Database connection URL
    pub database_url: String,
    /// Secret for signing tokens
    pub jwt_secret: String,
    /// Server host address
    pub host: String,
    /// Server port
    pub port: u16,
    /// Access token expiration time in minutes
    pub access_token_expires_in: i64,
    /// Refresh token expiration time in days
    pub refresh_token_expires_in: i64,
    /// Path to the recognition model file
    pub whisper_model_path: String,
    /// Maximum file size for uploads in bytes
    pub max_file_size: usize,
    /// Directory for scratch files
    pub temp_dir: String,
}

/// The environment's variables as read: each is set or not.
#[derive(Clone, Debug, PartialEq, Eq)]
pub struct Environment {
    pub database_url: Option<String>,
    pub jwt_secret: Option<String>,
    pub host: Option<String>,
    pub port: Option<String>,
    pub access_token_expires_in: Option<String>,
    pub refresh_token_expires_in: Option<String>,
    pub whisper_model_path: Option<String>,
    pub max_file_size: Option<String>,
    pub temp_dir: Option<String>,
}

/// The variables with the numbers read: a number that is set holds what
/// reading gave, which is nothing if the text is no number of its type.
#[derive(Clone, Debug, PartialEq, Eq)]
pub struct Settings {
    pub database_url: Option<String>,
    pub jwt_secret: Option<String>,
    pub host: Option<String>,
    pub port: Option<Option<u16>>,
    pub access_token_expires_in: Option<Option<i64>>,
    pub refresh_token_expires_in: Option<Option<i64>>,
    pub whisper_model_path: Option<String>,
    pub max_file_size: Option<Option<u64>>,
    pub temp_dir: Option<String>,
}

/// The error text for the first setting that is missing or no number, in the
/// order in which the settings are read; nothing if all are in order.
pub open spec fn first_fault(settings: Settings) -> Option<Seq<char>> {
    if settings.database_url.is_none() {
        Some("DATABASE_URL must be set"@)
    } else if settings.jwt_secret.is_none() {
        Some("JWT_SECRET must be set"@)
    } else if settings.port == Some(None::<u16>) {
        Some("PORT must be a valid number"@)
    } else if settings.access_token_expires_in == Some(None::<i64>) {
        Some("ACCESS_TOKEN_EXPIRES_IN must be a valid number"@)
    } else if settings.refresh_token_expires_in == Some(None::<i64>) {
        Some("REFRESH_TOKEN_EXPIRES_IN must be a valid number"@)
    } else if settings.whisper_model_path.is_none() {
        Some("WHISPER_MODEL_PATH must be set"@)
    } else if settings.max_file_size == Some(None::<u64>) || (settings.max_file_size matches Some(
        Some(n),
    ) && n > usize::MAX) {
        Some("MAX_FILE_SIZE must be a valid number"@)
    } else {
        None
    }
}

/// The configuration holds the settings, with the defaults where one is not set.
pub open spec fn holds_settings(config: Config, settings: Settings) -> bool {
    &&& settings.database_url == Some(config.database_url)
    &&& settings.jwt_secret == Some(config.jwt_secret)
    &&& match settings.host {
        Some(h) => config.host == h,
        None => config.host@ == "127.0.0.1"@,
    }
    &&& match settings.port {
        Some(p) => p == Some(config.port),
        None => config.port == 8080,
    }
    &&& match settings.access_token_expires_in {
        Some(m) => m == Some(config.access_token_expires_in),
        None => config.access_token_expires_in == 15,
    }
    &&& match settings.refresh_token_expires_in {
        Some(d) => d == Some(config.refresh_token_expires_in),
        None => config.refresh_token_expires_in == 7,
    }
    &&& settings.whisper_model_path == Some(config.whisper_model_path)
    &&& match settings.max_file_size {
        Some(Some(n)) => config.max_file_size == n,
        Some(None) => false,
        None => config.max_file_size == 52428800,
    }
    &&& match settings.temp_dir {
        Some(d) => config.temp_dir == d,
        None => config.temp_dir@ == "/tmp"@,
    }
}

/// What building a configuration from settings yields.
pub open spec fn builds(settings: Settings, built: Result<Config, AppError>) -> bool {
    match first_fault(settings) {
        Some(text) => built matches Err(AppError::ConfigError(m)) && m@ == text,
        None => built matches Ok(config) && holds_settings(config, settings),
    }
}

/// The settings that an environment parses to.
pub open spec fn settings_of(environment: Environment) -> Settings {
    Settings {
        database_url: environment.database_url,
        jwt_secret: environment.jwt_secret,
        host: environment.host,
        port: match environment.port {
            Some(s) => Some(
                match parsed_unsigned(s@, 0xffff) {
                    Some(v) => Some(v as u16),
                    None => None,
                },
            ),
            None => None,
        },
        access_token_expires_in: match environment.access_token_expires_in {
            Some(s) => Some(
                match parsed_i64(s@) {
                    Some(v) => Some(v as i64),
                    None => None,
                },
            ),
            None => None,
        },
        refresh_token_expires_in: match environment.refresh_token_expires_in {
            Some(s) => Some(
                match parsed_i64(s@) {
                    Some(v) => Some(v as i64),
                    None => None,
                },
            ),
            None => None,
        },
        whisper_model_path: environment.whisper_model_path,
        max_file_size: match environment.max_file_size {
            Some(s) => Some(
                match parsed_unsigned(s@, 0xffff_ffff_ffff_ffff) {
                    Some(v) => Some(v as u64),
                    None => None,
                },
            ),
            None => None,
        },
        temp_dir: environment.temp_dir,
    }
}

/// A configuration error with a fixed text.
fn config_error(text: &str) -> (error: AppError)
    ensures
        error matches AppError::ConfigError(m) && m@ == text@,
{
    AppError::ConfigError(String::from_str(text))
}

impl Config {
    /// Builds the configuration from settings whose numbers are parsed. The
    /// first missing or malformed setting, in reading order, is reported.
    pub fn from_settings(settings: Settings) -> (built: Result<Config, AppError>)
        ensures
            builds(settings, built),
    {
        let database_url: String = match settings.database_url {
            Some(v) => v,
            None => { return Err(config_error("DATABASE_URL must be set")); },
        };
        let jwt_secret: String = match settings.jwt_secret {
            Some(v) => v,
            None => { return Err(config_error("JWT_SECRET must be set")); },
        };
        let host: String = match settings.host {
            Some(v) => v,
            None => String::from_str("127.0.0.1"),
        };
        let port: u16 = match settings.port {
            Some(Some(v)) => v,
            Some(None) => { return Err(config_error("PORT must be a valid number")); },
            None => DEFAULT_PORT,
        };
        let access_token_expires_in: i64 = match settings.access_token_expires_in {
            Some(Some(v)) => v,
            Some(None) => {
                return Err(config_error("ACCESS_TOKEN_EXPIRES_IN must be a valid number"));
            },
            None => DEFAULT_ACCESS_TOKEN_MINUTES,
        };
        let refresh_token_expires_in: i64 = match settings.refresh_token_expires_in {
            Some(Some(v)) => v,
            Some(None) => {
                return Err(config_error("REFRESH_TOKEN_EXPIRES_IN must be a valid number"));
            },
            None => DEFAULT_REFRESH_TOKEN_DAYS,
        };
        let whisper_model_path: String = match settings.whisper_model_path {
            Some(v) => v,
            None => { return Err(config_error("WHISPER_MODEL_PATH must be set")); },
        };
        let max_file_size: usize = match settings.max_file_size {
            Some(Some(v)) => {
                if v > usize::MAX as u64 {
                    return Err(config_error("MAX_FILE_SIZE must be a valid number"));
                }
                v as usize
            },
            Some(None) => {
                return Err(config_error("MAX_FILE_SIZE must be a valid number"));
            },
            None => DEFAULT_MAX_FILE_SIZE,
        };
        let temp_dir: String = match settings.temp_dir {
            Some(v) => v,
            None => String::from_str("/tmp"),
        };
        Ok(
            Config {
                database_url,
                jwt_secret,
                host,
                port,
                access_token_expires_in,
                refresh_token_expires_in,
                whisper_model_path,
                max_file_size,
                temp_dir,
            },
        )
    }

    /// Builds the configuration from the environment's variables as read.
    pub fn from_values(environment: Environment) -> (built: Result<Config, AppError>)
        ensures
            builds(settings_of(environment), built),
    {
        let port: Option<Option<u16>> = match &environment.port {
            Some(s) => Some(parse_u16(s.as_str())),
            None => None,
        };
        let access: Option<Option<i64>> = match &environment.access_token_expires_in {
            Some(s) => Some(parse_i64(s.as_str())),
            None => None,
        };
        let refresh: Option<Option<i64>> = match &environment.refresh_token_expires_in {
            Some(s) => Some(parse_i64(s.as_str())),
            None => None,
        };
        let max_file_size: Option<Option<u64>> = match &environment.max_file_size {
            Some(s) => Some(parse_u64(s.as_str())),
            None => None,
        };
        Config::from_settings(
            Settings {
                database_url: environment.database_url,
                jwt_secret: environment.jwt_secret,
                host: environment.host,
                port,
                access_token_expires_in: access,
                refresh_token_expires_in: refresh,
                whisper_model_path: environment.whisper_model_path,
                max_file_size,
                temp_dir: environment.temp_dir,
            },
        )
    }
}

} // verus!
