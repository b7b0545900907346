//! The settings of the server and their defaults.

use vstd::prelude::*;

verus! {

/// The seconds an empty room is kept when nothing is configured.
pub const DEFAULT_ROOM_IDLE_TIMEOUT_SECONDS: u64 = 3600;

/// The port the server listens on when nothing is configured.
pub const DEFAULT_PORT: u16 = 3001;

/// The number that `text` is the decimal notation of, if it is one of a
/// number that fits in 64 bits.
pub uninterp spec fn parsed_u64(text: Seq<char>) -> Option<u64>;

/// `str::parse::<u64>` from std: the number written in `text`, which must
/// consist of decimal digits, with or without a plus sign before them, and
/// name a number that fits.
#[verifier::external_body]
pub(crate) fn parse_u64(text: &str) -> (number: Option<u64>)
    ensures
        number == parsed_u64(text@),
{
    text.parse::<u64>().ok()
}

/// The setting for `value`, where `value` is the text configured, if any:
/// the number it names, or `default` where nothing is configured or the
/// text names no number.
pub open spec fn setting_or(value: Option<Seq<char>>, default: u64) -> u64 {
    match value {
        Some(text) => match parsed_u64(text) {
            Some(number) => number,
            None => default,
        },
        None => default,
    }
}

/// The seconds an empty room is kept before it is evicted, from the text
/// configured for it. Zero means that empty rooms are kept for good.
pub fn room_idle_timeout_seconds(value: Option<&str>) -> (seconds: u64)
    ensures
        seconds == setting_or(
            match value {
                Some(text) => Some(text@),
                None => None,
            },
            DEFAULT_ROOM_IDLE_TIMEOUT_SECONDS,
        ),
{
    match value {
        Some(text) => match parse_u64(text) {
            Some(number) => number,
            None => DEFAULT_ROOM_IDLE_TIMEOUT_SECONDS,
        },
        None => DEFAULT_ROOM_IDLE_TIMEOUT_SECONDS,
    }
}

/// Whether idle rooms are evicted at all: they are unless the timeout is
/// zero.
pub fn room_cleanup_enabled(timeout_secs: u64) -> (enabled: bool)
    ensures
        enabled == (timeout_secs > 0),
{
    timeout_secs > 0
}

/// The port to listen on, from the text configured for it: the number it
/// names if that is a port number, the default otherwise.
pub fn port(value: Option<&str>) -> (number: u16)
    ensures
        number == match value {
            Some(text) => match parsed_u64(text@) {
                Some(n) => if n <= u16::MAX {
                    n as u16
                } else {
                    DEFAULT_PORT
                },
                None => DEFAULT_PORT,
            },
            None => DEFAULT_PORT,
        },
{
    match value {
        Some(text) => match parse_u64(text) {
            Some(n) => if n <= u16::MAX as u64 {
                n as u16
            } else {
                DEFAULT_PORT
            },
            None => DEFAULT_PORT,
        },
        None => DEFAULT_PORT,
    }
}

/// The text configured, or `default` where nothing is.
pub fn text_or(value: Option<String>, default: &str) -> (text: String)
    ensures
        text@ == match value {
            Some(v) => v@,
            None => default@,
        },
{
    match value {
        Some(v) => v,
        None => default.to_string(),
    }
}

/// The address of the database when nothing is configured.
pub fn default_mongodb_uri() -> (uri: String)
    ensures
        uri@ == "mongodb://localhost:27017"@,
{
    "mongodb://localhost:27017".to_string()
}

/// The name of the database when nothing is configured.
pub fn default_db_name() -> (name: String)
    ensures
        name@ == "tracker-db"@,
{
    "tracker-db".to_string()
}

/// The secret that signs tokens when nothing is configured. It is known to
/// everyone; a deployment configures its own.
pub fn default_jwt_secret() -> (secret: String)
    ensures
        secret@ == "default_secret_keep_it_safe"@,
{
    "default_secret_keep_it_safe".to_string()
}

} // verus!
