//! The server configuration and its JSON form.
use vstd::prelude::*;
use crate::json::{json_string, json_string_text};
use crate::text::{digits_of, unsigned_decimal};

verus! {

/// Where the store lives when no usable configuration is given.
pub const DEFAULT_DB_PATH: &'static str = "/data/data/com.example.userdata_rust/files/user_data.db";

/// The port listened on when no usable configuration is given.
pub const DEFAULT_PORT: u16 = 8080;

/// The active configuration: where the store lives and which local port to
/// listen on.
pub struct ServerConfig {
    pub db_path: String,
    pub port: u16,
}

/// The abstract content of a configuration.
pub struct ConfigView {
    pub db_path: Seq<char>,
    pub port: u16,
}

impl View for ServerConfig {
    type V = ConfigView;

    open spec fn view(&self) -> ConfigView {
        ConfigView { db_path: self.db_path@, port: self.port }
    }
}

/// The configuration used when none could be read.
pub open spec fn default_config() -> ConfigView {
    ConfigView { db_path: DEFAULT_DB_PATH@, port: DEFAULT_PORT }
}

impl Default for ServerConfig {
    fn default() -> (r: Self)
        ensures
            r@ == default_config(),
    {
        ServerConfig { db_path: String::from_str(DEFAULT_DB_PATH), port: DEFAULT_PORT }
    }
}

/// The JSON object of a configuration, given the string literal of its path.
pub open spec fn config_text(quoted_path: Seq<char>, port: u16) -> Seq<char> {
    "{\"db_path\":"@ + quoted_path + ",\"port\":"@ + digits_of(port as nat) + "}"@
}

/// The address the server binds: the loopback interface and the port.
pub open spec fn address_text(port: u16) -> Seq<char> {
    "127.0.0.1:"@ + digits_of(port as nat)
}

/// Frames a configuration as a JSON object, given the string literal of its path.
pub fn config_object(quoted_path: &str, port: u16) -> (r: String)
    ensures
        r@ == config_text(quoted_path@, port),
{
    let digits = unsigned_decimal(port as u64);
    let mut r = String::from_str("{\"db_path\":");
    r.append(quoted_path);
    r.append(",\"port\":");
    r.append(digits.as_str());
    r.append("}");
    r
}

impl ServerConfig {
    /// A configuration with the given path and port.
    pub fn new(db_path: &str, port: u16) -> (r: Self)
        ensures
            r@ == (ConfigView { db_path: db_path@, port }),
    {
        ServerConfig { db_path: String::from_str(db_path), port }
    }

    /// An independent copy of this configuration.
    pub fn snapshot(&self) -> (r: Self)
        ensures
            r@ == self@,
    {
        ServerConfig { db_path: self.db_path.clone(), port: self.port }
    }

    /// The JSON object of this configuration, with keys `db_path` and `port`.
    pub fn to_json(&self) -> (r: String)
        ensures
            r@ == config_text(json_string_text(self.db_path@), self.port),
    {
        let quoted = json_string(self.db_path.as_str());
        config_object(quoted.as_str(), self.port)
    }

    /// The address to bind, `127.0.0.1:<port>`.
    pub fn listen_address(&self) -> (r: String)
        ensures
            r@ == address_text(self.port),
    {
        let digits = unsigned_decimal(self.port as u64);
        String::from_str("127.0.0.1:").concat(digits.as_str())
    }
}

} // verus!
