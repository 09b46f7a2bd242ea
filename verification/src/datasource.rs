//! The settings that connections to the database are made with.

use vstd::prelude::*;
use vstd::string::*;
use crate::config::ConnectionConfig;
use crate::text::{has_prefix, strip_prefix};

verus! {

/// Prefix of a password that names an environment variable.
pub const ENV_PREFIX: &'static str = "env:";

/// The settings of the connection pool: address, user and password.
pub struct Datasource {
    pub url: String,
    pub user: String,
    pub pw: String,
}

/// The name of the environment variable that a password stands for, if it
/// stands for one.
pub open spec fn password_variable_of(pw: Seq<char>) -> Option<Seq<char>> {
    if has_prefix(pw, ENV_PREFIX@) {
        Some(pw.subrange(ENV_PREFIX@.len() as int, pw.len() as int))
    } else {
        None
    }
}

/// The password to connect with: the value of the environment variable
/// where the configured password names one that is set, else the
/// configured password as it stands.
pub open spec fn resolved_password(pw: Seq<char>, variable_value: Option<Seq<char>>) -> Seq<char> {
    match (password_variable_of(pw), variable_value) {
        (Some(_), Some(value)) => value,
        _ => pw,
    }
}

/// The name of the environment variable that the configured password
/// stands for, if it stands for one.
pub fn password_variable(config: &ConnectionConfig) -> (variable: Option<String>)
    ensures
        variable is Some <==> password_variable_of(config.pw@) is Some,
        variable matches Some(name) ==> Some(name@) == password_variable_of(config.pw@),
{
    strip_prefix(config.pw.as_str(), ENV_PREFIX)
}

impl Datasource {
    /// The settings for a configuration. `variable_value` is the value of
    /// the environment variable that the password names, where it names one
    /// and the variable is set.
    pub fn new(config: &ConnectionConfig, variable_value: Option<String>) -> (datasource:
        Datasource)
        ensures
            datasource.url@ == config.url@,
            datasource.user@ == config.user@,
            datasource.pw@ == resolved_password(
                config.pw@,
                match variable_value {
                    Some(value) => Some(value@),
                    None => None,
                },
            ),
    {
        let pw = match (password_variable(config), variable_value) {
            (Some(_), Some(value)) => value,
            _ => config.pw.clone(),
        };
        Datasource { url: config.url.clone(), user: config.user.clone(), pw }
    }
}

/// Sets up the datasource once: a datasource that is already there stays
/// as it is.
pub fn create(
    datasource: &mut Option<Datasource>,
    config: &ConnectionConfig,
    variable_value: Option<String>,
)
    ensures
        *old(datasource) is Some ==> *final(datasource) == *old(datasource),
        *old(datasource) is None ==> {
            &&& *final(datasource) is Some
            &&& (*final(datasource))->Some_0.url@ == config.url@
            &&& (*final(datasource))->Some_0.user@ == config.user@
            &&& (*final(datasource))->Some_0.pw@ == resolved_password(
                config.pw@,
                match variable_value {
                    Some(value) => Some(value@),
                    None => None,
                },
            )
        },
{
    if datasource.is_none() {
        *datasource = Some(Datasource::new(config, variable_value));
    }
}

/// The settings to connect with.
pub fn get_connection(datasource: &Option<Datasource>) -> (settings: &Datasource)
    requires
        datasource is Some,
    ensures
        *settings == datasource->Some_0,
{
    datasource.as_ref().unwrap()
}

} // verus!
