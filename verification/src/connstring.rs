//! The connection string handed to the protocol client: TLS required, then
//! host, database name, user and password, each as `key=value`.

use vstd::prelude::*;
use crate::config::ConfigView;
use crate::config::DatabaseConfig;

verus! {

/// Relies on std's String::push_str: appends the given string slice onto
/// the end of the string.
pub assume_specification[ String::push_str ](s: &mut String, other: &str)
    ensures
        final(s)@ == old(s)@ + other@,
;

/// The connection string for a configuration: `sslmode=require` — TLS is
/// always demanded — followed by host, database name, user and password.
pub open spec fn spec_connection_string(c: ConfigView) -> Seq<char> {
    "sslmode=require host="@ + c.host + " dbname="@ + c.dbname + " user="@ + c.user + " password="@
        + c.password
}

/// Assembles the connection string for the given configuration.
///
/// The result embeds the raw credential text: treat it as sensitive and
/// never log it verbatim.
pub fn connection_string(config: &DatabaseConfig) -> (r: String)
    ensures
        r@ == spec_connection_string(config@),
{
    let mut s = String::new();
    s.push_str("sslmode=require host=");
    s.push_str(config.host.as_str());
    s.push_str(" dbname=");
    s.push_str(config.dbname.as_str());
    s.push_str(" user=");
    s.push_str(config.user.as_str());
    s.push_str(" password=");
    s.push_str(config.password.as_str());
    proof {
        assert(s@ =~= spec_connection_string(config@));
    }
    s
}

} // verus!
