//! The connection string handed to the database driver, built from the
//! configured parts.

use vstd::prelude::*;
use vstd::string::StringExecFns;

verus! {

/// The connection string for the given credentials, against the local host.
pub open spec fn spec_connection_str(
    user: Seq<char>,
    db: Seq<char>,
    password: Seq<char>,
    port: Seq<char>,
) -> Seq<char> {
    "host=localhost port="@ + port + " user="@ + user + " dbname="@ + db + " password="@ + password
}

/// Build the driver's connection string from the configured user, database
/// name, password and port.
pub fn build_connection_str(user: &str, db: &str, password: &str, port: &str) -> (r: String)
    ensures
        r@ == spec_connection_str(user@, db@, password@, port@),
{
    let mut s = String::from_str("host=localhost port=");
    s.append(port);
    s.append(" user=");
    s.append(user);
    s.append(" dbname=");
    s.append(db);
    s.append(" password=");
    s.append(password);
    s
}

} // verus!
