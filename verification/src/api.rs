//! The fixed paths and bodies of the server's HTTP surface: every request of
//! a run goes to one of these, relative to the configured base URL. The
//! deletion path additionally carries a backup's numeric id and is composed
//! by the driver.

use vstd::prelude::*;
use vstd::string::StringExecFns;

verus! {

/// The endpoint that lists the server's backups (also the prefix of the
/// per-id deletion path).
pub fn backups_endpoint(base_url: &String) -> (r: String)
    ensures
        r@ == base_url@ + "/api/v3/system/backup"@,
{
    let mut p = base_url.clone();
    p.append("/api/v3/system/backup");
    p
}

/// The endpoint that runs a server command, such as triggering a backup.
pub fn command_endpoint(base_url: &String) -> (r: String)
    ensures
        r@ == base_url@ + "/api/v3/command"@,
{
    let mut p = base_url.clone();
    p.append("/api/v3/command");
    p
}

/// The JSON body that asks the command endpoint to start a manual backup.
pub fn trigger_command_body() -> (r: String)
    ensures
        r@ == "{\"name\": \"Backup\"}"@,
{
    String::from_str("{\"name\": \"Backup\"}")
}

} // verus!
