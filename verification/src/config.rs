//! The run's configuration, as plain values. Loading it from the
//! environment, and turning the directory strings into filesystem paths, is
//! the surrounding program's job.

use vstd::prelude::*;

verus! {

/// Everything one run needs: where the server is, how to authenticate, where
/// its configuration directory and the extraction destination are, and
/// whether the remote backup is deleted after a successful extraction. The
/// API key must never be logged or echoed in error messages.
pub struct Config {
    pub base_url: String,
    pub api_key: String,
    pub config_dir: String,
    pub dest_dir: String,
    pub delete_backup: bool,
}

} // verus!
