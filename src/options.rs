use vstd::prelude::*;

verus! {

/// The run's settings, read once at start-up and never changed afterwards.
#[derive(Clone, Debug, PartialEq, Eq)]
pub struct Opts {
    pub profile: String,
    pub base_url: String,
    pub username: String,
    pub password: String,
    pub csv_file_path: String,
    pub error_message: String,
    pub driver_args: Vec<String>,
}

/// The characters of each string, in order.
pub open spec fn str_views(v: Seq<String>) -> Seq<Seq<char>> {
    v.map_values(|s: String| s@)
}

impl Opts {
    /// Gathers the seven settings, each kept exactly as given.
    pub fn new(
        profile: String,
        base_url: String,
        username: String,
        password: String,
        csv_file_path: String,
        error_message: String,
        driver_args: Vec<String>,
    ) -> (r: Opts)
        ensures
            r.profile@ == profile@,
            r.base_url@ == base_url@,
            r.username@ == username@,
            r.password@ == password@,
            r.csv_file_path@ == csv_file_path@,
            r.error_message@ == error_message@,
            r.driver_args@ == driver_args@,
    {
        Opts { profile, base_url, username, password, csv_file_path, error_message, driver_args }
    }
}

} // verus!
