use vstd::prelude::*;
use vstd::string::*;
use crate::text::spec_dec;
use crate::text::u64_to_string;

verus! {

/// Where the calendar client keeps its refreshed tokens: one JSON file per
/// credential scope under the configuration directory. The file I/O itself
/// is done by the surrounding process; this only spells the path.
#[derive(Debug)]
pub struct JsonTokenStorage {
    pub program_name: String,
    pub db_dir: String,
}

impl JsonTokenStorage {
    /// The token file for one scope set:
    /// `<db_dir>/<program_name>-token-<scope_hash>.json`.
    pub fn path(&self, scope_hash: u64) -> (r: String)
        ensures
            r@ == self.db_dir@ + "/"@ + self.program_name@ + "-token-"@ + spec_dec(
                scope_hash as nat,
            ) + ".json"@,
    {
        let mut r = self.db_dir.clone();
        r.append("/");
        r.append(self.program_name.as_str());
        r.append("-token-");
        r.append(u64_to_string(scope_hash).as_str());
        r.append(".json");
        r
    }
}

} // verus!
