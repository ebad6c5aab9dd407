//! What a shell runner decides: where a script is written and how a finished
//! command's result reads.

use vstd::prelude::*;
use vstd::string::*;

verus! {

/// Runs shell scripts from a working directory; scripts are written under
/// `path` first.
pub struct Shell {
    pub current_dir: String,
    pub path: String,
}

impl Shell {
    /// A runner for `dir`, writing its scripts under "/tmp".
    pub fn new(dir: &str) -> (r: Shell)
        ensures
            r.current_dir@ == dir@,
            r.path@ == "/tmp"@,
    {
        Shell { current_dir: String::from_str(dir), path: String::from_str("/tmp") }
    }

    /// The file a script named `id` is written to: `<path>/<id>.sh`.
    pub fn script_path(&self, id: &str) -> (r: String)
        ensures
            r@ == self.path@ + "/"@ + id@ + ".sh"@,
    {
        let mut r = self.path.clone();
        r.append("/");
        r.append(id);
        r.append(".sh");
        r
    }

    /// The result of a finished command: its standard output when it exited
    /// with code 0, its standard error otherwise.
    pub fn outcome(code: i32, stdout: String, stderr: String) -> (r: Result<String, String>)
        ensures
            code == 0 ==> r == Ok::<String, String>(stdout),
            code != 0 ==> r == Err::<String, String>(stderr),
    {
        if code != 0 {
            Err(stderr)
        } else {
            Ok(stdout)
        }
    }
}

} // verus!
