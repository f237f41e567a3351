//! The recorder's choice of what to run: an explicit command is handed
//! to `/bin/sh -c "exec <cmd>"`, otherwise the user's shell, falling
//! back to `/bin/sh`.

use vstd::prelude::*;
use vstd::string::*;

verus! {

/// The program and arguments to spawn, from the command flag and the
/// value of the `SHELL` environment variable.
pub fn get_cmd(cmd: Option<String>, shell: Option<String>) -> (r: (String, Vec<String>))
    ensures
        cmd matches Some(c) ==> r.0@ == "/bin/sh"@ && r.1@.len() == 2 && r.1@[0]@ == "-c"@
            && r.1@[1]@ == "exec "@ + c@,
        cmd is None ==> r.1@.len() == 0 && (match shell {
            Some(sh) => r.0 == sh,
            None => r.0@ == "/bin/sh"@,
        }),
{
    match cmd {
        Some(c) => {
            let mut exec_cmd = String::from_str("exec ");
            exec_cmd.append(c.as_str());
            let mut args: Vec<String> = Vec::new();
            args.push(String::from_str("-c"));
            args.push(exec_cmd);
            (String::from_str("/bin/sh"), args)
        },
        None => {
            match shell {
                Some(sh) => (sh, Vec::new()),
                None => (String::from_str("/bin/sh"), Vec::new()),
            }
        },
    }
}

} // verus!
