use vstd::prelude::*;
use vstd::string::StringExecFns;
use crate::terminator::{decimal, decimal_string};

verus! {

/// The environment variable that names the configuration file for the backend.
pub const CONFIG_PATH_VAR: &'static str = "ENV_FILE_PATH";

/// The arguments that make the backend listen on `127.0.0.1:port`.
pub fn launch_args(port: u16) -> (r: Vec<String>)
    ensures
        r@.map_values(|s: String| s@) == seq![
            "--host"@,
            "127.0.0.1"@,
            "--port"@,
            decimal(port as nat),
        ],
{
    let mut args: Vec<String> = Vec::new();
    args.push(<String as StringExecFns>::from_str("--host"));
    args.push(<String as StringExecFns>::from_str("127.0.0.1"));
    args.push(<String as StringExecFns>::from_str("--port"));
    args.push(decimal_string(port as u32));
    proof {
        assert(args@.map_values(|s: String| s@) =~= seq![
            "--host"@,
            "127.0.0.1"@,
            "--port"@,
            decimal(port as nat),
        ]);
    }
    args
}

} // verus!
