//! Reading the program's command-line arguments.
use vstd::prelude::*;
use vstd::view::View as _;

use crate::text::str_eq;

verus! {

/// Options read from the command line, and the startup command if any.
#[derive(Debug)]
pub struct Cli {
    pub print_version: bool,
    pub print_help: bool,
    pub config_path: Option<String>,
    pub echo_msg: Option<String>,
}

impl Cli {
    pub open spec fn spec_default() -> Cli {
        Cli { print_version: false, print_help: false, config_path: None, echo_msg: None }
    }
}

impl Default for Cli {
    fn default() -> (r: Cli)
        ensures
            r == Cli::spec_default(),
    {
        Cli { print_version: false, print_help: false, config_path: None, echo_msg: None }
    }
}

/// Reading the argument list one flag at a time: help and version stop the
/// reading, `-c` and `--echo` consume the following argument, anything
/// unknown rejects the whole list.
pub open spec fn cli_step(args: Seq<String>, acc: Cli) -> Option<Cli>
    decreases args.len(),
{
    if args.len() == 0 {
        Some(acc)
    } else {
        let a = args[0]@;
        if a == "-h"@ || a == "--help"@ || a == "help"@ {
            Some(Cli { print_help: true, ..acc })
        } else if a == "-v"@ || a == "--version"@ || a == "version"@ {
            Some(Cli { print_version: true, ..acc })
        } else if a == "-c"@ || a == "--config"@ {
            if args.len() >= 2 {
                cli_step(args.skip(2), Cli { config_path: Some(args[1]), ..acc })
            } else {
                cli_step(args.skip(1), Cli { config_path: None, ..acc })
            }
        } else if a == "--echo"@ {
            if args.len() >= 2 {
                cli_step(args.skip(2), Cli { echo_msg: Some(args[1]), ..acc })
            } else {
                cli_step(args.skip(1), Cli { echo_msg: None, ..acc })
            }
        } else {
            None
        }
    }
}

impl Cli {
    /// Reads options and the startup command from the argument list;
    /// an unknown argument rejects the whole list.
    pub fn parse(args: &[String]) -> (r: Option<Cli>)
        ensures
            r == cli_step(args@, Cli::spec_default()),
    {
        let mut cli = Cli::default();
        let n = args.len();
        proof {
            assert(args@.skip(0) =~= args@);
        }
        let mut i: usize = 0;
        while i < n
            invariant
                n == args@.len(),
                i <= n,
                cli_step(args@, Cli::spec_default()) == cli_step(args@.skip(i as int), cli),
            decreases n - i,
        {
            let ghost rest = args@.skip(i as int);
            proof {
                assert(rest[0] == args@[i as int]);
            }
            let a = &args[i];
            if str_eq(a.as_str(), "-h") || str_eq(a.as_str(), "--help") || str_eq(
                a.as_str(),
                "help",
            ) {
                cli.print_help = true;
                return Some(cli);
            } else if str_eq(a.as_str(), "-v") || str_eq(a.as_str(), "--version") || str_eq(
                a.as_str(),
                "version",
            ) {
                cli.print_version = true;
                return Some(cli);
            } else if str_eq(a.as_str(), "-c") || str_eq(a.as_str(), "--config") {
                if i + 1 < n {
                    proof {
                        assert(rest[1] == args@[i as int + 1]);
                        assert(rest.skip(2) =~= args@.skip(i as int + 2));
                    }
                    cli.config_path = Some(args[i + 1].clone());
                    i = i + 2;
                } else {
                    proof {
                        assert(rest.skip(1) =~= args@.skip(i as int + 1));
                    }
                    cli.config_path = None;
                    i = i + 1;
                }
            } else if str_eq(a.as_str(), "--echo") {
                if i + 1 < n {
                    proof {
                        assert(rest[1] == args@[i as int + 1]);
                        assert(rest.skip(2) =~= args@.skip(i as int + 2));
                    }
                    cli.echo_msg = Some(args[i + 1].clone());
                    i = i + 2;
                } else {
                    proof {
                        assert(rest.skip(1) =~= args@.skip(i as int + 1));
                    }
                    cli.echo_msg = None;
                    i = i + 1;
                }
            } else {
                return None;
            }
        }
        proof {
            assert(args@.skip(n as int) =~= Seq::<String>::empty());
        }
        Some(cli)
    }
}

} // verus!
