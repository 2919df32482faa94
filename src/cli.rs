//! Reading the wrapper's own flags off the front of the command line, and
//! deciding which environment variables the child inherits.
use vstd::prelude::*;

verus! {

/// Where the identifier comes from, as far as the command line says.
#[derive(Clone, Copy, Debug, PartialEq, Eq, Structural)]
pub enum IdArg {
    /// No `--hcp-id` flag: the environment decides.
    Unset,
    /// The last `--hcp-id` flag ended the command line without a value.
    Missing,
    /// The last `--hcp-id` flag's value is the argument at this index.
    At(usize),
}

/// What the wrapper's flags say, and where the command starts.
#[derive(Clone, Copy, Debug, PartialEq, Eq, Structural)]
pub struct ArgScan {
    pub id: IdArg,
    pub tee: bool,
    pub ignore_code: bool,
    /// Index of the command name; the length of the line when there is none.
    pub command: usize,
}

/// The scan of `args` from index `i` on, with `acc` what was read before it.
/// An argument that is not text, or not one of the flags, is the command;
/// the value of `--hcp-id` is the argument after it, whatever it is.
pub open spec fn scan_from(args: Seq<Option<Seq<char>>>, i: int, acc: ArgScan) -> ArgScan
    decreases args.len() - i,
{
    if i >= args.len() {
        ArgScan { command: args.len() as usize, ..acc }
    } else if args[i] == Some("--hcp-id"@) {
        if i + 1 < args.len() {
            scan_from(args, i + 2, ArgScan { id: IdArg::At((i + 1) as usize), ..acc })
        } else {
            scan_from(args, i + 1, ArgScan { id: IdArg::Missing, ..acc })
        }
    } else if args[i] == Some("--hcp-tee"@) {
        scan_from(args, i + 1, ArgScan { tee: true, ..acc })
    } else if args[i] == Some("--hcp-ignore-code"@) {
        scan_from(args, i + 1, ArgScan { ignore_code: true, ..acc })
    } else {
        ArgScan { command: i as usize, ..acc }
    }
}

/// The scan of a whole command line, starting from no flags.
pub open spec fn scan_spec(args: Seq<Option<Seq<char>>>) -> ArgScan {
    scan_from(
        args,
        0,
        ArgScan { id: IdArg::Unset, tee: false, ignore_code: false, command: 0 },
    )
}

/// The command-line arguments as text, `None` for one that is not text.
pub open spec fn args_view(args: Seq<Option<String>>) -> Seq<Option<Seq<char>>> {
    args.map_values(|a: Option<String>| match a {
        Some(s) => Some(s@),
        None => None,
    })
}

/// Reads the wrapper's flags off the front of `args` (the command line
/// without the program name); the first argument that is no flag starts the
/// command.
pub fn scan_args(args: &Vec<Option<String>>) -> (r: ArgScan)
    ensures
        r == scan_spec(args_view(args@)),
        r.command <= args@.len(),
{
    let ghost view = args_view(args@);
    let flag_id = "--hcp-id".to_owned();
    let flag_tee = "--hcp-tee".to_owned();
    let flag_ignore = "--hcp-ignore-code".to_owned();
    let mut acc = ArgScan { id: IdArg::Unset, tee: false, ignore_code: false, command: 0 };
    let mut i: usize = 0;
    while i < args.len()
        invariant
            0 <= i <= args@.len(),
            view == args_view(args@),
            flag_id@ == "--hcp-id"@,
            flag_tee@ == "--hcp-tee"@,
            flag_ignore@ == "--hcp-ignore-code"@,
            scan_from(view, i as int, acc) == scan_spec(view),
        decreases args@.len() - i,
    {
        let (is_id, is_tee, is_ignore) = match &args[i] {
            Some(s) => (*s == flag_id, *s == flag_tee, *s == flag_ignore),
            None => (false, false, false),
        };
        assert(view[i as int] == match args@[i as int] {
            Some(s) => Some(s@),
            None => None::<Seq<char>>,
        });
        if is_id {
            if i + 1 < args.len() {
                acc = ArgScan { id: IdArg::At(i + 1), ..acc };
                i = i + 2;
            } else {
                acc = ArgScan { id: IdArg::Missing, ..acc };
                i = i + 1;
            }
        } else if is_tee {
            acc = ArgScan { tee: true, ..acc };
            i = i + 1;
        } else if is_ignore {
            acc = ArgScan { ignore_code: true, ..acc };
            i = i + 1;
        } else {
            return ArgScan { command: i, ..acc };
        }
    }
    ArgScan { command: args.len(), ..acc }
}

/// Names of the variables that configure the wrapper itself.
pub open spec fn is_config_var(name: Seq<char>) -> bool {
    name == "HCP_ID"@ || name == "HCP_TEE"@ || name == "HCP_IGNORE_CODE"@
}

/// Whether the child inherits the variable `name`: every variable but those
/// that configure the wrapper.
pub fn passes_to_child(name: &String) -> (r: bool)
    ensures
        r == !is_config_var(name@),
{
    let id = "HCP_ID".to_owned();
    let tee = "HCP_TEE".to_owned();
    let ignore = "HCP_IGNORE_CODE".to_owned();
    !(*name == id || *name == tee || *name == ignore)
}

} // verus!
