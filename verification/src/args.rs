use vstd::prelude::*;

verus! {

/// Why a command line was rejected before anything ran.
#[derive(Clone, Copy, Debug, PartialEq, Eq, Structural)]
pub enum CliError {
    TooFewArguments,
    BadCommand,
    BadFlag,
    BadExtension,
}

/// Compare two string slices character by character.
fn str_eq(a: &str, b: &str) -> (r: bool)
    ensures
        r == (a@ == b@),
{
    let na = a.unicode_len();
    let nb = b.unicode_len();
    if na != nb {
        return false;
    }
    let mut i: usize = 0;
    while i < na
        invariant
            na == a@.len(),
            nb == b@.len(),
            na == nb,
            i <= na,
            forall|j: int| 0 <= j < i ==> a@[j] == b@[j],
        decreases na - i,
    {
        let ca = a.get_char(i);
        let cb = b.get_char(i);
        if ca != cb {
            return false;
        }
        i = i + 1;
    }
    proof {
        assert(a@ =~= b@);
    }
    true
}

/// The path names a JSON file: it ends in `.json`.
pub open spec fn has_json_suffix(s: Seq<char>) -> bool {
    s.len() >= 5 && s.subrange(s.len() - 5, s.len() as int) == ".json"@
}

fn check_json_suffix(path: &str) -> (r: bool)
    ensures
        r == has_json_suffix(path@),
{
    let n = path.unicode_len();
    if n < 5 {
        return false;
    }
    proof {
        reveal_strlit(".json");
    }
    let ok = path.get_char(n - 5) == '.' && path.get_char(n - 4) == 'j' && path.get_char(n - 3)
        == 's' && path.get_char(n - 2) == 'o' && path.get_char(n - 1) == 'n';
    proof {
        let tail = path@.subrange(path@.len() - 5, path@.len() as int);
        assert(tail.len() == 5);
        if ok {
            assert(tail =~= ".json"@);
        } else {
            assert(tail != ".json"@) by {
                if tail == ".json"@ {
                    assert(tail[0] == '.' && tail[1] == 'j' && tail[2] == 's' && tail[3] == 'o'
                        && tail[4] == 'n');
                }
            }
        }
    }
    ok
}

/// The monitor program's command line is well-formed: at least the
/// flag and a path, the flag spelled `-monitorFile`, the path naming a
/// JSON file.
pub open spec fn monitor_args_error(args: Seq<String>) -> Option<CliError> {
    if args.len() < 3 {
        Some(CliError::TooFewArguments)
    } else if args[1]@ != "-monitorFile"@ {
        Some(CliError::BadFlag)
    } else if !has_json_suffix(args[2]@) {
        Some(CliError::BadExtension)
    } else {
        None
    }
}

/// Check the monitor program's command line and hand back the input
/// file's path. Succeeds exactly when the line carries `-monitorFile`
/// and a `.json` path in the two places the usage line names.
pub fn validate_arguments(args: &Vec<String>) -> (r: Result<String, CliError>)
    ensures
        match r {
            Ok(path) => monitor_args_error(args@) is None && path@ == args@[2]@,
            Err(e) => monitor_args_error(args@) == Some(e),
        },
{
    if args.len() < 3 {
        return Err(CliError::TooFewArguments);
    }
    if !str_eq(args[1].as_str(), "-monitorFile") {
        return Err(CliError::BadFlag);
    }
    if !check_json_suffix(args[2].as_str()) {
        return Err(CliError::BadExtension);
    }
    Ok(args[2].clone())
}

/// The reporting program's command line is well-formed: the literal
/// command word `process_monitor`, then the flag and a JSON path.
pub open spec fn cli_args_error(args: Seq<String>) -> Option<CliError> {
    if args.len() < 4 {
        Some(CliError::TooFewArguments)
    } else if args[1]@ != "process_monitor"@ {
        Some(CliError::BadCommand)
    } else if args[2]@ != "-monitorFile"@ {
        Some(CliError::BadFlag)
    } else if !has_json_suffix(args[3]@) {
        Some(CliError::BadExtension)
    } else {
        None
    }
}

/// Check the reporting program's command line and hand back the input
/// file's path.
pub fn validate_cli_arguments(args: &Vec<String>) -> (r: Result<String, CliError>)
    ensures
        match r {
            Ok(path) => cli_args_error(args@) is None && path@ == args@[3]@,
            Err(e) => cli_args_error(args@) == Some(e),
        },
{
    if args.len() < 4 {
        return Err(CliError::TooFewArguments);
    }
    if !str_eq(args[1].as_str(), "process_monitor") {
        return Err(CliError::BadCommand);
    }
    if !str_eq(args[2].as_str(), "-monitorFile") {
        return Err(CliError::BadFlag);
    }
    if !check_json_suffix(args[3].as_str()) {
        return Err(CliError::BadExtension);
    }
    Ok(args[3].clone())
}

impl CliError {
    /// The diagnostic the monitor program prints for this rejection.
    pub fn message(&self) -> (r: String)
        ensures
            *self == CliError::TooFewArguments ==> r@
                == "Insufficient arguments provided. Usage: -monitorFile <file_path>"@,
            *self == CliError::BadCommand ==> r@
                == "Invalid command. Must start with 'process_monitor'."@,
            *self == CliError::BadFlag ==> r@
                == "Invalid argument. Second argument must be '-monitorFile'."@,
            *self == CliError::BadExtension ==> r@ == "Invalid file format. Must be a JSON file."@,
    {
        match self {
            CliError::TooFewArguments => String::from_str(
                "Insufficient arguments provided. Usage: -monitorFile <file_path>",
            ),
            CliError::BadCommand => String::from_str(
                "Invalid command. Must start with 'process_monitor'.",
            ),
            CliError::BadFlag => String::from_str(
                "Invalid argument. Second argument must be '-monitorFile'.",
            ),
            CliError::BadExtension => String::from_str("Invalid file format. Must be a JSON file."),
        }
    }

    /// The diagnostic the reporting program prints for this rejection;
    /// it differs from the monitor program's only in its usage line.
    pub fn cli_message(&self) -> (r: String)
        ensures
            *self == CliError::TooFewArguments ==> r@
                == "Insufficient arguments provided. Usage: process_monitor -monitorFile <file_path>"@,
            *self == CliError::BadCommand ==> r@
                == "Invalid command. Must start with 'process_monitor'."@,
            *self == CliError::BadFlag ==> r@
                == "Invalid argument. Second argument must be '-monitorFile'."@,
            *self == CliError::BadExtension ==> r@ == "Invalid file format. Must be a JSON file."@,
    {
        match self {
            CliError::TooFewArguments => String::from_str(
                "Insufficient arguments provided. Usage: process_monitor -monitorFile <file_path>",
            ),
            CliError::BadCommand => String::from_str(
                "Invalid command. Must start with 'process_monitor'.",
            ),
            CliError::BadFlag => String::from_str(
                "Invalid argument. Second argument must be '-monitorFile'.",
            ),
            CliError::BadExtension => String::from_str("Invalid file format. Must be a JSON file."),
        }
    }
}

} // verus!
