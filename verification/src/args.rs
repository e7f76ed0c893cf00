use vstd::prelude::*;

verus! {

/// The four positional values of an invocation: the target pattern, the
/// replacement string, the input path and the output path, kept verbatim.
#[derive(Debug)]
pub struct Arguments {
    pub target: String,
    pub replacement: String,
    pub filename: String,
    pub output: String,
}

/// The number of positional arguments the tool takes.
pub const EXPECTED_ARGS: usize = 4;

/// Raised when the argument list does not hold exactly four values.
#[derive(Debug)]
pub struct ArgCountError {
    pub expected: usize,
    pub actual: usize,
}

/// Collects the command-line tokens (program name excluded) into `Arguments`.
/// Succeeds exactly on lists of four tokens and keeps each one verbatim;
/// any other count yields the expected and actual counts instead.
pub fn parse_args(args: &Vec<String>) -> (r: Result<Arguments, ArgCountError>)
    ensures
        r is Ok <==> args@.len() == 4,
        r matches Ok(a) ==> {
            &&& a.target@ == args@[0]@
            &&& a.replacement@ == args@[1]@
            &&& a.filename@ == args@[2]@
            &&& a.output@ == args@[3]@
        },
        r matches Err(e) ==> e.expected == 4 && e.actual == args@.len(),
{
    if args.len() != EXPECTED_ARGS {
        return Err(ArgCountError { expected: EXPECTED_ARGS, actual: args.len() });
    }
    Ok(Arguments {
        target: args[0].clone(),
        replacement: args[1].clone(),
        filename: args[2].clone(),
        output: args[3].clone(),
    })
}

} // verus!
