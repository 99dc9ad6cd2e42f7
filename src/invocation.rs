//! The command line: `<program> <server_path> <endpoint> [server_args...]`.
use vstd::prelude::*;
use crate::log::joined;

verus! {

/// What to run and where to send notifications.
#[derive(Clone, Debug, PartialEq, Eq)]
pub struct Invocation {
    pub executable_path: String,
    pub endpoint: String,
    pub child_args: Vec<String>,
}

pub open spec fn usage_suffix() -> Seq<char> {
    " <factorio_path> <endpoint> <factorio_args>"@
}

/// Reads the command line, program name first. Fewer than two arguments
/// after the program name give no invocation: the caller prints the usage.
pub fn parse_invocation(args: &Vec<String>) -> (r: Option<Invocation>)
    ensures
        r is None <==> args@.len() < 3,
        r matches Some(inv) ==> {
            &&& inv.executable_path == args@[1]
            &&& inv.endpoint == args@[2]
            &&& inv.child_args@ == args@.subrange(3, args@.len() as int)
        },
{
    if args.len() < 3 {
        return None;
    }
    let mut child_args: Vec<String> = Vec::new();
    let mut i: usize = 3;
    while i < args.len()
        invariant
            3 <= i <= args@.len(),
            child_args@ == args@.subrange(3, i as int),
        decreases args@.len() - i,
    {
        child_args.push(args[i].clone());
        proof {
            assert(child_args@ =~= args@.subrange(3, i + 1));
        }
        i = i + 1;
    }
    Some(Invocation { executable_path: args[1].clone(), endpoint: args[2].clone(), child_args })
}

/// The usage line for the program named `program`.
pub fn usage_text(program: &str) -> (r: String)
    ensures
        r@ == "Usage: "@ + program@ + usage_suffix(),
{
    let head = joined("Usage: ", program);
    joined(head.as_str(), " <factorio_path> <endpoint> <factorio_args>")
}

} // verus!
