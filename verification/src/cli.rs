//! Command-line options of the proxy program.

use vstd::prelude::*;

verus! {

/// The value given to option `name` among `args`, looking from position `i`:
/// the argument after the first occurrence of `name` that has one, or
/// `default`.
pub open spec fn option_value(args: Seq<String>, name: Seq<char>, default: Seq<char>, i: nat) -> Seq<char>
    decreases args.len() - i,
{
    if i >= args.len() {
        default
    } else if args[i as int]@ == name && i + 1 < args.len() {
        args[i + 1 as int]@
    } else {
        option_value(args, name, default, i + 1)
    }
}

/// The value given to option `name` on the command line `args` (the argument
/// that follows it), or `default` when the option is not given a value.
pub fn arg_value(args: &Vec<String>, name: &str, default: &str) -> (value: String)
    ensures
        value@ == option_value(args@, name@, default@, 0),
{
    let wanted = name.to_owned();
    let mut i: usize = 0;
    while i < args.len()
        invariant
            i <= args@.len(),
            wanted@ == name@,
            option_value(args@, name@, default@, i as nat) == option_value(args@, name@, default@, 0),
        decreases args@.len() - i,
    {
        if args[i] == wanted && i + 1 < args.len() {
            return args[i + 1].clone();
        }
        i = i + 1;
    }
    default.to_owned()
}

/// The value of an option is the argument after its first occurrence that
/// has an argument after it, wherever that occurrence stands.
pub proof fn first_occurrence_gives_the_value(args: Seq<String>, name: Seq<char>, default: Seq<char>, i: nat)
    requires
        i + 1 < args.len(),
        args[i as int]@ == name,
        forall|k: nat| k < i ==> #[trigger] args[k as int]@ != name,
    ensures
        option_value(args, name, default, 0) == args[i + 1 as int]@,
{
    reaches(args, name, default, 0, i);
}

proof fn reaches(args: Seq<String>, name: Seq<char>, default: Seq<char>, from: nat, i: nat)
    requires
        from <= i,
        i + 1 < args.len(),
        args[i as int]@ == name,
        forall|k: nat| k < i ==> #[trigger] args[k as int]@ != name,
    ensures
        option_value(args, name, default, from) == args[i + 1 as int]@,
    decreases i - from,
{
    if from < i {
        assert(args[from as int]@ != name);
        reaches(args, name, default, from + 1, i);
    }
}

/// An option that is absent, or given only as the last argument, takes the
/// default.
pub proof fn absent_option_takes_the_default(args: Seq<String>, name: Seq<char>, default: Seq<char>)
    requires
        forall|k: nat| k + 1 < args.len() ==> #[trigger] args[k as int]@ != name,
    ensures
        option_value(args, name, default, 0) == default,
{
    falls_through(args, name, default, 0);
}

proof fn falls_through(args: Seq<String>, name: Seq<char>, default: Seq<char>, from: nat)
    requires
        forall|k: nat| k + 1 < args.len() ==> #[trigger] args[k as int]@ != name,
    ensures
        option_value(args, name, default, from) == default,
    decreases args.len() - from,
{
    if from < args.len() {
        if from + 1 < args.len() {
            assert(args[from as int]@ != name);
        }
        falls_through(args, name, default, from + 1);
    }
}

} // verus!
