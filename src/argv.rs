use vstd::prelude::*;

use crate::decimal::decimal;
use crate::options::OptionsModel;

verus! {

/// `-var=<key>=<value>`
pub open spec fn var_token(key: Seq<char>, value: Seq<char>) -> Seq<char> {
    "-var="@ + key + "="@ + value
}

/// `-var-file=<path>`, the path verbatim.
pub open spec fn var_file_token(path: Seq<char>) -> Seq<char> {
    "-var-file="@ + path
}

/// `-parallel-builds=<n>`, `n` in decimal.
pub open spec fn parallel_token(n: i32) -> Seq<char> {
    "-parallel-builds="@ + decimal(n as int)
}

/// The one-token sequence `[a]` where `c` holds, else nothing.
pub open spec fn optional(c: bool, a: Seq<char>) -> Seq<Seq<char>> {
    if c {
        seq![a]
    } else {
        Seq::empty()
    }
}

/// The flag tokens of a `build` run, in their fixed order.
#[verifier::opaque]
pub open spec fn flag_args(o: OptionsModel) -> Seq<Seq<char>> {
    optional(o.debug, "-debug"@) + optional(o.force, "-force"@) + match o.parallel_builds {
        Some(n) => seq![parallel_token(n)],
        None => Seq::empty(),
    } + optional(!o.color, "-color=false"@) + optional(o.timestamp_ui, "-timestamp-ui"@)
}

/// One `-var=` token per variable, in the order given.
pub open spec fn var_args(o: OptionsModel) -> Seq<Seq<char>> {
    o.vars.map_values(|p: (Seq<char>, Seq<char>)| var_token(p.0, p.1))
}

/// One `-var-file=` token per variable file, in the order given.
pub open spec fn var_file_args(o: OptionsModel) -> Seq<Seq<char>> {
    o.var_files.map_values(|f: Seq<char>| var_file_token(f))
}

/// The arguments of a `build` run: the subcommand, the flags, the variables,
/// the variable files and, last, the template.
pub open spec fn build_argv(template: Seq<char>, o: OptionsModel) -> Seq<Seq<char>> {
    seq!["build"@] + flag_args(o) + var_args(o) + var_file_args(o) + seq![template]
}

} // verus!
