use vstd::prelude::*;

use crate::argv::{build_argv, flag_args, parallel_token, var_args, var_file_args, var_file_token, var_token};
use crate::options::{default_options, BuilderModel, OptionsModel};
use crate::packer::FacadeModel;

verus! {

proof fn lemma_prefix_char(p: Seq<char>, a: Seq<char>, i: int)
    requires
        p.is_prefix_of(a),
        0 <= i < p.len(),
    ensures
        a[i] == p[i],
{
    assert(a.subrange(0, p.len() as int)[i] == a[i]);
}

/// With every option at its default, `build` passes the subcommand and the
/// template and nothing else, the template last.
pub proof fn default_options_add_no_flags(template: Seq<char>)
    ensures
        build_argv(template, default_options()) == seq!["build"@, template],
{
    reveal(flag_args);
    let o = default_options();
    assert(flag_args(o) =~= Seq::<Seq<char>>::empty());
    assert(var_args(o) =~= Seq::<Seq<char>>::empty());
    assert(var_file_args(o) =~= Seq::<Seq<char>>::empty());
    assert(build_argv(template, o) =~= seq!["build"@, template]);
}

/// The second character of a token; it tells the tokens of `build` apart.
spec fn tag(a: Seq<char>) -> char {
    a[1]
}

/// Every token of `build` but the template has one of the given tags, and
/// each flag is the only token with its tag.
proof fn lemma_tags(template: Seq<char>, o: OptionsModel)
    ensures
        ({
            let argv = build_argv(template, o);
            forall|i: int| 0 <= i < argv.len() - 1 ==> {
                &&& (#[trigger] argv[i]).len() >= 2
                &&& tag(argv[i]) == 'u' || tag(argv[i]) == 'd' || tag(argv[i]) == 'f' || tag(argv[i]) == 'p'
                    || tag(argv[i]) == 'c' || tag(argv[i]) == 't' || tag(argv[i]) == 'v'
                &&& tag(argv[i]) == 'd' ==> argv[i] == "-debug"@ && o.debug
                &&& tag(argv[i]) == 'f' ==> argv[i] == "-force"@ && o.force
            }
        }),
{
    reveal(flag_args);
    reveal_strlit("build");
    reveal_strlit("-debug");
    reveal_strlit("-force");
    reveal_strlit("-parallel-builds=");
    reveal_strlit("-color=false");
    reveal_strlit("-timestamp-ui");
    reveal_strlit("-var=");
    reveal_strlit("-var-file=");
    let argv = build_argv(template, o);
    let f = flag_args(o);
    let v = var_args(o);
    let w = var_file_args(o);
    assert(argv.drop_last() =~= seq!["build"@] + f + v + w);
    assert forall|i: int| 0 <= i < v.len() implies (#[trigger] v[i]).len() >= 2 && tag(v[i]) == 'v' by {
        assert(v[i] == var_token(o.vars[i].0, o.vars[i].1));
    }
    assert forall|i: int| 0 <= i < w.len() implies (#[trigger] w[i]).len() >= 2 && tag(w[i]) == 'v' by {
        assert(w[i] == var_file_token(o.var_files[i]));
    }
    match o.parallel_builds {
        Some(n) => {
            assert(parallel_token(n)[1] == 'p');
        },
        None => {},
    }
    assert forall|i: int| 0 <= i < argv.len() - 1 implies {
        &&& (#[trigger] argv[i]).len() >= 2
        &&& tag(argv[i]) == 'u' || tag(argv[i]) == 'd' || tag(argv[i]) == 'f' || tag(argv[i]) == 'p'
            || tag(argv[i]) == 'c' || tag(argv[i]) == 't' || tag(argv[i]) == 'v'
        &&& tag(argv[i]) == 'd' ==> argv[i] == "-debug"@ && o.debug
        &&& tag(argv[i]) == 'f' ==> argv[i] == "-force"@ && o.force
    } by {
        assert(argv[i] == argv.drop_last()[i]);
        if i >= 1 + f.len() + v.len() {
            assert(argv[i] == w[i - 1 - f.len() - v.len()]);
        } else if i >= 1 + f.len() {
            assert(argv[i] == v[i - 1 - f.len()]);
        } else if i >= 1 {
            assert(argv[i] == f[i - 1]);
        }
    }
}

/// `-debug` is passed exactly where the debug flag is set, and `-force`
/// exactly where the force flag is; each statement leaves out the template
/// that is itself its word.
pub proof fn debug_and_force_flags_follow_options(template: Seq<char>, o: OptionsModel)
    ensures
        template != "-debug"@ ==> (build_argv(template, o).contains("-debug"@) <==> o.debug),
        template != "-force"@ ==> (build_argv(template, o).contains("-force"@) <==> o.force),
{
    reveal_strlit("-debug");
    reveal_strlit("-force");
    reveal(flag_args);
    lemma_tags(template, o);
    let argv = build_argv(template, o);
    let last = argv.len() - 1;
    assert(argv[last] == template);
    if o.debug {
        assert(argv[1] == "-debug"@);
    }
    if o.force {
        if o.debug {
            assert(argv[2] == "-force"@);
        } else {
            assert(argv[1] == "-force"@);
        }
    }
    if argv.contains("-debug"@) && template != "-debug"@ {
        let i = choose|i: int| 0 <= i < argv.len() && argv[i] == "-debug"@;
        assert(i != last);
        assert(tag(argv[i]) == 'd');
    }
    if argv.contains("-force"@) && template != "-force"@ {
        let i = choose|i: int| 0 <= i < argv.len() && argv[i] == "-force"@;
        assert(i != last);
        assert(tag(argv[i]) == 'f');
    }
}

/// No token before the variables has the tag of a variable token.
proof fn lemma_head_tags(o: OptionsModel)
    ensures
        ({
            let head = seq!["build"@] + flag_args(o);
            forall|i: int| 0 <= i < head.len() ==> (#[trigger] head[i]).len() >= 2 && tag(head[i]) != 'v'
        }),
{
    reveal(flag_args);
    reveal_strlit("build");
    reveal_strlit("-debug");
    reveal_strlit("-force");
    reveal_strlit("-parallel-builds=");
    reveal_strlit("-color=false");
    reveal_strlit("-timestamp-ui");
    match o.parallel_builds {
        Some(n) => {
            assert(parallel_token(n)[1] == 'p');
        },
        None => {},
    }
    let f = flag_args(o);
    let head = seq!["build"@] + f;
    assert forall|i: int| 0 <= i < head.len() implies (#[trigger] head[i]).len() >= 2 && tag(head[i]) != 'v' by {
        if i >= 1 {
            assert(head[i] == f[i - 1]);
        }
    }
}

/// Whether `a` is a `-var=` token.
pub open spec fn is_var_token(a: Seq<char>) -> bool {
    "-var="@.is_prefix_of(a)
}

/// Whether `a` is a `-var-file=` token.
pub open spec fn is_var_file_token(a: Seq<char>) -> bool {
    "-var-file="@.is_prefix_of(a)
}

/// The tokens of `build` before the variables.
#[verifier::opaque]
spec fn head_args(o: OptionsModel) -> Seq<Seq<char>> {
    seq!["build"@] + flag_args(o)
}

proof fn lemma_head_has_neither(o: OptionsModel)
    ensures
        forall|i: int| 0 <= i < head_args(o).len() ==> !is_var_token(#[trigger] head_args(o)[i])
            && !is_var_file_token(head_args(o)[i]),
{
    reveal(head_args);
    reveal_strlit("-var=");
    reveal_strlit("-var-file=");
    let head = seq!["build"@] + flag_args(o);
    lemma_head_tags(o);
    assert forall|i: int| 0 <= i < head.len() implies !is_var_token(#[trigger] head[i])
        && !is_var_file_token(head[i]) by {
        if is_var_token(head[i]) {
            lemma_prefix_char("-var="@, head[i], 1);
        }
        if is_var_file_token(head[i]) {
            lemma_prefix_char("-var-file="@, head[i], 1);
        }
    }
}

proof fn lemma_var_args_kinds(o: OptionsModel)
    ensures
        forall|i: int| 0 <= i < var_args(o).len() ==> is_var_token(#[trigger] var_args(o)[i])
            && !is_var_file_token(var_args(o)[i]),
{
    reveal_strlit("-var=");
    reveal_strlit("-var-file=");
    let v = var_args(o);
    assert forall|i: int| 0 <= i < v.len() implies is_var_token(#[trigger] v[i]) && !is_var_file_token(v[i]) by {
        assert(v[i] == var_token(o.vars[i].0, o.vars[i].1));
        assert(v[i].subrange(0, 5) =~= "-var="@);
        if is_var_file_token(v[i]) {
            lemma_prefix_char("-var-file="@, v[i], 4);
        }
    }
}

proof fn lemma_var_file_args_kinds(o: OptionsModel)
    ensures
        forall|i: int| 0 <= i < var_file_args(o).len() ==> !is_var_token(#[trigger] var_file_args(o)[i])
            && is_var_file_token(var_file_args(o)[i]),
{
    reveal_strlit("-var=");
    reveal_strlit("-var-file=");
    let w = var_file_args(o);
    assert forall|i: int| 0 <= i < w.len() implies !is_var_token(#[trigger] w[i]) && is_var_file_token(w[i]) by {
        assert(w[i] == var_file_token(o.var_files[i]));
        assert(w[i].subrange(0, 10) =~= "-var-file="@);
        if is_var_token(w[i]) {
            lemma_prefix_char("-var="@, w[i], 4);
        }
    }
}

/// Where the `-var=` tokens of `build` begin: after the subcommand and the
/// flags.
pub open spec fn vars_start(o: OptionsModel) -> int {
    1 + flag_args(o).len() as int
}

/// `build` passes one `-var=` token per variable, duplicates included, side
/// by side in the order of the variables, and no other `-var=` token; a
/// template that itself begins with `-var=` is left out.
pub proof fn var_tokens_follow_variables(template: Seq<char>, o: OptionsModel)
    requires
        !is_var_token(template),
    ensures
        build_argv(template, o).subrange(vars_start(o), vars_start(o) + o.vars.len()) == var_args(o),
        var_args(o).len() == o.vars.len(),
        forall|i: int| 0 <= i < o.vars.len() ==> #[trigger] var_args(o)[i] == var_token(o.vars[i].0, o.vars[i].1),
        forall|i: int|
            0 <= i < build_argv(template, o).len() && !(vars_start(o) <= i < vars_start(o) + o.vars.len())
                ==> !is_var_token(#[trigger] build_argv(template, o)[i]),
{
    let argv = build_argv(template, o);
    let head = head_args(o);
    let v = var_args(o);
    let w = var_file_args(o);
    assert(argv == head + v + w + seq![template]) by {
        reveal(head_args);
    }
    assert(head.len() == vars_start(o)) by {
        reveal(head_args);
    }
    lemma_head_has_neither(o);
    lemma_var_args_kinds(o);
    lemma_var_file_args_kinds(o);
    assert(argv.subrange(head.len() as int, head.len() + v.len() as int) =~= v);
    assert forall|i: int| 0 <= i < argv.len() && !(vars_start(o) <= i < vars_start(o) + o.vars.len())
        implies !is_var_token(#[trigger] argv[i]) by {
        if i < head.len() {
            assert(argv[i] == head[i]);
        } else if i < head.len() + v.len() + w.len() {
            assert(argv[i] == w[i - head.len() - v.len()]);
        } else {
            assert(argv[i] == template);
        }
    }
}

/// Where the `-var-file=` tokens of `build` begin: after the variables.
pub open spec fn var_files_start(o: OptionsModel) -> int {
    1 + flag_args(o).len() as int + o.vars.len() as int
}

/// `build` passes one `-var-file=` token per variable file, each holding
/// its path verbatim, side by side in the order of the files, and no other
/// `-var-file=` token; a template that itself begins with `-var-file=` is
/// left out.
pub proof fn var_file_tokens_follow_files(template: Seq<char>, o: OptionsModel)
    requires
        !is_var_file_token(template),
    ensures
        build_argv(template, o).subrange(var_files_start(o), var_files_start(o) + o.var_files.len())
            == var_file_args(o),
        var_file_args(o).len() == o.var_files.len(),
        forall|i: int| 0 <= i < o.var_files.len() ==> #[trigger] var_file_args(o)[i] == "-var-file="@ + o.var_files[i],
        forall|i: int|
            0 <= i < build_argv(template, o).len() && !(var_files_start(o) <= i < var_files_start(o)
                + o.var_files.len()) ==> !is_var_file_token(#[trigger] build_argv(template, o)[i]),
{
    let argv = build_argv(template, o);
    let head = head_args(o);
    let v = var_args(o);
    let w = var_file_args(o);
    assert(argv == head + v + w + seq![template]) by {
        reveal(head_args);
    }
    assert(head.len() + v.len() == var_files_start(o)) by {
        reveal(head_args);
    }
    lemma_head_has_neither(o);
    lemma_var_args_kinds(o);
    lemma_var_file_args_kinds(o);
    assert(argv.subrange(head.len() + v.len() as int, head.len() + v.len() + w.len() as int) =~= w);
    assert forall|i: int| 0 <= i < argv.len() && !(var_files_start(o) <= i < var_files_start(o)
        + o.var_files.len()) implies !is_var_file_token(#[trigger] argv[i]) by {
        if i < head.len() {
            assert(argv[i] == head[i]);
        } else if i < head.len() + v.len() {
            assert(argv[i] == v[i - head.len()]);
        } else {
            assert(argv[i] == template);
        }
    }
}

/// Setting the working directory changes nothing else, and a later setting
/// replaces an earlier one.
pub proof fn working_dir_override_replaces(m: FacadeModel, first: Seq<char>, second: Seq<char>)
    ensures
        m.with_dir(first).executable == m.executable,
        m.with_dir(first).working_dir == Some(first),
        m.with_dir(first).with_dir(second) == m.with_dir(second),
{
}

/// A builder on which nothing was set yields exactly the default options.
pub proof fn unset_builder_yields_defaults()
    ensures
        BuilderModel::unset().resolve() == default_options(),
{
}

} // verus!
