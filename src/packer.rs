use vstd::prelude::*;

use crate::argv::{build_argv, optional, parallel_token, var_args, var_file_args, flag_args};
use crate::decimal::render_i32;
use crate::error::PackerError;
use crate::options::BuildOptions;

verus! {

/// What a facade is: the executable it runs and the directory, if any, in
/// which each child starts.
pub ghost struct FacadeModel {
    pub executable: Seq<char>,
    pub working_dir: Option<Seq<char>>,
}

impl FacadeModel {
    /// The same facade with its working directory set to `dir`.
    pub open spec fn with_dir(self, dir: Seq<char>) -> FacadeModel {
        FacadeModel { working_dir: Some(dir), ..self }
    }
}

/// One run of the executable: program, arguments and starting directory.
#[derive(Debug)]
pub struct Invocation {
    pub program: String,
    pub args: Vec<String>,
    pub working_dir: Option<String>,
}

/// The `packer` executable and the directory its children start in; it
/// builds the invocation of each subcommand.
#[derive(Debug, Clone)]
pub struct Packer {
    executable: String,
    working_dir: Option<String>,
}

impl View for Packer {
    type V = FacadeModel;

    closed spec fn view(&self) -> FacadeModel {
        FacadeModel { executable: self.executable@, working_dir: opt_view(self.working_dir) }
    }
}

pub open spec fn opt_view(o: Option<String>) -> Option<Seq<char>> {
    match o {
        Some(s) => Some(s@),
        None => None,
    }
}

fn copy_opt(o: &Option<String>) -> (r: Option<String>)
    ensures
        opt_view(r) == opt_view(*o),
{
    match o {
        Some(s) => Some(s.clone()),
        None => None,
    }
}

/// Relies on std::path::MAIN_SEPARATOR: the platform's path separator, `\\`
/// on Windows and `/` elsewhere.
#[verifier::external_body]
fn main_separator() -> (r: char) {
    std::path::MAIN_SEPARATOR
}

/// Relies on std::path::Path::exists: whether something is at `path` now.
/// What the disk holds decides, so nothing is promised of the result.
#[verifier::external_body]
fn path_exists(path: &str) -> (r: bool) {
    std::path::Path::new(path).exists()
}

/// The owned copies of `words`, in order.
fn owned_args(words: Vec<&str>) -> (r: Vec<String>)
    ensures
        r.deep_view() == words.deep_view(),
{
    let mut r: Vec<String> = Vec::new();
    let mut i: usize = 0;
    while i < words.len()
        invariant
            i <= words.len(),
            r.deep_view() =~= words.deep_view().subrange(0, i as int),
        decreases words.len() - i,
    {
        let ghost before = r.deep_view();
        let w = words[i].to_owned();
        let ghost token = w@;
        r.push(w);
        assert(r.deep_view() =~= before.push(token));
        i += 1;
        assert(r.deep_view() =~= words.deep_view().subrange(0, i as int));
    }
    assert(words.deep_view().subrange(0, i as int) =~= words.deep_view());
    r
}

/// Where the executable is looked for, given the platform's path separator:
/// `./packer.exe` where it is `\\` (Windows), `./packer` elsewhere.
pub open spec fn executable_for(separator: char) -> Seq<char> {
    if separator == '\\' {
        "./packer.exe"@
    } else {
        "./packer"@
    }
}

/// The path of the executable for the platform whose path separator is
/// `separator`.
pub fn default_executable(separator: char) -> (r: String)
    ensures
        r@ == executable_for(separator),
{
    if separator == '\\' {
        String::from_str("./packer.exe")
    } else {
        String::from_str("./packer")
    }
}

impl Packer {
    /// Looks for the executable beside the calling process: `./packer.exe` on
    /// Windows, `./packer` elsewhere. Fails with `NotFound` where it is absent;
    /// no working directory is set.
    pub fn new() -> (r: Result<Packer, PackerError>)
        ensures
            r matches Ok(p) ==> p@.working_dir is None && (p@.executable == "./packer"@
                || p@.executable == "./packer.exe"@),
            r is Err ==> r matches Err(PackerError::NotFound),
    {
        let executable = default_executable(main_separator());
        let found = path_exists(executable.as_str());
        Packer::located(executable, found)
    }

    /// The facade for `executable`, given whether it was found: `NotFound`
    /// exactly where it was not.
    pub fn located(executable: String, found: bool) -> (r: Result<Packer, PackerError>)
        ensures
            found ==> (r matches Ok(p) && p@ == (FacadeModel { executable: executable@, working_dir: None })),
            !found ==> r matches Err(PackerError::NotFound),
    {
        if found {
            Ok(Packer { executable, working_dir: None })
        } else {
            Err(PackerError::NotFound)
        }
    }

    /// The same facade, each child of which starts in `dir`; an earlier
    /// directory is replaced.
    pub fn with_working_dir(self, dir: String) -> (r: Packer)
        ensures
            r@ == self@.with_dir(dir@),
    {
        Packer { working_dir: Some(dir), ..self }
    }

    /// The path of the executable.
    pub fn executable(&self) -> (r: &str)
        ensures
            r@ == self@.executable,
    {
        self.executable.as_str()
    }

    /// The directory in which each child starts, if one is set.
    pub fn working_dir(&self) -> (r: Option<&str>)
        ensures
            match r {
                Some(d) => self@.working_dir == Some(d@),
                None => self@.working_dir is None,
            },
    {
        match &self.working_dir {
            Some(d) => Some(d.as_str()),
            None => None,
        }
    }

    /// The executable, in the working directory if one is set, with no
    /// arguments yet.
    pub fn base_command(&self) -> (r: Invocation)
        ensures
            r.program@ == self@.executable,
            opt_view(r.working_dir) == self@.working_dir,
            r.args.deep_view() == Seq::<Seq<char>>::empty(),
    {
        let r = self.command(Vec::new());
        assert(r.args.deep_view() =~= Seq::<Seq<char>>::empty());
        r
    }

    /// The invocation of this facade's executable with the given arguments.
    fn command(&self, args: Vec<String>) -> (r: Invocation)
        ensures
            r.program@ == self@.executable,
            opt_view(r.working_dir) == self@.working_dir,
            r.args.deep_view() == args.deep_view(),
    {
        Invocation { program: self.executable.clone(), args, working_dir: copy_opt(&self.working_dir) }
    }

    /// `init <template>`: installs what the template needs; run for its status.
    pub fn init(&self, template: &str) -> (r: Invocation)
        ensures
            r.program@ == self@.executable,
            opt_view(r.working_dir) == self@.working_dir,
            r.args.deep_view() == seq!["init"@, template@],
    {
        let words: Vec<&str> = vec!["init", template];
        assert(words.deep_view() =~= seq!["init"@, template@]);
        self.command(owned_args(words))
    }

    /// `validate <template>`: checks the template; run for its status.
    pub fn validate(&self, template: &str) -> (r: Invocation)
        ensures
            r.program@ == self@.executable,
            opt_view(r.working_dir) == self@.working_dir,
            r.args.deep_view() == seq!["validate"@, template@],
    {
        let words: Vec<&str> = vec!["validate", template];
        assert(words.deep_view() =~= seq!["validate"@, template@]);
        self.command(owned_args(words))
    }

    /// `inspect <template>`: describes the template; run for its output.
    pub fn inspect(&self, template: &str) -> (r: Invocation)
        ensures
            r.program@ == self@.executable,
            opt_view(r.working_dir) == self@.working_dir,
            r.args.deep_view() == seq!["inspect"@, template@],
    {
        let words: Vec<&str> = vec!["inspect", template];
        assert(words.deep_view() =~= seq!["inspect"@, template@]);
        self.command(owned_args(words))
    }

    /// `fix <template>`: rewrites the template for the current tool; run for its
    /// output.
    pub fn fix(&self, template: &str) -> (r: Invocation)
        ensures
            r.program@ == self@.executable,
            opt_view(r.working_dir) == self@.working_dir,
            r.args.deep_view() == seq!["fix"@, template@],
    {
        let words: Vec<&str> = vec!["fix", template];
        assert(words.deep_view() =~= seq!["fix"@, template@]);
        self.command(owned_args(words))
    }

    /// `version`: run for its output.
    pub fn version(&self) -> (r: Invocation)
        ensures
            r.program@ == self@.executable,
            opt_view(r.working_dir) == self@.working_dir,
            r.args.deep_view() == seq!["version"@],
    {
        let words: Vec<&str> = vec!["version"];
        assert(words.deep_view() =~= seq!["version"@]);
        self.command(owned_args(words))
    }

    /// `plugin install <name>`: run for its status.
    pub fn plugin_install(&self, plugin_name: &str) -> (r: Invocation)
        ensures
            r.program@ == self@.executable,
            opt_view(r.working_dir) == self@.working_dir,
            r.args.deep_view() == seq!["plugin"@, "install"@, plugin_name@],
    {
        let words: Vec<&str> = vec!["plugin", "install", plugin_name];
        assert(words.deep_view() =~= seq!["plugin"@, "install"@, plugin_name@]);
        self.command(owned_args(words))
    }

    /// `plugin remove <name>`: run for its status.
    pub fn plugin_remove(&self, plugin_name: &str) -> (r: Invocation)
        ensures
            r.program@ == self@.executable,
            opt_view(r.working_dir) == self@.working_dir,
            r.args.deep_view() == seq!["plugin"@, "remove"@, plugin_name@],
    {
        let words: Vec<&str> = vec!["plugin", "remove", plugin_name];
        assert(words.deep_view() =~= seq!["plugin"@, "remove"@, plugin_name@]);
        self.command(owned_args(words))
    }

    /// `plugin list`: run for its output.
    pub fn plugin_list(&self) -> (r: Invocation)
        ensures
            r.program@ == self@.executable,
            opt_view(r.working_dir) == self@.working_dir,
            r.args.deep_view() == seq!["plugin"@, "list"@],
    {
        let words: Vec<&str> = vec!["plugin", "list"];
        assert(words.deep_view() =~= seq!["plugin"@, "list"@]);
        self.command(owned_args(words))
    }

    /// `console <template>`: run for its status.
    pub fn console(&self, template: &str) -> (r: Invocation)
        ensures
            r.program@ == self@.executable,
            opt_view(r.working_dir) == self@.working_dir,
            r.args.deep_view() == seq!["console"@, template@],
    {
        let words: Vec<&str> = vec!["console", template];
        assert(words.deep_view() =~= seq!["console"@, template@]);
        self.command(owned_args(words))
    }

    /// `hcl2_upgrade <template>`: run for its output.
    pub fn hcl2_upgrade(&self, template: &str) -> (r: Invocation)
        ensures
            r.program@ == self@.executable,
            opt_view(r.working_dir) == self@.working_dir,
            r.args.deep_view() == seq!["hcl2_upgrade"@, template@],
    {
        let words: Vec<&str> = vec!["hcl2_upgrade", template];
        assert(words.deep_view() =~= seq!["hcl2_upgrade"@, template@]);
        self.command(owned_args(words))
    }

    /// `build`: the options' flags in their fixed order, then the template.
    pub fn build(&self, template: &str, options: &BuildOptions) -> (r: Invocation)
        ensures
            r.program@ == self@.executable,
            opt_view(r.working_dir) == self@.working_dir,
            r.args.deep_view() == build_argv(template@, options@),
    {
        let ghost o = options@;
        let mut args: Vec<String> = Vec::new();
        args.push(String::from_str("build"));
        let ghost head = seq!["build"@];
        assert(args.deep_view() =~= head);
        if options.debug {
            args.push(String::from_str("-debug"));
        }
        proof { head = head + optional(o.debug, "-debug"@); }
        assert(args.deep_view() =~= head);
        if options.force {
            args.push(String::from_str("-force"));
        }
        proof { head = head + optional(o.force, "-force"@); }
        assert(args.deep_view() =~= head);
        match options.parallel_builds {
            Some(n) => {
                let mut t = String::from_str("-parallel-builds=");
                let digits = render_i32(n);
                t.append(digits.as_str());
                args.push(t);
                proof { head = head + seq![parallel_token(n)]; }
            },
            None => {
                proof { head = head + Seq::empty(); }
            },
        }
        assert(args.deep_view() =~= head);
        if !options.color {
            args.push(String::from_str("-color=false"));
        }
        proof { head = head + optional(!o.color, "-color=false"@); }
        assert(args.deep_view() =~= head);
        if options.timestamp_ui {
            args.push(String::from_str("-timestamp-ui"));
        }
        proof { head = head + optional(o.timestamp_ui, "-timestamp-ui"@); }
        assert(args.deep_view() =~= head);
        assert(head =~= seq!["build"@] + flag_args(o)) by {
            reveal(flag_args);
        }
        let mut i: usize = 0;
        while i < options.vars.len()
            invariant
                o == options@,
                i <= options.vars.len(),
                args.deep_view() =~= head + var_args(o).subrange(0, i as int),
            decreases options.vars.len() - i,
        {
            let mut t = String::from_str("-var=");
            t.append(options.vars[i].0.as_str());
            t.append("=");
            t.append(options.vars[i].1.as_str());
            assert(t@ =~= var_args(o)[i as int]);
            let ghost before = args.deep_view();
            let ghost token = t@;
            args.push(t);
            assert(args.deep_view() =~= before.push(token));
            i += 1;
            assert(args.deep_view() =~= head + var_args(o).subrange(0, i as int));
        }
        assert(var_args(o).subrange(0, i as int) =~= var_args(o));
        proof { head = head + var_args(o); }
        let mut j: usize = 0;
        while j < options.var_files.len()
            invariant
                o == options@,
                j <= options.var_files.len(),
                args.deep_view() =~= head + var_file_args(o).subrange(0, j as int),
            decreases options.var_files.len() - j,
        {
            let mut t = String::from_str("-var-file=");
            t.append(options.var_files[j].as_str());
            assert(t@ =~= var_file_args(o)[j as int]);
            let ghost before = args.deep_view();
            let ghost token = t@;
            args.push(t);
            assert(args.deep_view() =~= before.push(token));
            j += 1;
            assert(args.deep_view() =~= head + var_file_args(o).subrange(0, j as int));
        }
        assert(var_file_args(o).subrange(0, j as int) =~= var_file_args(o));
        args.push(template.to_owned());
        assert(args.deep_view() =~= build_argv(template@, o));
        self.command(args)
    }
}

} // verus!
