use vstd::prelude::*;

use crate::error::PackerError;

verus! {

/// What a set of build options says, as mathematical values.
pub ghost struct OptionsModel {
    pub parallel_builds: Option<i32>,
    pub debug: bool,
    pub force: bool,
    pub timestamp_ui: bool,
    pub color: bool,
    pub vars: Seq<(Seq<char>, Seq<char>)>,
    pub var_files: Seq<Seq<char>>,
}

/// The options in effect where none is given: no parallelism cap, every
/// flag off but color, and no variables.
pub open spec fn default_options() -> OptionsModel {
    OptionsModel {
        parallel_builds: None,
        debug: false,
        force: false,
        timestamp_ui: false,
        color: true,
        vars: Seq::empty(),
        var_files: Seq::empty(),
    }
}

/// The options of one `build` run.
#[derive(Debug)]
pub struct BuildOptions {
    pub parallel_builds: Option<i32>,
    pub debug: bool,
    pub force: bool,
    pub timestamp_ui: bool,
    pub color: bool,
    /// Variable overrides, in the order they are passed; keys may repeat.
    pub vars: Vec<(String, String)>,
    /// Variable files, in the order they are passed.
    pub var_files: Vec<String>,
}

impl View for BuildOptions {
    type V = OptionsModel;

    open spec fn view(&self) -> OptionsModel {
        OptionsModel {
            parallel_builds: self.parallel_builds,
            debug: self.debug,
            force: self.force,
            timestamp_ui: self.timestamp_ui,
            color: self.color,
            vars: self.vars.deep_view(),
            var_files: self.var_files.deep_view(),
        }
    }
}

impl Default for BuildOptions {
    fn default() -> (r: BuildOptions)
        ensures
            r@ == default_options(),
    {
        let r = BuildOptions {
            parallel_builds: None,
            debug: false,
            force: false,
            timestamp_ui: false,
            color: true,
            vars: Vec::new(),
            var_files: Vec::new(),
        };
        assert(r@.vars =~= Seq::empty());
        assert(r@.var_files =~= Seq::empty());
        r
    }
}

fn copy_pairs(v: &Vec<(String, String)>) -> (r: Vec<(String, String)>)
    ensures
        r.deep_view() == v.deep_view(),
{
    let mut r: Vec<(String, String)> = Vec::new();
    let mut i: usize = 0;
    while i < v.len()
        invariant
            i <= v.len(),
            r@ =~= v@.subrange(0, i as int),
        decreases v.len() - i,
    {
        let k = v[i].0.clone();
        let x = v[i].1.clone();
        r.push((k, x));
        i += 1;
        assert(r@ =~= v@.subrange(0, i as int));
    }
    assert(r@ =~= v@);
    r
}

fn copy_strings(v: &Vec<String>) -> (r: Vec<String>)
    ensures
        r.deep_view() == v.deep_view(),
{
    let mut r: Vec<String> = Vec::new();
    let mut i: usize = 0;
    while i < v.len()
        invariant
            i <= v.len(),
            r@ =~= v@.subrange(0, i as int),
        decreases v.len() - i,
    {
        r.push(v[i].clone());
        i += 1;
        assert(r@ =~= v@.subrange(0, i as int));
    }
    assert(r@ =~= v@);
    r
}

/// What a builder holds: for each field, the value given, if any.
pub ghost struct BuilderModel {
    pub parallel_builds: Option<Option<i32>>,
    pub debug: Option<bool>,
    pub force: Option<bool>,
    pub timestamp_ui: Option<bool>,
    pub color: Option<bool>,
    pub vars: Option<Seq<(Seq<char>, Seq<char>)>>,
    pub var_files: Option<Seq<Seq<char>>>,
}

impl BuilderModel {
    /// A builder on which no field has been set.
    pub open spec fn unset() -> BuilderModel {
        BuilderModel {
            parallel_builds: None,
            debug: None,
            force: None,
            timestamp_ui: None,
            color: None,
            vars: None,
            var_files: None,
        }
    }

    /// The options a builder produces: each field as given, else its default.
    pub open spec fn resolve(self) -> OptionsModel {
        let d = default_options();
        OptionsModel {
            parallel_builds: match self.parallel_builds {
                Some(p) => p,
                None => d.parallel_builds,
            },
            debug: match self.debug {
                Some(b) => b,
                None => d.debug,
            },
            force: match self.force {
                Some(b) => b,
                None => d.force,
            },
            timestamp_ui: match self.timestamp_ui {
                Some(b) => b,
                None => d.timestamp_ui,
            },
            color: match self.color {
                Some(b) => b,
                None => d.color,
            },
            vars: match self.vars {
                Some(v) => v,
                None => d.vars,
            },
            var_files: match self.var_files {
                Some(v) => v,
                None => d.var_files,
            },
        }
    }
}

/// Collects options field by field; `build` fills the rest with defaults.
/// A builder can produce any number of option sets.
#[derive(Debug)]
pub struct BuildOptionsBuilder {
    parallel_builds: Option<Option<i32>>,
    debug: Option<bool>,
    force: Option<bool>,
    timestamp_ui: Option<bool>,
    color: Option<bool>,
    vars: Option<Vec<(String, String)>>,
    var_files: Option<Vec<String>>,
}

impl View for BuildOptionsBuilder {
    type V = BuilderModel;

    closed spec fn view(&self) -> BuilderModel {
        BuilderModel {
            parallel_builds: self.parallel_builds,
            debug: self.debug,
            force: self.force,
            timestamp_ui: self.timestamp_ui,
            color: self.color,
            vars: match self.vars {
                Some(v) => Some(v.deep_view()),
                None => None,
            },
            var_files: match self.var_files {
                Some(v) => Some(v.deep_view()),
                None => None,
            },
        }
    }
}

impl Default for BuildOptionsBuilder {
    fn default() -> (r: BuildOptionsBuilder)
        ensures
            r@ == BuilderModel::unset(),
    {
        BuildOptionsBuilder {
            parallel_builds: None,
            debug: None,
            force: None,
            timestamp_ui: None,
            color: None,
            vars: None,
            var_files: None,
        }
    }
}

impl BuildOptionsBuilder {
    pub fn parallel_builds(self, value: Option<i32>) -> (r: BuildOptionsBuilder)
        ensures
            r@ == (BuilderModel { parallel_builds: Some(value), ..self@ }),
    {
        BuildOptionsBuilder { parallel_builds: Some(value), ..self }
    }

    pub fn debug(self, value: bool) -> (r: BuildOptionsBuilder)
        ensures
            r@ == (BuilderModel { debug: Some(value), ..self@ }),
    {
        BuildOptionsBuilder { debug: Some(value), ..self }
    }

    pub fn force(self, value: bool) -> (r: BuildOptionsBuilder)
        ensures
            r@ == (BuilderModel { force: Some(value), ..self@ }),
    {
        BuildOptionsBuilder { force: Some(value), ..self }
    }

    pub fn timestamp_ui(self, value: bool) -> (r: BuildOptionsBuilder)
        ensures
            r@ == (BuilderModel { timestamp_ui: Some(value), ..self@ }),
    {
        BuildOptionsBuilder { timestamp_ui: Some(value), ..self }
    }

    pub fn color(self, value: bool) -> (r: BuildOptionsBuilder)
        ensures
            r@ == (BuilderModel { color: Some(value), ..self@ }),
    {
        BuildOptionsBuilder { color: Some(value), ..self }
    }

    pub fn vars(self, value: Vec<(String, String)>) -> (r: BuildOptionsBuilder)
        ensures
            r@ == (BuilderModel { vars: Some(value.deep_view()), ..self@ }),
    {
        BuildOptionsBuilder { vars: Some(value), ..self }
    }

    pub fn var_files(self, value: Vec<String>) -> (r: BuildOptionsBuilder)
        ensures
            r@ == (BuilderModel { var_files: Some(value.deep_view()), ..self@ }),
    {
        BuildOptionsBuilder { var_files: Some(value), ..self }
    }

    /// Produces the options: each field as set, else its default. The
    /// builder is left as it was. No combination of fields is refused.
    pub fn build(&self) -> (r: Result<BuildOptions, PackerError>)
        ensures
            r matches Ok(o) && o@ == self@.resolve(),
    {
        let parallel_builds = match self.parallel_builds {
            Some(p) => p,
            None => None,
        };
        let debug = match self.debug {
            Some(b) => b,
            None => false,
        };
        let force = match self.force {
            Some(b) => b,
            None => false,
        };
        let timestamp_ui = match self.timestamp_ui {
            Some(b) => b,
            None => false,
        };
        let color = match self.color {
            Some(b) => b,
            None => true,
        };
        let vars = match &self.vars {
            Some(v) => copy_pairs(v),
            None => Vec::new(),
        };
        let var_files = match &self.var_files {
            Some(v) => copy_strings(v),
            None => Vec::new(),
        };
        let o = BuildOptions { parallel_builds, debug, force, timestamp_ui, color, vars, var_files };
        assert(o@.vars =~= self@.resolve().vars);
        assert(o@.var_files =~= self@.resolve().var_files);
        Ok(o)
    }
}

} // verus!
