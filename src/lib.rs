//! A typed facade over the `packer` image-building tool: it turns typed
//! options into argument vectors and maps the outcome of a finished
//! child process into typed results. Spawning the child is left to the
//! caller.

mod argv;
mod decimal;
mod error;
mod laws;
mod options;
mod outcome;
mod packer;

pub use argv::{build_argv, flag_args, optional, parallel_token, var_args, var_file_args, var_file_token, var_token};
pub use decimal::{decimal, digit_char, digits, render_i32};
pub use error::PackerError;
pub use laws::{
    debug_and_force_flags_follow_options, default_options_add_no_flags, is_var_file_token, is_var_token,
    unset_builder_yields_defaults, var_file_tokens_follow_files, var_files_start, var_tokens_follow_variables,
    vars_start, working_dir_override_replaces,
};
pub use options::{default_options, BuildOptions, BuildOptionsBuilder, BuilderModel, OptionsModel};
pub use outcome::{
    captured_result, failure_message, lossy_text, output_result, status_result, CapturedOutput, ExitReport,
};
pub use packer::{default_executable, executable_for, opt_view, FacadeModel, Invocation, Packer};
