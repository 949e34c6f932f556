use packer_facade::{
    captured_result, default_executable, output_result, render_i32, status_result, BuildOptions, BuildOptionsBuilder,
    CapturedOutput, ExitReport, Packer, PackerError,
};

fn dummy() -> Packer {
    Packer::located("dummy".to_string(), true).unwrap()
}

fn strings(words: &[&str]) -> Vec<String> {
    words.iter().map(|w| w.to_string()).collect()
}

#[test]
fn test_build_options_builder() {
    let options = BuildOptionsBuilder::default()
        .debug(true)
        .force(true)
        .parallel_builds(Some(2))
        .vars(vec![("key".to_string(), "value".to_string())])
        .build()
        .unwrap();

    assert!(options.debug);
    assert!(options.force);
    assert_eq!(options.parallel_builds, Some(2));
    assert_eq!(options.vars.len(), 1);
    assert_eq!(options.vars[0].0, "key");
    assert_eq!(options.vars[0].1, "value");
}

#[test]
fn test_packer_new_not_found() {
    // The crate's own directory holds no packer executable.
    let packer = Packer::new();
    assert!(packer.is_err());
    assert!(matches!(packer, Err(PackerError::NotFound)));
}

#[test]
fn test_packer_with_working_dir() {
    let test_dir = tempfile::tempdir().unwrap();
    let dir = test_dir.path().to_str().unwrap().to_string();
    let packer = dummy().with_working_dir(dir.clone());

    assert_eq!(packer.working_dir().unwrap(), dir);
}

#[test]
fn test_build_options_default() {
    let options = BuildOptions::default();
    assert!(!options.debug);
    assert!(!options.force);
    assert!(options.color);
    assert!(options.vars.is_empty());
    assert!(options.var_files.is_empty());
    assert_eq!(options.parallel_builds, None);
}

#[test]
fn test_build_command_construction() {
    let packer = dummy();

    let options = BuildOptionsBuilder::default()
        .debug(true)
        .force(true)
        .parallel_builds(Some(2))
        .vars(vec![("region".to_string(), "us-west-2".to_string())])
        .var_files(vec!["vars.json".to_string()])
        .build()
        .unwrap();

    let cmd = packer.base_command();
    assert_eq!(cmd.program, "dummy");
    let run = packer.build("template.pkr.hcl", &options);
    assert_eq!(
        run.args,
        strings(&[
            "build",
            "-debug",
            "-force",
            "-parallel-builds=2",
            "-var=region=us-west-2",
            "-var-file=vars.json",
            "template.pkr.hcl",
        ])
    );
}

#[test]
fn unset_builder_matches_default_options() {
    let built = BuildOptionsBuilder::default().build().unwrap();
    assert!(!built.debug);
    assert!(!built.force);
    assert!(!built.timestamp_ui);
    assert!(built.color);
    assert_eq!(built.parallel_builds, None);
    assert!(built.vars.is_empty());
    assert!(built.var_files.is_empty());
}

#[test]
fn builder_is_reusable() {
    let builder = BuildOptionsBuilder::default().force(true).var_files(vec!["a.json".to_string()]);
    let first = builder.build().unwrap();
    let second = builder.build().unwrap();
    assert!(first.force && second.force);
    assert_eq!(first.var_files, second.var_files);
    assert_eq!(first.var_files, strings(&["a.json"]));
}

#[test]
fn default_build_has_only_subcommand_and_template() {
    let run = dummy().build("t.pkr.hcl", &BuildOptions::default());
    assert_eq!(run.args, strings(&["build", "t.pkr.hcl"]));
    assert_eq!(run.program, "dummy");
    assert_eq!(run.working_dir, None);
}

#[test]
fn every_flag_in_fixed_order() {
    let options = BuildOptionsBuilder::default()
        .timestamp_ui(true)
        .color(false)
        .parallel_builds(Some(-15))
        .force(true)
        .debug(true)
        .var_files(vec!["one.json".to_string(), "two dir/two.json".to_string()])
        .vars(vec![
            ("region".to_string(), "us-west-2".to_string()),
            ("region".to_string(), "eu-central-1".to_string()),
            ("size".to_string(), "a=b".to_string()),
        ])
        .build()
        .unwrap();
    let run = dummy().build("t", &options);
    assert_eq!(
        run.args,
        strings(&[
            "build",
            "-debug",
            "-force",
            "-parallel-builds=-15",
            "-color=false",
            "-timestamp-ui",
            "-var=region=us-west-2",
            "-var=region=eu-central-1",
            "-var=size=a=b",
            "-var-file=one.json",
            "-var-file=two dir/two.json",
            "t",
        ])
    );
}

#[test]
fn debug_and_force_appear_only_when_set() {
    for (debug, force) in [(false, false), (true, false), (false, true), (true, true)] {
        let options = BuildOptionsBuilder::default().debug(debug).force(force).build().unwrap();
        let args = dummy().build("t", &options).args;
        assert_eq!(args.contains(&"-debug".to_string()), debug);
        assert_eq!(args.contains(&"-force".to_string()), force);
    }
}

#[test]
fn var_tokens_count_and_order() {
    let vars = vec![
        ("k".to_string(), "1".to_string()),
        ("k".to_string(), "2".to_string()),
        ("j".to_string(), "".to_string()),
    ];
    let options = BuildOptionsBuilder::default().vars(vars).build().unwrap();
    let args = dummy().build("t", &options).args;
    let var_tokens: Vec<&String> = args.iter().filter(|a| a.starts_with("-var=")).collect();
    assert_eq!(var_tokens, vec!["-var=k=1", "-var=k=2", "-var=j="]);
}

#[test]
fn var_file_tokens_verbatim_in_order() {
    let files = strings(&["z.json", "a.json", "./dir/ü.json"]);
    let options = BuildOptionsBuilder::default().var_files(files).build().unwrap();
    let args = dummy().build("t", &options).args;
    let file_tokens: Vec<&String> = args.iter().filter(|a| a.starts_with("-var-file=")).collect();
    assert_eq!(file_tokens, vec!["-var-file=z.json", "-var-file=a.json", "-var-file=./dir/ü.json"]);
}

#[test]
fn parallel_count_in_decimal() {
    assert_eq!(render_i32(0), "0");
    assert_eq!(render_i32(7), "7");
    assert_eq!(render_i32(1234567890), "1234567890");
    assert_eq!(render_i32(-40), "-40");
    assert_eq!(render_i32(i32::MIN), "-2147483648");
    assert_eq!(render_i32(i32::MAX), "2147483647");
}

#[test]
fn located_reports_missing_executable() {
    assert!(matches!(Packer::located("./packer".to_string(), false), Err(PackerError::NotFound)));
    let packer = Packer::located("./packer".to_string(), true).unwrap();
    assert_eq!(packer.executable(), "./packer");
    assert_eq!(packer.working_dir(), None);
}

#[test]
fn working_dir_override_replaces_earlier_one() {
    let packer = dummy().with_working_dir("first".to_string()).with_working_dir("second".to_string());
    assert_eq!(packer.working_dir(), Some("second"));
    assert_eq!(packer.executable(), "dummy");
    let run = packer.init("t.pkr.hcl");
    assert_eq!(run.working_dir, Some("second".to_string()));
}

#[test]
fn subcommand_arguments() {
    let p = dummy();
    assert_eq!(p.init("t").args, strings(&["init", "t"]));
    assert_eq!(p.validate("t").args, strings(&["validate", "t"]));
    assert_eq!(p.inspect("t").args, strings(&["inspect", "t"]));
    assert_eq!(p.fix("t").args, strings(&["fix", "t"]));
    assert_eq!(p.version().args, strings(&["version"]));
    assert_eq!(p.plugin_install("amazon").args, strings(&["plugin", "install", "amazon"]));
    assert_eq!(p.plugin_remove("amazon").args, strings(&["plugin", "remove", "amazon"]));
    assert_eq!(p.plugin_list().args, strings(&["plugin", "list"]));
    assert_eq!(p.console("t").args, strings(&["console", "t"]));
    assert_eq!(p.hcl2_upgrade("t").args, strings(&["hcl2_upgrade", "t"]));
}

#[test]
fn failed_status_is_execution_error() {
    let failed = status_result(Ok(ExitReport { success: false, description: "exit status: 1".to_string() }));
    match failed {
        Err(PackerError::ExecutionError(m)) => assert_eq!(m, "Command failed with exit code: exit status: 1"),
        other => panic!("unexpected {:?}", other),
    }
    let ok = status_result(Ok(ExitReport { success: true, description: "exit status: 0".to_string() }));
    assert!(ok.is_ok());
}

#[test]
fn spawn_failure_is_io_error() {
    let err = std::io::Error::new(std::io::ErrorKind::NotFound, "no such file");
    assert!(matches!(status_result(Err(err)), Err(PackerError::IoError(_))));
    let err = std::io::Error::new(std::io::ErrorKind::PermissionDenied, "denied");
    let r = output_result(Err(err));
    match r {
        Err(e @ PackerError::IoError(_)) => assert_eq!(e.message(), "IO error: denied"),
        other => panic!("unexpected {:?}", other),
    }
}

#[test]
fn captured_stdout_returned_verbatim() {
    let out = CapturedOutput { success: true, stdout: b"Packer v1.9.4\n".to_vec(), stderr: b"noise".to_vec() };
    assert_eq!(output_result(Ok(out)).unwrap(), "Packer v1.9.4\n");
}

#[test]
fn captured_stdout_lossy_on_invalid_bytes() {
    let out = CapturedOutput { success: true, stdout: vec![0x66, 0xff, 0x6f], stderr: Vec::new() };
    assert_eq!(output_result(Ok(out)).unwrap(), "f\u{FFFD}o");
}

#[test]
fn captured_failure_carries_stderr() {
    let out = CapturedOutput { success: false, stdout: b"partial".to_vec(), stderr: b"bad template\xfe".to_vec() };
    match output_result(Ok(out)) {
        Err(PackerError::ExecutionError(m)) => assert_eq!(m, "bad template\u{FFFD}"),
        other => panic!("unexpected {:?}", other),
    }
}

#[test]
fn captured_result_by_success() {
    assert_eq!(captured_result(true, "out".to_string()).unwrap(), "out");
    assert!(matches!(captured_result(false, "err".to_string()), Err(PackerError::ExecutionError(m)) if m == "err"));
}

#[test]
fn error_messages() {
    assert_eq!(PackerError::NotFound.message(), "Failed to find Packer executable");
    assert_eq!(
        PackerError::ExecutionError("boom".to_string()).message(),
        "Failed to execute Packer command: boom"
    );
    assert_eq!(PackerError::ConfigError("x".to_string()).message(), "Invalid configuration: x");
}

#[test]
fn executable_name_follows_platform_separator() {
    assert_eq!(default_executable('\\'), "./packer.exe");
    assert_eq!(default_executable('/'), "./packer");
}
