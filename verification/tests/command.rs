use derive_builder::command::Command;

#[test]
fn builder_sets_and_builds() {
    let mut builder = Command::builder();
    assert_eq!(builder.executable, None);
    assert_eq!(builder.current_dir, None);

    let expected_executable = "cargo".to_owned();
    let expected_args = vec!["build".to_owned(), "--release".to_owned()];
    let expected_env = Vec::<String>::new();
    let expected_current_dir = "..".to_owned();

    builder.executable(expected_executable.clone());
    assert_eq!(builder.executable, Some(expected_executable.clone()));
    builder.args(expected_args.clone());
    assert_eq!(builder.args, Some(expected_args.clone()));
    builder.env(expected_env.clone());
    assert_eq!(builder.env, Some(expected_env.clone()));
    builder.current_dir(expected_current_dir.clone());
    assert_eq!(builder.current_dir, Some(expected_current_dir.clone()));

    let cmd = builder.build().unwrap();
    assert_eq!(cmd.executable, expected_executable);
    assert_eq!(cmd.args, expected_args);
    assert_eq!(cmd.env, expected_env);
    assert_eq!(cmd.current_dir, Some(expected_current_dir));
    assert_eq!(builder.executable, None);
    assert_eq!(builder.args, None);
}

#[test]
fn setters_chain() {
    let mut builder = Command::builder();
    builder.executable("ls".to_owned()).args(vec!["-l".to_owned()]).env(vec![]);
    let cmd = builder.build().unwrap();
    assert_eq!(cmd.executable, "ls");
    assert_eq!(cmd.current_dir, None);
}

#[test]
fn build_names_the_first_unset_field() {
    let mut builder = Command::builder();
    assert_eq!(builder.build().unwrap_err().to_string(), "Command field: `executable` not set");
    builder.executable("ls".to_owned());
    builder.env(vec![]);
    assert_eq!(builder.build().unwrap_err().to_string(), "Command field: `args` not set");
    assert_eq!(builder.executable, None);
    assert_eq!(builder.env, Some(vec![]));
}

#[test]
fn build_twice_fails() {
    let mut builder = Command::builder();
    builder.executable("ls".to_owned()).args(vec![]).env(vec![]);
    assert!(builder.build().is_ok());
    assert_eq!(builder.build().unwrap_err().message, "Command field: `executable` not set");
}

#[test]
fn env_unset_error() {
    let mut builder = Command::builder();
    builder.executable("ls".to_owned()).args(vec![]);
    assert_eq!(builder.build().unwrap_err().message, "Command field: `env` not set");
    assert_eq!(builder.args, None);
}
