use xcclean::command::{CleanSubCommand, Command, InfoSubCommand, UsageError};

#[test]
fn test_new_info_all_cmd() {
    let args: Vec<String> = vec!["".to_string(), "info".to_string(), "all".to_string()];
    let cmd = Command::new(&args);

    assert_eq!(cmd, Command::Info(InfoSubCommand::All))
}

#[test]
fn test_new_info_caches_cmd() {
    let args: Vec<String> = vec!["".to_string(), "info".to_string(), "caches".to_string()];
    let cmd = Command::new(&args);

    assert_eq!(cmd, Command::Info(InfoSubCommand::Caches))
}

#[test]
fn test_new_info_derived_data_cmd() {
    let args: Vec<String> = vec![
        "".to_string(),
        "info".to_string(),
        "derived-data".to_string(),
    ];
    let cmd = Command::new(&args);

    assert_eq!(cmd, Command::Info(InfoSubCommand::DerivedData))
}

#[test]
fn test_new_info_simulators_cmd() {
    let args: Vec<String> = vec!["".to_string(), "info".to_string(), "simulators".to_string()];
    let cmd = Command::new(&args);

    assert_eq!(cmd, Command::Info(InfoSubCommand::Simulators))
}

#[test]
fn test_new_clean_all_cmd() {
    let args: Vec<String> = vec!["".to_string(), "clean".to_string(), "all".to_string()];
    let cmd = Command::new(&args);

    assert_eq!(cmd, Command::Clean(CleanSubCommand::All))
}

#[test]
fn test_new_clean_caches_cmd() {
    let args: Vec<String> = vec!["".to_string(), "clean".to_string(), "caches".to_string()];
    let cmd = Command::new(&args);

    assert_eq!(cmd, Command::Clean(CleanSubCommand::Caches))
}

#[test]
fn test_new_clean_derived_data_cmd() {
    let args: Vec<String> = vec![
        "".to_string(),
        "clean".to_string(),
        "derived-data".to_string(),
    ];
    let cmd = Command::new(&args);

    assert_eq!(cmd, Command::Clean(CleanSubCommand::DerivedData))
}

#[test]
fn test_new_clean_simulators_cmd() {
    let args: Vec<String> = vec![
        "".to_string(),
        "clean".to_string(),
        "simulators".to_string(),
        "1234".to_string(),
    ];
    let cmd = Command::new(&args);

    assert_eq!(
        cmd,
        Command::Clean(CleanSubCommand::Simulators(String::from("1234")))
    )
}

fn args_of(words: &[&str]) -> Vec<String> {
    words.iter().map(|w| w.to_string()).collect()
}

#[test]
fn parse_accepts_every_known_command() {
    assert_eq!(
        Command::parse(&args_of(&["x", "info", "all"])),
        Ok(Command::Info(InfoSubCommand::All))
    );
    assert_eq!(
        Command::parse(&args_of(&["x", "info", "caches"])),
        Ok(Command::Info(InfoSubCommand::Caches))
    );
    assert_eq!(
        Command::parse(&args_of(&["x", "info", "derived-data"])),
        Ok(Command::Info(InfoSubCommand::DerivedData))
    );
    assert_eq!(
        Command::parse(&args_of(&["x", "info", "simulators"])),
        Ok(Command::Info(InfoSubCommand::Simulators))
    );
    assert_eq!(
        Command::parse(&args_of(&["x", "clean", "all"])),
        Ok(Command::Clean(CleanSubCommand::All))
    );
    assert_eq!(
        Command::parse(&args_of(&["x", "clean", "caches"])),
        Ok(Command::Clean(CleanSubCommand::Caches))
    );
    assert_eq!(
        Command::parse(&args_of(&["x", "clean", "derived-data"])),
        Ok(Command::Clean(CleanSubCommand::DerivedData))
    );
    assert_eq!(
        Command::parse(&args_of(&["x", "clean", "simulators", "A-1"])),
        Ok(Command::Clean(CleanSubCommand::Simulators("A-1".to_string())))
    );
}

#[test]
fn parse_rejects_unknown_verb() {
    assert_eq!(
        Command::parse(&args_of(&["x", "report", "all"])),
        Err(UsageError::UnknownCommand)
    );
}

#[test]
fn parse_rejects_unknown_target() {
    assert_eq!(
        Command::parse(&args_of(&["x", "info", "devices-and-more"])),
        Err(UsageError::UnknownCommand)
    );
    assert_eq!(
        Command::parse(&args_of(&["x", "clean", "Caches"])),
        Err(UsageError::UnknownCommand)
    );
}

#[test]
fn parse_rejects_missing_arguments() {
    assert_eq!(
        Command::parse(&args_of(&["x"])),
        Err(UsageError::MissingArgument)
    );
    assert_eq!(
        Command::parse(&args_of(&["x", "info"])),
        Err(UsageError::MissingArgument)
    );
    assert_eq!(
        Command::parse(&args_of(&["x", "clean"])),
        Err(UsageError::MissingArgument)
    );
}

#[test]
fn parse_rejects_clean_simulators_without_identifier() {
    assert_eq!(
        Command::parse(&args_of(&["x", "clean", "simulators"])),
        Err(UsageError::MissingArgument)
    );
}
