use xcclean::command::{CleanSubCommand, Command, InfoSubCommand};
use xcclean::paths::home_path_to;
use xcclean::plan::{
    caches_path, derived_data_path, device_path, devices_path, failed_message, handle_cmd,
    removed_message, Plan,
};

const HOME: &str = "/Users/dev";

#[test]
fn well_known_paths_resolve_under_home() {
    assert_eq!(
        derived_data_path(HOME),
        "/Users/dev/Library/Developer/Xcode/DerivedData"
    );
    assert_eq!(
        caches_path(HOME),
        "/Users/dev/Library/Developer/CoreSimulator/Caches"
    );
    assert_eq!(
        devices_path(HOME),
        "/Users/dev/Library/Developer/CoreSimulator/Devices"
    );
    assert_eq!(
        device_path(HOME, "AB-12"),
        "/Users/dev/Library/Developer/CoreSimulator/Devices/AB-12"
    );
    assert_eq!(home_path_to(HOME, "/x"), "/Users/dev/x");
}

#[test]
fn info_all_reports_the_three_well_known_directories() {
    let plan = handle_cmd(&Command::Info(InfoSubCommand::All), HOME);
    match plan {
        Plan::ReportDirectories(dirs) => {
            assert_eq!(
                dirs,
                vec![
                    "/Users/dev/Library/Developer/Xcode/DerivedData".to_string(),
                    "/Users/dev/Library/Developer/CoreSimulator/Caches".to_string(),
                    "/Users/dev/Library/Developer/CoreSimulator/Devices".to_string(),
                ]
            );
        }
        other => panic!("wrong plan: {}", plan_name(&other)),
    }
}

#[test]
fn info_single_targets_report_their_directory() {
    match handle_cmd(&Command::Info(InfoSubCommand::Caches), HOME) {
        Plan::ReportDirectories(dirs) => {
            assert_eq!(
                dirs,
                vec!["/Users/dev/Library/Developer/CoreSimulator/Caches".to_string()]
            )
        }
        other => panic!("wrong plan: {}", plan_name(&other)),
    }
    match handle_cmd(&Command::Info(InfoSubCommand::DerivedData), HOME) {
        Plan::ReportDirectories(dirs) => {
            assert_eq!(
                dirs,
                vec!["/Users/dev/Library/Developer/Xcode/DerivedData".to_string()]
            )
        }
        other => panic!("wrong plan: {}", plan_name(&other)),
    }
    match handle_cmd(&Command::Info(InfoSubCommand::Simulators), HOME) {
        Plan::ReportSimulators(root) => {
            assert_eq!(root, "/Users/dev/Library/Developer/CoreSimulator/Devices")
        }
        other => panic!("wrong plan: {}", plan_name(&other)),
    }
}

#[test]
fn clean_targets_remove_their_directory() {
    match handle_cmd(&Command::Clean(CleanSubCommand::Caches), HOME) {
        Plan::RemoveDirectory(path) => {
            assert_eq!(path, "/Users/dev/Library/Developer/CoreSimulator/Caches")
        }
        other => panic!("wrong plan: {}", plan_name(&other)),
    }
    match handle_cmd(&Command::Clean(CleanSubCommand::DerivedData), HOME) {
        Plan::RemoveDirectory(path) => {
            assert_eq!(path, "/Users/dev/Library/Developer/Xcode/DerivedData")
        }
        other => panic!("wrong plan: {}", plan_name(&other)),
    }
}

#[test]
fn clean_all_only_announces_itself() {
    match handle_cmd(&Command::Clean(CleanSubCommand::All), HOME) {
        Plan::AnnounceOnly(msg) => assert_eq!(msg, "Cleaning all..."),
        other => panic!("wrong plan: {}", plan_name(&other)),
    }
}

#[test]
fn clean_simulators_targets_exactly_the_named_device_directory() {
    let cmd = Command::Clean(CleanSubCommand::Simulators("no-such-device".to_string()));
    match handle_cmd(&cmd, HOME) {
        Plan::RemoveDirectory(path) => assert_eq!(
            path,
            "/Users/dev/Library/Developer/CoreSimulator/Devices/no-such-device"
        ),
        other => panic!("wrong plan: {}", plan_name(&other)),
    }
}

#[test]
fn failure_message_carries_the_underlying_error() {
    let error = "No such file or directory (os error 2)";
    let message = failed_message(error);
    assert_eq!(message, format!("Failed: {}", error));
    assert!(message.contains(error));
}

#[test]
fn removed_message_carries_the_prior_report() {
    assert_eq!(
        removed_message("/Users/dev/x, 2.00 GB"),
        "Removed: /Users/dev/x, 2.00 GB"
    );
}

fn plan_name(p: &Plan) -> &'static str {
    match p {
        Plan::ReportDirectories(_) => "ReportDirectories",
        Plan::ReportSimulators(_) => "ReportSimulators",
        Plan::RemoveDirectory(_) => "RemoveDirectory",
        Plan::AnnounceOnly(_) => "AnnounceOnly",
    }
}
