//! The dispatcher: maps a parsed command to the filesystem work it asks
//! for, as plain values the caller carries out, and renders the outcome
//! messages of a clean operation.

use vstd::prelude::*;
use vstd::string::StringExecFns;
use crate::command::{CleanSubCommand, CleanSubCommandView, Command, CommandView, InfoSubCommand};
use crate::paths::home_path_to;

verus! {

/// The path of the build-artifact cache under the given home directory.
pub open spec fn spec_derived_data_path(home: Seq<char>) -> Seq<char> {
    home + "/Library/Developer/Xcode/DerivedData"@
}

/// The path of the simulator cache directory under the given home
/// directory.
pub open spec fn spec_caches_path(home: Seq<char>) -> Seq<char> {
    home + "/Library/Developer/CoreSimulator/Caches"@
}

/// The path of the simulator-devices root under the given home
/// directory.
pub open spec fn spec_devices_path(home: Seq<char>) -> Seq<char> {
    home + "/Library/Developer/CoreSimulator/Devices"@
}

/// The path of one simulator device directory: the devices root with
/// the device identifier as its last component.
pub open spec fn spec_device_path(home: Seq<char>, udid: Seq<char>) -> Seq<char> {
    home + "/Library/Developer/CoreSimulator/Devices/"@ + udid
}

pub fn derived_data_path(home: &str) -> (r: String)
    ensures
        r@ == spec_derived_data_path(home@),
{
    home_path_to(home, "/Library/Developer/Xcode/DerivedData")
}

pub fn caches_path(home: &str) -> (r: String)
    ensures
        r@ == spec_caches_path(home@),
{
    home_path_to(home, "/Library/Developer/CoreSimulator/Caches")
}

pub fn devices_path(home: &str) -> (r: String)
    ensures
        r@ == spec_devices_path(home@),
{
    home_path_to(home, "/Library/Developer/CoreSimulator/Devices")
}

pub fn device_path(home: &str, udid: &str) -> (r: String)
    ensures
        r@ == spec_device_path(home@, udid@),
{
    let mut r = home_path_to(home, "/Library/Developer/CoreSimulator/Devices/");
    r.append(udid);
    r
}

/// The filesystem work one command asks for.
pub enum Plan {
    /// Walk each listed directory and report its size.
    ReportDirectories(Vec<String>),
    /// Enumerate the simulator devices under the listed root and report
    /// each device's name, identifier and size.
    ReportSimulators(String),
    /// Recursively delete the listed directory and report the outcome.
    RemoveDirectory(String),
    /// Print the listed announcement and touch nothing: cleaning
    /// everything is announced but not carried out.
    AnnounceOnly(String),
}

/// What `handle_cmd` owes for each command: the info targets resolve to
/// their well-known paths, cleaning the caches or the build artifacts
/// removes that one well-known directory, cleaning one simulator
/// removes exactly the device directory named by the identifier, and
/// cleaning everything only announces itself.
pub open spec fn spec_plan_of(cmd: CommandView, home: Seq<char>, p: Plan) -> bool {
    match cmd {
        CommandView::Info(InfoSubCommand::All) => p matches Plan::ReportDirectories(dirs)
            && dirs@.len() == 3
            && dirs@[0]@ == spec_derived_data_path(home)
            && dirs@[1]@ == spec_caches_path(home)
            && dirs@[2]@ == spec_devices_path(home),
        CommandView::Info(InfoSubCommand::Caches) => p matches Plan::ReportDirectories(dirs)
            && dirs@.len() == 1
            && dirs@[0]@ == spec_caches_path(home),
        CommandView::Info(InfoSubCommand::DerivedData) => p matches Plan::ReportDirectories(dirs)
            && dirs@.len() == 1
            && dirs@[0]@ == spec_derived_data_path(home),
        CommandView::Info(InfoSubCommand::Simulators) => p matches Plan::ReportSimulators(root)
            && root@ == spec_devices_path(home),
        CommandView::Clean(CleanSubCommandView::All) => p matches Plan::AnnounceOnly(msg)
            && msg@ == "Cleaning all..."@,
        CommandView::Clean(CleanSubCommandView::Caches) => p matches Plan::RemoveDirectory(path)
            && path@ == spec_caches_path(home),
        CommandView::Clean(CleanSubCommandView::DerivedData) => p matches Plan::RemoveDirectory(
            path,
        ) && path@ == spec_derived_data_path(home),
        CommandView::Clean(CleanSubCommandView::Simulators(udid)) => p matches Plan::RemoveDirectory(
            path,
        ) && path@ == spec_device_path(home, udid),
    }
}

/// Maps an info target to the directories or the devices root it
/// reports.
pub fn handle_info(cmd: &InfoSubCommand, home: &str) -> (p: Plan)
    ensures
        spec_plan_of(CommandView::Info(*cmd), home@, p),
{
    match cmd {
        InfoSubCommand::All => {
            let mut dirs: Vec<String> = Vec::new();
            dirs.push(derived_data_path(home));
            dirs.push(caches_path(home));
            dirs.push(devices_path(home));
            Plan::ReportDirectories(dirs)
        },
        InfoSubCommand::Caches => {
            let mut dirs: Vec<String> = Vec::new();
            dirs.push(caches_path(home));
            Plan::ReportDirectories(dirs)
        },
        InfoSubCommand::DerivedData => {
            let mut dirs: Vec<String> = Vec::new();
            dirs.push(derived_data_path(home));
            Plan::ReportDirectories(dirs)
        },
        InfoSubCommand::Simulators => Plan::ReportSimulators(devices_path(home)),
    }
}

/// Maps a clean target to the one directory it removes, or to the bare
/// announcement where everything is asked for.
pub fn handle_clean(cmd: &CleanSubCommand, home: &str) -> (p: Plan)
    ensures
        spec_plan_of(CommandView::Clean(cmd@), home@, p),
{
    match cmd {
        CleanSubCommand::All => Plan::AnnounceOnly(String::from_str("Cleaning all...")),
        CleanSubCommand::Caches => Plan::RemoveDirectory(caches_path(home)),
        CleanSubCommand::DerivedData => Plan::RemoveDirectory(derived_data_path(home)),
        CleanSubCommand::Simulators(udid) => Plan::RemoveDirectory(
            device_path(home, udid.as_str()),
        ),
    }
}

/// Maps a command to its plan.
pub fn handle_cmd(cmd: &Command, home: &str) -> (p: Plan)
    ensures
        spec_plan_of(cmd@, home@, p),
{
    match cmd {
        Command::Info(sub) => handle_info(sub, home),
        Command::Clean(sub) => handle_clean(sub, home),
    }
}

/// Cleaning the caches or the build artifacts and then asking for the
/// matching report speak of one and the same directory: the plan for
/// the clean removes exactly the path that the plan for the info
/// reports. Once the directory is gone, walking that path again can
/// only find nothing there or an empty directory, whose total is zero.
pub proof fn lemma_clean_then_info_same_directory(
    home: Seq<char>,
    target: InfoSubCommand,
    clean_plan: Plan,
    info_plan: Plan,
)
    requires
        target == InfoSubCommand::Caches || target == InfoSubCommand::DerivedData,
        spec_plan_of(
            CommandView::Clean(
                if target == InfoSubCommand::Caches {
                    CleanSubCommandView::Caches
                } else {
                    CleanSubCommandView::DerivedData
                },
            ),
            home,
            clean_plan,
        ),
        spec_plan_of(CommandView::Info(target), home, info_plan),
    ensures
        clean_plan is RemoveDirectory,
        info_plan is ReportDirectories,
        info_plan->ReportDirectories_0@.len() == 1,
        info_plan->ReportDirectories_0@[0]@ == clean_plan->RemoveDirectory_0@,
{
}

/// The confirmation printed when a clean operation removed its target.
pub fn removed_message(detail: &str) -> (r: String)
    ensures
        r@ == "Removed: "@ + detail@,
{
    let mut r = String::from_str("Removed: ");
    r.append(detail);
    r
}

/// The report printed when a clean operation failed: it carries the
/// underlying filesystem error.
pub fn failed_message(error: &str) -> (r: String)
    ensures
        r@ == "Failed: "@ + error@,
{
    let mut r = String::from_str("Failed: ");
    r.append(error);
    r
}

} // verus!
