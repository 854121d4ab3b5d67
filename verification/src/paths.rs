//! Where the process keeps its files, and what it writes into the one that
//! starts it at login.
//!
//! The directories come from the environment; the caller reads them and
//! hands them in.

use vstd::prelude::*;
use vstd::string::StringExecFns;
use crate::display::Platform;

verus! {

/// The executable that is started at login where the running one cannot be
/// told.
pub const DEFAULT_EXECUTABLE: &'static str =
    "/Applications/DriftPaper.app/Contents/MacOS/DriftPaper";

/// The base directory where the environment names none: the current
/// directory under the shell-reparenting platform, nothing elsewhere.
pub open spec fn spec_default_base(platform: Platform) -> &'static str {
    match platform {
        Platform::Windows => ".",
        _ => "",
    }
}

/// What follows the base directory in the path of the preferences file.
pub open spec fn spec_preferences_suffix(platform: Platform) -> &'static str {
    match platform {
        Platform::Windows => "\\DriftPaper\\preferences.json",
        _ => "/.config/driftpaper/preferences.json",
    }
}

/// The path of the preferences file under `base`.
pub open spec fn spec_preferences_path(platform: Platform, base: Option<Seq<char>>) -> Seq<char> {
    match base {
        Some(dir) => dir + spec_preferences_suffix(platform)@,
        None => spec_default_base(platform)@ + spec_preferences_suffix(platform)@,
    }
}

/// The path of the preferences file. `base` is the user's home directory,
/// or the application-data directory under the shell-reparenting platform,
/// if the environment names one.
pub fn get_preferences_path(platform: Platform, base: Option<&str>) -> (path: String)
    ensures
        path@ == spec_preferences_path(
            platform,
            match base {
                Some(dir) => Some(dir@),
                None => None,
            },
        ),
{
    let mut path = match base {
        Some(dir) => String::from_str(dir),
        None => match platform {
            Platform::Windows => String::from_str("."),
            _ => String::from_str(""),
        },
    };
    match platform {
        Platform::Windows => path.append("\\DriftPaper\\preferences.json"),
        _ => path.append("/.config/driftpaper/preferences.json"),
    }
    path
}

/// What follows the home directory in the path of the launch agent.
pub open spec fn spec_launch_agent_suffix() -> &'static str {
    "/Library/LaunchAgents/me.sandydoo.driftpaper.plist"
}

/// The path of the launch agent under the home directory `home`.
pub fn launch_agent_path(home: &str) -> (path: String)
    ensures
        path@ == home@ + spec_launch_agent_suffix()@,
{
    let mut path = String::from_str(home);
    path.append("/Library/LaunchAgents/me.sandydoo.driftpaper.plist");
    path
}

/// The directory of the launch agents under the home directory `home`.
pub fn launch_agents_dir(home: &str) -> (path: String)
    ensures
        path@ == home@ + "/Library/LaunchAgents"@,
{
    let mut path = String::from_str(home);
    path.append("/Library/LaunchAgents");
    path
}

/// The launch agent up to the path of the executable.
pub open spec fn spec_plist_head() -> &'static str {
    "<?xml version=\"1.0\" encoding=\"UTF-8\"?>\n<!DOCTYPE plist PUBLIC \"-//Apple//DTD PLIST 1.0//EN\" \"http://www.apple.com/DTDs/PropertyList-1.0.dtd\">\n<plist version=\"1.0\">\n<dict>\n    <key>Label</key>\n    <string>me.sandydoo.driftpaper</string>\n    <key>ProgramArguments</key>\n    <array>\n        <string>"
}

/// The launch agent from the path of the executable on.
pub open spec fn spec_plist_tail() -> &'static str {
    "</string>\n        <string>--fps</string>\n        <string>30</string>\n    </array>\n    <key>RunAtLoad</key>\n    <true/>\n    <key>KeepAlive</key>\n    <false/>\n</dict>\n</plist>\n"
}

/// The launch agent that starts `executable` at login, at thirty frames
/// per second: the head, the path as it is, the tail.
pub fn launch_agent_plist(executable: &str) -> (plist: String)
    ensures
        plist@ == spec_plist_head()@ + executable@ + spec_plist_tail()@,
{
    let mut plist = String::from_str(
        "<?xml version=\"1.0\" encoding=\"UTF-8\"?>\n<!DOCTYPE plist PUBLIC \"-//Apple//DTD PLIST 1.0//EN\" \"http://www.apple.com/DTDs/PropertyList-1.0.dtd\">\n<plist version=\"1.0\">\n<dict>\n    <key>Label</key>\n    <string>me.sandydoo.driftpaper</string>\n    <key>ProgramArguments</key>\n    <array>\n        <string>",
    );
    plist.append(executable);
    plist.append(
        "</string>\n        <string>--fps</string>\n        <string>30</string>\n    </array>\n    <key>RunAtLoad</key>\n    <true/>\n    <key>KeepAlive</key>\n    <false/>\n</dict>\n</plist>\n",
    );
    plist
}

/// The executable to start at login: the running one where it can be told,
/// the default otherwise.
pub fn login_executable(current: Option<String>) -> (executable: String)
    ensures
        match current {
            Some(path) => executable == path,
            None => executable@ == DEFAULT_EXECUTABLE@,
        },
{
    match current {
        Some(path) => path,
        None => String::from_str(DEFAULT_EXECUTABLE),
    }
}

} // verus!
