use flux_desktop::display::Platform;
use flux_desktop::paths::{
    get_preferences_path, launch_agent_path, launch_agent_plist, launch_agents_dir,
    login_executable,
};

#[test]
fn preferences_path_under_the_home_directory() {
    assert_eq!(
        get_preferences_path(Platform::MacOs, Some("/Users/ada")),
        "/Users/ada/.config/driftpaper/preferences.json"
    );
    assert_eq!(
        get_preferences_path(Platform::Other, Some("/home/ada")),
        "/home/ada/.config/driftpaper/preferences.json"
    );
    assert_eq!(get_preferences_path(Platform::MacOs, None), "/.config/driftpaper/preferences.json");
}

#[test]
fn preferences_path_under_application_data() {
    assert_eq!(
        get_preferences_path(Platform::Windows, Some("C:\\Users\\ada\\AppData\\Roaming")),
        "C:\\Users\\ada\\AppData\\Roaming\\DriftPaper\\preferences.json"
    );
    assert_eq!(get_preferences_path(Platform::Windows, None), ".\\DriftPaper\\preferences.json");
}

#[test]
fn launch_agent_paths() {
    assert_eq!(launch_agents_dir("/Users/ada"), "/Users/ada/Library/LaunchAgents");
    assert_eq!(
        launch_agent_path("/Users/ada"),
        "/Users/ada/Library/LaunchAgents/me.sandydoo.driftpaper.plist"
    );
    assert_eq!(launch_agent_path(""), "/Library/LaunchAgents/me.sandydoo.driftpaper.plist");
}

#[test]
fn launch_agent_names_the_executable() {
    let plist = launch_agent_plist("/Applications/DriftPaper.app/Contents/MacOS/DriftPaper");
    let expected = "<?xml version=\"1.0\" encoding=\"UTF-8\"?>
<!DOCTYPE plist PUBLIC \"-//Apple//DTD PLIST 1.0//EN\" \"http://www.apple.com/DTDs/PropertyList-1.0.dtd\">
<plist version=\"1.0\">
<dict>
    <key>Label</key>
    <string>me.sandydoo.driftpaper</string>
    <key>ProgramArguments</key>
    <array>
        <string>/Applications/DriftPaper.app/Contents/MacOS/DriftPaper</string>
        <string>--fps</string>
        <string>30</string>
    </array>
    <key>RunAtLoad</key>
    <true/>
    <key>KeepAlive</key>
    <false/>
</dict>
</plist>
";
    assert_eq!(plist, expected);
}

#[test]
fn login_executable_defaults_to_the_application_bundle() {
    assert_eq!(login_executable(Some(String::from("/opt/drift"))), "/opt/drift");
    assert_eq!(
        login_executable(None),
        "/Applications/DriftPaper.app/Contents/MacOS/DriftPaper"
    );
}
