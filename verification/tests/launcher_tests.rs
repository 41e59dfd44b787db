use neural_fs::launcher::{AppLauncher, Platform};

fn names(apps: &[neural_fs::launcher::AppInfo]) -> Vec<(String, String)> {
    apps.iter().map(|a| (a.name.clone(), a.path.clone())).collect()
}

#[test]
fn linux_editors_and_viewers() {
    let launcher = AppLauncher::new();
    let installed = vec!["kate".to_string(), "okular".to_string()];
    assert_eq!(names(&launcher.get_common_apps_for_extension("rs", &installed)), vec![("kate".to_string(), "kate".to_string())]);
    assert_eq!(
        names(&launcher.get_common_apps_for_extension("pdf", &installed)),
        vec![("Okular".to_string(), "okular".to_string())]
    );
    assert!(launcher.get_common_apps_for_extension("png", &installed).is_empty());
}

#[test]
fn macos_apps() {
    let launcher = AppLauncher::for_platform(Platform::MacOs, None, None);
    let none: Vec<String> = vec![];
    assert_eq!(
        names(&launcher.get_common_apps_for_extension("md", &none)),
        vec![("TextEdit".to_string(), "/Applications/TextEdit.app".to_string())]
    );
    assert_eq!(
        names(&launcher.get_common_apps_for_extension("jpg", &none)),
        vec![("Preview".to_string(), "/Applications/Preview.app".to_string())]
    );
    assert_eq!(
        names(&launcher.get_common_apps_for_extension("pdf", &none)),
        vec![("Preview".to_string(), "/Applications/Preview.app".to_string())]
    );
    assert!(launcher.get_common_apps_for_extension("zip", &none).is_empty());
}

#[test]
fn windows_apps() {
    let launcher = AppLauncher::for_platform(Platform::Windows, Some("ann".to_string()), None);
    let user_code = r"C:\Users\ann\AppData\Local\Programs\Microsoft VS Code\Code.exe".to_string();
    assert_eq!(launcher.expand_env_vars(r"C:\Users\%USERNAME%\x"), r"C:\Users\ann\x");
    let present = vec![user_code.clone()];
    assert_eq!(
        names(&launcher.get_common_apps_for_extension("txt", &present)),
        vec![
            ("Visual Studio Code".to_string(), user_code),
            ("Notepad".to_string(), r"C:\Windows\System32\notepad.exe".to_string()),
        ]
    );
    assert_eq!(
        names(&launcher.get_common_apps_for_extension("png", &present)),
        vec![
            ("Photos".to_string(), "ms-photos:".to_string()),
            ("Paint".to_string(), r"C:\Windows\System32\mspaint.exe".to_string()),
        ]
    );
    let edge = r"C:\Program Files (x86)\Microsoft\Edge\Application\msedge.exe".to_string();
    assert_eq!(
        names(&launcher.get_common_apps_for_extension("pdf", &vec![edge.clone()])),
        vec![("Microsoft Edge".to_string(), edge)]
    );
}
