use neural_fs::launcher::Platform;
use neural_fs::onboarding::{candidate_directories, get_suggested_directories};

#[test]
fn unix_suggestions() {
    let all = candidate_directories(Platform::Linux, "/home/ann");
    let paths: Vec<&str> = all.iter().map(|s| s.path.as_str()).collect();
    assert_eq!(paths, vec!["/home/ann/Downloads", "/home/ann/Desktop", "/home/ann/Documents", "/home/ann/Pictures"]);
    let existing = vec!["/home/ann/Desktop".to_string(), "/home/ann/Pictures".to_string()];
    let found = get_suggested_directories(Platform::MacOs, Some("/home/ann/"), &existing);
    assert_eq!(found.len(), 2);
    assert_eq!(found[0].name, "桌面");
    assert!(found[0].recommended);
    assert_eq!(found[1].path, "/home/ann/Pictures");
    assert!(get_suggested_directories(Platform::Linux, None, &existing).is_empty());
}

#[test]
fn windows_suggestions() {
    let all = candidate_directories(Platform::Windows, r"C:\Users\ann");
    let paths: Vec<&str> = all.iter().map(|s| s.path.as_str()).collect();
    assert_eq!(
        paths,
        vec![
            r"C:\Users\ann\Downloads",
            r"C:\Users\ann\Desktop",
            r"C:\Users\ann\Documents",
            r"C:\Users\ann\Pictures",
            r"C:\Users\ann\Videos",
        ]
    );
    assert_eq!(all[4].name, "视频");
    assert_eq!(all[4].icon, "🎬");
    assert!(!all[4].recommended);
    let existing = vec![r"C:\Users\ann\Videos".to_string()];
    let found = get_suggested_directories(Platform::Windows, Some(r"C:\Users\ann\"), &existing);
    assert_eq!(found.len(), 1);
    assert_eq!(found[0].description, "视频文件和录制内容");
}
