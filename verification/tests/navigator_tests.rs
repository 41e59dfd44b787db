use neural_fs::chunk::ChunkLocation;
use neural_fs::launcher::Platform;
use neural_fs::navigator::{HighlightNavigator, NavigationError, NavigationPlan, NavigationTarget, NavigatorConfig};

fn target(path: &str, line: Option<u32>, page: Option<u32>) -> NavigationTarget {
    let location = ChunkLocation { start_line: line, page_number: page, ..ChunkLocation::default() };
    NavigationTarget { path: path.to_string(), file_id: None, location: Some(location), query: None }
}

fn commands(plan: NavigationPlan) -> Vec<(String, Vec<String>, String)> {
    match plan {
        NavigationPlan::Commands { commands, .. } => {
            commands.into_iter().map(|c| (c.program, c.args, c.app_name)).collect()
        }
        NavigationPlan::WithApp { .. } => panic!("unexpected application plan"),
    }
}

fn s(v: &[&str]) -> Vec<String> {
    v.iter().map(|x| x.to_string()).collect()
}

#[test]
fn linux_plans() {
    let nav = HighlightNavigator::new();
    let text = commands(nav.plan_navigation(&target("/a/b.rs", Some(12), None), true).unwrap());
    assert_eq!(text[0], ("code".to_string(), s(&["--goto", "/a/b.rs:12"]), "Visual Studio Code".to_string()));
    assert_eq!(text[1], ("xdg-open".to_string(), s(&["/a/b.rs"]), "System Default".to_string()));
    let pdf = commands(nav.plan_navigation(&target("/a/doc.PDF", None, Some(3)), true).unwrap());
    assert_eq!(pdf[0], ("evince".to_string(), s(&["--page-index", "3", "/a/doc.PDF"]), "Evince".to_string()));
    assert_eq!(pdf.len(), 2);
    match nav.plan_navigation(&target("/missing.txt", None, None), false) {
        Err(NavigationError::FileNotFound { path }) => assert_eq!(path, "/missing.txt"),
        other => panic!("unexpected {:?}", other),
    }
}

#[test]
fn windows_plans() {
    let nav = HighlightNavigator::for_platform(NavigatorConfig::default(), Platform::Windows);
    let pdf = commands(nav.plan_navigation(&target(r"C:\d\x.pdf", None, Some(7)), true).unwrap());
    assert_eq!(pdf.len(), 4);
    assert_eq!(
        pdf[0],
        (
            r"C:\Program Files\Adobe\Acrobat DC\Acrobat\Acrobat.exe".to_string(),
            s(&["/A", "page=7", r"C:\d\x.pdf"]),
            "Adobe Acrobat".to_string()
        )
    );
    assert_eq!(pdf[3], ("cmd".to_string(), s(&["/C", "start", "", r"C:\d\x.pdf"]), "System Default".to_string()));
    let image = commands(nav.plan_navigation(&target(r"C:\d\x.png", None, None), true).unwrap());
    assert_eq!(image, vec![("cmd".to_string(), s(&["/C", "start", "", r"C:\d\x.png"]), "System Default".to_string())]);
}

#[test]
fn macos_plans() {
    let nav = HighlightNavigator::for_platform(NavigatorConfig::default(), Platform::MacOs);
    let pdf = commands(nav.plan_navigation(&target("/d/x.pdf", None, Some(2)), true).unwrap());
    assert_eq!(pdf, vec![("open".to_string(), s(&["/d/x.pdf"]), "Preview".to_string())]);
    let text = commands(nav.plan_navigation(&target("/d/x.md", None, None), true).unwrap());
    assert_eq!(text, vec![("open".to_string(), s(&["/d/x.md"]), "System Default".to_string())]);
}
