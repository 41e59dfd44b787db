use neural_fs::anonymizer::{AnonymizationConfig, DataAnonymizer, UserEnvironment};

fn environment() -> UserEnvironment {
    UserEnvironment { username: Some("tester".to_string()), home: Some("/home/tester".to_string()) }
}

fn anonymizer() -> DataAnonymizer {
    DataAnonymizer::new(environment()).expect("built-in patterns compile")
}

#[test]
fn test_anonymize_email() {
    let anonymizer = anonymizer();
    let input = "Contact me at user@example.com for more info";
    let result = anonymizer.anonymize(input);
    assert!(result.contains("[EMAIL]"));
    assert!(!result.contains("user@example.com"));
}

#[test]
fn test_anonymize_ipv4() {
    let anonymizer = anonymizer();
    let input = "Server is at 192.168.1.100";
    let result = anonymizer.anonymize(input);
    assert!(result.contains("[IP]"));
    assert!(!result.contains("192.168.1.100"));
}

#[test]
fn test_anonymize_windows_path() {
    let anonymizer = anonymizer();
    let input = r"File is at C:\Users\john\Documents\report.pdf";
    let result = anonymizer.anonymize(input);
    assert!(result.contains("[USER]") || result.contains("[DOCUMENTS]") || result.contains("[HOME]"));
}

#[test]
fn test_anonymize_unix_path() {
    let anonymizer = anonymizer();
    let input = "File is at /home/john/documents/report.pdf";
    let result = anonymizer.anonymize(input);
    assert!(result.contains("[USER]") || result.contains("[HOME]"));
}

#[test]
fn test_contains_sensitive_email() {
    let anonymizer = anonymizer();
    assert!(anonymizer.contains_sensitive("Contact user@example.com"));
    assert!(!anonymizer.contains_sensitive("No sensitive data here"));
}

#[test]
fn test_contains_sensitive_ip() {
    let anonymizer = anonymizer();
    assert!(anonymizer.contains_sensitive("Server at 10.0.0.1"));
    assert!(!anonymizer.contains_sensitive("No IP here"));
}

#[test]
fn test_preserve_words() {
    let mut config = AnonymizationConfig::default();
    config.preserve_words.push("admin".to_string());
    let env = UserEnvironment { username: Some("admin".to_string()), home: Some("/home/admin".to_string()) };
    let anonymizer = DataAnonymizer::with_config(config, env).expect("built-in patterns compile");
    let input = "User admin logged in";
    let result = anonymizer.anonymize(input);
    assert!(result.contains("admin"));
}

#[test]
fn test_custom_patterns() {
    let mut config = AnonymizationConfig::default();
    config.custom_patterns.push(r"SECRET_\w+".to_string());
    let anonymizer = DataAnonymizer::with_config(config, environment()).expect("built-in patterns compile");
    let input = "The key is SECRET_ABC123";
    let result = anonymizer.anonymize(input);
    assert!(result.contains("[CUSTOM_0]"));
    assert!(!result.contains("SECRET_ABC123"));
}

#[test]
fn test_disabled_anonymization() {
    let config = AnonymizationConfig {
        anonymize_usernames: false,
        anonymize_paths: false,
        anonymize_emails: false,
        anonymize_ips: false,
        custom_patterns: Vec::new(),
        preserve_words: Vec::new(),
    };
    let anonymizer = DataAnonymizer::with_config(config, environment()).expect("built-in patterns compile");
    let input = "Email: test@example.com, IP: 192.168.1.1";
    let result = anonymizer.anonymize(input);
    assert_eq!(input, result);
}

#[test]
fn test_multiple_sensitive_items() {
    let anonymizer = anonymizer();
    let input = "Contact user1@example.com or user2@test.org at 10.0.0.1";
    let result = anonymizer.anonymize(input);
    assert!(!result.contains("user1@example.com"));
    assert!(!result.contains("user2@test.org"));
    assert!(!result.contains("10.0.0.1"));
}

#[test]
fn anonymize_exact_outputs() {
    let anonymizer = anonymizer();
    assert_eq!(anonymizer.anonymize("mail a@b.io now"), "mail [EMAIL] now");
    assert_eq!(anonymizer.anonymize("hosts 10.0.0.1 and 10.0.0.2"), "hosts [IP] and [IP]");
    // The user name, as written and ignoring case.
    assert_eq!(anonymizer.anonymize("tester and TESTER"), "[USER] and [USER]");
    // The user's own home: the name is masked first, then the folder.
    assert_eq!(anonymizer.anonymize("see /home/tester/Documents/a.txt"), "see /home/[USER]/[DOCUMENTS]/a.txt");
    // Another user's home: the name is masked, then the folder.
    assert_eq!(anonymizer.anonymize("see /home/john/Documents/a.txt"), "see /home/[USER]/[DOCUMENTS]/a.txt");
    assert_eq!(anonymizer.anonymize(r"at C:\Users\john\Desktop\x"), r"at C:\Users\[USER]\[DESKTOP]\x");
}

#[test]
fn anonymize_replaces_the_home_folder() {
    let mut config = AnonymizationConfig::default();
    config.anonymize_usernames = false;
    let anonymizer = DataAnonymizer::with_config(config, environment()).expect("built-in patterns compile");
    assert_eq!(anonymizer.anonymize("see /home/tester/Documents/a.txt"), "see [HOME]/Documents/a.txt");
}

#[test]
fn anonymize_keeps_preserved_user_folders() {
    let mut config = AnonymizationConfig::default();
    config.preserve_words.push("john".to_string());
    let anonymizer = DataAnonymizer::with_config(config, environment()).expect("built-in patterns compile");
    assert_eq!(anonymizer.anonymize("see /home/john/Music/x"), "see /home/john/[MUSIC]/x");
}

#[test]
fn custom_patterns_that_do_not_compile_are_left_out() {
    let mut config = AnonymizationConfig::default();
    config.custom_patterns.push("(unclosed".to_string());
    config.custom_patterns.push("KEY[0-9]+".to_string());
    let anonymizer = DataAnonymizer::with_config(config, environment()).expect("built-in patterns compile");
    assert_eq!(anonymizer.anonymize("KEY42 here"), "[CUSTOM_0] here");
}

#[test]
fn contains_sensitive_user_name_and_paths() {
    let anonymizer = anonymizer();
    assert!(anonymizer.contains_sensitive("by tester"));
    assert!(anonymizer.contains_sensitive("in /tmp/x"));
    assert!(!anonymizer.contains_sensitive("plain words"));
    let config = AnonymizationConfig {
        anonymize_usernames: false,
        anonymize_paths: false,
        anonymize_emails: false,
        anonymize_ips: false,
        custom_patterns: Vec::new(),
        preserve_words: Vec::new(),
    };
    let off = DataAnonymizer::with_config(config, environment()).expect("built-in patterns compile");
    assert!(!off.contains_sensitive("tester at a@b.io from 10.0.0.1 in /tmp/x"));
}

#[test]
fn user_name_ignoring_case_beside_other_scripts() {
    let env = UserEnvironment { username: Some("john".to_string()), home: None };
    let anonymizer = DataAnonymizer::new(env).expect("built-in patterns compile");
    assert_eq!(anonymizer.anonymize("John İ"), "[USER] İ");
    assert_eq!(anonymizer.anonymize("İ JOHN"), "İ [USER]");
}
