use cartridge::manager::ServerManager;
use cartridge::manager::contains_choice;
use cartridge::manager::default_build;
use cartridge::manager::select_option;

#[test]
fn download_url_matches_registry_pattern() {
    let manager = ServerManager::new("paper", "./cartridge");
    let url = manager.construct_download_url("1.20.2", "101");
    assert_eq!(
        url,
        "https://papermc.io/api/v2/projects/paper/versions/1.20.2/builds/101/downloads/paper-1.20.2-101.jar"
    );
}

#[test]
fn project_and_version_urls() {
    let manager = ServerManager::new("paper", "./srv");
    assert_eq!(
        manager.construct_project_url(),
        "https://papermc.io/api/v2/projects/paper"
    );
    assert_eq!(
        manager.construct_version_url("1.20.1"),
        "https://papermc.io/api/v2/projects/paper/versions/1.20.1"
    );
}

#[test]
fn end_to_end_selection_builds_expected_url() {
    let manager = ServerManager::new("paper", "./cartridge");
    let versions = vec!["1.20.1".to_string(), "1.20.2".to_string()];
    let version = select_option(&versions, 1).unwrap();
    assert_eq!(version, "1.20.2");
    let builds = vec!["100".to_string(), "101".to_string()];
    let build = default_build(&builds).unwrap();
    assert_eq!(build, "101");
    let url = manager.construct_download_url(&version, &build);
    assert_eq!(
        url,
        "https://papermc.io/api/v2/projects/paper/versions/1.20.2/builds/101/downloads/paper-1.20.2-101.jar"
    );
}

#[test]
fn default_build_picks_last_entry() {
    let builds = vec!["97".to_string(), "98".to_string(), "99".to_string()];
    assert_eq!(default_build(&builds), Some("99".to_string()));
}

#[test]
fn default_build_of_empty_list_is_none() {
    let builds: Vec<String> = Vec::new();
    assert_eq!(default_build(&builds), None);
}

#[test]
fn select_option_out_of_range_is_none() {
    let options = vec!["a".to_string()];
    assert_eq!(select_option(&options, 1), None);
    assert_eq!(select_option(&options, 0), Some("a".to_string()));
}

#[test]
fn a_choice_must_be_one_of_the_offered_options() {
    let versions = vec!["1.20.1".to_string(), "1.20.2".to_string()];
    assert!(contains_choice(&versions, "1.20.2"));
    assert!(!contains_choice(&versions, "1.20.3"));
    assert!(!contains_choice(&Vec::new(), "1.20.2"));
}

#[test]
fn workspace_file_paths() {
    let manager = ServerManager::new("paper", "./cartridge");
    assert_eq!(manager.eula_file_path(), "./cartridge/eula.txt");
    assert_eq!(manager.server_file_path(), "./cartridge/server.jar");
}

#[test]
fn eula_marker_line() {
    assert_eq!(ServerManager::eula_contents(), "eula=true\n");
}
