use purpl::engine::{all_data_dirs, data_dir_path, get_data_dir, log_file_name, DataDir};

#[test]
fn every_data_dir_is_listed_in_creation_order() {
    assert_eq!(all_data_dirs(), vec![DataDir::Root, DataDir::Logs, DataDir::Saves]);
}

#[test]
fn data_dir_paths_join_base_game_and_suffix() {
    assert_eq!(data_dir_path("/home/me/.local/share", "Purpl", DataDir::Root), "/home/me/.local/share/Purpl/");
    assert_eq!(data_dir_path("/home/me/.local/share", "Purpl", DataDir::Logs), "/home/me/.local/share/Purpl/logs/");
    assert_eq!(data_dir_path("/home/me/.local/share", "Purpl", DataDir::Saves), "/home/me/.local/share/Purpl/saves/");
}

#[test]
fn data_dir_paths_normalize_backslashes() {
    assert_eq!(
        data_dir_path("C:\\Users\\me\\AppData\\Roaming", "Purpl", DataDir::Logs),
        "C:/Users/me/AppData/Roaming/Purpl/logs/"
    );
}

#[test]
fn platform_data_dir_feeds_the_path_builder() {
    if let Some(path) = get_data_dir("Purpl", DataDir::Logs) {
        assert!(path.ends_with("/Purpl/logs/"));
        assert!(!path.contains('\\'));
    }
}

#[test]
fn log_file_names_carry_executable_and_timestamp() {
    assert_eq!(
        log_file_name("/home/me/.local/share/Purpl/logs/", "purpl", "2024-01-02_03-04-05"),
        "/home/me/.local/share/Purpl/logs/purpl-2024-01-02_03-04-05.log"
    );
}
