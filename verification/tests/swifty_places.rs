//! Where Swifty may keep its data.

use foxy_views::swifty::places::{
    swifty_candidate_dirs, swifty_data_exists, Platform, UserFolders,
};

fn folders() -> UserFolders {
    UserFolders {
        appdata: Some("roaming".to_string()),
        local_appdata: Some("local".to_string()),
        home: Some("/home/me".to_string()),
        user: None,
        logname: Some("me".to_string()),
        xdg_config_home: Some("/xdg".to_string()),
    }
}

fn dirs(platform: Platform, folders: &UserFolders) -> Vec<String> {
    swifty_candidate_dirs(platform, folders).iter().map(|d| d.pieces.join("/")).collect()
}

#[test]
fn windows_has_two_folders() {
    assert_eq!(dirs(Platform::Windows, &folders()), vec!["roaming/Swifty", "local/Swifty"]);
    let mut f = folders();
    f.appdata = None;
    assert_eq!(dirs(Platform::Windows, &f), vec!["local/Swifty"]);
}

#[test]
fn linux_has_the_home_folder_and_wine() {
    assert_eq!(
        dirs(Platform::Linux, &folders()),
        vec![
            "/home/me/.config/Swifty",
            "/home/me/.local/share/Swifty",
            "/home/me/.swifty",
            "/home/me/.wine/drive_c/users/me/AppData/Roaming/Swifty",
            "/xdg/Swifty"
        ]
    );
    let mut f = folders();
    f.user = Some("you".to_string());
    f.xdg_config_home = None;
    assert!(dirs(Platform::Linux, &f)[3].contains("/users/you/"));
    f.user = None;
    f.logname = None;
    assert!(dirs(Platform::Linux, &f)[3].contains("/users/user/"));
    f.home = None;
    assert!(dirs(Platform::Linux, &f).is_empty());
    assert!(dirs(Platform::Other, &folders()).is_empty());
}

#[test]
fn one_folder_with_data_is_enough() {
    assert!(swifty_data_exists(&vec![false, true]));
    assert!(!swifty_data_exists(&vec![false, false]));
    assert!(!swifty_data_exists(&vec![]));
}
