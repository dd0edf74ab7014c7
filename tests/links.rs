use twitch_client::links::LinkMap;
use twitch_client::model::root::{BasicInfo, Token};

#[test]
fn optional_absent_link_is_none() {
    let links = LinkMap::new();
    assert_eq!(links.get_optional_link("users"), None);
}

#[test]
fn present_links_are_found() {
    let mut links = LinkMap::default();
    links.insert("self".to_string(), "https://a/self".to_string());
    links.insert("next".to_string(), "https://a/next".to_string());
    assert_eq!(links.get_expected_link("self"), "https://a/self");
    assert_eq!(links.get_optional_link("next"), Some(&"https://a/next".to_string()));
    assert_eq!(links.get_optional_link("chat"), None);
}

#[test]
fn later_insert_replaces_link() {
    let mut links = LinkMap::new();
    links.insert("self".to_string(), "old".to_string());
    links.insert("self".to_string(), "new".to_string());
    assert_eq!(links.get_expected_link("self"), "new");
}

#[test]
fn anonymous_basic_info_lacks_user_links() {
    let mut links = LinkMap::new();
    links.insert("user".to_string(), "https://api.twitch.tv/kraken/user".to_string());
    let info = BasicInfo {
        token: Token { valid: false, user_name: None, authorization: None },
        links,
    };
    assert!(!info.token().valid());
    assert!(info.token().user_name().is_none());
    assert!(info.token().authorization().is_none());
    assert_eq!(info.links().get_expected_link("user"), "https://api.twitch.tv/kraken/user");
    assert!(info.links().get_optional_link("users").is_none());
}
