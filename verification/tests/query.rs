use ncm_api::query::{Params, Query};
use ncm_api::CryptoType;

#[test]
fn readme_query_parameters() {
    let query = Query::new()
        .param("id", "186016")
        .param("limit", "30")
        .param("offset", "0")
        .cookie("MUSIC_U=xxx");
    assert_eq!(query.get("id"), Some("186016"));
    assert_eq!(query.get_or("limit", "30"), "30");
    assert_eq!(query.cookie.as_deref(), Some("MUSIC_U=xxx"));
}

#[test]
fn get_or_falls_back_to_default() {
    let query = Query::new().param("id", "1");
    assert_eq!(query.get_or("limit", "30"), "30");
    assert_eq!(query.get_or("id", "9"), "1");
}

#[test]
fn new_query_is_blank() {
    let query = Query::new();
    assert_eq!(query.get("id"), None);
    assert!(query.cookie.is_none());
    assert!(query.proxy.is_none());
    assert!(query.real_ip.is_none());
    assert!(!query.random_cn_ip);
    assert!(query.ua.is_none());
    assert!(query.e_r.is_none());
    assert!(query.domain.is_none());
}

#[test]
fn later_param_overwrites_earlier() {
    let query = Query::new().param("id", "1").param("name", "x").param("id", "2");
    assert_eq!(query.get("id"), Some("2"));
    assert_eq!(query.get("name"), Some("x"));
}

#[test]
fn param_keeps_other_keys_and_options() {
    let mut query = Query::new().cookie("c=1").param("a", "1");
    query.real_ip = Some("116.25.146.177".to_string());
    let query = query.param("b", "2");
    assert_eq!(query.get("a"), Some("1"));
    assert_eq!(query.get("b"), Some("2"));
    assert_eq!(query.cookie.as_deref(), Some("c=1"));
    assert_eq!(query.real_ip.as_deref(), Some("116.25.146.177"));
}

#[test]
fn params_map_insert_and_get() {
    let mut params = Params::new();
    assert!(params.get("k").is_none());
    params.insert("k".to_string(), "v".to_string());
    params.insert("j".to_string(), "w".to_string());
    params.insert("k".to_string(), "u".to_string());
    assert_eq!(params.get("k").map(|s| s.as_str()), Some("u"));
    assert_eq!(params.get("j").map(|s| s.as_str()), Some("w"));
}

#[test]
fn to_option_copies_query_settings() {
    let mut query = Query::new().cookie("MUSIC_U=abc");
    query.proxy = Some("socks5://127.0.0.1:1080".to_string());
    query.random_cn_ip = true;
    query.e_r = Some(true);
    query.ua = Some("ua".to_string());
    query.domain = Some("https://music.163.com".to_string());
    let option = query.to_option(CryptoType::Linuxapi);
    assert_eq!(option.crypto, CryptoType::Linuxapi);
    assert_eq!(option.cookie.as_deref(), Some("MUSIC_U=abc"));
    assert_eq!(option.proxy.as_deref(), Some("socks5://127.0.0.1:1080"));
    assert!(option.real_ip.is_none());
    assert!(option.random_cn_ip);
    assert_eq!(option.e_r, Some(true));
    assert_eq!(option.ua.as_deref(), Some("ua"));
    assert_eq!(option.domain.as_deref(), Some("https://music.163.com"));
    assert!(!option.check_token);
}

#[test]
fn default_crypto_is_eapi() {
    assert_eq!(CryptoType::default(), CryptoType::Eapi);
}

#[test]
fn cloned_query_keeps_params() {
    let query = Query::new().param("id", "1").param("level", "standard");
    let copy = query.clone();
    assert_eq!(copy.get("id"), Some("1"));
    assert_eq!(copy.get("level"), Some("standard"));
    assert_eq!(copy.get("other"), None);
}
