use ncm_api::api::resource_type_number;
use ncm_api::{create_client, ApiCall, CryptoType, JsonValue, NcmError, Query};

/// Compact JSON text of a payload, members in their written order.
fn text(v: &JsonValue) -> String {
    match v {
        JsonValue::Null => "null".to_string(),
        JsonValue::Bool(b) => b.to_string(),
        JsonValue::Int(i) => i.to_string(),
        JsonValue::Number(n) => n.clone(),
        JsonValue::Str(s) => format!("{:?}", s),
        JsonValue::Array(items) => {
            let parts: Vec<String> = items.iter().map(text).collect();
            format!("[{}]", parts.join(","))
        }
        JsonValue::Object(members) => {
            let parts: Vec<String> =
                members.iter().map(|(k, v)| format!("{:?}:{}", k, text(v))).collect();
            format!("{{{}}}", parts.join(","))
        }
    }
}

fn assert_plain(call: &ApiCall, uri: &str, crypto: CryptoType) {
    // a blank query gives blank options
    assert_eq!(call.uri, uri);
    assert_eq!(call.option.crypto, crypto);
    assert!(call.option.cookie.is_none());
    assert!(call.option.proxy.is_none());
    assert!(call.option.real_ip.is_none());
    assert!(!call.option.random_cn_ip);
    assert!(call.option.ua.is_none());
    assert!(call.option.e_r.is_none());
    assert!(call.option.domain.is_none());
    assert!(!call.option.check_token);
}

fn q(pairs: &[(&str, &str)]) -> Query {
    let mut query = Query::new();
    for (k, v) in pairs {
        query = query.param(k, v);
    }
    query
}

#[test]
fn readme_cloudsearch_query() {
    let client = create_client(None);
    let query = Query::new().param("keywords", "晴天 周杰伦").param("type", "1").param("limit", "10");
    let call = client.cloudsearch(&query);
    assert_plain(&call, "/api/cloudsearch/pc", CryptoType::Weapi);
    assert_eq!(
        text(&call.data),
        r#"{"s":"晴天 周杰伦","type":1,"limit":10,"offset":0,"total":true}"#
    );
    let defaults = client.cloudsearch(&q(&[("keywords", "a"), ("offset", "5")]));
    assert_eq!(text(&defaults.data), r#"{"s":"a","type":1,"limit":30,"offset":5,"total":true}"#);
}

#[test]
fn readme_personal_fm_with_query_cookie() {
    let client = create_client(Some("MUSIC_U=client".to_string()));
    let query = Query::new().cookie("MUSIC_U=xxx; __csrf=xxx");
    let call = client.personal_fm(&query);
    assert_eq!(call.uri, "/api/v1/radio/get");
    assert_eq!(text(&call.data), "{}");
    assert_eq!(call.option.crypto, CryptoType::Weapi);
    assert_eq!(call.option.cookie.as_deref(), Some("MUSIC_U=xxx; __csrf=xxx"));
    assert_eq!(client.request_cookie(&call.option).as_deref(), Some("MUSIC_U=xxx; __csrf=xxx"));
}

#[test]
fn client_cookie_used_when_query_has_none() {
    let client = create_client(Some("MUSIC_U=client".to_string()));
    let call = client.personal_fm(&Query::new());
    assert_plain(&call, "/api/v1/radio/get", CryptoType::Weapi);
    assert_eq!(client.request_cookie(&call.option).as_deref(), Some("MUSIC_U=client"));
    let anonymous = create_client(None);
    assert!(anonymous.request_cookie(&call.option).is_none());
}

#[test]
fn query_options_reach_every_endpoint() {
    let client = create_client(None);
    let mut query = Query::new().param("id", "186016").cookie("MUSIC_U=abc");
    query.real_ip = Some("116.25.146.177".to_string());
    query.proxy = Some("http://121.196.226.246:84".to_string());
    query.random_cn_ip = true;
    let calls = vec![
        client.song_url_v1(&query),
        client.lyric(&query),
        client.check_music(&query),
        client.album(&query),
        client.banner(&query),
        client.login_status(&query),
    ];
    for call in calls {
        assert_eq!(call.option.cookie.as_deref(), Some("MUSIC_U=abc"));
        assert_eq!(call.option.real_ip.as_deref(), Some("116.25.146.177"));
        assert_eq!(call.option.proxy.as_deref(), Some("http://121.196.226.246:84"));
        assert!(call.option.random_cn_ip);
        assert!(!call.option.check_token);
    }
}

#[test]
fn song_detail_payload() {
    let client = create_client(None);
    let call = client.song_detail(&q(&[("ids", "186016")]));
    assert_plain(&call, "/api/v3/song/detail", CryptoType::Weapi);
    assert_eq!(text(&call.data), r#"{"c":"[{\"id\":186016}]"}"#);
    let two = client.song_detail(&q(&[("ids", "186016, 347230")]));
    assert_eq!(text(&two.data), r#"{"c":"[{\"id\":186016},{\"id\":347230}]"}"#);
    let none = client.song_detail(&Query::new());
    assert_eq!(text(&none.data), r#"{"c":"[]"}"#);
    let empty = client.song_detail(&q(&[("ids", "")]));
    assert_eq!(text(&empty.data), r#"{"c":"[]"}"#);
}

#[test]
fn song_url_v1_payload() {
    let client = create_client(None);
    let call = client.song_url_v1(&q(&[("id", "186016"), ("level", "exhigh")]));
    assert_plain(&call, "/api/song/enhance/player/url/v1", CryptoType::Eapi);
    assert_eq!(text(&call.data), r#"{"ids":"[186016]","level":"exhigh","encodeType":"flac"}"#);
    let call = client.song_url_v1(&q(&[("id", "1969519579")]));
    assert_eq!(text(&call.data), r#"{"ids":"[1969519579]","level":"standard","encodeType":"flac"}"#);
}

#[test]
fn lyric_payload() {
    let call = create_client(None).lyric(&q(&[("id", "186016")]));
    assert_plain(&call, "/api/song/lyric", CryptoType::Eapi);
    assert_eq!(
        text(&call.data),
        r#"{"id":186016,"tv":-1,"lv":-1,"rv":-1,"kv":-1,"_nmclfl":1}"#
    );
}

#[test]
fn non_numeric_parameters_stay_text() {
    let client = create_client(None);
    let call = client.lyric(&q(&[("id", "abc")]));
    assert_eq!(text(&call.data), r#"{"id":"abc","tv":-1,"lv":-1,"rv":-1,"kv":-1,"_nmclfl":1}"#);
    let call = client.lyric(&Query::new());
    assert_eq!(text(&call.data), r#"{"id":"","tv":-1,"lv":-1,"rv":-1,"kv":-1,"_nmclfl":1}"#);
    let call = client.personalized(&q(&[("limit", "99999999999999999999")]));
    assert_eq!(text(&call.data), r#"{"limit":"99999999999999999999","total":true,"n":1000}"#);
}

#[test]
fn check_music_payload() {
    let client = create_client(None);
    let call = client.check_music(&q(&[("id", "33894312")]));
    assert_plain(&call, "/api/song/enhance/player/url", CryptoType::Weapi);
    assert_eq!(text(&call.data), r#"{"ids":[33894312],"br":999000}"#);
    let call = client.check_music(&q(&[("id", "1"), ("br", "320000")]));
    assert_eq!(text(&call.data), r#"{"ids":[1],"br":320000}"#);
}

#[test]
fn search_default_and_suggest_payloads() {
    let client = create_client(None);
    let call = client.search_default(&Query::new());
    assert_plain(&call, "/api/search/defaultkeyword/get", CryptoType::Eapi);
    assert_eq!(text(&call.data), "{}");
    let call = client.search_suggest(&q(&[("keywords", "海阔天空")]));
    assert_plain(&call, "/api/search/suggest/web", CryptoType::Weapi);
    assert_eq!(text(&call.data), r#"{"s":"海阔天空"}"#);
}

#[test]
fn playlist_payloads() {
    let client = create_client(None);
    let call = client.user_playlist(&q(&[("uid", "32953014")]));
    assert_plain(&call, "/api/user/playlist", CryptoType::Weapi);
    assert_eq!(
        text(&call.data),
        r#"{"uid":32953014,"limit":30,"offset":0,"includeVideo":true}"#
    );
    let call = client.playlist_detail(&q(&[("id", "24381616")]));
    assert_plain(&call, "/api/v6/playlist/detail", CryptoType::Eapi);
    assert_eq!(text(&call.data), r#"{"id":24381616,"n":100000,"s":8}"#);
    let call = client.playlist_track_all(&q(&[("id", "24381616"), ("limit", "10"), ("offset", "20")]));
    assert_plain(&call, "/api/v6/playlist/detail", CryptoType::Eapi);
    assert_eq!(text(&call.data), r#"{"id":24381616,"n":100000,"limit":10,"offset":20}"#);
    let call = client.playlist_track_all(&q(&[("id", "1")]));
    assert_eq!(text(&call.data), r#"{"id":1,"n":100000,"limit":1000,"offset":0}"#);
}

#[test]
fn artist_payloads() {
    let client = create_client(None);
    let call = client.artist_detail(&q(&[("id", "6452")]));
    assert_plain(&call, "/api/artist/head/info/get", CryptoType::Weapi);
    assert_eq!(text(&call.data), r#"{"id":6452}"#);
    let call = client.artist_songs(&q(&[("id", "6452")]));
    assert_plain(&call, "/api/v1/artist/songs", CryptoType::Weapi);
    assert_eq!(
        text(&call.data),
        r#"{"id":6452,"private_cloud":"true","work_type":1,"order":"hot","limit":100,"offset":0}"#
    );
    let call = client.artist_songs(&q(&[("id", "6452"), ("order", "time"), ("limit", "5"), ("offset", "10")]));
    assert_eq!(
        text(&call.data),
        r#"{"id":6452,"private_cloud":"true","work_type":1,"order":"time","limit":5,"offset":10}"#
    );
}

#[test]
fn album_and_user_detail_paths() {
    let client = create_client(None);
    let call = client.album(&q(&[("id", "32311")]));
    assert_plain(&call, "/api/v1/album/32311", CryptoType::Weapi);
    assert_eq!(text(&call.data), "{}");
    let call = client.user_detail(&q(&[("uid", "32953014")]));
    assert_plain(&call, "/api/v1/user/detail/32953014", CryptoType::Weapi);
    assert_eq!(text(&call.data), "{}");
}

#[test]
fn comment_new_payload() {
    let client = create_client(None);
    let call = client.comment_new(&q(&[("id", "186016"), ("type", "0")]));
    assert_plain(&call, "/api/v2/resource/comments", CryptoType::Eapi);
    assert_eq!(
        text(&call.data),
        r#"{"rid":"186016","threadId":"R_SO_4_186016","pageNo":1,"pageSize":20,"sortType":1,"cursor":""}"#
    );
    let call = client.comment_new(&q(&[
        ("id", "5"),
        ("type", "5"),
        ("pageNo", "2"),
        ("pageSize", "10"),
        ("sortType", "3"),
        ("cursor", "abc"),
    ]));
    assert_eq!(
        text(&call.data),
        r#"{"rid":"5","threadId":"R_VI_62_5","pageNo":2,"pageSize":10,"sortType":3,"cursor":"abc"}"#
    );
    let call = client.comment_new(&q(&[("id", "5"), ("type", "42")]));
    assert_eq!(
        text(&call.data),
        r#"{"rid":"5","threadId":"","pageNo":1,"pageSize":20,"sortType":1,"cursor":""}"#
    );
}

#[test]
fn resource_type_numbers() {
    let expected = ["4", "5", "0", "3", "1", "62", "2", "14"];
    for (t, want) in expected.iter().enumerate() {
        assert_eq!(resource_type_number(&t.to_string()), *want);
    }
    assert_eq!(resource_type_number("8"), "0");
    assert_eq!(resource_type_number(""), "0");
}

#[test]
fn comment_info_list_payload() {
    let client = create_client(None);
    let call = match client.comment_info_list(&q(&[("ids", "186016,347230"), ("type", "0")])) {
        Ok(call) => call,
        Err(_) => panic!("comment_info_list failed"),
    };
    assert_plain(&call, "/api/resource/commentInfo/list", CryptoType::Weapi);
    assert_eq!(
        text(&call.data),
        r#"{"resourceType":"4","resourceIds":"[\"186016\",\"347230\"]"}"#
    );
    let call = client.comment_info_list(&q(&[("type", "9")])).ok().unwrap();
    assert_eq!(text(&call.data), r#"{"resourceType":"0","resourceIds":"[]"}"#);
    let call = client.comment_info_list(&q(&[("ids", ""), ("type", "1")])).ok().unwrap();
    assert_eq!(text(&call.data), r#"{"resourceType":"5","resourceIds":"[]"}"#);
    let call = client.comment_info_list(&q(&[("ids", "-5,-5"), ("type", "0")])).ok().unwrap();
    assert_eq!(text(&call.data), r#"{"resourceType":"4","resourceIds":"[\"-5\",\"-5\"]"}"#);
}

#[test]
fn comment_info_list_escapes_like_serde_json() {
    let client = create_client(None);
    let call = client.comment_info_list(&q(&[("ids", "a\"b,c\\d,e\nf,\u{1}"), ("type", "3")])).ok().unwrap();
    match &call.data {
        JsonValue::Object(members) => {
            assert_eq!(members[0].0, "resourceType");
            assert!(matches!(&members[0].1, JsonValue::Str(s) if s == "3"));
            assert_eq!(members[1].0, "resourceIds");
            assert!(matches!(&members[1].1, JsonValue::Str(s) if s == r#"["a\"b","c\\d","e\nf","\u0001"]"#));
        }
        _ => panic!("payload is not an object"),
    }
}

#[test]
fn recommendation_payloads() {
    let client = create_client(None);
    let call = client.recommend_songs(&Query::new());
    assert_plain(&call, "/api/v3/discovery/recommend/songs", CryptoType::Weapi);
    assert_eq!(text(&call.data), "{}");
    let call = client.personalized(&Query::new());
    assert_plain(&call, "/api/personalized/playlist", CryptoType::Weapi);
    assert_eq!(text(&call.data), r#"{"limit":30,"total":true,"n":1000}"#);
    let call = client.personalized(&q(&[("limit", "6")]));
    assert_eq!(text(&call.data), r#"{"limit":6,"total":true,"n":1000}"#);
}

#[test]
fn login_cellphone_password_is_md5_hex() {
    let query = q(&[("phone", "13800000000"), ("password", "123")]);
    let call = create_client(None).login_cellphone(&query);
    assert_plain(&call, "/api/w/login/cellphone", CryptoType::Weapi);
    assert_eq!(
        text(&call.data),
        r#"{"type":"1","https":"true","phone":"13800000000","countrycode":"86","remember":"true","password":"202cb962ac59075b964b07152d234b70"}"#
    );
}

#[test]
fn login_cellphone_credential_priority() {
    let client = create_client(None);
    let captcha = client.login_cellphone(&q(&[
        ("phone", "1"),
        ("password", "p"),
        ("md5_password", "m"),
        ("captcha", "1234"),
        ("countrycode", "1"),
    ]));
    assert_eq!(
        text(&captcha.data),
        r#"{"type":"1","https":"true","phone":"1","countrycode":"1","remember":"true","captcha":"1234"}"#
    );
    let md5 = client.login_cellphone(&q(&[("phone", "1"), ("password", "p"), ("md5_password", "abcdef")]));
    assert_eq!(
        text(&md5.data),
        r#"{"type":"1","https":"true","phone":"1","countrycode":"86","remember":"true","password":"abcdef"}"#
    );
    let bare = client.login_cellphone(&q(&[("phone", "1")]));
    assert_eq!(
        text(&bare.data),
        r#"{"type":"1","https":"true","phone":"1","countrycode":"86","remember":"true"}"#
    );
}

#[test]
fn account_payloads() {
    let client = create_client(None);
    let call = client.login_status(&Query::new());
    assert_plain(&call, "/api/w/nuser/account/get", CryptoType::Weapi);
    assert_eq!(text(&call.data), "{}");
    let call = client.likelist(&q(&[("uid", "32953014")]));
    assert_plain(&call, "/api/song/like/get", CryptoType::Weapi);
    assert_eq!(text(&call.data), r#"{"uid":32953014}"#);
    let call = client.like(&q(&[("id", "186016"), ("like", "false")]));
    assert_plain(&call, "/api/radio/like", CryptoType::Weapi);
    assert_eq!(text(&call.data), r#"{"trackId":186016,"like":false,"alg":"itembased"}"#);
    let call = client.like(&q(&[("id", "186016")]));
    assert_eq!(text(&call.data), r#"{"trackId":186016,"like":true,"alg":"itembased"}"#);
    let call = client.like(&q(&[("id", "186016"), ("like", "true")]));
    assert_eq!(text(&call.data), r#"{"trackId":186016,"like":true,"alg":"itembased"}"#);
}

#[test]
fn banner_client_types() {
    let client = create_client(None);
    let call = client.banner(&Query::new());
    assert_plain(&call, "/api/v2/banner/get", CryptoType::Eapi);
    assert_eq!(text(&call.data), r#"{"clientType":"pc"}"#);
    assert_eq!(text(&client.banner(&q(&[("type", "1")])).data), r#"{"clientType":"android"}"#);
    assert_eq!(text(&client.banner(&q(&[("type", "2")])).data), r#"{"clientType":"iphone"}"#);
    assert_eq!(text(&client.banner(&q(&[("type", "3")])).data), r#"{"clientType":"ipad"}"#);
    assert_eq!(text(&client.banner(&q(&[("type", "9")])).data), r#"{"clientType":"pc"}"#);
}

#[test]
fn generic_call_uses_query_options() {
    let client = create_client(Some("MUSIC_U=client".to_string()));
    let mut query = Query::new().cookie("MUSIC_U=query");
    query.real_ip = Some("116.25.146.177".to_string());
    let data = JsonValue::Object(vec![("id".to_string(), JsonValue::Int(1))]);
    let call = client.call("/api/your/endpoint", data, &query, CryptoType::Weapi);
    assert_eq!(call.uri, "/api/your/endpoint");
    assert_eq!(text(&call.data), r#"{"id":1}"#);
    assert_eq!(call.option.crypto, CryptoType::Weapi);
    assert_eq!(call.option.cookie.as_deref(), Some("MUSIC_U=query"));
    assert_eq!(call.option.real_ip.as_deref(), Some("116.25.146.177"));
    assert_eq!(client.request_cookie(&call.option).as_deref(), Some("MUSIC_U=query"));
}

#[test]
fn error_variants_carry_their_details() {
    let api = NcmError::Api { code: 301, msg: "need login".to_string() };
    match api {
        NcmError::Api { code, msg } => {
            assert_eq!(code, 301);
            assert_eq!(msg, "need login");
        }
        _ => panic!("wrong variant"),
    }
    let parse = serde_json::from_str::<serde_json::Value>("{").unwrap_err();
    assert!(matches!(NcmError::Json(parse), NcmError::Json(_)));
}
