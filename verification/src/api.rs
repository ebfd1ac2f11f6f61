//! The endpoints of the service: for each one, the path, the JSON payload
//! and the request options of a call.
use vstd::prelude::*;

use crate::error::NcmError;
use crate::json::{
    bool_member, int_member, members_view, object, str_member,
    string_member, JsonValue, JsonView,
};
use crate::query::{lookup, option_of, CryptoType, Query, RequestOption};
use crate::text::{
    decimal_i64, hex_char, hex_lower, last_segment, last_underscore_segment, list_items,
    parse_i64, split_list, to_hex_lower, trim_end_char,
};

verus! {

// ------------------------------------------------------------------------
// Outside computations
// ------------------------------------------------------------------------

/// The MD5 digest of the UTF-8 bytes of a text.
pub uninterp spec fn md5_of_text(text: Seq<char>) -> Seq<u8>;

/// Calls `md5::Md5::digest` (the `Digest` trait of the `md-5` crate) on the
/// UTF-8 bytes of `text` and hands the digest out as a vector. Claimed: the
/// result depends on the text alone, is named `md5_of_text`, and is 16
/// bytes long (the output size of `Md5`).
#[verifier::external_body]
fn md5_digest(text: &str) -> (digest: Vec<u8>)
    ensures
        digest@ == md5_of_text(text@),
        digest@.len() == 16,
{
    <md5::Md5 as md5::Digest>::digest(text.as_bytes()).to_vec()
}

/// How one character is written inside a JSON string: `"` and `\` behind a
/// backslash; backspace, tab, line feed, form feed and carriage return as
/// `\b`, `\t`, `\n`, `\f`, `\r`; other characters below U+0020 as `\u00`
/// and two lower-case hexadecimal digits; every other character as itself.
pub open spec fn json_escape(c: char) -> Seq<char> {
    let n = c as int;
    if c == '"' {
        seq!['\\', '"']
    } else if c == '\\' {
        seq!['\\', '\\']
    } else if n == 8 {
        seq!['\\', 'b']
    } else if n == 9 {
        seq!['\\', 't']
    } else if n == 10 {
        seq!['\\', 'n']
    } else if n == 12 {
        seq!['\\', 'f']
    } else if n == 13 {
        seq!['\\', 'r']
    } else if n < 32 {
        seq!['\\', 'u', '0', '0', hex_char(n / 16), hex_char(n % 16)]
    } else {
        seq![c]
    }
}

/// The characters of `s`, each written as inside a JSON string.
pub open spec fn json_escaped(s: Seq<char>) -> Seq<char>
    decreases s.len(),
{
    if s.len() == 0 {
        seq![]
    } else {
        json_escaped(s.drop_last()) + json_escape(s.last())
    }
}

/// The JSON string literal of `s`.
pub open spec fn json_quoted(s: Seq<char>) -> Seq<char> {
    seq!['"'] + json_escaped(s) + seq!['"']
}

/// The JSON string literals of `items`, separated by commas.
pub open spec fn json_quoted_items(items: Seq<Seq<char>>) -> Seq<char>
    decreases items.len(),
{
    if items.len() == 0 {
        seq![]
    } else if items.len() == 1 {
        json_quoted(items[0])
    } else {
        json_quoted_items(items.drop_last()) + seq![','] + json_quoted(items.last())
    }
}

/// The compact JSON text of a list of strings.
pub open spec fn json_string_list(items: Seq<Seq<char>>) -> Seq<char> {
    seq!['['] + json_quoted_items(items) + seq![']']
}

/// Calls `serde_json::to_string` on a list of strings. Claimed: it succeeds
/// (a list of strings written into a byte vector has nothing that can fail)
/// and gives the compact JSON array of the strings' literals, with the
/// escapes of `serde_json`'s escape table.
#[verifier::external_body]
fn strings_to_json(items: &Vec<String>) -> (r: core::result::Result<String, serde_json::Error>)
    ensures
        r is Ok,
        r matches Ok(s) ==> s@ == json_string_list(items.deep_view()),
{
    serde_json::to_string(items)
}

// ------------------------------------------------------------------------
// Calls
// ------------------------------------------------------------------------

/// One request to the service, ready for the transport: the API path, the
/// JSON payload and the request options.
#[derive(Debug)]
pub struct ApiCall {
    pub uri: String,
    pub data: JsonValue,
    pub option: RequestOption,
}

/// True when `c` goes to `uri` with payload `data` and the options of
/// `query` with encryption `crypto`.
pub open spec fn is_call(
    c: ApiCall,
    uri: Seq<char>,
    data: JsonView,
    query: Query,
    crypto: CryptoType,
) -> bool {
    &&& c.uri@ == uri
    &&& c.data@ == data
    &&& c.option == option_of(query, crypto)
}

/// A call to `uri` whose payload is an object with `members`, with the
/// options of `query`.
fn make_call(uri: &str, members: Vec<(String, JsonValue)>, query: &Query, crypto: CryptoType) -> (r: ApiCall)
    ensures
        r.uri@ == uri@,
        r.data@ == JsonView::Object(members_view(members@)),
        r.option == option_of(*query, crypto),
{
    ApiCall { uri: uri.to_owned(), data: object(members), option: query.to_option(crypto) }
}

/// A call to `uri` with an empty object as payload.
fn empty_call(uri: &str, query: &Query, crypto: CryptoType) -> (r: ApiCall)
    ensures
        is_call(r, uri@, JsonView::Object(seq![]), *query, crypto),
{
    let members: Vec<(String, JsonValue)> = Vec::new();
    let r = make_call(uri, members, query, crypto);
    assert(members_view(members@) =~= seq![]);
    r
}

// ------------------------------------------------------------------------
// Parameters
// ------------------------------------------------------------------------

/// The text of parameter `key`, or `default` when it is unset.
pub open spec fn text_param(params: Map<Seq<char>, Seq<char>>, key: Seq<char>, default: Seq<char>) -> Seq<char> {
    match lookup(params, key) {
        Some(v) => v,
        None => default,
    }
}

/// How a parameter text is sent: as a number when it is a decimal integer
/// in the range of `i64`, else as the text itself.
pub open spec fn number_or_text(t: Seq<char>) -> JsonView {
    match decimal_i64(t) {
        Some(n) => JsonView::Int(n),
        None => JsonView::Str(t),
    }
}

/// Parameter `key` sent as a number where it is one (`default` when unset).
pub open spec fn num_param(params: Map<Seq<char>, Seq<char>>, key: Seq<char>, default: Seq<char>) -> JsonView {
    number_or_text(text_param(params, key, default))
}

/// Parameter `key` sent as a string (`default` when unset).
pub open spec fn str_param(params: Map<Seq<char>, Seq<char>>, key: Seq<char>, default: Seq<char>) -> JsonView {
    JsonView::Str(text_param(params, key, default))
}

/// The value of parameter `key` of `query` as a number where it is one.
fn num_value(query: &Query, key: &str, default: &str) -> (r: JsonValue)
    ensures
        r@ == num_param(query.params@, key@, default@),
{
    let t = query.get_or(key, default);
    match parse_i64(t.as_str()) {
        Some(n) => JsonValue::Int(n),
        None => JsonValue::Str(t),
    }
}

/// A member named `name` carrying parameter `key` as a number where it is one.
fn num_member(name: &str, query: &Query, key: &str, default: &str) -> (r: (String, JsonValue))
    ensures
        r.0@ == name@,
        r.1@ == num_param(query.params@, key@, default@),
{
    (name.to_owned(), num_value(query, key, default))
}

/// A member named `name` carrying parameter `key` as a string.
fn text_member(name: &str, query: &Query, key: &str, default: &str) -> (r: (String, JsonValue))
    ensures
        r.0@ == name@,
        r.1@ == str_param(query.params@, key@, default@),
{
    (name.to_owned(), JsonValue::Str(query.get_or(key, default)))
}

/// Whether `s` reads `lit`.
fn text_is(s: &str, lit: &str) -> (r: bool)
    ensures
        r == (s@ == lit@),
{
    s.to_owned() == lit.to_owned()
}

// ------------------------------------------------------------------------
// Text of payload fields
// ------------------------------------------------------------------------

/// The object `{"id":<id>}` written as text.
pub open spec fn id_object(id: Seq<char>) -> Seq<char> {
    "{\"id\":"@ + id + "}"@
}

/// The objects `{"id":<id>}` of `ids`, separated by commas.
pub open spec fn id_objects(ids: Seq<Seq<char>>) -> Seq<char>
    decreases ids.len(),
{
    if ids.len() == 0 {
        seq![]
    } else if ids.len() == 1 {
        id_object(ids[0])
    } else {
        id_objects(ids.drop_last()) + ","@ + id_object(ids.last())
    }
}

/// The JSON array of `{"id":<id>}` objects of the items of the
/// comma-separated list `ids`, written as text.
pub open spec fn song_list_text(ids: Seq<char>) -> Seq<char> {
    "["@ + id_objects(list_items(ids)) + "]"@
}

/// The prefix of the comment thread ids of a resource type: songs (`0`),
/// MVs (`1`), playlists (`2`), albums (`3`), radio programs (`4`), videos
/// (`5`), events (`6`) and radio stations (`7`).
pub open spec fn resource_prefix(resource_type: Seq<char>) -> Option<Seq<char>> {
    if resource_type == "0"@ {
        Some("R_SO_4_"@)
    } else if resource_type == "1"@ {
        Some("R_MV_5_"@)
    } else if resource_type == "2"@ {
        Some("A_PL_0_"@)
    } else if resource_type == "3"@ {
        Some("R_AL_3_"@)
    } else if resource_type == "4"@ {
        Some("A_DJ_1_"@)
    } else if resource_type == "5"@ {
        Some("R_VI_62_"@)
    } else if resource_type == "6"@ {
        Some("A_EV_2_"@)
    } else if resource_type == "7"@ {
        Some("A_DR_14_"@)
    } else {
        None
    }
}

/// The comment thread id of resource `id` of a type: the type's prefix
/// followed by the id; empty for an unknown type.
pub open spec fn thread_id(resource_type: Seq<char>, id: Seq<char>) -> Seq<char> {
    match resource_prefix(resource_type) {
        Some(p) => p + id,
        None => seq![],
    }
}

/// The internal number of a resource type: the last `_`-separated part of
/// its prefix, `"0"` for an unknown type.
pub open spec fn resource_type_id(resource_type: Seq<char>) -> Seq<char> {
    match resource_prefix(resource_type) {
        Some(p) => last_segment(trim_end_char(p, '_'), '_'),
        None => "0"@,
    }
}

/// The client type that a banner type asks for: `1` android, `2` iphone,
/// `3` ipad; `0` and every other type ask for pc.
pub open spec fn banner_client(banner_type: Seq<char>) -> Seq<char> {
    if banner_type == "1"@ {
        "android"@
    } else if banner_type == "2"@ {
        "iphone"@
    } else if banner_type == "3"@ {
        "ipad"@
    } else {
        "pc"@
    }
}

/// The credential member of a phone login, if any: the `captcha` parameter
/// first, else the `md5_password` parameter as given, else the lower-case
/// hexadecimal MD5 digest of the `password` parameter.
pub open spec fn login_credential(params: Map<Seq<char>, Seq<char>>) -> Seq<(Seq<char>, JsonView)> {
    match lookup(params, "captcha"@) {
        Some(c) => seq![("captcha"@, JsonView::Str(c))],
        None => match lookup(params, "md5_password"@) {
            Some(m) => seq![("password"@, JsonView::Str(m))],
            None => match lookup(params, "password"@) {
                Some(p) => seq![("password"@, JsonView::Str(hex_lower(md5_of_text(p))))],
                None => seq![],
            },
        },
    }
}

fn resource_type_prefix(resource_type: &str) -> (r: Option<&'static str>)
    ensures
        match r {
            Some(p) => resource_prefix(resource_type@) == Some(p@),
            None => resource_prefix(resource_type@) is None,
        },
{
    if text_is(resource_type, "0") {
        Some("R_SO_4_")
    } else if text_is(resource_type, "1") {
        Some("R_MV_5_")
    } else if text_is(resource_type, "2") {
        Some("A_PL_0_")
    } else if text_is(resource_type, "3") {
        Some("R_AL_3_")
    } else if text_is(resource_type, "4") {
        Some("A_DJ_1_")
    } else if text_is(resource_type, "5") {
        Some("R_VI_62_")
    } else if text_is(resource_type, "6") {
        Some("A_EV_2_")
    } else if text_is(resource_type, "7") {
        Some("A_DR_14_")
    } else {
        None
    }
}

/// The text of the `c` field of a song detail request.
pub fn song_list(ids: &str) -> (r: String)
    ensures
        r@ == song_list_text(ids@),
{
    let items = split_list(ids);
    let ghost its = items.deep_view();
    let mut out = String::new();
    out.append("[");
    let mut i: usize = 0;
    while i < items.len()
        invariant
            i <= items@.len(),
            its == items.deep_view(),
            its.len() == items@.len(),
            out@ == "["@ + id_objects(its.take(i as int)),
        decreases items@.len() - i,
    {
        if i > 0 {
            out.append(",");
        }
        out.append("{\"id\":");
        out.append(items[i].as_str());
        out.append("}");
        proof {
            let next = its.take(i + 1);
            assert(next.drop_last() =~= its.take(i as int));
            assert(next.last() == its[i as int]);
            assert(its[i as int] == items@[i as int]@);
            if i == 0 {
                assert(its.take(0) =~= Seq::<Seq<char>>::empty());
                assert(next.len() == 1 && next[0] == its[0]);
            }
            assert(out@ =~= "["@ + id_objects(next));
        }
        i = i + 1;
    }
    out.append("]");
    assert(its.take(its.len() as int) =~= its);
    out
}

/// The internal number of a resource type, as text.
pub fn resource_type_number(resource_type: &str) -> (r: String)
    ensures
        r@ == resource_type_id(resource_type@),
{
    match resource_type_prefix(resource_type) {
        Some(p) => last_underscore_segment(p),
        None => "0".to_owned(),
    }
}

/// The client type asked for by a banner request.
fn banner_client_type(banner_type: &str) -> (r: &'static str)
    ensures
        r@ == banner_client(banner_type@),
{
    if text_is(banner_type, "1") {
        "android"
    } else if text_is(banner_type, "2") {
        "iphone"
    } else if text_is(banner_type, "3") {
        "ipad"
    } else {
        "pc"
    }
}

// ------------------------------------------------------------------------
// The client
// ------------------------------------------------------------------------

/// The client: the cookie it sends with every call that names none.
#[derive(Debug, Clone)]
pub struct ApiClient {
    pub cookie: Option<String>,
}

/// The cookie sent with a call whose options are `option` by a client
/// whose own cookie is `client_cookie`.
pub open spec fn effective_cookie(client_cookie: Option<String>, option: RequestOption) -> Option<String> {
    if option.cookie is Some {
        option.cookie
    } else {
        client_cookie
    }
}

/// A client that sends `cookie` with its calls.
pub fn create_client(cookie: Option<String>) -> (r: ApiClient)
    ensures
        r.cookie == cookie,
{
    ApiClient { cookie }
}

impl ApiClient {
    /// The cookie to send with a call: the call's own cookie when it has
    /// one, else the client's.
    pub fn request_cookie(&self, option: &RequestOption) -> (r: Option<String>)
        ensures
            r == effective_cookie(self.cookie, *option),
    {
        match &option.cookie {
            Some(c) => Some(c.clone()),
            None => crate::query::clone_opt_string(&self.cookie),
        }
    }

    /// Song details (`/song/detail`): `ids`, a comma-separated list (unset
    /// or empty: no songs).
    pub fn song_detail(&self, query: &Query) -> (r: ApiCall)
        ensures
            is_call(
                r,
                "/api/v3/song/detail"@,
                JsonView::Object(
                    seq![("c"@, JsonView::Str(song_list_text(text_param(query.params@, "ids"@, ""@))))],
                ),
                *query,
                CryptoType::Weapi,
            ),
    {
        let ids = query.get_or("ids", "");
        let members = vec![string_member("c", song_list(ids.as_str()))];
        let r = make_call("/api/v3/song/detail", members, query, CryptoType::Weapi);
        assert(members_view(members@) =~= seq![
            ("c"@, JsonView::Str(song_list_text(text_param(query.params@, "ids"@, ""@)))),
        ]);
        r
    }

    /// Song play links (`/song/url/v1`): `id`, and `level` (default
    /// `standard`).
    pub fn song_url_v1(&self, query: &Query) -> (r: ApiCall)
        ensures
            is_call(
                r,
                "/api/song/enhance/player/url/v1"@,
                JsonView::Object(
                    seq![
                        ("ids"@, JsonView::Str("["@ + text_param(query.params@, "id"@, ""@) + "]"@)),
                        ("level"@, str_param(query.params@, "level"@, "standard"@)),
                        ("encodeType"@, JsonView::Str("flac"@)),
                    ],
                ),
                *query,
                CryptoType::Eapi,
            ),
    {
        let mut ids = String::new();
        ids.append("[");
        ids.append(query.get_or("id", "").as_str());
        ids.append("]");
        let members = vec![
            string_member("ids", ids),
            text_member("level", query, "level", "standard"),
            str_member("encodeType", "flac"),
        ];
        let r = make_call("/api/song/enhance/player/url/v1", members, query, CryptoType::default());
        assert(members_view(members@) =~= seq![
            ("ids"@, JsonView::Str("["@ + text_param(query.params@, "id"@, ""@) + "]"@)),
            ("level"@, str_param(query.params@, "level"@, "standard"@)),
            ("encodeType"@, JsonView::Str("flac"@)),
        ]);
        r
    }

    /// Lyrics of a song (`/lyric`): `id`.
    pub fn lyric(&self, query: &Query) -> (r: ApiCall)
        ensures
            is_call(
                r,
                "/api/song/lyric"@,
                JsonView::Object(
                    seq![
                        ("id"@, num_param(query.params@, "id"@, ""@)),
                        ("tv"@, JsonView::Int(-1)),
                        ("lv"@, JsonView::Int(-1)),
                        ("rv"@, JsonView::Int(-1)),
                        ("kv"@, JsonView::Int(-1)),
                        ("_nmclfl"@, JsonView::Int(1)),
                    ],
                ),
                *query,
                CryptoType::Eapi,
            ),
    {
        let members = vec![
            num_member("id", query, "id", ""),
            int_member("tv", -1),
            int_member("lv", -1),
            int_member("rv", -1),
            int_member("kv", -1),
            int_member("_nmclfl", 1),
        ];
        let r = make_call("/api/song/lyric", members, query, CryptoType::default());
        assert(members_view(members@) =~= seq![
            ("id"@, num_param(query.params@, "id"@, ""@)),
            ("tv"@, JsonView::Int(-1)),
            ("lv"@, JsonView::Int(-1)),
            ("rv"@, JsonView::Int(-1)),
            ("kv"@, JsonView::Int(-1)),
            ("_nmclfl"@, JsonView::Int(1)),
        ]);
        r
    }

    /// Whether a song can be played (`/check/music`): `id`, and `br`, the
    /// bit rate (default 999000).
    pub fn check_music(&self, query: &Query) -> (r: ApiCall)
        ensures
            is_call(
                r,
                "/api/song/enhance/player/url"@,
                JsonView::Object(
                    seq![
                        ("ids"@, JsonView::Array(seq![num_param(query.params@, "id"@, ""@)])),
                        ("br"@, num_param(query.params@, "br"@, "999000"@)),
                    ],
                ),
                *query,
                CryptoType::Weapi,
            ),
    {
        let id = num_value(query, "id", "");
        let ghost id_view = id@;
        let ids: Vec<JsonValue> = vec![id];
        let ids_value = JsonValue::Array(ids);
        assert(ids_value@ == JsonView::Array(seq![id_view])) by {
            assert(ids_value@->Array_0 =~= seq![id_view]);
        }
        let members = vec![("ids".to_owned(), ids_value), num_member("br", query, "br", "999000")];
        let r = make_call("/api/song/enhance/player/url", members, query, CryptoType::Weapi);
        assert(members_view(members@) =~= seq![
            ("ids"@, JsonView::Array(seq![num_param(query.params@, "id"@, ""@)])),
            ("br"@, num_param(query.params@, "br"@, "999000"@)),
        ]);
        r
    }

    /// Search (`/cloudsearch`): `keywords`, `type` (default 1, songs),
    /// `limit` (default 30) and `offset` (default 0).
    pub fn cloudsearch(&self, query: &Query) -> (r: ApiCall)
        ensures
            is_call(
                r,
                "/api/cloudsearch/pc"@,
                JsonView::Object(
                    seq![
                        ("s"@, str_param(query.params@, "keywords"@, ""@)),
                        ("type"@, num_param(query.params@, "type"@, "1"@)),
                        ("limit"@, num_param(query.params@, "limit"@, "30"@)),
                        ("offset"@, num_param(query.params@, "offset"@, "0"@)),
                        ("total"@, JsonView::Bool(true)),
                    ],
                ),
                *query,
                CryptoType::Weapi,
            ),
    {
        let members = vec![
            text_member("s", query, "keywords", ""),
            num_member("type", query, "type", "1"),
            num_member("limit", query, "limit", "30"),
            num_member("offset", query, "offset", "0"),
            bool_member("total", true),
        ];
        let r = make_call("/api/cloudsearch/pc", members, query, CryptoType::Weapi);
        assert(members_view(members@) =~= seq![
            ("s"@, str_param(query.params@, "keywords"@, ""@)),
            ("type"@, num_param(query.params@, "type"@, "1"@)),
            ("limit"@, num_param(query.params@, "limit"@, "30"@)),
            ("offset"@, num_param(query.params@, "offset"@, "0"@)),
            ("total"@, JsonView::Bool(true)),
        ]);
        r
    }

    /// The default search keyword (`/search/default`).
    pub fn search_default(&self, query: &Query) -> (r: ApiCall)
        ensures
            is_call(r, "/api/search/defaultkeyword/get"@, JsonView::Object(seq![]), *query, CryptoType::Eapi),
    {
        empty_call("/api/search/defaultkeyword/get", query, CryptoType::default())
    }

    /// Search suggestions (`/search/suggest`): `keywords`.
    pub fn search_suggest(&self, query: &Query) -> (r: ApiCall)
        ensures
            is_call(
                r,
                "/api/search/suggest/web"@,
                JsonView::Object(seq![("s"@, str_param(query.params@, "keywords"@, ""@))]),
                *query,
                CryptoType::Weapi,
            ),
    {
        let members = vec![text_member("s", query, "keywords", "")];
        let r = make_call("/api/search/suggest/web", members, query, CryptoType::Weapi);
        assert(members_view(members@) =~= seq![("s"@, str_param(query.params@, "keywords"@, ""@))]);
        r
    }

    /// The playlists of a user (`/user/playlist`): `uid`, `limit` (default
    /// 30) and `offset` (default 0).
    pub fn user_playlist(&self, query: &Query) -> (r: ApiCall)
        ensures
            is_call(
                r,
                "/api/user/playlist"@,
                JsonView::Object(
                    seq![
                        ("uid"@, num_param(query.params@, "uid"@, ""@)),
                        ("limit"@, num_param(query.params@, "limit"@, "30"@)),
                        ("offset"@, num_param(query.params@, "offset"@, "0"@)),
                        ("includeVideo"@, JsonView::Bool(true)),
                    ],
                ),
                *query,
                CryptoType::Weapi,
            ),
    {
        let members = vec![
            num_member("uid", query, "uid", ""),
            num_member("limit", query, "limit", "30"),
            num_member("offset", query, "offset", "0"),
            bool_member("includeVideo", true),
        ];
        let r = make_call("/api/user/playlist", members, query, CryptoType::Weapi);
        assert(members_view(members@) =~= seq![
            ("uid"@, num_param(query.params@, "uid"@, ""@)),
            ("limit"@, num_param(query.params@, "limit"@, "30"@)),
            ("offset"@, num_param(query.params@, "offset"@, "0"@)),
            ("includeVideo"@, JsonView::Bool(true)),
        ]);
        r
    }

    /// Playlist details (`/playlist/detail`): `id`, and `s` (default 8).
    pub fn playlist_detail(&self, query: &Query) -> (r: ApiCall)
        ensures
            is_call(
                r,
                "/api/v6/playlist/detail"@,
                JsonView::Object(
                    seq![
                        ("id"@, num_param(query.params@, "id"@, ""@)),
                        ("n"@, JsonView::Int(100000)),
                        ("s"@, num_param(query.params@, "s"@, "8"@)),
                    ],
                ),
                *query,
                CryptoType::Eapi,
            ),
    {
        let members = vec![
            num_member("id", query, "id", ""),
            int_member("n", 100000),
            num_member("s", query, "s", "8"),
        ];
        let r = make_call("/api/v6/playlist/detail", members, query, CryptoType::default());
        assert(members_view(members@) =~= seq![
            ("id"@, num_param(query.params@, "id"@, ""@)),
            ("n"@, JsonView::Int(100000)),
            ("s"@, num_param(query.params@, "s"@, "8"@)),
        ]);
        r
    }

    /// All tracks of a playlist (`/playlist/track/all`): `id`, `limit`
    /// (default 1000) and `offset` (default 0).
    pub fn playlist_track_all(&self, query: &Query) -> (r: ApiCall)
        ensures
            is_call(
                r,
                "/api/v6/playlist/detail"@,
                JsonView::Object(
                    seq![
                        ("id"@, num_param(query.params@, "id"@, ""@)),
                        ("n"@, JsonView::Int(100000)),
                        ("limit"@, num_param(query.params@, "limit"@, "1000"@)),
                        ("offset"@, num_param(query.params@, "offset"@, "0"@)),
                    ],
                ),
                *query,
                CryptoType::Eapi,
            ),
    {
        let members = vec![
            num_member("id", query, "id", ""),
            int_member("n", 100000),
            num_member("limit", query, "limit", "1000"),
            num_member("offset", query, "offset", "0"),
        ];
        let r = make_call("/api/v6/playlist/detail", members, query, CryptoType::default());
        assert(members_view(members@) =~= seq![
            ("id"@, num_param(query.params@, "id"@, ""@)),
            ("n"@, JsonView::Int(100000)),
            ("limit"@, num_param(query.params@, "limit"@, "1000"@)),
            ("offset"@, num_param(query.params@, "offset"@, "0"@)),
        ]);
        r
    }

    /// Artist details (`/artist/detail`): `id`.
    pub fn artist_detail(&self, query: &Query) -> (r: ApiCall)
        ensures
            is_call(
                r,
                "/api/artist/head/info/get"@,
                JsonView::Object(seq![("id"@, num_param(query.params@, "id"@, ""@))]),
                *query,
                CryptoType::Weapi,
            ),
    {
        let members = vec![num_member("id", query, "id", "")];
        let r = make_call("/api/artist/head/info/get", members, query, CryptoType::Weapi);
        assert(members_view(members@) =~= seq![("id"@, num_param(query.params@, "id"@, ""@))]);
        r
    }

    /// The songs of an artist (`/artist/songs`): `id`, `order` (default
    /// `hot`), `limit` (default 100) and `offset` (default 0).
    pub fn artist_songs(&self, query: &Query) -> (r: ApiCall)
        ensures
            is_call(
                r,
                "/api/v1/artist/songs"@,
                JsonView::Object(
                    seq![
                        ("id"@, num_param(query.params@, "id"@, ""@)),
                        ("private_cloud"@, JsonView::Str("true"@)),
                        ("work_type"@, JsonView::Int(1)),
                        ("order"@, str_param(query.params@, "order"@, "hot"@)),
                        ("limit"@, num_param(query.params@, "limit"@, "100"@)),
                        ("offset"@, num_param(query.params@, "offset"@, "0"@)),
                    ],
                ),
                *query,
                CryptoType::Weapi,
            ),
    {
        let members = vec![
            num_member("id", query, "id", ""),
            str_member("private_cloud", "true"),
            int_member("work_type", 1),
            text_member("order", query, "order", "hot"),
            num_member("limit", query, "limit", "100"),
            num_member("offset", query, "offset", "0"),
        ];
        let r = make_call("/api/v1/artist/songs", members, query, CryptoType::Weapi);
        assert(members_view(members@) =~= seq![
            ("id"@, num_param(query.params@, "id"@, ""@)),
            ("private_cloud"@, JsonView::Str("true"@)),
            ("work_type"@, JsonView::Int(1)),
            ("order"@, str_param(query.params@, "order"@, "hot"@)),
            ("limit"@, num_param(query.params@, "limit"@, "100"@)),
            ("offset"@, num_param(query.params@, "offset"@, "0"@)),
        ]);
        r
    }

    /// Album contents (`/album`): `id`, which ends the path.
    pub fn album(&self, query: &Query) -> (r: ApiCall)
        ensures
            is_call(
                r,
                "/api/v1/album/"@ + text_param(query.params@, "id"@, ""@),
                JsonView::Object(seq![]),
                *query,
                CryptoType::Weapi,
            ),
    {
        let mut uri = String::new();
        uri.append("/api/v1/album/");
        uri.append(query.get_or("id", "").as_str());
        empty_call(uri.as_str(), query, CryptoType::Weapi)
    }

    /// Comments of a resource (`/comment/new`): `id`, `type` (the resource
    /// type), `pageNo` (default 1), `pageSize` (default 20), `sortType`
    /// (default 1) and `cursor` (default empty).
    pub fn comment_new(&self, query: &Query) -> (r: ApiCall)
        ensures
            is_call(
                r,
                "/api/v2/resource/comments"@,
                JsonView::Object(
                    seq![
                        ("rid"@, str_param(query.params@, "id"@, ""@)),
                        ("threadId"@, JsonView::Str(thread_id(
                            text_param(query.params@, "type"@, ""@),
                            text_param(query.params@, "id"@, ""@),
                        ))),
                        ("pageNo"@, num_param(query.params@, "pageNo"@, "1"@)),
                        ("pageSize"@, num_param(query.params@, "pageSize"@, "20"@)),
                        ("sortType"@, num_param(query.params@, "sortType"@, "1"@)),
                        ("cursor"@, str_param(query.params@, "cursor"@, ""@)),
                    ],
                ),
                *query,
                CryptoType::Eapi,
            ),
    {
        let id = query.get_or("id", "");
        let resource_type = query.get_or("type", "");
        let thread = match resource_type_prefix(resource_type.as_str()) {
            Some(prefix) => {
                let mut t = prefix.to_owned();
                t.append(id.as_str());
                t
            },
            None => String::new(),
        };
        let members = vec![
            string_member("rid", id),
            string_member("threadId", thread),
            num_member("pageNo", query, "pageNo", "1"),
            num_member("pageSize", query, "pageSize", "20"),
            num_member("sortType", query, "sortType", "1"),
            text_member("cursor", query, "cursor", ""),
        ];
        let r = make_call("/api/v2/resource/comments", members, query, CryptoType::default());
        assert(members_view(members@) =~= seq![
            ("rid"@, str_param(query.params@, "id"@, ""@)),
            ("threadId"@, JsonView::Str(thread_id(
                text_param(query.params@, "type"@, ""@),
                text_param(query.params@, "id"@, ""@),
            ))),
            ("pageNo"@, num_param(query.params@, "pageNo"@, "1"@)),
            ("pageSize"@, num_param(query.params@, "pageSize"@, "20"@)),
            ("sortType"@, num_param(query.params@, "sortType"@, "1"@)),
            ("cursor"@, str_param(query.params@, "cursor"@, ""@)),
        ]);
        r
    }

    /// Comment statistics of resources (`/comment/info/list`): `ids`, a
    /// comma-separated list (unset or empty: no ids) sent as the JSON text of
    /// the list of its items, and `type` (the resource type). It always
    /// succeeds.
    pub fn comment_info_list(&self, query: &Query) -> (r: crate::error::Result<ApiCall>)
        ensures
            r is Ok,
            match r {
                Ok(c) => is_call(
                    c,
                    "/api/resource/commentInfo/list"@,
                    JsonView::Object(
                        seq![
                            ("resourceType"@, JsonView::Str(resource_type_id(
                                text_param(query.params@, "type"@, ""@),
                            ))),
                            ("resourceIds"@, JsonView::Str(json_string_list(list_items(
                                text_param(query.params@, "ids"@, ""@),
                            )))),
                        ],
                    ),
                    *query,
                    CryptoType::Weapi,
                ),
                Err(_) => false,
            },
    {
        let ids = query.get_or("ids", "");
        let items = split_list(ids.as_str());
        let resource_type = query.get_or("type", "");
        match strings_to_json(&items) {
            Ok(text) => {
                let ghost ids_text = text@;
                let members = vec![
                    string_member("resourceType", resource_type_number(resource_type.as_str())),
                    string_member("resourceIds", text),
                ];
                let r = make_call("/api/resource/commentInfo/list", members, query, CryptoType::Weapi);
                assert(members_view(members@) =~= seq![
                    ("resourceType"@, JsonView::Str(resource_type_id(
                        text_param(query.params@, "type"@, ""@),
                    ))),
                    ("resourceIds"@, JsonView::Str(ids_text)),
                ]);
                Ok(r)
            },
            Err(e) => Err(NcmError::Json(e)),
        }
    }

    /// The daily recommended songs (`/recommend/songs`).
    pub fn recommend_songs(&self, query: &Query) -> (r: ApiCall)
        ensures
            is_call(r, "/api/v3/discovery/recommend/songs"@, JsonView::Object(seq![]), *query, CryptoType::Weapi),
    {
        empty_call("/api/v3/discovery/recommend/songs", query, CryptoType::Weapi)
    }

    /// Recommended playlists (`/personalized`): `limit` (default 30).
    pub fn personalized(&self, query: &Query) -> (r: ApiCall)
        ensures
            is_call(
                r,
                "/api/personalized/playlist"@,
                JsonView::Object(
                    seq![
                        ("limit"@, num_param(query.params@, "limit"@, "30"@)),
                        ("total"@, JsonView::Bool(true)),
                        ("n"@, JsonView::Int(1000)),
                    ],
                ),
                *query,
                CryptoType::Weapi,
            ),
    {
        let members = vec![
            num_member("limit", query, "limit", "30"),
            bool_member("total", true),
            int_member("n", 1000),
        ];
        let r = make_call("/api/personalized/playlist", members, query, CryptoType::Weapi);
        assert(members_view(members@) =~= seq![
            ("limit"@, num_param(query.params@, "limit"@, "30"@)),
            ("total"@, JsonView::Bool(true)),
            ("n"@, JsonView::Int(1000)),
        ]);
        r
    }

    /// Phone login (`/login/cellphone`): `phone` and `countrycode` (default
    /// 86). A `captcha` is sent when given; otherwise an `md5_password` as
    /// given; otherwise the MD5 digest of `password`, in lower-case
    /// hexadecimal; otherwise no credential.
    pub fn login_cellphone(&self, query: &Query) -> (r: ApiCall)
        ensures
            is_call(
                r,
                "/api/w/login/cellphone"@,
                JsonView::Object(
                    seq![
                        ("type"@, JsonView::Str("1"@)),
                        ("https"@, JsonView::Str("true"@)),
                        ("phone"@, str_param(query.params@, "phone"@, ""@)),
                        ("countrycode"@, str_param(query.params@, "countrycode"@, "86"@)),
                        ("remember"@, JsonView::Str("true"@)),
                    ] + login_credential(query.params@),
                ),
                *query,
                CryptoType::Weapi,
            ),
    {
        let mut members = vec![
            str_member("type", "1"),
            str_member("https", "true"),
            text_member("phone", query, "phone", ""),
            text_member("countrycode", query, "countrycode", "86"),
            str_member("remember", "true"),
        ];
        if let Some(cap) = query.get("captcha") {
            members.push(str_member("captcha", cap));
        } else if let Some(md5_pwd) = query.get("md5_password") {
            members.push(str_member("password", md5_pwd));
        } else if let Some(pwd) = query.get("password") {
            let digest = md5_digest(pwd);
            members.push(string_member("password", to_hex_lower(digest.as_slice())));
        }
        let r = make_call("/api/w/login/cellphone", members, query, CryptoType::Weapi);
        assert(members_view(members@) =~= seq![
            ("type"@, JsonView::Str("1"@)),
            ("https"@, JsonView::Str("true"@)),
            ("phone"@, str_param(query.params@, "phone"@, ""@)),
            ("countrycode"@, str_param(query.params@, "countrycode"@, "86"@)),
            ("remember"@, JsonView::Str("true"@)),
        ] + login_credential(query.params@));
        r
    }

    /// The login status (`/login/status`).
    pub fn login_status(&self, query: &Query) -> (r: ApiCall)
        ensures
            is_call(r, "/api/w/nuser/account/get"@, JsonView::Object(seq![]), *query, CryptoType::Weapi),
    {
        empty_call("/api/w/nuser/account/get", query, CryptoType::Weapi)
    }

    /// User details (`/user/detail`): `uid`, which ends the path.
    pub fn user_detail(&self, query: &Query) -> (r: ApiCall)
        ensures
            is_call(
                r,
                "/api/v1/user/detail/"@ + text_param(query.params@, "uid"@, ""@),
                JsonView::Object(seq![]),
                *query,
                CryptoType::Weapi,
            ),
    {
        let mut uri = String::new();
        uri.append("/api/v1/user/detail/");
        uri.append(query.get_or("uid", "").as_str());
        empty_call(uri.as_str(), query, CryptoType::Weapi)
    }

    /// The personal radio (`/personal_fm`).
    pub fn personal_fm(&self, query: &Query) -> (r: ApiCall)
        ensures
            is_call(r, "/api/v1/radio/get"@, JsonView::Object(seq![]), *query, CryptoType::Weapi),
    {
        empty_call("/api/v1/radio/get", query, CryptoType::Weapi)
    }

    /// The liked songs of a user (`/likelist`): `uid`.
    pub fn likelist(&self, query: &Query) -> (r: ApiCall)
        ensures
            is_call(
                r,
                "/api/song/like/get"@,
                JsonView::Object(seq![("uid"@, num_param(query.params@, "uid"@, ""@))]),
                *query,
                CryptoType::Weapi,
            ),
    {
        let members = vec![num_member("uid", query, "uid", "")];
        let r = make_call("/api/song/like/get", members, query, CryptoType::Weapi);
        assert(members_view(members@) =~= seq![("uid"@, num_param(query.params@, "uid"@, ""@))]);
        r
    }

    /// Likes or unlikes a song (`/like`): `id`, and `like`, which unlikes
    /// only when it reads `false`.
    pub fn like(&self, query: &Query) -> (r: ApiCall)
        ensures
            is_call(
                r,
                "/api/radio/like"@,
                JsonView::Object(
                    seq![
                        ("trackId"@, num_param(query.params@, "id"@, ""@)),
                        ("like"@, JsonView::Bool(text_param(query.params@, "like"@, "true"@) != "false"@)),
                        ("alg"@, JsonView::Str("itembased"@)),
                    ],
                ),
                *query,
                CryptoType::Weapi,
            ),
    {
        let like_text = query.get_or("like", "true");
        let members = vec![
            num_member("trackId", query, "id", ""),
            bool_member("like", !text_is(like_text.as_str(), "false")),
            str_member("alg", "itembased"),
        ];
        let r = make_call("/api/radio/like", members, query, CryptoType::Weapi);
        assert(members_view(members@) =~= seq![
            ("trackId"@, num_param(query.params@, "id"@, ""@)),
            ("like"@, JsonView::Bool(text_param(query.params@, "like"@, "true"@) != "false"@)),
            ("alg"@, JsonView::Str("itembased"@)),
        ]);
        r
    }

    /// The home page banners (`/banner`): `type`, the client type (`0`
    /// pc, the default; `1` android; `2` iphone; `3` ipad; any other type
    /// asks for pc).
    pub fn banner(&self, query: &Query) -> (r: ApiCall)
        ensures
            is_call(
                r,
                "/api/v2/banner/get"@,
                JsonView::Object(
                    seq![("clientType"@, JsonView::Str(banner_client(text_param(query.params@, "type"@, "0"@))))],
                ),
                *query,
                CryptoType::Eapi,
            ),
    {
        let banner_type = query.get_or("type", "0");
        let members = vec![str_member("clientType", banner_client_type(banner_type.as_str()))];
        let r = make_call("/api/v2/banner/get", members, query, CryptoType::default());
        assert(members_view(members@) =~= seq![
            ("clientType"@, JsonView::Str(banner_client(text_param(query.params@, "type"@, "0"@)))),
        ]);
        r
    }

    /// Any call: `data` goes to `uri` with the options of `query` and
    /// encryption `crypto`, the query's cookie included.
    pub fn call(&self, uri: &str, data: JsonValue, query: &Query, crypto: CryptoType) -> (r: ApiCall)
        ensures
            r.uri@ == uri@,
            r.data == data,
            r.option == option_of(*query, crypto),
    {
        let mut option = query.to_option(crypto);
        if let Some(c) = &query.cookie {
            option.cookie = Some(c.clone());
        }
        ApiCall { uri: uri.to_owned(), data, option }
    }
}

} // verus!
