//! Properties that hold across the operations of the library.
use vstd::prelude::*;

use crate::api::{
    num_param, effective_cookie, id_objects, json_string_list, resource_type_id, song_list_text, thread_id, ApiCall,
    ApiClient,
};
use crate::query::{lookup, option_of, CryptoType, Params, Query};
use crate::text::{
    all_digits, decimal_i64, digits_value, hex_lower, is_digit, last_segment, list_items, split_commas,
    trim_end_char, trim_spaces,
};

verus! {

/// After a parameter is set, reading it gives the value that was set.
pub proof fn law_param_then_get(params: Map<Seq<char>, Seq<char>>, key: Seq<char>, value: Seq<char>)
    ensures
        lookup(params.insert(key, value), key) == Some(value),
{
}

/// Setting a parameter leaves every other parameter as it was.
pub proof fn law_param_keeps_others(
    params: Map<Seq<char>, Seq<char>>,
    key: Seq<char>,
    value: Seq<char>,
    other: Seq<char>,
)
    requires
        other != key,
    ensures
        lookup(params.insert(key, value), other) == lookup(params, other),
{
}

/// Setting a parameter twice is the same as setting it once to the later
/// value.
pub proof fn law_param_overwrites(
    params: Map<Seq<char>, Seq<char>>,
    key: Seq<char>,
    first: Seq<char>,
    second: Seq<char>,
)
    ensures
        params.insert(key, first).insert(key, second) == params.insert(key, second),
{
    assert(params.insert(key, first).insert(key, second) =~= params.insert(key, second));
}

/// Setting a parameter grows the parameter map by one exactly when the key
/// was not set before.
pub proof fn law_param_size(params: Params, key: Seq<char>, value: Seq<char>)
    ensures
        params@.insert(key, value).len() == if params@.contains_key(key) {
            params@.len()
        } else {
            params@.len() + 1
        },
{
    params.lemma_finite();
    if params@.contains_key(key) {
        assert(params@.insert(key, value).dom() =~= params@.dom());
    } else {
        assert(params@.insert(key, value).dom() =~= params@.dom().insert(key));
    }
}

/// A blank query has no parameter set.
pub proof fn law_blank_query_has_no_params(key: Seq<char>)
    ensures
        lookup(Map::<Seq<char>, Seq<char>>::empty(), key) is None,
{
}

/// A cookie given with the query of a call takes the place of the
/// client's cookie; a query without one sends the client's. Every endpoint
/// and the generic call take their options from their query this way.
pub proof fn law_query_cookie_overrides_client(
    client: ApiClient,
    call: ApiCall,
    query: Query,
    crypto: CryptoType,
)
    requires
        call.option == option_of(query, crypto),
    ensures
        query.cookie is Some ==> effective_cookie(client.cookie, call.option) == query.cookie,
        query.cookie is None ==> effective_cookie(client.cookie, call.option) == client.cookie,
{
}

/// The options of a query carry its settings unchanged, whatever the
/// encryption, and never ask for the token check.
pub proof fn law_options_follow_query(query: Query, crypto: CryptoType)
    ensures
        option_of(query, crypto).crypto == crypto,
        option_of(query, crypto).cookie == query.cookie,
        option_of(query, crypto).proxy == query.proxy,
        option_of(query, crypto).real_ip == query.real_ip,
        option_of(query, crypto).random_cn_ip == query.random_cn_ip,
        option_of(query, crypto).ua == query.ua,
        option_of(query, crypto).e_r == query.e_r,
        option_of(query, crypto).domain == query.domain,
        !option_of(query, crypto).check_token,
{
}

/// An unset or empty list of ids has no items: song details then ask for
/// `[]`, and comment statistics send `[]` as the ids.
pub proof fn law_empty_id_list()
    ensures
        list_items(seq![]) == Seq::<Seq<char>>::empty(),
        song_list_text(seq![]) == seq!['[', ']'],
        json_string_list(list_items(seq![])) == seq!['[', ']'],
{
    reveal_strlit("[");
    reveal_strlit("]");
    assert(list_items(seq![]) =~= Seq::<Seq<char>>::empty());
    assert(song_list_text(seq![]) =~= seq!['[', ']']);
    assert(json_string_list(list_items(seq![])) =~= seq!['[', ']']);
}

/// The hexadecimal rendering of a byte string has two digits per byte (an
/// MD5 password is sent as 32 digits).
pub proof fn law_hex_length(bytes: Seq<u8>)
    ensures
        hex_lower(bytes).len() == 2 * bytes.len(),
    decreases bytes.len(),
{
    if bytes.len() > 0 {
        law_hex_length(bytes.drop_last());
    }
}

/// The text that asks for one song: `{"id":` followed by the id and `}`.
pub open spec fn song_object(id: Seq<char>) -> Seq<char> {
    seq!['{', '"', 'i', 'd', '"', ':'] + id + seq!['}']
}

/// The song objects of a list of ids: one id gives its object, and the
/// objects of two lists one after the other are those of the first list, a
/// single comma, then those of the second — so the objects of n ids are
/// separated by exactly n - 1 commas, in the order of the ids.
pub proof fn law_song_objects_joined(xs: Seq<Seq<char>>, ys: Seq<Seq<char>>)
    requires
        xs.len() > 0,
        ys.len() > 0,
    ensures
        id_objects(seq![xs[0]]) == song_object(xs[0]),
        id_objects(xs + ys) == id_objects(xs) + seq![','] + id_objects(ys),
    decreases ys.len(),
{
    reveal_strlit("{\"id\":");
    reveal_strlit("}");
    reveal_strlit(",");
    assert(id_objects(seq![xs[0]]) =~= song_object(xs[0]));
    let zs = xs + ys;
    if ys.len() == 1 {
        assert(zs.drop_last() =~= xs);
        assert(zs.last() == ys[0]);
        assert(id_objects(ys) == crate::api::id_object(ys[0]));
        assert(id_objects(zs) =~= id_objects(xs) + seq![','] + id_objects(ys));
    } else {
        law_song_objects_joined(xs, ys.drop_last());
        assert(zs.drop_last() =~= xs + ys.drop_last());
        assert(zs.last() == ys.last());
        assert(id_objects(zs) =~= id_objects(xs) + seq![','] + id_objects(ys));
    }
}

/// A lower-case hexadecimal digit: `0`-`9` or `a`-`f`.
pub open spec fn is_lower_hex_digit(c: char) -> bool {
    ('0' <= c && c <= '9') || ('a' <= c && c <= 'f')
}

/// The value of a hexadecimal digit.
pub open spec fn hex_digit_value(c: char) -> int {
    if '0' <= c && c <= '9' {
        (c as int) - ('0' as int)
    } else {
        (c as int) - ('a' as int) + 10
    }
}

/// The hexadecimal rendering is the standard lower-case one and can be read
/// back: byte k of the input is written as the digits at 2k and 2k + 1,
/// both lower-case hexadecimal digits, whose values give the byte again
/// (high digit times 16 plus low digit).
pub proof fn law_hex_reads_back(bytes: Seq<u8>, k: int)
    requires
        0 <= k < bytes.len(),
    ensures
        hex_lower(bytes).len() == 2 * bytes.len(),
        is_lower_hex_digit(hex_lower(bytes)[2 * k]),
        is_lower_hex_digit(hex_lower(bytes)[2 * k + 1]),
        hex_digit_value(hex_lower(bytes)[2 * k]) * 16 + hex_digit_value(hex_lower(bytes)[2 * k + 1])
            == bytes[k],
    decreases bytes.len(),
{
    law_hex_length(bytes);
    let t = bytes.drop_last();
    law_hex_length(t);
    if k < bytes.len() - 1 {
        law_hex_reads_back(t, k);
        assert(hex_lower(bytes)[2 * k] == hex_lower(t)[2 * k]);
        assert(hex_lower(bytes)[2 * k + 1] == hex_lower(t)[2 * k + 1]);
        assert(t[k] == bytes[k]);
    } else {
        let b = bytes.last();
        let hi = (b / 16) as int;
        let lo = (b % 16) as int;
        assert(hex_lower(bytes)[2 * k] == crate::text::hex_char(hi));
        assert(hex_lower(bytes)[2 * k + 1] == crate::text::hex_char(lo));
        assert(0 <= hi < 16 && 0 <= lo < 16);
        assert(hi * 16 + lo == b);
    }
}

/// The comment thread of a resource is named by the service's prefix of
/// its type followed by the id: songs `R_SO_4_`, MVs `R_MV_5_`, playlists
/// `A_PL_0_`, albums `R_AL_3_`, radio programs `A_DJ_1_`, videos
/// `R_VI_62_`, events `A_EV_2_`, radio stations `A_DR_14_`; any other type
/// has no thread id.
pub proof fn law_thread_ids(resource_type: Seq<char>, id: Seq<char>)
    ensures
        thread_id(seq!['0'], id) == seq!['R', '_', 'S', 'O', '_', '4', '_'] + id,
        thread_id(seq!['1'], id) == seq!['R', '_', 'M', 'V', '_', '5', '_'] + id,
        thread_id(seq!['2'], id) == seq!['A', '_', 'P', 'L', '_', '0', '_'] + id,
        thread_id(seq!['3'], id) == seq!['R', '_', 'A', 'L', '_', '3', '_'] + id,
        thread_id(seq!['4'], id) == seq!['A', '_', 'D', 'J', '_', '1', '_'] + id,
        thread_id(seq!['5'], id) == seq!['R', '_', 'V', 'I', '_', '6', '2', '_'] + id,
        thread_id(seq!['6'], id) == seq!['A', '_', 'E', 'V', '_', '2', '_'] + id,
        thread_id(seq!['7'], id) == seq!['A', '_', 'D', 'R', '_', '1', '4', '_'] + id,
        resource_type != seq!['0'] && resource_type != seq!['1'] && resource_type != seq!['2']
            && resource_type != seq!['3'] && resource_type != seq!['4'] && resource_type != seq!['5']
            && resource_type != seq!['6'] && resource_type != seq!['7'] ==> thread_id(resource_type, id)
            == Seq::<char>::empty(),
{
    reveal_strlit("0");
    reveal_strlit("1");
    reveal_strlit("2");
    reveal_strlit("3");
    reveal_strlit("4");
    reveal_strlit("5");
    reveal_strlit("6");
    reveal_strlit("7");
    reveal_strlit("R_SO_4_");
    reveal_strlit("R_MV_5_");
    reveal_strlit("A_PL_0_");
    reveal_strlit("R_AL_3_");
    reveal_strlit("A_DJ_1_");
    reveal_strlit("R_VI_62_");
    reveal_strlit("A_EV_2_");
    reveal_strlit("A_DR_14_");
    assert("0"@ =~= seq!['0']);
    assert("1"@ =~= seq!['1']);
    assert("2"@ =~= seq!['2']);
    assert("3"@ =~= seq!['3']);
    assert("4"@ =~= seq!['4']);
    assert("5"@ =~= seq!['5']);
    assert("6"@ =~= seq!['6']);
    assert("7"@ =~= seq!['7']);
    assert("R_SO_4_"@ =~= seq!['R', '_', 'S', 'O', '_', '4', '_']);
    assert("R_MV_5_"@ =~= seq!['R', '_', 'M', 'V', '_', '5', '_']);
    assert("A_PL_0_"@ =~= seq!['A', '_', 'P', 'L', '_', '0', '_']);
    assert("R_AL_3_"@ =~= seq!['R', '_', 'A', 'L', '_', '3', '_']);
    assert("A_DJ_1_"@ =~= seq!['A', '_', 'D', 'J', '_', '1', '_']);
    assert("R_VI_62_"@ =~= seq!['R', '_', 'V', 'I', '_', '6', '2', '_']);
    assert("A_EV_2_"@ =~= seq!['A', '_', 'E', 'V', '_', '2', '_']);
    assert("A_DR_14_"@ =~= seq!['A', '_', 'D', 'R', '_', '1', '4', '_']);
    assert(seq!['1'] != seq!['0']) by {
        assert(seq!['1'][0] != seq!['0'][0]);
    }
    assert(seq!['2'] != seq!['0']) by {
        assert(seq!['2'][0] != seq!['0'][0]);
    }
    assert(seq!['2'] != seq!['1']) by {
        assert(seq!['2'][0] != seq!['1'][0]);
    }
    assert(seq!['3'] != seq!['0']) by {
        assert(seq!['3'][0] != seq!['0'][0]);
    }
    assert(seq!['3'] != seq!['1']) by {
        assert(seq!['3'][0] != seq!['1'][0]);
    }
    assert(seq!['3'] != seq!['2']) by {
        assert(seq!['3'][0] != seq!['2'][0]);
    }
    assert(seq!['4'] != seq!['0']) by {
        assert(seq!['4'][0] != seq!['0'][0]);
    }
    assert(seq!['4'] != seq!['1']) by {
        assert(seq!['4'][0] != seq!['1'][0]);
    }
    assert(seq!['4'] != seq!['2']) by {
        assert(seq!['4'][0] != seq!['2'][0]);
    }
    assert(seq!['4'] != seq!['3']) by {
        assert(seq!['4'][0] != seq!['3'][0]);
    }
    assert(seq!['5'] != seq!['0']) by {
        assert(seq!['5'][0] != seq!['0'][0]);
    }
    assert(seq!['5'] != seq!['1']) by {
        assert(seq!['5'][0] != seq!['1'][0]);
    }
    assert(seq!['5'] != seq!['2']) by {
        assert(seq!['5'][0] != seq!['2'][0]);
    }
    assert(seq!['5'] != seq!['3']) by {
        assert(seq!['5'][0] != seq!['3'][0]);
    }
    assert(seq!['5'] != seq!['4']) by {
        assert(seq!['5'][0] != seq!['4'][0]);
    }
    assert(seq!['6'] != seq!['0']) by {
        assert(seq!['6'][0] != seq!['0'][0]);
    }
    assert(seq!['6'] != seq!['1']) by {
        assert(seq!['6'][0] != seq!['1'][0]);
    }
    assert(seq!['6'] != seq!['2']) by {
        assert(seq!['6'][0] != seq!['2'][0]);
    }
    assert(seq!['6'] != seq!['3']) by {
        assert(seq!['6'][0] != seq!['3'][0]);
    }
    assert(seq!['6'] != seq!['4']) by {
        assert(seq!['6'][0] != seq!['4'][0]);
    }
    assert(seq!['6'] != seq!['5']) by {
        assert(seq!['6'][0] != seq!['5'][0]);
    }
    assert(seq!['7'] != seq!['0']) by {
        assert(seq!['7'][0] != seq!['0'][0]);
    }
    assert(seq!['7'] != seq!['1']) by {
        assert(seq!['7'][0] != seq!['1'][0]);
    }
    assert(seq!['7'] != seq!['2']) by {
        assert(seq!['7'][0] != seq!['2'][0]);
    }
    assert(seq!['7'] != seq!['3']) by {
        assert(seq!['7'][0] != seq!['3'][0]);
    }
    assert(seq!['7'] != seq!['4']) by {
        assert(seq!['7'][0] != seq!['4'][0]);
    }
    assert(seq!['7'] != seq!['5']) by {
        assert(seq!['7'][0] != seq!['5'][0]);
    }
    assert(seq!['7'] != seq!['6']) by {
        assert(seq!['7'][0] != seq!['6'][0]);
    }
}

/// The internal number of each resource type, as comment statistics send
/// it: songs `4`, MVs `5`, playlists `0`, albums `3`, radio programs `1`,
/// videos `62`, events `2`, radio stations `14`.
pub proof fn law_resource_type_ids()
    ensures
        resource_type_id(seq!['0']) == seq!['4'],
        resource_type_id(seq!['1']) == seq!['5'],
        resource_type_id(seq!['2']) == seq!['0'],
        resource_type_id(seq!['3']) == seq!['3'],
        resource_type_id(seq!['4']) == seq!['1'],
        resource_type_id(seq!['5']) == seq!['6', '2'],
        resource_type_id(seq!['6']) == seq!['2'],
        resource_type_id(seq!['7']) == seq!['1', '4'],
{
    reveal_with_fuel(trim_end_char, 2);
    reveal_with_fuel(last_segment, 4);
    reveal_strlit("0");
    reveal_strlit("R_SO_4_");
    assert("0"@ =~= seq!['0']);
    assert("R_SO_4_"@ =~= seq!['R', '_', 'S', 'O', '_', '4', '_']);
    reveal_strlit("1");
    reveal_strlit("R_MV_5_");
    assert("1"@ =~= seq!['1']);
    assert("R_MV_5_"@ =~= seq!['R', '_', 'M', 'V', '_', '5', '_']);
    reveal_strlit("2");
    reveal_strlit("A_PL_0_");
    assert("2"@ =~= seq!['2']);
    assert("A_PL_0_"@ =~= seq!['A', '_', 'P', 'L', '_', '0', '_']);
    reveal_strlit("3");
    reveal_strlit("R_AL_3_");
    assert("3"@ =~= seq!['3']);
    assert("R_AL_3_"@ =~= seq!['R', '_', 'A', 'L', '_', '3', '_']);
    reveal_strlit("4");
    reveal_strlit("A_DJ_1_");
    assert("4"@ =~= seq!['4']);
    assert("A_DJ_1_"@ =~= seq!['A', '_', 'D', 'J', '_', '1', '_']);
    reveal_strlit("5");
    reveal_strlit("R_VI_62_");
    assert("5"@ =~= seq!['5']);
    assert("R_VI_62_"@ =~= seq!['R', '_', 'V', 'I', '_', '6', '2', '_']);
    reveal_strlit("6");
    reveal_strlit("A_EV_2_");
    assert("6"@ =~= seq!['6']);
    assert("A_EV_2_"@ =~= seq!['A', '_', 'E', 'V', '_', '2', '_']);
    reveal_strlit("7");
    reveal_strlit("A_DR_14_");
    assert("7"@ =~= seq!['7']);
    assert("A_DR_14_"@ =~= seq!['A', '_', 'D', 'R', '_', '1', '4', '_']);
    assert(seq!['1'] != seq!['0']) by {
        assert(seq!['1'][0] != seq!['0'][0]);
    }
    assert(seq!['2'] != seq!['0']) by {
        assert(seq!['2'][0] != seq!['0'][0]);
    }
    assert(seq!['2'] != seq!['1']) by {
        assert(seq!['2'][0] != seq!['1'][0]);
    }
    assert(seq!['3'] != seq!['0']) by {
        assert(seq!['3'][0] != seq!['0'][0]);
    }
    assert(seq!['3'] != seq!['1']) by {
        assert(seq!['3'][0] != seq!['1'][0]);
    }
    assert(seq!['3'] != seq!['2']) by {
        assert(seq!['3'][0] != seq!['2'][0]);
    }
    assert(seq!['4'] != seq!['0']) by {
        assert(seq!['4'][0] != seq!['0'][0]);
    }
    assert(seq!['4'] != seq!['1']) by {
        assert(seq!['4'][0] != seq!['1'][0]);
    }
    assert(seq!['4'] != seq!['2']) by {
        assert(seq!['4'][0] != seq!['2'][0]);
    }
    assert(seq!['4'] != seq!['3']) by {
        assert(seq!['4'][0] != seq!['3'][0]);
    }
    assert(seq!['5'] != seq!['0']) by {
        assert(seq!['5'][0] != seq!['0'][0]);
    }
    assert(seq!['5'] != seq!['1']) by {
        assert(seq!['5'][0] != seq!['1'][0]);
    }
    assert(seq!['5'] != seq!['2']) by {
        assert(seq!['5'][0] != seq!['2'][0]);
    }
    assert(seq!['5'] != seq!['3']) by {
        assert(seq!['5'][0] != seq!['3'][0]);
    }
    assert(seq!['5'] != seq!['4']) by {
        assert(seq!['5'][0] != seq!['4'][0]);
    }
    assert(seq!['6'] != seq!['0']) by {
        assert(seq!['6'][0] != seq!['0'][0]);
    }
    assert(seq!['6'] != seq!['1']) by {
        assert(seq!['6'][0] != seq!['1'][0]);
    }
    assert(seq!['6'] != seq!['2']) by {
        assert(seq!['6'][0] != seq!['2'][0]);
    }
    assert(seq!['6'] != seq!['3']) by {
        assert(seq!['6'][0] != seq!['3'][0]);
    }
    assert(seq!['6'] != seq!['4']) by {
        assert(seq!['6'][0] != seq!['4'][0]);
    }
    assert(seq!['6'] != seq!['5']) by {
        assert(seq!['6'][0] != seq!['5'][0]);
    }
    assert(seq!['7'] != seq!['0']) by {
        assert(seq!['7'][0] != seq!['0'][0]);
    }
    assert(seq!['7'] != seq!['1']) by {
        assert(seq!['7'][0] != seq!['1'][0]);
    }
    assert(seq!['7'] != seq!['2']) by {
        assert(seq!['7'][0] != seq!['2'][0]);
    }
    assert(seq!['7'] != seq!['3']) by {
        assert(seq!['7'][0] != seq!['3'][0]);
    }
    assert(seq!['7'] != seq!['4']) by {
        assert(seq!['7'][0] != seq!['4'][0]);
    }
    assert(seq!['7'] != seq!['5']) by {
        assert(seq!['7'][0] != seq!['5'][0]);
    }
    assert(seq!['7'] != seq!['6']) by {
        assert(seq!['7'][0] != seq!['6'][0]);
    }
    assert(seq!['R', '_', 'S', 'O', '_', '4', '_'].drop_last() =~= seq!['R', '_', 'S', 'O', '_', '4']);
    assert(trim_end_char(seq!['R', '_', 'S', 'O', '_', '4', '_'], '_') == seq!['R', '_', 'S', 'O', '_', '4']);
    assert(seq!['R', '_', 'S', 'O', '_', '4'].drop_last() =~= seq!['R', '_', 'S', 'O', '_']);
    assert(seq!['R', '_', 'S', 'O', '_'].drop_last() =~= seq!['R', '_', 'S', 'O']);
    assert(last_segment(seq!['R', '_', 'S', 'O', '_', '4'], '_') =~= seq!['4']);
    assert(seq!['R', '_', 'M', 'V', '_', '5', '_'].drop_last() =~= seq!['R', '_', 'M', 'V', '_', '5']);
    assert(trim_end_char(seq!['R', '_', 'M', 'V', '_', '5', '_'], '_') == seq!['R', '_', 'M', 'V', '_', '5']);
    assert(seq!['R', '_', 'M', 'V', '_', '5'].drop_last() =~= seq!['R', '_', 'M', 'V', '_']);
    assert(seq!['R', '_', 'M', 'V', '_'].drop_last() =~= seq!['R', '_', 'M', 'V']);
    assert(last_segment(seq!['R', '_', 'M', 'V', '_', '5'], '_') =~= seq!['5']);
    assert(seq!['A', '_', 'P', 'L', '_', '0', '_'].drop_last() =~= seq!['A', '_', 'P', 'L', '_', '0']);
    assert(trim_end_char(seq!['A', '_', 'P', 'L', '_', '0', '_'], '_') == seq!['A', '_', 'P', 'L', '_', '0']);
    assert(seq!['A', '_', 'P', 'L', '_', '0'].drop_last() =~= seq!['A', '_', 'P', 'L', '_']);
    assert(seq!['A', '_', 'P', 'L', '_'].drop_last() =~= seq!['A', '_', 'P', 'L']);
    assert(last_segment(seq!['A', '_', 'P', 'L', '_', '0'], '_') =~= seq!['0']);
    assert(seq!['R', '_', 'A', 'L', '_', '3', '_'].drop_last() =~= seq!['R', '_', 'A', 'L', '_', '3']);
    assert(trim_end_char(seq!['R', '_', 'A', 'L', '_', '3', '_'], '_') == seq!['R', '_', 'A', 'L', '_', '3']);
    assert(seq!['R', '_', 'A', 'L', '_', '3'].drop_last() =~= seq!['R', '_', 'A', 'L', '_']);
    assert(seq!['R', '_', 'A', 'L', '_'].drop_last() =~= seq!['R', '_', 'A', 'L']);
    assert(last_segment(seq!['R', '_', 'A', 'L', '_', '3'], '_') =~= seq!['3']);
    assert(seq!['A', '_', 'D', 'J', '_', '1', '_'].drop_last() =~= seq!['A', '_', 'D', 'J', '_', '1']);
    assert(trim_end_char(seq!['A', '_', 'D', 'J', '_', '1', '_'], '_') == seq!['A', '_', 'D', 'J', '_', '1']);
    assert(seq!['A', '_', 'D', 'J', '_', '1'].drop_last() =~= seq!['A', '_', 'D', 'J', '_']);
    assert(seq!['A', '_', 'D', 'J', '_'].drop_last() =~= seq!['A', '_', 'D', 'J']);
    assert(last_segment(seq!['A', '_', 'D', 'J', '_', '1'], '_') =~= seq!['1']);
    assert(seq!['R', '_', 'V', 'I', '_', '6', '2', '_'].drop_last() =~= seq!['R', '_', 'V', 'I', '_', '6', '2']);
    assert(trim_end_char(seq!['R', '_', 'V', 'I', '_', '6', '2', '_'], '_') == seq!['R', '_', 'V', 'I', '_', '6', '2']);
    assert(seq!['R', '_', 'V', 'I', '_', '6', '2'].drop_last() =~= seq!['R', '_', 'V', 'I', '_', '6']);
    assert(seq!['R', '_', 'V', 'I', '_', '6'].drop_last() =~= seq!['R', '_', 'V', 'I', '_']);
    assert(seq!['R', '_', 'V', 'I', '_'].drop_last() =~= seq!['R', '_', 'V', 'I']);
    assert(last_segment(seq!['R', '_', 'V', 'I', '_', '6', '2'], '_') =~= seq!['6', '2']);
    assert(seq!['A', '_', 'E', 'V', '_', '2', '_'].drop_last() =~= seq!['A', '_', 'E', 'V', '_', '2']);
    assert(trim_end_char(seq!['A', '_', 'E', 'V', '_', '2', '_'], '_') == seq!['A', '_', 'E', 'V', '_', '2']);
    assert(seq!['A', '_', 'E', 'V', '_', '2'].drop_last() =~= seq!['A', '_', 'E', 'V', '_']);
    assert(seq!['A', '_', 'E', 'V', '_'].drop_last() =~= seq!['A', '_', 'E', 'V']);
    assert(last_segment(seq!['A', '_', 'E', 'V', '_', '2'], '_') =~= seq!['2']);
    assert(seq!['A', '_', 'D', 'R', '_', '1', '4', '_'].drop_last() =~= seq!['A', '_', 'D', 'R', '_', '1', '4']);
    assert(trim_end_char(seq!['A', '_', 'D', 'R', '_', '1', '4', '_'], '_') == seq!['A', '_', 'D', 'R', '_', '1', '4']);
    assert(seq!['A', '_', 'D', 'R', '_', '1', '4'].drop_last() =~= seq!['A', '_', 'D', 'R', '_', '1']);
    assert(seq!['A', '_', 'D', 'R', '_', '1'].drop_last() =~= seq!['A', '_', 'D', 'R', '_']);
    assert(seq!['A', '_', 'D', 'R', '_'].drop_last() =~= seq!['A', '_', 'D', 'R']);
    assert(last_segment(seq!['A', '_', 'D', 'R', '_', '1', '4'], '_') =~= seq!['1', '4']);
}

/// The number of commas in `s`.
pub open spec fn comma_count(s: Seq<char>) -> nat
    decreases s.len(),
{
    if s.len() == 0 {
        0
    } else {
        comma_count(s.drop_last()) + if s.last() == ',' {
            1nat
        } else {
            0nat
        }
    }
}

/// `pieces` written one after the other with a comma between neighbours.
pub open spec fn comma_joined(pieces: Seq<Seq<char>>) -> Seq<char>
    decreases pieces.len(),
{
    if pieces.len() <= 1 {
        if pieces.len() == 1 {
            pieces[0]
        } else {
            seq![]
        }
    } else {
        comma_joined(pieces.drop_last()) + seq![','] + pieces.last()
    }
}

/// Splitting a text at its commas keeps every piece: there is one piece
/// more than there are commas, no piece holds a comma, and the pieces
/// joined again with commas give the text back.
pub proof fn law_split_keeps_every_piece(s: Seq<char>)
    ensures
        split_commas(s).len() == comma_count(s) + 1,
        forall|k: int, m: int|
            0 <= k < split_commas(s).len() && 0 <= m < split_commas(s)[k].len() ==> #[trigger] split_commas(
                s,
            )[k][m] != ',',
        comma_joined(split_commas(s)) == s,
    decreases s.len(),
{
    if s.len() > 0 {
        let t = s.drop_last();
        let c = s.last();
        law_split_keeps_every_piece(t);
        let p = split_commas(t);
        if c == ',' {
            let q = p.push(seq![]);
            assert(q.drop_last() =~= p);
            assert(comma_joined(q) =~= s);
            assert forall|k: int, m: int|
                0 <= k < q.len() && 0 <= m < q[k].len() implies #[trigger] q[k][m] != ',' by {
                assert(k < p.len());
                assert(q[k] == p[k]);
            }
        } else {
            let last = p.last().push(c);
            let q = p.update(p.len() - 1, last);
            assert forall|k: int, m: int|
                0 <= k < q.len() && 0 <= m < q[k].len() implies #[trigger] q[k][m] != ',' by {
                if k < p.len() - 1 {
                    assert(q[k] == p[k]);
                } else if m < p.last().len() {
                    assert(q[k][m] == p[p.len() - 1][m]);
                }
            }
            if p.len() == 1 {
                assert(comma_joined(q) =~= s);
            } else {
                assert(q.drop_last() =~= p.drop_last());
                assert(q.last() == last);
                assert(comma_joined(p) == comma_joined(p.drop_last()) + seq![','] + p.last());
                assert(comma_joined(q) == comma_joined(p.drop_last()) + seq![','] + last);
                assert(t.push(c) =~= s);
                assert(comma_joined(q) =~= s);
            }
        }
    } else {
        assert(split_commas(s) =~= seq![Seq::<char>::empty()]);
    }
}

/// The items of a non-empty comma-separated list are all of its pieces: one
/// more than there are commas, item k being piece k without surrounding
/// spaces; the empty text has no items.
pub proof fn law_list_items_are_pieces(s: Seq<char>)
    ensures
        s.len() == 0 ==> list_items(s).len() == 0,
        s.len() > 0 ==> list_items(s).len() == comma_count(s) + 1,
        s.len() > 0 ==> forall|k: int|
            0 <= k < list_items(s).len() ==> #[trigger] list_items(s)[k] == trim_spaces(split_commas(s)[k]),
{
    law_split_keeps_every_piece(s);
}

/// The usual decimal writing of a natural number: most significant digit
/// first, no leading zero.
pub open spec fn decimal_text(n: nat) -> Seq<char>
    decreases n,
{
    if n < 10 {
        seq![(48 + n) as char]
    } else {
        decimal_text(n / 10) + seq![(48 + n % 10) as char]
    }
}

proof fn lemma_decimal_text_reads_back(n: nat)
    ensures
        all_digits(decimal_text(n)),
        digits_value(decimal_text(n)) == n,
        decimal_text(n).len() > 0,
        decimal_text(n)[0] != '-',
    decreases n,
{
    let d = decimal_text(n);
    if n < 10 {
        assert(d.drop_last() =~= Seq::<char>::empty());
        assert(is_digit(d[0]));
        assert(d.last() as int == 48 + n);
        assert(digits_value(d.drop_last()) == 0);
    } else {
        lemma_decimal_text_reads_back(n / 10);
        let h = decimal_text(n / 10);
        assert(d.drop_last() =~= h);
        assert(d.last() == (48 + n % 10) as char);
        assert forall|k: int| 0 <= k < d.len() implies is_digit(#[trigger] d[k]) by {
            if k < h.len() {
                assert(d[k] == h[k]);
            }
        }
        assert(d[0] == h[0]);
        assert((n / 10) * 10 + n % 10 == n);
        assert(d.last() as int == 48 + n % 10);
        assert(digits_value(d) == digits_value(h) * 10 + (d.last() as int - 48));
    }
}

/// Every integer in the range of `i64`, written in the usual decimal way
/// (a `-` before the digits of a negative one), reads back as itself.
pub proof fn law_decimal_reads_back(n: int)
    requires
        -0x8000_0000_0000_0000 <= n <= 0x7fff_ffff_ffff_ffff,
    ensures
        n >= 0 ==> decimal_i64(decimal_text(n as nat)) == Some(n),
        n < 0 ==> decimal_i64(seq!['-'] + decimal_text((-n) as nat)) == Some(n),
{
    if n >= 0 {
        lemma_decimal_text_reads_back(n as nat);
    } else {
        let m = (-n) as nat;
        lemma_decimal_text_reads_back(m);
        let t = seq!['-'] + decimal_text(m);
        assert(t.drop_first() =~= decimal_text(m));
    }
}

/// A parameter that reads as a decimal integer in the range of `i64` is
/// sent as that very number; a parameter written as the decimal text of
/// such a number `n` is sent as `n`.
pub proof fn law_numbers_sent_as_is(
    params: Map<Seq<char>, Seq<char>>,
    key: Seq<char>,
    default: Seq<char>,
    n: int,
)
    requires
        -0x8000_0000_0000_0000 <= n <= 0x7fff_ffff_ffff_ffff,
    ensures
        forall|t: Seq<char>|
            lookup(params, key) == Some(t) && decimal_i64(t) == Some(n) ==> num_param(params, key, default)
                == crate::json::JsonView::Int(n),
        n >= 0 && lookup(params, key) == Some(decimal_text(n as nat)) ==> num_param(params, key, default)
            == crate::json::JsonView::Int(n),
        n < 0 && lookup(params, key) == Some(seq!['-'] + decimal_text((-n) as nat)) ==> num_param(
            params,
            key,
            default,
        ) == crate::json::JsonView::Int(n),
{
    law_decimal_reads_back(n);
}

} // verus!
