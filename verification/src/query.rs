//! Query parameters of a call and the request options derived from them.
use vstd::prelude::*;

verus! {

/// The map that a list of key/value entries stands for: a later entry for a
/// key overrides an earlier one.
pub open spec fn entries_map(s: Seq<(String, String)>) -> Map<Seq<char>, Seq<char>>
    decreases s.len(),
{
    if s.len() == 0 {
        Map::empty()
    } else {
        entries_map(s.drop_last()).insert(s.last().0@, s.last().1@)
    }
}

proof fn lemma_entries_map_finite(s: Seq<(String, String)>)
    ensures
        entries_map(s).dom().finite(),
    decreases s.len(),
{
    if s.len() > 0 {
        lemma_entries_map_finite(s.drop_last());
    }
}

/// True when no entry from index `i` on has the key `k`.
pub open spec fn key_absent_from(s: Seq<(String, String)>, k: Seq<char>, i: int) -> bool {
    forall|m: int| i <= m < s.len() ==> (#[trigger] s[m]).0@ != k
}

/// Entries after the last one with key `k` do not change what `k` maps to.
proof fn lemma_entries_map_prefix(s: Seq<(String, String)>, k: Seq<char>, i: int)
    requires
        0 <= i <= s.len(),
        key_absent_from(s, k, i),
    ensures
        entries_map(s).contains_key(k) == entries_map(s.take(i)).contains_key(k),
        entries_map(s).contains_key(k) ==> entries_map(s)[k] == entries_map(s.take(i))[k],
    decreases s.len() - i,
{
    if i < s.len() {
        let t = s.drop_last();
        assert(t.take(i) =~= s.take(i));
        assert(key_absent_from(t, k, i)) by {
            assert forall|m: int| i <= m < t.len() implies (#[trigger] t[m]).0@ != k by {
                assert(t[m] == s[m]);
            }
        }
        lemma_entries_map_prefix(t, k, i);
        assert(s.last() == s[s.len() - 1]);
    } else {
        assert(s.take(i) =~= s);
    }
}

/// Overwriting the last entry with key `k` acts as inserting `k` into the map.
proof fn lemma_entries_map_update(s: Seq<(String, String)>, i: int, e: (String, String))
    requires
        0 <= i < s.len(),
        s[i].0@ == e.0@,
        key_absent_from(s, e.0@, i + 1),
    ensures
        entries_map(s.update(i, e)) == entries_map(s).insert(e.0@, e.1@),
    decreases s.len(),
{
    let u = s.update(i, e);
    if i == s.len() - 1 {
        assert(u.drop_last() =~= s.drop_last());
        assert(entries_map(u) =~= entries_map(s).insert(e.0@, e.1@));
    } else {
        let t = s.drop_last();
        assert(u.drop_last() =~= t.update(i, e));
        assert(key_absent_from(t, e.0@, i + 1)) by {
            assert forall|m: int| i + 1 <= m < t.len() implies (#[trigger] t[m]).0@ != e.0@ by {
                assert(t[m] == s[m]);
            }
        }
        lemma_entries_map_update(t, i, e);
        assert(s.last() == s[s.len() - 1]);
        assert(u.last() == s.last());
        assert(entries_map(u) =~= entries_map(s).insert(e.0@, e.1@));
    }
}

/// The index of the last entry with key `key`, if any.
fn find_key(entries: &Vec<(String, String)>, key: &str) -> (r: Option<usize>)
    ensures
        match r {
            Some(i) => i < entries@.len() && entries@[i as int].0@ == key@ && key_absent_from(
                entries@,
                key@,
                i + 1,
            ),
            None => key_absent_from(entries@, key@, 0),
        },
{
    let wanted: String = key.to_owned();
    let mut i: usize = entries.len();
    while i > 0
        invariant
            i <= entries@.len(),
            wanted@ == key@,
            key_absent_from(entries@, key@, i as int),
        decreases i,
    {
        if entries[i - 1].0 == wanted {
            return Some(i - 1);
        }
        i = i - 1;
    }
    None
}

/// The parameters of a query: a map from parameter names to values.
#[derive(Debug)]
pub struct Params {
    entries: Vec<(String, String)>,
}

impl View for Params {
    type V = Map<Seq<char>, Seq<char>>;

    closed spec fn view(&self) -> Map<Seq<char>, Seq<char>> {
        entries_map(self.entries@)
    }
}

impl Params {
    /// No two entries share a key, as in a hash map.
    #[verifier::type_invariant]
    closed spec fn keys_unique(self) -> bool {
        forall|i: int, j: int|
            0 <= i < j < self.entries@.len() ==> (#[trigger] self.entries@[i]).0@ != (
            #[trigger] self.entries@[j]).0@
    }

    /// Every parameter map holds finitely many parameters.
    pub proof fn lemma_finite(&self)
        ensures
            self@.dom().finite(),
    {
        lemma_entries_map_finite(self.entries@);
    }

    /// An empty parameter map.
    pub fn new() -> (r: Params)
        ensures
            r@ == Map::<Seq<char>, Seq<char>>::empty(),
            r@.dom().finite(),
    {
        Params { entries: Vec::new() }
    }

    /// Sets `key` to `value`, replacing an earlier value of `key`.
    pub fn insert(&mut self, key: String, value: String)
        ensures
            final(self)@ == old(self)@.insert(key@, value@),
            final(self)@.dom().finite(),
    {
        proof {
            use_type_invariant(&*self);
        }
        let mut entries: Vec<(String, String)> = Vec::new();
        std::mem::swap(&mut entries, &mut self.entries);
        let ghost before = entries@;
        match find_key(&entries, key.as_str()) {
            Some(i) => {
                proof {
                    lemma_entries_map_update(before, i as int, (key, value));
                }
                entries.set(i, (key, value));
            },
            None => {
                entries.push((key, value));
                proof {
                    assert(entries@.drop_last() =~= before);
                }
            },
        }
        assert(forall|i: int, j: int|
            0 <= i < j < entries@.len() ==> (#[trigger] entries@[i]).0@ != (
            #[trigger] entries@[j]).0@) by {
            assert forall|i: int, j: int| 0 <= i < j < entries@.len() implies (
            #[trigger] entries@[i]).0@ != (#[trigger] entries@[j]).0@ by {
                if j < before.len() {
                    assert(before[i].0@ == entries@[i].0@ && before[j].0@ == entries@[j].0@);
                }
            }
        }
        self.entries = entries;
        proof {
            lemma_entries_map_finite(self.entries@);
        }
    }

    /// The value of `key`, if it is set.
    pub fn get(&self, key: &str) -> (r: Option<&String>)
        ensures
            match r {
                Some(v) => self@.contains_key(key@) && v@ == self@[key@],
                None => !self@.contains_key(key@),
            },
    {
        match find_key(&self.entries, key) {
            Some(i) => {
                proof {
                    lemma_entries_map_prefix(self.entries@, key@, i + 1);
                    let t = self.entries@.take(i + 1);
                    assert(t.drop_last() =~= self.entries@.take(i as int));
                    assert(t.last() == self.entries@[i as int]);
                }
                Some(&self.entries[i].1)
            },
            None => {
                proof {
                    lemma_entries_map_prefix(self.entries@, key@, 0);
                    assert(self.entries@.take(0) =~= Seq::<(String, String)>::empty());
                }
                None
            },
        }
    }
}

impl Clone for Params {
    /// A copy with the same parameters.
    fn clone(&self) -> (r: Params)
        ensures
            r@ == self@,
    {
        proof {
            use_type_invariant(self);
        }
        let mut entries: Vec<(String, String)> = Vec::new();
        let mut i: usize = 0;
        while i < self.entries.len()
            invariant
                i <= self.entries@.len(),
                entries@ == self.entries@.take(i as int),
            decreases self.entries@.len() - i,
        {
            let k = self.entries[i].0.clone();
            let v = self.entries[i].1.clone();
            entries.push((k, v));
            proof {
                assert(entries@ =~= self.entries@.take(i + 1));
            }
            i = i + 1;
        }
        assert(entries@ =~= self.entries@);
        Params { entries }
    }
}

/// How a request body is encrypted before it is sent.
#[derive(Debug, Clone, Copy, PartialEq, Eq, Structural)]
pub enum CryptoType {
    Weapi,
    Eapi,
    Linuxapi,
    Api,
}

impl Default for CryptoType {
    /// The encryption used where an endpoint names none.
    fn default() -> (r: CryptoType)
        ensures
            r == CryptoType::Eapi,
    {
        CryptoType::Eapi
    }
}

/// Everything the transport needs to know about one request besides its
/// path and body.
#[derive(Debug, Clone)]
pub struct RequestOption {
    pub crypto: CryptoType,
    pub cookie: Option<String>,
    pub ua: Option<String>,
    pub proxy: Option<String>,
    pub real_ip: Option<String>,
    pub random_cn_ip: bool,
    pub e_r: Option<bool>,
    pub domain: Option<String>,
    pub check_token: bool,
}

/// The common query parameter carrier of every endpoint.
#[derive(Debug, Clone)]
pub struct Query {
    pub params: Params,
    pub cookie: Option<String>,
    pub proxy: Option<String>,
    pub real_ip: Option<String>,
    pub random_cn_ip: bool,
    pub ua: Option<String>,
    pub e_r: Option<bool>,
    pub domain: Option<String>,
}

/// A copy of an optional string.
pub fn clone_opt_string(o: &Option<String>) -> (r: Option<String>)
    ensures
        r == *o,
{
    match o {
        Some(s) => Some(s.clone()),
        None => None,
    }
}

/// True when `q` has no parameters and every option unset.
pub open spec fn is_blank_query(q: Query) -> bool {
    &&& q.params@ == Map::<Seq<char>, Seq<char>>::empty()
    &&& q.cookie is None
    &&& q.proxy is None
    &&& q.real_ip is None
    &&& !q.random_cn_ip
    &&& q.ua is None
    &&& q.e_r is None
    &&& q.domain is None
}

/// True when `r` has the same options as `q` (its parameters aside).
pub open spec fn same_options(r: Query, q: Query) -> bool {
    &&& r.cookie == q.cookie
    &&& r.proxy == q.proxy
    &&& r.real_ip == q.real_ip
    &&& r.random_cn_ip == q.random_cn_ip
    &&& r.ua == q.ua
    &&& r.e_r == q.e_r
    &&& r.domain == q.domain
}

/// What a query's value for `key` is, `None` when unset.
pub open spec fn lookup(params: Map<Seq<char>, Seq<char>>, key: Seq<char>) -> Option<Seq<char>> {
    if params.contains_key(key) {
        Some(params[key])
    } else {
        None
    }
}

/// The request options that a query `q` gives with encryption `crypto`.
pub open spec fn option_of(q: Query, crypto: CryptoType) -> RequestOption {
    RequestOption {
        crypto: crypto,
        cookie: q.cookie,
        ua: q.ua,
        proxy: q.proxy,
        real_ip: q.real_ip,
        random_cn_ip: q.random_cn_ip,
        e_r: q.e_r,
        domain: q.domain,
        check_token: false,
    }
}

/// The request options of a blank query with encryption `crypto`.
pub open spec fn plain_option(crypto: CryptoType) -> RequestOption {
    RequestOption {
        crypto: crypto,
        cookie: None,
        ua: None,
        proxy: None,
        real_ip: None,
        random_cn_ip: false,
        e_r: None,
        domain: None,
        check_token: false,
    }
}

impl Default for Query {
    /// A query with no parameters and no options set.
    fn default() -> (r: Query)
        ensures
            is_blank_query(r),
    {
        Query {
            params: Params::new(),
            cookie: None,
            proxy: None,
            real_ip: None,
            random_cn_ip: false,
            ua: None,
            e_r: None,
            domain: None,
        }
    }
}

impl Query {
    /// A query with no parameters and no options set.
    pub fn new() -> (r: Query)
        ensures
            is_blank_query(r),
    {
        Self::default()
    }

    /// This query with parameter `key` set to `value`.
    pub fn param(self, key: &str, value: &str) -> (r: Query)
        ensures
            r.params@ == self.params@.insert(key@, value@),
            r.params@.dom().finite(),
            same_options(r, self),
    {
        let mut q = self;
        q.params.insert(key.to_owned(), value.to_owned());
        q
    }

    /// This query with its cookie set to `cookie`.
    pub fn cookie(self, cookie: &str) -> (r: Query)
        ensures
            r.params@ == self.params@,
            r.cookie matches Some(c) && c@ == cookie@,
            r.proxy == self.proxy,
            r.real_ip == self.real_ip,
            r.random_cn_ip == self.random_cn_ip,
            r.ua == self.ua,
            r.e_r == self.e_r,
            r.domain == self.domain,
    {
        let mut q = self;
        q.cookie = Some(cookie.to_owned());
        q
    }

    /// The value of parameter `key`, if it is set.
    pub fn get(&self, key: &str) -> (r: Option<&str>)
        ensures
            match r {
                Some(v) => lookup(self.params@, key@) == Some(v@),
                None => lookup(self.params@, key@) is None,
            },
    {
        match self.params.get(key) {
            Some(v) => Some(v.as_str()),
            None => None,
        }
    }

    /// The value of parameter `key`, or `default` when it is unset.
    pub fn get_or(&self, key: &str, default: &str) -> (r: String)
        ensures
            r@ == (match lookup(self.params@, key@) {
                Some(v) => v,
                None => default@,
            }),
    {
        match self.params.get(key) {
            Some(v) => v.clone(),
            None => default.to_owned(),
        }
    }

    /// The request options of this query with encryption `crypto`; the
    /// token check is off.
    pub fn to_option(&self, crypto: CryptoType) -> (r: RequestOption)
        ensures
            r == option_of(*self, crypto),
    {
        RequestOption {
            crypto,
            cookie: clone_opt_string(&self.cookie),
            ua: clone_opt_string(&self.ua),
            proxy: clone_opt_string(&self.proxy),
            real_ip: clone_opt_string(&self.real_ip),
            random_cn_ip: self.random_cn_ip,
            e_r: self.e_r,
            domain: clone_opt_string(&self.domain),
            check_token: false,
        }
    }
}

} // verus!
