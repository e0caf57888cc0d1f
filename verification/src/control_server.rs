//! The local control server: its running flag, and how a request is read: which caller is
//! allowed, which route it asks for, and which parameters it carries.
use vstd::prelude::*;
use crate::seqs::{as_index, first_index, lemma_first_index_absent, lemma_first_index_found};
use crate::text::{chars_of, owned, starts_with, string_from_chars, text_eq, has_prefix};
use crate::urlcodec::{url_decode, url_decoded};

verus! {

/// Whether the control server is serving.
pub struct ControlServer {
    running: bool,
}

impl ControlServer {
    /// A server that is not serving yet.
    pub fn new() -> (r: ControlServer)
        ensures
            !r.is_running_spec(),
    {
        ControlServer { running: false }
    }

    /// Whether the server is serving.
    pub closed spec fn is_running_spec(&self) -> bool {
        self.running
    }

    /// Whether the server is serving.
    pub fn is_running(&self) -> (r: bool)
        ensures
            r == self.is_running_spec(),
    {
        self.running
    }

    /// Marks the server stopped.
    pub fn stop(&mut self)
        ensures
            !final(self).is_running_spec(),
    {
        self.running = false;
    }

    /// The first step of starting the server: a server that already serves answers that it
    /// serves without binding again; otherwise the socket is to be bound.
    pub fn begin_start(&self) -> (a: StartStep)
        ensures
            a == (if self.is_running_spec() {
                StartStep::AlreadyServing
            } else {
                StartStep::Bind
            }),
    {
        if self.running {
            StartStep::AlreadyServing
        } else {
            StartStep::Bind
        }
    }

    /// Records the outcome of binding the listening socket, which is only tried when the
    /// server is not already serving; returns whether the server now serves.
    pub fn record_bind(&mut self, bound: bool) -> (r: bool)
        requires
            !old(self).is_running_spec(),
        ensures
            r == bound,
            final(self).is_running_spec() == bound,
    {
        self.running = bound;
        bound
    }
}

/// What starting the server asks for first.
#[derive(Debug, Clone, Copy, PartialEq, Eq)]
pub enum StartStep {
    /// The server already serves: starting it succeeds and binds nothing.
    AlreadyServing,
    /// Bind the listening socket, then record the outcome with `record_bind`.
    Bind,
}

/// What the server does with a request before any route is looked at.
#[derive(Debug, Clone, PartialEq, Eq)]
pub enum RequestPlan {
    /// Answer with this status and JSON body, and touch nothing else.
    Forbidden { status: u16, body: String },
    /// Handle the route at `path` with the query parameters.
    Dispatch { path: String, query: Vec<(String, String)> },
}

/// The status of the reply to a caller from another machine.
pub const FORBIDDEN_STATUS: u16 = 403;

/// How a request from `remote` for `url` is handled: a caller that is not on this machine
/// gets `403` with `{"error":"Forbidden"}`; any other request goes to the route named by
/// the url's path, with the url's query parameters.
pub fn plan_request(remote: &str, url: &str) -> (a: RequestPlan)
    ensures
        match a {
            RequestPlan::Forbidden { status, body } => {
                &&& !(has_prefix(remote@, "127.0.0.1"@) || has_prefix(remote@, "[::1]"@))
                &&& status == FORBIDDEN_STATUS
                &&& body@ == "{\"error\":\"Forbidden\"}"@
            },
            RequestPlan::Dispatch { path, query } => {
                &&& (has_prefix(remote@, "127.0.0.1"@) || has_prefix(remote@, "[::1]"@))
                &&& path@ == before_char(url@, '?')
                &&& represents(pair_views(query@), query_params(url@))
            },
        },
{
    if !is_local_address(remote) {
        return RequestPlan::Forbidden {
            status: FORBIDDEN_STATUS,
            body: owned("{\"error\":\"Forbidden\"}"),
        };
    }
    RequestPlan::Dispatch { path: request_path(url), query: parse_query_string(url) }
}

/// Whether a caller's address is this machine's loopback address.
pub fn is_local_address(remote: &str) -> (r: bool)
    ensures
        r == (has_prefix(remote@, "127.0.0.1"@) || has_prefix(remote@, "[::1]"@)),
{
    starts_with(remote, "127.0.0.1") || starts_with(remote, "[::1]")
}

/// The text of `s` up to the first `c`, or all of it.
pub open spec fn before_char(s: Seq<char>, c: char) -> Seq<char> {
    match first_index(s, c) {
        Some(i) => s.subrange(0, i),
        None => s,
    }
}

/// The text of `s` after the first `c`, if `s` has one.
pub open spec fn after_char(s: Seq<char>, c: char) -> Option<Seq<char>> {
    match first_index(s, c) {
        Some(i) => Some(s.subrange(i + 1, s.len() as int)),
        None => None,
    }
}

/// The position of the first `c` in `v`.
fn find_char(v: &Vec<char>, c: char) -> (r: Option<usize>)
    ensures
        as_index(r) == first_index(v@, c),
        r matches Some(i) ==> i < v.len(),
{
    let mut i: usize = 0;
    while i < v.len()
        invariant
            i <= v.len(),
            forall|j: int| 0 <= j < i ==> v@[j] != c,
        decreases v.len() - i,
    {
        if v[i] == c {
            proof {
                lemma_first_index_found(v@, c, i as int);
            }
            return Some(i);
        }
        i = i + 1;
    }
    proof {
        lemma_first_index_absent(v@, c);
    }
    None
}

/// The characters `v[from..to]`.
fn slice_chars(v: &Vec<char>, from: usize, to: usize) -> (r: Vec<char>)
    requires
        from <= to <= v.len(),
    ensures
        r@ == v@.subrange(from as int, to as int),
{
    let mut r: Vec<char> = Vec::new();
    let mut i: usize = from;
    while i < to
        invariant
            from <= i <= to <= v.len(),
            r@ == v@.subrange(from as int, i as int),
        decreases to - i,
    {
        r.push(v[i]);
        i = i + 1;
        assert(r@ =~= v@.subrange(from as int, i as int));
    }
    r
}

/// The path of a request: its url up to the query.
pub fn request_path(full_url: &str) -> (r: String)
    ensures
        r@ == before_char(full_url@, '?'),
{
    let v = chars_of(full_url);
    match find_char(&v, '?') {
        Some(i) => {
            let p = slice_chars(&v, 0, i);
            string_from_chars(&p)
        },
        None => {
            assert(v@.subrange(0, v@.len() as int) =~= v@);
            owned(full_url)
        },
    }
}

/// `s` cut at every `c`: the pieces between the cuts, in order (one piece when `c` does not
/// occur, empty pieces where cuts are adjacent).
pub open spec fn split_on(s: Seq<char>, c: char) -> Seq<Seq<char>>
    decreases s.len(),
{
    if s.len() == 0 {
        seq![Seq::empty()]
    } else {
        let r = split_on(s.drop_last(), c);
        if s.last() == c {
            r.push(Seq::empty())
        } else {
            r.update(r.len() - 1, r.last().push(s.last()))
        }
    }
}

proof fn lemma_split_on_nonempty(s: Seq<char>, c: char)
    ensures
        split_on(s, c).len() >= 1,
    decreases s.len(),
{
    if s.len() > 0 {
        lemma_split_on_nonempty(s.drop_last(), c);
    }
}

/// The query of a url: what follows the first `?`, up to a second `?` if there is one.
pub open spec fn query_of(url: Seq<char>) -> Option<Seq<char>> {
    match after_char(url, '?') {
        Some(rest) => Some(before_char(rest, '?')),
        None => None,
    }
}

/// A decoded text, or the empty text when decoding fails.
pub open spec fn decoded_or_empty(t: Seq<char>) -> Seq<char> {
    match url_decoded(t) {
        Some(d) => d,
        None => Seq::empty(),
    }
}

/// The parameters a list of `key=value` pieces sets, later pieces overriding earlier ones;
/// a piece without `=` sets nothing. Keys and values are percent-decoded.
pub open spec fn params_of(pieces: Seq<Seq<char>>) -> Map<Seq<char>, Seq<char>>
    decreases pieces.len(),
{
    if pieces.len() == 0 {
        Map::empty()
    } else {
        let m = params_of(pieces.drop_last());
        let p = pieces.last();
        match after_char(p, '=') {
            Some(v) => m.insert(decoded_or_empty(before_char(p, '=')), decoded_or_empty(v)),
            None => m,
        }
    }
}

/// The parameters of a url's query.
pub open spec fn query_params(url: Seq<char>) -> Map<Seq<char>, Seq<char>> {
    match query_of(url) {
        Some(q) => params_of(split_on(q, '&')),
        None => Map::empty(),
    }
}

/// The views of a list of parameters.
pub open spec fn pair_views(r: Seq<(String, String)>) -> Seq<(Seq<char>, Seq<char>)> {
    r.map_values(|p: (String, String)| (p.0@, p.1@))
}

/// A list of (key, value) pairs stands for the map `m`: its keys are distinct, and it holds
/// exactly the entries of `m`.
pub open spec fn represents(r: Seq<(Seq<char>, Seq<char>)>, m: Map<Seq<char>, Seq<char>>) -> bool {
    &&& forall|i: int, j: int| 0 <= i < j < r.len() ==> r[i].0 != r[j].0
    &&& forall|i: int| 0 <= i < r.len() ==> m.contains_key(#[trigger] r[i].0) && m[r[i].0] == r[i].1
    &&& forall|k: Seq<char>| #[trigger] m.contains_key(k) ==> exists|i: int| 0 <= i < r.len() && r[i].0 == k
}

/// Sets `key` to `value` in the list, replacing the value of an equal key.
fn insert_param(r: &mut Vec<(String, String)>, key: String, value: String, Ghost(m): Ghost<
    Map<Seq<char>, Seq<char>>,
>)
    requires
        represents(pair_views(old(r)@), m),
    ensures
        represents(pair_views(final(r)@), m.insert(key@, value@)),
{
    let ghost before = pair_views(r@);
    let mut i: usize = 0;
    while i < r.len()
        invariant
            i <= r.len(),
            before == pair_views(r@),
            represents(before, m),
            forall|j: int| 0 <= j < i ==> before[j].0 != key@,
        decreases r.len() - i,
    {
        if text_eq(&r[i].0, &key) {
            let k = r[i].0.clone();
            r.set(i, (k, value));
            proof {
                let after = pair_views(r@);
                assert(after =~= before.update(i as int, (key@, value@)));
                let m2 = m.insert(key@, value@);
                assert forall|x: int, y: int| 0 <= x < y < after.len() implies after[x].0
                    != after[y].0 by {
                    assert(before[x].0 != before[y].0);
                }
                assert forall|x: int| 0 <= x < after.len() implies m2.contains_key(
                    #[trigger] after[x].0,
                ) && m2[after[x].0] == after[x].1 by {
                    if x != i {
                        assert(after[x] == before[x]);
                        if x < i {
                            assert(before[x].0 != before[i as int].0);
                        } else {
                            assert(before[i as int].0 != before[x].0);
                        }
                    }
                }
                assert forall|k2: Seq<char>| #[trigger] m2.contains_key(k2) implies exists|x: int|
                    0 <= x < after.len() && after[x].0 == k2 by {
                    if k2 == key@ {
                        assert(after[i as int].0 == k2);
                    } else {
                        assert(m.contains_key(k2));
                        let x = choose|x: int| 0 <= x < before.len() && before[x].0 == k2;
                        assert(after[x].0 == k2);
                    }
                }
            }
            return ;
        }
        i = i + 1;
    }
    r.push((key, value));
    proof {
        let after = pair_views(r@);
        let m2 = m.insert(key@, value@);
        assert(after =~= before.push((key@, value@)));
        assert forall|k2: Seq<char>| #[trigger] m2.contains_key(k2) implies exists|x: int|
            0 <= x < after.len() && after[x].0 == k2 by {
            if k2 == key@ {
                assert(after[before.len() as int].0 == k2);
            } else {
                assert(m.contains_key(k2));
                let x = choose|x: int| 0 <= x < before.len() && before[x].0 == k2;
                assert(after[x].0 == k2);
            }
        }
    }
}

/// Decodes percent-escapes, giving the empty text when the result is not UTF-8.
fn decode_or_empty(v: &Vec<char>) -> (r: String)
    ensures
        r@ == decoded_or_empty(v@),
{
    let s = string_from_chars(v);
    match url_decode(s.as_str()) {
        Some(d) => d,
        None => String::new(),
    }
}

/// Adds the parameter that the piece `p` sets, if it has an `=`.
fn add_piece(r: &mut Vec<(String, String)>, p: &Vec<char>, Ghost(pieces): Ghost<Seq<Seq<char>>>)
    requires
        represents(pair_views(old(r)@), params_of(pieces)),
    ensures
        represents(pair_views(final(r)@), params_of(pieces.push(p@))),
{
    assert(pieces.push(p@).drop_last() =~= pieces);
    match find_char(p, '=') {
        Some(e) => {
            let k = slice_chars(p, 0, e);
            let v = slice_chars(p, e + 1, p.len());
            let key = decode_or_empty(&k);
            let value = decode_or_empty(&v);
            insert_param(r, key, value, Ghost(params_of(pieces)));
        },
        None => {},
    }
}

/// The parameters of the request url's query (between the first `?` and a second one),
/// `key=value` pieces separated by `&`, percent-decoded; a later key overrides an earlier
/// one, a piece without `=` is ignored, and what does not decode becomes the empty text.
/// Each key appears once.
pub fn parse_query_string(url: &str) -> (r: Vec<(String, String)>)
    ensures
        represents(pair_views(r@), query_params(url@)),
{
    let v = chars_of(url);
    let mut r: Vec<(String, String)> = Vec::new();
    let start = match find_char(&v, '?') {
        Some(i) => i + 1,
        None => {
            return r;
        },
    };
    let rest = slice_chars(&v, start, v.len());
    let end = match find_char(&rest, '?') {
        Some(j) => j,
        None => rest.len(),
    };
    let q = slice_chars(&rest, 0, end);
    proof {
        assert(query_of(url@) == Some(q@)) by {
            assert(after_char(url@, '?') == Some(rest@));
            if first_index(rest@, '?') is None {
                assert(rest@.subrange(0, rest@.len() as int) =~= rest@);
            }
        }
    }
    let mut done: Ghost<Seq<Seq<char>>> = Ghost(Seq::empty());
    let mut current: Vec<char> = Vec::new();
    let mut i: usize = 0;
    proof {
        assert(q@.take(0) =~= Seq::<char>::empty());
        assert(split_on(Seq::<char>::empty(), '&') =~= seq![Seq::<char>::empty()]);
        assert(pair_views(r@) =~= Seq::empty());
    }
    while i < q.len()
        invariant
            i <= q.len(),
            split_on(q@.take(i as int), '&') == done@.push(current@),
            represents(pair_views(r@), params_of(done@)),
        decreases q.len() - i,
    {
        let c = q[i];
        let ghost prefix = q@.take(i as int);
        proof {
            assert(q@.take(i + 1) =~= prefix.push(c));
            assert(q@.take(i + 1).drop_last() =~= prefix);
        }
        if c == '&' {
            add_piece(&mut r, &current, Ghost(done@));
            proof {
                done@ = done@.push(current@);
            }
            current = Vec::new();
            proof {
                assert(split_on(q@.take(i + 1), '&') =~= done@.push(current@));
            }
        } else {
            current.push(c);
            proof {
                assert(split_on(q@.take(i + 1), '&') =~= done@.push(current@));
            }
        }
        i = i + 1;
    }
    add_piece(&mut r, &current, Ghost(done@));
    proof {
        assert(q@.take(q.len() as int) =~= q@);
    }
    r
}

/// The value the list gives for `key`: that of the first pair with the key.
pub open spec fn param_value(r: Seq<(Seq<char>, Seq<char>)>, key: Seq<char>) -> Option<Seq<char>> {
    match first_index(r.map_values(|p: (Seq<char>, Seq<char>)| p.0), key) {
        Some(i) => Some(r[i].1),
        None => None,
    }
}

/// A parameter's value.
pub fn lookup_param(params: &Vec<(String, String)>, key: &str) -> (r: Option<String>)
    ensures
        match param_value(pair_views(params@), key@) {
            Some(v) => r matches Some(x) && x@ == v,
            None => r is None,
        },
{
    let ghost keys = pair_views(params@).map_values(|p: (Seq<char>, Seq<char>)| p.0);
    let mut i: usize = 0;
    while i < params.len()
        invariant
            i <= params.len(),
            keys == pair_views(params@).map_values(|p: (Seq<char>, Seq<char>)| p.0),
            forall|j: int| 0 <= j < i ==> keys[j] != key@,
        decreases params.len() - i,
    {
        if text_eq(&params[i].0, key) {
            proof {
                assert(keys[i as int] == key@);
                lemma_first_index_found(keys, key@, i as int);
            }
            return Some(params[i].1.clone());
        }
        proof {
            assert(keys[i as int] == params@[i as int].0@);
        }
        i = i + 1;
    }
    proof {
        lemma_first_index_absent(keys, key@);
    }
    None
}

/// What a request body holds under a key, as far as the parameter readers look at it.
#[derive(Debug, Clone, PartialEq, Eq)]
pub enum BodyField {
    /// The body has no such key.
    Missing,
    /// A JSON string.
    Text(String),
    /// A JSON number that is a non-negative integer.
    Unsigned(u64),
    /// A JSON boolean.
    Flag(bool),
    /// Any other JSON value.
    Other,
}

/// A text parameter: the body's string under the key, else the query's.
pub fn get_param(body: &BodyField, params: &Vec<(String, String)>, key: &str) -> (r: Option<
    String,
>)
    ensures
        match body {
            BodyField::Text(s) => r matches Some(x) && x@ == s@,
            _ => match param_value(pair_views(params@), key@) {
                Some(v) => r matches Some(x) && x@ == v,
                None => r is None,
            },
        },
{
    match body {
        BodyField::Text(s) => Some(s.clone()),
        _ => lookup_param(params, key),
    }
}

/// The value of a decimal digit character.
pub open spec fn digit_value(c: char) -> int {
    (c as u32) - 48
}

pub open spec fn is_digit(c: char) -> bool {
    48 <= (c as u32) <= 57
}

/// The number a string of decimal digits spells.
pub open spec fn digits_value(d: Seq<char>) -> int
    decreases d.len(),
{
    if d.len() == 0 {
        0
    } else {
        digits_value(d.drop_last()) * 10 + digit_value(d.last())
    }
}

/// The digits part of a number: the text after an optional leading `+`.
pub open spec fn unsigned_digits(s: Seq<char>) -> Seq<char> {
    if s.len() > 0 && s[0] == '+' {
        s.subrange(1, s.len() as int)
    } else {
        s
    }
}

/// Every character is a decimal digit.
pub open spec fn all_digits(d: Seq<char>) -> bool {
    forall|i: int| 0 <= i < d.len() ==> is_digit(#[trigger] d[i])
}

/// What `str::parse::<u32>` gives: an optional `+`, then at least one decimal digit and
/// nothing else, spelling a number that fits in `u32`.
pub open spec fn parsed_u32(s: Seq<char>) -> Option<u32> {
    let d = unsigned_digits(s);
    if d.len() == 0 || !all_digits(d) || digits_value(d) > u32::MAX {
        None
    } else {
        Some(digits_value(d) as u32)
    }
}

proof fn lemma_digits_value_grows(d: Seq<char>, i: int)
    requires
        0 <= i <= d.len(),
        forall|k: int| 0 <= k < d.len() ==> is_digit(#[trigger] d[k]),
    ensures
        digits_value(d.take(i)) <= digits_value(d),
        digits_value(d) >= 0,
    decreases d.len() - i,
{
    if i == d.len() {
        assert(d.take(i) =~= d);
        lemma_digits_value_nonneg(d);
    } else {
        lemma_digits_value_grows(d, i + 1);
        assert(d.take(i + 1).drop_last() =~= d.take(i));
        lemma_digits_value_nonneg(d.take(i));
    }
}

proof fn lemma_digits_value_nonneg(d: Seq<char>)
    requires
        forall|k: int| 0 <= k < d.len() ==> is_digit(#[trigger] d[k]),
    ensures
        digits_value(d) >= 0,
    decreases d.len(),
{
    if d.len() > 0 {
        let t = d.drop_last();
        assert forall|k: int| 0 <= k < t.len() implies is_digit(#[trigger] t[k]) by {
            assert(t[k] == d[k]);
        }
        lemma_digits_value_nonneg(t);
        assert(is_digit(d[d.len() - 1]));
    }
}

/// Parses a decimal `u32` as `str::parse::<u32>` does (see `parsed_u32`).
pub fn parse_u32(s: &str) -> (r: Option<u32>)
    ensures
        r == parsed_u32(s@),
{
    let v = chars_of(s);
    let start: usize = if v.len() > 0 && v[0] == '+' {
        1
    } else {
        0
    };
    let d = slice_chars(&v, start, v.len());
    proof {
        if start == 0 {
            assert(v@.subrange(0, v@.len() as int) =~= v@);
        }
    }
    let ghost dd = unsigned_digits(s@);
    assert(dd == d@);
    if d.len() == 0 {
        return None;
    }
    let mut acc: u64 = 0;
    let mut i: usize = 0;
    while i < d.len()
        invariant
            i <= d.len(),
            d.len() > 0,
            acc <= u32::MAX,
            dd == d@,
            dd == unsigned_digits(s@),
            forall|k: int| 0 <= k < i ==> is_digit(#[trigger] d@[k]),
            acc == digits_value(d@.take(i as int)),
        decreases d.len() - i,
    {
        let c = d[i];
        let code = c as u32;
        assert(code == (c as u32));
        proof {
            assert(d@.take(i + 1).drop_last() =~= d@.take(i as int));
            assert(d@.take(i + 1).last() == c);
        }
        if code < 48 || code > 57 {
            assert(!is_digit(d@[i as int]));
            assert(!is_digit(dd[i as int]));
            assert(!all_digits(dd));
            return None;
        }
        acc = acc * 10 + (code - 48) as u64;
        assert(acc == digits_value(d@.take(i + 1)));
        if acc > 4294967295 {
            proof {
                if all_digits(d@) {
                    lemma_digits_value_grows(d@, i + 1);
                    assert(digits_value(d@) > u32::MAX);
                }
            }
            return None;
        }
        i = i + 1;
    }
    proof {
        assert(d@.take(d.len() as int) =~= d@);
    }
    Some(acc as u32)
}

/// What a numeric parameter reads in a body field: an unsigned number cut to 32 bits, or a
/// string parsed as a number.
pub open spec fn body_u32(body: BodyField) -> Option<u32> {
    match body {
        BodyField::Unsigned(n) => Some(n as u32),
        BodyField::Text(s) => parsed_u32(s@),
        _ => None,
    }
}

/// A numeric parameter: from the body when it yields a number, else the query's value
/// parsed as a number.
pub fn get_param_u32(body: &BodyField, params: &Vec<(String, String)>, key: &str) -> (r: Option<
    u32,
>)
    ensures
        r == (match body_u32(*body) {
            Some(n) => Some(n),
            None => match param_value(pair_views(params@), key@) {
                Some(v) => parsed_u32(v),
                None => None,
            },
        }),
{
    let from_body = match body {
        BodyField::Unsigned(n) => Some(*n as u32),
        BodyField::Text(s) => parse_u32(s.as_str()),
        _ => None,
    };
    match from_body {
        Some(n) => Some(n),
        None => match lookup_param(params, key) {
            Some(v) => parse_u32(v.as_str()),
            None => None,
        },
    }
}

/// A flag parameter: the body's boolean under the key, else `default`.
pub fn get_param_bool(body: &BodyField, default: bool) -> (r: bool)
    ensures
        r == (match body {
            BodyField::Flag(b) => *b,
            _ => default,
        }),
{
    match body {
        BodyField::Flag(b) => *b,
        _ => default,
    }
}

/// Which web storage a storage request addresses: `sessionStorage` when the `type`
/// parameter is `session`, else `localStorage`.
pub fn storage_object(type_param: Option<String>) -> (r: String)
    ensures
        r@ == (match type_param {
            Some(t) => if t@ == "session"@ {
                "sessionStorage"@
            } else {
                "localStorage"@
            },
            None => "localStorage"@,
        }),
{
    match type_param {
        Some(t) => {
            if text_eq(t.as_str(), "session") {
                owned("sessionStorage")
            } else {
                owned("localStorage")
            }
        },
        None => owned("localStorage"),
    }
}

/// Turns the single quotes that some shells put around JSON into double quotes.
pub fn fix_quotes(body: &str) -> (r: String)
    ensures
        r@ == crate::text::replace_char(body@, '\'', "\""@),
{
    crate::text::replace_all(body, '\'', "\"")
}

/// A route of the control server.
#[derive(Debug, Clone, Copy, PartialEq, Eq)]
pub enum Route {
    Status,
    TabCreate,
    TabClose,
    TabSwitch,
    TabList,
    TabActive,
    TabRestore,
    TabPin,
    TabMove,
    TabNext,
    TabPrev,
    NavGo,
    NavBack,
    NavForward,
    NavReload,
    NavHome,
    PageTitle,
    PageUrl,
    PageExec,
    PageContent,
    PageInspect,
    PageClick,
    PageType,
    PageWait,
    PageScroll,
    PageSubmit,
    ZoomIn,
    ZoomOut,
    ZoomReset,
    Find,
    FullscreenToggle,
    StorageGet,
    StorageSet,
    StorageClear,
    ConsoleStart,
    ConsoleStop,
    ConsoleGet,
    NetworkStart,
    NetworkStop,
    NetworkGet,
    PagePerformance,
    ViewportGet,
    ViewportSet,
    HistoryList,
    HistorySearch,
    HistoryClear,
    BookmarkAdd,
    BookmarkRemove,
    BookmarkList,
    BookmarkCheck,
    DownloadList,
    PageErrors,
    CookieGet,
    CookieSet,
    CookieDelete,
    CookieClear,
    PageCdpEval,
    PageScreenshot,
    DevtoolsToggle,
    UiAction,
    ScreenshotSave,
    /// A path the server does not serve.
    Unknown,
}

/// The control server's routes, each path with its route.
pub open spec fn route_table() -> Seq<(Seq<char>, Route)> {
    seq![
        ("/status"@, Route::Status),
        ("/tab/create"@, Route::TabCreate),
        ("/tab/close"@, Route::TabClose),
        ("/tab/switch"@, Route::TabSwitch),
        ("/tab/list"@, Route::TabList),
        ("/tab/active"@, Route::TabActive),
        ("/tab/restore"@, Route::TabRestore),
        ("/tab/pin"@, Route::TabPin),
        ("/tab/move"@, Route::TabMove),
        ("/tab/next"@, Route::TabNext),
        ("/tab/prev"@, Route::TabPrev),
        ("/nav/go"@, Route::NavGo),
        ("/nav/back"@, Route::NavBack),
        ("/nav/forward"@, Route::NavForward),
        ("/nav/reload"@, Route::NavReload),
        ("/nav/home"@, Route::NavHome),
        ("/page/title"@, Route::PageTitle),
        ("/page/url"@, Route::PageUrl),
        ("/page/exec"@, Route::PageExec),
        ("/page/content"@, Route::PageContent),
        ("/page/inspect"@, Route::PageInspect),
        ("/page/click"@, Route::PageClick),
        ("/page/type"@, Route::PageType),
        ("/page/wait"@, Route::PageWait),
        ("/page/scroll"@, Route::PageScroll),
        ("/page/submit"@, Route::PageSubmit),
        ("/zoom/in"@, Route::ZoomIn),
        ("/zoom/out"@, Route::ZoomOut),
        ("/zoom/reset"@, Route::ZoomReset),
        ("/find"@, Route::Find),
        ("/fullscreen/toggle"@, Route::FullscreenToggle),
        ("/storage/get"@, Route::StorageGet),
        ("/storage/set"@, Route::StorageSet),
        ("/storage/clear"@, Route::StorageClear),
        ("/console/start"@, Route::ConsoleStart),
        ("/console/stop"@, Route::ConsoleStop),
        ("/console/get"@, Route::ConsoleGet),
        ("/network/start"@, Route::NetworkStart),
        ("/network/stop"@, Route::NetworkStop),
        ("/network/get"@, Route::NetworkGet),
        ("/page/performance"@, Route::PagePerformance),
        ("/viewport/get"@, Route::ViewportGet),
        ("/viewport/set"@, Route::ViewportSet),
        ("/history/list"@, Route::HistoryList),
        ("/history/search"@, Route::HistorySearch),
        ("/history/clear"@, Route::HistoryClear),
        ("/bookmark/add"@, Route::BookmarkAdd),
        ("/bookmark/remove"@, Route::BookmarkRemove),
        ("/bookmark/list"@, Route::BookmarkList),
        ("/bookmark/check"@, Route::BookmarkCheck),
        ("/download/list"@, Route::DownloadList),
        ("/page/errors"@, Route::PageErrors),
        ("/cookie/get"@, Route::CookieGet),
        ("/cookie/set"@, Route::CookieSet),
        ("/cookie/delete"@, Route::CookieDelete),
        ("/cookie/clear"@, Route::CookieClear),
        ("/page/cdp-eval"@, Route::PageCdpEval),
        ("/page/screenshot"@, Route::PageScreenshot),
        ("/page/screenshot/full"@, Route::PageScreenshot),
        ("/devtools/toggle"@, Route::DevtoolsToggle),
        ("/ui/action"@, Route::UiAction),
        ("/screenshot/save"@, Route::ScreenshotSave),
    ]
}

/// The route table, in the order the server matches paths.
fn routes() -> (v: Vec<(&'static str, Route)>)
    ensures
        v@.len() == route_table().len(),
        forall|i: int| 0 <= i < v@.len() ==> (#[trigger] v@[i]).0@ == route_table()[i].0 && v@[i].1 == route_table()[i].1,
{
    let v = vec![
        ("/status", Route::Status),
        ("/tab/create", Route::TabCreate),
        ("/tab/close", Route::TabClose),
        ("/tab/switch", Route::TabSwitch),
        ("/tab/list", Route::TabList),
        ("/tab/active", Route::TabActive),
        ("/tab/restore", Route::TabRestore),
        ("/tab/pin", Route::TabPin),
        ("/tab/move", Route::TabMove),
        ("/tab/next", Route::TabNext),
        ("/tab/prev", Route::TabPrev),
        ("/nav/go", Route::NavGo),
        ("/nav/back", Route::NavBack),
        ("/nav/forward", Route::NavForward),
        ("/nav/reload", Route::NavReload),
        ("/nav/home", Route::NavHome),
        ("/page/title", Route::PageTitle),
        ("/page/url", Route::PageUrl),
        ("/page/exec", Route::PageExec),
        ("/page/content", Route::PageContent),
        ("/page/inspect", Route::PageInspect),
        ("/page/click", Route::PageClick),
        ("/page/type", Route::PageType),
        ("/page/wait", Route::PageWait),
        ("/page/scroll", Route::PageScroll),
        ("/page/submit", Route::PageSubmit),
        ("/zoom/in", Route::ZoomIn),
        ("/zoom/out", Route::ZoomOut),
        ("/zoom/reset", Route::ZoomReset),
        ("/find", Route::Find),
        ("/fullscreen/toggle", Route::FullscreenToggle),
        ("/storage/get", Route::StorageGet),
        ("/storage/set", Route::StorageSet),
        ("/storage/clear", Route::StorageClear),
        ("/console/start", Route::ConsoleStart),
        ("/console/stop", Route::ConsoleStop),
        ("/console/get", Route::ConsoleGet),
        ("/network/start", Route::NetworkStart),
        ("/network/stop", Route::NetworkStop),
        ("/network/get", Route::NetworkGet),
        ("/page/performance", Route::PagePerformance),
        ("/viewport/get", Route::ViewportGet),
        ("/viewport/set", Route::ViewportSet),
        ("/history/list", Route::HistoryList),
        ("/history/search", Route::HistorySearch),
        ("/history/clear", Route::HistoryClear),
        ("/bookmark/add", Route::BookmarkAdd),
        ("/bookmark/remove", Route::BookmarkRemove),
        ("/bookmark/list", Route::BookmarkList),
        ("/bookmark/check", Route::BookmarkCheck),
        ("/download/list", Route::DownloadList),
        ("/page/errors", Route::PageErrors),
        ("/cookie/get", Route::CookieGet),
        ("/cookie/set", Route::CookieSet),
        ("/cookie/delete", Route::CookieDelete),
        ("/cookie/clear", Route::CookieClear),
        ("/page/cdp-eval", Route::PageCdpEval),
        ("/page/screenshot", Route::PageScreenshot),
        ("/page/screenshot/full", Route::PageScreenshot),
        ("/devtools/toggle", Route::DevtoolsToggle),
        ("/ui/action", Route::UiAction),
        ("/screenshot/save", Route::ScreenshotSave),
    ];
    v
}

/// The route a path asks for.
pub open spec fn route_of(path: Seq<char>) -> Route {
    match first_index(route_table().map_values(|e: (Seq<char>, Route)| e.0), path) {
        Some(i) => route_table()[i].1,
        None => Route::Unknown,
    }
}

/// Whether `p` is the path that names route `r`: the route's name spelled as a path
/// (`NavBack` is `/nav/back`); the page screenshot has a second path for the full page.
pub open spec fn is_path_of(r: Route, p: Seq<char>) -> bool {
    match r {
        Route::Status => p == "/status"@,
        Route::TabCreate => p == "/tab/create"@,
        Route::TabClose => p == "/tab/close"@,
        Route::TabSwitch => p == "/tab/switch"@,
        Route::TabList => p == "/tab/list"@,
        Route::TabActive => p == "/tab/active"@,
        Route::TabRestore => p == "/tab/restore"@,
        Route::TabPin => p == "/tab/pin"@,
        Route::TabMove => p == "/tab/move"@,
        Route::TabNext => p == "/tab/next"@,
        Route::TabPrev => p == "/tab/prev"@,
        Route::NavGo => p == "/nav/go"@,
        Route::NavBack => p == "/nav/back"@,
        Route::NavForward => p == "/nav/forward"@,
        Route::NavReload => p == "/nav/reload"@,
        Route::NavHome => p == "/nav/home"@,
        Route::PageTitle => p == "/page/title"@,
        Route::PageUrl => p == "/page/url"@,
        Route::PageExec => p == "/page/exec"@,
        Route::PageContent => p == "/page/content"@,
        Route::PageInspect => p == "/page/inspect"@,
        Route::PageClick => p == "/page/click"@,
        Route::PageType => p == "/page/type"@,
        Route::PageWait => p == "/page/wait"@,
        Route::PageScroll => p == "/page/scroll"@,
        Route::PageSubmit => p == "/page/submit"@,
        Route::ZoomIn => p == "/zoom/in"@,
        Route::ZoomOut => p == "/zoom/out"@,
        Route::ZoomReset => p == "/zoom/reset"@,
        Route::Find => p == "/find"@,
        Route::FullscreenToggle => p == "/fullscreen/toggle"@,
        Route::StorageGet => p == "/storage/get"@,
        Route::StorageSet => p == "/storage/set"@,
        Route::StorageClear => p == "/storage/clear"@,
        Route::ConsoleStart => p == "/console/start"@,
        Route::ConsoleStop => p == "/console/stop"@,
        Route::ConsoleGet => p == "/console/get"@,
        Route::NetworkStart => p == "/network/start"@,
        Route::NetworkStop => p == "/network/stop"@,
        Route::NetworkGet => p == "/network/get"@,
        Route::PagePerformance => p == "/page/performance"@,
        Route::ViewportGet => p == "/viewport/get"@,
        Route::ViewportSet => p == "/viewport/set"@,
        Route::HistoryList => p == "/history/list"@,
        Route::HistorySearch => p == "/history/search"@,
        Route::HistoryClear => p == "/history/clear"@,
        Route::BookmarkAdd => p == "/bookmark/add"@,
        Route::BookmarkRemove => p == "/bookmark/remove"@,
        Route::BookmarkList => p == "/bookmark/list"@,
        Route::BookmarkCheck => p == "/bookmark/check"@,
        Route::DownloadList => p == "/download/list"@,
        Route::PageErrors => p == "/page/errors"@,
        Route::CookieGet => p == "/cookie/get"@,
        Route::CookieSet => p == "/cookie/set"@,
        Route::CookieDelete => p == "/cookie/delete"@,
        Route::CookieClear => p == "/cookie/clear"@,
        Route::PageCdpEval => p == "/page/cdp-eval"@,
        Route::PageScreenshot => p == "/page/screenshot"@ || p == "/page/screenshot/full"@,
        Route::DevtoolsToggle => p == "/devtools/toggle"@,
        Route::UiAction => p == "/ui/action"@,
        Route::ScreenshotSave => p == "/screenshot/save"@,
        Route::Unknown => false,
    }
}

/// A request path is only ever routed to the route it names: whenever a path reaches a
/// route, it is that route's own path, so no route answers for another's path.
pub proof fn lemma_path_reaches_its_own_route(p: Seq<char>)
    ensures
        route_of(p) != Route::Unknown ==> is_path_of(route_of(p), p),
{
    let keys = route_table().map_values(|e: (Seq<char>, Route)| e.0);
    lemma_route_table_named();
    crate::seqs::lemma_first_index_props(keys, p);
    match first_index(keys, p) {
        Some(i) => {
            assert(keys[i] == route_table()[i].0);
        },
        None => {},
    }
}

/// Each entry of the route table pairs a route with its own path.
proof fn lemma_route_table_named()
    ensures
        forall|k: int|
            0 <= k < route_table().len() ==> is_path_of(
                #[trigger] route_table()[k].1,
                route_table()[k].0,
            ),
{
    let t = route_table();
    assert(is_path_of(t[0].1, t[0].0));
    assert(is_path_of(t[1].1, t[1].0));
    assert(is_path_of(t[2].1, t[2].0));
    assert(is_path_of(t[3].1, t[3].0));
    assert(is_path_of(t[4].1, t[4].0));
    assert(is_path_of(t[5].1, t[5].0));
    assert(is_path_of(t[6].1, t[6].0));
    assert(is_path_of(t[7].1, t[7].0));
    assert(is_path_of(t[8].1, t[8].0));
    assert(is_path_of(t[9].1, t[9].0));
    assert(is_path_of(t[10].1, t[10].0));
    assert(is_path_of(t[11].1, t[11].0));
    assert(is_path_of(t[12].1, t[12].0));
    assert(is_path_of(t[13].1, t[13].0));
    assert(is_path_of(t[14].1, t[14].0));
    assert(is_path_of(t[15].1, t[15].0));
    assert(is_path_of(t[16].1, t[16].0));
    assert(is_path_of(t[17].1, t[17].0));
    assert(is_path_of(t[18].1, t[18].0));
    assert(is_path_of(t[19].1, t[19].0));
    assert(is_path_of(t[20].1, t[20].0));
    assert(is_path_of(t[21].1, t[21].0));
    assert(is_path_of(t[22].1, t[22].0));
    assert(is_path_of(t[23].1, t[23].0));
    assert(is_path_of(t[24].1, t[24].0));
    assert(is_path_of(t[25].1, t[25].0));
    assert(is_path_of(t[26].1, t[26].0));
    assert(is_path_of(t[27].1, t[27].0));
    assert(is_path_of(t[28].1, t[28].0));
    assert(is_path_of(t[29].1, t[29].0));
    assert(is_path_of(t[30].1, t[30].0));
    assert(is_path_of(t[31].1, t[31].0));
    assert(is_path_of(t[32].1, t[32].0));
    assert(is_path_of(t[33].1, t[33].0));
    assert(is_path_of(t[34].1, t[34].0));
    assert(is_path_of(t[35].1, t[35].0));
    assert(is_path_of(t[36].1, t[36].0));
    assert(is_path_of(t[37].1, t[37].0));
    assert(is_path_of(t[38].1, t[38].0));
    assert(is_path_of(t[39].1, t[39].0));
    assert(is_path_of(t[40].1, t[40].0));
    assert(is_path_of(t[41].1, t[41].0));
    assert(is_path_of(t[42].1, t[42].0));
    assert(is_path_of(t[43].1, t[43].0));
    assert(is_path_of(t[44].1, t[44].0));
    assert(is_path_of(t[45].1, t[45].0));
    assert(is_path_of(t[46].1, t[46].0));
    assert(is_path_of(t[47].1, t[47].0));
    assert(is_path_of(t[48].1, t[48].0));
    assert(is_path_of(t[49].1, t[49].0));
    assert(is_path_of(t[50].1, t[50].0));
    assert(is_path_of(t[51].1, t[51].0));
    assert(is_path_of(t[52].1, t[52].0));
    assert(is_path_of(t[53].1, t[53].0));
    assert(is_path_of(t[54].1, t[54].0));
    assert(is_path_of(t[55].1, t[55].0));
    assert(is_path_of(t[56].1, t[56].0));
    assert(is_path_of(t[57].1, t[57].0));
    assert(is_path_of(t[58].1, t[58].0));
    assert(is_path_of(t[59].1, t[59].0));
    assert(is_path_of(t[60].1, t[60].0));
    assert(is_path_of(t[61].1, t[61].0));
}

/// The route a request path asks for (see `route_of`).
pub fn parse_route(path: &str) -> (r: Route)
    ensures
        r == route_of(path@),
{
    let table = routes();
    let ghost keys = route_table().map_values(|e: (Seq<char>, Route)| e.0);
    let mut i: usize = 0;
    while i < table.len()
        invariant
            i <= table.len(),
            table@.len() == route_table().len(),
            forall|j: int| 0 <= j < table@.len() ==> (#[trigger] table@[j]).0@ == route_table()[j].0 && table@[j].1 == route_table()[j].1,
            keys == route_table().map_values(|e: (Seq<char>, Route)| e.0),
            forall|j: int| 0 <= j < i ==> keys[j] != path@,
        decreases table.len() - i,
    {
        let entry = table[i];
        assert(entry == table@[i as int]);
        if text_eq(entry.0, path) {
            proof {
                assert(keys[i as int] == path@);
                lemma_first_index_found(keys, path@, i as int);
            }
            return entry.1;
        }
        proof {
            assert(keys[i as int] == route_table()[i as int].0);
        }
        i = i + 1;
    }
    proof {
        lemma_first_index_absent(keys, path@);
    }
    Route::Unknown
}

} // verus!
