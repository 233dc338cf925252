//! The context of a CGI request: the meta-variables and the command-line arguments that the
//! script receives, and the script that the request names.
//!
//! See <https://www.rfc-editor.org/rfc/rfc3875>
use crate::compiler::text::{find_first, lemma_find_first, lemma_find_first_at};
use crate::context::client::ClientContext;
use crate::context::server::{joined, script_of, without_leading_slash, ServerContext, ServerView};
use crate::strings::{
    contains_char, decimal, decimal_digits, lossy_string, lossy_text, split, split_all,
    string_from_utf8, strip_prefix,
};
use crate::uri::{decode_percent_encoded, percent_decoded_text};
use crate::variable::{meta_variable, ToMetaVariable};
use base64::Engine;
use std::sync::Arc;
use vstd::prelude::*;
use vstd::utf8::{decode_utf8, encode_utf8, encode_utf8_decode_utf8, valid_utf8};

verus! {

/// A request as the server received it, as plain values: its method, the path and query of
/// its URI, its HTTP version as text, its headers by lower-case name and raw value, and the
/// length of its body.
pub struct HttpRequest {
    pub method: String,
    pub path: String,
    pub query: Option<String>,
    pub version: String,
    pub headers: Vec<(String, Vec<u8>)>,
    pub body_length: usize,
}

/// The authentication schemes that a request can name.
#[derive(Clone, Copy, Debug, Eq, PartialEq, Structural)]
pub enum AuthType {
    Basic,
}

/// Whether `s` is `basic` in any mix of cases.
pub open spec fn names_basic(s: Seq<u8>) -> bool {
    &&& s.len() == 5
    &&& (s[0] == 66 || s[0] == 98)
    &&& (s[1] == 65 || s[1] == 97)
    &&& (s[2] == 83 || s[2] == 115)
    &&& (s[3] == 73 || s[3] == 105)
    &&& (s[4] == 67 || s[4] == 99)
}

impl AuthType {
    /// The name of this scheme.
    pub fn as_str(&self) -> (r: &'static str)
        ensures
            r@ == "Basic"@,
    {
        "Basic"
    }

    /// The scheme that `value` names, ignoring case; `value` itself where it names none.
    pub fn try_from(value: &[u8]) -> (r: Result<AuthType, &[u8]>)
        ensures
            r is Ok <==> names_basic(value@),
            r matches Ok(t) ==> t == AuthType::Basic,
            r matches Err(v) ==> v@ == value@,
    {
        if value.len() == 5 && (value[0] == 66 || value[0] == 98) && (value[1] == 65 || value[1]
            == 97) && (value[2] == 83 || value[2] == 115) && (value[3] == 73 || value[3] == 105)
            && (value[4] == 67 || value[4] == 99) {
            Ok(AuthType::Basic)
        } else {
            Err(value)
        }
    }
}

/// The value of the first header called `name`.
pub open spec fn first_header(headers: Seq<(String, Vec<u8>)>, name: Seq<char>) -> Option<Seq<u8>>
    decreases headers.len(),
{
    if headers.len() == 0 {
        None
    } else if headers[0].0@ == name {
        Some(headers[0].1@)
    } else {
        first_header(headers.drop_first(), name)
    }
}

fn find_header<'a>(headers: &'a Vec<(String, Vec<u8>)>, name: &str) -> (r: Option<&'a Vec<u8>>)
    ensures
        match first_header(headers@, name@) {
            Some(value) => r matches Some(v) && v@ == value,
            None => r is None,
        },
{
    let wanted = name.to_owned();
    let mut i: usize = 0;
    assert(headers@.skip(0) =~= headers@);
    while i < headers.len()
        invariant
            i <= headers@.len(),
            wanted@ == name@,
            first_header(headers@.skip(i as int), name@) == first_header(headers@, name@),
        decreases headers.len() - i,
    {
        assert(headers@.skip(i as int)[0] == headers@[i as int]);
        assert(headers@.skip(i as int).drop_first() =~= headers@.skip(i as int + 1));
        if headers[i].0 == wanted {
            return Some(&headers[i].1);
        }
        i = i + 1;
    }
    None
}

/// What `base64::engine::general_purpose::STANDARD` decodes from some text: the bytes, or
/// `None` where the text is not in the standard alphabet with padding.
pub uninterp spec fn base64_standard(text: Seq<u8>) -> Option<Seq<u8>>;

/// `Engine::decode` of `base64::engine::general_purpose::STANDARD`: the bytes that the base64
/// text `input` stands for. The decoder is deterministic, so its result is named; which texts
/// it refuses is left to the name.
#[verifier::external_body]
fn decode_base64(input: &[u8]) -> (r: Option<Vec<u8>>)
    ensures
        match base64_standard(input@) {
            Some(bytes) => r matches Some(v) && v@ == bytes,
            None => r is None,
        },
{
    base64::engine::general_purpose::STANDARD.decode(input).ok()
}

/// The scheme and user that the `authorization` header of a request names: the scheme before
/// the first space must be `Basic`, and what follows the space the base64 text of UTF-8
/// credentials whose user comes before the first `:`.
pub open spec fn user_of(headers: Seq<(String, Vec<u8>)>) -> Option<(AuthType, Seq<char>)> {
    match first_header(headers, "authorization"@) {
        None => None,
        Some(header) => match find_first(header, 32u8) {
            None => None,
            Some(d) => if !names_basic(header.take(d)) {
                None
            } else {
                match base64_standard(header.skip(d + 1)) {
                    None => None,
                    Some(decoded) => if !valid_utf8(decoded) {
                        None
                    } else {
                        match find_first(decode_utf8(decoded), ':') {
                            None => None,
                            Some(k) => Some((AuthType::Basic, decode_utf8(decoded).take(k))),
                        }
                    },
                }
            },
        },
    }
}

fn first_index_of_byte(bytes: &[u8], b: u8) -> (r: Option<usize>)
    ensures
        match find_first(bytes@, b) {
            Some(k) => r matches Some(i) && i == k,
            None => r is None,
        },
{
    let mut i: usize = 0;
    while i < bytes.len()
        invariant
            i <= bytes@.len(),
            forall|j: int| 0 <= j < i ==> bytes@[j] != b,
        decreases bytes.len() - i,
    {
        if bytes[i] == b {
            proof {
                lemma_find_first_at(bytes@, b, i as int);
            }
            return Some(i);
        }
        i = i + 1;
    }
    proof {
        lemma_find_first_at(bytes@, b, i as int);
    }
    None
}

fn first_index_of_char(s: &str, c: char) -> (r: Option<usize>)
    ensures
        match find_first(s@, c) {
            Some(k) => r matches Some(i) && i == k,
            None => r is None,
        },
{
    let n = s.unicode_len();
    let mut i: usize = 0;
    while i < n
        invariant
            n == s@.len(),
            i <= n,
            forall|j: int| 0 <= j < i ==> s@[j] != c,
        decreases n - i,
    {
        if s.get_char(i) == c {
            proof {
                lemma_find_first_at(s@, c, i as int);
            }
            return Some(i);
        }
        i = i + 1;
    }
    proof {
        lemma_find_first_at(s@, c, i as int);
    }
    None
}

/// The scheme and user of the `authorization` header of a request, as [`user_of`] states.
pub fn extract_user(request: &HttpRequest) -> (r: Option<(AuthType, String)>)
    ensures
        match user_of(request.headers@) {
            Some((t, user)) => r matches Some((a, u)) && a == t && u@ == user,
            None => r is None,
        },
{
    let header = match find_header(&request.headers, "authorization") {
        Some(h) => h,
        None => {
            return None;
        },
    };
    let delimiter = match first_index_of_byte(header.as_slice(), 32u8) {
        Some(d) => d,
        None => {
            return None;
        },
    };
    proof {
        lemma_find_first(header@, 32u8);
    }
    let length = header.len();
    assert(delimiter < length);
    let scheme = slice_prefix(header.as_slice(), delimiter);
    let value = slice_suffix(header.as_slice(), delimiter + 1);
    let auth_type = match AuthType::try_from(scheme) {
        Ok(t) => t,
        Err(_) => {
            return None;
        },
    };
    let decoded = match decode_base64(value) {
        Some(d) => d,
        None => {
            return None;
        },
    };
    let ghost decoded_bytes = decoded@;
    let text = match string_from_utf8(decoded) {
        Some(t) => t,
        None => {
            return None;
        },
    };
    proof {
        encode_utf8_decode_utf8(text@);
    }
    assert(text@ == decode_utf8(decoded_bytes));
    let colon = match first_index_of_char(text.as_str(), ':') {
        Some(k) => k,
        None => {
            return None;
        },
    };
    proof {
        lemma_find_first(text@, ':');
    }
    let user = text.as_str().substring_char(0, colon);
    assert(user@ =~= decode_utf8(decoded_bytes).take(colon as int));
    assert(first_header(request.headers@, "authorization"@) == Some(header@));
    assert(find_first(header@, 32u8) == Some(delimiter as int));
    assert(names_basic(header@.take(delimiter as int)));
    assert(base64_standard(header@.skip(delimiter + 1)) == Some(decoded_bytes));
    assert(valid_utf8(decoded_bytes));
    assert(find_first(decode_utf8(decoded_bytes), ':') == Some(colon as int));
    Some((auth_type, user.to_owned()))
}

fn slice_prefix(bytes: &[u8], end: usize) -> (r: &[u8])
    requires
        end <= bytes@.len(),
    ensures
        r@ == bytes@.take(end as int),
{
    let (head, _) = bytes.split_at(end);
    head
}

fn slice_suffix(bytes: &[u8], start: usize) -> (r: &[u8])
    requires
        start <= bytes@.len(),
    ensures
        r@ == bytes@.skip(start as int),
{
    let (_, tail) = bytes.split_at(start);
    tail
}

/// A search word of a query with its percent-encoding decoded, or as it is where it cannot be.
pub open spec fn search_word(word: Seq<char>) -> Seq<char> {
    match percent_decoded_text(word) {
        Some(text) => text,
        None => word,
    }
}

/// The arguments that a search word gives: its words after decoding, split at spaces.
pub open spec fn search_arguments(word: Seq<char>) -> Seq<Seq<char>> {
    split_all(search_word(word), ' ')
}

/// The arguments of each search word, in order.
pub open spec fn arguments_of_words(words: Seq<Seq<char>>) -> Seq<Seq<char>>
    decreases words.len(),
{
    if words.len() == 0 {
        Seq::empty()
    } else {
        arguments_of_words(words.drop_last()) + search_arguments(words.last())
    }
}

/// The command-line arguments of a script: for a `GET` or `HEAD` request whose query has no
/// `=`, the words of each `+`-separated search word after decoding, split at spaces; none
/// otherwise.
pub open spec fn arguments_of(method: Seq<char>, query: Option<Seq<char>>) -> Seq<Seq<char>> {
    match query {
        Some(q) => if (method == "GET"@ || method == "HEAD"@) && !q.contains('=') {
            arguments_of_words(split_all(q, '+'))
        } else {
            Seq::empty()
        },
        None => Seq::empty(),
    }
}

fn word_arguments(word: &str) -> (r: Vec<String>)
    ensures
        r@.map_values(|a: String| a@) == search_arguments(word@),
{
    let decoded = match decode_percent_encoded(word) {
        Ok(text) => text,
        Err(text) => text.to_owned(),
    };
    split(decoded.as_str(), ' ')
}

fn arguments_of_query(query: &str) -> (r: Vec<String>)
    ensures
        r@.map_values(|a: String| a@) == arguments_of_words(split_all(query@, '+')),
{
    let words = split(query, '+');
    let ghost all = split_all(query@, '+');
    let mut arguments: Vec<String> = Vec::new();
    let mut i: usize = 0;
    assert(all.take(0) =~= Seq::<Seq<char>>::empty());
    assert(arguments@.map_values(|a: String| a@) =~= arguments_of_words(all.take(0)));
    while i < words.len()
        invariant
            i <= words@.len(),
            words@.map_values(|p: String| p@) == all,
            arguments@.map_values(|a: String| a@) == arguments_of_words(all.take(i as int)),
        decreases words.len() - i,
    {
        assert(words@[i as int]@ == all[i as int]);
        let mut pieces = word_arguments(words[i].as_str());
        let ghost before = arguments@.map_values(|a: String| a@);
        let ghost added = pieces@.map_values(|a: String| a@);
        arguments.append(&mut pieces);
        assert(arguments@.map_values(|a: String| a@) =~= before + added);
        assert(all.take(i as int + 1).drop_last() =~= all.take(i as int));
        i = i + 1;
    }
    assert(all.take(words@.len() as int) =~= all);
    arguments
}

/// The command-line arguments of a request's script, as [`arguments_of`] states.
pub fn extract_arguments(request: &HttpRequest) -> (r: Vec<String>)
    ensures
        r@.map_values(|a: String| a@) == arguments_of(
            request.method@,
            match request.query {
                Some(q) => Some(q@),
                None => None,
            },
        ),
{
    let get = String::from_str("GET");
    let head = String::from_str("HEAD");
    let none: Vec<String> = Vec::new();
    assert(none@.map_values(|a: String| a@) =~= Seq::<Seq<char>>::empty());
    if !(request.method == get || request.method == head) {
        return none;
    }
    match &request.query {
        Some(query) => {
            if contains_char(query.as_str(), '=') {
                none
            } else {
                arguments_of_query(query.as_str())
            }
        },
        None => none,
    }
}

/// A meta-variable: its name and its value.
pub type Entry = (Seq<char>, Seq<char>);

/// The text of a pair of strings.
pub open spec fn entry_of(pair: (String, String)) -> Entry {
    (pair.0@, pair.1@)
}

/// The text of pairs of strings.
pub open spec fn entries_of(pairs: Seq<(String, String)>) -> Seq<Entry> {
    pairs.map_values(|p: (String, String)| entry_of(p))
}

/// The meta-variables that setting each entry in turn leaves: a later value of a name replaces
/// an earlier one.
pub open spec fn entries_map(entries: Seq<Entry>) -> Map<Seq<char>, Seq<char>>
    decreases entries.len(),
{
    if entries.len() == 0 {
        Map::empty()
    } else {
        entries_map(entries.drop_last()).insert(entries.last().0, entries.last().1)
    }
}

/// No name occurs twice.
pub open spec fn distinct_names(entries: Seq<Entry>) -> bool {
    forall|i: int, j: int| 0 <= i < j < entries.len() ==> entries[i].0 != entries[j].0
}

proof fn lemma_entries_map_update(entries: Seq<Entry>, j: int, value: Seq<char>)
    requires
        distinct_names(entries),
        0 <= j < entries.len(),
    ensures
        entries_map(entries.update(j, (entries[j].0, value))) == entries_map(entries).insert(
            entries[j].0,
            value,
        ),
    decreases entries.len(),
{
    let key = entries[j].0;
    let updated = entries.update(j, (key, value));
    if j == entries.len() - 1 {
        assert(updated.drop_last() =~= entries.drop_last());
        assert(entries_map(updated) =~= entries_map(entries).insert(key, value));
    } else {
        assert(updated.drop_last() =~= entries.drop_last().update(j, (key, value)));
        lemma_entries_map_update(entries.drop_last(), j, value);
        assert(entries.last().0 != key);
        assert(entries_map(updated) =~= entries_map(entries).insert(key, value));
    }
}

proof fn lemma_entries_map_contains(entries: Seq<Entry>, key: Seq<char>)
    requires
        forall|i: int| 0 <= i < entries.len() ==> entries[i].0 != key,
    ensures
        !entries_map(entries).contains_key(key),
    decreases entries.len(),
{
    if entries.len() > 0 {
        lemma_entries_map_contains(entries.drop_last(), key);
    }
}

/// Sets the meta-variable `key` to `value`, replacing an earlier value.
fn set_variable(variables: &mut Vec<(String, String)>, key: String, value: String)
    requires
        distinct_names(entries_of(old(variables)@)),
    ensures
        distinct_names(entries_of(final(variables)@)),
        entries_map(entries_of(final(variables)@)) == entries_map(entries_of(old(variables)@)).insert(
            key@,
            value@,
        ),
{
    let ghost before = entries_of(variables@);
    let mut i: usize = 0;
    while i < variables.len()
        invariant
            i <= variables@.len(),
            variables@ == old(variables)@,
            before == entries_of(variables@),
            distinct_names(before),
            forall|j: int| 0 <= j < i ==> before[j].0 != key@,
        decreases variables.len() - i,
    {
        if variables[i].0 == key {
            let ghost k = key@;
            proof {
                lemma_entries_map_update(before, i as int, value@);
            }
            assert(before[i as int].0 == k);
            let ghost v = value@;
            variables.set(i, (key, value));
            assert(entries_of(variables@) =~= before.update(i as int, (k, v)));
            return;
        }
        i = i + 1;
    }
    let ghost k = key@;
    let ghost v = value@;
    variables.push((key, value));
    assert(entries_of(variables@) =~= before.push((k, v)));
    assert(entries_of(variables@).drop_last() =~= before);
}

/// Sets each of the given meta-variables in turn.
fn set_variables(entries: &Vec<(String, String)>) -> (r: Vec<(String, String)>)
    ensures
        distinct_names(entries_of(r@)),
        entries_map(entries_of(r@)) == entries_map(entries_of(entries@)),
{
    let mut variables: Vec<(String, String)> = Vec::new();
    let ghost all = entries_of(entries@);
    let mut i: usize = 0;
    assert(all.take(0) =~= Seq::<Entry>::empty());
    assert(entries_of(variables@) =~= Seq::<Entry>::empty());
    while i < entries.len()
        invariant
            i <= entries@.len(),
            all == entries_of(entries@),
            distinct_names(entries_of(variables@)),
            entries_map(entries_of(variables@)) == entries_map(all.take(i as int)),
        decreases entries.len() - i,
    {
        let key = entries[i].0.clone();
        let value = entries[i].1.clone();
        set_variable(&mut variables, key, value);
        assert(all.take(i as int + 1).drop_last() =~= all.take(i as int));
        i = i + 1;
    }
    assert(all.take(entries@.len() as int) =~= all);
    variables
}

/// A file path relative to `base`, comparing the paths as text: the part of `path` after
/// `base` and a separating `/`, the empty path where the two are the same, `path` itself where
/// `base` is empty, and `None` where `path` is not inside `base`.
pub open spec fn relative_to(path: Seq<char>, base: Seq<char>) -> Option<Seq<char>> {
    if base.len() == 0 {
        Some(path)
    } else if path == base {
        Some(Seq::empty())
    } else if base.last() == '/' && base.is_prefix_of(path) {
        Some(path.skip(base.len() as int))
    } else if (base + seq!['/']).is_prefix_of(path) {
        Some(path.skip(base.len() + 1 as int))
    } else {
        None
    }
}

fn relative_path(path: &str, base: &str) -> (r: Option<String>)
    ensures
        match relative_to(path@, base@) {
            Some(rel) => r matches Some(s) && s@ == rel,
            None => r is None,
        },
{
    let n = base.unicode_len();
    if n == 0 {
        return Some(path.to_owned());
    }
    if path.to_owned() == base.to_owned() {
        return Some(String::new());
    }
    match strip_prefix(path, base) {
        Some(rest) => {
            if base.get_char(n - 1) == '/' {
                return Some(rest.to_owned());
            }
            match strip_prefix(rest, "/") {
                Some(inner) => {
                    proof {
                        reveal_strlit("/");
                        assert(rest@.subrange(0, 1)[0] == rest@[0]);
                        assert(rest@[0] == '/');
                        assert(path@[n as int] == rest@[0]);
                        assert(path@.subrange(0, n as int) =~= base@);
                        assert((base@ + seq!['/']).is_prefix_of(path@)) by {
                            assert(path@.subrange(0, n + 1) =~= base@ + seq!['/']);
                        }
                    }
                    assert(inner@ =~= path@.skip(n + 1));
                    Some(inner.to_owned())
                },
                None => {
                    proof {
                        reveal_strlit("/");
                        if (base@ + seq!['/']).is_prefix_of(path@) {
                            assert(path@.subrange(0, n + 1)[n as int] == '/');
                            assert(rest@[0] == path@[n as int]);
                            assert(rest@.subrange(0, 1) =~= "/"@);
                        }
                    }
                    None
                },
            }
        },
        None => {
            proof {
                if (base@ + seq!['/']).is_prefix_of(path@) {
                    assert(path@.subrange(0, n as int) =~= base@);
                }
            }
            None
        },
    }
}

/// The script that a request names and the rest of its path: the script under `/cgi-bin/`
/// with the path after its file name, or no script and the whole path.
pub open spec fn script_and_extra(server: ServerView, path: Seq<char>) -> (Option<Seq<char>>, Seq<char>) {
    match script_of(server.cgi_bin, path) {
        Some((script, extra)) => (Some(script), extra),
        None => (None, path),
    }
}

/// The name of a script: `/cgi-bin/` and its path relative to the document root, or empty.
pub open spec fn script_name_of(server: ServerView, script: Option<Seq<char>>) -> Seq<char> {
    match script {
        Some(file) => match relative_to(file, server.document_root) {
            Some(rel) => "/cgi-bin/"@ + rel,
            None => Seq::empty(),
        },
        None => Seq::empty(),
    }
}

/// The text of an optional text, empty where there is none.
pub open spec fn text_or_empty(text: Option<Seq<char>>) -> Seq<char> {
    match text {
        Some(t) => t,
        None => Seq::empty(),
    }
}

/// The text of the query of a request.
pub open spec fn query_of(request: HttpRequest) -> Option<Seq<char>> {
    match request.query {
        Some(q) => Some(q@),
        None => None,
    }
}

/// The URI of a script: scheme, server name, port, script name, extra path and query.
pub open spec fn script_uri_of(
    server: ServerView,
    script_name: Seq<char>,
    extra: Seq<char>,
    query: Option<Seq<char>>,
) -> Seq<char> {
    server.scheme + "://"@ + server.hostname + ":"@ + server.port + script_name + extra + "?"@
        + text_or_empty(query)
}

/// The meta-variables that every request sets.
pub open spec fn fixed_entries(
    server: ServerView,
    client: (Seq<char>, Seq<char>),
    request: HttpRequest,
) -> Seq<Entry> {
    let (script, extra) = script_and_extra(server, request.path@);
    let script_name = script_name_of(server, script);
    seq![
        ("PATH"@, server.path),
        ("SERVER_SOFTWARE"@, server.software),
        ("GATEWAY_INTERFACE"@, "CGI/1.1"@),
        ("SERVER_PROTOCOL"@, request.version@),
        ("SCRIPT_URI"@, script_uri_of(server, script_name, extra, query_of(request))),
        ("SCRIPT_NAME"@, script_name),
        ("SERVER_NAME"@, server.hostname),
        ("SERVER_ADDR"@, server.ip_address),
        ("SERVER_PORT"@, server.port),
        ("REMOTE_ADDR"@, client.0),
        ("REMOTE_PORT"@, client.1),
        ("REQUEST_METHOD"@, request.method@),
    ]
}

/// The query string, where the request has a query.
pub open spec fn query_entries(query: Option<Seq<char>>) -> Seq<Entry> {
    match query {
        Some(q) => seq![("QUERY_STRING"@, q)],
        None => Seq::empty(),
    }
}

/// The path after the script and the file it names under the document root, where the
/// request has such a path; the path is percent-decoded where it can be.
pub open spec fn path_entries(server: ServerView, extra: Seq<char>) -> Seq<Entry> {
    if extra.len() == 0 {
        Seq::empty()
    } else {
        match percent_decoded_text(extra) {
            Some(info) => seq![
                ("PATH_TRANSLATED"@, joined(server.document_root, without_leading_slash(info))),
                ("PATH_INFO"@, info),
            ],
            None => seq![
                ("PATH_INFO"@, extra),
                ("PATH_TRANSLATED"@, joined(server.document_root, without_leading_slash(extra))),
            ],
        }
    }
}

/// The length and type of the body, where the request has a body.
pub open spec fn body_entries(body_length: nat, headers: Seq<(String, Vec<u8>)>) -> Seq<Entry> {
    if body_length == 0 {
        Seq::empty()
    } else {
        seq![("CONTENT_LENGTH"@, decimal_digits(body_length))] + match first_header(
            headers,
            "content-type"@,
        ) {
            Some(value) => seq![("CONTENT_TYPE"@, lossy_text(value))],
            None => Seq::empty(),
        }
    }
}

/// The scheme and user of the authorization, where the request names a user.
pub open spec fn user_entries(headers: Seq<(String, Vec<u8>)>) -> Seq<Entry> {
    match user_of(headers) {
        Some((_, user)) => seq![("AUTH_TYPE"@, "Basic"@), ("REMOTE_USER"@, user)],
        None => Seq::empty(),
    }
}

/// A meta-variable for each header: `HTTP_` and its name, and its value as text.
pub open spec fn header_entry(header: (String, Vec<u8>)) -> Entry {
    (meta_variable(header.0@, Some("HTTP"@)), lossy_text(header.1@))
}

/// The meta-variables of a CGI request, in the order in which they are set.
pub open spec fn cgi_entries(
    server: ServerView,
    client: (Seq<char>, Seq<char>),
    request: HttpRequest,
) -> Seq<Entry> {
    let (_, extra) = script_and_extra(server, request.path@);
    fixed_entries(server, client, request) + query_entries(query_of(request)) + path_entries(
        server,
        extra,
    ) + body_entries(request.body_length as nat, request.headers@) + user_entries(
        request.headers@,
    ) + request.headers@.map_values(|h: (String, Vec<u8>)| header_entry(h))
}

/// A map of entries holds, for a name, the value of the name's last entry.
proof fn lemma_entries_map_at(entries: Seq<Entry>, i: int)
    requires
        0 <= i < entries.len(),
        forall|j: int| i < j < entries.len() ==> entries[j].0 != entries[i].0,
    ensures
        entries_map(entries).dom().contains(entries[i].0),
        entries_map(entries)[entries[i].0] == entries[i].1,
    decreases entries.len(),
{
    if i < entries.len() - 1 {
        lemma_entries_map_at(entries.drop_last(), i);
    }
}

/// Whether a name is neither of the names of the client's meta-variables.
spec fn names_no_client(name: Seq<char>) -> bool {
    name != "REMOTE_ADDR"@ && name != "REMOTE_PORT"@
}

/// The meta-variables set after the client's (the request method, the query, the path, the
/// body, the user and the headers) have other names than the client's.
proof fn lemma_later_names_are_not_the_client(
    server: ServerView,
    client: (Seq<char>, Seq<char>),
    request: HttpRequest,
)
    ensures
        forall|j: int|
            11 <= j < cgi_entries(server, client, request).len() ==> names_no_client(
                #[trigger] cgi_entries(server, client, request)[j].0,
            ),
{
    reveal_strlit("REMOTE_ADDR");
    reveal_strlit("REMOTE_PORT");
    reveal_strlit("REQUEST_METHOD");
    reveal_strlit("QUERY_STRING");
    reveal_strlit("PATH_INFO");
    reveal_strlit("PATH_TRANSLATED");
    reveal_strlit("CONTENT_LENGTH");
    reveal_strlit("CONTENT_TYPE");
    reveal_strlit("AUTH_TYPE");
    reveal_strlit("REMOTE_USER");
    reveal_strlit("HTTP");
    let (_, extra) = script_and_extra(server, request.path@);
    let fixed = fixed_entries(server, client, request);
    let query = query_entries(query_of(request));
    let path = path_entries(server, extra);
    let body = body_entries(request.body_length as nat, request.headers@);
    let user = user_entries(request.headers@);
    let headers = request.headers@.map_values(|h: (String, Vec<u8>)| header_entry(h));
    let all = cgi_entries(server, client, request);
    assert(all == fixed + query + path + body + user + headers);
    assert("REMOTE_USER"@[7] != "REMOTE_PORT"@[7]);
    assert("REMOTE_USER"@[7] != "REMOTE_ADDR"@[7]);
    assert("REMOTE_PORT"@[7] != "REMOTE_ADDR"@[7]);
    assert(names_no_client(fixed[11].0));
    assert forall|j: int| 0 <= j < query.len() implies names_no_client(#[trigger] query[j].0) by {}
    assert forall|j: int| 0 <= j < path.len() implies names_no_client(#[trigger] path[j].0) by {
        assert("PATH_INFO"@.len() == 9 && "PATH_TRANSLATED"@.len() == 15);
        assert("REMOTE_ADDR"@.len() == 11 && "REMOTE_PORT"@.len() == 11);
        if extra.len() != 0 {
            match percent_decoded_text(extra) {
                Some(info) => {
                    assert(path[0].0 == "PATH_TRANSLATED"@ && path[1].0 == "PATH_INFO"@);
                },
                None => {
                    assert(path[0].0 == "PATH_INFO"@ && path[1].0 == "PATH_TRANSLATED"@);
                },
            }
        }
    }
    assert forall|j: int| 0 <= j < body.len() implies names_no_client(#[trigger] body[j].0) by {}
    assert forall|j: int| 0 <= j < user.len() implies names_no_client(#[trigger] user[j].0) by {
        assert("AUTH_TYPE"@.len() == 9);
        assert("REMOTE_ADDR"@.len() == 11 && "REMOTE_PORT"@.len() == 11);
        if user_of(request.headers@) is Some {
            assert(user[0].0 == "AUTH_TYPE"@ && user[1].0 == "REMOTE_USER"@);
        }
    }
    assert forall|j: int| 0 <= j < headers.len() implies names_no_client(#[trigger] headers[j].0) by {
        let name = headers[j].0;
        assert(name == meta_variable(request.headers@[j].0@, Some("HTTP"@)));
        assert(name[0] == 'H');
        assert("REMOTE_ADDR"@[0] == 'R');
        assert("REMOTE_PORT"@[0] == 'R');
    }
    assert forall|j: int| 11 <= j < all.len() implies names_no_client(#[trigger] all[j].0) by {
        let a = fixed.len() as int;
        let b = a + query.len();
        let c = b + path.len();
        let d = c + body.len();
        let e = d + user.len();
        if j < a {
            assert(all[j] == fixed[j]);
        } else if j < b {
            assert(all[j] == query[j - a]);
        } else if j < c {
            assert(all[j] == path[j - b]);
        } else if j < d {
            assert(all[j] == body[j - c]);
        } else if j < e {
            assert(all[j] == user[j - d]);
        } else {
            assert(all[j] == headers[j - e]);
        }
    }
}

/// The request's meta-variables name the client: `REMOTE_ADDR` is the client's IP address and
/// `REMOTE_PORT` its port, whatever the server and the request, headers included.
pub proof fn lemma_client_variables(server: ServerView, client: (Seq<char>, Seq<char>), request: HttpRequest)
    ensures
        entries_map(cgi_entries(server, client, request)).dom().contains("REMOTE_ADDR"@),
        entries_map(cgi_entries(server, client, request))["REMOTE_ADDR"@] == client.0,
        entries_map(cgi_entries(server, client, request)).dom().contains("REMOTE_PORT"@),
        entries_map(cgi_entries(server, client, request))["REMOTE_PORT"@] == client.1,
{
    let all = cgi_entries(server, client, request);
    lemma_later_names_are_not_the_client(server, client, request);
    reveal_strlit("REMOTE_ADDR");
    reveal_strlit("REMOTE_PORT");
    assert("REMOTE_PORT"@[7] != "REMOTE_ADDR"@[7]);
    assert(all[9] == ("REMOTE_ADDR"@, client.0));
    assert(all[10] == ("REMOTE_PORT"@, client.1));
    assert forall|j: int| 9 < j < all.len() implies (#[trigger] all[j]).0 != all[9].0 by {
        if j > 10 {
            assert(names_no_client(all[j].0));
        }
    }
    lemma_entries_map_at(all, 9);
    assert forall|j: int| 10 < j < all.len() implies (#[trigger] all[j]).0 != all[10].0 by {
        assert(names_no_client(all[j].0));
    }
    lemma_entries_map_at(all, 10);
}

fn push_entry(entries: &mut Vec<(String, String)>, key: &str, value: String)
    ensures
        entries_of(final(entries)@) == entries_of(old(entries)@).push((key@, value@)),
{
    let ghost v = value@;
    entries.push((key.to_owned(), value));
    assert(entries_of(entries@) =~= entries_of(old(entries)@).push((key@, v)));
}

fn append_entries(entries: &mut Vec<(String, String)>, more: Vec<(String, String)>)
    ensures
        entries_of(final(entries)@) == entries_of(old(entries)@) + entries_of(more@),
{
    let ghost added = entries_of(more@);
    let mut more = more;
    entries.append(&mut more);
    assert(entries_of(entries@) =~= entries_of(old(entries)@) + added);
}

/// The script that a request names and the rest of its path, as [`script_and_extra`] states.
fn script_parts<'a, P, W>(server: &ServerContext<P, W>, path: &'a str) -> (r: (Option<String>, &'a str))
    ensures
        (match r.0 {
            Some(s) => Some(s@),
            None => None,
        }, r.1@) == script_and_extra(server@, path@),
{
    match server.script_filename(path) {
        Some((script, extra)) => (Some(script), extra),
        None => (None, path),
    }
}

fn script_name<P, W>(server: &ServerContext<P, W>, script: &Option<String>) -> (r: String)
    ensures
        r@ == script_name_of(
            server@,
            match script {
                Some(s) => Some(s@),
                None => None,
            },
        ),
{
    match script {
        Some(file) => match relative_path(file.as_str(), server.working_directory()) {
            Some(rel) => {
                let mut name = String::from_str("/cgi-bin/");
                name.append(rel.as_str());
                name
            },
            None => String::new(),
        },
        None => String::new(),
    }
}

fn fixed_variables<P, W>(
    server: &ServerContext<P, W>,
    client: &ClientContext,
    request: &HttpRequest,
) -> (r: Vec<(String, String)>)
    ensures
        entries_of(r@) == fixed_entries(server@, client@, *request),
{
    let (script, extra) = script_parts(server, request.path.as_str());
    let name = script_name(server, &script);
    let mut uri = server.scheme().to_owned();
    uri.append("://");
    uri.append(server.server_name());
    uri.append(":");
    uri.append(server.port());
    uri.append(name.as_str());
    uri.append(extra);
    uri.append("?");
    match &request.query {
        Some(q) => uri.append(q.as_str()),
        None => {},
    }
    let mut entries: Vec<(String, String)> = Vec::new();
    push_entry(&mut entries, "PATH", server.path().to_owned());
    push_entry(&mut entries, "SERVER_SOFTWARE", server.software().to_owned());
    push_entry(&mut entries, "GATEWAY_INTERFACE", String::from_str("CGI/1.1"));
    push_entry(&mut entries, "SERVER_PROTOCOL", request.version.clone());
    push_entry(&mut entries, "SCRIPT_URI", uri);
    push_entry(&mut entries, "SCRIPT_NAME", name);
    push_entry(&mut entries, "SERVER_NAME", server.server_name().to_owned());
    push_entry(&mut entries, "SERVER_ADDR", server.ip_address().to_owned());
    push_entry(&mut entries, "SERVER_PORT", server.port().to_owned());
    push_entry(&mut entries, "REMOTE_ADDR", client.remote_ip_address().to_owned());
    push_entry(&mut entries, "REMOTE_PORT", client.remote_port().to_owned());
    push_entry(&mut entries, "REQUEST_METHOD", request.method.clone());
    assert(entries_of(entries@) =~= fixed_entries(server@, client@, *request));
    entries
}

fn path_variables<P, W>(server: &ServerContext<P, W>, extra: &str) -> (r: Vec<(String, String)>)
    ensures
        entries_of(r@) == path_entries(server@, extra@),
{
    let mut entries: Vec<(String, String)> = Vec::new();
    if extra.unicode_len() == 0 {
        assert(entries_of(entries@) =~= path_entries(server@, extra@));
        return entries;
    }
    match decode_percent_encoded(extra) {
        Ok(info) => {
            push_entry(&mut entries, "PATH_TRANSLATED", server.translate_path(info.as_str()));
            push_entry(&mut entries, "PATH_INFO", info);
        },
        Err(info) => {
            push_entry(&mut entries, "PATH_INFO", info.to_owned());
            push_entry(&mut entries, "PATH_TRANSLATED", server.translate_path(info));
        },
    }
    assert(entries_of(entries@) =~= path_entries(server@, extra@));
    entries
}

fn body_variables(request: &HttpRequest) -> (r: Vec<(String, String)>)
    ensures
        entries_of(r@) == body_entries(request.body_length as nat, request.headers@),
{
    let mut entries: Vec<(String, String)> = Vec::new();
    if request.body_length == 0 {
        assert(entries_of(entries@) =~= body_entries(request.body_length as nat, request.headers@));
        return entries;
    }
    push_entry(&mut entries, "CONTENT_LENGTH", decimal(request.body_length));
    match find_header(&request.headers, "content-type") {
        Some(value) => {
            push_entry(&mut entries, "CONTENT_TYPE", lossy_string(value.as_slice()));
        },
        None => {},
    }
    assert(entries_of(entries@) =~= body_entries(request.body_length as nat, request.headers@));
    entries
}

fn user_variables(request: &HttpRequest) -> (r: Vec<(String, String)>)
    ensures
        entries_of(r@) == user_entries(request.headers@),
{
    let mut entries: Vec<(String, String)> = Vec::new();
    match extract_user(request) {
        Some((auth_type, user)) => {
            push_entry(&mut entries, "AUTH_TYPE", auth_type.as_str().to_owned());
            push_entry(&mut entries, "REMOTE_USER", user);
        },
        None => {},
    }
    assert(entries_of(entries@) =~= user_entries(request.headers@));
    entries
}

fn header_variables(headers: &Vec<(String, Vec<u8>)>) -> (r: Vec<(String, String)>)
    ensures
        entries_of(r@) == headers@.map_values(|h: (String, Vec<u8>)| header_entry(h)),
{
    let mut entries: Vec<(String, String)> = Vec::new();
    let mut i: usize = 0;
    while i < headers.len()
        invariant
            i <= headers@.len(),
            entries_of(entries@) == headers@.take(i as int).map_values(
                |h: (String, Vec<u8>)| header_entry(h),
            ),
        decreases headers.len() - i,
    {
        let key = headers[i].0.as_str().to_meta_variable(Some("HTTP"));
        let value = lossy_string(headers[i].1.as_slice());
        let ghost before = entries_of(entries@);
        let ghost k = key@;
        let ghost v = value@;
        entries.push((key, value));
        assert(entries_of(entries@) =~= before.push((k, v)));
        assert(headers@.take(i as int + 1).map_values(|h: (String, Vec<u8>)| header_entry(h))
            =~= headers@.take(i as int).map_values(|h: (String, Vec<u8>)| header_entry(h)).push(
            header_entry(headers@[i as int]),
        ));
        i = i + 1;
    }
    assert(headers@.take(headers@.len() as int) =~= headers@);
    entries
}

/// The meta-variables of a CGI request in the order in which they are set, as
/// [`cgi_entries`] states.
fn cgi_variables<P, W>(
    server: &ServerContext<P, W>,
    client: &ClientContext,
    request: &HttpRequest,
) -> (r: Vec<(String, String)>)
    ensures
        entries_of(r@) == cgi_entries(server@, client@, *request),
{
    let (_, extra) = script_parts(server, request.path.as_str());
    let mut entries = fixed_variables(server, client, request);
    let mut query: Vec<(String, String)> = Vec::new();
    match &request.query {
        Some(q) => push_entry(&mut query, "QUERY_STRING", q.clone()),
        None => {},
    }
    assert(entries_of(query@) =~= query_entries(query_of(*request)));
    append_entries(&mut entries, query);
    append_entries(&mut entries, path_variables(server, extra));
    append_entries(&mut entries, body_variables(request));
    append_entries(&mut entries, user_variables(request));
    append_entries(&mut entries, header_variables(&request.headers));
    entries
}

/// The context of a CGI request: its server, the meta-variables and command-line arguments
/// that its script receives, and the file of that script.
pub struct RequestContext<P, W> {
    server: Arc<ServerContext<P, W>>,
    variables: Vec<(String, String)>,
    arguments: Vec<String>,
    script: Option<String>,
}

impl<P, W> RequestContext<P, W> {
    /// The meta-variables of the request's script.
    pub closed spec fn spec_variables(&self) -> Map<Seq<char>, Seq<char>> {
        entries_map(entries_of(self.variables@))
    }

    /// The command-line arguments of the request's script.
    pub closed spec fn spec_arguments(&self) -> Seq<Seq<char>> {
        self.arguments@.map_values(|a: String| a@)
    }

    /// The file of the request's script, where the request names one.
    pub closed spec fn spec_script(&self) -> Option<Seq<char>> {
        match self.script {
            Some(s) => Some(s@),
            None => None,
        }
    }

    /// The server of the request.
    pub closed spec fn spec_server(&self) -> ServerView {
        self.server@
    }

    /// The context of `request`, received by `server` from `client`.
    pub fn new(server: Arc<ServerContext<P, W>>, client: Arc<ClientContext>, request: &HttpRequest) -> (r:
        Self)
        ensures
            r.spec_variables() == entries_map(cgi_entries(server@, client@, *request)),
            r.spec_arguments() == arguments_of(request.method@, query_of(*request)),
            r.spec_script() == script_and_extra(server@, request.path@).0,
            r.spec_server() == server@,
    {
        let (script, _) = script_parts(&server, request.path.as_str());
        let entries = cgi_variables(&server, &client, request);
        let variables = set_variables(&entries);
        let arguments = extract_arguments(request);
        Self { server, variables, arguments, script }
    }

    pub fn server(&self) -> (r: &ServerContext<P, W>)
        ensures
            r@ == self.spec_server(),
    {
        &self.server
    }

    /// The directory that the script runs in.
    pub fn working_directory(&self) -> (r: &str)
        ensures
            r@ == self.spec_server().document_root,
    {
        self.server.working_directory()
    }

    /// The file of the script, or `None` where the request's path names none.
    pub fn script(&self) -> (r: Option<&String>)
        ensures
            match self.spec_script() {
                Some(s) => r matches Some(f) && f@ == s,
                None => r is None,
            },
    {
        self.script.as_ref()
    }

    pub fn arguments(&self) -> (r: &[String])
        ensures
            r@.map_values(|a: String| a@) == self.spec_arguments(),
    {
        self.arguments.as_slice()
    }

    /// The meta-variables, each name once.
    pub fn variables(&self) -> (r: &[(String, String)])
        ensures
            distinct_names(entries_of(r@)),
            entries_map(entries_of(r@)) == self.spec_variables(),
    {
        proof {
            use_type_invariant(self);
        }
        self.variables.as_slice()
    }

    #[verifier::type_invariant]
    spec fn names_are_distinct(&self) -> bool {
        distinct_names(entries_of(self.variables@))
    }
}

} // verus!
