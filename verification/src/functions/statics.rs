//! Session tokens, session lookups and subscriber lists.

use rand::distributions::Alphanumeric;
use rand::rngs::ThreadRng;
use rand::Rng;
use vstd::prelude::*;
use vstd::string::*;
use crate::text::push_char;

verus! {

/// Length of a session token.
pub const TOKEN_LEN: usize = 16;

/// A character that may appear in a session token: an ASCII letter or digit.
pub open spec fn is_token_char(c: char) -> bool {
    ('a' <= c && c <= 'z') || ('A' <= c && c <= 'Z') || ('0' <= c && c <= '9')
}

/// The byte of an ASCII letter or digit.
pub open spec fn is_alphanumeric_byte(b: u8) -> bool {
    (97 <= b && b <= 122) || (65 <= b && b <= 90) || (48 <= b && b <= 57)
}

/// A well-formed session token: `TOKEN_LEN` ASCII letters and digits.
pub open spec fn is_token(t: Seq<char>) -> bool {
    &&& t.len() == TOKEN_LEN
    &&& forall|i: int| 0 <= i < t.len() ==> #[trigger] is_token_char(t[i])
}

/// A handle to the thread-local generator of `rand`.
#[verifier::external_type_specification]
#[verifier::external_body]
pub struct ExThreadRng(ThreadRng);

/// `rand::thread_rng`: a handle to the calling thread's generator. Nothing
/// is stated of it; it is only handed to `sample_alphanumeric`.
#[verifier::external_body]
fn thread_rng() -> ThreadRng {
    rand::thread_rng()
}

/// `Rng::sample` with the `Alphanumeric` distribution: per rand's
/// documentation a byte drawn from the ASCII letters `a-z`, `A-Z` and the
/// digits `0-9`. Which one is drawn is not stated.
#[verifier::external_body]
fn sample_alphanumeric(rng: &mut ThreadRng) -> (b: u8)
    ensures
        is_alphanumeric_byte(b),
{
    rng.sample(Alphanumeric)
}

/// The characters that the bytes `bytes` stand for, one per byte.
pub open spec fn bytes_as_chars(bytes: Seq<u8>) -> Seq<char> {
    bytes.map_values(|b: u8| b as char)
}

/// The text of the bytes `bytes`, each byte taken as one character (as
/// `char::from` takes a byte).
pub fn token_from_bytes(bytes: &Vec<u8>) -> (t: String)
    ensures
        t@ == bytes_as_chars(bytes@),
{
    let mut t = String::new();
    let mut i: usize = 0;
    while i < bytes.len()
        invariant
            i <= bytes@.len(),
            t@ == bytes_as_chars(bytes@.take(i as int)),
        decreases bytes@.len() - i,
    {
        let c = bytes[i] as char;
        push_char(&mut t, c);
        assert(bytes@.take(i + 1) == bytes@.take(i as int).push(bytes@[i as int]));
        i = i + 1;
    }
    assert(bytes@.take(bytes@.len() as int) == bytes@);
    t
}

/// `TOKEN_LEN` bytes drawn from the ASCII letters and digits.
fn draw_token_bytes() -> (bytes: Vec<u8>)
    ensures
        bytes@.len() == TOKEN_LEN,
        forall|j: int| 0 <= j < bytes@.len() ==> #[trigger] is_alphanumeric_byte(bytes@[j]),
{
    let mut rng = thread_rng();
    let mut bytes: Vec<u8> = Vec::new();
    let mut i: usize = 0;
    while i < TOKEN_LEN
        invariant
            i <= TOKEN_LEN,
            bytes@.len() == i,
            forall|j: int| 0 <= j < bytes@.len() ==> #[trigger] is_alphanumeric_byte(bytes@[j]),
        decreases TOKEN_LEN - i,
    {
        let b = sample_alphanumeric(&mut rng);
        bytes.push(b);
        i = i + 1;
    }
    bytes
}

/// A fresh random session token: `TOKEN_LEN` bytes drawn from the ASCII
/// letters and digits, taken as characters.
pub fn create_token() -> (token: String)
    ensures
        is_token(token@),
        exists|bytes: Seq<u8>|
            bytes.len() == TOKEN_LEN && (forall|j: int|
                0 <= j < bytes.len() ==> #[trigger] is_alphanumeric_byte(bytes[j])) && token@
                == bytes_as_chars(bytes),
{
    let bytes = draw_token_bytes();
    let token = token_from_bytes(&bytes);
    assert forall|j: int| 0 <= j < token@.len() implies #[trigger] is_token_char(token@[j]) by {
        assert(is_alphanumeric_byte(bytes@[j]));
    }
    token
}

/// The message that comes with a session lookup that found a session.
pub open spec fn no_token_message() -> Seq<char> {
    "no token"@
}

/// The message that comes with a session lookup that found none.
pub open spec fn invalid_token_message() -> Seq<char> {
    "token is not valid"@
}

/// What a token check reports, given the user name stored with the
/// token's session (`None` when no session has the token): the user name,
/// and the message `"no token"` when a session was found or
/// `"token is not valid"` when none was.
pub fn validate_token(session_username: Option<String>) -> (res: (Option<String>, String))
    ensures
        res.0 == session_username,
        session_username is Some ==> res.1@ == no_token_message(),
        session_username is None ==> res.1@ == invalid_token_message(),
{
    match session_username {
        Some(username) => (Some(username), String::from_str("no token")),
        None => (None, String::from_str("token is not valid")),
    }
}

/// The views of a list of strings.
pub open spec fn string_views(v: Seq<String>) -> Seq<Seq<char>> {
    v.map_values(|s: String| s@)
}

proof fn lemma_push_to_set(s: Seq<Seq<char>>, x: Seq<char>)
    ensures
        s.push(x).to_set() == s.to_set().insert(x),
        s.contains(x) ==> s.to_set().contains(x),
{
    assert forall|y: Seq<char>| s.push(x).to_set().contains(y) <==> s.to_set().insert(x).contains(y) by {
        if s.push(x).contains(y) && y != x {
            let k = choose|k: int| 0 <= k < s.push(x).len() && s.push(x)[k] == y;
            assert(s[k] == y);
        }
        if s.contains(y) {
            let k = choose|k: int| 0 <= k < s.len() && s[k] == y;
            assert(s.push(x)[k] == y);
        }
        if y == x {
            assert(s.push(x)[s.len() as int] == y);
        }
    }
    assert(s.push(x).to_set() =~= s.to_set().insert(x));
}

/// The distinct elements of `s`, each once, in the order of their first
/// occurrence.
pub open spec fn first_occurrences(s: Seq<Seq<char>>) -> Seq<Seq<char>>
    decreases s.len(),
{
    if s.len() == 0 {
        Seq::empty()
    } else {
        let rest = first_occurrences(s.drop_last());
        if rest.contains(s.last()) {
            rest
        } else {
            rest.push(s.last())
        }
    }
}

/// The first occurrences of `s` hold each element of `s` exactly once.
pub proof fn lemma_first_occurrences(s: Seq<Seq<char>>)
    ensures
        first_occurrences(s).to_set() == s.to_set(),
        first_occurrences(s).no_duplicates(),
    decreases s.len(),
{
    if s.len() == 0 {
        assert(s.to_set() =~= Set::empty());
        assert(first_occurrences(s).to_set() =~= Set::empty());
    } else {
        let rest = s.drop_last();
        lemma_first_occurrences(rest);
        assert(s == rest.push(s.last()));
        lemma_push_to_set(rest, s.last());
        let fo = first_occurrences(rest);
        lemma_push_to_set(fo, s.last());
        if fo.contains(s.last()) {
            assert(s.to_set() =~= fo.to_set());
        } else {
            assert(first_occurrences(s).to_set() =~= s.to_set());
        }
    }
}

/// The distinct names of `names`, each once, in the order of their first
/// occurrence.
fn distinct_names(names: &Vec<String>) -> (out: Vec<String>)
    ensures
        string_views(out@) == first_occurrences(string_views(names@)),
        string_views(out@).no_duplicates(),
        string_views(out@).to_set() == string_views(names@).to_set(),
{
    let mut out: Vec<String> = Vec::new();
    let mut i: usize = 0;
    while i < names.len()
        invariant
            i <= names@.len(),
            string_views(out@).no_duplicates(),
            string_views(out@).to_set() == string_views(names@.take(i as int)).to_set(),
            string_views(out@) == first_occurrences(string_views(names@.take(i as int))),
        decreases names@.len() - i,
    {
        let mut seen = false;
        let mut j: usize = 0;
        while j < out.len()
            invariant
                i < names@.len(),
                j <= out@.len(),
                seen <==> exists|k: int| 0 <= k < j && out@[k]@ == names@[i as int]@,
            decreases out@.len() - j,
        {
            if out[j] == names[i] {
                seen = true;
            }
            j = j + 1;
        }
        let ghost before = out@;
        if !seen {
            out.push(names[i].clone());
        }
        proof {
            let x = names@[i as int]@;
            assert(names@.take(i + 1) == names@.take(i as int).push(names@[i as int]));
            assert(string_views(names@.take(i + 1)) =~= string_views(names@.take(i as int)).push(x));
            lemma_push_to_set(string_views(names@.take(i as int)), x);
            assert(string_views(names@.take(i + 1)).drop_last() =~= string_views(names@.take(i as int)));
            if seen {
                let k = choose|k: int| 0 <= k < out@.len() && out@[k]@ == x;
                assert(string_views(out@)[k] == x);
                assert(string_views(out@).to_set().contains(x));
                assert(string_views(out@).to_set() =~= string_views(names@.take(i + 1)).to_set());
            } else {
                assert(string_views(out@) =~= string_views(before).push(x));
                lemma_push_to_set(string_views(before), x);
                assert(!string_views(before).contains(x)) by {
                    if string_views(before).contains(x) {
                        let k = choose|k: int|
                            0 <= k < string_views(before).len() && string_views(before)[k] == x;
                        assert(before[k]@ == x);
                    }
                }
                assert(string_views(out@).to_set() =~= string_views(names@.take(i + 1)).to_set());
            }
        }
        i = i + 1;
    }
    assert(names@.take(names@.len() as int) == names@);
    out
}

/// The subscribers of a user, given the subscriber list stored with the
/// user (`None` when there is no such user): each subscriber once, in the
/// order of their first occurrence in the list.
pub fn get_subscribers(stored: Option<Vec<String>>) -> (res: Option<Vec<String>>)
    ensures
        stored is None <==> res is None,
        res matches Some(set) ==> {
            &&& string_views(set@) == first_occurrences(string_views(stored->Some_0@))
            &&& string_views(set@).no_duplicates()
            &&& string_views(set@).to_set() == string_views(stored->Some_0@).to_set()
        },
{
    match stored {
        Some(names) => Some(distinct_names(&names)),
        None => None,
    }
}

/// The `Set-Cookie` value that hands `token` to the client.
pub open spec fn session_cookie_spec(token: Seq<char>) -> Seq<char> {
    "token="@ + token + "; SameSite=lax; path=/"@
}

/// Builds the `Set-Cookie` value that hands `token` to the client.
pub fn session_cookie(token: &str) -> (cookie: String)
    ensures
        cookie@ == session_cookie_spec(token@),
{
    let mut cookie = String::from_str("token=");
    cookie.append(token);
    cookie.append("; SameSite=lax; path=/");
    cookie
}

/// The session cookie names exactly the token it is given, whatever the
/// token: it is `token=`, then the token itself, whole and unchanged, then
/// `; SameSite=lax; path=/`.
pub proof fn law_session_cookie_names_the_token(token: Seq<char>)
    ensures
        session_cookie_spec(token).len() == token.len() + 28,
        session_cookie_spec(token).take(6) == "token="@,
        session_cookie_spec(token).subrange(6, 6 + token.len() as int) == token,
        session_cookie_spec(token).skip(6 + token.len() as int) == "; SameSite=lax; path=/"@,
{
    reveal_strlit("token=");
    reveal_strlit("; SameSite=lax; path=/");
    let a = "token="@;
    let b = "; SameSite=lax; path=/"@;
    assert(a.len() == 6);
    assert(b.len() == 22);
    let c = session_cookie_spec(token);
    assert(c == a + token + b);
    assert(c.take(6) =~= a);
    assert(c.subrange(6, 6 + token.len() as int) =~= token);
    assert(c.skip(6 + token.len() as int) =~= b);
}

/// Turning bytes into a token keeps one character per byte, in order,
/// each with the byte's code.
pub proof fn law_bytes_as_chars_keeps_each_byte(bytes: Seq<u8>)
    ensures
        bytes_as_chars(bytes).len() == bytes.len(),
        forall|i: int| 0 <= i < bytes.len() ==> (#[trigger] bytes_as_chars(bytes)[i]) as int
            == bytes[i] as int,
{
}

/// Reading more of a list only adds names at the end: the distinct names
/// of any prefix of `s` are a prefix of the distinct names of `s`. With
/// `lemma_first_occurrences` this fixes the order: names come in the
/// order of their first occurrence.
pub proof fn law_first_occurrences_grow_at_the_end(s: Seq<Seq<char>>, k: int)
    requires
        0 <= k <= s.len(),
    ensures
        first_occurrences(s.take(k)).len() <= first_occurrences(s).len(),
        first_occurrences(s.take(k)) == first_occurrences(s).take(
            first_occurrences(s.take(k)).len() as int,
        ),
    decreases s.len() - k,
{
    if k == s.len() {
        assert(s.take(k) =~= s);
        assert(first_occurrences(s).take(first_occurrences(s).len() as int) =~= first_occurrences(s));
    } else {
        law_first_occurrences_grow_at_the_end(s, k + 1);
        let t = s.take(k + 1);
        assert(t.drop_last() =~= s.take(k));
        let a = first_occurrences(s.take(k));
        let b = first_occurrences(t);
        assert(b == a || b == a.push(t.last()));
        assert(b.take(a.len() as int) =~= a);
        assert(first_occurrences(s).take(a.len() as int) =~= b.take(a.len() as int));
    }
}

/// What a token check says: a found session gives its user and the
/// message "no token"; no session gives no user and "token is not valid";
/// the two messages differ.
pub proof fn law_token_check_messages()
    ensures
        no_token_message() == "no token"@,
        invalid_token_message() == "token is not valid"@,
        no_token_message() != invalid_token_message(),
{
    reveal_strlit("no token");
    reveal_strlit("token is not valid");
    assert("no token"@.len() == 8);
    assert("token is not valid"@.len() == 18);
}

} // verus!
