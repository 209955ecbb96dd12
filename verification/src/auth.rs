//! The authentication message that a client sends first on a new stream: a
//! JSON object with the shared secret under `pw` and a random alphanumeric
//! token of 1 to 254 characters under `rand`.

use vstd::prelude::*;
use vstd::string::*;
use rand::Rng;

verus! {

/// A character that the random token is drawn from: an ASCII digit or letter.
pub open spec fn is_token_char(c: char) -> bool {
    (48 <= c as u32 <= 57) || (65 <= c as u32 <= 90) || (97 <= c as u32 <= 122)
}

/// A random token drawn with a bound of `max_length`: between 1 and
/// `max_length - 1` characters, each an ASCII digit or letter.
pub open spec fn is_token(s: Seq<char>, max_length: nat) -> bool {
    &&& 1 <= s.len() < max_length
    &&& forall|i: int| 0 <= i < s.len() ==> is_token_char(#[trigger] s[i])
}

/// A character that JSON writes as it is inside a string: not a control
/// character below U+0020, not a quote and not a backslash.
pub open spec fn is_plain_json_char(c: char) -> bool {
    c as u32 >= 0x20 && c != '"' && c != '\\'
}

/// The JSON string literal that `serde_json` writes for `s`.
pub uninterp spec fn json_string_of(s: Seq<char>) -> Seq<char>;

/// The authentication message for a secret and a token.
pub open spec fn auth_json(pw: Seq<char>, token: Seq<char>) -> Seq<char> {
    "{\"pw\":"@ + json_string_of(pw) + ",\"rand\":"@ + json_string_of(token) + "}"@
}

/// `rand::Rng::gen_range(1..max_length)` on the thread's generator. The
/// contract claims only that the result lies in the range, which is what the
/// crate documents; which value comes is left open. The call panics on an
/// empty range, which `requires` rules out.
#[verifier::external_body]
fn random_length(max_length: usize) -> (n: usize)
    requires
        1 < max_length,
    ensures
        1 <= n < max_length,
{
    rand::thread_rng().gen_range(1..max_length)
}

/// One sample of `rand::distributions::Alphanumeric` on the thread's
/// generator, as a `char`. The crate's source draws it from the 62 ASCII
/// digits and letters; which one comes is left open.
#[verifier::external_body]
fn random_token_char() -> (c: char)
    ensures
        is_token_char(c),
{
    char::from(rand::thread_rng().sample(rand::distributions::Alphanumeric))
}

/// `String::push`: appends one character.
#[verifier::external_body]
fn push_char(s: &mut String, c: char)
    ensures
        final(s)@ == old(s)@.push(c),
{
    s.push(c)
}

/// `serde_json::to_string` on a string slice: the JSON string literal for it,
/// named `json_string_of`. Beside the name the contract states what the
/// crate's escaping table shows: a string without control characters, quotes
/// or backslashes is written between two quotes as it is. Serialising a
/// string into memory does not fail, so the result is unwrapped.
#[verifier::external_body]
fn json_string(s: &str) -> (j: String)
    ensures
        j@ == json_string_of(s@),
        (forall|i: int| 0 <= i < s@.len() ==> is_plain_json_char(#[trigger] s@[i])) ==> j@
            == seq!['"'] + s@ + seq!['"'],
{
    serde_json::to_string(s).unwrap()
}

/// `n` is a value that the range draw of `random_length(max_length)` returns.
pub closed spec fn drawn_length(max_length: usize, n: usize) -> bool {
    call_ensures(random_length, (max_length,), n)
}

/// `c` is a value that the draw of `random_token_char()` returns.
pub closed spec fn drawn_char(c: char) -> bool {
    call_ensures(random_token_char, (), c)
}

/// A length the range draw returned lies in `1..max_length`.
pub proof fn lemma_drawn_length_in_range(max_length: usize, n: usize)
    requires
        drawn_length(max_length, n),
    ensures
        1 <= n < max_length,
{
}

/// A character an Alphanumeric draw returned is an ASCII digit or letter.
pub proof fn lemma_drawn_char_is_token_char(c: char)
    requires
        drawn_char(c),
    ensures
        is_token_char(c),
{
}

/// A random token of 1 to `max_length - 1` ASCII digits and letters.
pub fn generate_random_string(max_length: usize) -> (s: String)
    requires
        1 < max_length,
    ensures
        is_token(s@, max_length as nat),
        drawn_length(max_length, s@.len() as usize),
        forall|i: int| 0 <= i < s@.len() ==> drawn_char(#[trigger] s@[i]),
{
    let length = random_length(max_length);
    let mut s = String::new();
    let mut i: usize = 0;
    while i < length
        invariant
            i <= length,
            1 <= length < max_length,
            s@.len() == i,
            forall|j: int| 0 <= j < i ==> is_token_char(#[trigger] s@[j]),
            forall|j: int| 0 <= j < i ==> drawn_char(#[trigger] s@[j]),
            drawn_length(max_length, length),
        decreases length - i,
    {
        let c = random_token_char();
        push_char(&mut s, c);
        i = i + 1;
    }
    s
}

/// The content of an authentication message.
pub struct Auth {
    pub pw: String,
    pub rand: String,
}

impl Auth {
    /// The message as JSON: `{"pw":<pw>,"rand":<rand>}`, each value a JSON string.
    pub fn to_json(&self) -> (j: String)
        ensures
            j@ == auth_json(self.pw@, self.rand@),
            j@ == "{\"pw\":"@ + json_string_of(self.pw@) + ",\"rand\":"@ + json_string_of(
                self.rand@,
            ) + "}"@,
            (forall|i: int| 0 <= i < self.rand@.len() ==> is_plain_json_char(#[trigger] self.rand@[i]))
                ==> json_string_of(self.rand@) == seq!['"'] + self.rand@ + seq!['"'],
    {
        let pw_json = json_string(self.pw.as_str());
        let rand_json = json_string(self.rand.as_str());
        let mut j = String::from_str("{\"pw\":");
        j.append(pw_json.as_str());
        j.append(",\"rand\":");
        j.append(rand_json.as_str());
        j.append("}");
        j
    }
}

/// The message that opens a stream: the secret `pw` and a fresh random token
/// of 1 to 254 ASCII digits and letters, as JSON.
pub fn generate_auth(pw: String) -> (msg: String)
    ensures
        exists|token: Seq<char>|
            #![trigger json_string_of(token)]
            {
                &&& is_token(token, 255)
                &&& drawn_length(255, token.len() as usize)
                &&& forall|i: int| 0 <= i < token.len() ==> drawn_char(#[trigger] token[i])
                &&& json_string_of(token) == seq!['"'] + token + seq!['"']
                &&& msg@ == "{\"pw\":"@ + json_string_of(pw@) + ",\"rand\":"@ + json_string_of(
                    token,
                ) + "}"@
                &&& msg@ == auth_json(pw@, token)
            },
{
    let token = generate_random_string(255);
    let auth = Auth { pw, rand: token };
    let msg = auth.to_json();
    proof {
        assert forall|i: int| 0 <= i < auth.rand@.len() implies is_plain_json_char(
            #[trigger] auth.rand@[i],
        ) by {
            assert(is_token_char(auth.rand@[i]));
        }
        assert(auth_json(pw@, auth.rand@) == msg@);
        assert(json_string_of(auth.rand@) == seq!['"'] + auth.rand@ + seq!['"']);
    }
    msg
}

/// The authentication message holds the whole secret: after the six
/// characters `{"pw":` comes the JSON string of the secret, then the eight
/// characters `,"rand":`, then the JSON string of the token, then `}`.
pub proof fn lemma_auth_json_carries_secret(pw: Seq<char>, token: Seq<char>)
    ensures
        ({
            let m = auth_json(pw, token);
            let jp = json_string_of(pw);
            let jt = json_string_of(token);
            let a = jp.len() as int;
            let b = jt.len() as int;
            &&& m.len() == 6 + a + 8 + b + 1
            &&& m.subrange(0, 6) == seq!['{', '"', 'p', 'w', '"', ':']
            &&& m.subrange(6, 6 + a) == jp
            &&& m.subrange(6 + a, 6 + a + 8) == seq![',', '"', 'r', 'a', 'n', 'd', '"', ':']
            &&& m.subrange(6 + a + 8, 6 + a + 8 + b) == jt
            &&& m[m.len() - 1] == '}'
        }),
{
    reveal_strlit("{\"pw\":");
    reveal_strlit(",\"rand\":");
    reveal_strlit("}");
    let m = auth_json(pw, token);
    let jp = json_string_of(pw);
    let jt = json_string_of(token);
    let a = jp.len() as int;
    let b = jt.len() as int;
    assert(m.subrange(0, 6) =~= seq!['{', '"', 'p', 'w', '"', ':']);
    assert(m.subrange(6, 6 + a) =~= jp);
    assert(m.subrange(6 + a, 6 + a + 8) =~= seq![',', '"', 'r', 'a', 'n', 'd', '"', ':']);
    assert(m.subrange(6 + a + 8, 6 + a + 8 + b) =~= jt);
}

} // verus!
