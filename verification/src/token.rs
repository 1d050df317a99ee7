//! Random tokens handed to clients as session and refresh tokens.

use vstd::prelude::*;
use rand::rngs::ThreadRng;
use rand::Rng;

verus! {

/// The random number generator of the current thread, from `rand`.
#[verifier::external_type_specification]
#[verifier::external_body]
pub struct ExThreadRng(ThreadRng);

/// Number of characters in a generated token.
pub const TOKEN_SIZE: usize = 32;

/// Number of characters a token is drawn from.
pub const TOKEN_CHARSET_LEN: usize = 62;

/// The byte at position `i` of the token alphabet: the lower-case letters,
/// then the upper-case letters, then the digits, each in ASCII order.
pub open spec fn token_charset_byte(i: int) -> u8 {
    if i < 26 {
        (97 + i) as u8
    } else if i < 52 {
        (65 + (i - 26)) as u8
    } else {
        (48 + (i - 52)) as u8
    }
}

/// The token alphabet.
pub open spec fn token_charset() -> Seq<u8> {
    Seq::new(TOKEN_CHARSET_LEN as nat, |i: int| token_charset_byte(i))
}

/// Whether a character is an ASCII letter or digit.
pub open spec fn is_token_char(c: char) -> bool {
    ||| ('a' <= c && c <= 'z')
    ||| ('A' <= c && c <= 'Z')
    ||| ('0' <= c && c <= '9')
}

/// Whether a character is one of the bytes of `charset`.
pub open spec fn in_charset(c: char, charset: Seq<u8>) -> bool {
    exists|j: int| 0 <= j < charset.len() && c == (#[trigger] charset[j] as char)
}

/// Whether every character of `s` is one of the bytes of `charset`.
pub open spec fn drawn_from(s: Seq<char>, charset: Seq<u8>) -> bool {
    forall|i: int| 0 <= i < s.len() ==> in_charset(#[trigger] s[i], charset)
}

/// `rand::rng`: the generator of the current thread. Nothing is promised of
/// its state.
#[verifier::external_body]
fn thread_rng() -> ThreadRng {
    rand::rng()
}

/// `Rng::random_range` over `0..bound`: a number below `bound`, drawn at
/// random. The range is not empty, on which the call would panic.
#[verifier::external_body]
fn random_below(rng: &mut ThreadRng, bound: usize) -> (r: usize)
    requires
        bound > 0,
    ensures
        r < bound,
{
    rng.random_range(0..bound)
}

/// `String::push`: the string with the character appended.
#[verifier::external_body]
fn push_char(s: &mut String, c: char)
    ensures
        final(s)@ == old(s)@.push(c),
{
    s.push(c)
}

/// The token alphabet as bytes.
fn token_charset_bytes() -> (v: Vec<u8>)
    ensures
        v@ == token_charset(),
{
    let mut v: Vec<u8> = Vec::new();
    let mut i: usize = 0;
    while i < TOKEN_CHARSET_LEN
        invariant
            i <= TOKEN_CHARSET_LEN,
            v@.len() == i,
            forall|j: int| 0 <= j < i ==> v@[j] == token_charset_byte(j),
        decreases TOKEN_CHARSET_LEN - i,
    {
        let b: u8 = if i < 26 {
            97 + i as u8
        } else if i < 52 {
            65 + (i - 26) as u8
        } else {
            48 + (i - 52) as u8
        };
        v.push(b);
        i = i + 1;
    }
    assert(v@ =~= token_charset());
    v
}

/// The token spelled by the given draws: character `i` is the alphabet
/// byte at position `draws[i]`.
pub fn token_from_draws(charset: &[u8], draws: &Vec<usize>) -> (s: String)
    requires
        forall|i: int| 0 <= i < draws@.len() ==> draws@[i] < charset@.len(),
    ensures
        s@.len() == draws@.len(),
        forall|i: int| 0 <= i < draws@.len() ==> s@[i] == (charset@[draws@[i] as int] as char),
{
    let mut s = String::new();
    let mut n: usize = 0;
    while n < draws.len()
        invariant
            n <= draws@.len(),
            forall|i: int| 0 <= i < draws@.len() ==> draws@[i] < charset@.len(),
            s@.len() == n,
            forall|i: int| 0 <= i < n ==> s@[i] == (charset@[draws@[i] as int] as char),
        decreases draws@.len() - n,
    {
        let c = charset[draws[n]] as char;
        push_char(&mut s, c);
        n = n + 1;
    }
    s
}

/// A string spelled from positions into an alphabet is drawn from it.
proof fn lemma_spelled_is_drawn_from(s: Seq<char>, charset: Seq<u8>, draws: Seq<usize>)
    requires
        s.len() == draws.len(),
        forall|i: int| 0 <= i < draws.len() ==> draws[i] < charset.len(),
        forall|i: int| 0 <= i < draws.len() ==> s[i] == (charset[draws[i] as int] as char),
    ensures
        drawn_from(s, charset),
{
    assert forall|i: int| 0 <= i < s.len() implies in_charset(#[trigger] s[i], charset) by {
        let j = draws[i] as int;
        assert(0 <= j < charset.len());
        assert(s[i] == (charset[j] as char));
    }
}

/// A random string of `len` characters, each drawn from `charset`: `len`
/// positions are drawn, then spelled.
fn generate_token(charset: &[u8], len: usize) -> (s: String)
    requires
        len > 0 ==> charset@.len() > 0,
    ensures
        s@.len() == len,
        drawn_from(s@, charset@),
{
    let mut rng = thread_rng();
    let charset_len = charset.len();
    let mut draws: Vec<usize> = Vec::new();
    while draws.len() < len
        invariant
            draws@.len() <= len,
            charset_len == charset@.len(),
            draws@.len() < len ==> charset_len > 0,
            forall|i: int| 0 <= i < draws@.len() ==> draws@[i] < charset@.len(),
        decreases len - draws@.len(),
    {
        let k = random_below(&mut rng, charset_len);
        draws.push(k);
    }
    let s = token_from_draws(charset, &draws);
    proof {
        lemma_spelled_is_drawn_from(s@, charset@, draws@);
    }
    s
}

/// A fresh random token: 32 characters, each an ASCII letter or digit.
pub fn generate() -> (token: String)
    ensures
        token@.len() == TOKEN_SIZE,
        forall|i: int| 0 <= i < token@.len() ==> is_token_char(#[trigger] token@[i]),
        drawn_from(token@, token_charset()),
{
    let charset = token_charset_bytes();
    let token = generate_token(charset.as_slice(), TOKEN_SIZE);
    assert forall|i: int| 0 <= i < token@.len() implies is_token_char(#[trigger] token@[i]) by {
        assert(in_charset(token@[i], token_charset()));
        let j = choose|j: int| 0 <= j < token_charset().len() && token@[i] == (token_charset()[j] as char);
        assert(token_charset()[j] == token_charset_byte(j));
    }
    token
}

} // verus!
