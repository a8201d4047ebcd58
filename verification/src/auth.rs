//! Bearer-token authentication: the token a request must carry, and how it is
//! read from the request's `Authorization` header.

use vstd::prelude::*;
use vstd::string::*;

verus! {

/// Whether the character is white space, as Unicode defines it: one of the
/// 25 code points with the property `White_Space`.
pub open spec fn is_whitespace(c: char) -> bool {
    ||| ('\u{9}' <= c && c <= '\u{d}')
    ||| c == ' '
    ||| c == '\u{85}'
    ||| c == '\u{a0}'
    ||| c == '\u{1680}'
    ||| ('\u{2000}' <= c && c <= '\u{200a}')
    ||| c == '\u{2028}'
    ||| c == '\u{2029}'
    ||| c == '\u{202f}'
    ||| c == '\u{205f}'
    ||| c == '\u{3000}'
}

/// Tells whether a character is white space.
///
/// Calls `char::is_whitespace`, which is true of the characters with the
/// Unicode property `White_Space` and of no others.
#[verifier::external_body]
fn char_is_whitespace(c: char) -> (b: bool)
    ensures
        b == is_whitespace(c),
{
    c.is_whitespace()
}

/// Whether the character is a letter or a digit of ASCII.
pub open spec fn is_alphanumeric(c: char) -> bool {
    ||| ('0' <= c && c <= '9')
    ||| ('a' <= c && c <= 'z')
    ||| ('A' <= c && c <= 'Z')
}

/// Draws `len` random letters and digits.
///
/// Calls `rand::distributions::DistString::sample_string` on
/// `rand::distributions::Alphanumeric` with the generator
/// `rand::thread_rng()`. That distribution draws from the letters and digits
/// of ASCII, so the contract claims the length and the alphabet and nothing
/// of the characters drawn.
#[verifier::external_body]
fn random_alphanumeric(len: usize) -> (s: String)
    ensures
        s@.len() == len,
        forall|i: int| 0 <= i < s@.len() ==> is_alphanumeric(#[trigger] s@[i]),
{
    rand::distributions::DistString::sample_string(
        &rand::distributions::Alphanumeric,
        &mut rand::thread_rng(),
        len,
    )
}

/// A fresh random token of 32 letters and digits.
pub fn random_token() -> (token: String)
    ensures
        token@.len() == 32,
        forall|i: int| 0 <= i < token@.len() ==> is_alphanumeric(#[trigger] token@[i]),
{
    random_alphanumeric(32)
}

/// The end of `s` after its last white space: all of `s` where it has none,
/// and nothing where it ends in white space.
pub open spec fn last_word(s: Seq<char>) -> Seq<char>
    decreases s.len(),
{
    if s.len() == 0 || is_whitespace(s.last()) {
        Seq::<char>::empty()
    } else {
        last_word(s.drop_last()).push(s.last())
    }
}

/// `last_word` starts where the white space ends.
pub proof fn lemma_last_word_is_suffix(s: Seq<char>, start: int)
    requires
        0 <= start <= s.len(),
        forall|j: int| start <= j < s.len() ==> !is_whitespace(#[trigger] s[j]),
        start == 0 || is_whitespace(s[start - 1]),
    ensures
        last_word(s) == s.subrange(start, s.len() as int),
    decreases s.len(),
{
    if start == s.len() {
        assert(s.subrange(start, s.len() as int) =~= Seq::<char>::empty());
    } else {
        let front = s.drop_last();
        assert forall|j: int| start <= j < front.len() implies !is_whitespace(
            #[trigger] front[j],
        ) by {
            assert(front[j] == s[j]);
        }
        lemma_last_word_is_suffix(front, start);
        assert(front.subrange(start, front.len() as int).push(s.last()) =~= s.subrange(
            start,
            s.len() as int,
        ));
    }
}

/// The token that an `Authorization` header carries: what follows its last
/// white space. A request without the header carries none.
pub fn extract_bearer_token(header: Option<&str>) -> (token: Option<String>)
    ensures
        match header {
            Some(value) => token matches Some(t) && t@ == last_word(value@),
            None => token is None,
        },
{
    match header {
        None => None,
        Some(value) => {
            let n = value.unicode_len();
            let mut start: usize = n;
            while start > 0 && !char_is_whitespace(value.get_char(start - 1))
                invariant
                    n == value@.len(),
                    start <= n,
                    forall|j: int| start <= j < n ==> !is_whitespace(#[trigger] value@[j]),
                decreases start,
            {
                start -= 1;
            }
            proof {
                lemma_last_word_is_suffix(value@, start as int);
            }
            Some(String::from_str(value.substring_char(start, n)))
        },
    }
}

/// Lets through the requests that carry one fixed token.
pub struct AuthMiddleware {
    token: String,
}

impl AuthMiddleware {
    /// The token that requests must carry.
    pub closed spec fn token(&self) -> Seq<char> {
        self.token@
    }

    /// Whether a request with this `Authorization` header is let through:
    /// it is where the header is there and carries the token.
    pub fn authorizes(&self, header: Option<&str>) -> (allowed: bool)
        ensures
            allowed == (header matches Some(value) && last_word(value@) == self.token()),
    {
        match extract_bearer_token(header) {
            Some(token) => token == self.token,
            None => false,
        }
    }
}

/// The middleware that lets through the requests that carry `token`.
pub fn middleware(token: String) -> (m: AuthMiddleware)
    ensures
        m.token() == token@,
{
    AuthMiddleware { token }
}

} // verus!
