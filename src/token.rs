use crate::error::TokenParseError;
use vstd::prelude::*;

verus! {

/// `i` is the position of the first `c` in `s`.
pub open spec fn first_at(s: Seq<char>, c: char, i: int) -> bool {
    0 <= i < s.len() && s[i] == c && forall|j: int| 0 <= j < i ==> s[j] != c
}

/// `s` holds at least one `c`.
pub open spec fn has_char(s: Seq<char>, c: char) -> bool {
    exists|i: int| 0 <= i < s.len() && s[i] == c
}

/// The text after the character at position `i`.
pub open spec fn after(s: Seq<char>, i: int) -> Seq<char> {
    s.subrange(i + 1, s.len() as int)
}

/// A credential holds a `:`, and after its first `:` a `.`.
pub open spec fn is_credential(s: Seq<char>) -> bool {
    exists|i: int| first_at(s, ':', i) && has_char(after(s, i), '.')
}

/// `e` is the environment named by the credential `s`: the text between the
/// first `:` and the first `.` after it.
pub open spec fn is_environment_of(s: Seq<char>, e: Seq<char>) -> bool {
    exists|i: int, k: int|
        first_at(s, ':', i) && first_at(after(s, i), '.', k) && e == after(s, i).subrange(0, k)
}

proof fn lemma_first_unique(s: Seq<char>, c: char, i: int, j: int)
    requires
        first_at(s, c, i),
        first_at(s, c, j),
    ensures
        i == j,
{
    if i < j {
        assert(s[i] != c);
    } else if j < i {
        assert(s[j] != c);
    }
}

/// The position of the first `c` in `s`, if any.
fn find_char(s: &str, c: char) -> (r: Option<usize>)
    ensures
        match r {
            Some(i) => first_at(s@, c, i as int),
            None => !has_char(s@, c),
        },
{
    let n = s.unicode_len();
    let mut i: usize = 0;
    while i < n
        invariant
            n == s@.len(),
            i <= n,
            forall|j: int| 0 <= j < i ==> s@[j] != c,
        decreases n - i,
    {
        if s.get_char(i) == c {
            return Some(i);
        }
        i = i + 1;
    }
    None
}

/// An API credential: the secret as given, and the environment it names.
#[derive(Debug)]
pub struct UnleashToken {
    pub token: String,
    pub environment: String,
}

impl UnleashToken {
    /// Parses a credential of the shape `<secret>:<environment>.<rest>`. The
    /// whole text is kept as the secret; the environment is the text between
    /// the first `:` and the first `.` after it.
    pub fn from_str(s: &str) -> (r: Result<UnleashToken, TokenParseError>)
        ensures
            r is Ok <==> is_credential(s@),
            r matches Ok(t) ==> t.token@ == s@ && is_environment_of(s@, t.environment@),
    {
        match find_char(s, ':') {
            None => {
                proof {
                    if is_credential(s@) {
                        let i = choose|i: int| first_at(s@, ':', i) && has_char(after(s@, i), '.');
                        assert(s@[i] == ':');
                    }
                }
                Err(TokenParseError)
            },
            Some(i) => {
                let n = s.unicode_len();
                let rest = s.substring_char(i + 1, n);
                assert(rest@ == after(s@, i as int));
                match find_char(rest, '.') {
                    None => {
                        proof {
                            if is_credential(s@) {
                                let j = choose|j: int|
                                    first_at(s@, ':', j) && has_char(after(s@, j), '.');
                                lemma_first_unique(s@, ':', i as int, j);
                            }
                        }
                        Err(TokenParseError)
                    },
                    Some(k) => {
                        let environment = String::from_str(rest.substring_char(0, k));
                        assert(has_char(after(s@, i as int), '.')) by {
                            assert(rest@[k as int] == '.');
                        }
                        Ok(UnleashToken { token: String::from_str(s), environment })
                    },
                }
            },
        }
    }

    /// Parses an owned credential string, as `from_str` does.
    pub fn try_from(value: String) -> (r: Result<UnleashToken, TokenParseError>)
        ensures
            r is Ok <==> is_credential(value@),
            r matches Ok(t) ==> t.token@ == value@ && is_environment_of(value@, t.environment@),
    {
        UnleashToken::from_str(value.as_str())
    }
}

} // verus!
