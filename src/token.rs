//! The textual form in which tokens travel: `"<type> <token>"`.

use vstd::prelude::*;
use crate::text::{find_char, first_from, slice, same_text};

verus! {

/// A token together with its scheme, as carried in an `Authorization` header.
#[derive(Debug)]
pub struct AuthToken {
    pub access_token: String,
    pub token_type: String,
}

/// The text of `s` before its first space.
pub open spec fn scheme_part(s: Seq<char>) -> Seq<char> {
    s.subrange(0, first_from(s, ' ', 0))
}

/// The text of `s` between its first space and the next space (or the end).
pub open spec fn token_part(s: Seq<char>) -> Seq<char> {
    let i = first_from(s, ' ', 0);
    s.subrange(i + 1, first_from(s, ' ', i + 1))
}

/// `s` holds a space.
pub open spec fn has_space(s: Seq<char>) -> bool {
    exists|i: int| 0 <= i < s.len() && s[i] == ' '
}

impl AuthToken {
    /// A bearer token.
    pub fn new(access_token: String) -> (r: Self)
        ensures
            r.access_token@ == access_token@,
            r.token_type@ == "Bearer"@,
    {
        AuthToken { access_token, token_type: String::from_str("Bearer") }
    }

    /// Reads `"<type> <token>"`: the type is the text before the first space,
    /// the token the text after it, up to the next space.
    pub fn from_string(string: String) -> (r: Self)
        requires
            has_space(string@),
        ensures
            r.token_type@ == scheme_part(string@),
            r.access_token@ == token_part(string@),
    {
        let s = string.as_str();
        let i = find_char(s, ' ', 0);
        proof {
            let k = choose|k: int| 0 <= k < string@.len() && string@[k] == ' ';
            assert(i <= k);
        }
        let j = find_char(s, ' ', i + 1);
        AuthToken { token_type: slice(s, 0, i), access_token: slice(s, i + 1, j) }
    }

    /// Like `from_string`, but answers `None` where the text holds no space.
    pub fn parse(s: &str) -> (r: Option<Self>)
        ensures
            r is None <==> !has_space(s@),
            r matches Some(t) ==> t.token_type@ == scheme_part(s@) && t.access_token@
                == token_part(s@),
    {
        let i = find_char(s, ' ', 0);
        if i == s.unicode_len() {
            proof {
                assert forall|k: int| 0 <= k < s@.len() implies s@[k] != ' ' by {}
            }
            None
        } else {
            assert(s@[i as int] == ' ');
            let j = find_char(s, ' ', i + 1);
            Some(AuthToken { token_type: slice(s, 0, i), access_token: slice(s, i + 1, j) })
        }
    }

    /// The header text: the type, a space, and the token.
    pub fn to_string(self) -> (r: String)
        ensures
            r@ == self.token_type@ + " "@ + self.access_token@,
    {
        let mut string = self.token_type;
        string.append(" ");
        string.append(self.access_token.as_str());
        string
    }

    /// The empty token.
    pub fn default() -> (r: Self)
        ensures
            r.access_token@.len() == 0,
            r.token_type@.len() == 0,
    {
        AuthToken { access_token: String::new(), token_type: String::new() }
    }

    /// Whether this is a bearer token.
    pub fn is_bearer(&self) -> (r: bool)
        ensures
            r == (self.token_type@ == "Bearer"@),
    {
        same_text(self.token_type.as_str(), "Bearer")
    }
}

/// The token of a header value that starts with `"Bearer "`: all that
/// follows that prefix.
pub open spec fn bearer_of(h: Seq<char>) -> Option<Seq<char>> {
    if h.len() >= 7 && h.subrange(0, 7) == "Bearer "@ {
        Some(h.subrange(7, h.len() as int))
    } else {
        None
    }
}

/// The token of an `Authorization` header value `"Bearer <token>"`: the
/// scheme is the text before the first space, the token all that follows it.
pub fn bearer_token(header: &str) -> (r: Option<String>)
    ensures
        (r is Some) == (bearer_of(header@) is Some),
        r is Some ==> r.unwrap()@ == bearer_of(header@)->0,
        forall|t: Seq<char>| header@ == "Bearer "@ + t ==> (r matches Some(x) && x@ == t),
{
    proof {
        reveal_strlit("Bearer ");
        reveal_strlit("Bearer");
    }
    let n = header.unicode_len();
    let i = find_char(header, ' ', 0);
    proof {
        assert("Bearer "@ =~= "Bearer"@.push(' '));
        assert forall|t: Seq<char>| header@ == "Bearer "@ + t implies i == 6 && header@.subrange(
            0,
            6,
        ) == "Bearer"@ by {
            assert(header@[6] == ' ');
            assert(header@.subrange(0, 6) =~= "Bearer"@);
        }
    }
    if i == n {
        proof {
            if header@.len() >= 7 && header@.subrange(0, 7) == "Bearer "@ {
                let t = header@.subrange(7, header@.len() as int);
                assert(header@ =~= "Bearer "@ + t);
            }
        }
        return None;
    }
    let scheme = slice(header, 0, i);
    if !same_text(scheme.as_str(), "Bearer") {
        proof {
            if header@.len() >= 7 && header@.subrange(0, 7) == "Bearer "@ {
                let t = header@.subrange(7, header@.len() as int);
                assert(header@ =~= "Bearer "@ + t);
            }
        }
        return None;
    }
    let t = slice(header, i + 1, n);
    proof {
        assert(i == 6);
        assert(header@ =~= header@.subrange(0, 6) + seq![' '] + t@);
        assert(header@ =~= "Bearer "@ + t@);
        assert(header@.subrange(0, 7) =~= "Bearer "@);
        assert(t@ =~= header@.subrange(7, header@.len() as int));
        assert forall|u: Seq<char>| header@ == "Bearer "@ + u implies t@ == u by {
            assert(u =~= header@.subrange(7, header@.len() as int));
        }
    }
    Some(t)
}

} // verus!
