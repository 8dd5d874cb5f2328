use vstd::prelude::*;

verus! {

use vstd::string::StringSliceAdditionalSpecFns;
use crate::identity::{all_hex, blake3_hex};

/// The authenticated caller, as the bearer-token check yields it.
pub struct AuthExtractor {
    pub consumer_id: i32,
}

/// The position of the first space of `s`, if any.
pub open spec fn spec_first_space(s: Seq<char>) -> Option<int>
    decreases s.len(),
{
    if s.len() == 0 {
        None
    } else if s[0] == ' ' {
        Some(0int)
    } else {
        match spec_first_space(s.drop_first()) {
            Some(k) => Some(k + 1),
            None => None,
        }
    }
}

/// The token of an Authorization header: the second space-separated part,
/// that is, what stands between the first space and the next one or the
/// end. `None` where the header has no space at all.
pub open spec fn spec_bearer_token(s: Seq<char>) -> Option<Seq<char>> {
    match spec_first_space(s) {
        None => None,
        Some(i) => {
            let rest = s.skip(i + 1);
            match spec_first_space(rest) {
                None => Some(rest),
                Some(j) => Some(rest.take(j)),
            }
        },
    }
}

proof fn lemma_first_space_at(s: Seq<char>, i: int)
    requires
        0 <= i < s.len(),
        s[i] == ' ',
        forall|k: int| 0 <= k < i ==> s[k] != ' ',
    ensures
        spec_first_space(s) == Some(i),
    decreases i,
{
    if i > 0 {
        lemma_first_space_at(s.drop_first(), i - 1);
    }
}

proof fn lemma_no_space(s: Seq<char>)
    requires
        forall|k: int| 0 <= k < s.len() ==> s[k] != ' ',
    ensures
        spec_first_space(s) is None,
    decreases s.len(),
{
    if s.len() > 0 {
        lemma_no_space(s.drop_first());
    }
}

/// Extracts the bearer token from an Authorization header value, as the
/// second space-separated part of the header.
#[verifier::loop_isolation(false)]
pub fn bearer_token(header: &str) -> (r: Option<String>)
    ensures
        match r {
            Some(t) => spec_bearer_token(header@) == Some(t@),
            None => spec_bearer_token(header@) is None,
        },
{
    let n = header.unicode_len();
    let mut i: usize = 0;
    while i < n && header.get_char(i) != ' '
        invariant
            i <= n,
            forall|k: int| 0 <= k < i ==> header@[k] != ' ',
        decreases n - i,
    {
        i += 1;
    }
    if i == n {
        proof {
            lemma_no_space(header@);
        }
        return None;
    }
    proof {
        lemma_first_space_at(header@, i as int);
    }
    let ghost rest = header@.skip(i as int + 1);
    let mut j: usize = i + 1;
    while j < n && header.get_char(j) != ' '
        invariant
            i < j <= n || j == i + 1,
            i + 1 <= j <= n,
            forall|k: int| i + 1 <= k < j ==> header@[k] != ' ',
        decreases n - j,
    {
        j += 1;
    }
    let token = header.substring_char(i + 1, j).to_owned();
    if j == n {
        proof {
            assert(forall|k: int| 0 <= k < rest.len() ==> rest[k] == header@[i + 1 + k]);
            lemma_no_space(rest);
            assert(token@ =~= rest);
        }
    } else {
        proof {
            assert(forall|k: int| 0 <= k < rest.len() ==> rest[k] == header@[i + 1 + k]);
            lemma_first_space_at(rest, j - (i as int + 1));
            assert(token@ =~= rest.take(j - (i as int + 1)));
        }
    }
    Some(token)
}

/// The hash under which a bearer token is looked up in the consumer
/// store: the hex rendering of its BLAKE3 digest.
pub fn token_hash(token: &str) -> (r: String)
    ensures
        r@ == blake3_hex(token.spec_bytes()),
        r@.len() == 64,
        all_hex(r@),
{
    crate::identity::blake3_hash_hex(token.as_bytes())
}

} // verus!
