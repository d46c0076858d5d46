//! Placeholder substitution in action templates. A template may contain
//! `{name}` placeholders; the first `{` and the first `}` of the string are
//! paired by position, the text strictly between them is looked up among the
//! request's query parameters, and on a hit the whole span, braces included,
//! is replaced by the parameter's value. Expansion then restarts on the new
//! string, so a substituted value that itself contains a placeholder resolves
//! in the same call. Substitution stops when a brace is missing, when the
//! first `}` precedes the first `{`, when the name is not a query parameter,
//! or after `MAX_EXPANSIONS` rounds, which bounds the otherwise unbounded
//! re-expansion.

use vstd::prelude::*;
use crate::bytes::{spec_find, find_byte, subvec, push_all};
use crate::query::{spec_query_param, query_param};

verus! {

/// `{`
pub const LBRACE: u8 = 0x7b;

/// `}`
pub const RBRACE: u8 = 0x7d;

/// Hard bound on substitution rounds in one expansion call.
pub const MAX_EXPANSIONS: usize = 100;

/// One round of substitution: the span from the first `{` through the first
/// `}` is replaced by the named query parameter's value, if the braces are
/// ordered and the name resolves; otherwise the template is final.
pub open spec fn expand_step(input: Seq<u8>, q: Seq<u8>) -> Option<Seq<u8>> {
    match (spec_find(input, LBRACE), spec_find(input, RBRACE)) {
        (Some(st), Some(en)) => if st < en {
            match spec_query_param(q, input.subrange(st + 1, en)) {
                Some(v) => Some(input.subrange(0, st) + v + input.subrange(en + 1, input.len() as int)),
                None => None,
            }
        } else {
            None
        },
        _ => None,
    }
}

/// Repeated substitution, at most `fuel` rounds.
pub open spec fn expand_from(input: Seq<u8>, q: Seq<u8>, fuel: nat) -> Seq<u8>
    decreases fuel,
{
    if fuel == 0 {
        input
    } else {
        match expand_step(input, q) {
            Some(next) => expand_from(next, q, (fuel - 1) as nat),
            None => input,
        }
    }
}

/// The full expansion of a template against a raw query string.
pub open spec fn spec_expand(input: Seq<u8>, q: Seq<u8>) -> Seq<u8> {
    expand_from(input, q, MAX_EXPANSIONS as nat)
}

/// Expand every resolvable `{name}` placeholder of `input` against the query
/// parameters of the raw query string `rawquery`.
pub fn expand_vars(input: &Vec<u8>, rawquery: &Vec<u8>) -> (r: Vec<u8>)
    ensures
        r@ == spec_expand(input@, rawquery@),
{
    let mut cur = input.clone();
    proof {
        assert(cur@ =~= input@);
    }
    let mut fuel: usize = MAX_EXPANSIONS;
    loop
        invariant
            expand_from(input@, rawquery@, MAX_EXPANSIONS as nat) == expand_from(
                cur@,
                rawquery@,
                fuel as nat,
            ),
        decreases fuel,
    {
        if fuel == 0 {
            return cur;
        }
        let st_opt = find_byte(&cur, LBRACE);
        let en_opt = find_byte(&cur, RBRACE);
        if st_opt.is_some() && en_opt.is_some() && st_opt.unwrap() < en_opt.unwrap() {
            let st = st_opt.unwrap();
            let en = en_opt.unwrap();
            let name = subvec(&cur, st + 1, en);
            match query_param(rawquery, &name) {
                Some(v) => {
                    assert(expand_step(cur@, rawquery@) == Some(
                        cur@.subrange(0, st as int) + v@ + cur@.subrange(
                            en + 1,
                            cur@.len() as int,
                        ),
                    ));
                    let n = cur.len();
                    let mut next = subvec(&cur, 0, st);
                    push_all(&mut next, &v);
                    let tail = subvec(&cur, en + 1, n);
                    push_all(&mut next, &tail);
                    proof {
                        assert(next@ =~= cur@.subrange(0, st as int) + v@ + cur@.subrange(
                            en + 1,
                            cur@.len() as int,
                        ));
                    }
                    cur = next;
                    fuel = fuel - 1;
                },
                None => {
                    assert(expand_step(cur@, rawquery@) is None);
                    return cur;
                },
            }
        } else {
            assert(expand_step(cur@, rawquery@) is None);
            return cur;
        }
    }
}

/// A template in which no `{` occurs at all is expanded to itself, whatever
/// the query parameters are.
pub proof fn lemma_expand_without_brace_unchanged(input: Seq<u8>, q: Seq<u8>)
    requires
        spec_find(input, LBRACE) is None,
    ensures
        spec_expand(input, q) == input,
{
}

/// A template whose first positional brace pair names a parameter the query
/// does not supply is expanded to itself, braces intact.
pub proof fn lemma_expand_unresolved_name_unchanged(input: Seq<u8>, q: Seq<u8>)
    requires
        spec_find(input, LBRACE) is Some,
        spec_find(input, RBRACE) is Some,
        spec_find(input, LBRACE)->0 < spec_find(input, RBRACE)->0,
        spec_query_param(
            q,
            input.subrange(spec_find(input, LBRACE)->0 + 1, spec_find(input, RBRACE)->0),
        ) is None,
    ensures
        spec_expand(input, q) == input,
{
}

} // verus!
