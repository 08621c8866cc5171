//! What the authorization server hands back on the redirect.

use vstd::prelude::*;
use vstd::string::StringExecFns;

verus! {

/// A decoded query: name and value pairs in the order they were written.
pub type Pairs = Seq<(Seq<char>, Seq<char>)>;

/// The three values of a redirect, as sequences of characters.
pub struct CapturedParams {
    pub code: Seq<char>,
    pub nonce: Seq<char>,
    pub state: Seq<char>,
}

/// The parameters returned by the authorization server after the user has
/// authenticated. A parameter the redirect did not carry is the empty string.
#[derive(Debug)]
pub struct OIDCCallbackParams {
    pub code: String,
    pub nonce: String,
    pub state: String,
}

impl View for OIDCCallbackParams {
    type V = CapturedParams;

    open spec fn view(&self) -> CapturedParams {
        CapturedParams { code: self.code@, nonce: self.nonce@, state: self.state@ }
    }
}

/// The name of the query parameter that carries the authorization code.
pub open spec fn code_key() -> Seq<char> {
    "code"@
}

/// The name of the query parameter that carries the nonce.
pub open spec fn nonce_key() -> Seq<char> {
    "nonce"@
}

/// The name of the query parameter that carries the state.
pub open spec fn state_key() -> Seq<char> {
    "state"@
}

/// Whether `name` is one of the three parameters a redirect is read for.
pub open spec fn is_handshake_key(name: Seq<char>) -> bool {
    name == code_key() || name == nonce_key() || name == state_key()
}

/// The value of the last pair named `name`; the empty string where no pair
/// has that name.
pub open spec fn value_of(pairs: Pairs, name: Seq<char>) -> Seq<char>
    decreases pairs.len(),
{
    if pairs.len() == 0 {
        Seq::empty()
    } else if pairs.last().0 == name {
        pairs.last().1
    } else {
        value_of(pairs.drop_last(), name)
    }
}

/// What a decoded query yields for the handshake.
pub open spec fn params_of(pairs: Pairs) -> CapturedParams {
    CapturedParams {
        code: value_of(pairs, code_key()),
        nonce: value_of(pairs, nonce_key()),
        state: value_of(pairs, state_key()),
    }
}

/// The parameters of a redirect that carried none.
pub open spec fn no_params() -> CapturedParams {
    CapturedParams { code: Seq::empty(), nonce: Seq::empty(), state: Seq::empty() }
}

impl Default for OIDCCallbackParams {
    fn default() -> (params: OIDCCallbackParams)
        ensures
            params@ == no_params(),
    {
        OIDCCallbackParams { code: String::new(), nonce: String::new(), state: String::new() }
    }
}

impl OIDCCallbackParams {
    /// Reads the three parameters out of a decoded query. Where a name
    /// occurs more than once its last value counts; all other names are
    /// passed over.
    pub fn from_pairs(pairs: &Vec<(String, String)>) -> (params: OIDCCallbackParams)
        ensures
            params@ == params_of(pairs.deep_view()),
    {
        let code_name = String::from_str("code");
        let nonce_name = String::from_str("nonce");
        let state_name = String::from_str("state");
        let mut params = OIDCCallbackParams::default();
        let ghost all = pairs.deep_view();
        let mut i: usize = 0;
        while i < pairs.len()
            invariant
                i <= pairs.len(),
                all == pairs.deep_view(),
                all.len() == pairs.len(),
                code_name@ == code_key(),
                nonce_name@ == nonce_key(),
                state_name@ == state_key(),
                params@ == params_of(all.take(i as int)),
            decreases pairs.len() - i,
        {
            let pair = &pairs[i];
            proof {
                let seen = all.take(i as int + 1);
                assert(seen.drop_last() =~= all.take(i as int));
                assert(seen.last() == all[i as int]);
                assert(all[i as int] == (pair.0@, pair.1@));
            }
            if pair.0 == code_name {
                params.code = pair.1.clone();
            }
            if pair.0 == nonce_name {
                params.nonce = pair.1.clone();
            }
            if pair.0 == state_name {
                params.state = pair.1.clone();
            }
            i += 1;
        }
        assert(all.take(i as int) =~= all);
        params
    }
}

/// Whether `at` is the place of the last pair named `name`.
pub open spec fn is_last_named(pairs: Pairs, name: Seq<char>, at: int) -> bool {
    &&& 0 <= at < pairs.len()
    &&& pairs[at].0 == name
    &&& forall|later: int| at < later < pairs.len() ==> pairs[later].0 != name
}

/// The value read for a name is that of the last pair so named.
pub proof fn lemma_last_value_counts(pairs: Pairs, name: Seq<char>, at: int)
    requires
        is_last_named(pairs, name, at),
    ensures
        value_of(pairs, name) == pairs[at].1,
    decreases pairs.len(),
{
    if pairs.last().0 != name {
        lemma_last_value_counts(pairs.drop_last(), name, at);
    }
}

/// Whether some pair is named `name`.
pub open spec fn carries(pairs: Pairs, name: Seq<char>) -> bool {
    exists|at: int| 0 <= at < pairs.len() && pairs[at].0 == name
}

/// A name the query does not carry is read as the empty string.
pub proof fn lemma_missing_is_empty(pairs: Pairs, name: Seq<char>)
    requires
        !carries(pairs, name),
    ensures
        value_of(pairs, name) == Seq::<char>::empty(),
    decreases pairs.len(),
{
    if pairs.len() > 0 {
        let earlier = pairs.drop_last();
        assert(pairs[pairs.len() - 1].0 != name);
        assert forall|at: int| 0 <= at < earlier.len() implies earlier[at].0 != name by {
            assert(earlier[at] == pairs[at]);
        }
        lemma_missing_is_empty(earlier, name);
    }
}

/// A redirect that lacks some of the three parameters is still read: each
/// one it lacks is the empty string.
pub proof fn lemma_missing_params_default(pairs: Pairs)
    ensures
        !carries(pairs, code_key()) ==> params_of(pairs).code == Seq::<char>::empty(),
        !carries(pairs, nonce_key()) ==> params_of(pairs).nonce == Seq::<char>::empty(),
        !carries(pairs, state_key()) ==> params_of(pairs).state == Seq::<char>::empty(),
{
    if !carries(pairs, code_key()) {
        lemma_missing_is_empty(pairs, code_key());
    }
    if !carries(pairs, nonce_key()) {
        lemma_missing_is_empty(pairs, nonce_key());
    }
    if !carries(pairs, state_key()) {
        lemma_missing_is_empty(pairs, state_key());
    }
}

/// Pairs under other names do not matter: what is read from a query is what
/// is read from its `code`, `nonce` and `state` pairs alone.
pub proof fn lemma_unrelated_pairs_ignored(pairs: Pairs)
    ensures
        params_of(pairs) == params_of(
            pairs.filter(|pair: (Seq<char>, Seq<char>)| is_handshake_key(pair.0)),
        ),
{
    let related = |pair: (Seq<char>, Seq<char>)| is_handshake_key(pair.0);
    lemma_filter_keeps_value(pairs, related, code_key());
    lemma_filter_keeps_value(pairs, related, nonce_key());
    lemma_filter_keeps_value(pairs, related, state_key());
}

/// Dropping pairs leaves the value of `name` alone as long as every pair
/// named `name` is kept.
pub proof fn lemma_filter_keeps_value(
    pairs: Pairs,
    keep: spec_fn((Seq<char>, Seq<char>)) -> bool,
    name: Seq<char>,
)
    requires
        forall|pair: (Seq<char>, Seq<char>)| pair.0 == name ==> #[trigger] keep(pair),
    ensures
        value_of(pairs.filter(keep), name) == value_of(pairs, name),
    decreases pairs.len(),
{
    reveal(Seq::filter);
    if pairs.len() > 0 {
        lemma_filter_keeps_value(pairs.drop_last(), keep, name);
        let kept = pairs.drop_last().filter(keep);
        if keep(pairs.last()) {
            assert(pairs.filter(keep) == kept.push(pairs.last()));
            assert(kept.push(pairs.last()).drop_last() =~= kept);
        }
    }
}

/// A redirect that carries `code`, `nonce` and `state` is read as exactly
/// the values of the last pairs so named, wherever they stand in the query
/// and whatever else stands beside them.
pub proof fn lemma_redirect_read_exactly(pairs: Pairs, code_at: int, nonce_at: int, state_at: int)
    requires
        is_last_named(pairs, code_key(), code_at),
        is_last_named(pairs, nonce_key(), nonce_at),
        is_last_named(pairs, state_key(), state_at),
    ensures
        params_of(pairs) == (CapturedParams {
            code: pairs[code_at].1,
            nonce: pairs[nonce_at].1,
            state: pairs[state_at].1,
        }),
{
    lemma_last_value_counts(pairs, code_key(), code_at);
    lemma_last_value_counts(pairs, nonce_key(), nonce_at);
    lemma_last_value_counts(pairs, state_key(), state_at);
}

} // verus!
