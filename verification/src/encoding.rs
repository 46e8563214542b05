use vstd::prelude::*;

verus! {

/// A symbolic formatting marker. The set of variants is closed: it is fixed
/// at build time, and every function that maps tokens to literals matches on
/// it exhaustively, so adding a variant without extending the mapping fails
/// to compile.
#[derive(Clone, Copy, Debug, PartialEq, Eq, Structural)]
pub enum FormattingToken {
    MetaSep,
    MetaEnd,
}

/// The canonical literal rendering of each token, as a sequence of
/// characters. This is the single source of truth for the mapping.
pub open spec fn spec_literal(t: FormattingToken) -> Seq<char> {
    match t {
        FormattingToken::MetaSep => "<|meta_sep|>"@,
        FormattingToken::MetaEnd => "<|meta_end|>"@,
    }
}

/// The reverse mapping: the token whose literal is exactly `s`
/// (case-sensitive, no trimming), or `None` when no token renders as `s`.
pub open spec fn spec_token_of(s: Seq<char>) -> Option<FormattingToken> {
    if s == spec_literal(FormattingToken::MetaSep) {
        Some(FormattingToken::MetaSep)
    } else if s == spec_literal(FormattingToken::MetaEnd) {
        Some(FormattingToken::MetaEnd)
    } else {
        None
    }
}

/// Returns the unique literal for the given token. Total: every declared
/// variant has an entry, which the exhaustive match enforces at compile time.
pub fn literal_of(t: FormattingToken) -> (r: &'static str)
    ensures
        r@ == spec_literal(t),
{
    match t {
        FormattingToken::MetaSep => "<|meta_sep|>",
        FormattingToken::MetaEnd => "<|meta_end|>",
    }
}

/// Character-for-character equality of two string slices.
pub fn str_eq(a: &str, b: &str) -> (r: bool)
    ensures
        r == (a@ == b@),
{
    let la = a.unicode_len();
    let lb = b.unicode_len();
    if la != lb {
        return false;
    }
    let mut i: usize = 0;
    while i < la
        invariant
            la == a@.len(),
            la == b@.len(),
            i <= la,
            forall|j: int| 0 <= j < i ==> a@[j] == b@[j],
        decreases la - i,
    {
        if a.get_char(i) != b.get_char(i) {
            return false;
        }
        i = i + 1;
    }
    proof {
        assert(a@ =~= b@);
    }
    true
}

/// Reverse lookup: the token whose literal equals `s` exactly, or `None` if
/// no entry matches. Absence is an ordinary outcome, never an error.
pub fn token_of(s: &str) -> (r: Option<FormattingToken>)
    ensures
        r == spec_token_of(s@),
{
    if str_eq(s, "<|meta_sep|>") {
        Some(FormattingToken::MetaSep)
    } else if str_eq(s, "<|meta_end|>") {
        Some(FormattingToken::MetaEnd)
    } else {
        None
    }
}

/// A rendered example of the mapping's first entry, token name and literal in
/// one line.
pub fn meta_sep_example() -> (r: &'static str)
    ensures
        r@ == "FormattingToken::MetaSep => \"<|meta_sep|>\""@,
{
    "FormattingToken::MetaSep => \"<|meta_sep|>\""
}

/// Literals are pairwise distinct: two different tokens never render as the
/// same string, so the mapping is invertible.
pub proof fn lemma_literals_distinct(a: FormattingToken, b: FormattingToken)
    requires
        a != b,
    ensures
        spec_literal(a) != spec_literal(b),
{
    reveal_strlit("<|meta_sep|>");
    reveal_strlit("<|meta_end|>");
    assert("<|meta_sep|>"@[7] == 's');
    assert("<|meta_end|>"@[7] == 'e');
}

/// Round trip: decoding a token's own literal yields that token back.
pub proof fn lemma_round_trip(t: FormattingToken)
    ensures
        spec_token_of(spec_literal(t)) == Some(t),
{
    if t != FormattingToken::MetaSep {
        lemma_literals_distinct(t, FormattingToken::MetaSep);
    }
}

} // verus!
