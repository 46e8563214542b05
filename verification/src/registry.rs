use vstd::prelude::*;

use crate::encoding::FormattingToken;
use crate::encoding::literal_of;
use crate::encoding::spec_literal;

verus! {

/// The registry's entries in declaration order: exactly one per declared
/// token. Enumeration follows this order, so repeated walks are
/// reproducible.
pub open spec fn spec_entries() -> Seq<(FormattingToken, Seq<char>)> {
    seq![
        (FormattingToken::MetaSep, spec_literal(FormattingToken::MetaSep)),
        (FormattingToken::MetaEnd, spec_literal(FormattingToken::MetaEnd)),
    ]
}

/// All (token, literal) pairs of the registry, in declaration order.
pub fn all_entries() -> (r: Vec<(FormattingToken, &'static str)>)
    ensures
        r@.len() == spec_entries().len(),
        forall|i: int|
            0 <= i < r@.len() ==> (#[trigger] r@[i]).0 == spec_entries()[i].0 && r@[i].1@
                == spec_entries()[i].1,
{
    let mut v: Vec<(FormattingToken, &'static str)> = Vec::new();
    v.push((FormattingToken::MetaSep, literal_of(FormattingToken::MetaSep)));
    v.push((FormattingToken::MetaEnd, literal_of(FormattingToken::MetaEnd)));
    v
}

/// The registry rendered as pairs of token name and literal, in declaration
/// order.
pub fn registry_tokens() -> (r: Vec<(&'static str, &'static str)>)
    ensures
        r@.len() == 2,
        r@[0].0@ == "FormattingToken::MetaSep"@,
        r@[0].1@ == spec_literal(FormattingToken::MetaSep),
        r@[1].0@ == "FormattingToken::MetaEnd"@,
        r@[1].1@ == spec_literal(FormattingToken::MetaEnd),
{
    let mut v: Vec<(&'static str, &'static str)> = Vec::new();
    v.push(("FormattingToken::MetaSep", literal_of(FormattingToken::MetaSep)));
    v.push(("FormattingToken::MetaEnd", literal_of(FormattingToken::MetaEnd)));
    v
}

/// The entry table is total and duplicate-free: every declared token stands
/// in it at exactly one position.
pub proof fn lemma_entries_exhaustive(t: FormattingToken)
    ensures
        exists|i: int| 0 <= i < spec_entries().len() && (#[trigger] spec_entries()[i]).0 == t,
        forall|i: int, j: int|
            0 <= i < spec_entries().len() && 0 <= j < spec_entries().len() && (
            #[trigger] spec_entries()[i]).0 == (#[trigger] spec_entries()[j]).0 ==> i == j,
{
    match t {
        FormattingToken::MetaSep => {
            assert(spec_entries()[0].0 == t);
        },
        FormattingToken::MetaEnd => {
            assert(spec_entries()[1].0 == t);
        },
    }
    assert(spec_entries()[0].0 != spec_entries()[1].0);
}

} // verus!
