//! Request metadata identifiers: kept when the client sent one, generated
//! from the context id when it did not.
use vstd::prelude::*;
use vstd::string::*;

use crate::text::{decimal, decimal_string, lemma_decimal_injective};

verus! {

broadcast use vstd::string::group_string_axioms;

/// The identifier generated for a context: the prefix, `-` and the context id
/// in decimal.
pub open spec fn generated_id(prefix: Seq<char>, context_id: u32) -> Seq<char> {
    prefix + "-"@ + decimal(context_id as nat)
}

/// The identifier in force: the one sent when it is not empty, else the
/// generated one.
pub open spec fn ensured_id(existing: Option<Seq<char>>, prefix: Seq<char>, context_id: u32) -> Seq<
    char,
> {
    if existing is Some && existing->0.len() > 0 {
        existing->0
    } else {
        generated_id(prefix, context_id)
    }
}

/// The view of an optional string.
pub open spec fn opt_view(s: Option<String>) -> Option<Seq<char>> {
    match s {
        Some(v) => Some(v@),
        None => None,
    }
}

/// Keeps a non-empty `existing` identifier, or generates `<prefix>-<context_id>`.
pub fn ensure_or_generate(existing: Option<String>, prefix: &str, context_id: u32) -> (id: String)
    ensures
        id@ == ensured_id(opt_view(existing), prefix@, context_id),
{
    match existing {
        Some(value) => {
            if !value.as_str().is_empty() {
                return value;
            }
        },
        None => {},
    }
    let mut id = prefix.to_string();
    id.append("-");
    id.append(decimal_string(context_id).as_str());
    id
}

/// An identifier in force is never empty.
pub proof fn law_ensured_id_nonempty(existing: Option<Seq<char>>, prefix: Seq<char>, context_id: u32)
    ensures
        ensured_id(existing, prefix, context_id).len() > 0,
{
    reveal_strlit("-");
}

/// Ensuring an identifier twice changes nothing: the identifier in force is
/// kept by every later context.
pub proof fn law_ensure_idempotent(
    existing: Option<Seq<char>>,
    prefix: Seq<char>,
    context_id: u32,
    later_context_id: u32,
)
    ensures
        ensured_id(Some(ensured_id(existing, prefix, context_id)), prefix, later_context_id)
            == ensured_id(existing, prefix, context_id),
{
    law_ensured_id_nonempty(existing, prefix, context_id);
}

/// Contexts with different ids get different generated identifiers.
pub proof fn law_generated_ids_distinct(prefix: Seq<char>, a: u32, b: u32)
    requires
        a != b,
    ensures
        generated_id(prefix, a) != generated_id(prefix, b),
{
    let pre = prefix + "-"@;
    if generated_id(prefix, a) == generated_id(prefix, b) {
        let ga = generated_id(prefix, a);
        assert(ga.len() == pre.len() + decimal(a as nat).len());
        assert(decimal(a as nat) =~= ga.skip(pre.len() as int));
        assert(decimal(b as nat) =~= generated_id(prefix, b).skip(pre.len() as int));
        lemma_decimal_injective(a as nat, b as nat);
    }
}

} // verus!
