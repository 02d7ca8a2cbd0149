//! Properties of the format that hold of every buffer.
use crate::decode::{items_spec, lemma_items_len, seq_spec, Decode};
use crate::error::Error;
use crate::header::{features_spec, FeaturesView};
use crate::voice::{body_head_spec, body_spec, F0Tree};
use crate::wire::{
    count_spec, field_spec, le_word, str_spec, validate_spec, Cursor,
};
use vstd::prelude::*;

verus! {

/// The header check does its work once. On a fresh decode it consumes the
/// signature, its separator and the byte-order marker and fixes the byte
/// order; checking again then succeeds and changes nothing.
pub proof fn lemma_validate_once(c: Cursor)
    ensures
        validate_spec(c) matches Ok((_, c1)) ==> {
            &&& c1.swap is Some
            &&& validate_spec(c1) == Ok::<_, Error>(((), c1))
            &&& c.swap is None ==> c1.pos == c.pos + 30
        },
{
}

/// A record field whose name is another text than the expected one fails
/// with the expected name, and nothing after the name is read.
pub proof fn lemma_field_mismatch(c: Cursor, name: &'static str)
    ensures
        str_spec(c) matches Ok((s, _)) && s != name@ ==> field_spec(c, name) == Err::<
            ((), Cursor),
            Error,
        >(Error::FieldNotFound(name)),
{
}

/// A features record whose first field is not named `language` is refused
/// as a whole, with that name.
pub proof fn lemma_features_first_field(c: Cursor)
    ensures
        str_spec(c) matches Ok((s, _)) && s != "language"@ ==> features_spec(c) == Err::<
            (FeaturesView, Cursor),
            Error,
        >(Error::FieldNotFound("language")),
{
    reveal(crate::header::field_value);
}

/// The F0 trees of a body are exactly as many as the header announced, and
/// none is read from a count in the stream: with no F0 model the body ends
/// where its leading fields end.
pub proof fn lemma_body_trees(c: Cursor, num_f0_models: u32)
    ensures
        body_spec(c, num_f0_models) matches Ok((b, _)) ==> b.f0_trees.len() == num_f0_models,
        num_f0_models == 0 ==> (body_head_spec(c) matches Ok((_, c1)) ==> (body_spec(
            c,
            num_f0_models,
        ) matches Ok((b, c2)) && c2 == c1 && b.f0_trees.len() == 0)),
{
    if let Ok((_, c1)) = body_head_spec(c) {
        lemma_items_len::<F0Tree>(c1, num_f0_models as nat);
    }
}

/// A dynamic sequence always reads its own count, right after the header
/// check, and holds exactly that many elements.
pub proof fn lemma_seq_inline_count<T: Decode>(c: Cursor)
    requires
        c.swap is Some,
    ensures
        seq_spec::<T>(c) matches Ok((vs, _)) ==> c.has(4) && vs.len() == le_word(c.input, c.pos),
{
    if let Ok((n, c1)) = count_spec(c) {
        lemma_items_len::<T>(c1, n as nat);
    }
}

} // verus!
