//! Properties that hold of the core across calls, proved over the
//! contracts that its functions meet.
use vstd::prelude::*;
use crate::app::{
    ANIMAL_PATH, EventV, Mode, ModelV, accepts, animal_from_parts_spec, mode_of, next_model,
    pass_spec,
};
use crate::capabilities::{ContextV, EffectV, OutputV, is_pending, resolve_spec};
use crate::catalog::{
    ANIMAL_COUNT, HOST, lookup, lookup_from, same_ignoring_case, spec_animal_name,
    spec_ascii_lower,
};

verus! {

/// A `SetMode` event is accepted in either mode and leaves the model in the
/// mode it names.
pub proof fn lemma_set_mode_sets_mode(m: ModelV, mode: Mode)
    ensures
        accepts(m, EventV::SetMode(mode)),
        mode_of(next_model(m, EventV::SetMode(mode))) == mode,
{
}

/// Apart from `SetMode`, the only accepted event that changes the mode is
/// the report of a written tag, which returns from Configure to Practice.
pub proof fn lemma_mode_changes_only_by_set_mode(m: ModelV, e: EventV)
    requires
        accepts(m, e),
        !(e is SetMode),
    ensures
        mode_of(next_model(m, e)) == mode_of(m) || (mode_of(m) == Mode::Configure
            && e == EventV::TagWritten(OutputV::Written)
            && mode_of(next_model(m, e)) == Mode::Practice),
{
}

/// Once a request's answer has been taken, the handle is no longer waiting,
/// and no later pass of the core makes it wait again: a second answer to it
/// is refused.
pub proof fn lemma_resolve_at_most_once(c: ContextV, handle: nat, m: ModelV, e: EventV)
    requires
        is_pending(c, handle),
    ensures
        !is_pending(resolve_spec(c, handle), handle),
        !is_pending(pass_spec(resolve_spec(c, handle), m, e), handle),
{
}

/// Every accepted event issues, after the effects already issued, its own
/// effects, of which exactly one is a render notification, the last.
pub proof fn lemma_render_always_last(c: ContextV, m: ModelV, e: EventV)
    requires
        accepts(m, e),
    ensures
        ({
            let out = pass_spec(c, m, e).outbox;
            &&& out.len() > c.outbox.len()
            &&& out.subrange(0, c.outbox.len() as int) == c.outbox
            &&& out.last() == EffectV::Render
            &&& forall|j: int| c.outbox.len() <= j < out.len() - 1 ==> !(#[trigger] out[j] is Render)
        }),
{
    let out = pass_spec(c, m, e).outbox;
    assert(out.subrange(0, c.outbox.len() as int) =~= c.outbox);
}

proof fn lemma_lookup_from_ignores_case(a: Seq<char>, b: Seq<char>, from: int)
    requires
        same_ignoring_case(a, b),
    ensures
        lookup_from(a, from) == lookup_from(b, from),
    decreases ANIMAL_COUNT - from,
{
    if 0 <= from < ANIMAL_COUNT {
        let n = spec_animal_name(from);
        assert(same_ignoring_case(n, a) == same_ignoring_case(n, b)) by {
            if same_ignoring_case(n, a) {
                assert forall|j: int| 0 <= j < n.len() implies spec_ascii_lower(
                    #[trigger] n[j],
                ) == spec_ascii_lower(b[j]) by {
                    assert(spec_ascii_lower(a[j]) == spec_ascii_lower(b[j]));
                }
            }
            if same_ignoring_case(n, b) {
                assert forall|j: int| 0 <= j < n.len() implies spec_ascii_lower(
                    #[trigger] n[j],
                ) == spec_ascii_lower(a[j]) by {
                    assert(spec_ascii_lower(a[j]) == spec_ascii_lower(b[j]));
                }
            }
        }
        lemma_lookup_from_ignores_case(a, b, from + 1);
    }
}

/// Looking up an animal URL on the right host ignores the case of the
/// animal's name: names that differ only in case find the same animal, or
/// both find none.
pub proof fn lemma_animal_lookup_ignores_case(a: Seq<char>, b: Seq<char>)
    requires
        same_ignoring_case(a, b),
    ensures
        match (
            animal_from_parts_spec(Some(HOST@), ANIMAL_PATH@ + a),
            animal_from_parts_spec(Some(HOST@), ANIMAL_PATH@ + b),
        ) {
            (Ok(i), Ok(j)) => i == j,
            (Err(_), Err(_)) => true,
            _ => false,
        },
{
    let p = ANIMAL_PATH@;
    assert(p.is_prefix_of(p + a)) by {
        assert((p + a).subrange(0, p.len() as int) =~= p);
    }
    assert(p.is_prefix_of(p + b)) by {
        assert((p + b).subrange(0, p.len() as int) =~= p);
    }
    assert((p + a).skip(p.len() as int) =~= a);
    assert((p + b).skip(p.len() as int) =~= b);
    lemma_lookup_from_ignores_case(a, b, 0);
    assert(lookup(a) == lookup(b));
}

} // verus!
