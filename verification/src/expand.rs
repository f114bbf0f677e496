//! The meaning of an expansion of a generated macro.
//!
//! A generated macro, applied to a literal of `n` elements, expands to one
//! constructor call followed by one mutation call per element, in the
//! written left-to-right order, and its value is the constructed instance
//! after those calls. The trace of calls is modeled here, together with the
//! value an appending target (back-insertion and set-insertion, which pass
//! duplicates through) and a prepending target (front-insertion) hold after
//! replaying a trace. For the pairwise variant an element is a `(key,
//! value)` pair; duplicate keys are passed through unmodified.

use vstd::prelude::*;

verus! {

/// One call of an expansion: the single constructor call, or one mutation
/// call carrying its argument.
#[derive(Debug, PartialEq, Eq)]
pub enum Call<E> {
    New,
    Mutate(E),
}

/// The mutation calls of an expansion, one per element, in order.
pub open spec fn mutations<E>(elems: Seq<E>) -> Seq<Call<E>> {
    elems.map_values(|e: E| Call::Mutate(e))
}

/// The full call trace of an expansion of a generated macro on the written
/// elements: the constructor call, then the mutation calls in order.
pub open spec fn expansion_seq<E>(elems: Seq<E>) -> Seq<Call<E>> {
    seq![Call::<E>::New] + mutations(elems)
}

/// The arguments handed to mutation calls by a trace, in call order.
pub open spec fn mutate_args<E>(t: Seq<Call<E>>) -> Seq<E>
    decreases t.len(),
{
    if t.len() == 0 {
        Seq::empty()
    } else {
        match t[0] {
            Call::New => mutate_args(t.skip(1)),
            Call::Mutate(e) => seq![e] + mutate_args(t.skip(1)),
        }
    }
}

/// The call trace of an expansion on the given elements: exactly one
/// constructor call, first, then one mutation call per element, in the
/// written order.
pub fn expansion_trace<E>(elems: Vec<E>) -> (t: Vec<Call<E>>)
    ensures
        t@ == expansion_seq(elems@),
{
    let ghost orig = elems@;
    let mut t: Vec<Call<E>> = Vec::new();
    t.push(Call::New);
    let mut rest = elems;
    proof {
        assert(t@ =~= expansion_seq(orig.take(0)));
    }
    while rest.len() > 0
        invariant
            rest@.len() <= orig.len(),
            rest@ == orig.skip(orig.len() - rest@.len()),
            t@ == expansion_seq(orig.take(orig.len() - rest@.len())),
        decreases rest.len(),
    {
        let ghost k = orig.len() - rest@.len();
        let ghost before = rest@;
        let e = rest.remove(0);
        proof {
            assert(e == orig[k]) by {
                assert(before == orig.skip(k));
                assert(orig.skip(k)[0] == orig[k]);
            }
            assert(rest@ =~= orig.skip(k + 1));
        }
        t.push(Call::Mutate(e));
        proof {
            assert(t@ =~= expansion_seq(orig.take(k + 1)));
        }
    }
    proof {
        assert(orig.take(orig.len() as int) =~= orig);
    }
    t
}

/// Replay a trace against an appending target: the constructor yields the
/// empty value and every mutation call appends its argument at the back, as
/// the back-insertion `push` and the pass-through set `insert` do.
pub fn replay_appending<E>(trace: Vec<Call<E>>) -> (r: Vec<E>)
    ensures
        r@ == mutate_args(trace@),
{
    let ghost orig = trace@;
    let mut r: Vec<E> = Vec::new();
    let mut rest = trace;
    proof {
        assert(mutate_args(orig) =~= r@ + mutate_args(rest@));
    }
    while rest.len() > 0
        invariant
            mutate_args(orig) == r@ + mutate_args(rest@),
        decreases rest.len(),
    {
        let ghost before = rest@;
        let head = rest.remove(0);
        proof {
            assert(rest@ =~= before.skip(1));
        }
        match head {
            Call::New => {},
            Call::Mutate(e) => {
                r.push(e);
                proof {
                    assert(r@ + mutate_args(rest@) =~= mutate_args(orig));
                }
            },
        }
    }
    proof {
        assert(r@ =~= mutate_args(orig));
    }
    r
}

/// Replay a trace against a prepending target: every mutation call inserts
/// its argument at the front, as `push_front` does, so the value ends up
/// holding the reverse of the call order.
pub fn replay_prepending<E>(trace: Vec<Call<E>>) -> (r: Vec<E>)
    ensures
        r@ == mutate_args(trace@).reverse(),
{
    let ghost orig = trace@;
    let mut r: Vec<E> = Vec::new();
    let mut rest = trace;
    proof {
        assert(r@.reverse() =~= Seq::<E>::empty());
        assert(mutate_args(orig) =~= r@.reverse() + mutate_args(rest@));
    }
    while rest.len() > 0
        invariant
            mutate_args(orig) == r@.reverse() + mutate_args(rest@),
        decreases rest.len(),
    {
        let ghost before = rest@;
        let head = rest.remove(0);
        proof {
            assert(rest@ =~= before.skip(1));
        }
        match head {
            Call::New => {},
            Call::Mutate(e) => {
                let ghost r0 = r@;
                r.insert(0, e);
                proof {
                    assert(r@ =~= seq![e] + r0);
                    assert(r@.reverse() =~= r0.reverse().push(e));
                    assert(r@.reverse() + mutate_args(rest@) =~= mutate_args(orig));
                }
            },
        }
    }
    proof {
        assert(mutate_args(orig) =~= r@.reverse());
        assert(r@ =~= mutate_args(orig).reverse());
    }
    r
}

proof fn lemma_mutate_args_mutations<E>(elems: Seq<E>)
    ensures
        mutate_args(mutations(elems)) == elems,
    decreases elems.len(),
{
    let m = mutations(elems);
    if elems.len() == 0 {
        assert(m =~= Seq::<Call<E>>::empty());
        assert(mutate_args(m) =~= elems);
    } else {
        assert(m[0] == Call::Mutate(elems[0]));
        assert(m.skip(1) =~= mutations(elems.skip(1)));
        lemma_mutate_args_mutations(elems.skip(1));
        assert(mutate_args(m) =~= seq![elems[0]] + elems.skip(1));
        assert(seq![elems[0]] + elems.skip(1) =~= elems);
    }
}

/// Back-insertion and set-insertion, over every literal sequence: the
/// expansion is one constructor call, first, then exactly one mutation call
/// per element in the literal's left-to-right order, with no reordering and
/// no deduplication; an appending target then holds exactly the literal
/// sequence.
pub proof fn lemma_list_expansion<E>(elems: Seq<E>)
    ensures
        expansion_seq(elems).len() == 1 + elems.len(),
        expansion_seq(elems)[0] == Call::<E>::New,
        forall|i: int|
            0 <= i < elems.len() ==> #[trigger] expansion_seq(elems)[i + 1] == Call::Mutate(
                elems[i],
            ),
        mutate_args(expansion_seq(elems)) == elems,
{
    let t = expansion_seq(elems);
    lemma_mutate_args_mutations(elems);
    assert(t.skip(1) =~= mutations(elems));
    assert(mutate_args(t) == mutate_args(mutations(elems)));
}

/// Front-insertion, over every literal sequence: the mutation calls happen
/// in the literal's left-to-right order, exactly as for back-insertion, but
/// a prepending target ends up holding the reverse of the literal sequence.
pub proof fn lemma_front_expansion<E>(elems: Seq<E>)
    ensures
        expansion_seq(elems).len() == 1 + elems.len(),
        expansion_seq(elems)[0] == Call::<E>::New,
        forall|i: int|
            0 <= i < elems.len() ==> #[trigger] expansion_seq(elems)[i + 1] == Call::Mutate(
                elems[i],
            ),
        mutate_args(expansion_seq(elems)) == elems,
        mutate_args(expansion_seq(elems)).reverse() == elems.reverse(),
{
    lemma_list_expansion(elems);
}

/// Pairwise insertion, over every literal pair sequence: exactly one
/// two-argument insert call per written pair, in order; pairs with duplicate
/// keys are passed through unmodified, none dropped and none reordered.
pub proof fn lemma_pairwise_expansion<K, V>(pairs: Seq<(K, V)>)
    ensures
        expansion_seq(pairs).len() == 1 + pairs.len(),
        expansion_seq(pairs)[0] == Call::<(K, V)>::New,
        forall|i: int|
            0 <= i < pairs.len() ==> #[trigger] expansion_seq(pairs)[i + 1] == Call::Mutate(
                pairs[i],
            ),
        mutate_args(expansion_seq(pairs)) == pairs,
{
    lemma_list_expansion::<(K, V)>(pairs);
}

/// A literal with no elements: the expansion is exactly one constructor
/// call and no mutation call.
pub proof fn lemma_empty_expansion<E>()
    ensures
        expansion_seq(Seq::<E>::empty()) == seq![Call::<E>::New],
        mutate_args(expansion_seq(Seq::<E>::empty())) == Seq::<E>::empty(),
{
    lemma_list_expansion(Seq::<E>::empty());
    assert(expansion_seq(Seq::<E>::empty()) =~= seq![Call::<E>::New]);
}

} // verus!
