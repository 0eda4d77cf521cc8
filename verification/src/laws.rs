//! The laws the library states of itself, proved once and for all.

use vstd::prelude::*;

use crate::model::{
    lemma_skip_component_bounds, lemma_skip_seps_bounds, spec_deserialize, spec_extend, spec_join,
    spec_parent_len, spec_serialize, skip_component, skip_seps,
};

verus! {

/// Round-trip: deserializing a serialized rendering reconstructs the
/// buffer's contents, byte for byte.
pub proof fn lemma_serialize_round_trip(p: Seq<u8>)
    ensures
        spec_deserialize(spec_serialize(p)) == p,
{
}

/// Push/join equivalence: `join`'s contract pins its result to the same
/// joining rule that `push`'s contract pins the pushed buffer to, so a
/// buffer returned by `join` holds exactly what a copy of the receiver
/// holds after `push` of the same segment — and `join` borrows its
/// receiver immutably, leaving it unchanged.
pub proof fn lemma_push_join_equivalence(p: Seq<u8>, copy_of_p: Seq<u8>, seg: Seq<u8>)
    requires
        copy_of_p == p,
    ensures
        spec_join(p, seg) == spec_join(copy_of_p, seg),
{
}

/// Pop monotonicity: whenever a parent exists, it is a strictly shorter
/// prefix of the buffer; together with `pop`'s contract, `pop` either
/// returns `false` and leaves the buffer byte-identical or returns `true`
/// and strictly shortens it.
pub proof fn lemma_pop_strictly_shortens(s: Seq<u8>)
    ensures
        spec_parent_len(s) matches Some(n) ==> 0 <= n < s.len(),
{
    lemma_skip_seps_bounds(s, s.len() as int);
    let t = skip_seps(s, s.len() as int);
    if t != 0 {
        // the byte before `t` is not a separator, so the component scan
        // takes at least one step
        lemma_skip_component_bounds(s, t - 1);
        let i = skip_component(s, t);
        lemma_skip_seps_bounds(s, i);
    }
}

/// Extending by one more segment is one more push: `extend` over
/// `segs + [s]` equals `extend` over `segs` followed by joining `s`.
pub proof fn lemma_extend_snoc(base: Seq<u8>, segs: Seq<Seq<u8>>, s: Seq<u8>)
    ensures
        spec_extend(base, segs.push(s)) == spec_join(spec_extend(base, segs), s),
    decreases segs.len(),
{
    if segs.len() == 0 {
        assert(segs.push(s)[0] == s);
        assert(segs.push(s).drop_first() =~= Seq::<Seq<u8>>::empty());
        assert(spec_extend(spec_join(base, s), Seq::<Seq<u8>>::empty()) == spec_join(base, s));
        assert(spec_extend(base, segs.push(s)) == spec_extend(
            spec_join(base, s),
            segs.push(s).drop_first(),
        ));
        assert(spec_extend(base, segs) == base);
    } else {
        assert(segs.push(s)[0] == segs[0]);
        assert(segs.push(s).drop_first() =~= segs.drop_first().push(s));
        lemma_extend_snoc(spec_join(base, segs[0]), segs.drop_first(), s);
        assert(spec_extend(base, segs.push(s)) == spec_extend(
            spec_join(base, segs[0]),
            segs.push(s).drop_first(),
        ));
        assert(spec_extend(base, segs) == spec_extend(spec_join(base, segs[0]), segs.drop_first()));
    }
}

/// Extend as repeated push, spelled out for three segments: extending by
/// `[a, b, c]` equals pushing `a`, then `b`, then `c`.
pub proof fn lemma_extend_three(base: Seq<u8>, a: Seq<u8>, b: Seq<u8>, c: Seq<u8>)
    ensures
        spec_extend(base, seq![a, b, c]) == spec_join(
            spec_join(spec_join(base, a), b),
            c,
        ),
{
    let none = Seq::<Seq<u8>>::empty();
    assert(none.push(a) =~= seq![a]);
    assert(seq![a].push(b) =~= seq![a, b]);
    assert(seq![a, b].push(c) =~= seq![a, b, c]);
    lemma_extend_snoc(base, none, a);
    lemma_extend_snoc(base, seq![a], b);
    lemma_extend_snoc(base, seq![a, b], c);
}

} // verus!
