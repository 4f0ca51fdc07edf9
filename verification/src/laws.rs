//! The general laws of the generator, stated over the same spec
//! functions that the emitters' contracts use.

use vstd::prelude::*;

use crate::model::FieldModel;
use crate::model::StructModel;
use crate::model::YesNo;
use crate::model::wf_markers;
use crate::model::markers_distinct;
use crate::calc::join_comma;
use crate::calc::yes_no_text;
use crate::calc::marker_tokens_prefix;
use crate::calc::state_vector_tokens;
use crate::calc::all_tokens_prefix;
use crate::calc::spec_where_body;
use crate::calc::where_marker_prefix;
use crate::calc::where_extra_prefix;
use crate::emit::spec_generate;
use crate::emit::field_skip;
use crate::emit::all_markers;
use crate::emit::all_markers_prefix;

verus! {

/// Number of mandatory fields among the first `n`.
pub open spec fn mandatory_count(fields: Seq<FieldModel>, n: int) -> int
    decreases n,
{
    if n <= 0 {
        0
    } else {
        mandatory_count(fields, n - 1) + (if fields[n - 1].optional {
            0int
        } else {
            1int
        })
    }
}

/// Number of mandatory fields among the first `n` whose marker is in the
/// skip list.
pub open spec fn skipped_count(fields: Seq<FieldModel>, skip: Seq<Seq<char>>, n: int) -> int
    decreases n,
{
    if n <= 0 {
        0
    } else {
        skipped_count(fields, skip, n - 1) + (if !fields[n - 1].optional && skip.contains(
            fields[n - 1].builder_type->0,
        ) {
            1int
        } else {
            0int
        })
    }
}

/// The combined length of a token list, separators not counted.
pub open spec fn total_len(ts: Seq<Seq<char>>) -> int
    decreases ts.len(),
{
    if ts.len() == 0 {
        0
    } else {
        total_len(ts.drop_last()) + ts.last().len()
    }
}

/// Determinism: the generated text is a pure function of the descriptor,
/// so identical descriptors give byte-identical output.
pub proof fn lemma_generate_deterministic(s1: StructModel, s2: StructModel)
    requires
        s1 == s2,
    ensures
        spec_generate(s1) == spec_generate(s2),
{
}

proof fn lemma_marker_tokens_prefix_len(
    fields: Seq<FieldModel>,
    skip: Seq<Seq<char>>,
    replace: Option<YesNo>,
    n: int,
)
    requires
        0 <= n,
    ensures
        marker_tokens_prefix(fields, skip, replace, n).len() == (mandatory_count(fields, n)
            - skipped_count(fields, skip, n)) + (if replace is Some {
            skipped_count(fields, skip, n)
        } else {
            0
        }),
        0 <= mandatory_count(fields, n) <= n,
        0 <= skipped_count(fields, skip, n) <= mandatory_count(fields, n),
    decreases n,
{
    if n > 0 {
        lemma_marker_tokens_prefix_len(fields, skip, replace, n - 1);
    }
}

/// Marker-subset correctness, the counting part: over `N` mandatory
/// fields, a skip list covering `K` of their markers and an optional
/// replacement literal, the state vector holds the extra type parameters,
/// then `N - K` still-generic marker tokens, plus `K` replacement tokens
/// when a replacement is given and none otherwise.
pub proof fn lemma_state_vector_counts(
    s: StructModel,
    skip: Seq<Seq<char>>,
    replace: Option<YesNo>,
)
    ensures
        ({
            let n = mandatory_count(s.fields, s.fields.len() as int);
            let k = skipped_count(s.fields, skip, s.fields.len() as int);
            &&& 0 <= k <= n <= s.fields.len()
            &&& state_vector_tokens(s, skip, replace).len() == s.extra_types.len() + (n - k) + (
            if replace is Some {
                k
            } else {
                0
            })
            &&& forall|q: int|
                0 <= q < s.extra_types.len() ==> state_vector_tokens(s, skip, replace)[q]
                    == s.extra_types[q]
        }),
{
    lemma_marker_tokens_prefix_len(s.fields, skip, replace, s.fields.len() as int);
}

/// Separator correctness: a comma-joined non-empty token list carries
/// exactly one two-character separator between adjacent tokens and none
/// at either end, so its length is the tokens' combined length plus two
/// per gap.
pub proof fn lemma_join_comma_len(ts: Seq<Seq<char>>)
    requires
        ts.len() >= 1,
    ensures
        join_comma(ts).len() == total_len(ts) + 2 * (ts.len() - 1),
    decreases ts.len(),
{
    reveal_strlit(", ");
    if ts.len() == 1 {
        assert(ts.drop_last().len() == 0);
        assert(total_len(ts) == ts[0].len());
        assert(join_comma(ts) == ts[0]);
    } else {
        lemma_join_comma_len(ts.drop_last());
        assert(", "@.len() == 2);
        assert(join_comma(ts) == join_comma(ts.drop_last()) + ", "@ + ts.last());
        assert(total_len(ts) == total_len(ts.drop_last()) + ts.last().len());
    }
}

proof fn lemma_mandatory_count_mono(fields: Seq<FieldModel>, a: int, b: int)
    requires
        0 <= a <= b,
    ensures
        mandatory_count(fields, a) <= mandatory_count(fields, b),
    decreases b - a,
{
    if a < b {
        lemma_mandatory_count_mono(fields, a, b - 1);
    }
}

/// The token list with exactly one marker skipped and replaced equals the
/// fully generic token list with that marker's position overwritten by
/// the replacement literal.
proof fn lemma_one_skip_tokens(fields: Seq<FieldModel>, i: int, yn: YesNo, n: int)
    requires
        0 <= i < fields.len(),
        !fields[i].optional,
        forall|j: int|
            0 <= j < fields.len() && !fields[j].optional ==> fields[j].builder_type is Some,
        forall|j: int|
            0 <= j < fields.len() && !fields[j].optional && j != i ==> fields[j].builder_type
                != fields[i].builder_type,
        0 <= n <= fields.len(),
    ensures
        marker_tokens_prefix(fields, seq![fields[i].builder_type->0], Some(yn), n).len()
            == mandatory_count(fields, n),
        marker_tokens_prefix(fields, Seq::empty(), None, n).len() == mandatory_count(fields, n),
        n <= i ==> marker_tokens_prefix(fields, seq![fields[i].builder_type->0], Some(yn), n)
            == marker_tokens_prefix(fields, Seq::empty(), None, n),
        n > i ==> marker_tokens_prefix(fields, seq![fields[i].builder_type->0], Some(yn), n)
            == marker_tokens_prefix(fields, Seq::empty(), None, n).update(
            mandatory_count(fields, i),
            yes_no_text(yn),
        ),
    decreases n,
{
    let m = fields[i].builder_type->0;
    let skip = seq![m];
    assert(skip[0] == m);
    assert(forall|x: Seq<char>| skip.contains(x) ==> x == skip[0]);
    assert(skip.contains(m));
    assert(!Seq::<Seq<char>>::empty().contains(m));
    if n > 0 {
        lemma_one_skip_tokens(fields, i, yn, n - 1);
        let a1 = marker_tokens_prefix(fields, skip, Some(yn), n - 1);
        let b1 = marker_tokens_prefix(fields, Seq::empty(), None, n - 1);
        let a = marker_tokens_prefix(fields, skip, Some(yn), n);
        let b = marker_tokens_prefix(fields, Seq::empty(), None, n);
        if fields[n - 1].optional {
            assert(a =~= a1);
            assert(b =~= b1);
            if n > i {
                assert(a =~= b1.update(mandatory_count(fields, i), yes_no_text(yn)));
            }
        } else {
            assert(!Seq::<Seq<char>>::empty().contains(fields[n - 1].builder_type->0));
            assert(b =~= b1.push(fields[n - 1].builder_type->0));
            if n - 1 == i {
                assert(skip.contains(fields[n - 1].builder_type->0));
                assert(a =~= a1.push(yes_no_text(yn)));
                assert(a1 == b1);
                assert(mandatory_count(fields, i) == b1.len());
                assert(a =~= b.update(mandatory_count(fields, i), yes_no_text(yn)));
            } else {
                assert(fields[n - 1].builder_type != fields[i].builder_type);
                assert(fields[n - 1].builder_type->0 != m);
                assert(!skip.contains(fields[n - 1].builder_type->0));
                assert(a =~= a1.push(fields[n - 1].builder_type->0));
                if n - 1 < i {
                    assert(a =~= b);
                } else {
                    lemma_mandatory_count_mono(fields, 0, i);
                    assert(mandatory_count(fields, i + 1) == mandatory_count(fields, i) + 1);
                    lemma_mandatory_count_mono(fields, i + 1, n - 1);
                    assert(0 <= mandatory_count(fields, i) < b1.len());
                    assert(a1 == b1.update(mandatory_count(fields, i), yes_no_text(yn)));
                    assert(a =~= b.update(mandatory_count(fields, i), yes_no_text(yn)));
                }
            }
        }
    }
}

/// Setter transition law: the setter is emitted between two
/// instantiations that agree at every position except this field's
/// marker, which alone advances from the unset literal to the set
/// literal; every other marker stays exactly as it was.
pub proof fn lemma_setter_transition(s: StructModel, i: int)
    requires
        wf_markers(s),
        markers_distinct(s),
        0 <= i < s.fields.len(),
        !s.fields[i].optional,
    ensures
        ({
            let generic = state_vector_tokens(s, Seq::empty(), None);
            let tin = state_vector_tokens(s, field_skip(s.fields[i]), Some(YesNo::No));
            let tout = state_vector_tokens(s, field_skip(s.fields[i]), Some(YesNo::Yes));
            let p = s.extra_types.len() + mandatory_count(s.fields, i);
            &&& tin.len() == generic.len()
            &&& tout.len() == generic.len()
            &&& s.extra_types.len() <= p < generic.len()
            &&& tin == generic.update(p, "No"@)
            &&& tout == generic.update(p, "Yes"@)
            &&& tin[p] == "No"@
            &&& tout[p] == "Yes"@
            &&& forall|q: int| 0 <= q < generic.len() && q != p ==> tin[q] == tout[q]
        }),
{
    let nf = s.fields.len() as int;
    lemma_one_skip_tokens(s.fields, i, YesNo::No, nf);
    lemma_one_skip_tokens(s.fields, i, YesNo::Yes, nf);
    lemma_mandatory_count_mono(s.fields, 0, i);
    assert(mandatory_count(s.fields, i + 1) == mandatory_count(s.fields, i) + 1);
    lemma_mandatory_count_mono(s.fields, i + 1, nf);
    assert(field_skip(s.fields[i]) == seq![s.fields[i].builder_type->0]);
    let generic = state_vector_tokens(s, Seq::empty(), None);
    let tin = state_vector_tokens(s, field_skip(s.fields[i]), Some(YesNo::No));
    let tout = state_vector_tokens(s, field_skip(s.fields[i]), Some(YesNo::Yes));
    let mc = mandatory_count(s.fields, i);
    let p = s.extra_types.len() + mc;
    assert(0 <= mc < marker_tokens_prefix(s.fields, Seq::empty(), None, nf).len());
    assert(tin =~= generic.update(p, "No"@));
    assert(tout =~= generic.update(p, "Yes"@));
}

/// Getter gating law: the getter's implementation header instantiates
/// exactly this field's marker — and no other — concretely to the set
/// literal; every other marker stays generic, so the getter is
/// well-formed only where this field's marker is concretely set.
pub proof fn lemma_getter_gating(s: StructModel, i: int)
    requires
        wf_markers(s),
        markers_distinct(s),
        0 <= i < s.fields.len(),
        !s.fields[i].optional,
    ensures
        ({
            let generic = state_vector_tokens(s, Seq::empty(), None);
            let tget = state_vector_tokens(s, field_skip(s.fields[i]), Some(YesNo::Yes));
            let p = s.extra_types.len() + mandatory_count(s.fields, i);
            &&& tget.len() == generic.len()
            &&& s.extra_types.len() <= p < generic.len()
            &&& tget == generic.update(p, "Yes"@)
            &&& tget[p] == "Yes"@
            &&& forall|q: int| 0 <= q < generic.len() && q != p ==> tget[q] == generic[q]
        }),
{
    let nf = s.fields.len() as int;
    lemma_one_skip_tokens(s.fields, i, YesNo::Yes, nf);
    lemma_mandatory_count_mono(s.fields, 0, i);
    assert(mandatory_count(s.fields, i + 1) == mandatory_count(s.fields, i) + 1);
    lemma_mandatory_count_mono(s.fields, i + 1, nf);
    assert(field_skip(s.fields[i]) == seq![s.fields[i].builder_type->0]);
    let generic = state_vector_tokens(s, Seq::empty(), None);
    let tget = state_vector_tokens(s, field_skip(s.fields[i]), Some(YesNo::Yes));
    let mc = mandatory_count(s.fields, i);
    let p = s.extra_types.len() + mc;
    assert(0 <= mc < marker_tokens_prefix(s.fields, Seq::empty(), None, nf).len());
    assert(tget =~= generic.update(p, "Yes"@));
}

proof fn lemma_all_tokens_yes(fields: Seq<FieldModel>, yn: YesNo, n: int)
    requires
        0 <= n,
    ensures
        all_tokens_prefix(fields, yn, n).len() == mandatory_count(fields, n),
        forall|q: int|
            0 <= q < all_tokens_prefix(fields, yn, n).len() ==> all_tokens_prefix(fields, yn, n)[q]
                == yes_no_text(yn),
    decreases n,
{
    if n > 0 {
        lemma_all_tokens_yes(fields, yn, n - 1);
    }
}

proof fn lemma_all_markers_contains(fields: Seq<FieldModel>, j: int, n: int)
    requires
        0 <= j < n <= fields.len(),
        !fields[j].optional,
    ensures
        all_markers_prefix(fields, n).contains(fields[j].builder_type->0),
    decreases n,
{
    if j == n - 1 {
        assert(all_markers_prefix(fields, n)[all_markers_prefix(fields, n - 1).len() as int]
            == fields[j].builder_type->0);
    } else {
        lemma_all_markers_contains(fields, j, n - 1);
        let pre = all_markers_prefix(fields, n - 1);
        let k = choose|k: int| 0 <= k < pre.len() && pre[k] == fields[j].builder_type->0;
        assert(all_markers_prefix(fields, n)[k] == fields[j].builder_type->0);
    }
}

proof fn lemma_where_markers_all_skipped(fields: Seq<FieldModel>, skip: Seq<Seq<char>>, n: int)
    requires
        0 <= n <= fields.len(),
        forall|j: int|
            0 <= j < fields.len() && !fields[j].optional ==> skip.contains(
                fields[j].builder_type->0,
            ),
    ensures
        where_marker_prefix(fields, skip, n) == Seq::<char>::empty(),
    decreases n,
{
    if n > 0 {
        lemma_where_markers_all_skipped(fields, skip, n - 1);
        assert(where_marker_prefix(fields, skip, n) =~= Seq::<char>::empty());
    }
}

/// Completion exclusivity: the completion block's implementation header
/// resolves every mandatory marker concretely to the set literal — no
/// marker is left generic or unset — and its constraint block keeps no
/// marker bound, only the verbatim extra clauses.  Its constraints are
/// therefore met exactly in the all-set instantiation.
pub proof fn lemma_completion_gate(s: StructModel)
    requires
        wf_markers(s),
    ensures
        ({
            let ts = s.extra_types + all_tokens_prefix(s.fields, YesNo::Yes, s.fields.len() as int);
            &&& ts.len() == s.extra_types.len() + mandatory_count(s.fields, s.fields.len() as int)
            &&& forall|q: int| s.extra_types.len() <= q < ts.len() ==> ts[q] == "Yes"@
            &&& spec_where_body(s, all_markers(s)) == where_extra_prefix(
                s.extra_wheres,
                s.extra_wheres.len() as int,
            )
        }),
{
    let nf = s.fields.len() as int;
    lemma_all_tokens_yes(s.fields, YesNo::Yes, nf);
    assert forall|j: int| 0 <= j < nf && !s.fields[j].optional implies all_markers(s).contains(
        s.fields[j].builder_type->0,
    ) by {
        lemma_all_markers_contains(s.fields, j, nf);
    }
    lemma_where_markers_all_skipped(s.fields, all_markers(s), nf);
    assert(spec_where_body(s, all_markers(s)) =~= where_extra_prefix(
        s.extra_wheres,
        s.extra_wheres.len() as int,
    ));
}

} // verus!
