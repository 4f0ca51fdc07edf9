//! State vector calculator and bound clause builder: the generic-argument
//! text and the constraint block for a type reference, given the subset of
//! mandatory markers to resolve.

use vstd::prelude::*;

use crate::model::Field;
use crate::model::FieldModel;
use crate::model::ConstructorFieldModel;
use crate::model::Struct;
use crate::model::StructModel;
use crate::model::YesNo;
use crate::model::wf_markers;

verus! {

/// The storage type of one field: bare when it has an initializer, wrapped
/// in `Option` otherwise.
pub open spec fn spec_calculate_type(f: FieldModel) -> Seq<char> {
    if f.initializer is Some {
        f.field_type
    } else {
        "Option<"@ + f.field_type + ">"@
    }
}

/// The rendering of a concrete marker state.
pub open spec fn yes_no_text(yn: YesNo) -> Seq<char> {
    match yn {
        YesNo::Yes => "Yes"@,
        YesNo::No => "No"@,
    }
}

/// Comma-join with `", "` between tokens, no leading or trailing separator.
pub open spec fn join_comma(ts: Seq<Seq<char>>) -> Seq<char>
    decreases ts.len(),
{
    if ts.len() == 0 {
        Seq::empty()
    } else if ts.len() == 1 {
        ts[0]
    } else {
        join_comma(ts.drop_last()) + ", "@ + ts.last()
    }
}

pub proof fn lemma_ctor_prefix_len(cs: Seq<ConstructorFieldModel>, n: int)
    requires
        0 <= n,
    ensures
        ctor_param_tokens_prefix(cs, n).len() == n,
    decreases n,
{
    if n > 0 {
        lemma_ctor_prefix_len(cs, n - 1);
    }
}

pub proof fn lemma_join_comma_push(ts: Seq<Seq<char>>, x: Seq<char>)
    ensures
        join_comma(ts.push(x)) == if ts.len() == 0 {
            x
        } else {
            join_comma(ts) + ", "@ + x
        },
{
    assert(ts.push(x).drop_last() =~= ts);
    assert(ts.push(x).last() == x);
    if ts.len() == 0 {
        assert(ts.push(x)[0] == x);
    }
}

/// The `name: type` parameter token of one constructor-only field.
pub open spec fn ctor_param_token(c: ConstructorFieldModel) -> Seq<char> {
    c.name + ": "@ + c.field_type
}

/// The parameter tokens of the first `n` constructor-only fields.
pub open spec fn ctor_param_tokens_prefix(cs: Seq<ConstructorFieldModel>, n: int) -> Seq<
    Seq<char>,
>
    decreases n,
{
    if n <= 0 {
        Seq::empty()
    } else {
        ctor_param_tokens_prefix(cs, n - 1).push(ctor_param_token(cs[n - 1]))
    }
}

/// The generic-argument tokens one field contributes, given the skip set
/// and the optional replacement literal: an optional field contributes
/// nothing; a skipped marker contributes the replacement literal if one is
/// given, otherwise nothing; any other marker is emitted unchanged.
pub open spec fn field_marker_tokens(
    f: FieldModel,
    skip: Seq<Seq<char>>,
    replace: Option<YesNo>,
) -> Seq<Seq<char>> {
    if f.optional {
        Seq::empty()
    } else if skip.contains(f.builder_type->0) {
        match replace {
            Some(yn) => seq![yes_no_text(yn)],
            None => Seq::empty(),
        }
    } else {
        seq![f.builder_type->0]
    }
}

/// The marker tokens contributed by the first `n` fields.
pub open spec fn marker_tokens_prefix(
    fields: Seq<FieldModel>,
    skip: Seq<Seq<char>>,
    replace: Option<YesNo>,
    n: int,
) -> Seq<Seq<char>>
    decreases n,
{
    if n <= 0 {
        Seq::empty()
    } else {
        marker_tokens_prefix(fields, skip, replace, n - 1) + field_marker_tokens(
            fields[n - 1],
            skip,
            replace,
        )
    }
}

/// The full generic-argument token list: the extra type parameters first,
/// then the marker tokens of the mandatory fields in declared order.
pub open spec fn state_vector_tokens(
    s: StructModel,
    skip: Seq<Seq<char>>,
    replace: Option<YesNo>,
) -> Seq<Seq<char>> {
    s.extra_types + marker_tokens_prefix(s.fields, skip, replace, s.fields.len() as int)
}

/// Angle-bracket wrapping of a non-empty joined token text; an empty text
/// stays the empty string.
pub open spec fn wrap_type_args(body: Seq<char>) -> Seq<char> {
    if body.len() == 0 {
        Seq::empty()
    } else {
        "<"@ + body + ">"@
    }
}

/// What `calculate_type_description` returns.
pub open spec fn spec_type_description(
    s: StructModel,
    skip: Seq<Seq<char>>,
    replace: Option<YesNo>,
) -> Seq<char> {
    wrap_type_args(join_comma(state_vector_tokens(s, skip, replace)))
}

/// The tokens of the instantiation that resolves every marker to the one
/// literal `yn`: the extra type parameters, then one literal per mandatory
/// field.
pub open spec fn all_tokens_prefix(fields: Seq<FieldModel>, yn: YesNo, n: int) -> Seq<Seq<char>>
    decreases n,
{
    if n <= 0 {
        Seq::empty()
    } else {
        all_tokens_prefix(fields, yn, n - 1) + (if fields[n - 1].optional {
            Seq::<Seq<char>>::empty()
        } else {
            seq![yes_no_text(yn)]
        })
    }
}

/// What `calculate_type_description_all` returns.
pub open spec fn spec_type_description_all(s: StructModel, yn: YesNo) -> Seq<char> {
    wrap_type_args(
        join_comma(s.extra_types + all_tokens_prefix(s.fields, yn, s.fields.len() as int)),
    )
}

/// The constraint line of one mandatory marker that is not skipped.
pub open spec fn where_marker_line(m: Seq<char>) -> Seq<char> {
    "\t"@ + m + " : ToAssign,\n"@
}

/// The marker constraint lines of the first `n` fields.
pub open spec fn where_marker_prefix(
    fields: Seq<FieldModel>,
    skip: Seq<Seq<char>>,
    n: int,
) -> Seq<char>
    decreases n,
{
    if n <= 0 {
        Seq::empty()
    } else {
        where_marker_prefix(fields, skip, n - 1) + (if !fields[n - 1].optional && !skip.contains(
            fields[n - 1].builder_type->0,
        ) {
            where_marker_line(fields[n - 1].builder_type->0)
        } else {
            Seq::<char>::empty()
        })
    }
}

/// The verbatim extra bound lines among the first `n` entries.
pub open spec fn where_extra_prefix(ews: Seq<Seq<char>>, n: int) -> Seq<char>
    decreases n,
{
    if n <= 0 {
        Seq::empty()
    } else {
        where_extra_prefix(ews, n - 1) + "\t"@ + ews[n - 1] + ",\n"@
    }
}

/// The body of the constraint block: marker constraints first, then the
/// verbatim extra bounds.
pub open spec fn spec_where_body(s: StructModel, skip: Seq<Seq<char>>) -> Seq<char> {
    where_marker_prefix(s.fields, skip, s.fields.len() as int) + where_extra_prefix(
        s.extra_wheres,
        s.extra_wheres.len() as int,
    )
}

/// What `calculate_where` returns: no block at all when there is no
/// constraint.
pub open spec fn spec_calculate_where(s: StructModel, skip: Seq<Seq<char>>) -> Seq<char> {
    if spec_where_body(s, skip).len() == 0 {
        Seq::empty()
    } else {
        "where\n"@ + spec_where_body(s, skip)
    }
}

/// Whether `x` occurs in `list`.
pub fn contains_string(list: &[String], x: &String) -> (r: bool)
    ensures
        r == list.deep_view().contains(x@),
{
    let n = list.len();
    let mut i: usize = 0;
    while i < n
        invariant
            n == list@.len(),
            0 <= i <= n,
            forall|k: int| 0 <= k < i ==> list.deep_view()[k] != x@,
        decreases n - i,
    {
        let e = &list[i];
        proof {
            assert(list.deep_view()[i as int] == e@);
        }
        if *e == *x {
            return true;
        }
        i = i + 1;
    }
    proof {
        assert(forall|k: int| 0 <= k < list.deep_view().len() ==> list.deep_view()[k] != x@);
    }
    false
}

/// The storage type of one field, as emitted into the struct declaration.
pub fn calculate_type(f: &Field) -> (r: String)
    ensures
        r@ == spec_calculate_type(f@),
{
    match &f.initializer {
        Some(_) => f.field_type.clone(),
        None => {
            let mut s = String::from_str("Option<");
            s.append(f.field_type.as_str());
            s.append(">");
            s
        },
    }
}

/// The parameter list of the factory operation: the constructor-only
/// fields' `name: type` pairs, comma-joined.
pub fn calculate_constructor_parameters(stc: &Struct) -> (r: String)
    ensures
        r@ == join_comma(
            ctor_param_tokens_prefix(stc@.constructor_fields, stc@.constructor_fields.len() as int),
        ),
{
    let mut s = String::new();
    let mut f_first = true;
    let n = stc.constructor_fields.len();
    let mut i: usize = 0;
    while i < n
        invariant
            n == stc@.constructor_fields.len(),
            0 <= i <= n,
            s@ == join_comma(ctor_param_tokens_prefix(stc@.constructor_fields, i as int)),
            f_first == (i == 0),
        decreases n - i,
    {
        let cp = &stc.constructor_fields[i];
        proof {
            assert(stc@.constructor_fields[i as int] == cp@);
            lemma_ctor_prefix_len(stc@.constructor_fields, i as int);
            lemma_join_comma_push(
                ctor_param_tokens_prefix(stc@.constructor_fields, i as int),
                ctor_param_token(cp@),
            );
        }
        if !f_first {
            s.append(", ");
        }
        s.append(cp.name.as_str());
        s.append(": ");
        s.append(cp.field_type.as_str());
        proof {
            assert(s@ =~= join_comma(
                ctor_param_tokens_prefix(stc@.constructor_fields, i as int + 1),
            ));
        }
        f_first = false;
        i = i + 1;
    }
    s
}

/// The generic-argument text for a type reference: the extra type
/// parameters verbatim, then for each mandatory field its marker name —
/// unless the marker is in the skip list, in which case the replacement
/// literal is emitted if one is given and the parameter is dropped
/// entirely otherwise.  A non-empty result is wrapped in angle brackets.
pub fn calculate_type_description(
    stc: &Struct,
    builders_type_to_skip: &[String],
    replace_with: Option<YesNo>,
) -> (r: String)
    requires
        wf_markers(stc@),
    ensures
        r@ == spec_type_description(stc@, builders_type_to_skip.deep_view(), replace_with),
{
    let ghost skip: Seq<Seq<char>> = builders_type_to_skip.deep_view();
    let mut s = String::new();
    let mut f_first = true;
    let ne = stc.extra_types.len();
    let mut i: usize = 0;
    while i < ne
        invariant
            ne == stc@.extra_types.len(),
            0 <= i <= ne,
            s@ == join_comma(stc@.extra_types.take(i as int)),
            f_first == (i == 0),
        decreases ne - i,
    {
        let et = &stc.extra_types[i];
        proof {
            assert(stc@.extra_types[i as int] == et@);
            lemma_join_comma_push(stc@.extra_types.take(i as int), et@);
            assert(stc@.extra_types.take(i as int + 1) =~= stc@.extra_types.take(
                i as int,
            ).push(stc@.extra_types[i as int]));
        }
        if !f_first {
            s.append(", ");
        }
        s.append(et.as_str());
        proof {
            assert(s@ =~= join_comma(stc@.extra_types.take(i as int + 1)));
        }
        f_first = false;
        i = i + 1;
    }
    proof {
        assert(stc@.extra_types.take(ne as int) =~= stc@.extra_types);
        assert(stc@.extra_types + marker_tokens_prefix(stc@.fields, skip, replace_with, 0)
            =~= stc@.extra_types);
    }
    let nf = stc.fields.len();
    let mut j: usize = 0;
    while j < nf
        invariant
            nf == stc@.fields.len(),
            0 <= j <= nf,
            wf_markers(stc@),
            skip == builders_type_to_skip.deep_view(),
            s@ == join_comma(
                stc@.extra_types + marker_tokens_prefix(stc@.fields, skip, replace_with, j as int),
            ),
            f_first == ((stc@.extra_types + marker_tokens_prefix(
                stc@.fields,
                skip,
                replace_with,
                j as int,
            )).len() == 0),
        decreases nf - j,
    {
        let f = &stc.fields[j];
        proof {
            assert(stc@.fields[j as int] == f@);
        }
        let ghost toks = stc@.extra_types + marker_tokens_prefix(
            stc@.fields,
            skip,
            replace_with,
            j as int,
        );
        let ghost toks_next = stc@.extra_types + marker_tokens_prefix(
            stc@.fields,
            skip,
            replace_with,
            j as int + 1,
        );
        if !f.optional {
            let bt = f.builder_type.as_ref().unwrap();
            proof {
                assert(f@.builder_type == Some(bt@));
            }
            if contains_string(builders_type_to_skip, bt) {
                match replace_with {
                    Some(yn) => {
                        proof {
                            lemma_join_comma_push(toks, yes_no_text(yn));
                            assert(toks_next =~= toks.push(yes_no_text(yn)));
                        }
                        if !f_first {
                            s.append(", ");
                        }
                        match yn {
                            YesNo::Yes => s.append("Yes"),
                            YesNo::No => s.append("No"),
                        }
                        proof {
                            assert(s@ =~= join_comma(toks_next));
                        }
                        f_first = false;
                    },
                    None => {
                        proof {
                            assert(toks_next =~= toks);
                        }
                    },
                }
            } else {
                proof {
                    lemma_join_comma_push(toks, bt@);
                    assert(toks_next =~= toks.push(bt@));
                }
                if !f_first {
                    s.append(", ");
                }
                s.append(bt.as_str());
                proof {
                    assert(s@ =~= join_comma(toks_next));
                }
                f_first = false;
            }
        } else {
            proof {
                assert(toks_next =~= toks);
            }
        }
        j = j + 1;
    }
    if s.as_str().is_empty() {
        String::new()
    } else {
        let mut out = String::from_str("<");
        out.append(s.as_str());
        out.append(">");
        out
    }
}

/// The instantiation that resolves every marker to the same concrete
/// state: the extra type parameters, then the `yes_no` literal once per
/// mandatory field, comma-joined and wrapped when non-empty.
pub fn calculate_type_description_all(stc: &Struct, yes_no: YesNo) -> (r: String)
    ensures
        r@ == spec_type_description_all(stc@, yes_no),
{
    let mut s = String::new();
    let mut f_first = true;
    let ne = stc.extra_types.len();
    let mut i: usize = 0;
    while i < ne
        invariant
            ne == stc@.extra_types.len(),
            0 <= i <= ne,
            s@ == join_comma(stc@.extra_types.take(i as int)),
            f_first == (i == 0),
        decreases ne - i,
    {
        let et = &stc.extra_types[i];
        proof {
            assert(stc@.extra_types[i as int] == et@);
            lemma_join_comma_push(stc@.extra_types.take(i as int), et@);
            assert(stc@.extra_types.take(i as int + 1) =~= stc@.extra_types.take(
                i as int,
            ).push(stc@.extra_types[i as int]));
        }
        if !f_first {
            s.append(", ");
        }
        s.append(et.as_str());
        proof {
            assert(s@ =~= join_comma(stc@.extra_types.take(i as int + 1)));
        }
        f_first = false;
        i = i + 1;
    }
    proof {
        assert(stc@.extra_types.take(ne as int) =~= stc@.extra_types);
        assert(stc@.extra_types + all_tokens_prefix(stc@.fields, yes_no, 0) =~= stc@.extra_types);
    }
    let nf = stc.fields.len();
    let mut j: usize = 0;
    while j < nf
        invariant
            nf == stc@.fields.len(),
            0 <= j <= nf,
            s@ == join_comma(stc@.extra_types + all_tokens_prefix(stc@.fields, yes_no, j as int)),
            f_first == ((stc@.extra_types + all_tokens_prefix(
                stc@.fields,
                yes_no,
                j as int,
            )).len() == 0),
        decreases nf - j,
    {
        let f = &stc.fields[j];
        proof {
            assert(stc@.fields[j as int] == f@);
        }
        let ghost toks = stc@.extra_types + all_tokens_prefix(stc@.fields, yes_no, j as int);
        let ghost toks_next = stc@.extra_types + all_tokens_prefix(
            stc@.fields,
            yes_no,
            j as int + 1,
        );
        if !f.optional {
            proof {
                lemma_join_comma_push(toks, yes_no_text(yes_no));
                assert(toks_next =~= toks.push(yes_no_text(yes_no)));
            }
            if !f_first {
                s.append(", ");
            }
            match yes_no {
                YesNo::Yes => s.append("Yes"),
                YesNo::No => s.append("No"),
            }
            proof {
                assert(s@ =~= join_comma(toks_next));
            }
            f_first = false;
        } else {
            proof {
                assert(toks_next =~= toks);
            }
        }
        j = j + 1;
    }
    if s.as_str().is_empty() {
        String::new()
    } else {
        let mut out = String::from_str("<");
        out.append(s.as_str());
        out.append(">");
        out
    }
}

/// The constraint block: one `ToAssign` bound per mandatory marker that
/// is not in the skip list, then the verbatim extra bound clauses; no
/// block at all when both are empty.
pub fn calculate_where(stc: &Struct, builders_type_to_skip: &[String]) -> (r: String)
    requires
        wf_markers(stc@),
    ensures
        r@ == spec_calculate_where(stc@, builders_type_to_skip.deep_view()),
{
    let ghost skip: Seq<Seq<char>> = builders_type_to_skip.deep_view();
    let mut s = String::new();
    let nf = stc.fields.len();
    let mut i: usize = 0;
    while i < nf
        invariant
            nf == stc@.fields.len(),
            0 <= i <= nf,
            wf_markers(stc@),
            skip == builders_type_to_skip.deep_view(),
            s@ == where_marker_prefix(stc@.fields, skip, i as int),
        decreases nf - i,
    {
        let f = &stc.fields[i];
        proof {
            assert(stc@.fields[i as int] == f@);
        }
        if !f.optional {
            let bt = f.builder_type.as_ref().unwrap();
            proof {
                assert(f@.builder_type == Some(bt@));
            }
            if !contains_string(builders_type_to_skip, bt) {
                s.append("\t");
                s.append(bt.as_str());
                s.append(" : ToAssign,\n");
                proof {
                    assert(s@ =~= where_marker_prefix(stc@.fields, skip, i as int + 1));
                }
            } else {
                proof {
                    assert(where_marker_prefix(stc@.fields, skip, i as int + 1)
                        =~= where_marker_prefix(stc@.fields, skip, i as int));
                }
            }
        } else {
            proof {
                assert(where_marker_prefix(stc@.fields, skip, i as int + 1)
                    =~= where_marker_prefix(stc@.fields, skip, i as int));
            }
        }
        i = i + 1;
    }
    let nw = stc.extra_wheres.len();
    let mut w: usize = 0;
    while w < nw
        invariant
            nw == stc@.extra_wheres.len(),
            nf == stc@.fields.len(),
            0 <= w <= nw,
            skip == builders_type_to_skip.deep_view(),
            s@ == where_marker_prefix(stc@.fields, skip, nf as int) + where_extra_prefix(
                stc@.extra_wheres,
                w as int,
            ),
        decreases nw - w,
    {
        let ew = &stc.extra_wheres[w];
        proof {
            assert(stc@.extra_wheres[w as int] == ew@);
        }
        s.append("\t");
        s.append(ew.as_str());
        s.append(",\n");
        proof {
            assert(s@ =~= where_marker_prefix(stc@.fields, skip, nf as int) + where_extra_prefix(
                stc@.extra_wheres,
                w as int + 1,
            ));
        }
        w = w + 1;
    }
    if s.as_str().is_empty() {
        String::new()
    } else {
        let mut out = String::from_str("where\n");
        out.append(s.as_str());
        out
    }
}

} // verus!
