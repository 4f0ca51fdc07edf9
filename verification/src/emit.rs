//! The emitters: storage layout, factory operation, accessors and
//! mutators, the regardless block and the completion gate, and the one
//! entry point that concatenates them in the fixed output order.

use vstd::prelude::*;

use crate::model::Field;
use crate::model::FieldModel;
use crate::model::ConstructorFieldModel;
use crate::model::ConstructorField;
use crate::model::Struct;
use crate::model::StructModel;
use crate::model::YesNo;
use crate::model::GenError;
use crate::model::wf_markers;
use crate::model::pairs_complete;
use crate::model::markers_distinct;
use crate::model::descriptor_valid;
use crate::calc::spec_calculate_type;
use crate::calc::spec_type_description;
use crate::calc::spec_type_description_all;
use crate::calc::spec_calculate_where;
use crate::calc::join_comma;
use crate::calc::ctor_param_tokens_prefix;
use crate::calc::calculate_type;
use crate::calc::calculate_constructor_parameters;
use crate::calc::calculate_type_description;
use crate::calc::calculate_type_description_all;
use crate::calc::calculate_where;

verus! {

/// The marker names of the mandatory fields among the first `n` fields,
/// in declared order.
pub open spec fn all_markers_prefix(fields: Seq<FieldModel>, n: int) -> Seq<Seq<char>>
    decreases n,
{
    if n <= 0 {
        Seq::empty()
    } else {
        all_markers_prefix(fields, n - 1) + (if fields[n - 1].optional {
            Seq::<Seq<char>>::empty()
        } else {
            seq![fields[n - 1].builder_type->0]
        })
    }
}

/// The marker names of all mandatory fields, in declared order.
pub open spec fn all_markers(s: StructModel) -> Seq<Seq<char>> {
    all_markers_prefix(s.fields, s.fields.len() as int)
}

/// The inline hint, emitted before each operation when requested.
pub open spec fn inline_text(s: StructModel) -> Seq<char> {
    if s.inline == Some(true) {
        "#[inline]\n"@
    } else {
        Seq::empty()
    }
}

/// One import line: a trailing semicolon in the descriptor is kept, any
/// other line gets one appended.
pub open spec fn use_line(u: Seq<char>) -> Seq<char> {
    if u.len() > 0 && u.last() == ';' {
        "use "@ + u + "\n"@
    } else {
        "use "@ + u + ";\n"@
    }
}

/// The import lines of the first `n` entries.
pub open spec fn uses_prefix(us: Seq<Seq<char>>, n: int) -> Seq<char>
    decreases n,
{
    if n <= 0 {
        Seq::empty()
    } else {
        uses_prefix(us, n - 1) + use_line(us[n - 1])
    }
}

/// The import section: nothing at all without imports, otherwise the
/// lines followed by a blank line.
pub open spec fn spec_uses_section(s: StructModel) -> Seq<char> {
    if s.uses.len() == 0 {
        Seq::empty()
    } else {
        uses_prefix(s.uses, s.uses.len() as int) + "\n"@
    }
}

/// The derive annotation line, when one is given.
pub open spec fn spec_derive_section(s: StructModel) -> Seq<char> {
    match s.derive {
        Some(d) => "#[derive("@ + d + ")]\n"@,
        None => Seq::empty(),
    }
}

/// One constructor-only field's storage line.
pub open spec fn ctor_field_line(name: Seq<char>, field_type: Seq<char>) -> Seq<char> {
    "\t"@ + name + ": "@ + field_type + ",\n"@
}

/// The constructor-only storage lines of the first `n` entries.
pub open spec fn ctor_field_lines_prefix(s: StructModel, n: int) -> Seq<char>
    decreases n,
{
    if n <= 0 {
        Seq::empty()
    } else {
        ctor_field_lines_prefix(s, n - 1) + ctor_field_line(
            s.constructor_fields[n - 1].name,
            s.constructor_fields[n - 1].field_type,
        )
    }
}

/// The zero-size marker witness lines of the mandatory fields among the
/// first `n` fields: these exist solely so the marker parameters are used.
pub open spec fn phantom_decl_lines_prefix(fields: Seq<FieldModel>, n: int) -> Seq<char>
    decreases n,
{
    if n <= 0 {
        Seq::empty()
    } else {
        phantom_decl_lines_prefix(fields, n - 1) + (if fields[n - 1].optional {
            Seq::<char>::empty()
        } else {
            "\tp_"@ + fields[n - 1].name + ": PhantomData<"@ + fields[n - 1].builder_type->0
                + ">,\n"@
        })
    }
}

/// The value storage lines of the first `n` fields.
pub open spec fn storage_lines_prefix(fields: Seq<FieldModel>, n: int) -> Seq<char>
    decreases n,
{
    if n <= 0 {
        Seq::empty()
    } else {
        storage_lines_prefix(fields, n - 1) + ("\t"@ + fields[n - 1].name + ": "@
            + spec_calculate_type(fields[n - 1]) + ",\n"@)
    }
}

/// The record declaration: fully generic signature, constructor-only
/// fields, marker witnesses, then every field's storage.
pub open spec fn spec_struct_decl(s: StructModel) -> Seq<char> {
    "pub struct "@ + s.name + spec_type_description(s, Seq::empty(), None) + "\n"@
        + spec_calculate_where(s, Seq::empty()) + " {\n"@ + ctor_field_lines_prefix(
        s,
        s.constructor_fields.len() as int,
    ) + phantom_decl_lines_prefix(s.fields, s.fields.len() as int) + storage_lines_prefix(
        s.fields,
        s.fields.len() as int,
    ) + "}\n\n"@
}

/// Collects the marker names of the mandatory fields, in declared order.
pub fn collect_mandatory_markers(stc: &Struct) -> (v: Vec<String>)
    requires
        wf_markers(stc@),
    ensures
        v.deep_view() == all_markers(stc@),
{
    let mut v: Vec<String> = Vec::new();
    let n = stc.fields.len();
    let mut i: usize = 0;
    while i < n
        invariant
            n == stc@.fields.len(),
            0 <= i <= n,
            wf_markers(stc@),
            v.deep_view() == all_markers_prefix(stc@.fields, i as int),
        decreases n - i,
    {
        let f = &stc.fields[i];
        proof {
            assert(stc@.fields[i as int] == f@);
        }
        if !f.optional {
            let bt = f.builder_type.as_ref().unwrap();
            proof {
                assert(f@.builder_type == Some(bt@));
            }
            v.push(bt.clone());
            proof {
                assert(v.deep_view() =~= all_markers_prefix(stc@.fields, i as int + 1));
            }
        } else {
            proof {
                assert(all_markers_prefix(stc@.fields, i as int + 1) =~= all_markers_prefix(
                    stc@.fields,
                    i as int,
                ));
            }
        }
        i = i + 1;
    }
    v
}

/// Emits the import section.
pub fn emit_uses_section(stc: &Struct) -> (r: String)
    ensures
        r@ == spec_uses_section(stc@),
{
    let mut out = String::new();
    if stc.uses.len() == 0 {
        return out;
    }
    let n = stc.uses.len();
    let mut i: usize = 0;
    while i < n
        invariant
            n == stc@.uses.len(),
            0 <= i <= n,
            out@ == uses_prefix(stc@.uses, i as int),
        decreases n - i,
    {
        let u = &stc.uses[i];
        proof {
            assert(stc@.uses[i as int] == u@);
        }
        let l = u.as_str().unicode_len();
        out.append("use ");
        out.append(u.as_str());
        if l > 0 && u.as_str().get_char(l - 1) == ';' {
            out.append("\n");
        } else {
            out.append(";\n");
        }
        proof {
            assert(out@ =~= uses_prefix(stc@.uses, i as int + 1));
        }
        i = i + 1;
    }
    out.append("\n");
    out
}

/// Emits the derive annotation line, when one is given.
pub fn emit_derive_section(stc: &Struct) -> (r: String)
    ensures
        r@ == spec_derive_section(stc@),
{
    let mut out = String::new();
    if let Some(d) = &stc.derive {
        out.append("#[derive(");
        out.append(d.as_str());
        out.append(")]\n");
        proof {
            assert(out@ =~= spec_derive_section(stc@));
        }
    }
    out
}

/// Emits the record declaration with its storage layout.
pub fn emit_struct_decl(stc: &Struct) -> (r: String)
    requires
        wf_markers(stc@),
    ensures
        r@ == spec_struct_decl(stc@),
{
    let empty_skip: Vec<String> = Vec::new();
    proof {
        assert(empty_skip.deep_view() =~= Seq::<Seq<char>>::empty());
    }
    let mut out = String::from_str("pub struct ");
    out.append(stc.name.as_str());
    let d = calculate_type_description(stc, empty_skip.as_slice(), None);
    out.append(d.as_str());
    out.append("\n");
    let w = calculate_where(stc, empty_skip.as_slice());
    out.append(w.as_str());
    out.append(" {\n");
    let nc = stc.constructor_fields.len();
    let mut i: usize = 0;
    let ghost head: Seq<char> = out@;
    while i < nc
        invariant
            nc == stc@.constructor_fields.len(),
            0 <= i <= nc,
            out@ == head + ctor_field_lines_prefix(stc@, i as int),
        decreases nc - i,
    {
        let c = &stc.constructor_fields[i];
        proof {
            assert(stc@.constructor_fields[i as int] == c@);
        }
        out.append("\t");
        out.append(c.name.as_str());
        out.append(": ");
        out.append(c.field_type.as_str());
        out.append(",\n");
        proof {
            assert(out@ =~= head + ctor_field_lines_prefix(stc@, i as int + 1));
        }
        i = i + 1;
    }
    let nf = stc.fields.len();
    let mut j: usize = 0;
    let ghost head2: Seq<char> = out@;
    while j < nf
        invariant
            nf == stc@.fields.len(),
            0 <= j <= nf,
            wf_markers(stc@),
            out@ == head2 + phantom_decl_lines_prefix(stc@.fields, j as int),
        decreases nf - j,
    {
        let f = &stc.fields[j];
        proof {
            assert(stc@.fields[j as int] == f@);
        }
        if !f.optional {
            let bt = f.builder_type.as_ref().unwrap();
            proof {
                assert(f@.builder_type == Some(bt@));
            }
            out.append("\tp_");
            out.append(f.name.as_str());
            out.append(": PhantomData<");
            out.append(bt.as_str());
            out.append(">,\n");
            proof {
                assert(out@ =~= head2 + phantom_decl_lines_prefix(stc@.fields, j as int + 1));
            }
        } else {
            proof {
                assert(phantom_decl_lines_prefix(stc@.fields, j as int + 1)
                    =~= phantom_decl_lines_prefix(stc@.fields, j as int));
            }
        }
        j = j + 1;
    }
    let mut k: usize = 0;
    let ghost head3: Seq<char> = out@;
    while k < nf
        invariant
            nf == stc@.fields.len(),
            0 <= k <= nf,
            out@ == head3 + storage_lines_prefix(stc@.fields, k as int),
        decreases nf - k,
    {
        let f = &stc.fields[k];
        proof {
            assert(stc@.fields[k as int] == f@);
        }
        out.append("\t");
        out.append(f.name.as_str());
        out.append(": ");
        let t = calculate_type(f);
        out.append(t.as_str());
        out.append(",\n");
        proof {
            assert(out@ =~= head3 + storage_lines_prefix(stc@.fields, k as int + 1));
        }
        k = k + 1;
    }
    out.append("}\n\n");
    proof {
        assert(out@ =~= spec_struct_decl(stc@));
    }
    out
}

/// One field's initializer line in the factory body: the initializer
/// expression when one is given, an explicit absent value otherwise.
pub open spec fn init_or_none_line(f: FieldModel) -> Seq<char> {
    match f.initializer {
        Some(init) => "\t\t\t"@ + f.name + ": "@ + init + ",\n"@,
        None => "\t\t\t"@ + f.name + ": None,\n"@,
    }
}

/// The factory body's verbatim copies of the first `n` constructor-only
/// parameters.
pub open spec fn ctor_copy_lines_prefix(s: StructModel, n: int) -> Seq<char>
    decreases n,
{
    if n <= 0 {
        Seq::empty()
    } else {
        ctor_copy_lines_prefix(s, n - 1) + ("\t\t\t"@ + s.constructor_fields[n - 1].name + ",\n"@)
    }
}

/// The factory body's lines for the mandatory fields among the first `n`
/// fields: the unset marker witness, then initializer or absent value.
pub open spec fn ctor_mandatory_lines_prefix(fields: Seq<FieldModel>, n: int) -> Seq<char>
    decreases n,
{
    if n <= 0 {
        Seq::empty()
    } else {
        ctor_mandatory_lines_prefix(fields, n - 1) + (if fields[n - 1].optional {
            Seq::<char>::empty()
        } else {
            "\t\t\tp_"@ + fields[n - 1].name + ": PhantomData {},\n"@ + init_or_none_line(
                fields[n - 1],
            )
        })
    }
}

/// The factory body's lines for the optional fields among the first `n`
/// fields: initializer or absent value.
pub open spec fn ctor_optional_lines_prefix(fields: Seq<FieldModel>, n: int) -> Seq<char>
    decreases n,
{
    if n <= 0 {
        Seq::empty()
    } else {
        ctor_optional_lines_prefix(fields, n - 1) + (if fields[n - 1].optional {
            init_or_none_line(fields[n - 1])
        } else {
            Seq::<char>::empty()
        })
    }
}

/// The factory section: one all-unset operation over the base generic
/// signature, returning the all-unset instantiation.
pub open spec fn spec_ctor_section(s: StructModel) -> Seq<char> {
    "impl"@ + spec_type_description(s, all_markers(s), None) + " "@ + s.name
        + spec_type_description_all(s, YesNo::No) + " "@ + spec_calculate_where(s, all_markers(s))
        + " {\n"@ + inline_text(s) + "\t pub(crate) fn new("@ + join_comma(
        ctor_param_tokens_prefix(s.constructor_fields, s.constructor_fields.len() as int),
    ) + ") -> "@ + s.name + spec_type_description_all(s, YesNo::No) + " {\n\t\t"@ + s.name
        + " {\n"@ + ctor_copy_lines_prefix(s, s.constructor_fields.len() as int)
        + ctor_mandatory_lines_prefix(s.fields, s.fields.len() as int) + ctor_optional_lines_prefix(
        s.fields,
        s.fields.len() as int,
    ) + "\t\t}\n\t}\n}\n\n"@
}

/// Emits one field's initializer line of the factory body.
fn emit_init_or_none_line(f: &Field) -> (r: String)
    ensures
        r@ == init_or_none_line(f@),
{
    let mut out = String::from_str("\t\t\t");
    out.append(f.name.as_str());
    match &f.initializer {
        Some(init) => {
            out.append(": ");
            out.append(init.as_str());
            out.append(",\n");
        },
        None => {
            out.append(": None,\n");
        },
    }
    proof {
        assert(out@ =~= init_or_none_line(f@));
    }
    out
}

/// Emits the factory section.
pub fn emit_ctor_section(stc: &Struct) -> (r: String)
    requires
        wf_markers(stc@),
    ensures
        r@ == spec_ctor_section(stc@),
{
    let abt = collect_mandatory_markers(stc);
    let abt_s = abt.as_slice();
    proof {
        assert(abt_s.deep_view() =~= all_markers(stc@));
    }
    let mut out = String::from_str("impl");
    let d1 = calculate_type_description(stc, abt_s, None);
    out.append(d1.as_str());
    out.append(" ");
    out.append(stc.name.as_str());
    let dall = calculate_type_description_all(stc, YesNo::No);
    out.append(dall.as_str());
    out.append(" ");
    let w = calculate_where(stc, abt_s);
    out.append(w.as_str());
    out.append(" {\n");
    if stc.inline() {
        out.append("#[inline]\n");
    }
    out.append("\t pub(crate) fn new(");
    let params = calculate_constructor_parameters(stc);
    out.append(params.as_str());
    out.append(") -> ");
    out.append(stc.name.as_str());
    out.append(dall.as_str());
    out.append(" {\n\t\t");
    out.append(stc.name.as_str());
    out.append(" {\n");
    let nc = stc.constructor_fields.len();
    let mut i: usize = 0;
    let ghost head: Seq<char> = out@;
    while i < nc
        invariant
            nc == stc@.constructor_fields.len(),
            0 <= i <= nc,
            out@ == head + ctor_copy_lines_prefix(stc@, i as int),
        decreases nc - i,
    {
        let c = &stc.constructor_fields[i];
        proof {
            assert(stc@.constructor_fields[i as int] == c@);
        }
        out.append("\t\t\t");
        out.append(c.name.as_str());
        out.append(",\n");
        proof {
            assert(out@ =~= head + ctor_copy_lines_prefix(stc@, i as int + 1));
        }
        i = i + 1;
    }
    let nf = stc.fields.len();
    let mut j: usize = 0;
    let ghost head2: Seq<char> = out@;
    while j < nf
        invariant
            nf == stc@.fields.len(),
            0 <= j <= nf,
            out@ == head2 + ctor_mandatory_lines_prefix(stc@.fields, j as int),
        decreases nf - j,
    {
        let f = &stc.fields[j];
        proof {
            assert(stc@.fields[j as int] == f@);
        }
        if !f.optional {
            out.append("\t\t\tp_");
            out.append(f.name.as_str());
            out.append(": PhantomData {},\n");
            let l = emit_init_or_none_line(f);
            out.append(l.as_str());
            proof {
                assert(out@ =~= head2 + ctor_mandatory_lines_prefix(stc@.fields, j as int + 1));
            }
        } else {
            proof {
                assert(ctor_mandatory_lines_prefix(stc@.fields, j as int + 1)
                    =~= ctor_mandatory_lines_prefix(stc@.fields, j as int));
            }
        }
        j = j + 1;
    }
    let mut k: usize = 0;
    let ghost head3: Seq<char> = out@;
    while k < nf
        invariant
            nf == stc@.fields.len(),
            0 <= k <= nf,
            out@ == head3 + ctor_optional_lines_prefix(stc@.fields, k as int),
        decreases nf - k,
    {
        let f = &stc.fields[k];
        proof {
            assert(stc@.fields[k as int] == f@);
        }
        if f.optional {
            let l = emit_init_or_none_line(f);
            out.append(l.as_str());
            proof {
                assert(out@ =~= head3 + ctor_optional_lines_prefix(stc@.fields, k as int + 1));
            }
        } else {
            proof {
                assert(ctor_optional_lines_prefix(stc@.fields, k as int + 1)
                    =~= ctor_optional_lines_prefix(stc@.fields, k as int));
            }
        }
        k = k + 1;
    }
    out.append("\t\t}\n\t}\n}\n\n");
    proof {
        assert(out@ =~= spec_ctor_section(stc@));
    }
    out
}

/// The one-marker skip list of a field: its marker name when it has one.
pub open spec fn field_skip(f: FieldModel) -> Seq<Seq<char>> {
    if f.builder_type is Some {
        seq![f.builder_type->0]
    } else {
        Seq::empty()
    }
}

/// A getter's return type text: the storage is handed out unchanged, so
/// an optional field without an initializer is returned still wrapped.
pub open spec fn getter_return_text(f: FieldModel) -> Seq<char> {
    if f.optional && f.initializer is None {
        "Option<"@ + f.field_type + "> {\n"@
    } else {
        f.field_type + " {\n"@
    }
}

/// A getter's body: a mandatory field without an initializer unwraps its
/// storage — absent-while-set is an internal-consistency violation.
pub open spec fn getter_body_text(f: FieldModel) -> Seq<char> {
    "\t\tself."@ + f.name + (if !f.optional && f.initializer is None {
        ".unwrap()\n\t}\n}\n\n"@
    } else {
        "\n\t}\n}\n\n"@
    })
}

/// A setter body's verbatim copies of the first `n` constructor-only
/// fields.
pub open spec fn copy_ctor_lines_prefix(s: StructModel, n: int) -> Seq<char>
    decreases n,
{
    if n <= 0 {
        Seq::empty()
    } else {
        copy_ctor_lines_prefix(s, n - 1) + ("\t\t\t\t"@ + s.constructor_fields[n - 1].name
            + ": self."@ + s.constructor_fields[n - 1].name + ",\n"@)
    }
}

/// A setter body's marker witness lines over the mandatory fields among
/// the first `n`: fresh witnesses, or copies of the existing ones.
pub open spec fn phantom_lines_prefix(fields: Seq<FieldModel>, fresh: bool, n: int) -> Seq<char>
    decreases n,
{
    if n <= 0 {
        Seq::empty()
    } else {
        phantom_lines_prefix(fields, fresh, n - 1) + (if fields[n - 1].optional {
            Seq::<char>::empty()
        } else if fresh {
            "\t\t\t\tp_"@ + fields[n - 1].name + ": PhantomData{},\n"@
        } else {
            "\t\t\t\tp_"@ + fields[n - 1].name + ": self.p_"@ + fields[n - 1].name + ",\n"@
        })
    }
}

/// A setter body's line for one field: the target field is rewritten to
/// the supplied value — raw when its storage is unwrapped by an
/// initializer, wrapped as present otherwise — and every other field is
/// copied unchanged.
pub open spec fn assign_line(g: FieldModel, target: Seq<char>, target_init: bool) -> Seq<char> {
    if g.name == target {
        if target_init {
            "\t\t\t\t"@ + g.name + ",\n"@
        } else {
            "\t\t\t\t"@ + g.name + ": Some("@ + g.name + "),\n"@
        }
    } else {
        "\t\t\t\t"@ + g.name + ": self."@ + g.name + ",\n"@
    }
}

/// A setter body's field lines over the first `n` fields.
pub open spec fn assign_lines_prefix(
    fields: Seq<FieldModel>,
    target: Seq<char>,
    target_init: bool,
    n: int,
) -> Seq<char>
    decreases n,
{
    if n <= 0 {
        Seq::empty()
    } else {
        assign_lines_prefix(fields, target, target_init, n - 1) + assign_line(
            fields[n - 1],
            target,
            target_init,
        )
    }
}

/// A setter's whole record expression body: constructor-only copies,
/// marker witnesses, then every field's line.
pub open spec fn record_body(
    s: StructModel,
    target: Seq<char>,
    target_init: bool,
    fresh: bool,
) -> Seq<char> {
    copy_ctor_lines_prefix(s, s.constructor_fields.len() as int) + phantom_lines_prefix(
        s.fields,
        fresh,
        s.fields.len() as int,
    ) + assign_lines_prefix(s.fields, target, target_init, s.fields.len() as int)
}

/// Emits a setter's record expression body.
fn emit_record_body(stc: &Struct, target: &String, target_init: bool, fresh: bool) -> (r: String)
    ensures
        r@ == record_body(stc@, target@, target_init, fresh),
{
    let mut out = String::new();
    let nc = stc.constructor_fields.len();
    let mut i: usize = 0;
    while i < nc
        invariant
            nc == stc@.constructor_fields.len(),
            0 <= i <= nc,
            out@ == copy_ctor_lines_prefix(stc@, i as int),
        decreases nc - i,
    {
        let c = &stc.constructor_fields[i];
        proof {
            assert(stc@.constructor_fields[i as int] == c@);
        }
        out.append("\t\t\t\t");
        out.append(c.name.as_str());
        out.append(": self.");
        out.append(c.name.as_str());
        out.append(",\n");
        proof {
            assert(out@ =~= copy_ctor_lines_prefix(stc@, i as int + 1));
        }
        i = i + 1;
    }
    let nf = stc.fields.len();
    let mut j: usize = 0;
    let ghost head: Seq<char> = out@;
    while j < nf
        invariant
            nf == stc@.fields.len(),
            0 <= j <= nf,
            out@ == head + phantom_lines_prefix(stc@.fields, fresh, j as int),
        decreases nf - j,
    {
        let f = &stc.fields[j];
        proof {
            assert(stc@.fields[j as int] == f@);
        }
        if !f.optional {
            if fresh {
                out.append("\t\t\t\tp_");
                out.append(f.name.as_str());
                out.append(": PhantomData{},\n");
            } else {
                out.append("\t\t\t\tp_");
                out.append(f.name.as_str());
                out.append(": self.p_");
                out.append(f.name.as_str());
                out.append(",\n");
            }
            proof {
                assert(out@ =~= head + phantom_lines_prefix(stc@.fields, fresh, j as int + 1));
            }
        } else {
            proof {
                assert(phantom_lines_prefix(stc@.fields, fresh, j as int + 1)
                    =~= phantom_lines_prefix(stc@.fields, fresh, j as int));
            }
        }
        j = j + 1;
    }
    let mut k: usize = 0;
    let ghost head2: Seq<char> = out@;
    while k < nf
        invariant
            nf == stc@.fields.len(),
            0 <= k <= nf,
            out@ == head2 + assign_lines_prefix(stc@.fields, target@, target_init, k as int),
        decreases nf - k,
    {
        let g = &stc.fields[k];
        proof {
            assert(stc@.fields[k as int] == g@);
        }
        out.append("\t\t\t\t");
        out.append(g.name.as_str());
        if g.name == *target {
            if target_init {
                out.append(",\n");
            } else {
                out.append(": Some(");
                out.append(g.name.as_str());
                out.append("),\n");
            }
        } else {
            out.append(": self.");
            out.append(g.name.as_str());
            out.append(",\n");
        }
        proof {
            assert(out@ =~= head2 + assign_lines_prefix(
                stc@.fields,
                target@,
                target_init,
                k as int + 1,
            ));
        }
        k = k + 1;
    }
    out
}

/// A mandatory field's getter: well-formed only where this field's marker
/// resolves to the set state; every other marker stays generic.
pub open spec fn mand_getter_text(s: StructModel, f: FieldModel) -> Seq<char> {
    "impl"@ + spec_type_description(s, field_skip(f), None) + " "@ + s.name
        + spec_type_description(s, field_skip(f), Some(YesNo::Yes)) + "\n"@
        + spec_calculate_where(s, field_skip(f)) + "\n{\n"@ + inline_text(s) + "\tfn "@ + f.name
        + "(&self) -> "@ + getter_return_text(f) + getter_body_text(f)
}

/// A mandatory field's setter: callable only while this field's marker is
/// unset, and returning the instantiation with exactly this one marker
/// advanced to set.
pub open spec fn mand_setter_text(s: StructModel, f: FieldModel) -> Seq<char> {
    "impl"@ + spec_type_description(s, field_skip(f), None) + " "@ + s.name
        + spec_type_description(s, field_skip(f), Some(YesNo::No)) + "\n"@
        + spec_calculate_where(s, field_skip(f)) + "\n{\n"@ + inline_text(s) + "\tfn with_"@
        + f.name + "(self, "@ + f.name + ": "@ + f.field_type + ") -> "@ + s.name
        + spec_type_description(s, field_skip(f), Some(YesNo::Yes)) + " {\n"@ + "\t\t"@ + s.name
        + " {\n"@ + record_body(s, f.name, f.initializer is Some, true) + "\t\t}\n\t}\n}\n\n"@
}

/// A field's getter bound to its named external interface; the same
/// gating as the plain getter.
pub open spec fn trait_getter_text(s: StructModel, f: FieldModel) -> Seq<char> {
    "impl"@ + spec_type_description(s, field_skip(f), None) + " "@ + f.trait_get->0 + " for "@
        + s.name + spec_type_description(s, field_skip(f), Some(YesNo::Yes)) + "\n"@
        + spec_calculate_where(s, field_skip(f)) + "\n{\n"@ + inline_text(s) + "\tfn "@ + f.name
        + "(&self) -> "@ + getter_return_text(f) + getter_body_text(f)
}

/// A field's setter bound to its named external interface: the interface
/// binding declares its output type as the record with this marker
/// advanced to set.
pub open spec fn trait_setter_text(s: StructModel, f: FieldModel) -> Seq<char> {
    "impl"@ + spec_type_description(s, field_skip(f), None) + " "@ + f.trait_set->0 + " for "@
        + s.name + spec_type_description(s, field_skip(f), Some(YesNo::No)) + "\n"@
        + spec_calculate_where(s, field_skip(f)) + "\n{\n"@ + "\ttype O = "@ + s.name
        + spec_type_description(s, field_skip(f), Some(YesNo::Yes)) + ";\n\n"@ + inline_text(s)
        + "\tfn with_"@ + f.name + "(self, "@ + f.name + ": "@ + f.field_type
        + ") -> Self::O {\n"@ + "\t\t"@ + s.name + " {\n"@ + record_body(
        s,
        f.name,
        f.initializer is Some,
        true,
    ) + "\t\t}\n\t}\n}\n\n"@
}

/// Builds the one-marker skip list of a field.
fn field_skip_vec(f: &Field) -> (v: Vec<String>)
    ensures
        v.deep_view() == field_skip(f@),
{
    let mut v: Vec<String> = Vec::new();
    match &f.builder_type {
        Some(bt) => {
            v.push(bt.clone());
        },
        None => {},
    }
    proof {
        assert(v.deep_view() =~= field_skip(f@));
    }
    v
}

/// Emits a getter's return type and body.
fn emit_getter_tail(f: &Field) -> (r: String)
    ensures
        r@ == getter_return_text(f@) + getter_body_text(f@),
{
    let mut out = String::new();
    if f.optional && f.initializer.is_none() {
        out.append("Option<");
        out.append(f.field_type.as_str());
        out.append("> {\n");
    } else {
        out.append(f.field_type.as_str());
        out.append(" {\n");
    }
    out.append("\t\tself.");
    out.append(f.name.as_str());
    if !f.optional && f.initializer.is_none() {
        out.append(".unwrap()\n\t}\n}\n\n");
    } else {
        out.append("\n\t}\n}\n\n");
    }
    proof {
        assert(out@ =~= getter_return_text(f@) + getter_body_text(f@));
    }
    out
}

/// Emits one mandatory field's plain getter.
fn emit_mand_getter(stc: &Struct, f: &Field) -> (r: String)
    requires
        wf_markers(stc@),
    ensures
        r@ == mand_getter_text(stc@, f@),
{
    let skip = field_skip_vec(f);
    let skip_s = skip.as_slice();
    proof {
        assert(skip_s.deep_view() =~= field_skip(f@));
    }
    let mut out = String::from_str("impl");
    let d1 = calculate_type_description(stc, skip_s, None);
    out.append(d1.as_str());
    out.append(" ");
    out.append(stc.name.as_str());
    let d2 = calculate_type_description(stc, skip_s, Some(YesNo::Yes));
    out.append(d2.as_str());
    out.append("\n");
    let w = calculate_where(stc, skip_s);
    out.append(w.as_str());
    out.append("\n{\n");
    if stc.inline() {
        out.append("#[inline]\n");
    }
    out.append("\tfn ");
    out.append(f.name.as_str());
    out.append("(&self) -> ");
    let tail = emit_getter_tail(f);
    out.append(tail.as_str());
    proof {
        assert(out@ =~= mand_getter_text(stc@, f@));
    }
    out
}

/// Emits one mandatory field's plain setter.
fn emit_mand_setter(stc: &Struct, f: &Field) -> (r: String)
    requires
        wf_markers(stc@),
    ensures
        r@ == mand_setter_text(stc@, f@),
{
    let skip = field_skip_vec(f);
    let skip_s = skip.as_slice();
    proof {
        assert(skip_s.deep_view() =~= field_skip(f@));
    }
    let mut out = String::from_str("impl");
    let d1 = calculate_type_description(stc, skip_s, None);
    out.append(d1.as_str());
    out.append(" ");
    out.append(stc.name.as_str());
    let d2 = calculate_type_description(stc, skip_s, Some(YesNo::No));
    out.append(d2.as_str());
    out.append("\n");
    let w = calculate_where(stc, skip_s);
    out.append(w.as_str());
    out.append("\n{\n");
    if stc.inline() {
        out.append("#[inline]\n");
    }
    out.append("\tfn with_");
    out.append(f.name.as_str());
    out.append("(self, ");
    out.append(f.name.as_str());
    out.append(": ");
    out.append(f.field_type.as_str());
    out.append(") -> ");
    out.append(stc.name.as_str());
    let d3 = calculate_type_description(stc, skip_s, Some(YesNo::Yes));
    out.append(d3.as_str());
    out.append(" {\n");
    out.append("\t\t");
    out.append(stc.name.as_str());
    out.append(" {\n");
    let body = emit_record_body(stc, &f.name, f.initializer.is_some(), true);
    out.append(body.as_str());
    out.append("\t\t}\n\t}\n}\n\n");
    proof {
        assert(out@ =~= mand_setter_text(stc@, f@));
    }
    out
}

/// Emits one field's interface-bound getter.
fn emit_trait_getter(stc: &Struct, f: &Field) -> (r: String)
    requires
        wf_markers(stc@),
        f@.trait_get is Some,
    ensures
        r@ == trait_getter_text(stc@, f@),
{
    let skip = field_skip_vec(f);
    let skip_s = skip.as_slice();
    proof {
        assert(skip_s.deep_view() =~= field_skip(f@));
    }
    let tg = f.trait_get.as_ref().unwrap();
    proof {
        assert(f@.trait_get == Some(tg@));
    }
    let mut out = String::from_str("impl");
    let d1 = calculate_type_description(stc, skip_s, None);
    out.append(d1.as_str());
    out.append(" ");
    out.append(tg.as_str());
    out.append(" for ");
    out.append(stc.name.as_str());
    let d2 = calculate_type_description(stc, skip_s, Some(YesNo::Yes));
    out.append(d2.as_str());
    out.append("\n");
    let w = calculate_where(stc, skip_s);
    out.append(w.as_str());
    out.append("\n{\n");
    if stc.inline() {
        out.append("#[inline]\n");
    }
    out.append("\tfn ");
    out.append(f.name.as_str());
    out.append("(&self) -> ");
    let tail = emit_getter_tail(f);
    out.append(tail.as_str());
    proof {
        assert(out@ =~= trait_getter_text(stc@, f@));
    }
    out
}

/// Emits one field's interface-bound setter.
fn emit_trait_setter(stc: &Struct, f: &Field) -> (r: String)
    requires
        wf_markers(stc@),
        f@.trait_set is Some,
    ensures
        r@ == trait_setter_text(stc@, f@),
{
    let skip = field_skip_vec(f);
    let skip_s = skip.as_slice();
    proof {
        assert(skip_s.deep_view() =~= field_skip(f@));
    }
    let ts = f.trait_set.as_ref().unwrap();
    proof {
        assert(f@.trait_set == Some(ts@));
    }
    let mut out = String::from_str("impl");
    let d1 = calculate_type_description(stc, skip_s, None);
    out.append(d1.as_str());
    out.append(" ");
    out.append(ts.as_str());
    out.append(" for ");
    out.append(stc.name.as_str());
    let d2 = calculate_type_description(stc, skip_s, Some(YesNo::No));
    out.append(d2.as_str());
    out.append("\n");
    let w = calculate_where(stc, skip_s);
    out.append(w.as_str());
    out.append("\n{\n");
    out.append("\ttype O = ");
    out.append(stc.name.as_str());
    let d3 = calculate_type_description(stc, skip_s, Some(YesNo::Yes));
    out.append(d3.as_str());
    out.append(";\n\n");
    if stc.inline() {
        out.append("#[inline]\n");
    }
    out.append("\tfn with_");
    out.append(f.name.as_str());
    out.append("(self, ");
    out.append(f.name.as_str());
    out.append(": ");
    out.append(f.field_type.as_str());
    out.append(") -> Self::O {\n");
    out.append("\t\t");
    out.append(stc.name.as_str());
    out.append(" {\n");
    let body = emit_record_body(stc, &f.name, f.initializer.is_some(), true);
    out.append(body.as_str());
    out.append("\t\t}\n\t}\n}\n\n");
    proof {
        assert(out@ =~= trait_setter_text(stc@, f@));
    }
    out
}

/// A constructor-only field's getter bound to its named interface.
pub open spec fn ctor_trait_getter_text(s: StructModel, c: ConstructorFieldModel) -> Seq<char> {
    "impl"@ + spec_type_description(s, Seq::empty(), None) + " "@ + c.trait_get->0 + " for "@
        + s.name + spec_type_description(s, Seq::empty(), None) + "\n"@ + spec_calculate_where(
        s,
        Seq::empty(),
    ) + "{\n"@ + inline_text(s) + "\tfn "@ + c.name + "(&self) -> "@ + c.field_type
        + " {\n\t\tself."@ + c.name + "\n\t}\n\n"@ + "}\n\n"@
}

/// A constructor-only field's plain getter, collected into the
/// regardless block.
pub open spec fn ctor_plain_getter_text(s: StructModel, c: ConstructorFieldModel) -> Seq<char> {
    inline_text(s) + "\tfn "@ + c.name + "(&self) -> "@ + c.field_type + " {\n\t\tself."@ + c.name
        + "\n\t}\n\n"@
}

/// An optional field's unconditional getter, collected into the
/// regardless block.
pub open spec fn opt_getter_text(s: StructModel, f: FieldModel) -> Seq<char> {
    inline_text(s) + "\tpub fn "@ + f.name + "(&self) -> "@ + getter_return_text(f)
        + "\t\tself."@ + f.name + "\n"@ + "\t}\n\n"@
}

/// An optional field's unconditional setter, collected into the
/// regardless block: every marker witness is copied unchanged and the
/// signature stays fully generic.
pub open spec fn opt_setter_text(s: StructModel, f: FieldModel) -> Seq<char> {
    inline_text(s) + "\tfn with_"@ + f.name + "(self, "@ + f.name + ": "@ + f.field_type
        + ") -> Self {\n"@ + "\t\t"@ + s.name + " {\n"@ + record_body(
        s,
        f.name,
        f.initializer is Some,
        false,
    ) + "\t\t}\n\t}\n\n"@
}

/// The interface-bound constructor-field getters among the first `n`.
pub open spec fn ctor_trait_getters_prefix(s: StructModel, n: int) -> Seq<char>
    decreases n,
{
    if n <= 0 {
        Seq::empty()
    } else {
        ctor_trait_getters_prefix(s, n - 1) + (if s.constructor_fields[n - 1].trait_get is Some {
            ctor_trait_getter_text(s, s.constructor_fields[n - 1])
        } else {
            Seq::<char>::empty()
        })
    }
}

/// The plain constructor-field getters among the first `n`.
pub open spec fn ctor_plain_getters_prefix(s: StructModel, n: int) -> Seq<char>
    decreases n,
{
    if n <= 0 {
        Seq::empty()
    } else {
        ctor_plain_getters_prefix(s, n - 1) + (if s.constructor_fields[n - 1].trait_get is None {
            ctor_plain_getter_text(s, s.constructor_fields[n - 1])
        } else {
            Seq::<char>::empty()
        })
    }
}

/// The plain mandatory getters among the first `n` fields.
pub open spec fn mand_getters_prefix(s: StructModel, n: int) -> Seq<char>
    decreases n,
{
    if n <= 0 {
        Seq::empty()
    } else {
        mand_getters_prefix(s, n - 1) + (if !s.fields[n - 1].optional && s.fields[n
            - 1].trait_get is None {
            mand_getter_text(s, s.fields[n - 1])
        } else {
            Seq::<char>::empty()
        })
    }
}

/// The plain mandatory setters among the first `n` fields.
pub open spec fn mand_setters_prefix(s: StructModel, n: int) -> Seq<char>
    decreases n,
{
    if n <= 0 {
        Seq::empty()
    } else {
        mand_setters_prefix(s, n - 1) + (if !s.fields[n - 1].optional && s.fields[n
            - 1].trait_get is None {
            mand_setter_text(s, s.fields[n - 1])
        } else {
            Seq::<char>::empty()
        })
    }
}

/// The interface-bound getters among the first `n` fields.
pub open spec fn trait_getters_prefix(s: StructModel, n: int) -> Seq<char>
    decreases n,
{
    if n <= 0 {
        Seq::empty()
    } else {
        trait_getters_prefix(s, n - 1) + (if s.fields[n - 1].trait_get is Some {
            trait_getter_text(s, s.fields[n - 1])
        } else {
            Seq::<char>::empty()
        })
    }
}

/// The interface-bound setters among the first `n` fields.
pub open spec fn trait_setters_prefix(s: StructModel, n: int) -> Seq<char>
    decreases n,
{
    if n <= 0 {
        Seq::empty()
    } else {
        trait_setters_prefix(s, n - 1) + (if s.fields[n - 1].trait_get is Some {
            trait_setter_text(s, s.fields[n - 1])
        } else {
            Seq::<char>::empty()
        })
    }
}

/// The unconditional optional getters among the first `n` fields.
pub open spec fn opt_getters_prefix(s: StructModel, n: int) -> Seq<char>
    decreases n,
{
    if n <= 0 {
        Seq::empty()
    } else {
        opt_getters_prefix(s, n - 1) + (if s.fields[n - 1].optional && s.fields[n
            - 1].trait_get is None {
            opt_getter_text(s, s.fields[n - 1])
        } else {
            Seq::<char>::empty()
        })
    }
}

/// The unconditional optional setters among the first `n` fields.
pub open spec fn opt_setters_prefix(s: StructModel, n: int) -> Seq<char>
    decreases n,
{
    if n <= 0 {
        Seq::empty()
    } else {
        opt_setters_prefix(s, n - 1) + (if s.fields[n - 1].optional && s.fields[n
            - 1].trait_get is None {
            opt_setter_text(s, s.fields[n - 1])
        } else {
            Seq::<char>::empty()
        })
    }
}

/// The accumulated regardless text: plain constructor-field getters, then
/// optional getters, then optional setters.
pub open spec fn regardless_text(s: StructModel) -> Seq<char> {
    ctor_plain_getters_prefix(s, s.constructor_fields.len() as int) + opt_getters_prefix(
        s,
        s.fields.len() as int,
    ) + opt_setters_prefix(s, s.fields.len() as int)
}

/// The block of methods callable in every instantiation.
pub open spec fn spec_regardless_block(s: StructModel) -> Seq<char> {
    "// methods callable regardless\n"@ + "impl"@ + spec_type_description(s, Seq::empty(), None)
        + " "@ + s.name + spec_type_description(s, Seq::empty(), None) + "\n"@
        + spec_calculate_where(s, Seq::empty()) + "\n"@ + "{\n"@ + regardless_text(s) + "\n}\n"@
}

/// The completion gate: an empty implementation block, well-formed only
/// in the all-set instantiation.
pub open spec fn spec_gate_section(s: StructModel) -> Seq<char> {
    "\n// methods callable only when every mandatory field has been filled\n"@ + "impl"@
        + spec_type_description(s, all_markers(s), None) + " "@ + s.name
        + spec_type_description_all(s, YesNo::Yes) + "\n"@ + spec_calculate_where(
        s,
        all_markers(s),
    ) + "\n"@ + "{\n}\n"@
}

/// The whole generated text, in the fixed output order.
pub open spec fn spec_generate(s: StructModel) -> Seq<char> {
    spec_uses_section(s) + spec_derive_section(s) + spec_struct_decl(s) + spec_ctor_section(s)
        + ctor_trait_getters_prefix(s, s.constructor_fields.len() as int)
        + "\n//get mandatory no traits methods\n"@ + mand_getters_prefix(s, s.fields.len() as int)
        + "\n//set mandatory no traits methods\n"@ + mand_setters_prefix(s, s.fields.len() as int)
        + trait_getters_prefix(s, s.fields.len() as int) + trait_setters_prefix(
        s,
        s.fields.len() as int,
    ) + spec_regardless_block(s) + spec_gate_section(s)
}

/// Emits one constructor-only field's interface-bound getter.
fn emit_ctor_trait_getter(stc: &Struct, c: &ConstructorField) -> (r: String)
    requires
        wf_markers(stc@),
        c@.trait_get is Some,
    ensures
        r@ == ctor_trait_getter_text(stc@, c@),
{
    let empty_skip: Vec<String> = Vec::new();
    let empty_s = empty_skip.as_slice();
    proof {
        assert(empty_s.deep_view() =~= Seq::<Seq<char>>::empty());
    }
    let tg = c.trait_get.as_ref().unwrap();
    proof {
        assert(c@.trait_get == Some(tg@));
    }
    let mut out = String::from_str("impl");
    let d0 = calculate_type_description(stc, empty_s, None);
    out.append(d0.as_str());
    out.append(" ");
    out.append(tg.as_str());
    out.append(" for ");
    out.append(stc.name.as_str());
    out.append(d0.as_str());
    out.append("\n");
    let w0 = calculate_where(stc, empty_s);
    out.append(w0.as_str());
    out.append("{\n");
    if stc.inline() {
        out.append("#[inline]\n");
    }
    out.append("\tfn ");
    out.append(c.name.as_str());
    out.append("(&self) -> ");
    out.append(c.field_type.as_str());
    out.append(" {\n\t\tself.");
    out.append(c.name.as_str());
    out.append("\n\t}\n\n");
    out.append("}\n\n");
    proof {
        assert(out@ =~= ctor_trait_getter_text(stc@, c@));
    }
    out
}

/// Emits the interface-bound constructor-field getter section.
fn emit_ctor_trait_getters(stc: &Struct) -> (r: String)
    requires
        wf_markers(stc@),
    ensures
        r@ == ctor_trait_getters_prefix(stc@, stc@.constructor_fields.len() as int),
{
    let mut out = String::new();
    let nc = stc.constructor_fields.len();
    let mut i: usize = 0;
    while i < nc
        invariant
            nc == stc@.constructor_fields.len(),
            0 <= i <= nc,
            wf_markers(stc@),
            out@ == ctor_trait_getters_prefix(stc@, i as int),
        decreases nc - i,
    {
        let c = &stc.constructor_fields[i];
        proof {
            assert(stc@.constructor_fields[i as int] == c@);
        }
        if c.trait_get.is_some() {
            let t = emit_ctor_trait_getter(stc, c);
            out.append(t.as_str());
            proof {
                assert(out@ =~= ctor_trait_getters_prefix(stc@, i as int + 1));
            }
        } else {
            proof {
                assert(ctor_trait_getters_prefix(stc@, i as int + 1) =~= ctor_trait_getters_prefix(
                    stc@,
                    i as int,
                ));
            }
        }
        i = i + 1;
    }
    out
}

/// Emits the plain mandatory getter section, header line included.
fn emit_mand_getters_section(stc: &Struct) -> (r: String)
    requires
        wf_markers(stc@),
    ensures
        r@ == "\n//get mandatory no traits methods\n"@ + mand_getters_prefix(
            stc@,
            stc@.fields.len() as int,
        ),
{
    let mut out = String::from_str("\n//get mandatory no traits methods\n");
    let ghost head: Seq<char> = out@;
    let nf = stc.fields.len();
    let mut i: usize = 0;
    while i < nf
        invariant
            nf == stc@.fields.len(),
            0 <= i <= nf,
            wf_markers(stc@),
            out@ == head + mand_getters_prefix(stc@, i as int),
        decreases nf - i,
    {
        let f = &stc.fields[i];
        proof {
            assert(stc@.fields[i as int] == f@);
        }
        if !f.optional && f.trait_get.is_none() {
            let t = emit_mand_getter(stc, f);
            out.append(t.as_str());
            proof {
                assert(out@ =~= head + mand_getters_prefix(stc@, i as int + 1));
            }
        } else {
            proof {
                assert(mand_getters_prefix(stc@, i as int + 1) =~= mand_getters_prefix(
                    stc@,
                    i as int,
                ));
            }
        }
        i = i + 1;
    }
    out
}

/// Emits the plain mandatory setter section, header line included.
fn emit_mand_setters_section(stc: &Struct) -> (r: String)
    requires
        wf_markers(stc@),
    ensures
        r@ == "\n//set mandatory no traits methods\n"@ + mand_setters_prefix(
            stc@,
            stc@.fields.len() as int,
        ),
{
    let mut out = String::from_str("\n//set mandatory no traits methods\n");
    let ghost head: Seq<char> = out@;
    let nf = stc.fields.len();
    let mut i: usize = 0;
    while i < nf
        invariant
            nf == stc@.fields.len(),
            0 <= i <= nf,
            wf_markers(stc@),
            out@ == head + mand_setters_prefix(stc@, i as int),
        decreases nf - i,
    {
        let f = &stc.fields[i];
        proof {
            assert(stc@.fields[i as int] == f@);
        }
        if !f.optional && f.trait_get.is_none() {
            let t = emit_mand_setter(stc, f);
            out.append(t.as_str());
            proof {
                assert(out@ =~= head + mand_setters_prefix(stc@, i as int + 1));
            }
        } else {
            proof {
                assert(mand_setters_prefix(stc@, i as int + 1) =~= mand_setters_prefix(
                    stc@,
                    i as int,
                ));
            }
        }
        i = i + 1;
    }
    out
}

/// Emits the interface-bound getter section.
fn emit_trait_getters_section(stc: &Struct) -> (r: String)
    requires
        wf_markers(stc@),
    ensures
        r@ == trait_getters_prefix(stc@, stc@.fields.len() as int),
{
    let mut out = String::new();
    let nf = stc.fields.len();
    let mut i: usize = 0;
    while i < nf
        invariant
            nf == stc@.fields.len(),
            0 <= i <= nf,
            wf_markers(stc@),
            out@ == trait_getters_prefix(stc@, i as int),
        decreases nf - i,
    {
        let f = &stc.fields[i];
        proof {
            assert(stc@.fields[i as int] == f@);
        }
        if f.trait_get.is_some() {
            let t = emit_trait_getter(stc, f);
            out.append(t.as_str());
            proof {
                assert(out@ =~= trait_getters_prefix(stc@, i as int + 1));
            }
        } else {
            proof {
                assert(trait_getters_prefix(stc@, i as int + 1) =~= trait_getters_prefix(
                    stc@,
                    i as int,
                ));
            }
        }
        i = i + 1;
    }
    out
}

/// Emits the interface-bound setter section.
fn emit_trait_setters_section(stc: &Struct) -> (r: String)
    requires
        wf_markers(stc@),
        pairs_complete(stc@),
    ensures
        r@ == trait_setters_prefix(stc@, stc@.fields.len() as int),
{
    let mut out = String::new();
    let nf = stc.fields.len();
    let mut i: usize = 0;
    while i < nf
        invariant
            nf == stc@.fields.len(),
            0 <= i <= nf,
            wf_markers(stc@),
            pairs_complete(stc@),
            out@ == trait_setters_prefix(stc@, i as int),
        decreases nf - i,
    {
        let f = &stc.fields[i];
        proof {
            assert(stc@.fields[i as int] == f@);
        }
        if f.trait_get.is_some() {
            let t = emit_trait_setter(stc, f);
            out.append(t.as_str());
            proof {
                assert(out@ =~= trait_setters_prefix(stc@, i as int + 1));
            }
        } else {
            proof {
                assert(trait_setters_prefix(stc@, i as int + 1) =~= trait_setters_prefix(
                    stc@,
                    i as int,
                ));
            }
        }
        i = i + 1;
    }
    out
}

/// Emits one optional field's unconditional getter.
fn emit_opt_getter(stc: &Struct, f: &Field) -> (r: String)
    ensures
        r@ == opt_getter_text(stc@, f@),
{
    let mut out = String::new();
    if stc.inline() {
        out.append("#[inline]\n");
    }
    out.append("\tpub fn ");
    out.append(f.name.as_str());
    out.append("(&self) -> ");
    if f.optional && f.initializer.is_none() {
        out.append("Option<");
        out.append(f.field_type.as_str());
        out.append("> {\n");
    } else {
        out.append(f.field_type.as_str());
        out.append(" {\n");
    }
    out.append("\t\tself.");
    out.append(f.name.as_str());
    out.append("\n");
    out.append("\t}\n\n");
    proof {
        assert(out@ =~= opt_getter_text(stc@, f@));
    }
    out
}

/// Emits one optional field's unconditional setter.
fn emit_opt_setter(stc: &Struct, f: &Field) -> (r: String)
    ensures
        r@ == opt_setter_text(stc@, f@),
{
    let mut out = String::new();
    if stc.inline() {
        out.append("#[inline]\n");
    }
    out.append("\tfn with_");
    out.append(f.name.as_str());
    out.append("(self, ");
    out.append(f.name.as_str());
    out.append(": ");
    out.append(f.field_type.as_str());
    out.append(") -> Self {\n");
    out.append("\t\t");
    out.append(stc.name.as_str());
    out.append(" {\n");
    let body = emit_record_body(stc, &f.name, f.initializer.is_some(), false);
    out.append(body.as_str());
    out.append("\t\t}\n\t}\n\n");
    proof {
        assert(out@ =~= opt_setter_text(stc@, f@));
    }
    out
}

/// Emits the block of methods callable in every instantiation.
fn emit_regardless_block(stc: &Struct) -> (r: String)
    requires
        wf_markers(stc@),
    ensures
        r@ == spec_regardless_block(stc@),
{
    let mut reg = String::new();
    let nc = stc.constructor_fields.len();
    let mut i: usize = 0;
    while i < nc
        invariant
            nc == stc@.constructor_fields.len(),
            0 <= i <= nc,
            reg@ == ctor_plain_getters_prefix(stc@, i as int),
        decreases nc - i,
    {
        let c = &stc.constructor_fields[i];
        proof {
            assert(stc@.constructor_fields[i as int] == c@);
        }
        if c.trait_get.is_none() {
            if stc.inline() {
                reg.append("#[inline]\n");
            }
            reg.append("\tfn ");
            reg.append(c.name.as_str());
            reg.append("(&self) -> ");
            reg.append(c.field_type.as_str());
            reg.append(" {\n\t\tself.");
            reg.append(c.name.as_str());
            reg.append("\n\t}\n\n");
            proof {
                assert(reg@ =~= ctor_plain_getters_prefix(stc@, i as int + 1));
            }
        } else {
            proof {
                assert(ctor_plain_getters_prefix(stc@, i as int + 1) =~= ctor_plain_getters_prefix(
                    stc@,
                    i as int,
                ));
            }
        }
        i = i + 1;
    }
    let nf = stc.fields.len();
    let mut j: usize = 0;
    let ghost head: Seq<char> = reg@;
    while j < nf
        invariant
            nf == stc@.fields.len(),
            0 <= j <= nf,
            reg@ == head + opt_getters_prefix(stc@, j as int),
        decreases nf - j,
    {
        let f = &stc.fields[j];
        proof {
            assert(stc@.fields[j as int] == f@);
        }
        if f.optional && f.trait_get.is_none() {
            let t = emit_opt_getter(stc, f);
            reg.append(t.as_str());
            proof {
                assert(reg@ =~= head + opt_getters_prefix(stc@, j as int + 1));
            }
        } else {
            proof {
                assert(opt_getters_prefix(stc@, j as int + 1) =~= opt_getters_prefix(
                    stc@,
                    j as int,
                ));
            }
        }
        j = j + 1;
    }
    let mut k: usize = 0;
    let ghost head2: Seq<char> = reg@;
    while k < nf
        invariant
            nf == stc@.fields.len(),
            0 <= k <= nf,
            reg@ == head2 + opt_setters_prefix(stc@, k as int),
        decreases nf - k,
    {
        let f = &stc.fields[k];
        proof {
            assert(stc@.fields[k as int] == f@);
        }
        if f.optional && f.trait_get.is_none() {
            let t = emit_opt_setter(stc, f);
            reg.append(t.as_str());
            proof {
                assert(reg@ =~= head2 + opt_setters_prefix(stc@, k as int + 1));
            }
        } else {
            proof {
                assert(opt_setters_prefix(stc@, k as int + 1) =~= opt_setters_prefix(
                    stc@,
                    k as int,
                ));
            }
        }
        k = k + 1;
    }
    let empty_skip: Vec<String> = Vec::new();
    let empty_s = empty_skip.as_slice();
    proof {
        assert(empty_s.deep_view() =~= Seq::<Seq<char>>::empty());
    }
    let mut out = String::from_str("// methods callable regardless\n");
    out.append("impl");
    let d0 = calculate_type_description(stc, empty_s, None);
    out.append(d0.as_str());
    out.append(" ");
    out.append(stc.name.as_str());
    out.append(d0.as_str());
    out.append("\n");
    let w0 = calculate_where(stc, empty_s);
    out.append(w0.as_str());
    out.append("\n");
    out.append("{\n");
    out.append(reg.as_str());
    out.append("\n}\n");
    proof {
        assert(out@ =~= spec_regardless_block(stc@));
    }
    out
}

/// Emits the completion gate.
fn emit_gate_section(stc: &Struct) -> (r: String)
    requires
        wf_markers(stc@),
    ensures
        r@ == spec_gate_section(stc@),
{
    let abt = collect_mandatory_markers(stc);
    let abt_s = abt.as_slice();
    proof {
        assert(abt_s.deep_view() =~= all_markers(stc@));
    }
    let mut out = String::from_str(
        "\n// methods callable only when every mandatory field has been filled\n",
    );
    out.append("impl");
    let d1 = calculate_type_description(stc, abt_s, None);
    out.append(d1.as_str());
    out.append(" ");
    out.append(stc.name.as_str());
    let d2 = calculate_type_description_all(stc, YesNo::Yes);
    out.append(d2.as_str());
    out.append("\n");
    let w = calculate_where(stc, abt_s);
    out.append(w.as_str());
    out.append("\n");
    out.append("{\n}\n");
    proof {
        assert(out@ =~= spec_gate_section(stc@));
    }
    out
}

/// Runs one full generation pass: validates the descriptor, then emits
/// every section in the fixed output order.  The output is a pure
/// function of the descriptor; a fatal descriptor fault is reported
/// before any text is assembled.
#[verifier::rlimit(60)]
pub fn generate(stc: &Struct) -> (r: Result<String, GenError>)
    ensures
        r is Ok <==> descriptor_valid(stc@),
        r matches Ok(out) ==> out@ == spec_generate(stc@),
        r == Err::<String, GenError>(GenError::MissingMarker) <==> !wf_markers(stc@),
        r == Err::<String, GenError>(GenError::IncompleteTraitPair) <==> (wf_markers(stc@)
            && !pairs_complete(stc@)),
        r == Err::<String, GenError>(GenError::DuplicateMarker) <==> (wf_markers(stc@)
            && pairs_complete(stc@) && !markers_distinct(stc@)),
{
    match stc.validate() {
        Ok(()) => {},
        Err(e) => {
            return Err(e);
        },
    }
    let mut out = emit_uses_section(stc);
    let s1 = emit_derive_section(stc);
    out.append(s1.as_str());
    let s2 = emit_struct_decl(stc);
    out.append(s2.as_str());
    let s3 = emit_ctor_section(stc);
    out.append(s3.as_str());
    let s4 = emit_ctor_trait_getters(stc);
    out.append(s4.as_str());
    let s5 = emit_mand_getters_section(stc);
    out.append(s5.as_str());
    let s6 = emit_mand_setters_section(stc);
    out.append(s6.as_str());
    let s7 = emit_trait_getters_section(stc);
    out.append(s7.as_str());
    let s8 = emit_trait_setters_section(stc);
    out.append(s8.as_str());
    let s9 = emit_regardless_block(stc);
    out.append(s9.as_str());
    let s10 = emit_gate_section(stc);
    out.append(s10.as_str());
    proof {
        assert(out@ =~= spec_generate(stc@));
    }
    Ok(out)
}

} // verus!
