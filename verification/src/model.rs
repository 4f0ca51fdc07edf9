//! The descriptor model: one record type to generate a builder for, and
//! the validity conditions that generation requires.

use vstd::prelude::*;

verus! {

/// One builder-managed field of the record.
///
/// A mandatory field (`optional == false`) must carry a marker-type name in
/// `builder_type`; its setter advances that marker from unset to set.  A
/// field with an `initializer` is stored as the bare value type, otherwise
/// the value type is wrapped in `Option`.  `trait_get` / `trait_set` name
/// the external interfaces the accessors bind to; either both or neither
/// must be present.
pub struct Field {
    pub name: String,
    pub field_type: String,
    pub builder_type: Option<String>,
    pub optional: bool,
    pub initializer: Option<String>,
    pub trait_get: Option<String>,
    pub trait_set: Option<String>,
}

/// A field fixed at construction time, excluded from the marker machinery.
pub struct ConstructorField {
    pub name: String,
    pub field_type: String,
    pub trait_get: Option<String>,
}

/// The whole descriptor: one record type, loaded once and then immutable.
pub struct Struct {
    pub name: String,
    pub derive: Option<String>,
    pub uses: Vec<String>,
    pub inline: Option<bool>,
    pub extra_types: Vec<String>,
    pub extra_wheres: Vec<String>,
    pub constructor_fields: Vec<ConstructorField>,
    pub fields: Vec<Field>,
}

/// The two concrete marker states a generic marker parameter can be
/// instantiated to: `Yes` renders as the "set" literal, `No` as "unset".
#[derive(Debug, Clone, Copy, PartialEq, Eq, Structural)]
pub enum YesNo {
    Yes,
    No,
}

/// Mathematical image of a `Field`: every text field as a `Seq<char>`.
pub struct FieldModel {
    pub name: Seq<char>,
    pub field_type: Seq<char>,
    pub builder_type: Option<Seq<char>>,
    pub optional: bool,
    pub initializer: Option<Seq<char>>,
    pub trait_get: Option<Seq<char>>,
    pub trait_set: Option<Seq<char>>,
}

/// Mathematical image of a `ConstructorField`.
pub struct ConstructorFieldModel {
    pub name: Seq<char>,
    pub field_type: Seq<char>,
    pub trait_get: Option<Seq<char>>,
}

/// Mathematical image of a `Struct`.
pub struct StructModel {
    pub name: Seq<char>,
    pub derive: Option<Seq<char>>,
    pub uses: Seq<Seq<char>>,
    pub inline: Option<bool>,
    pub extra_types: Seq<Seq<char>>,
    pub extra_wheres: Seq<Seq<char>>,
    pub constructor_fields: Seq<ConstructorFieldModel>,
    pub fields: Seq<FieldModel>,
}

impl View for Field {
    type V = FieldModel;

    open spec fn view(&self) -> FieldModel {
        FieldModel {
            name: self.name@,
            field_type: self.field_type@,
            builder_type: self.builder_type.deep_view(),
            optional: self.optional,
            initializer: self.initializer.deep_view(),
            trait_get: self.trait_get.deep_view(),
            trait_set: self.trait_set.deep_view(),
        }
    }
}

impl DeepView for Field {
    type V = FieldModel;

    open spec fn deep_view(&self) -> FieldModel {
        self.view()
    }
}

impl View for ConstructorField {
    type V = ConstructorFieldModel;

    open spec fn view(&self) -> ConstructorFieldModel {
        ConstructorFieldModel {
            name: self.name@,
            field_type: self.field_type@,
            trait_get: self.trait_get.deep_view(),
        }
    }
}

impl DeepView for ConstructorField {
    type V = ConstructorFieldModel;

    open spec fn deep_view(&self) -> ConstructorFieldModel {
        self.view()
    }
}

impl View for Struct {
    type V = StructModel;

    open spec fn view(&self) -> StructModel {
        StructModel {
            name: self.name@,
            derive: self.derive.deep_view(),
            uses: self.uses.deep_view(),
            inline: self.inline,
            extra_types: self.extra_types.deep_view(),
            extra_wheres: self.extra_wheres.deep_view(),
            constructor_fields: self.constructor_fields.deep_view(),
            fields: self.fields.deep_view(),
        }
    }
}

impl DeepView for Struct {
    type V = StructModel;

    open spec fn deep_view(&self) -> StructModel {
        self.view()
    }
}

/// A fatal descriptor fault, detected before any text is emitted.
#[derive(Debug, Clone, Copy, PartialEq, Eq, Structural)]
pub enum GenError {
    /// A mandatory field carries no marker-type name.
    MissingMarker,
    /// A field names only one half of its getter/setter interface pair.
    IncompleteTraitPair,
    /// Two mandatory fields share one marker-type name.
    DuplicateMarker,
}

/// Every mandatory field carries a marker-type name.
pub open spec fn wf_markers(s: StructModel) -> bool {
    forall|i: int|
        0 <= i < s.fields.len() && !s.fields[i].optional ==> s.fields[i].builder_type is Some
}

/// Every field names both halves of its interface pair, or neither.
pub open spec fn pairs_complete(s: StructModel) -> bool {
    forall|i: int|
        0 <= i < s.fields.len() ==> (s.fields[i].trait_get is Some <==> s.fields[i].trait_set
            is Some)
}

/// No two mandatory fields share one marker-type name.
pub open spec fn markers_distinct(s: StructModel) -> bool {
    forall|i: int, j: int|
        0 <= i < s.fields.len() && 0 <= j < s.fields.len() && i != j && !s.fields[i].optional
            && !s.fields[j].optional ==> s.fields[i].builder_type != s.fields[j].builder_type
}

/// A descriptor on which generation may run.
pub open spec fn descriptor_valid(s: StructModel) -> bool {
    wf_markers(s) && pairs_complete(s) && markers_distinct(s)
}

impl Struct {
    /// Whether the emitted operations carry the inline hint; absent means no.
    pub fn inline(&self) -> (r: bool)
        ensures
            r == (self@.inline == Some(true)),
    {
        if let Some(i) = self.inline {
            i
        } else {
            false
        }
    }

    /// Checks the three fatal descriptor faults, in a fixed order, before
    /// any text is emitted: a mandatory field without a marker name, an
    /// interface pair with only one half named, two mandatory fields
    /// sharing a marker name.
    pub fn validate(&self) -> (r: Result<(), GenError>)
        ensures
            r == Ok::<(), GenError>(()) <==> descriptor_valid(self@),
            r == Err::<(), GenError>(GenError::MissingMarker) <==> !wf_markers(self@),
            r == Err::<(), GenError>(GenError::IncompleteTraitPair) <==> (wf_markers(self@)
                && !pairs_complete(self@)),
            r == Err::<(), GenError>(GenError::DuplicateMarker) <==> (wf_markers(self@)
                && pairs_complete(self@) && !markers_distinct(self@)),
    {
        let n = self.fields.len();
        let mut i: usize = 0;
        while i < n
            invariant
                n == self@.fields.len(),
                0 <= i <= n,
                forall|k: int|
                    0 <= k < i && !self@.fields[k].optional ==> self@.fields[k].builder_type
                        is Some,
            decreases n - i,
        {
            let f = &self.fields[i];
            proof {
                assert(self@.fields[i as int] == f@);
            }
            if !f.optional && f.builder_type.is_none() {
                proof {
                    assert(!(self@.fields[i as int].builder_type is Some));
                    assert(!wf_markers(self@));
                }
                return Err(GenError::MissingMarker);
            }
            i = i + 1;
        }
        proof {
            assert(wf_markers(self@));
        }
        let mut i: usize = 0;
        while i < n
            invariant
                n == self@.fields.len(),
                0 <= i <= n,
                wf_markers(self@),
                forall|k: int|
                    0 <= k < i ==> (self@.fields[k].trait_get is Some <==> self@.fields[k].trait_set
                        is Some),
            decreases n - i,
        {
            let f = &self.fields[i];
            proof {
                assert(self@.fields[i as int] == f@);
            }
            if f.trait_get.is_some() != f.trait_set.is_some() {
                proof {
                    assert(!pairs_complete(self@));
                }
                return Err(GenError::IncompleteTraitPair);
            }
            i = i + 1;
        }
        proof {
            assert(pairs_complete(self@));
        }
        let mut i: usize = 0;
        while i < n
            invariant
                n == self@.fields.len(),
                0 <= i <= n,
                wf_markers(self@),
                pairs_complete(self@),
                forall|k: int, l: int|
                    0 <= k < i && 0 <= l < self@.fields.len() && k != l && !self@.fields[k].optional
                        && !self@.fields[l].optional ==> self@.fields[k].builder_type
                        != self@.fields[l].builder_type,
            decreases n - i,
        {
            let f = &self.fields[i];
            proof {
                assert(self@.fields[i as int] == f@);
            }
            if !f.optional {
                let mut j: usize = i + 1;
                while j < n
                    invariant
                        n == self@.fields.len(),
                        0 <= i < j <= n,
                        wf_markers(self@),
                        pairs_complete(self@),
                        !self@.fields[i as int].optional,
                        self@.fields[i as int] == self.fields@[i as int]@,
                        forall|k: int, l: int|
                            0 <= k < i && 0 <= l < self@.fields.len() && k != l && !self@.fields[
                                k
                            ].optional && !self@.fields[l].optional ==> self@.fields[
                                k
                            ].builder_type != self@.fields[l].builder_type,
                        forall|l: int|
                            i < l < j && !self@.fields[l].optional ==> self@.fields[
                                i as int
                            ].builder_type != self@.fields[l].builder_type,
                    decreases n - j,
                {
                    let g = &self.fields[j];
                    proof {
                        assert(self@.fields[j as int] == g@);
                    }
                    if !g.optional {
                        let fm = self.fields[i].builder_type.as_ref().unwrap();
                        let gm = g.builder_type.as_ref().unwrap();
                        proof {
                            assert(self@.fields[i as int].builder_type == Some(fm@));
                            assert(self@.fields[j as int].builder_type == Some(gm@));
                        }
                        if *fm == *gm {
                            proof {
                                assert(!markers_distinct(self@));
                            }
                            return Err(GenError::DuplicateMarker);
                        }
                    }
                    j = j + 1;
                }
            }
            i = i + 1;
        }
        proof {
            assert(markers_distinct(self@));
        }
        Ok(())
    }
}

} // verus!
