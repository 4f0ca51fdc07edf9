use typestate_gen::generate;
use typestate_gen::ConstructorField;
use typestate_gen::Field;
use typestate_gen::GenError;
use typestate_gen::Struct;

fn base_field(name: &str, field_type: &str) -> Field {
    Field {
        name: name.to_string(),
        field_type: field_type.to_string(),
        builder_type: None,
        optional: true,
        initializer: None,
        trait_get: None,
        trait_set: None,
    }
}

fn base_struct(name: &str) -> Struct {
    Struct {
        name: name.to_string(),
        derive: None,
        uses: Vec::new(),
        inline: None,
        extra_types: Vec::new(),
        extra_wheres: Vec::new(),
        constructor_fields: Vec::new(),
        fields: Vec::new(),
    }
}

#[test]
fn mandatory_field_without_marker_is_fatal() {
    let mut stc = base_struct("S");
    let mut f = base_field("a", "u8");
    f.optional = false;
    stc.fields.push(f);
    assert_eq!(stc.validate(), Err(GenError::MissingMarker));
    assert_eq!(generate(&stc), Err(GenError::MissingMarker));
}

#[test]
fn half_an_interface_pair_is_fatal() {
    let mut stc = base_struct("S");
    let mut f = base_field("a", "u8");
    f.trait_get = Some("GetA".to_string());
    stc.fields.push(f);
    assert_eq!(stc.validate(), Err(GenError::IncompleteTraitPair));
    assert_eq!(generate(&stc), Err(GenError::IncompleteTraitPair));
    let mut stc2 = base_struct("S");
    let mut g = base_field("b", "u8");
    g.trait_set = Some("SetB".to_string());
    stc2.fields.push(g);
    assert_eq!(stc2.validate(), Err(GenError::IncompleteTraitPair));
}

#[test]
fn shared_marker_name_is_fatal() {
    let mut stc = base_struct("S");
    let mut a = base_field("a", "u8");
    a.optional = false;
    a.builder_type = Some("M".to_string());
    let mut b = base_field("b", "u8");
    b.optional = false;
    b.builder_type = Some("M".to_string());
    stc.fields.push(a);
    stc.fields.push(b);
    assert_eq!(stc.validate(), Err(GenError::DuplicateMarker));
    assert_eq!(generate(&stc), Err(GenError::DuplicateMarker));
}

#[test]
fn faults_are_reported_in_a_fixed_order() {
    let mut stc = base_struct("S");
    let mut a = base_field("a", "u8");
    a.optional = false;
    let mut b = base_field("b", "u8");
    b.optional = false;
    b.builder_type = Some("M".to_string());
    let mut c = base_field("c", "u8");
    c.optional = false;
    c.builder_type = Some("M".to_string());
    c.trait_get = Some("GetC".to_string());
    stc.fields.push(a);
    stc.fields.push(b);
    stc.fields.push(c);
    assert_eq!(stc.validate(), Err(GenError::MissingMarker));
    stc.fields[0].builder_type = Some("MA".to_string());
    assert_eq!(stc.validate(), Err(GenError::IncompleteTraitPair));
    stc.fields[2].trait_set = Some("SetC".to_string());
    assert_eq!(stc.validate(), Err(GenError::DuplicateMarker));
    stc.fields[2].builder_type = Some("MC".to_string());
    assert_eq!(stc.validate(), Ok(()));
}

#[test]
fn full_descriptor_renders_every_section() {
    let mut stc = base_struct("Wide");
    stc.derive = Some("Debug, Clone".to_string());
    stc.uses.push("std::marker::PhantomData;".to_string());
    stc.uses.push("foo::Bar".to_string());
    stc.inline = Some(true);
    stc.extra_types.push("T".to_string());
    stc.extra_wheres.push("T : Copy".to_string());
    stc.constructor_fields.push(ConstructorField {
        name: "k".to_string(),
        field_type: "u32".to_string(),
        trait_get: Some("GetK".to_string()),
    });
    stc.constructor_fields.push(ConstructorField {
        name: "c".to_string(),
        field_type: "u8".to_string(),
        trait_get: None,
    });
    let mut m1 = base_field("m1", "i64");
    m1.optional = false;
    m1.builder_type = Some("M1".to_string());
    let mut m2 = base_field("m2", "i32");
    m2.optional = false;
    m2.builder_type = Some("M2".to_string());
    m2.initializer = Some("7".to_string());
    m2.trait_get = Some("GetM2".to_string());
    m2.trait_set = Some("SetM2".to_string());
    let o1 = base_field("o1", "String");
    let mut o2 = base_field("o2", "bool");
    o2.trait_get = Some("GetO2".to_string());
    o2.trait_set = Some("SetO2".to_string());
    let mut o3 = base_field("o3", "u16");
    o3.initializer = Some("1".to_string());
    stc.fields.push(m1);
    stc.fields.push(m2);
    stc.fields.push(o1);
    stc.fields.push(o2);
    stc.fields.push(o3);
    let out = generate(&stc).unwrap();

    assert!(out.starts_with("use std::marker::PhantomData;\nuse foo::Bar;\n\n"));
    assert!(out.contains("#[derive(Debug, Clone)]\n"));
    assert!(out.contains(
        "pub struct Wide<T, M1, M2>\nwhere\n\tM1 : ToAssign,\n\tM2 : ToAssign,\n\tT : Copy,\n {\n"
    ));
    assert!(out.contains("\tk: u32,\n"));
    assert!(out.contains("\tc: u8,\n"));
    assert!(out.contains("\tp_m1: PhantomData<M1>,\n"));
    assert!(out.contains("\tm1: Option<i64>,\n"));
    assert!(out.contains("\tm2: i32,\n"));
    assert!(out.contains("\to1: Option<String>,\n"));
    assert!(out.contains("\to3: u16,\n"));
    assert!(out.contains("#[inline]\n"));
    assert!(out.contains("\t pub(crate) fn new(k: u32, c: u8) -> Wide<T, No, No> {\n"));
    assert!(out.contains("\t\t\tm2: 7,\n"));
    assert!(out.contains("\t\t\to3: 1,\n"));
    assert!(out.contains("impl<T, M1, M2> GetK for Wide<T, M1, M2>\n"));
    assert!(out.contains("\tfn k(&self) -> u32 {\n\t\tself.k\n\t}\n\n"));
    assert!(out.contains("\tfn c(&self) -> u8 {\n\t\tself.c\n\t}\n\n"));
    assert!(out.contains("impl<T, M2> Wide<T, Yes, M2>\n"));
    assert!(out.contains("\tfn m1(&self) -> i64 {\n\t\tself.m1.unwrap()\n\t}\n}\n\n"));
    assert!(out.contains("\tfn with_m1(self, m1: i64) -> Wide<T, Yes, M2> {\n"));
    assert!(out.contains("\t\t\t\tp_m1: PhantomData{},\n"));
    assert!(out.contains("\t\t\t\tm1: Some(m1),\n"));
    assert!(out.contains("\t\t\t\tm2: self.m2,\n"));
    assert!(out.contains("impl<T, M1> GetM2 for Wide<T, M1, Yes>\n"));
    assert!(out.contains("\tfn m2(&self) -> i32 {\n\t\tself.m2\n\t}\n}\n\n"));
    assert!(out.contains("impl<T, M1> SetM2 for Wide<T, M1, No>\n"));
    assert!(out.contains("\ttype O = Wide<T, M1, Yes>;\n\n"));
    assert!(out.contains("\tfn with_m2(self, m2: i32) -> Self::O {\n"));
    assert!(out.contains("\t\t\t\tm2,\n"));
    assert!(out.contains("impl<T, M1, M2> GetO2 for Wide<T, M1, M2>\n"));
    assert!(out.contains("\tfn o2(&self) -> Option<bool> {\n\t\tself.o2\n\t}\n}\n\n"));
    assert!(out.contains("impl<T, M1, M2> SetO2 for Wide<T, M1, M2>\n"));
    assert!(out.contains("\ttype O = Wide<T, M1, M2>;\n\n"));
    assert!(out.contains("\tpub fn o1(&self) -> Option<String> {\n"));
    assert!(out.contains("\tpub fn o3(&self) -> u16 {\n"));
    assert!(out.contains("\tfn with_o1(self, o1: String) -> Self {\n"));
    assert!(out.contains("\t\t\t\tp_m1: self.p_m1,\n"));
    assert!(out.contains("\t\t\t\tp_m2: self.p_m2,\n"));
    assert!(out.contains("\t\t\t\to1: Some(o1),\n"));
    assert!(out.contains("\tfn with_o3(self, o3: u16) -> Self {\n"));
    assert!(out.contains("\t\t\t\to3,\n"));
    assert!(out.contains("// methods callable regardless\nimpl<T, M1, M2> Wide<T, M1, M2>\n"));
    assert!(out.ends_with(
        "\n// methods callable only when every mandatory field has been filled\nimpl<T> Wide<T, Yes, Yes>\nwhere\n\tT : Copy,\n\n{\n}\n"
    ));
}
