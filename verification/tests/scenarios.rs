use typestate_gen::calculate_type_description;
use typestate_gen::generate;
use typestate_gen::Field;
use typestate_gen::Struct;
use typestate_gen::YesNo;

fn plain_field(name: &str, field_type: &str) -> Field {
    Field {
        name: name.to_string(),
        field_type: field_type.to_string(),
        builder_type: None,
        optional: true,
        initializer: None,
        trait_get: None,
        trait_set: None,
    }
}

fn mandatory_field(name: &str, field_type: &str, marker: &str) -> Field {
    Field {
        name: name.to_string(),
        field_type: field_type.to_string(),
        builder_type: Some(marker.to_string()),
        optional: false,
        initializer: None,
        trait_get: None,
        trait_set: None,
    }
}

fn bare_struct(name: &str) -> Struct {
    Struct {
        name: name.to_string(),
        derive: None,
        uses: Vec::new(),
        inline: None,
        extra_types: Vec::new(),
        extra_wheres: Vec::new(),
        constructor_fields: Vec::new(),
        fields: Vec::new(),
    }
}

#[test]
fn scenario_one_optional_field_only() {
    let mut stc = bare_struct("Plain");
    stc.fields.push(plain_field("name", "string"));
    let out = generate(&stc).unwrap();
    let mut expected = String::new();
    expected.push_str("pub struct Plain\n {\n");
    expected.push_str("\tname: Option<string>,\n");
    expected.push_str("}\n\n");
    expected.push_str("impl Plain  {\n");
    expected.push_str("\t pub(crate) fn new() -> Plain {\n\t\tPlain {\n");
    expected.push_str("\t\t\tname: None,\n");
    expected.push_str("\t\t}\n\t}\n}\n\n");
    expected.push_str("\n//get mandatory no traits methods\n");
    expected.push_str("\n//set mandatory no traits methods\n");
    expected.push_str("// methods callable regardless\n");
    expected.push_str("impl Plain\n");
    expected.push_str("\n");
    expected.push_str("{\n");
    expected.push_str("\tpub fn name(&self) -> Option<string> {\n");
    expected.push_str("\t\tself.name\n");
    expected.push_str("\t}\n\n");
    expected.push_str("\tfn with_name(self, name: string) -> Self {\n");
    expected.push_str("\t\tPlain {\n");
    expected.push_str("\t\t\t\tname: Some(name),\n");
    expected.push_str("\t\t}\n\t}\n\n");
    expected.push_str("\n}\n");
    expected.push_str("\n// methods callable only when every mandatory field has been filled\n");
    expected.push_str("impl Plain\n");
    expected.push_str("\n");
    expected.push_str("{\n}\n");
    assert_eq!(out, expected);
}

#[test]
fn scenario_one_mandatory_field_only() {
    let mut stc = bare_struct("Rec");
    stc.fields.push(mandatory_field("id", "int", "MId"));
    let out = generate(&stc).unwrap();
    let mut expected = String::new();
    expected.push_str("pub struct Rec<MId>\n");
    expected.push_str("where\n\tMId : ToAssign,\n {\n");
    expected.push_str("\tp_id: PhantomData<MId>,\n");
    expected.push_str("\tid: Option<int>,\n");
    expected.push_str("}\n\n");
    expected.push_str("impl Rec<No>  {\n");
    expected.push_str("\t pub(crate) fn new() -> Rec<No> {\n\t\tRec {\n");
    expected.push_str("\t\t\tp_id: PhantomData {},\n");
    expected.push_str("\t\t\tid: None,\n");
    expected.push_str("\t\t}\n\t}\n}\n\n");
    expected.push_str("\n//get mandatory no traits methods\n");
    expected.push_str("impl Rec<Yes>\n");
    expected.push_str("\n{\n");
    expected.push_str("\tfn id(&self) -> int {\n");
    expected.push_str("\t\tself.id.unwrap()\n\t}\n}\n\n");
    expected.push_str("\n//set mandatory no traits methods\n");
    expected.push_str("impl Rec<No>\n");
    expected.push_str("\n{\n");
    expected.push_str("\tfn with_id(self, id: int) -> Rec<Yes> {\n");
    expected.push_str("\t\tRec {\n");
    expected.push_str("\t\t\t\tp_id: PhantomData{},\n");
    expected.push_str("\t\t\t\tid: Some(id),\n");
    expected.push_str("\t\t}\n\t}\n}\n\n");
    expected.push_str("// methods callable regardless\n");
    expected.push_str("impl<MId> Rec<MId>\n");
    expected.push_str("where\n\tMId : ToAssign,\n");
    expected.push_str("\n");
    expected.push_str("{\n");
    expected.push_str("\n}\n");
    expected.push_str("\n// methods callable only when every mandatory field has been filled\n");
    expected.push_str("impl Rec<Yes>\n");
    expected.push_str("\n");
    expected.push_str("{\n}\n");
    assert_eq!(out, expected);
}

#[test]
fn scenario_skip_both_markers_with_replacement() {
    let mut stc = bare_struct("Pair");
    stc.fields.push(mandatory_field("a", "u8", "MA"));
    stc.fields.push(mandatory_field("b", "u8", "MB"));
    let skip = vec!["MA".to_string(), "MB".to_string()];
    let rendered = calculate_type_description(&stc, &skip, Some(YesNo::Yes));
    assert_eq!(rendered, "<Yes, Yes>");
    let unreplaced = calculate_type_description(&stc, &skip, None);
    assert_eq!(unreplaced, "");
    let lowered = calculate_type_description(&stc, &skip, Some(YesNo::No));
    assert_eq!(lowered, "<No, No>");
}

#[test]
fn generate_is_deterministic() {
    let mut stc = bare_struct("Rec");
    stc.fields.push(mandatory_field("id", "int", "MId"));
    stc.fields.push(plain_field("tag", "String"));
    let first = generate(&stc).unwrap();
    let second = generate(&stc).unwrap();
    assert_eq!(first, second);
}
