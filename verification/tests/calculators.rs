use typestate_gen::calculate_constructor_parameters;
use typestate_gen::calculate_type;
use typestate_gen::calculate_type_description;
use typestate_gen::calculate_type_description_all;
use typestate_gen::calculate_where;
use typestate_gen::ConstructorField;
use typestate_gen::Field;
use typestate_gen::Struct;
use typestate_gen::YesNo;

fn field(name: &str, field_type: &str, marker: Option<&str>, optional: bool) -> Field {
    Field {
        name: name.to_string(),
        field_type: field_type.to_string(),
        builder_type: marker.map(|m| m.to_string()),
        optional,
        initializer: None,
        trait_get: None,
        trait_set: None,
    }
}

fn descriptor(name: &str) -> Struct {
    Struct {
        name: name.to_string(),
        derive: None,
        uses: Vec::new(),
        inline: None,
        extra_types: Vec::new(),
        extra_wheres: Vec::new(),
        constructor_fields: Vec::new(),
        fields: Vec::new(),
    }
}

#[test]
fn storage_type_wraps_unless_initialized() {
    let plain = field("x", "u32", None, true);
    assert_eq!(calculate_type(&plain), "Option<u32>");
    let mut seeded = field("x", "u32", None, true);
    seeded.initializer = Some("0".to_string());
    assert_eq!(calculate_type(&seeded), "u32");
}

#[test]
fn constructor_parameters_are_comma_joined() {
    let mut stc = descriptor("S");
    assert_eq!(calculate_constructor_parameters(&stc), "");
    stc.constructor_fields.push(ConstructorField {
        name: "a".to_string(),
        field_type: "u8".to_string(),
        trait_get: None,
    });
    assert_eq!(calculate_constructor_parameters(&stc), "a: u8");
    stc.constructor_fields.push(ConstructorField {
        name: "b".to_string(),
        field_type: "String".to_string(),
        trait_get: None,
    });
    assert_eq!(calculate_constructor_parameters(&stc), "a: u8, b: String");
}

#[test]
fn type_description_mixes_markers_and_replacements() {
    let mut stc = descriptor("S");
    stc.fields.push(field("a", "u8", Some("MA"), false));
    stc.fields.push(field("b", "u8", Some("MB"), false));
    stc.fields.push(field("c", "u8", None, true));
    let none: Vec<String> = Vec::new();
    assert_eq!(calculate_type_description(&stc, &none, None), "<MA, MB>");
    let skip_b = vec!["MB".to_string()];
    assert_eq!(
        calculate_type_description(&stc, &skip_b, Some(YesNo::Yes)),
        "<MA, Yes>"
    );
    assert_eq!(calculate_type_description(&stc, &skip_b, None), "<MA>");
    let skip_a = vec!["MA".to_string()];
    assert_eq!(
        calculate_type_description(&stc, &skip_a, Some(YesNo::No)),
        "<No, MB>"
    );
}

#[test]
fn type_description_emits_extra_types_first() {
    let mut stc = descriptor("S");
    stc.extra_types.push("T".to_string());
    stc.extra_types.push("U".to_string());
    stc.fields.push(field("a", "u8", Some("MA"), false));
    let none: Vec<String> = Vec::new();
    assert_eq!(calculate_type_description(&stc, &none, None), "<T, U, MA>");
    let skip_a = vec!["MA".to_string()];
    assert_eq!(calculate_type_description(&stc, &skip_a, None), "<T, U>");
}

#[test]
fn type_description_all_replaces_every_marker() {
    let mut stc = descriptor("S");
    stc.fields.push(field("a", "u8", Some("MA"), false));
    stc.fields.push(field("b", "u8", Some("MB"), false));
    assert_eq!(calculate_type_description_all(&stc, YesNo::Yes), "<Yes, Yes>");
    assert_eq!(calculate_type_description_all(&stc, YesNo::No), "<No, No>");
    stc.extra_types.push("T".to_string());
    assert_eq!(
        calculate_type_description_all(&stc, YesNo::Yes),
        "<T, Yes, Yes>"
    );
}

#[test]
fn type_description_all_of_plain_descriptor_is_empty() {
    let mut stc = descriptor("S");
    stc.fields.push(field("c", "u8", None, true));
    assert_eq!(calculate_type_description_all(&stc, YesNo::Yes), "");
    let one = descriptor("T");
    assert_eq!(calculate_type_description_all(&one, YesNo::No), "");
}

#[test]
fn where_block_lists_unskipped_markers_then_extras() {
    let mut stc = descriptor("S");
    stc.fields.push(field("a", "u8", Some("MA"), false));
    stc.fields.push(field("b", "u8", Some("MB"), false));
    stc.extra_wheres.push("T : Copy".to_string());
    let none: Vec<String> = Vec::new();
    assert_eq!(
        calculate_where(&stc, &none),
        "where\n\tMA : ToAssign,\n\tMB : ToAssign,\n\tT : Copy,\n"
    );
    let skip_a = vec!["MA".to_string()];
    assert_eq!(
        calculate_where(&stc, &skip_a),
        "where\n\tMB : ToAssign,\n\tT : Copy,\n"
    );
    let both = vec!["MA".to_string(), "MB".to_string()];
    assert_eq!(calculate_where(&stc, &both), "where\n\tT : Copy,\n");
}

#[test]
fn where_block_absent_when_empty() {
    let stc = descriptor("S");
    let none: Vec<String> = Vec::new();
    assert_eq!(calculate_where(&stc, &none), "");
}

#[test]
fn inline_hint_defaults_to_off() {
    let mut stc = descriptor("S");
    assert!(!stc.inline());
    stc.inline = Some(false);
    assert!(!stc.inline());
    stc.inline = Some(true);
    assert!(stc.inline());
}
