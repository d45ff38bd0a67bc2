use introwospection::access::{field_bytes, field_pointer};
use introwospection::descriptor::{
    AdtDescriptor, AdtId, AttributeDescriptor, Discriminant, NoType, StructDescriptor, TypeToken,
};
use introwospection::erased::{
    AnyEnumDescriptor, AnyFieldDescriptor, AnyFunctionDescriptor, AnyParameterDescriptor,
    AnyStructDescriptor, AnyVariantDescriptor,
};
use introwospection::ptr::{Ptr, Region};

fn token(raw: u64) -> TypeToken {
    TypeToken { raw }
}

fn field(
    owner: TypeToken,
    index: usize,
    name: &str,
    byte_offset: usize,
    ty: u64,
) -> AnyFieldDescriptor {
    AnyFieldDescriptor {
        owner_type: owner,
        type_id: token(ty),
        declaration_index: index,
        name: name.to_string(),
        byte_offset,
        attributes: Vec::new(),
    }
}

/// A struct with a 4-byte integer at offset 0 and an 8-byte value at
/// offset 8, alignment padding between them.  A third, private field is not
/// visible from outside its defining scope, so no descriptor of it appears.
fn meow_descriptor() -> AnyStructDescriptor {
    let owner = token(7);
    AnyStructDescriptor {
        type_id: owner,
        fields: vec![
            field(owner, 0, "purr_level", 0, 31),
            field(owner, 1, "scratch_couch", 8, 32),
        ],
    }
}

#[test]
fn struct_reports_visible_fields_only() {
    let d = meow_descriptor();
    assert!(d.is_well_formed());
    assert_eq!(d.field_count(), 2);
    assert_eq!(d.fields[0].byte_offset, 0);
    assert_eq!(d.fields[1].byte_offset, 8);
    assert_eq!(d.fields[0].name, "purr_level");
    assert_eq!(d.fields[1].name, "scratch_couch");
}

#[test]
fn misplaced_declaration_index_is_rejected() {
    let owner = token(7);
    let d = AnyStructDescriptor {
        type_id: owner,
        fields: vec![field(owner, 1, "purr_level", 0, 31)],
    };
    assert!(!d.is_well_formed());
}

#[test]
fn foreign_owner_token_is_rejected() {
    let owner = token(7);
    let d = AnyStructDescriptor {
        type_id: owner,
        fields: vec![field(token(8), 0, "purr_level", 0, 31)],
    };
    assert!(!d.is_well_formed());
}

#[test]
fn field_pointer_addresses_base_plus_offset() {
    let d = meow_descriptor();
    let owner = Ptr { region: Region { base: 1000, len: 16 }, addr: 1000, elem_size: 16 };
    let couch = field_pointer(owner, &d.fields[1], 8);
    assert_eq!(couch.addr, 1008);
    assert_eq!(couch.region, owner.region);
    assert_eq!(couch.elem_size, 8);
}

#[test]
fn offset_access_equals_direct_access() {
    let d = meow_descriptor();
    // a snapshot of a live instance: the 4-byte field, padding, the 8-byte field
    let data = vec![1u8, 2, 3, 4, 0, 0, 0, 0, 9, 10, 11, 12, 13, 14, 15, 16];
    let purr = field_bytes(&data, &d.fields[0], 4);
    assert_eq!(purr, vec![1, 2, 3, 4]);
    let couch = field_bytes(&data, &d.fields[1], 8);
    assert_eq!(couch, data[8..16].to_vec());
}

#[test]
fn zero_sized_field_reads_no_bytes() {
    let d = meow_descriptor();
    let data = vec![1u8, 2, 3, 4];
    let nothing = field_bytes(&data, &d.fields[0], 0);
    assert!(nothing.is_empty());
}

fn variant(
    owner: TypeToken,
    index: usize,
    name: &str,
    fields: Option<Vec<AnyFieldDescriptor>>,
    tag: u64,
    integer_value: Option<i128>,
) -> AnyVariantDescriptor {
    AnyVariantDescriptor {
        owner_type: owner,
        declaration_index: index,
        name: name.to_string(),
        fields,
        discriminant: Discriminant { owner, tag },
        integer_value,
        attributes: Vec::new(),
    }
}

/// An enum with a unit-like variant and a variant carrying one field.
fn two_variant_enum() -> AnyEnumDescriptor {
    let owner = token(40);
    let carried = field(owner, 0, "0", 0, 31);
    AnyEnumDescriptor {
        type_id: owner,
        variants: vec![
            variant(owner, 0, "Resting", None, 0, None),
            variant(owner, 1, "Carrying", Some(vec![carried]), 1, None),
        ],
    }
}

#[test]
fn unit_variant_has_no_field_list_marker() {
    let e = two_variant_enum();
    assert_eq!(e.variant_count(), 2);
    assert_eq!(e.variants[0].field_count(), 0);
    assert!(!e.variants[0].has_field_list());
    assert_eq!(e.variants[1].field_count(), 1);
    assert!(e.variants[1].has_field_list());
}

#[test]
fn empty_field_list_differs_from_no_field_list() {
    let owner = token(41);
    let explicit_empty = variant(owner, 0, "Empty", Some(Vec::new()), 0, None);
    let unit_like = variant(owner, 1, "Unit", None, 1, None);
    assert_eq!(explicit_empty.field_count(), 0);
    assert_eq!(unit_like.field_count(), 0);
    assert!(explicit_empty.has_field_list());
    assert!(!unit_like.has_field_list());
}

#[test]
fn enum_with_distinct_tags_is_well_formed() {
    let e = two_variant_enum();
    assert!(e.is_well_formed());
}

#[test]
fn duplicate_discriminant_tags_are_rejected() {
    let owner = token(42);
    let e = AnyEnumDescriptor {
        type_id: owner,
        variants: vec![
            variant(owner, 0, "First", None, 3, None),
            variant(owner, 1, "Second", None, 3, None),
        ],
    };
    assert!(!e.is_well_formed());
}

#[test]
fn duplicate_integer_values_are_rejected() {
    let owner = token(43);
    let e = AnyEnumDescriptor {
        type_id: owner,
        variants: vec![
            variant(owner, 0, "First", None, 0, Some(5)),
            variant(owner, 1, "Second", None, 1, Some(5)),
        ],
    };
    assert!(!e.is_well_formed());
}

#[test]
fn misplaced_variant_is_rejected() {
    let owner = token(44);
    let e = AnyEnumDescriptor {
        type_id: owner,
        variants: vec![variant(owner, 1, "Shifted", None, 0, None)],
    };
    assert!(!e.is_well_formed());
}

#[test]
fn foreign_discriminant_owner_is_rejected() {
    let owner = token(46);
    let mut v = variant(owner, 0, "First", None, 0, None);
    v.discriminant = Discriminant { owner: token(47), tag: 0 };
    let e = AnyEnumDescriptor { type_id: owner, variants: vec![v] };
    assert!(!e.is_well_formed());
}

#[test]
fn misplaced_variant_field_is_rejected() {
    let owner = token(45);
    let bad_field = field(owner, 4, "0", 0, 31);
    let e = AnyEnumDescriptor {
        type_id: owner,
        variants: vec![variant(owner, 0, "Carrying", Some(vec![bad_field]), 0, None)],
    };
    assert!(!e.is_well_formed());
}

#[test]
fn discriminant_finds_its_variant() {
    let e = two_variant_enum();
    let owner = e.type_id;
    assert_eq!(e.find_variant_by_discriminant(Discriminant { owner, tag: 0 }), Some(0));
    assert_eq!(e.find_variant_by_discriminant(Discriminant { owner, tag: 1 }), Some(1));
    assert_eq!(e.find_variant_by_discriminant(Discriminant { owner, tag: 9 }), None);
}

#[test]
fn exactly_one_integer_value_matches() {
    let owner = token(50);
    let e = AnyEnumDescriptor {
        type_id: owner,
        variants: vec![
            variant(owner, 0, "Ten", None, 0, Some(10)),
            variant(owner, 1, "Twenty", None, 1, Some(20)),
            variant(owner, 2, "Unnumbered", None, 2, None),
        ],
    };
    assert_eq!(e.find_variant_by_integer_value(10), Some(0));
    assert_eq!(e.find_variant_by_integer_value(20), Some(1));
    assert_eq!(e.find_variant_by_integer_value(30), None);
    let matches_of_ten = e
        .variants
        .iter()
        .filter(|v| v.integer_value == Some(10))
        .count();
    assert_eq!(matches_of_ten, 1);
}

#[test]
fn function_descriptor_counts_parameters() {
    let fun = token(60);
    let ret = AnyStructDescriptor { type_id: token(61), fields: Vec::new() };
    let d = AnyFunctionDescriptor {
        type_id: fun,
        return_type: ret,
        parameters: vec![
            AnyParameterDescriptor {
                owner_type: fun,
                type_id: token(62),
                parameter_index: 0,
                name: "config".to_string(),
                attributes: Vec::new(),
            },
            AnyParameterDescriptor {
                owner_type: fun,
                type_id: token(63),
                parameter_index: 1,
                name: String::new(),
                attributes: Vec::new(),
            },
        ],
    };
    assert_eq!(d.parameter_count(), 2);
    assert!(d.is_well_formed());
    assert_eq!(d.parameters[1].name, "");
}

#[test]
fn misplaced_parameter_is_rejected() {
    let fun = token(64);
    let d = AnyFunctionDescriptor {
        type_id: fun,
        return_type: AnyStructDescriptor { type_id: token(61), fields: Vec::new() },
        parameters: vec![AnyParameterDescriptor {
            owner_type: fun,
            type_id: token(62),
            parameter_index: 1,
            name: "config".to_string(),
            attributes: Vec::new(),
        }],
    };
    assert!(!d.is_well_formed());
}

#[test]
fn adt_id_describes_each_kind() {
    assert_eq!(AdtId::Struct.describe(), "struct { ... }");
    assert_eq!(AdtId::Union.describe(), "union { ... }");
    assert_eq!(AdtId::Enum.describe(), "enum { ... }");
    assert_eq!(AdtId::Tuple.describe(), "tuple ( ... )");
    assert_eq!(AdtId::Array.describe(), "array [type; n]");
    assert_eq!(AdtId::Slice.describe(), "slice [type]");
    assert_eq!(AdtId::Function.describe(), "fn (...)");
}

#[test]
fn attribute_describes_name_and_value() {
    let bare = AttributeDescriptor { name: "hidden".to_string(), value: None };
    assert_eq!(bare.describe(), "hidden");
    let valued = AttributeDescriptor {
        name: "rename".to_string(),
        value: Some("purrLevel".to_string()),
    };
    assert_eq!(valued.describe(), "rename = \"purrLevel\"");
}

#[test]
fn no_type_is_an_empty_struct_descriptor() {
    assert_eq!(<NoType as AdtDescriptor>::id(), AdtId::Struct);
    assert_eq!(<NoType as AdtDescriptor>::name(), "introwospection::NoType");
    assert!(<NoType as AdtDescriptor>::attributes().is_empty());
    assert_eq!(<NoType as StructDescriptor>::field_count(), 0);
}
