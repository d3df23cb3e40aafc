use coeus::variant::{
    check_packet_enum, check_variant_shape, ArgumentsShape, FieldsShape, GenericShape,
    PacketArgumentsShape, PacketEnumError, PacketEnumShape, SegmentShape, TypeShape,
    UnitVariantShape, VariantError, VariantShape,
};

fn segment(ident: &str, arguments: ArgumentsShape) -> SegmentShape {
    SegmentShape { ident: ident.to_string(), arguments }
}

fn boxed(argument: GenericShape) -> TypeShape {
    TypeShape::Path(vec![
        segment("std", ArgumentsShape::Plain),
        segment("boxed", ArgumentsShape::Plain),
        segment("Box", ArgumentsShape::AngleBracketed(vec![argument])),
    ])
}

fn variant(id: Option<&str>, fields: FieldsShape) -> VariantShape {
    VariantShape { id: id.map(String::from), fields }
}

#[test]
fn boxed_payload_variant_is_accepted_with_its_payload() {
    // DeployRequest(Box<DeployRequest>): the payload is the first type argument met
    let shape = variant(Some("0x0100"), FieldsShape::Unnamed(vec![boxed(GenericShape::Type(0))]));
    assert_eq!(check_variant_shape(&shape), Ok(0));

    // Box<'a, T>-like arguments: the first argument must be the type
    let shape = variant(
        Some("1"),
        FieldsShape::Unnamed(vec![boxed(GenericShape::Other)]),
    );
    assert_eq!(check_variant_shape(&shape), Err(VariantError::PayloadNotBoxPath));
}

#[test]
fn variant_without_id_is_refused_first() {
    let shape = variant(None, FieldsShape::Unit);
    assert_eq!(check_variant_shape(&shape), Err(VariantError::MissingId));
    assert_eq!(
        VariantError::MissingId.message(),
        "missing `id = ...` in packet attribute"
    );
}

#[test]
fn variant_needs_exactly_one_tuple_field() {
    for fields in [
        FieldsShape::Unit,
        FieldsShape::Named,
        FieldsShape::Unnamed(vec![]),
        FieldsShape::Unnamed(vec![boxed(GenericShape::Type(0)), boxed(GenericShape::Type(1))]),
    ] {
        assert_eq!(
            check_variant_shape(&variant(Some("2"), fields)),
            Err(VariantError::NotOneBoxedPayload)
        );
    }
    assert_eq!(
        VariantError::NotOneBoxedPayload.message(),
        "packet variants must contain one boxed payload"
    );
}

#[test]
fn payload_must_be_a_box_of_a_type() {
    let not_path = variant(Some("3"), FieldsShape::Unnamed(vec![TypeShape::Other]));
    assert_eq!(check_variant_shape(&not_path), Err(VariantError::PayloadNotBoxPath));

    let empty_path = variant(Some("3"), FieldsShape::Unnamed(vec![TypeShape::Path(vec![])]));
    assert_eq!(check_variant_shape(&empty_path), Err(VariantError::PayloadNotBoxPath));

    let arc = variant(
        Some("3"),
        FieldsShape::Unnamed(vec![TypeShape::Path(vec![segment(
            "Arc",
            ArgumentsShape::AngleBracketed(vec![GenericShape::Type(0)]),
        )])]),
    );
    assert_eq!(check_variant_shape(&arc), Err(VariantError::PayloadNotBoxed));
    assert_eq!(VariantError::PayloadNotBoxed.message(), "packet payload must be boxed");

    let bare_box = variant(
        Some("3"),
        FieldsShape::Unnamed(vec![TypeShape::Path(vec![segment("Box", ArgumentsShape::Plain)])]),
    );
    assert_eq!(check_variant_shape(&bare_box), Err(VariantError::PayloadNotBoxPath));

    let fn_box = variant(
        Some("3"),
        FieldsShape::Unnamed(vec![TypeShape::Path(vec![segment("Box", ArgumentsShape::Parenthesized)])]),
    );
    assert_eq!(check_variant_shape(&fn_box), Err(VariantError::PayloadNotBoxPath));
    assert_eq!(
        VariantError::PayloadNotBoxPath.message(),
        "packet payload must be Box<PacketType>"
    );
}

fn unit(has_id: bool, has_payload: bool) -> UnitVariantShape {
    UnitVariantShape { arguments: Some(PacketArgumentsShape { has_id, has_payload }), unit: true }
}

#[test]
fn packet_enum_accepts_unit_variants_with_id_and_payload() {
    let shape = PacketEnumShape { generic: false, variants: vec![unit(true, true), unit(true, true)] };
    assert_eq!(check_packet_enum(&shape), Ok(()));
    let empty = PacketEnumShape { generic: false, variants: vec![] };
    assert_eq!(check_packet_enum(&empty), Ok(()));
}

#[test]
fn packet_enum_reports_the_first_refusal_in_order() {
    let generic = PacketEnumShape { generic: true, variants: vec![unit(false, false)] };
    assert_eq!(check_packet_enum(&generic), Err(PacketEnumError::Generic));
    assert_eq!(PacketEnumError::Generic.message(), "generic packet enums are not supported");

    let unreadable = UnitVariantShape { arguments: None, unit: true };
    let shape = PacketEnumShape { generic: false, variants: vec![unit(true, true), unreadable, unit(false, true)] };
    assert_eq!(check_packet_enum(&shape), Err(PacketEnumError::Attribute(1)));

    let shape = PacketEnumShape { generic: false, variants: vec![unit(false, false)] };
    assert_eq!(check_packet_enum(&shape), Err(PacketEnumError::MissingId(0)));
    assert_eq!(PacketEnumError::MissingId(0).message(), "missing `id = ...` in packet attribute");

    let shape = PacketEnumShape { generic: false, variants: vec![unit(true, true), unit(true, false)] };
    assert_eq!(check_packet_enum(&shape), Err(PacketEnumError::MissingPayload(1)));
    assert_eq!(
        PacketEnumError::MissingPayload(1).message(),
        "missing `payload = ...` in packet attribute"
    );

    let fields = UnitVariantShape {
        arguments: Some(PacketArgumentsShape { has_id: true, has_payload: true }),
        unit: false,
    };
    let shape = PacketEnumShape { generic: false, variants: vec![fields, unit(false, false)] };
    assert_eq!(check_packet_enum(&shape), Err(PacketEnumError::NotUnit(0)));
    assert_eq!(PacketEnumError::NotUnit(0).message(), "packet_enum variants must be unit variants");
}
