//! The shape of one variant of a packet enum, as the `Packet` derive reads
//! it: the variant carries `#[packet(id = ...)]` and exactly one field, a
//! boxed payload `Box<PayloadType>`.
//!
//! The `packet_enum` attribute, which writes such variants from unit
//! variants, checks the enum it is given the same way (`check_packet_enum`).
//!
//! The syntax tree is described here by plain values: the fields' kind, the
//! type of each tuple field, a path type's segments with their arguments.
//! The type arguments of the whole variant are numbered in the order they
//! were met, so that the payload can be named by its number.

use vstd::prelude::*;

verus! {

/// One generic argument of a path segment.
pub enum GenericShape {
    /// A type argument, by its number among the variant's type arguments.
    Type(usize),
    /// A lifetime, a constant or any other argument.
    Other,
}

/// The arguments of a path segment.
pub enum ArgumentsShape {
    /// No arguments, as in `Box`.
    Plain,
    /// Arguments in angle brackets, as in `Box<T>`.
    AngleBracketed(Vec<GenericShape>),
    /// Arguments in parentheses, as in `Fn(T)`.
    Parenthesized,
}

/// One segment of a path type: its name and its arguments.
pub struct SegmentShape {
    pub ident: String,
    pub arguments: ArgumentsShape,
}

/// The type of a field.
pub enum TypeShape {
    /// A path type, by its segments in order.
    Path(Vec<SegmentShape>),
    /// Any other type (a reference, a tuple, an array, ...).
    Other,
}

/// The fields of a variant.
pub enum FieldsShape {
    /// Named fields, `V { .. }`.
    Named,
    /// Tuple fields, `V(..)`, by their types in order.
    Unnamed(Vec<TypeShape>),
    /// No fields.
    Unit,
}

/// A variant of a packet enum: the id literal of its packet attribute, if the
/// attribute gives one, and its fields.
pub struct VariantShape {
    pub id: Option<String>,
    pub fields: FieldsShape,
}

/// Why a variant is not a packet variant.
#[derive(Debug, Clone, Copy, PartialEq, Eq, Structural)]
pub enum VariantError {
    /// The packet attribute gives no `id = ...`.
    MissingId,
    /// The variant does not have exactly one tuple field.
    NotOneBoxedPayload,
    /// The field's type is not of the form `Box<PacketType>`.
    PayloadNotBoxPath,
    /// The field's type is a path that does not end in `Box`.
    PayloadNotBoxed,
}

impl VariantError {
    /// The message the derive reports for this error.
    pub fn message(&self) -> (text: &'static str)
        ensures
            *self == VariantError::MissingId ==> text@ == "missing `id = ...` in packet attribute"@,
            *self == VariantError::NotOneBoxedPayload ==> text@ == "packet variants must contain one boxed payload"@,
            *self == VariantError::PayloadNotBoxPath ==> text@ == "packet payload must be Box<PacketType>"@,
            *self == VariantError::PayloadNotBoxed ==> text@ == "packet payload must be boxed"@,
    {
        match self {
            VariantError::MissingId => "missing `id = ...` in packet attribute",
            VariantError::NotOneBoxedPayload => "packet variants must contain one boxed payload",
            VariantError::PayloadNotBoxPath => "packet payload must be Box<PacketType>",
            VariantError::PayloadNotBoxed => "packet payload must be boxed",
        }
    }
}

/// The payload a field's type boxes: the number of the first type argument
/// of its last path segment, when that segment is `Box<..>`.
pub open spec fn boxed_payload_spec(ty: TypeShape) -> Result<usize, VariantError> {
    match ty {
        TypeShape::Path(segments) => if segments@.len() == 0 {
            Err(VariantError::PayloadNotBoxPath)
        } else if segments@.last().ident@ != "Box"@ {
            Err(VariantError::PayloadNotBoxed)
        } else {
            match segments@.last().arguments {
                ArgumentsShape::AngleBracketed(args) => if args@.len() > 0 && args@[0] is Type {
                    Ok(args@[0]->Type_0)
                } else {
                    Err(VariantError::PayloadNotBoxPath)
                },
                _ => Err(VariantError::PayloadNotBoxPath),
            }
        },
        TypeShape::Other => Err(VariantError::PayloadNotBoxPath),
    }
}

/// What the derive makes of a variant, checked in this order: the id must be
/// given, there must be exactly one tuple field, and its type must be
/// `Box<PayloadType>`; the result is the payload's number.
pub open spec fn variant_shape_spec(shape: VariantShape) -> Result<usize, VariantError> {
    if shape.id is None {
        Err(VariantError::MissingId)
    } else {
        match shape.fields {
            FieldsShape::Unnamed(types) => if types@.len() != 1 {
                Err(VariantError::NotOneBoxedPayload)
            } else {
                boxed_payload_spec(types@[0])
            },
            _ => Err(VariantError::NotOneBoxedPayload),
        }
    }
}

/// Only the last segment of the payload's path matters: two paths that end in
/// the same segment get the same verdict, however many segments come before.
pub proof fn lemma_boxed_payload_last_segment(a: Vec<SegmentShape>, b: Vec<SegmentShape>)
    requires
        a@.len() > 0,
        b@.len() > 0,
        a@.last() == b@.last(),
    ensures
        boxed_payload_spec(TypeShape::Path(a)) == boxed_payload_spec(TypeShape::Path(b)),
{
}

/// A path that ends in `Box<..>` with a type as first argument, such as
/// `Box<T>` or `std::boxed::Box<T>`, is a boxed payload, and the payload is
/// that argument.
pub proof fn lemma_box_of_type_accepted(segments: Vec<SegmentShape>, args: Vec<GenericShape>, index: usize)
    requires
        segments@.len() > 0,
        segments@.last().ident@ == "Box"@,
        segments@.last().arguments == ArgumentsShape::AngleBracketed(args),
        args@.len() > 0,
        args@[0] == GenericShape::Type(index),
    ensures
        boxed_payload_spec(TypeShape::Path(segments)) == Ok::<usize, VariantError>(index),
{
}

/// Whether a segment's name is `Box`.
fn is_box(ident: &String) -> (b: bool)
    ensures
        b == (ident@ == "Box"@),
{
    let boxed = String::from_str("Box");
    ident.eq(&boxed)
}

/// The payload that a field's type boxes (see `boxed_payload_spec`).
fn boxed_payload(ty: &TypeShape) -> (r: Result<usize, VariantError>)
    ensures
        r == boxed_payload_spec(*ty),
{
    match ty {
        TypeShape::Path(segments) => {
            if segments.len() == 0 {
                return Err(VariantError::PayloadNotBoxPath);
            }
            let last = &segments[segments.len() - 1];
            if !is_box(&last.ident) {
                return Err(VariantError::PayloadNotBoxed);
            }
            match &last.arguments {
                ArgumentsShape::AngleBracketed(args) => {
                    if args.len() == 0 {
                        return Err(VariantError::PayloadNotBoxPath);
                    }
                    match &args[0] {
                        GenericShape::Type(index) => Ok(*index),
                        GenericShape::Other => Err(VariantError::PayloadNotBoxPath),
                    }
                },
                _ => Err(VariantError::PayloadNotBoxPath),
            }
        },
        TypeShape::Other => Err(VariantError::PayloadNotBoxPath),
    }
}

/// Checks that a variant is a packet variant and finds its payload type:
/// returns the number of the payload's type argument, or why the variant is
/// refused.
pub fn check_variant_shape(shape: &VariantShape) -> (r: Result<usize, VariantError>)
    ensures
        r == variant_shape_spec(*shape),
        shape.id is None ==> r == Err::<usize, VariantError>(VariantError::MissingId),
        r is Ok ==> shape.id is Some,
        shape.id is Some && !(shape.fields matches FieldsShape::Unnamed(types) && types@.len() == 1)
            ==> r == Err::<usize, VariantError>(VariantError::NotOneBoxedPayload),
        ({
            &&& shape.id is Some
            &&& shape.fields matches FieldsShape::Unnamed(types)
            &&& types@.len() == 1
            &&& types@[0] matches TypeShape::Path(segments)
            &&& segments@.len() > 0
            &&& segments@.last().ident@ != "Box"@
        }) ==> r == Err::<usize, VariantError>(VariantError::PayloadNotBoxed),
        ({
            &&& shape.id is Some
            &&& shape.fields matches FieldsShape::Unnamed(types)
            &&& types@.len() == 1
            &&& types@[0] matches TypeShape::Path(segments)
            &&& segments@.len() > 0
            &&& segments@.last().ident@ == "Box"@
            &&& segments@.last().arguments matches ArgumentsShape::AngleBracketed(args)
            &&& args@.len() > 0
            &&& args@[0] matches GenericShape::Type(index)
        }) ==> r is Ok,
        r matches Ok(index) ==> ({
            &&& shape.fields matches FieldsShape::Unnamed(types)
            &&& types@.len() == 1
            &&& types@[0] matches TypeShape::Path(segments)
            &&& segments@.len() > 0
            &&& segments@.last().ident@ == "Box"@
            &&& segments@.last().arguments matches ArgumentsShape::AngleBracketed(args)
            &&& args@.len() > 0
            &&& args@[0] == GenericShape::Type(index)
        }),
{
    if shape.id.is_none() {
        return Err(VariantError::MissingId);
    }
    match &shape.fields {
        FieldsShape::Unnamed(types) => {
            if types.len() != 1 {
                return Err(VariantError::NotOneBoxedPayload);
            }
            boxed_payload(&types[0])
        },
        _ => Err(VariantError::NotOneBoxedPayload),
    }
}

/// What the packet attribute of a variant of a unit enum gives: whether it
/// names an id and whether it names a payload type.
pub struct PacketArgumentsShape {
    pub has_id: bool,
    pub has_payload: bool,
}

/// A variant of the unit enum that the `packet_enum` attribute rewrites: its
/// packet attribute's arguments (none when the attribute is missing or does
/// not read), and whether the variant has no fields.
pub struct UnitVariantShape {
    pub arguments: Option<PacketArgumentsShape>,
    pub unit: bool,
}

/// The enum that the `packet_enum` attribute rewrites: whether it has
/// generic parameters, and its variants in order.
pub struct PacketEnumShape {
    pub generic: bool,
    pub variants: Vec<UnitVariantShape>,
}

/// Why the `packet_enum` attribute refuses an enum, with the position of the
/// variant at fault.
#[derive(Debug, Clone, Copy, PartialEq, Eq, Structural)]
pub enum PacketEnumError {
    /// The enum has generic parameters.
    Generic,
    /// The variant's packet attribute is missing or does not read.
    Attribute(usize),
    /// The variant's packet attribute gives no `id = ...`.
    MissingId(usize),
    /// The variant's packet attribute gives no `payload = ...`.
    MissingPayload(usize),
    /// The variant has fields.
    NotUnit(usize),
}

impl PacketEnumError {
    /// The message the attribute reports for this error; an unreadable
    /// attribute is reported with the parser's own message instead.
    pub fn message(&self) -> (text: &'static str)
        ensures
            *self == PacketEnumError::Generic ==> text@ == "generic packet enums are not supported"@,
            self is MissingId ==> text@ == "missing `id = ...` in packet attribute"@,
            self is MissingPayload ==> text@ == "missing `payload = ...` in packet attribute"@,
            self is NotUnit ==> text@ == "packet_enum variants must be unit variants"@,
            self is Attribute ==> text@ == "missing #[packet(...)]"@,
    {
        match self {
            PacketEnumError::Generic => "generic packet enums are not supported",
            PacketEnumError::Attribute(_) => "missing #[packet(...)]",
            PacketEnumError::MissingId(_) => "missing `id = ...` in packet attribute",
            PacketEnumError::MissingPayload(_) => "missing `payload = ...` in packet attribute",
            PacketEnumError::NotUnit(_) => "packet_enum variants must be unit variants",
        }
    }
}

/// What the attribute makes of the variant at `index`, checked in this order:
/// the attribute must read, give an id and a payload, and the variant must
/// have no fields.
pub open spec fn unit_variant_spec(variant: UnitVariantShape, index: usize) -> Result<(), PacketEnumError> {
    match variant.arguments {
        None => Err(PacketEnumError::Attribute(index)),
        Some(arguments) => if !arguments.has_id {
            Err(PacketEnumError::MissingId(index))
        } else if !arguments.has_payload {
            Err(PacketEnumError::MissingPayload(index))
        } else if !variant.unit {
            Err(PacketEnumError::NotUnit(index))
        } else {
            Ok(())
        },
    }
}

/// The first refusal among the variants, in order, if any.
pub open spec fn unit_variants_spec(variants: Seq<UnitVariantShape>) -> Result<(), PacketEnumError>
    decreases variants.len(),
{
    if variants.len() == 0 {
        Ok(())
    } else {
        match unit_variants_spec(variants.drop_last()) {
            Ok(()) => unit_variant_spec(variants.last(), (variants.len() - 1) as usize),
            Err(e) => Err(e),
        }
    }
}

/// What the attribute makes of an enum: a generic enum is refused first,
/// then the first variant at fault.
pub open spec fn packet_enum_spec(shape: PacketEnumShape) -> Result<(), PacketEnumError> {
    if shape.generic {
        Err(PacketEnumError::Generic)
    } else {
        unit_variants_spec(shape.variants@)
    }
}

/// Checks that an enum can be rewritten into a packet enum: not generic, and
/// every variant a unit variant whose packet attribute gives an id and a
/// payload type. Returns the first refusal.
pub fn check_packet_enum(shape: &PacketEnumShape) -> (r: Result<(), PacketEnumError>)
    ensures
        r == packet_enum_spec(*shape),
{
    if shape.generic {
        return Err(PacketEnumError::Generic);
    }
    let variants = &shape.variants;
    let mut i: usize = 0;
    while i < variants.len()
        invariant
            i <= variants@.len(),
            variants@ == shape.variants@,
            !shape.generic,
            unit_variants_spec(variants@.take(i as int)) == Ok::<(), PacketEnumError>(()),
        decreases variants@.len() - i,
    {
        let variant = &variants[i];
        assert(variants@.take(i + 1).drop_last() =~= variants@.take(i as int));
        let verdict = match &variant.arguments {
            None => Err(PacketEnumError::Attribute(i)),
            Some(arguments) => if !arguments.has_id {
                Err(PacketEnumError::MissingId(i))
            } else if !arguments.has_payload {
                Err(PacketEnumError::MissingPayload(i))
            } else if !variant.unit {
                Err(PacketEnumError::NotUnit(i))
            } else {
                Ok(())
            },
        };
        proof {
            assert(variants@.take(i + 1).last() == variants@[i as int]);
            assert(unit_variants_spec(variants@.take(i + 1)) == verdict);
        }
        if verdict.is_err() {
            proof {
                lemma_first_refusal_stays(variants@, (i + 1) as int);
            }
            return verdict;
        }
        i = i + 1;
    }
    assert(variants@.take(variants@.len() as int) =~= variants@);
    Ok(())
}

/// A refusal among the first `n` variants is the refusal of all of them.
proof fn lemma_first_refusal_stays(variants: Seq<UnitVariantShape>, n: int)
    requires
        0 <= n <= variants.len(),
        unit_variants_spec(variants.take(n)) is Err,
    ensures
        unit_variants_spec(variants) == unit_variants_spec(variants.take(n)),
    decreases variants.len() - n,
{
    if n < variants.len() {
        assert(variants.take(n + 1).drop_last() =~= variants.take(n));
        lemma_first_refusal_stays(variants, n + 1);
    } else {
        assert(variants.take(n) =~= variants);
    }
}

} // verus!
