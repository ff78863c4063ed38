//! What holds of every conversion, stated over the functions that the
//! contracts of the library use.

use crate::convert::{
    assemble, assemble_group, assemble_identifiers, resolve_identifier, ResolvedField,
};
use crate::dims::{
    all_sized, array_of, dim_size, dim_sizes, lemma_array_of_concat, lemma_product_positive,
    lemma_scan_dims, product, scan_dims,
};
use crate::error::ConversionError;
use crate::host::{host_size, host_type_of, HostType, HostTypeId};
use crate::locate::{first_named, is_named};
use crate::syntax::{
    declared_dims, ArrayedIdentifier, Dimension, FieldGroup, StructDeclaration, TypeTag,
};
use vstd::prelude::*;

verus! {

/// Whether the tag is one of the four numeric scalars.
pub open spec fn is_scalar(ty: TypeTag) -> bool {
    ty is Int || ty is UInt || ty is Float || ty is Double
}

/// A numeric scalar is mapped to a host type of its own width: four bytes
/// for the 32-bit numbers, eight for the 64-bit one.
pub proof fn lemma_scalar_widths(ty: TypeTag)
    requires
        is_scalar(ty),
    ensures
        host_type_of(ty) matches Some(id) && host_size(id) == (if ty is Double {
            8usize
        } else {
            4usize
        }),
{
}

/// Every tag but `Unsupported` has a host type.
pub proof fn lemma_supported_tags(ty: TypeTag)
    ensures
        host_type_of(ty) is Some <==> !(ty is Unsupported),
{
}

/// A specifier with an unsized dimension is rejected, wherever the dimension
/// stands and whatever the count was before.
pub proof fn lemma_unsized_rejected(dims: Seq<Dimension>, at: int, count: usize)
    requires
        0 <= at < dims.len(),
        dims[at] is Unsized,
    ensures
        scan_dims(dims, count) is Err,
{
    lemma_scan_dims(dims, count);
    assert(dim_size(dims[at]) is Err);
}

/// The declaration found is the first one of the name, and none is found
/// exactly where no declaration has the name. The index returned is that of
/// the declaration found, or the number of declarations.
pub proof fn lemma_first_named(structs: Seq<StructDeclaration>, target: Seq<char>) -> (index: int)
    ensures
        forall|j: int| 0 <= j < index ==> !is_named(#[trigger] structs[j], target),
        match first_named(structs, target) {
            None => index == structs.len(),
            Some(decl) => 0 <= index < structs.len() && structs[index] == decl && is_named(
                decl,
                target,
            ),
        },
    decreases structs.len(),
{
    if structs.len() == 0 {
        0
    } else if is_named(structs[0], target) {
        0
    } else {
        let later = lemma_first_named(structs.skip(1), target);
        assert forall|j: int| 0 <= j < later + 1 implies !is_named(
            #[trigger] structs[j],
            target,
        ) by {
            if j > 0 {
                assert(structs[j] == structs.skip(1)[j - 1]);
            }
        }
        later + 1
    }
}

/// The field that an identifier of a group becomes when it is taken alone.
pub open spec fn resolve_entry(group: FieldGroup, ident: ArrayedIdentifier) -> Result<
    ResolvedField,
    ConversionError,
> {
    match group.ty {
        TypeTag::Unsupported(description) => Err(ConversionError::UnsupportedType { description }),
        _ => {
            let type_dims = declared_dims(group.array_specifier);
            match scan_dims(type_dims, 1) {
                Err(e) => Err(e),
                Ok(line_dim) => resolve_identifier(
                    host_type_of(group.ty).unwrap(),
                    type_dims,
                    line_dim,
                    ident,
                ),
            }
        },
    }
}

/// The identifiers of one group, each with the group.
pub open spec fn group_entries(group: FieldGroup) -> Seq<(FieldGroup, ArrayedIdentifier)> {
    Seq::new(group.identifiers@.len(), |j: int| (group, group.identifiers@[j]))
}

/// The identifiers of all groups in declaration order, each with its group.
pub open spec fn entries(groups: Seq<FieldGroup>) -> Seq<(FieldGroup, ArrayedIdentifier)>
    decreases groups.len(),
{
    if groups.len() == 0 {
        Seq::empty()
    } else {
        group_entries(groups[0]) + entries(groups.skip(1))
    }
}

/// Whether a group declares no array, neither after its type nor after any
/// of its identifiers.
pub open spec fn is_plain(group: FieldGroup) -> bool {
    &&& group.array_specifier is None
    &&& forall|j: int|
        0 <= j < group.identifiers@.len() ==> (#[trigger] group.identifiers@[j]).array_spec is None
}

/// A field is resolved exactly where the type is supported, every dimension
/// has a length, and both the element count and the byte footprint fit in a
/// `usize`. The arrays of the identifier then stand around those of the type,
/// the element count is the product of all lengths, and the footprint is the
/// count times the size of the base type.
pub proof fn lemma_identifier_wraps_type(group: FieldGroup, ident: ArrayedIdentifier)
    ensures
        ({
            let type_sizes = dim_sizes(declared_dims(group.array_specifier));
            let own_sizes = dim_sizes(declared_dims(ident.array_spec));
            let count = product(own_sizes) * product(type_sizes);
            match resolve_entry(group, ident) {
                Ok(field) => {
                    &&& host_type_of(group.ty) matches Some(base)
                    &&& all_sized(declared_dims(group.array_specifier))
                    &&& all_sized(declared_dims(ident.array_spec))
                    &&& field.name == ident.ident
                    &&& field.ty == array_of(
                        own_sizes,
                        array_of(type_sizes, HostType::Plain(base)),
                    )
                    &&& field.dim_count == count
                    &&& field.byte_size == count * host_size(base)
                },
                Err(_) => {
                    ||| group.ty is Unsupported
                    ||| !all_sized(declared_dims(group.array_specifier))
                    ||| !all_sized(declared_dims(ident.array_spec))
                    ||| count > usize::MAX
                    ||| count * host_size(host_type_of(group.ty).unwrap()) > usize::MAX
                },
            }
        }),
{
    let type_dims = declared_dims(group.array_specifier);
    let own_dims = declared_dims(ident.array_spec);
    let type_sizes = dim_sizes(type_dims);
    let own_sizes = dim_sizes(own_dims);
    if !(group.ty is Unsupported) {
        let base = host_type_of(group.ty).unwrap();
        lemma_scan_dims(type_dims, 1);
        assert(1 * product(type_sizes) == product(type_sizes));
        match scan_dims(type_dims, 1) {
            Err(_) => {
                if all_sized(type_dims) && all_sized(own_dims) {
                    lemma_product_positive(own_dims);
                    assert(product(own_sizes) * product(type_sizes) >= product(type_sizes))
                        by (nonlinear_arith)
                        requires
                            product(own_sizes) >= 1,
                    ;
                }
            },
            Ok(line_dim) => {
                lemma_scan_dims(own_dims, line_dim);
                assert(line_dim * product(own_sizes) == product(own_sizes) * product(type_sizes))
                    by (nonlinear_arith)
                    requires
                        line_dim == product(type_sizes),
                ;
                lemma_array_of_concat(own_sizes, type_sizes, HostType::Plain(base));
            },
        }
    }
}

/// The host type at the bottom of the arrays of a type.
pub open spec fn base_of(ty: HostType) -> HostTypeId
    decreases ty,
{
    match ty {
        HostType::Plain(id) => id,
        HostType::Array(element, _) => base_of(*element),
    }
}

/// The number of base elements in a value of a type.
pub open spec fn element_count(ty: HostType) -> nat
    decreases ty,
{
    match ty {
        HostType::Plain(_) => 1,
        HostType::Array(element, len) => len as nat * element_count(*element),
    }
}

/// The product of lengths is the first length times the product of the rest.
pub proof fn lemma_product_first(sizes: Seq<usize>)
    requires
        sizes.len() > 0,
    ensures
        product(sizes) == sizes[0] as nat * product(sizes.skip(1)),
    decreases sizes.len(),
{
    if sizes.len() == 1 {
        assert(sizes.drop_last() =~= sizes.skip(1));
        assert(product(sizes.skip(1)) == 1);
        assert(product(sizes) == 1 * sizes[0] as nat);
    } else {
        let front = sizes.drop_last();
        lemma_product_first(front);
        assert(front.skip(1) =~= sizes.skip(1).drop_last());
        assert(sizes.skip(1).last() == sizes.last());
        assert(front[0] == sizes[0]);
        let rest = product(front.skip(1));
        assert((sizes[0] as nat * rest) * sizes.last() as nat == sizes[0] as nat * (rest
            * sizes.last() as nat)) by (nonlinear_arith);
    }
}

/// Arrays keep the base type of what they hold, and hold the product of
/// their lengths times as many elements.
pub proof fn lemma_array_of_count(sizes: Seq<usize>, inner: HostType)
    ensures
        base_of(array_of(sizes, inner)) == base_of(inner),
        element_count(array_of(sizes, inner)) == product(sizes) * element_count(inner),
    decreases sizes.len(),
{
    if sizes.len() == 0 {
        assert(product(sizes) * element_count(inner) == element_count(inner)) by (nonlinear_arith)
            requires
                product(sizes) == 1,
        ;
    } else {
        lemma_array_of_count(sizes.skip(1), inner);
        lemma_product_first(sizes);
        let rest = product(sizes.skip(1));
        assert(sizes[0] as nat * (rest * element_count(inner)) == (sizes[0] as nat * rest)
            * element_count(inner)) by (nonlinear_arith);
    }
}

/// The element count and the footprint of a field are those of its type: as
/// many elements as its arrays hold, each of the size of the base type.
pub proof fn lemma_footprint_of_type(group: FieldGroup, ident: ArrayedIdentifier)
    ensures
        resolve_entry(group, ident) matches Ok(field) ==> {
            &&& Some(base_of(field.ty)) == host_type_of(group.ty)
            &&& element_count(field.ty) == field.dim_count
            &&& field.byte_size == element_count(field.ty) * host_size(base_of(field.ty))
        },
{
    if let Ok(field) = resolve_entry(group, ident) {
        let base = host_type_of(group.ty).unwrap();
        let type_sizes = dim_sizes(declared_dims(group.array_specifier));
        let own_sizes = dim_sizes(declared_dims(ident.array_spec));
        lemma_identifier_wraps_type(group, ident);
        lemma_array_of_count(type_sizes, HostType::Plain(base));
        lemma_array_of_count(own_sizes, array_of(type_sizes, HostType::Plain(base)));
        assert(product(own_sizes) * (product(type_sizes) * 1) == product(own_sizes) * product(
            type_sizes,
        )) by (nonlinear_arith);
    }
}

/// The identifiers of a group give one field each, in their order, exactly
/// where each of them is resolved; otherwise the error is that of the first
/// identifier that is not. The index returned is that of this identifier, or
/// the number of identifiers.
pub proof fn lemma_identifiers_in_order(
    base: HostTypeId,
    type_dims: Seq<Dimension>,
    line_dim: usize,
    idents: Seq<ArrayedIdentifier>,
) -> (index: int)
    ensures
        forall|j: int|
            0 <= j < index ==> resolve_identifier(base, type_dims, line_dim, #[trigger] idents[j])
                is Ok,
        match assemble_identifiers(base, type_dims, line_dim, idents) {
            Ok(fields) => index == idents.len() && fields.len() == idents.len() && forall|j: int|
                0 <= j < idents.len() ==> resolve_identifier(
                    base,
                    type_dims,
                    line_dim,
                    #[trigger] idents[j],
                ) == Ok::<ResolvedField, ConversionError>(fields[j]),
            Err(e) => 0 <= index < idents.len() && resolve_identifier(
                base,
                type_dims,
                line_dim,
                idents[index],
            ) == Err::<ResolvedField, ConversionError>(e),
        },
    decreases idents.len(),
{
    if idents.len() == 0 {
        0
    } else {
        let later = idents.skip(1);
        match resolve_identifier(base, type_dims, line_dim, idents[0]) {
            Err(e) => 0,
            Ok(field) => {
                let index = lemma_identifiers_in_order(base, type_dims, line_dim, later);
                assert forall|j: int| 0 <= j < index + 1 implies resolve_identifier(
                    base,
                    type_dims,
                    line_dim,
                    #[trigger] idents[j],
                ) is Ok by {
                    if j > 0 {
                        assert(idents[j] == later[j - 1]);
                    }
                }
                match assemble_identifiers(base, type_dims, line_dim, later) {
                    Err(e) => {
                        assert(later[index] == idents[index + 1]);
                    },
                    Ok(rest) => {
                        let fields = seq![field] + rest;
                        assert forall|j: int| 0 <= j < idents.len() implies resolve_identifier(
                            base,
                            type_dims,
                            line_dim,
                            #[trigger] idents[j],
                        ) == Ok::<ResolvedField, ConversionError>(fields[j]) by {
                            if j > 0 {
                                assert(idents[j] == later[j - 1]);
                                assert(fields[j] == rest[j - 1]);
                            }
                        }
                    },
                }
                index + 1
            },
        }
    }
}

/// A group is converted exactly where its type is supported, the dimensions
/// after the type are resolved, and every identifier is resolved.
pub proof fn lemma_group_succeeds(group: FieldGroup)
    ensures
        assemble_group(group) is Ok <==> {
            &&& !(group.ty is Unsupported)
            &&& scan_dims(declared_dims(group.array_specifier), 1) is Ok
            &&& forall|j: int|
                0 <= j < group.identifiers@.len() ==> resolve_entry(
                    group,
                    #[trigger] group.identifiers@[j],
                ) is Ok
        },
{
    let type_dims = declared_dims(group.array_specifier);
    if !(group.ty is Unsupported) {
        if let Ok(line_dim) = scan_dims(type_dims, 1) {
            let base = host_type_of(group.ty).unwrap();
            let index = lemma_identifiers_in_order(base, type_dims, line_dim, group.identifiers@);
            if assemble_group(group) is Ok {
                assert forall|j: int| 0 <= j < group.identifiers@.len() implies resolve_entry(
                    group,
                    #[trigger] group.identifiers@[j],
                ) is Ok by {
                    assert(resolve_identifier(base, type_dims, line_dim, group.identifiers@[j])
                        is Ok);
                }
            } else {
                assert(resolve_entry(group, group.identifiers@[index]) is Err);
            }
        }
    }
}

/// A conversion succeeds exactly where every group is converted; otherwise
/// its error is that of the first group that is not. The index returned is
/// that of this group, or the number of groups.
pub proof fn lemma_first_failure(groups: Seq<FieldGroup>) -> (index: int)
    ensures
        forall|i: int| 0 <= i < index ==> assemble_group(#[trigger] groups[i]) is Ok,
        match assemble(groups) {
            Ok(_) => index == groups.len(),
            Err(e) => 0 <= index < groups.len() && assemble_group(groups[index]) == Err::<
                Seq<ResolvedField>,
                ConversionError,
            >(e),
        },
    decreases groups.len(),
{
    if groups.len() == 0 {
        0
    } else if assemble_group(groups[0]) is Err {
        0
    } else {
        let later = groups.skip(1);
        let index = lemma_first_failure(later);
        assert forall|i: int| 0 <= i < index + 1 implies assemble_group(#[trigger] groups[i])
            is Ok by {
            if i > 0 {
                assert(groups[i] == later[i - 1]);
            }
        }
        if index < later.len() {
            assert(later[index] == groups[index + 1]);
        }
        index + 1
    }
}

/// A conversion that succeeds yields one field per identifier, in
/// declaration order across the groups and within each group, and each
/// field is the one that its identifier gives when taken alone.
pub proof fn lemma_fields_follow_declarations(groups: Seq<FieldGroup>)
    ensures
        assemble(groups) matches Ok(fields) ==> fields.len() == entries(groups).len() && forall|
            k: int,
        |
            0 <= k < fields.len() ==> resolve_entry(entries(groups)[k].0, entries(groups)[k].1)
                == Ok::<ResolvedField, ConversionError>(#[trigger] fields[k]),
    decreases groups.len(),
{
    if groups.len() > 0 {
        let group = groups[0];
        let later = groups.skip(1);
        lemma_fields_follow_declarations(later);
        if let Ok(fields) = assemble(groups) {
            let first = assemble_group(group).unwrap();
            let rest = assemble(later).unwrap();
            assert(fields == first + rest);
            let type_dims = declared_dims(group.array_specifier);
            let base = host_type_of(group.ty).unwrap();
            let line_dim = scan_dims(type_dims, 1).unwrap();
            lemma_identifiers_in_order(base, type_dims, line_dim, group.identifiers@);
            assert forall|k: int| 0 <= k < fields.len() implies resolve_entry(
                entries(groups)[k].0,
                entries(groups)[k].1,
            ) == Ok::<ResolvedField, ConversionError>(#[trigger] fields[k]) by {
                if k < first.len() {
                    assert(entries(groups)[k] == (group, group.identifiers@[k]));
                    assert(fields[k] == first[k]);
                } else {
                    assert(entries(groups)[k] == entries(later)[k - first.len()]);
                    assert(fields[k] == rest[k - first.len()]);
                }
            }
        }
    }
}

/// A structure without arrays whose types are all supported is always
/// converted: there is one field per identifier, in declaration order, and
/// each has the name of its identifier, the mapped type itself, one element,
/// and the size of the mapped type as its footprint.
pub proof fn lemma_plain_fields(groups: Seq<FieldGroup>)
    requires
        forall|i: int|
            0 <= i < groups.len() ==> !((#[trigger] groups[i]).ty is Unsupported) && is_plain(
                groups[i],
            ),
    ensures
        assemble(groups) matches Ok(fields) && fields.len() == entries(groups).len() && forall|
            k: int,
        |
            0 <= k < fields.len() ==> {
                let (group, ident) = entries(groups)[k];
                let base = host_type_of(group.ty).unwrap();
                &&& (#[trigger] fields[k]).name == ident.ident
                &&& fields[k].ty == HostType::Plain(base)
                &&& fields[k].dim_count == 1
                &&& fields[k].byte_size == host_size(base)
            },
    decreases groups.len(),
{
    if groups.len() > 0 {
        let group = groups[0];
        let later = groups.skip(1);
        assert forall|i: int| 0 <= i < later.len() implies !((#[trigger] later[i]).ty
            is Unsupported) && is_plain(later[i]) by {
            assert(later[i] == groups[i + 1]);
        }
        lemma_plain_fields(later);
        let base = host_type_of(group.ty).unwrap();
        let none = Seq::<Dimension>::empty();
        assert(declared_dims(group.array_specifier) == none);
        assert(scan_dims(none, 1) == Ok::<usize, ConversionError>(1));
        lemma_plain_identifiers(base, group.identifiers@);
        let first = assemble_group(group).unwrap();
        let rest = assemble(later).unwrap();
        let fields = assemble(groups).unwrap();
        assert(fields == first + rest);
        assert forall|k: int| 0 <= k < fields.len() implies {
            let (group, ident) = entries(groups)[k];
            let base = host_type_of(group.ty).unwrap();
            &&& (#[trigger] fields[k]).name == ident.ident
            &&& fields[k].ty == HostType::Plain(base)
            &&& fields[k].dim_count == 1
            &&& fields[k].byte_size == host_size(base)
        } by {
            if k < first.len() {
                assert(entries(groups)[k] == (group, group.identifiers@[k]));
                assert(fields[k] == first[k]);
            } else {
                assert(entries(groups)[k] == entries(later)[k - first.len()]);
                assert(fields[k] == rest[k - first.len()]);
            }
        }
    }
}

/// The identifiers of a group without arrays are all resolved, each to one
/// element of the base type.
pub proof fn lemma_plain_identifiers(base: HostTypeId, idents: Seq<ArrayedIdentifier>)
    requires
        forall|j: int| 0 <= j < idents.len() ==> (#[trigger] idents[j]).array_spec is None,
    ensures
        assemble_identifiers(base, Seq::empty(), 1, idents) matches Ok(fields) && fields.len()
            == idents.len() && forall|j: int|
            0 <= j < idents.len() ==> #[trigger] fields[j] == (ResolvedField {
                name: idents[j].ident,
                ty: HostType::Plain(base),
                dim_count: 1,
                byte_size: host_size(base),
            }),
    decreases idents.len(),
{
    if idents.len() > 0 {
        let later = idents.skip(1);
        assert forall|j: int| 0 <= j < later.len() implies (#[trigger] later[j]).array_spec
            is None by {
            assert(later[j] == idents[j + 1]);
        }
        lemma_plain_identifiers(base, later);
        let none = Seq::<Dimension>::empty();
        assert(declared_dims(idents[0].array_spec) == none);
        assert(dim_sizes(none) + dim_sizes(none) =~= Seq::<usize>::empty());
        assert(1 * host_size(base) == host_size(base));
        let field = resolve_identifier(base, none, 1, idents[0]).unwrap();
        let rest = assemble_identifiers(base, none, 1, later).unwrap();
        let fields = seq![field] + rest;
        assert forall|j: int| 0 <= j < idents.len() implies #[trigger] fields[j]
            == (ResolvedField {
            name: idents[j].ident,
            ty: HostType::Plain(base),
            dim_count: 1,
            byte_size: host_size(base),
        }) by {
            if j > 0 {
                assert(idents[j] == later[j - 1]);
                assert(fields[j] == rest[j - 1]);
            }
        }
    }
}

} // verus!
