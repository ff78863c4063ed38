//! The conversion of a structure declaration: its fields, one per
//! identifier, in declaration order.

use crate::dims::{
    array_of, dim_sizes, lemma_array_of_concat, map_glsl_type_arr, scan_dims, seed_or_base,
};
use crate::error::ConversionError;
use crate::host::{host_size, host_type_of, map_glsl_type, HostType, HostTypeId};
use crate::locate::{first_named, lemma_first_named_push, StructFinder};
use crate::syntax::{
    declared_dims, ArrayedIdentifier, ArraySpecifier, Dimension, FieldGroup, StructDeclaration,
    TypeTag,
};
use vstd::prelude::*;

verus! {

/// One field of the host structure.
#[derive(Clone, Debug, PartialEq, Eq)]
pub struct ResolvedField {
    /// The identifier, as declared.
    pub name: String,
    /// The host type: the mapped base type inside the arrays declared after
    /// the type and after the identifier.
    pub ty: HostType,
    /// The number of base elements: the product of all array lengths.
    pub dim_count: usize,
    /// The byte footprint: the element count times the size of the base type.
    pub byte_size: usize,
}

/// The byte offset reached while the fields of one structure are assembled.
/// It only adds up footprints: no alignment or padding is applied.
#[derive(Clone, Copy, Debug, PartialEq, Eq)]
pub struct RunningLayoutState {
    pub offset: u128,
}

/// The sum of the byte footprints.
pub open spec fn total_footprint(fields: Seq<ResolvedField>) -> nat
    decreases fields.len(),
{
    if fields.len() == 0 {
        0
    } else {
        total_footprint(fields.drop_last()) + fields.last().byte_size as nat
    }
}

/// The field that one identifier of a group becomes. `type_dims` are the
/// dimensions declared after the group's type and `line_dim` the element
/// count that they give. The identifier's own dimensions multiply that count
/// and wrap around the arrays of the type.
pub open spec fn resolve_identifier(
    base: HostTypeId,
    type_dims: Seq<Dimension>,
    line_dim: usize,
    ident: ArrayedIdentifier,
) -> Result<ResolvedField, ConversionError> {
    let own_dims = declared_dims(ident.array_spec);
    match scan_dims(own_dims, line_dim) {
        Err(e) => Err(e),
        Ok(count) => if count * host_size(base) > usize::MAX {
            Err(ConversionError::ArrayTooLarge)
        } else {
            Ok(
                ResolvedField {
                    name: ident.ident,
                    ty: array_of(dim_sizes(own_dims) + dim_sizes(type_dims), HostType::Plain(base)),
                    dim_count: count,
                    byte_size: (count * host_size(base)) as usize,
                },
            )
        },
    }
}

/// The fields of the identifiers of one group, in their order, or the error
/// of the first identifier that has one.
pub open spec fn assemble_identifiers(
    base: HostTypeId,
    type_dims: Seq<Dimension>,
    line_dim: usize,
    idents: Seq<ArrayedIdentifier>,
) -> Result<Seq<ResolvedField>, ConversionError>
    decreases idents.len(),
{
    if idents.len() == 0 {
        Ok(Seq::empty())
    } else {
        match resolve_identifier(base, type_dims, line_dim, idents[0]) {
            Err(e) => Err(e),
            Ok(field) => match assemble_identifiers(base, type_dims, line_dim, idents.skip(1)) {
                Err(e) => Err(e),
                Ok(rest) => Ok(seq![field] + rest),
            },
        }
    }
}

/// The fields of one group. The type is mapped first, then the dimensions
/// after the type are resolved, then the identifiers one by one: the first
/// of these steps that fails gives the error.
pub open spec fn assemble_group(group: FieldGroup) -> Result<Seq<ResolvedField>, ConversionError> {
    match group.ty {
        TypeTag::Unsupported(description) => Err(ConversionError::UnsupportedType { description }),
        _ => {
            let base = host_type_of(group.ty).unwrap();
            let type_dims = declared_dims(group.array_specifier);
            match scan_dims(type_dims, 1) {
                Err(e) => Err(e),
                Ok(line_dim) => assemble_identifiers(base, type_dims, line_dim, group.identifiers@),
            }
        },
    }
}

/// The fields of all groups, in declaration order, or the error of the first
/// group that has one.
pub open spec fn assemble(groups: Seq<FieldGroup>) -> Result<Seq<ResolvedField>, ConversionError>
    decreases groups.len(),
{
    if groups.len() == 0 {
        Ok(Seq::empty())
    } else {
        match assemble_group(groups[0]) {
            Err(e) => Err(e),
            Ok(fields) => match assemble(groups.skip(1)) {
                Err(e) => Err(e),
                Ok(rest) => Ok(fields + rest),
            },
        }
    }
}

/// Adding a field adds its footprint.
pub proof fn lemma_total_footprint_push(fields: Seq<ResolvedField>, field: ResolvedField)
    ensures
        total_footprint(fields.push(field)) == total_footprint(fields) + field.byte_size,
{
    assert(fields.push(field).drop_last() =~= fields);
}

/// The array specifier that is there and declares at least one dimension. One
/// without dimensions declares no array and counts as absent.
fn declared_specifier(spec: &Option<ArraySpecifier>) -> (declared: Option<&ArraySpecifier>)
    ensures
        match declared {
            Some(found) => *spec == Some(*found) && found.dimensions@.len() > 0,
            None => declared_dims(*spec).len() == 0,
        },
{
    match spec {
        Some(found) => if found.dimensions.len() > 0 {
            Some(found)
        } else {
            None
        },
        None => None,
    }
}

/// Resolves one identifier of a group whose type has been mapped to `base`
/// and whose own arrays, if it has any, have been built as `shared` with
/// `line_dim` elements.
fn convert_identifier(
    group: &FieldGroup,
    base: HostTypeId,
    ty_size: usize,
    shared: &Option<HostType>,
    line_dim: usize,
    ident: &ArrayedIdentifier,
) -> (res: Result<ResolvedField, ConversionError>)
    requires
        ty_size == host_size(base),
        seed_or_base(base, *shared) == array_of(
            dim_sizes(declared_dims(group.array_specifier)),
            HostType::Plain(base),
        ),
    ensures
        res == resolve_identifier(base, declared_dims(group.array_specifier), line_dim, *ident),
{
    let ghost type_dims = declared_dims(group.array_specifier);
    let ghost own_dims = declared_dims(ident.array_spec);
    proof {
        lemma_array_of_concat(dim_sizes(own_dims), dim_sizes(type_dims), HostType::Plain(base));
        if own_dims.len() == 0 {
            assert(dim_sizes(own_dims) + dim_sizes(type_dims) =~= dim_sizes(type_dims));
        }
    }
    // Each identifier starts from the element count of the type's own arrays.
    let mut field_dim: usize = line_dim;
    let seed: Option<HostType> = match shared {
        Some(ty) => Some(ty.duplicate()),
        None => None,
    };
    let ty: HostType = match declared_specifier(&ident.array_spec) {
        Some(spec) => match map_glsl_type_arr(base, spec, seed, &mut field_dim) {
            Ok(ty) => ty,
            Err(e) => {
                return Err(e);
            },
        },
        None => match seed {
            Some(ty) => ty,
            None => HostType::Plain(base),
        },
    };
    let byte_size: usize = match field_dim.checked_mul(ty_size) {
        Some(bytes) => bytes,
        None => {
            return Err(ConversionError::ArrayTooLarge);
        },
    };
    Ok(ResolvedField { name: ident.ident.clone(), ty, dim_count: field_dim, byte_size })
}

/// Converts the field groups of a structure into host fields, one per
/// identifier and in declaration order, and adds up their byte footprints
/// from offset zero.
///
/// The conversion stops at the first type without a host counterpart and at
/// the first array dimension that cannot be resolved; nothing is handed out
/// then but the error.
pub fn convert_glsl_struct_fields(fields: &Vec<FieldGroup>) -> (res: Result<
    (Vec<ResolvedField>, RunningLayoutState),
    ConversionError,
>)
    ensures
        match assemble(fields@) {
            Ok(resolved) => res matches Ok((list, layout)) && list@ == resolved && layout.offset
                == total_footprint(resolved),
            Err(e) => res matches Err(err) && err == e,
        },
{
    let mut out: Vec<ResolvedField> = Vec::new();
    let mut layout = RunningLayoutState { offset: 0 };
    let mut i: usize = 0;
    proof {
        assert(fields@.skip(0) =~= fields@);
        if let Ok(all) = assemble(fields@) {
            assert(out@ + all =~= all);
        }
    }
    while i < fields.len()
        invariant
            i <= fields.len(),
            assemble(fields@) == match assemble(fields@.skip(i as int)) {
                Ok(rest) => Ok::<Seq<ResolvedField>, ConversionError>(out@ + rest),
                Err(e) => Err(e),
            },
            layout.offset == total_footprint(out@),
            layout.offset <= out@.len() * usize::MAX,
        decreases fields.len() - i,
    {
        let group = &fields[i];
        let ghost prefix = out@;
        let ghost later = fields@.skip(i + 1);
        proof {
            assert(fields@.skip(i as int)[0] == *group);
            assert(fields@.skip(i as int).skip(1) =~= later);
        }
        let (base, ty_size) = match map_glsl_type(&group.ty) {
            Ok(mapped) => mapped,
            Err(e) => {
                return Err(e);
            },
        };
        let ghost type_dims = declared_dims(group.array_specifier);
        // The array specifier of the type is shared by every identifier of the group.
        let mut line_dim: usize = 1;
        let arr_dims: Option<HostType> = match declared_specifier(&group.array_specifier) {
            Some(spec) => match map_glsl_type_arr(base, spec, None, &mut line_dim) {
                Ok(ty) => Some(ty),
                Err(e) => {
                    return Err(e);
                },
            },
            None => None,
        };
        assert(scan_dims(type_dims, 1) == Ok::<usize, ConversionError>(line_dim));

        let ghost all = assemble_identifiers(base, type_dims, line_dim, group.identifiers@);
        let ghost mut emitted: Seq<ResolvedField> = Seq::empty();
        let mut j: usize = 0;
        proof {
            assert(assemble_group(*group) == all);
            assert(group.identifiers@.skip(0) =~= group.identifiers@);
            if let Ok(fields_of_group) = all {
                assert(emitted + fields_of_group =~= fields_of_group);
            }
            assert(prefix + emitted =~= prefix);
        }
        while j < group.identifiers.len()
            invariant
                j <= group.identifiers.len(),
                ty_size == host_size(base),
                type_dims == declared_dims(group.array_specifier),
                seed_or_base(base, arr_dims) == array_of(
                    dim_sizes(type_dims),
                    HostType::Plain(base),
                ),
                out@ == prefix + emitted,
                all == assemble_identifiers(base, type_dims, line_dim, group.identifiers@),
                assemble_group(*group) == all,
                all == match assemble_identifiers(
                    base,
                    type_dims,
                    line_dim,
                    group.identifiers@.skip(j as int),
                ) {
                    Ok(rest) => Ok::<Seq<ResolvedField>, ConversionError>(emitted + rest),
                    Err(e) => Err(e),
                },
                assemble(fields@.skip(i as int)) == match all {
                    Err(e) => Err(e),
                    Ok(fields_of_group) => match assemble(later) {
                        Err(e) => Err(e),
                        Ok(rest) => Ok(fields_of_group + rest),
                    },
                },
                assemble(fields@) == match assemble(fields@.skip(i as int)) {
                    Ok(rest) => Ok::<Seq<ResolvedField>, ConversionError>(prefix + rest),
                    Err(e) => Err(e),
                },
                layout.offset == total_footprint(out@),
                layout.offset <= out@.len() * usize::MAX,
            decreases group.identifiers.len() - j,
        {
            let ident = &group.identifiers[j];
            proof {
                assert(group.identifiers@.skip(j as int)[0] == *ident);
                assert(group.identifiers@.skip(j as int).skip(1) =~= group.identifiers@.skip(
                    j + 1,
                ));
            }
            let field = match convert_identifier(group, base, ty_size, &arr_dims, line_dim, ident) {
                Ok(field) => field,
                Err(e) => {
                    return Err(e);
                },
            };
            let byte_size: usize = field.byte_size;
            proof {
                lemma_total_footprint_push(out@, field);
                if let Ok(rest) = assemble_identifiers(
                    base,
                    type_dims,
                    line_dim,
                    group.identifiers@.skip(j + 1),
                ) {
                    assert(emitted.push(field) + rest =~= emitted + (seq![field] + rest));
                }
                assert(prefix + emitted.push(field) =~= (prefix + emitted).push(field));
                emitted = emitted.push(field);
            }
            out.push(field);
            let pushed: usize = out.len();
            assert(layout.offset + byte_size <= u128::MAX) by (nonlinear_arith)
                requires
                    layout.offset <= (pushed - 1) * usize::MAX,
                    byte_size <= usize::MAX,
                    1 <= pushed <= usize::MAX,
                    usize::MAX <= 0xffff_ffff_ffff_ffff,
                    u128::MAX == 0xffff_ffff_ffff_ffff_ffff_ffff_ffff_ffff,
            ;
            assert(layout.offset + byte_size <= pushed * usize::MAX) by (nonlinear_arith)
                requires
                    layout.offset <= (pushed - 1) * usize::MAX,
                    byte_size <= usize::MAX,
            ;
            layout.offset = layout.offset + byte_size as u128;
            j = j + 1;
        }
        proof {
            assert(group.identifiers@.skip(j as int) =~= Seq::<ArrayedIdentifier>::empty());
            assert(emitted + Seq::<ResolvedField>::empty() =~= emitted);
            assert(all == Ok::<Seq<ResolvedField>, ConversionError>(emitted));
            if let Ok(rest) = assemble(later) {
                assert((prefix + emitted) + rest =~= prefix + (emitted + rest));
            }
        }
        i = i + 1;
    }
    proof {
        assert(fields@.skip(i as int) =~= Seq::<FieldGroup>::empty());
        assert(out@ + Seq::<ResolvedField>::empty() =~= out@);
    }
    Ok((out, layout))
}

/// Ends a search for the structure named `ident` in the source at `path`:
/// converts the declaration that was found into the list of its host fields.
/// Where none was found, the error names the path and the identifier.
pub fn convert_found(path: String, ident: String, found: Option<StructDeclaration>) -> (res:
    Result<Vec<ResolvedField>, ConversionError>)
    ensures
        match found {
            None => res == Err::<Vec<ResolvedField>, ConversionError>(
                ConversionError::StructNotFound { path, name: ident },
            ),
            Some(decl) => match assemble(decl.fields@) {
                Ok(resolved) => res matches Ok(list) && list@ == resolved,
                Err(e) => res matches Err(err) && err == e,
            },
        },
{
    match found {
        None => Err(ConversionError::StructNotFound { path, name: ident }),
        Some(decl) => match convert_glsl_struct_fields(&decl.fields) {
            Ok((list, _)) => Ok(list),
            Err(e) => Err(e),
        },
    }
}

/// Converts the structure named `ident` among `structs`, the declarations of
/// the source at `path` in traversal order, into the list of its host fields.
///
/// The first declaration of that name is the one converted. Where there is
/// none, the error names the path and the identifier.
pub fn get_fields(path: String, ident: String, structs: Vec<StructDeclaration>) -> (res: Result<
    Vec<ResolvedField>,
    ConversionError,
>)
    ensures
        match first_named(structs@, ident@) {
            None => res == Err::<Vec<ResolvedField>, ConversionError>(
                ConversionError::StructNotFound { path, name: ident },
            ),
            Some(decl) => match assemble(decl.fields@) {
                Ok(resolved) => res matches Ok(list) && list@ == resolved,
                Err(e) => res matches Err(err) && err == e,
            },
        },
{
    let mut finder = StructFinder::new(ident.as_str());
    let ghost all = structs@;
    for decl in it: structs
        invariant
            it.seq() == all,
            finder.target@ == ident@,
            finder.result == first_named(all.take(it.index() as int), ident@),
    {
        proof {
            lemma_first_named_push(all.take(it.index() as int), decl, ident@);
            assert(all.take(it.index() + 1) =~= all.take(it.index() as int).push(decl));
        }
        finder.visit_struct_specifier(decl);
    }
    proof {
        assert(all.take(all.len() as int) =~= all);
    }
    convert_found(path, ident, finder.result)
}

} // verus!
