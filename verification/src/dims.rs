//! Array dimensions: the value of a size expression, the length of one
//! dimension, and the nesting of fixed-size arrays that a specifier declares.

use crate::error::{ConversionError, DimensionFault};
use crate::host::{HostType, HostTypeId};
use crate::syntax::{ArraySpecifier, ConstExpr, Dimension, UnaryOp};
use vstd::prelude::*;

verus! {

/// The value of a size expression: that of a positive integer literal, signed
/// or unsigned, under any number of unary `+`. A literal that is zero or
/// negative is no size, and no other expression is evaluated.
pub open spec fn const_int_value(expr: ConstExpr) -> Result<u32, DimensionFault>
    decreases expr,
{
    match expr {
        ConstExpr::IntConst(v) => if v > 0 {
            Ok(v as u32)
        } else {
            Err(DimensionFault::NonPositive)
        },
        ConstExpr::UIntConst(v) => if v > 0 {
            Ok(v)
        } else {
            Err(DimensionFault::NonPositive)
        },
        ConstExpr::Unary(UnaryOp::Add, inner) => const_int_value(*inner),
        _ => Err(DimensionFault::Unsupported),
    }
}

/// The length of one dimension: the value of its size expression. An unsized
/// dimension has none, whatever stands around it.
pub open spec fn dim_size(dim: Dimension) -> Result<usize, DimensionFault> {
    match dim {
        Dimension::Unsized => Err(DimensionFault::Unsized),
        Dimension::ExplicitlySized(expr) => match const_int_value(expr) {
            Ok(v) => Ok(v as usize),
            Err(fault) => Err(fault),
        },
    }
}

/// The length of a dimension that has one, and zero for any other.
pub open spec fn dim_len(dim: Dimension) -> usize {
    match dim_size(dim) {
        Ok(len) => len,
        Err(_) => 0,
    }
}

/// The lengths of the dimensions, in declaration order.
pub open spec fn dim_sizes(dims: Seq<Dimension>) -> Seq<usize> {
    Seq::new(dims.len(), |i: int| dim_len(dims[i]))
}

/// Whether every dimension has a length.
pub open spec fn all_sized(dims: Seq<Dimension>) -> bool {
    forall|i: int| 0 <= i < dims.len() ==> (#[trigger] dim_size(dims[i])) is Ok
}

/// The product of the lengths.
pub open spec fn product(sizes: Seq<usize>) -> nat
    decreases sizes.len(),
{
    if sizes.len() == 0 {
        1
    } else {
        product(sizes.drop_last()) * sizes.last() as nat
    }
}

/// The array type with the given lengths around `inner`: the first length is
/// that of the outermost array, the last one that of the array whose elements
/// are `inner`.
pub open spec fn array_of(sizes: Seq<usize>, inner: HostType) -> HostType
    decreases sizes.len(),
{
    if sizes.len() == 0 {
        inner
    } else {
        HostType::Array(Box::new(array_of(sizes.skip(1), inner)), sizes[0])
    }
}

/// The element count after the dimensions have been applied to `count` from
/// the last one to the first, or the error that stops this: the fault and
/// the position of the first dimension met without a length, or
/// `ArrayTooLarge` at the first product above `usize::MAX`.
pub open spec fn scan_dims(dims: Seq<Dimension>, count: usize) -> Result<usize, ConversionError>
    decreases dims.len(),
{
    if dims.len() == 0 {
        Ok(count)
    } else {
        match dim_size(dims.last()) {
            Err(fault) => Err(
                ConversionError::InvalidArrayDimension {
                    position: (dims.len() - 1) as usize,
                    fault,
                },
            ),
            Ok(len) => if count * len > usize::MAX {
                Err(ConversionError::ArrayTooLarge)
            } else {
                scan_dims(dims.drop_last(), (count * len) as usize)
            },
        }
    }
}

/// The type that arrays are built around: the seed where there is one, else
/// the base type itself.
pub open spec fn seed_or_base(ty: HostTypeId, inner: Option<HostType>) -> HostType {
    match inner {
        Some(seed) => seed,
        None => HostType::Plain(ty),
    }
}

/// Evaluates a size expression.
pub fn resolve_glsl_const_int_expr(expr: &ConstExpr) -> (res: Result<u32, DimensionFault>)
    ensures
        res == const_int_value(*expr),
        res matches Ok(v) ==> v >= 1,
    decreases *expr,
{
    match expr {
        ConstExpr::IntConst(v) => {
            if *v > 0 {
                Ok(*v as u32)
            } else {
                Err(DimensionFault::NonPositive)
            }
        },
        ConstExpr::UIntConst(v) => {
            if *v > 0 {
                Ok(*v)
            } else {
                Err(DimensionFault::NonPositive)
            }
        },
        ConstExpr::Unary(op, inner) => match op {
            UnaryOp::Add => resolve_glsl_const_int_expr(inner),
            _ => Err(DimensionFault::Unsupported),
        },
        ConstExpr::Other => Err(DimensionFault::Unsupported),
    }
}

/// The length of one dimension.
pub fn resolve_glsl_arr_dim_size(dim: &Dimension) -> (res: Result<usize, DimensionFault>)
    ensures
        res == dim_size(*dim),
        *dim is Unsized ==> res == Err::<usize, DimensionFault>(DimensionFault::Unsized),
        res matches Ok(len) ==> 1 <= len <= u32::MAX,
{
    match dim {
        Dimension::Unsized => Err(DimensionFault::Unsized),
        Dimension::ExplicitlySized(expr) => match resolve_glsl_const_int_expr(expr) {
            Ok(v) => Ok(v as usize),
            Err(fault) => Err(fault),
        },
    }
}

/// A size expression that has a value has a positive one.
pub proof fn lemma_const_int_value_positive(expr: ConstExpr)
    ensures
        const_int_value(expr) matches Ok(v) ==> v >= 1,
    decreases expr,
{
    match expr {
        ConstExpr::Unary(UnaryOp::Add, inner) => lemma_const_int_value_positive(*inner),
        _ => {},
    }
}

/// Where every dimension has a length, the product of the lengths is positive.
pub proof fn lemma_product_positive(dims: Seq<Dimension>)
    requires
        all_sized(dims),
    ensures
        product(dim_sizes(dims)) >= 1,
    decreases dims.len(),
{
    if dims.len() > 0 {
        let rest = dims.drop_last();
        assert(dim_sizes(dims).drop_last() =~= dim_sizes(rest));
        assert forall|i: int| 0 <= i < rest.len() implies (#[trigger] dim_size(rest[i])) is Ok by {
            assert(rest[i] == dims[i]);
        }
        lemma_product_positive(rest);
        assert(dim_size(dims[dims.len() - 1]) is Ok);
        match dims.last() {
            Dimension::ExplicitlySized(expr) => lemma_const_int_value_positive(expr),
            Dimension::Unsized => {},
        }
        assert(dim_sizes(dims).last() >= 1);
        assert(product(dim_sizes(rest)) * dim_sizes(dims).last() as nat >= 1) by (nonlinear_arith)
            requires
                product(dim_sizes(rest)) >= 1,
                dim_sizes(dims).last() >= 1,
        ;
    }
}

/// The scan of a specifier succeeds exactly where every dimension has a
/// length and the count times the product of the lengths fits in a `usize`;
/// it then yields that number.
pub proof fn lemma_scan_dims(dims: Seq<Dimension>, count: usize)
    ensures
        scan_dims(dims, count) is Ok <==> all_sized(dims) && count * product(dim_sizes(dims))
            <= usize::MAX,
        scan_dims(dims, count) matches Ok(c) ==> c == count * product(dim_sizes(dims)),
    decreases dims.len(),
{
    let sizes = dim_sizes(dims);
    if dims.len() == 0 {
        assert(product(sizes) == 1);
        assert(count * product(sizes) == count) by (nonlinear_arith)
            requires
                product(sizes) == 1,
        ;
    } else {
        let rest = dims.drop_last();
        assert(sizes.drop_last() =~= dim_sizes(rest));
        assert(all_sized(dims) <==> all_sized(rest) && dim_size(dims.last()) is Ok) by {
            if all_sized(dims) {
                assert(dim_size(dims[dims.len() - 1]) is Ok);
                assert forall|i: int| 0 <= i < rest.len() implies (#[trigger] dim_size(
                    rest[i],
                )) is Ok by {
                    assert(rest[i] == dims[i]);
                }
            }
            if all_sized(rest) && dim_size(dims.last()) is Ok {
                assert forall|i: int| 0 <= i < dims.len() implies (#[trigger] dim_size(
                    dims[i],
                )) is Ok by {
                    if i < rest.len() {
                        assert(rest[i] == dims[i]);
                    }
                }
            }
        }
        match dim_size(dims.last()) {
            Err(_) => {
                assert(scan_dims(dims, count) is Err);
            },
            Ok(len) => {
                assert(sizes.last() == len);
                let rest_product = product(dim_sizes(rest));
                assert(product(sizes) == rest_product * len);
                assert(count * product(sizes) == (count * len) * rest_product)
                    by (nonlinear_arith)
                    requires
                        product(sizes) == rest_product * len,
                ;
                if count * len > usize::MAX {
                    assert(scan_dims(dims, count) is Err);
                    if all_sized(rest) {
                        lemma_product_positive(rest);
                        assert((count * len) * rest_product >= count * len) by (nonlinear_arith)
                            requires
                                rest_product >= 1,
                                count * len >= 0,
                        ;
                    }
                } else {
                    assert(scan_dims(dims, count) == scan_dims(rest, (count * len) as usize));
                    lemma_scan_dims(rest, (count * len) as usize);
                }
            },
        }
    }
}

/// Dimensions that stand before others in one specifier are scanned after
/// them: from the count that the later ones leave, and not at all where the
/// later ones fail.
pub proof fn lemma_scan_dims_concat(outer: Seq<Dimension>, inner: Seq<Dimension>, count: usize)
    requires
        outer.len() + inner.len() <= usize::MAX,
    ensures
        scan_dims(outer + inner, count) == match scan_dims(inner, count) {
            Ok(c) => scan_dims(outer, c),
            Err(ConversionError::InvalidArrayDimension { position, fault }) => Err(
                ConversionError::InvalidArrayDimension {
                    position: (outer.len() + position) as usize,
                    fault,
                },
            ),
            Err(e) => Err(e),
        },
    decreases inner.len(),
{
    if inner.len() == 0 {
        assert(outer + inner =~= outer);
    } else {
        assert((outer + inner).last() == inner.last());
        assert((outer + inner).drop_last() =~= outer + inner.drop_last());
        match dim_size(inner.last()) {
            Err(_) => {},
            Ok(len) => {
                if count * len <= usize::MAX {
                    lemma_scan_dims_concat(outer, inner.drop_last(), (count * len) as usize);
                }
            },
        }
    }
}

/// Where every dimension has a length, only the count can stop the scan.
pub proof fn lemma_scan_dims_sized(dims: Seq<Dimension>, count: usize)
    requires
        all_sized(dims),
    ensures
        scan_dims(dims, count) is Err ==> scan_dims(dims, count) == Err::<usize, ConversionError>(
            ConversionError::ArrayTooLarge,
        ),
    decreases dims.len(),
{
    if dims.len() > 0 {
        let rest = dims.drop_last();
        assert(dim_size(dims[dims.len() - 1]) is Ok);
        assert forall|i: int| 0 <= i < rest.len() implies (#[trigger] dim_size(rest[i])) is Ok by {
            assert(rest[i] == dims[i]);
        }
        let len = dim_size(dims.last())->Ok_0;
        if count * len <= usize::MAX {
            lemma_scan_dims_sized(rest, (count * len) as usize);
        }
    }
}

/// The error names a dimension without a length exactly where every
/// dimension after it has one and the count fits up to there: the scan
/// reports the last such dimension of the specifier.
pub proof fn lemma_scan_dims_invalid(dims: Seq<Dimension>, count: usize, position: int)
    requires
        dims.len() <= usize::MAX,
        0 <= position < dims.len(),
        dim_size(dims[position]) is Err,
        all_sized(dims.skip(position + 1)),
        count * product(dim_sizes(dims.skip(position + 1))) <= usize::MAX,
    ensures
        scan_dims(dims, count) == Err::<usize, ConversionError>(
            ConversionError::InvalidArrayDimension {
                position: position as usize,
                fault: dim_size(dims[position])->Err_0,
            },
        ),
{
    let outer = dims.take(position);
    let at = seq![dims[position]];
    let inner = dims.skip(position + 1);
    assert(dims =~= outer + (at + inner));
    lemma_scan_dims(inner, count);
    let reached = scan_dims(inner, count)->Ok_0;
    lemma_scan_dims_concat(at, inner, count);
    assert(at.last() == dims[position]);
    assert(scan_dims(at, reached) == Err::<usize, ConversionError>(
        ConversionError::InvalidArrayDimension {
            position: 0,
            fault: dim_size(dims[position])->Err_0,
        },
    ));
    lemma_scan_dims_concat(outer, at + inner, count);
}

/// The array is too large exactly where, from some dimension on, every
/// dimension has a length and the count does not fit.
pub proof fn lemma_scan_dims_too_large(dims: Seq<Dimension>, count: usize, position: int)
    requires
        dims.len() <= usize::MAX,
        0 <= position <= dims.len(),
        all_sized(dims.skip(position)),
        count * product(dim_sizes(dims.skip(position))) > usize::MAX,
    ensures
        scan_dims(dims, count) == Err::<usize, ConversionError>(ConversionError::ArrayTooLarge),
{
    let outer = dims.take(position);
    let inner = dims.skip(position);
    assert(dims =~= outer + inner);
    lemma_scan_dims(inner, count);
    lemma_scan_dims_sized(inner, count);
    lemma_scan_dims_concat(outer, inner, count);
}

/// Arrays around arrays: the lengths of the outer arrays stand before those
/// of the inner ones.
pub proof fn lemma_array_of_concat(outer: Seq<usize>, inner: Seq<usize>, base: HostType)
    ensures
        array_of(outer + inner, base) == array_of(outer, array_of(inner, base)),
    decreases outer.len(),
{
    if outer.len() == 0 {
        assert(outer + inner =~= inner);
    } else {
        assert((outer + inner).skip(1) =~= outer.skip(1) + inner);
        lemma_array_of_concat(outer.skip(1), inner, base);
    }
}

/// Builds the array type that a specifier declares around a seed, or around
/// the base type where there is no seed, and multiplies `total_dim` by the
/// lengths applied.
///
/// The dimensions are applied from the last declared one to the first, so
/// that the first one becomes the outermost array. A dimension without a
/// length, or a count above `usize::MAX`, ends the conversion; `total_dim`
/// then stays as it was.
///
/// A specifier without dimensions declares no array and is not resolved
/// here: a caller that meets one leaves the type as it is.
#[verifier::loop_isolation(false)]
pub fn map_glsl_type_arr(
    ty: HostTypeId,
    array_specifier: &ArraySpecifier,
    inner: Option<HostType>,
    total_dim: &mut usize,
) -> (res: Result<HostType, ConversionError>)
    requires
        array_specifier.dimensions@.len() > 0,
    ensures
        match scan_dims(array_specifier.dimensions@, *old(total_dim)) {
            Ok(count) => res == Ok::<HostType, ConversionError>(
                array_of(dim_sizes(array_specifier.dimensions@), seed_or_base(ty, inner)),
            ) && *final(total_dim) == count,
            Err(e) => res == Err::<HostType, ConversionError>(e) && *final(total_dim) == *old(
                total_dim,
            ),
        },
        res is Ok <==> all_sized(array_specifier.dimensions@) && *old(total_dim) * product(
            dim_sizes(array_specifier.dimensions@),
        ) <= usize::MAX,
        res is Ok ==> *final(total_dim) == *old(total_dim) * product(
            dim_sizes(array_specifier.dimensions@),
        ),
{
    let start: usize = *total_dim;
    let ghost dims = array_specifier.dimensions@;
    let ghost sizes = dim_sizes(dims);
    let ghost seed = seed_or_base(ty, inner);
    proof {
        lemma_scan_dims(dims, start);
    }
    let mut built: HostType = match inner {
        Some(seed) => seed,
        None => HostType::Plain(ty),
    };
    let mut count: usize = start;
    let mut k: usize = array_specifier.dimensions.len();
    proof {
        assert(dims.take(k as int) =~= dims);
        assert(sizes.skip(k as int) =~= Seq::<usize>::empty());
    }
    // The last dimension is the length of the innermost array.
    while k > 0
        invariant
            dims == array_specifier.dimensions@,
            sizes == dim_sizes(dims),
            k <= dims.len(),
            scan_dims(dims, start) == scan_dims(dims.take(k as int), count),
            built == array_of(sizes.skip(k as int), seed),
        decreases k,
    {
        k = k - 1;
        proof {
            assert(dims.take(k + 1).last() == dims[k as int]);
            assert(dims.take(k + 1).drop_last() =~= dims.take(k as int));
            assert(sizes.skip(k as int)[0] == dim_len(dims[k as int]));
            assert(sizes.skip(k as int).skip(1) =~= sizes.skip(k + 1));
        }
        let size: usize = match resolve_glsl_arr_dim_size(&array_specifier.dimensions[k]) {
            Ok(size) => size,
            Err(fault) => {
                return Err(ConversionError::InvalidArrayDimension { position: k, fault });
            },
        };
        count = match count.checked_mul(size) {
            Some(wider) => wider,
            None => {
                return Err(ConversionError::ArrayTooLarge);
            },
        };
        built = HostType::Array(Box::new(built), size);
    }
    proof {
        assert(dims.take(0) =~= Seq::<Dimension>::empty());
        assert(sizes.skip(0) =~= sizes);
    }
    *total_dim = count;
    Ok(built)
}

} // verus!
