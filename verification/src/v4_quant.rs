//! The on-disk contract of a packed V4 expert, shared by preflight and loading.
//!
//! Each tensor group is resolved on its own: the checkpoint-wide quantization method
//! says nothing about the routed experts of a mixed-precision checkpoint.

use vstd::prelude::*;
use vstd::slice::slice_to_vec;

use crate::quant_error::{Fault, QuantError};
use crate::text::{join_name, member_name};
use crate::weights::{Header, TensorHeader, WeightDtype, WeightStore};

verus! {

/// Weights that share one NVFP4 block scale.
pub const NVFP4_GROUP: usize = 16;

/// Weights that share one MXFP4 block scale.
pub const MXFP4_GROUP: usize = 32;

/// How the weights of a packed expert group are scaled.
#[derive(Clone, Copy, Debug, PartialEq, Eq, Structural)]
pub enum PackedExpertFormat {
    Nvfp4,
    Mxfp4,
}

/// The name of the packed weights of a group.
pub open spec fn weight_name(prefix: Seq<char>) -> Seq<char> {
    member_name(prefix, "weight"@)
}

/// The name of the NVFP4 block scales of a group.
pub open spec fn weight_scale_name(prefix: Seq<char>) -> Seq<char> {
    member_name(prefix, "weight_scale"@)
}

/// The name of the NVFP4 global scale of a group.
pub open spec fn weight_scale_2_name(prefix: Seq<char>) -> Seq<char> {
    member_name(prefix, "weight_scale_2"@)
}

/// The name of the NVFP4 input scale of a group.
pub open spec fn input_scale_name(prefix: Seq<char>) -> Seq<char> {
    member_name(prefix, "input_scale"@)
}

/// The name of the MXFP4 block scales of a group.
pub open spec fn scale_name(prefix: Seq<char>) -> Seq<char> {
    member_name(prefix, "scale"@)
}

/// Whether the group has a tensor that only NVFP4 groups have.
pub open spec fn names_nvfp4(store: Map<Seq<char>, Header>, prefix: Seq<char>) -> bool {
    ||| store.contains_key(weight_scale_name(prefix))
    ||| store.contains_key(weight_scale_2_name(prefix))
    ||| store.contains_key(input_scale_name(prefix))
}

/// Whether the tensor under `name` is there, with this element type and this shape.
pub open spec fn holds(
    store: Map<Seq<char>, Header>,
    name: Seq<char>,
    dtype: WeightDtype,
    shape: Seq<usize>,
) -> bool {
    &&& store.contains_key(name)
    &&& store[name].dtype == dtype
    &&& store[name].shape == shape
}

/// Whether the tensor under `name` is there and is one F32 number.
pub open spec fn holds_scalar(store: Map<Seq<char>, Header>, name: Seq<char>) -> bool {
    ||| holds(store, name, WeightDtype::FP32, seq![])
    ||| holds(store, name, WeightDtype::FP32, seq![1])
}

/// Rows of a weight matrix.
pub open spec fn rows(weight: Header) -> usize {
    weight.shape[0]
}

/// Weights in a row of a packed weight matrix, two to a byte.
pub open spec fn width(weight: Header) -> int {
    2 * weight.shape[1]
}

/// Whether the group has packed weights: a matrix of bytes, not empty, with a row width
/// that fits in a `usize`.
pub open spec fn holds_packed(store: Map<Seq<char>, Header>, prefix: Seq<char>) -> bool {
    let weight = store[weight_name(prefix)];
    &&& store.contains_key(weight_name(prefix))
    &&& weight.dtype == WeightDtype::UInt8
    &&& weight.shape.len() == 2
    &&& 0 < rows(weight)
    &&& 0 < width(weight) <= usize::MAX
}

/// Whether the group is a complete NVFP4 expert: packed weights, one E4M3 scale for
/// every block of a row, a global and an input scale, and no MXFP4 scales.
pub open spec fn is_nvfp4(store: Map<Seq<char>, Header>, prefix: Seq<char>) -> bool {
    let weight = store[weight_name(prefix)];
    &&& holds_packed(store, prefix)
    &&& width(weight) % (NVFP4_GROUP as int) == 0
    &&& holds(
        store,
        weight_scale_name(prefix),
        WeightDtype::FP8E4M3,
        seq![rows(weight), (width(weight) / (NVFP4_GROUP as int)) as usize],
    )
    &&& holds_scalar(store, weight_scale_2_name(prefix))
    &&& holds_scalar(store, input_scale_name(prefix))
    &&& !store.contains_key(scale_name(prefix))
}

/// Whether the group is a complete MXFP4 expert: packed weights, one E8M0 scale for
/// every block of a row, and no NVFP4 scales.
pub open spec fn is_mxfp4(store: Map<Seq<char>, Header>, prefix: Seq<char>) -> bool {
    let weight = store[weight_name(prefix)];
    &&& holds_packed(store, prefix)
    &&& width(weight) % (MXFP4_GROUP as int) == 0
    &&& holds(
        store,
        scale_name(prefix),
        WeightDtype::FP8E8M0,
        seq![rows(weight), (width(weight) / (MXFP4_GROUP as int)) as usize],
    )
    &&& !names_nvfp4(store, prefix)
}

/// The first of two faults.
pub open spec fn first(one: Option<Fault>, other: Option<Fault>) -> Option<Fault> {
    if one is Some {
        one
    } else {
        other
    }
}

/// What is wrong with the tensor under `name`, of which this element type and this shape
/// are expected.
pub open spec fn expect_fault(
    store: Map<Seq<char>, Header>,
    name: Seq<char>,
    dtype: WeightDtype,
    shape: Seq<usize>,
) -> Option<Fault> {
    if !store.contains_key(name) {
        Some(Fault::Missing { name })
    } else if !holds(store, name, dtype, shape) {
        Some(Fault::Mismatch { name, found: store[name], expected: Header { dtype, shape } })
    } else {
        None
    }
}

/// What is wrong with the tensor under `name`, which should be one F32 number.
pub open spec fn scalar_fault(store: Map<Seq<char>, Header>, name: Seq<char>) -> Option<Fault> {
    if !store.contains_key(name) {
        Some(Fault::Missing { name })
    } else if !holds_scalar(store, name) {
        Some(Fault::NotScalar { name, found: store[name] })
    } else {
        None
    }
}

/// What is wrong with the packed weights of a group.
pub open spec fn packed_fault(store: Map<Seq<char>, Header>, prefix: Seq<char>) -> Option<Fault> {
    let name = weight_name(prefix);
    let weight = store[name];
    if !store.contains_key(name) {
        Some(Fault::Missing { name })
    } else if weight.dtype != WeightDtype::UInt8 || weight.shape.len() != 2 {
        Some(Fault::NotPacked { name, found: weight })
    } else if width(weight) > usize::MAX {
        Some(Fault::WidthOverflow)
    } else if rows(weight) == 0 || width(weight) == 0 {
        Some(Fault::Empty { name })
    } else {
        None
    }
}

/// What is wrong with the scales of a group that has packed weights and is named as an
/// NVFP4 group.
pub open spec fn nvfp4_fault(store: Map<Seq<char>, Header>, prefix: Seq<char>) -> Option<Fault> {
    let weight = store[weight_name(prefix)];
    if store.contains_key(scale_name(prefix)) {
        Some(Fault::MixedScales { prefix })
    } else if width(weight) % (NVFP4_GROUP as int) != 0 {
        Some(Fault::Nvfp4Width { prefix })
    } else {
        first(
            expect_fault(
                store,
                weight_scale_name(prefix),
                WeightDtype::FP8E4M3,
                seq![rows(weight), (width(weight) / (NVFP4_GROUP as int)) as usize],
            ),
            first(
                scalar_fault(store, weight_scale_2_name(prefix)),
                scalar_fault(store, input_scale_name(prefix)),
            ),
        )
    }
}

/// What is wrong with the scales of a group that has packed weights and is not named as
/// an NVFP4 group.
pub open spec fn mxfp4_fault(store: Map<Seq<char>, Header>, prefix: Seq<char>) -> Option<Fault> {
    let weight = store[weight_name(prefix)];
    if width(weight) % (MXFP4_GROUP as int) != 0 {
        Some(Fault::Mxfp4Width { prefix })
    } else {
        expect_fault(
            store,
            scale_name(prefix),
            WeightDtype::FP8E8M0,
            seq![rows(weight), (width(weight) / (MXFP4_GROUP as int)) as usize],
        )
    }
}

/// The first thing that is wrong with the group `prefix`: the weights are looked at
/// first, then the scales.
pub open spec fn group_fault(store: Map<Seq<char>, Header>, prefix: Seq<char>) -> Option<Fault> {
    first(
        packed_fault(store, prefix),
        if names_nvfp4(store, prefix) {
            nvfp4_fault(store, prefix)
        } else {
            mxfp4_fault(store, prefix)
        },
    )
}

/// The format of the group `prefix`, or the first thing that is wrong with the group.
pub open spec fn resolution(store: Map<Seq<char>, Header>, prefix: Seq<char>) -> Result<
    PackedExpertFormat,
    Fault,
> {
    match group_fault(store, prefix) {
        Some(fault) => Err(fault),
        None => if names_nvfp4(store, prefix) {
            Ok(PackedExpertFormat::Nvfp4)
        } else {
            Ok(PackedExpertFormat::Mxfp4)
        },
    }
}

/// Checks that the tensor under `name` has this element type and this shape.
pub fn expect(
    store: &WeightStore,
    name: &str,
    dtype: WeightDtype,
    shape: &[usize],
) -> (res: Result<(), QuantError>)
    ensures
        res is Ok <==> holds(store.headers(), name@, dtype, shape@),
        res is Ok <==> store.headers().contains_key(name@) && store.headers()[name@] == (Header {
            dtype,
            shape: shape@,
        }),
        !store.headers().contains_key(name@) ==> res is Err && res->Err_0@ == (Fault::Missing {
            name: name@,
        }),
        store.headers().contains_key(name@) && res is Err ==> res->Err_0@ == (Fault::Mismatch {
            name: name@,
            found: store.headers()[name@],
            expected: Header { dtype, shape: shape@ },
        }),
        res matches Err(error) ==> Some(error@) == expect_fault(store.headers(), name@, dtype, shape@),
{
    match store.get(name) {
        None => Err(QuantError::Missing { name: name.to_owned() }),
        Some(tensor) => {
            if tensor.is_exactly(dtype, shape) {
                Ok(())
            } else {
                Err(
                    QuantError::Mismatch {
                        name: name.to_owned(),
                        found: tensor.header(),
                        expected: TensorHeader { dtype, shape: slice_to_vec(shape) },
                    },
                )
            }
        },
    }
}

/// Checks that the tensor under `name` is one F32 number.
fn expect_scalar(store: &WeightStore, name: &str) -> (res: Result<(), QuantError>)
    ensures
        res is Ok <==> holds_scalar(store.headers(), name@),
        res matches Err(error) ==> Some(error@) == scalar_fault(store.headers(), name@),
{
    match store.get(name) {
        None => Err(QuantError::Missing { name: name.to_owned() }),
        Some(tensor) => {
            proof {
                assert(tensor.shape@.len() == 0 ==> tensor.shape@ =~= seq![]);
                assert(tensor.shape@.len() == 1 && tensor.shape@[0] == 1 ==> tensor.shape@
                    =~= seq![1]);
            }
            if tensor.dtype == WeightDtype::FP32 && (tensor.shape.len() == 0
                || tensor.shape.len() == 1 && tensor.shape[0] == 1) {
                Ok(())
            } else {
                Err(QuantError::NotScalar { name: name.to_owned(), found: tensor.header() })
            }
        },
    }
}

/// Resolves the packed expert whose tensors are named after `prefix`.
pub fn resolve_packed_expert(store: &WeightStore, prefix: &str) -> (res: Result<
    PackedExpertFormat,
    QuantError,
>)
    ensures
        res == Ok::<PackedExpertFormat, QuantError>(PackedExpertFormat::Nvfp4) <==> is_nvfp4(
            store.headers(),
            prefix@,
        ),
        res == Ok::<PackedExpertFormat, QuantError>(PackedExpertFormat::Mxfp4) <==> is_mxfp4(
            store.headers(),
            prefix@,
        ),
        match res {
            Ok(format) => resolution(store.headers(), prefix@) == Ok::<PackedExpertFormat, Fault>(format),
            Err(error) => resolution(store.headers(), prefix@) == Err::<PackedExpertFormat, Fault>(error@),
        },
{
    let name = join_name(prefix, "weight");
    let weight = match store.get(name.as_str()) {
        None => return Err(QuantError::Missing { name }),
        Some(weight) => weight,
    };
    if weight.dtype != WeightDtype::UInt8 || weight.shape.len() != 2 {
        return Err(QuantError::NotPacked { name, found: weight.header() });
    }
    let n: usize = weight.shape[0];
    let k: usize = match weight.shape[1].checked_mul(2) {
        None => return Err(QuantError::WidthOverflow),
        Some(k) => k,
    };
    if n == 0 || k == 0 {
        return Err(QuantError::Empty { name });
    }
    let weight_scale = join_name(prefix, "weight_scale");
    let weight_scale_2 = join_name(prefix, "weight_scale_2");
    let input_scale = join_name(prefix, "input_scale");
    let scale = join_name(prefix, "scale");
    if store.contains(weight_scale.as_str()) || store.contains(weight_scale_2.as_str())
        || store.contains(input_scale.as_str()) {
        if store.contains(scale.as_str()) {
            return Err(QuantError::MixedScales { prefix: prefix.to_owned() });
        }
        if k % NVFP4_GROUP != 0 {
            return Err(QuantError::Nvfp4Width { prefix: prefix.to_owned() });
        }
        let blocks = [n, k / NVFP4_GROUP];
        assert(blocks@ =~= seq![n, (k / NVFP4_GROUP) as usize]);
        expect(store, weight_scale.as_str(), WeightDtype::FP8E4M3, &blocks)?;
        expect_scalar(store, weight_scale_2.as_str())?;
        expect_scalar(store, input_scale.as_str())?;
        Ok(PackedExpertFormat::Nvfp4)
    } else {
        if k % MXFP4_GROUP != 0 {
            return Err(QuantError::Mxfp4Width { prefix: prefix.to_owned() });
        }
        let blocks = [n, k / MXFP4_GROUP];
        assert(blocks@ =~= seq![n, (k / MXFP4_GROUP) as usize]);
        expect(store, scale.as_str(), WeightDtype::FP8E8M0, &blocks)?;
        Ok(PackedExpertFormat::Mxfp4)
    }
}

} // verus!
