//! What holds of every packed expert group.

use vstd::prelude::*;

use crate::quant_error::Fault;
use crate::text::member_name;
use crate::v4_quant::{
    expect_fault, holds, input_scale_name, is_mxfp4, is_nvfp4, resolution, scale_name, weight_name,
    weight_scale_2_name, weight_scale_name, PackedExpertFormat, MXFP4_GROUP, NVFP4_GROUP,
};
use crate::weights::{Header, WeightDtype};

verus! {

/// The names that the tensors of the group `prefix` can have.
pub open spec fn group_names(prefix: Seq<char>) -> Set<Seq<char>> {
    set![
        weight_name(prefix),
        weight_scale_name(prefix),
        weight_scale_2_name(prefix),
        input_scale_name(prefix),
        scale_name(prefix),
    ]
}

/// The names that the tensors of a group of this format must have.
pub open spec fn required_names(prefix: Seq<char>, format: PackedExpertFormat) -> Set<Seq<char>> {
    match format {
        PackedExpertFormat::Nvfp4 => set![
            weight_name(prefix),
            weight_scale_name(prefix),
            weight_scale_2_name(prefix),
            input_scale_name(prefix),
        ],
        PackedExpertFormat::Mxfp4 => set![weight_name(prefix), scale_name(prefix)],
    }
}

/// The name of the block scales of a group of this format.
pub open spec fn block_scale_name(prefix: Seq<char>, format: PackedExpertFormat) -> Seq<char> {
    match format {
        PackedExpertFormat::Nvfp4 => weight_scale_name(prefix),
        PackedExpertFormat::Mxfp4 => scale_name(prefix),
    }
}

/// Weights that share one block scale of this format.
pub open spec fn block_size(format: PackedExpertFormat) -> usize {
    match format {
        PackedExpertFormat::Nvfp4 => NVFP4_GROUP,
        PackedExpertFormat::Mxfp4 => MXFP4_GROUP,
    }
}

/// Whether a header is that of one F32 number.
pub open spec fn is_scalar(header: Header) -> bool {
    &&& header.dtype == WeightDtype::FP32
    &&& header.shape == Seq::<usize>::empty() || header.shape == seq![1usize]
}

/// Whether the tensor under `name` is a single number in groups of this format.
pub open spec fn names_scalar(
    prefix: Seq<char>,
    format: PackedExpertFormat,
    name: Seq<char>,
) -> bool {
    &&& format == PackedExpertFormat::Nvfp4
    &&& name == weight_scale_2_name(prefix) || name == input_scale_name(prefix)
}

/// Whether two stores say the same of the tensor under `name`.
pub open spec fn agree_on(
    one: Map<Seq<char>, Header>,
    other: Map<Seq<char>, Header>,
    name: Seq<char>,
) -> bool {
    &&& one.contains_key(name) <==> other.contains_key(name)
    &&& one.contains_key(name) ==> one[name] == other[name]
}

/// The five names of a group have different lengths.
proof fn lemma_names_differ(prefix: Seq<char>)
    ensures
        weight_name(prefix).len() == prefix.len() + 7,
        weight_scale_name(prefix).len() == prefix.len() + 13,
        weight_scale_2_name(prefix).len() == prefix.len() + 15,
        input_scale_name(prefix).len() == prefix.len() + 12,
        scale_name(prefix).len() == prefix.len() + 6,
{
    reveal_strlit(".");
    reveal_strlit("weight");
    reveal_strlit("weight_scale");
    reveal_strlit("weight_scale_2");
    reveal_strlit("input_scale");
    reveal_strlit("scale");
}

/// Every name of a group is its prefix, a dot and a part without dots.
proof fn lemma_group_name(prefix: Seq<char>, name: Seq<char>) -> (suffix: Seq<char>)
    requires
        group_names(prefix).contains(name),
    ensures
        !suffix.contains('.'),
        name == member_name(prefix, suffix),
{
    reveal_strlit("weight");
    reveal_strlit("weight_scale");
    reveal_strlit("weight_scale_2");
    reveal_strlit("input_scale");
    reveal_strlit("scale");
    if name == weight_name(prefix) {
        "weight"@
    } else if name == weight_scale_name(prefix) {
        "weight_scale"@
    } else if name == weight_scale_2_name(prefix) {
        "weight_scale_2"@
    } else if name == input_scale_name(prefix) {
        "input_scale"@
    } else {
        "scale"@
    }
}

/// A dotted name splits in one way into a prefix and a last part without dots.
proof fn lemma_last_dot(
    prefix: Seq<char>,
    suffix: Seq<char>,
    other_prefix: Seq<char>,
    other_suffix: Seq<char>,
)
    requires
        !suffix.contains('.'),
        !other_suffix.contains('.'),
        member_name(prefix, suffix) == member_name(other_prefix, other_suffix),
    ensures
        prefix == other_prefix,
{
    reveal_strlit(".");
    let name = member_name(prefix, suffix);
    let p = prefix.len() as int;
    let q = other_prefix.len() as int;
    assert(name[p] == '.');
    assert(name[q] == '.');
    assert(p + 1 + suffix.len() == name.len());
    assert(q + 1 + other_suffix.len() == name.len());
    if p < q {
        assert(name[q] == suffix[q - p - 1]);
    }
    if q < p {
        assert(name[p] == other_suffix[p - q - 1]);
    }
    assert(prefix =~= name.take(p));
    assert(other_prefix =~= name.take(q));
}

/// Law: a group resolves to NVFP4 when it is a complete NVFP4 expert and only then, and
/// to MXFP4 when it is a complete MXFP4 expert and only then.
pub proof fn law_resolution_is_the_format(store: Map<Seq<char>, Header>, prefix: Seq<char>)
    ensures
        resolution(store, prefix) == Ok::<PackedExpertFormat, Fault>(PackedExpertFormat::Nvfp4)
            <==> is_nvfp4(store, prefix),
        resolution(store, prefix) == Ok::<PackedExpertFormat, Fault>(PackedExpertFormat::Mxfp4)
            <==> is_mxfp4(store, prefix),
{
}

/// Law: no group is a complete expert of both formats.
pub proof fn law_formats_exclude_each_other(store: Map<Seq<char>, Header>, prefix: Seq<char>)
    ensures
        !(is_nvfp4(store, prefix) && is_mxfp4(store, prefix)),
{
}

/// Law: what a group resolves to is decided by the tensors under its own five names;
/// nothing else in the checkpoint has a say.
pub proof fn law_resolution_reads_only_its_group(
    one: Map<Seq<char>, Header>,
    other: Map<Seq<char>, Header>,
    prefix: Seq<char>,
)
    requires
        forall|name: Seq<char>| #[trigger]
            group_names(prefix).contains(name) ==> agree_on(one, other, name),
    ensures
        resolution(one, prefix) == resolution(other, prefix),
{
    assert(group_names(prefix).contains(weight_name(prefix)));
    assert(group_names(prefix).contains(weight_scale_name(prefix)));
    assert(group_names(prefix).contains(weight_scale_2_name(prefix)));
    assert(group_names(prefix).contains(input_scale_name(prefix)));
    assert(group_names(prefix).contains(scale_name(prefix)));
}

/// Law: groups of different prefixes have no tensor in common.
pub proof fn law_groups_are_disjoint(prefix: Seq<char>, other: Seq<char>)
    requires
        prefix != other,
    ensures
        group_names(prefix).disjoint(group_names(other)),
{
    assert forall|name: Seq<char>| #[trigger] group_names(prefix).contains(name) implies
        !group_names(other).contains(name) by {
        if group_names(other).contains(name) {
            let suffix = lemma_group_name(prefix, name);
            let other_suffix = lemma_group_name(other, name);
            lemma_last_dot(prefix, suffix, other, other_suffix);
        }
    }
}

/// Law: groups are quantized independently. Whatever tensor of another group is put in
/// place or taken away, the group resolves as before.
pub proof fn law_groups_are_independent(
    store: Map<Seq<char>, Header>,
    prefix: Seq<char>,
    other: Seq<char>,
    name: Seq<char>,
    header: Header,
)
    requires
        prefix != other,
        group_names(other).contains(name),
    ensures
        resolution(store.insert(name, header), prefix) == resolution(store, prefix),
        resolution(store.remove(name), prefix) == resolution(store, prefix),
{
    law_groups_are_disjoint(prefix, other);
    law_resolution_reads_only_its_group(store.insert(name, header), store, prefix);
    law_resolution_reads_only_its_group(store.remove(name), store, prefix);
}

/// Law: a resolved group has all of its tensors; without any one of them it is refused,
/// and the refusal names that tensor.
pub proof fn law_every_tensor_is_required(
    store: Map<Seq<char>, Header>,
    prefix: Seq<char>,
    format: PackedExpertFormat,
    name: Seq<char>,
)
    requires
        resolution(store, prefix) == Ok::<PackedExpertFormat, Fault>(format),
        required_names(prefix, format).contains(name),
    ensures
        store.contains_key(name),
        resolution(store.remove(name), prefix) == Err::<PackedExpertFormat, Fault>(
            Fault::Missing { name },
        ),
{
    lemma_names_differ(prefix);
}

/// Law: a resolved group tolerates no scale of the other format; with one it is refused
/// as mixed.
pub proof fn law_mixed_scales_are_refused(
    store: Map<Seq<char>, Header>,
    prefix: Seq<char>,
    format: PackedExpertFormat,
    name: Seq<char>,
    header: Header,
)
    requires
        resolution(store, prefix) == Ok::<PackedExpertFormat, Fault>(format),
        group_names(prefix).contains(name),
        !required_names(prefix, format).contains(name),
    ensures
        resolution(store.insert(name, header), prefix) == Err::<PackedExpertFormat, Fault>(
            Fault::MixedScales { prefix },
        ),
{
    lemma_names_differ(prefix);
}

/// Law: the header of a tensor of a resolved group can be no other, except that the two
/// NVFP4 scalars may be of rank zero or one. With any other header the group is refused.
pub proof fn law_headers_are_exact(
    store: Map<Seq<char>, Header>,
    prefix: Seq<char>,
    format: PackedExpertFormat,
    name: Seq<char>,
    header: Header,
)
    requires
        resolution(store, prefix) == Ok::<PackedExpertFormat, Fault>(format),
        required_names(prefix, format).contains(name),
        header != store[name],
    ensures
        names_scalar(prefix, format, name) && is_scalar(header) ==> resolution(
            store.insert(name, header),
            prefix,
        ) == Ok::<PackedExpertFormat, Fault>(format),
        !(names_scalar(prefix, format, name) && is_scalar(header)) ==> resolution(
            store.insert(name, header),
            prefix,
        ) is Err,
{
    lemma_names_differ(prefix);
    if name == weight_name(prefix) && header.shape.len() == 2 {
        let weight = store[name];
        let scale = store[block_scale_name(prefix, format)];
        if header.shape[0] == weight.shape[0] && header.shape[1] == weight.shape[1] {
            assert(header.shape =~= weight.shape);
        }
        assert(scale.shape[0] == weight.shape[0]);
    }
}

/// Law: the block scales of a resolved group cover every row of weights exactly, two
/// weights to a byte.
pub proof fn law_scales_cover_the_weights(
    store: Map<Seq<char>, Header>,
    prefix: Seq<char>,
    format: PackedExpertFormat,
)
    requires
        resolution(store, prefix) == Ok::<PackedExpertFormat, Fault>(format),
    ensures
        store[weight_name(prefix)].shape.len() == 2,
        store[block_scale_name(prefix, format)].shape.len() == 2,
        store[block_scale_name(prefix, format)].shape[0] == store[weight_name(prefix)].shape[0],
        store[block_scale_name(prefix, format)].shape[1] * block_size(format) == 2
            * store[weight_name(prefix)].shape[1],
{
    let scales = store[block_scale_name(prefix, format)].shape[1];
    match format {
        PackedExpertFormat::Nvfp4 => assert(scales * block_size(format) == scales * 16),
        PackedExpertFormat::Mxfp4 => assert(scales * block_size(format) == scales * 32),
    }
}

/// The names of a group are its prefix with a dotted ending.
proof fn lemma_names_end_in(prefix: Seq<char>)
    ensures
        weight_name(prefix) == prefix + ".weight"@,
        weight_scale_name(prefix) == prefix + ".weight_scale"@,
        weight_scale_2_name(prefix) == prefix + ".weight_scale_2"@,
        input_scale_name(prefix) == prefix + ".input_scale"@,
        scale_name(prefix) == prefix + ".scale"@,
{
    reveal_strlit(".");
    reveal_strlit("weight");
    reveal_strlit("weight_scale");
    reveal_strlit("weight_scale_2");
    reveal_strlit("input_scale");
    reveal_strlit("scale");
    reveal_strlit(".weight");
    reveal_strlit(".weight_scale");
    reveal_strlit(".weight_scale_2");
    reveal_strlit(".input_scale");
    reveal_strlit(".scale");
    assert(weight_name(prefix) =~= prefix + ".weight"@);
    assert(weight_scale_name(prefix) =~= prefix + ".weight_scale"@);
    assert(weight_scale_2_name(prefix) =~= prefix + ".weight_scale_2"@);
    assert(input_scale_name(prefix) =~= prefix + ".input_scale"@);
    assert(scale_name(prefix) =~= prefix + ".scale"@);
}

/// Law: a tensor meets an expectation when it is there with that element type and that
/// shape. One that is not there is missing; one with any other type or shape is a mismatch.
pub proof fn law_expectations_are_exact(
    store: Map<Seq<char>, Header>,
    name: Seq<char>,
    dtype: WeightDtype,
    shape: Seq<usize>,
)
    ensures
        holds(store, name, dtype, shape) <==> store.contains_key(name) && store[name].dtype == dtype
            && store[name].shape == shape,
        expect_fault(store, name, dtype, shape) is None <==> store.contains_key(name)
            && store[name].dtype == dtype && store[name].shape == shape,
        !store.contains_key(name) ==> expect_fault(store, name, dtype, shape) == Some(
            Fault::Missing { name },
        ),
        store.contains_key(name) && (store[name].dtype != dtype || store[name].shape != shape)
            ==> expect_fault(store, name, dtype, shape) == Some(
            Fault::Mismatch { name, found: store[name], expected: Header { dtype, shape } },
        ),
{
}

/// Law: NVFP4 groups are those with a nonempty matrix of bytes of a width that divides by
/// 16, with one E4M3 scale for every 16 weights of a row, with a single F32 number each as
/// global and as input scale, and without MXFP4 scales.
pub proof fn law_nvfp4_groups(store: Map<Seq<char>, Header>, prefix: Seq<char>)
    ensures
        resolution(store, prefix) == Ok::<PackedExpertFormat, Fault>(PackedExpertFormat::Nvfp4)
            <==> {
            let weight = store[prefix + ".weight"@];
            let scale = store[prefix + ".weight_scale"@];
            let global = store[prefix + ".weight_scale_2"@];
            let input = store[prefix + ".input_scale"@];
            &&& store.contains_key(prefix + ".weight"@)
            &&& weight.dtype == WeightDtype::UInt8
            &&& weight.shape.len() == 2
            &&& weight.shape[0] > 0
            &&& 0 < 2 * weight.shape[1] <= usize::MAX
            &&& (2 * weight.shape[1]) % 16 == 0
            &&& store.contains_key(prefix + ".weight_scale"@)
            &&& scale.dtype == WeightDtype::FP8E4M3
            &&& scale.shape.len() == 2
            &&& scale.shape[0] == weight.shape[0]
            &&& scale.shape[1] * 16 == 2 * weight.shape[1]
            &&& store.contains_key(prefix + ".weight_scale_2"@)
            &&& global.dtype == WeightDtype::FP32
            &&& global.shape.len() == 0 || (global.shape.len() == 1 && global.shape[0] == 1)
            &&& store.contains_key(prefix + ".input_scale"@)
            &&& input.dtype == WeightDtype::FP32
            &&& input.shape.len() == 0 || (input.shape.len() == 1 && input.shape[0] == 1)
            &&& !store.contains_key(prefix + ".scale"@)
        },
{
    lemma_names_end_in(prefix);
    let weight = store[prefix + ".weight"@];
    let scale = store[prefix + ".weight_scale"@];
    let global = store[prefix + ".weight_scale_2"@];
    let input = store[prefix + ".input_scale"@];
    lemma_pair(scale.shape);
    lemma_scalar_shape(global.shape);
    lemma_scalar_shape(input.shape);
}

/// Law: MXFP4 groups are those with a nonempty matrix of bytes of a width that divides by
/// 32, with one E8M0 scale for every 32 weights of a row, and without NVFP4 scales.
pub proof fn law_mxfp4_groups(store: Map<Seq<char>, Header>, prefix: Seq<char>)
    ensures
        resolution(store, prefix) == Ok::<PackedExpertFormat, Fault>(PackedExpertFormat::Mxfp4)
            <==> {
            let weight = store[prefix + ".weight"@];
            let scale = store[prefix + ".scale"@];
            &&& store.contains_key(prefix + ".weight"@)
            &&& weight.dtype == WeightDtype::UInt8
            &&& weight.shape.len() == 2
            &&& weight.shape[0] > 0
            &&& 0 < 2 * weight.shape[1] <= usize::MAX
            &&& (2 * weight.shape[1]) % 32 == 0
            &&& store.contains_key(prefix + ".scale"@)
            &&& scale.dtype == WeightDtype::FP8E8M0
            &&& scale.shape.len() == 2
            &&& scale.shape[0] == weight.shape[0]
            &&& scale.shape[1] * 32 == 2 * weight.shape[1]
            &&& !store.contains_key(prefix + ".weight_scale"@)
            &&& !store.contains_key(prefix + ".weight_scale_2"@)
            &&& !store.contains_key(prefix + ".input_scale"@)
        },
{
    lemma_names_end_in(prefix);
    lemma_pair(store[prefix + ".scale"@].shape);
}

/// A shape of two dimensions is the pair of them.
proof fn lemma_pair(shape: Seq<usize>)
    ensures
        shape.len() == 2 ==> shape == seq![shape[0], shape[1]],
{
    if shape.len() == 2 {
        assert(shape =~= seq![shape[0], shape[1]]);
    }
}

/// The shapes of a single number are the empty one and the one of a single dimension 1.
proof fn lemma_scalar_shape(shape: Seq<usize>)
    ensures
        shape == Seq::<usize>::empty() <==> shape.len() == 0,
        shape == seq![1usize] <==> shape.len() == 1 && shape[0] == 1,
{
    if shape.len() == 0 {
        assert(shape =~= Seq::<usize>::empty());
    }
    if shape.len() == 1 && shape[0] == 1 {
        assert(shape =~= seq![1usize]);
    }
}

/// Law: a group is refused for its weights first: when they are missing, are no matrix of
/// bytes, are too wide to count, or are empty, in this order.
pub proof fn law_refused_weights(store: Map<Seq<char>, Header>, prefix: Seq<char>)
    ensures
        ({
            let name = prefix + ".weight"@;
            let weight = store[name];
            let matrix = weight.dtype == WeightDtype::UInt8 && weight.shape.len() == 2;
            let result = resolution(store, prefix);
            &&& !store.contains_key(name) ==> result == Err::<PackedExpertFormat, Fault>(
                Fault::Missing { name },
            )
            &&& store.contains_key(name) && !matrix ==> result == Err::<PackedExpertFormat, Fault>(
                Fault::NotPacked { name, found: weight },
            )
            &&& store.contains_key(name) && matrix && 2 * weight.shape[1] > usize::MAX ==> result
                == Err::<PackedExpertFormat, Fault>(Fault::WidthOverflow)
            &&& store.contains_key(name) && matrix && 2 * weight.shape[1] <= usize::MAX && (
            weight.shape[0] == 0 || weight.shape[1] == 0) ==> result == Err::<
                PackedExpertFormat,
                Fault,
            >(Fault::Empty { name })
        }),
{
    lemma_names_end_in(prefix);
}

/// Law: a group with good weights and any NVFP4 scale is refused when it has MXFP4 scales
/// too, when its width does not divide by 16, or for the first of its block scales, its
/// global scale and its input scale that is missing or is not as it should be.
pub proof fn law_refused_nvfp4_scales(
    store: Map<Seq<char>, Header>,
    prefix: Seq<char>,
    n: usize,
    c: usize,
)
    requires
        store.contains_key(prefix + ".weight"@),
        store[prefix + ".weight"@].dtype == WeightDtype::UInt8,
        store[prefix + ".weight"@].shape == seq![n, c],
        0 < n,
        0 < 2 * c <= usize::MAX,
        store.contains_key(prefix + ".weight_scale"@) || store.contains_key(
            prefix + ".weight_scale_2"@,
        ) || store.contains_key(prefix + ".input_scale"@),
    ensures
        ({
            let block = prefix + ".weight_scale"@;
            let global = prefix + ".weight_scale_2"@;
            let input = prefix + ".input_scale"@;
            let blocks = Header {
                dtype: WeightDtype::FP8E4M3,
                shape: seq![n, ((2 * c) / 16) as usize],
            };
            let even = !store.contains_key(prefix + ".scale"@) && (2 * c) % 16 == 0;
            let good_block = even && store.contains_key(block) && store[block] == blocks;
            let good_global = good_block && store.contains_key(global) && store[global].dtype
                == WeightDtype::FP32 && (store[global].shape.len() == 0 || (
            store[global].shape.len() == 1 && store[global].shape[0] == 1));
            let scalar_input = store[input].dtype == WeightDtype::FP32 && (store[input].shape.len()
                == 0 || (store[input].shape.len() == 1 && store[input].shape[0] == 1));
            let result = resolution(store, prefix);
            &&& store.contains_key(prefix + ".scale"@) ==> result == Err::<
                PackedExpertFormat,
                Fault,
            >(Fault::MixedScales { prefix })
            &&& !store.contains_key(prefix + ".scale"@) && (2 * c) % 16 != 0 ==> result == Err::<
                PackedExpertFormat,
                Fault,
            >(Fault::Nvfp4Width { prefix })
            &&& even && !store.contains_key(block) ==> result == Err::<PackedExpertFormat, Fault>(
                Fault::Missing { name: block },
            )
            &&& even && store.contains_key(block) && store[block] != blocks ==> result == Err::<
                PackedExpertFormat,
                Fault,
            >(Fault::Mismatch { name: block, found: store[block], expected: blocks })
            &&& good_block && !store.contains_key(global) ==> result == Err::<
                PackedExpertFormat,
                Fault,
            >(Fault::Missing { name: global })
            &&& good_block && store.contains_key(global) && !good_global ==> result == Err::<
                PackedExpertFormat,
                Fault,
            >(Fault::NotScalar { name: global, found: store[global] })
            &&& good_global && !store.contains_key(input) ==> result == Err::<
                PackedExpertFormat,
                Fault,
            >(Fault::Missing { name: input })
            &&& good_global && store.contains_key(input) && !scalar_input ==> result == Err::<
                PackedExpertFormat,
                Fault,
            >(Fault::NotScalar { name: input, found: store[input] })
        }),
{
    lemma_names_end_in(prefix);
    lemma_scalar_shape(store[prefix + ".weight_scale_2"@].shape);
    lemma_scalar_shape(store[prefix + ".input_scale"@].shape);
}

/// Law: a group with good weights and no NVFP4 scale is refused when its width does not
/// divide by 32, or when its block scales are missing or are not as they should be.
pub proof fn law_refused_mxfp4_scales(
    store: Map<Seq<char>, Header>,
    prefix: Seq<char>,
    n: usize,
    c: usize,
)
    requires
        store.contains_key(prefix + ".weight"@),
        store[prefix + ".weight"@].dtype == WeightDtype::UInt8,
        store[prefix + ".weight"@].shape == seq![n, c],
        0 < n,
        0 < 2 * c <= usize::MAX,
        !store.contains_key(prefix + ".weight_scale"@),
        !store.contains_key(prefix + ".weight_scale_2"@),
        !store.contains_key(prefix + ".input_scale"@),
    ensures
        ({
            let block = prefix + ".scale"@;
            let blocks = Header {
                dtype: WeightDtype::FP8E8M0,
                shape: seq![n, ((2 * c) / 32) as usize],
            };
            let even = (2 * c) % 32 == 0;
            let result = resolution(store, prefix);
            &&& !even ==> result == Err::<PackedExpertFormat, Fault>(Fault::Mxfp4Width { prefix })
            &&& even && !store.contains_key(block) ==> result == Err::<PackedExpertFormat, Fault>(
                Fault::Missing { name: block },
            )
            &&& even && store.contains_key(block) && store[block] != blocks ==> result == Err::<
                PackedExpertFormat,
                Fault,
            >(Fault::Mismatch { name: block, found: store[block], expected: blocks })
        }),
{
    lemma_names_end_in(prefix);
}

} // verus!
