//! Why a tensor group is refused, and the message that says so.

use vstd::prelude::*;

use crate::text::{push_quoted, push_shape, quoted, shape_text};
use crate::weights::{Header, TensorHeader};

verus! {

/// Why a tensor group is no packed expert.
#[derive(Debug, PartialEq, Eq)]
pub enum QuantError {
    /// No tensor has the name.
    Missing { name: String },
    /// The weight is no matrix of bytes.
    NotPacked { name: String, found: TensorHeader },
    /// The number of weights in a row does not fit in a `usize`.
    WidthOverflow,
    /// The weight has no rows or no columns.
    Empty { name: String },
    /// The group has scales of both formats.
    MixedScales { prefix: String },
    /// A row is no whole number of NVFP4 groups.
    Nvfp4Width { prefix: String },
    /// A row is no whole number of MXFP4 groups.
    Mxfp4Width { prefix: String },
    /// The tensor has another element type or shape than the group asks for.
    Mismatch { name: String, found: TensorHeader, expected: TensorHeader },
    /// The tensor is no single F32 number.
    NotScalar { name: String, found: TensorHeader },
}

/// What a [`QuantError`] says.
pub enum Fault {
    Missing { name: Seq<char> },
    NotPacked { name: Seq<char>, found: Header },
    WidthOverflow,
    Empty { name: Seq<char> },
    MixedScales { prefix: Seq<char> },
    Nvfp4Width { prefix: Seq<char> },
    Mxfp4Width { prefix: Seq<char> },
    Mismatch { name: Seq<char>, found: Header, expected: Header },
    NotScalar { name: Seq<char>, found: Header },
}

impl View for QuantError {
    type V = Fault;

    open spec fn view(&self) -> Fault {
        match *self {
            QuantError::Missing { name } => Fault::Missing { name: name@ },
            QuantError::NotPacked { name, found } => Fault::NotPacked {
                name: name@,
                found: found@,
            },
            QuantError::WidthOverflow => Fault::WidthOverflow,
            QuantError::Empty { name } => Fault::Empty { name: name@ },
            QuantError::MixedScales { prefix } => Fault::MixedScales { prefix: prefix@ },
            QuantError::Nvfp4Width { prefix } => Fault::Nvfp4Width { prefix: prefix@ },
            QuantError::Mxfp4Width { prefix } => Fault::Mxfp4Width { prefix: prefix@ },
            QuantError::Mismatch { name, found, expected } => Fault::Mismatch {
                name: name@,
                found: found@,
                expected: expected@,
            },
            QuantError::NotScalar { name, found } => Fault::NotScalar {
                name: name@,
                found: found@,
            },
        }
    }
}

/// A header as messages show it: the element type, then the shape.
pub open spec fn header_text(header: Header) -> Seq<char> {
    header.dtype.spec_name() + " "@ + shape_text(header.shape)
}

impl Fault {
    /// The message for this fault.
    pub open spec fn text(self) -> Seq<char> {
        match self {
            Fault::Missing { name } => "missing "@ + quoted(name),
            Fault::NotPacked { name, found } => quoted(name)
                + " must be a packed U8/I8 matrix, got "@ + header_text(found),
            Fault::WidthOverflow => "packed expert width overflow"@,
            Fault::Empty { name } => quoted(name) + " must be nonempty"@,
            Fault::MixedScales { prefix } => quoted(prefix)
                + " mixes NVFP4 and MXFP4 scale names"@,
            Fault::Nvfp4Width { prefix } => quoted(prefix)
                + " NVFP4 width must be divisible by 16"@,
            Fault::Mxfp4Width { prefix } => quoted(prefix)
                + " MXFP4 width must be divisible by 32"@,
            Fault::Mismatch { name, found, expected } => quoted(name) + " has "@
                + header_text(found) + ", expected "@ + header_text(expected),
            Fault::NotScalar { name, found } => quoted(name)
                + " must be a scalar F32 tensor, got "@ + header_text(found),
        }
    }
}

/// Appends `header` to `out` as messages show it.
fn push_header(out: &mut String, header: &TensorHeader)
    ensures
        final(out)@ == old(out)@ + header_text(header@),
{
    out.append(header.dtype.name());
    out.append(" ");
    push_shape(out, &header.shape);
    assert(out@ =~= old(out)@ + header_text(header@));
}

impl QuantError {
    /// The message for this error.
    pub fn message(&self) -> (res: String)
        ensures
            res@ == self@.text(),
    {
        let mut out = String::new();
        match self {
            QuantError::Missing { name } => {
                out.append("missing ");
                push_quoted(&mut out, name.as_str());
            },
            QuantError::NotPacked { name, found } => {
                push_quoted(&mut out, name.as_str());
                out.append(" must be a packed U8/I8 matrix, got ");
                push_header(&mut out, found);
            },
            QuantError::WidthOverflow => {
                out.append("packed expert width overflow");
            },
            QuantError::Empty { name } => {
                push_quoted(&mut out, name.as_str());
                out.append(" must be nonempty");
            },
            QuantError::MixedScales { prefix } => {
                push_quoted(&mut out, prefix.as_str());
                out.append(" mixes NVFP4 and MXFP4 scale names");
            },
            QuantError::Nvfp4Width { prefix } => {
                push_quoted(&mut out, prefix.as_str());
                out.append(" NVFP4 width must be divisible by 16");
            },
            QuantError::Mxfp4Width { prefix } => {
                push_quoted(&mut out, prefix.as_str());
                out.append(" MXFP4 width must be divisible by 32");
            },
            QuantError::Mismatch { name, found, expected } => {
                push_quoted(&mut out, name.as_str());
                out.append(" has ");
                push_header(&mut out, found);
                out.append(", expected ");
                push_header(&mut out, expected);
            },
            QuantError::NotScalar { name, found } => {
                push_quoted(&mut out, name.as_str());
                out.append(" must be a scalar F32 tensor, got ");
                push_header(&mut out, found);
            },
        }
        assert(out@ =~= self@.text());
        out
    }
}

/// Law: the view of an error shows its kind and each of its fields.
pub proof fn law_error_views_show_the_fields(error: QuantError)
    ensures
        error matches QuantError::Missing { name } ==> error@ == (Fault::Missing { name: name@ }),
        error matches QuantError::NotPacked { name, found } ==> error@ == (Fault::NotPacked {
            name: name@,
            found: Header { dtype: found.dtype, shape: found.shape@ },
        }),
        error matches QuantError::WidthOverflow ==> error@ == Fault::WidthOverflow,
        error matches QuantError::Empty { name } ==> error@ == (Fault::Empty { name: name@ }),
        error matches QuantError::MixedScales { prefix } ==> error@ == (Fault::MixedScales {
            prefix: prefix@,
        }),
        error matches QuantError::Nvfp4Width { prefix } ==> error@ == (Fault::Nvfp4Width {
            prefix: prefix@,
        }),
        error matches QuantError::Mxfp4Width { prefix } ==> error@ == (Fault::Mxfp4Width {
            prefix: prefix@,
        }),
        error matches QuantError::Mismatch { name, found, expected } ==> error@ == (
        Fault::Mismatch {
            name: name@,
            found: Header { dtype: found.dtype, shape: found.shape@ },
            expected: Header { dtype: expected.dtype, shape: expected.shape@ },
        }),
        error matches QuantError::NotScalar { name, found } ==> error@ == (Fault::NotScalar {
            name: name@,
            found: Header { dtype: found.dtype, shape: found.shape@ },
        }),
{
}

/// Law: every message names the tensor or the group between backquotes, and shows the
/// element types and shapes that it speaks of.
pub proof fn law_messages_say_what_is_wrong(
    name: Seq<char>,
    prefix: Seq<char>,
    found: Header,
    expected: Header,
)
    ensures
        (Fault::Missing { name }).text() == "missing `"@ + name + "`"@,
        (Fault::NotPacked { name, found }).text() == "`"@ + name
            + "` must be a packed U8/I8 matrix, got "@ + found.dtype.spec_name() + " "@
            + shape_text(found.shape),
        Fault::WidthOverflow.text() == "packed expert width overflow"@,
        (Fault::Empty { name }).text() == "`"@ + name + "` must be nonempty"@,
        (Fault::MixedScales { prefix }).text() == "`"@ + prefix
            + "` mixes NVFP4 and MXFP4 scale names"@,
        (Fault::Nvfp4Width { prefix }).text() == "`"@ + prefix
            + "` NVFP4 width must be divisible by 16"@,
        (Fault::Mxfp4Width { prefix }).text() == "`"@ + prefix
            + "` MXFP4 width must be divisible by 32"@,
        (Fault::Mismatch { name, found, expected }).text() == "`"@ + name + "` has "@
            + found.dtype.spec_name() + " "@ + shape_text(found.shape) + ", expected "@
            + expected.dtype.spec_name() + " "@ + shape_text(expected.shape),
        (Fault::NotScalar { name, found }).text() == "`"@ + name
            + "` must be a scalar F32 tensor, got "@ + found.dtype.spec_name() + " "@
            + shape_text(found.shape),
{
    reveal_strlit("`");
    reveal_strlit("missing `");
    reveal_strlit("missing ");
    reveal_strlit("` must be a packed U8/I8 matrix, got ");
    reveal_strlit(" must be a packed U8/I8 matrix, got ");
    reveal_strlit("` must be nonempty");
    reveal_strlit(" must be nonempty");
    reveal_strlit("` mixes NVFP4 and MXFP4 scale names");
    reveal_strlit(" mixes NVFP4 and MXFP4 scale names");
    reveal_strlit("` NVFP4 width must be divisible by 16");
    reveal_strlit(" NVFP4 width must be divisible by 16");
    reveal_strlit("` MXFP4 width must be divisible by 32");
    reveal_strlit(" MXFP4 width must be divisible by 32");
    reveal_strlit("` has ");
    reveal_strlit(" has ");
    reveal_strlit("` must be a scalar F32 tensor, got ");
    reveal_strlit(" must be a scalar F32 tensor, got ");
    assert("missing `"@ =~= "missing "@ + "`"@);
    assert("` must be a packed U8/I8 matrix, got "@ =~= "`"@
        + " must be a packed U8/I8 matrix, got "@);
    assert("` must be nonempty"@ =~= "`"@ + " must be nonempty"@);
    assert("` mixes NVFP4 and MXFP4 scale names"@ =~= "`"@
        + " mixes NVFP4 and MXFP4 scale names"@);
    assert("` NVFP4 width must be divisible by 16"@ =~= "`"@
        + " NVFP4 width must be divisible by 16"@);
    assert("` MXFP4 width must be divisible by 32"@ =~= "`"@
        + " MXFP4 width must be divisible by 32"@);
    assert("` has "@ =~= "`"@ + " has "@);
    assert("` must be a scalar F32 tensor, got "@ =~= "`"@
        + " must be a scalar F32 tensor, got "@);
}

} // verus!
