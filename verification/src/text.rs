//! Text of numbers, tensor shapes and dotted tensor names.

use vstd::prelude::*;

verus! {

/// The decimal digit `d`.
pub open spec fn digit(d: int) -> char {
    ('0' as u32 + d) as char
}

/// `n` in decimal, without leading zeros.
pub open spec fn decimal(n: nat) -> Seq<char>
    decreases n,
{
    if n < 10 {
        seq![digit(n as int)]
    } else {
        decimal(n / 10).push(digit((n % 10) as int))
    }
}

/// The numbers of `shape` in decimal, separated by a comma and a blank.
pub open spec fn listed(shape: Seq<usize>) -> Seq<char>
    decreases shape.len(),
{
    if shape.len() == 0 {
        Seq::empty()
    } else if shape.len() == 1 {
        decimal(shape[0] as nat)
    } else {
        listed(shape.drop_last()) + ", "@ + decimal(shape.last() as nat)
    }
}

/// A tensor shape as text: `[]`, `[1]`, `[128, 64]`.
pub open spec fn shape_text(shape: Seq<usize>) -> Seq<char> {
    "["@ + listed(shape) + "]"@
}

/// `name` between backquotes.
pub open spec fn quoted(name: Seq<char>) -> Seq<char> {
    "`"@ + name + "`"@
}

/// The name of the tensor `suffix` of the group `prefix`.
pub open spec fn member_name(prefix: Seq<char>, suffix: Seq<char>) -> Seq<char> {
    prefix + "."@ + suffix
}

/// The decimal digit `d` as text.
fn digit_str(d: usize) -> (res: &'static str)
    requires
        d < 10,
    ensures
        res@ == seq![digit(d as int)],
{
    proof {
        reveal_strlit("0");
        reveal_strlit("1");
        reveal_strlit("2");
        reveal_strlit("3");
        reveal_strlit("4");
        reveal_strlit("5");
        reveal_strlit("6");
        reveal_strlit("7");
        reveal_strlit("8");
        reveal_strlit("9");
    }
    if d == 0 {
        "0"
    } else if d == 1 {
        "1"
    } else if d == 2 {
        "2"
    } else if d == 3 {
        "3"
    } else if d == 4 {
        "4"
    } else if d == 5 {
        "5"
    } else if d == 6 {
        "6"
    } else if d == 7 {
        "7"
    } else if d == 8 {
        "8"
    } else {
        "9"
    }
}

/// Appends `n` in decimal to `out`.
pub(crate) fn push_decimal(out: &mut String, n: usize)
    ensures
        final(out)@ == old(out)@ + decimal(n as nat),
    decreases n,
{
    if n >= 10 {
        push_decimal(out, n / 10);
    }
    out.append(digit_str(n % 10));
    assert(out@ =~= old(out)@ + decimal(n as nat));
}

/// Appends the text of `shape` to `out`.
pub(crate) fn push_shape(out: &mut String, shape: &Vec<usize>)
    ensures
        final(out)@ == old(out)@ + shape_text(shape@),
{
    let ghost start = out@;
    out.append("[");
    let mut i: usize = 0;
    while i < shape.len()
        invariant
            i <= shape.len(),
            out@ == start + "["@ + listed(shape@.take(i as int)),
        decreases shape.len() - i,
    {
        if i > 0 {
            out.append(", ");
        }
        push_decimal(out, shape[i]);
        assert(shape@.take(i + 1).drop_last() =~= shape@.take(i as int));
        assert(out@ =~= start + "["@ + listed(shape@.take(i + 1)));
        i = i + 1;
    }
    assert(shape@.take(i as int) =~= shape@);
    out.append("]");
    assert(out@ =~= start + shape_text(shape@));
}

/// Appends `name` between backquotes to `out`.
pub(crate) fn push_quoted(out: &mut String, name: &str)
    ensures
        final(out)@ == old(out)@ + quoted(name@),
{
    out.append("`");
    out.append(name);
    out.append("`");
    assert(out@ =~= old(out)@ + quoted(name@));
}

/// The name of the tensor `suffix` of the group `prefix`.
pub(crate) fn join_name(prefix: &str, suffix: &str) -> (res: String)
    ensures
        res@ == member_name(prefix@, suffix@),
        res@ == prefix@ + "."@ + suffix@,
{
    let mut name = prefix.to_owned();
    name.append(".");
    name.append(suffix);
    name
}

/// The number that a text of decimal digits stands for.
pub open spec fn number(text: Seq<char>) -> int
    decreases text.len(),
{
    if text.len() == 0 {
        0
    } else {
        10 * number(text.drop_last()) + (text.last() as int - '0' as int)
    }
}

/// Law: the text of a number is made of digits, begins with no needless zero, and reads
/// back as the number.
pub proof fn law_decimal_reads_back(n: nat)
    ensures
        decimal(n).len() > 0,
        forall|i: int| 0 <= i < decimal(n).len() ==> '0' <= #[trigger] decimal(n)[i] <= '9',
        n == 0 ==> decimal(n).len() == 1,
        n > 0 ==> decimal(n)[0] != '0',
        number(decimal(n)) == n,
    decreases n,
{
    reveal_with_fuel(number, 2);
    if n < 10 {
        assert(decimal(n).drop_last() =~= Seq::<char>::empty());
    } else {
        law_decimal_reads_back(n / 10);
        assert(decimal(n).drop_last() =~= decimal(n / 10));
        assert(decimal(n)[0] == decimal(n / 10)[0]);
    }
}

/// Law: the last digit of a number is its remainder by ten, and the digits before it are
/// those of the tenth part.
pub proof fn law_decimal_digits(n: nat)
    ensures
        decimal(n).last() as int == '0' as int + n % 10,
        n < 10 ==> decimal(n).len() == 1,
        n >= 10 ==> decimal(n).drop_last() == decimal(n / 10),
{
    if n >= 10 {
        assert(decimal(n).drop_last() =~= decimal(n / 10));
    }
}

/// Law: a shape without dimensions reads `[]`, one with a single dimension has it between
/// the brackets, and each further dimension follows after a comma and a blank.
pub proof fn law_shape_text_grows(shape: Seq<usize>, size: usize)
    ensures
        shape.len() == 0 ==> shape_text(shape) == "[]"@,
        shape.len() == 0 ==> shape_text(shape.push(size)) == "["@ + decimal(size as nat) + "]"@,
        shape.len() > 0 ==> shape_text(shape.push(size)) == shape_text(shape).drop_last() + ", "@
            + decimal(size as nat) + "]"@,
        shape_text(shape).last() == ']',
{
    reveal_strlit("[]");
    reveal_strlit("[");
    reveal_strlit("]");
    assert(shape.push(size).drop_last() =~= shape);
    if shape.len() == 0 {
        assert(shape_text(shape) =~= "[]"@);
    } else {
        assert(shape_text(shape).drop_last() =~= "["@ + listed(shape));
        assert(shape_text(shape.push(size)) =~= shape_text(shape).drop_last() + ", "@ + decimal(
            size as nat,
        ) + "]"@);
    }
}

} // verus!
