use vstd::prelude::*;

use crate::calculator::{
    invoke_outcome, route_lookup, standard_routes, tool_descriptions, Calculator, Operation, ToolError,
};
use crate::decimal::decimal_of;
use crate::schema::{
    field_name, fits_i32, operand_entries, operand_fields, operands_from, operands_of, ArgValue,
    DecodeError, Field, FieldKind,
};

verus! {

/// The payload that holds exactly `a` and `b` decodes to `(a, b)`.
pub proof fn operand_entries_decode(a: i32, b: i32)
    ensures
        operands_of(operand_entries(a, b)) == Ok::<(i32, i32), DecodeError>((a, b)),
{
    let entries = operand_entries(a, b);
    assert(field_name(Field::B)[0] != field_name(Field::A)[0]);
    assert(entries.drop_first() =~= seq![entries[1]]);
    assert(entries.drop_first().drop_first() =~= Seq::empty());
    assert(operands_from(entries.drop_first().drop_first(), Some(a), Some(b)) == Ok::<
        (i32, i32),
        DecodeError,
    >((a, b)));
    assert(operands_from(entries.drop_first(), Some(a), None) == Ok::<(i32, i32), DecodeError>((a, b)));
}

/// A well-formed calculator routes `sum` to addition and `sub` to subtraction.
pub proof fn standard_routing(c: Calculator)
    requires
        c.wf(),
    ensures
        route_lookup(c@, "sum"@) == Some(Operation::Sum),
        route_lookup(c@, "sub"@) == Some(Operation::Sub),
{
    reveal_strlit("sum");
    reveal_strlit("sub");
    let routes = standard_routes();
    assert(routes[0].0[2] != "sub"@[2]);
    assert(routes.drop_first()[0].0 == "sub"@);
    assert(route_lookup(routes.drop_first(), "sub"@) == Some(Operation::Sub));
    assert(route_lookup(routes, "sub"@) == Some(Operation::Sub));
}

/// Invoking `sum` on the payload `{a, b}` gives the decimal text of `a + b`
/// whenever the sum fits in 32 bits.
pub proof fn sum_returns_decimal_sum(c: Calculator, a: i32, b: i32)
    requires
        c.wf(),
        fits_i32(a + b),
    ensures
        invoke_outcome(c@, "sum"@, operand_entries(a, b)) == Ok::<Seq<char>, ToolError>(
            decimal_of(a + b),
        ),
{
    operand_entries_decode(a, b);
    standard_routing(c);
}

/// Invoking `sub` on the payload `{a, b}` gives the decimal text of `a - b`
/// whenever the difference fits in 32 bits.
pub proof fn sub_returns_decimal_difference(c: Calculator, a: i32, b: i32)
    requires
        c.wf(),
        fits_i32(a - b),
    ensures
        invoke_outcome(c@, "sub"@, operand_entries(a, b)) == Ok::<Seq<char>, ToolError>(
            decimal_of(a - b),
        ),
{
    operand_entries_decode(a, b);
    standard_routing(c);
}

/// A well-formed calculator describes exactly two tools, `sum` then `sub`,
/// each with the two documented 32-bit integer fields `a` and `b`.
pub proof fn description_lists_sum_and_sub(c: Calculator)
    requires
        c.wf(),
    ensures
        tool_descriptions(c@).len() == 2,
        tool_descriptions(c@)[0].0 == "sum"@,
        tool_descriptions(c@)[1].0 == "sub"@,
        forall|i: int|
            0 <= i < 2 ==> #[trigger] tool_descriptions(c@)[i].2 == operand_fields(),
        operand_fields().len() == 2,
        operand_fields()[0].0 == field_name(Field::A),
        operand_fields()[1].0 == field_name(Field::B),
        operand_fields()[0].2 == FieldKind::Int32,
        operand_fields()[1].2 == FieldKind::Int32,
{
}

/// Invocation has no hidden state: any two well-formed calculators, and so
/// any two calls on one of them, give the same outcome for the same name and
/// payload.
pub proof fn invoke_is_deterministic(
    c1: Calculator,
    c2: Calculator,
    name: Seq<char>,
    entries: Seq<(Seq<char>, ArgValue)>,
)
    requires
        c1.wf(),
        c2.wf(),
    ensures
        invoke_outcome(c1@, name, entries) == invoke_outcome(c2@, name, entries),
{
}

} // verus!
