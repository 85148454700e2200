//! A two-tool calculator service: request schemas, a decoder for untyped
//! argument payloads, checked integer arithmetic and a routing table that
//! dispatches a named invocation to its handler.

mod decimal;

pub use decimal::{decimal_string, digit_char, digits_of, decimal_of};

mod schema;

pub use schema::{
    decode_operands, field_name, fits_i32, operand_entries, operand_value, operands_from,
    operands_of, operand_descriptors, operand_fields, ArgValue, Argument, DecodeError, Field,
    FieldDescriptor, FieldKind, Payload, SubRequest, SumRequest,
};

mod calculator;

pub use calculator::{
    apply, arithmetic_outcome, handler_outcome, info_view, invoke_outcome, outcome_view,
    route_lookup, standard_routes, tool_descriptions, Calculator, Operation, ServiceInfo,
    ToolDescriptor, ToolError, ToolRoute,
};

mod laws;

pub use laws::{
    description_lists_sum_and_sub, invoke_is_deterministic, operand_entries_decode,
    standard_routing, sub_returns_decimal_difference, sum_returns_decimal_sum,
};
