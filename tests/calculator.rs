use calculator::{
    decimal_string, ArgValue, Argument, Calculator, DecodeError, Field, FieldKind, Payload,
    SubRequest, SumRequest, ToolError,
};

fn entry(name: &str, value: ArgValue) -> Argument {
    Argument { name: name.to_string(), value }
}

fn operands(a: i128, b: i128) -> Payload {
    Payload { arguments: vec![entry("a", ArgValue::Integer(a)), entry("b", ArgValue::Integer(b))] }
}

#[test]
fn sum_of_two_numbers() {
    let c = Calculator::new();
    assert_eq!(c.invoke("sum", &operands(2, 3)), Ok("5".to_string()));
    assert_eq!(c.invoke("sum", &operands(-10, 3)), Ok("-7".to_string()));
    assert_eq!(c.invoke("sum", &operands(0, 0)), Ok("0".to_string()));
}

#[test]
fn sum_at_the_edges_of_the_range() {
    let c = Calculator::new();
    assert_eq!(c.invoke("sum", &operands(2147483647, 0)), Ok("2147483647".to_string()));
    assert_eq!(c.invoke("sum", &operands(-2147483647, -1)), Ok("-2147483648".to_string()));
    assert_eq!(c.invoke("sum", &operands(2147483647, -2147483648)), Ok("-1".to_string()));
}

#[test]
fn sub_of_two_numbers() {
    let c = Calculator::new();
    assert_eq!(c.invoke("sub", &operands(10, 3)), Ok("7".to_string()));
    assert_eq!(c.invoke("sub", &operands(3, 10)), Ok("-7".to_string()));
    assert_eq!(c.invoke("sub", &operands(-2147483648, -1)), Ok("-2147483647".to_string()));
}

#[test]
fn sum_overflow_is_an_arithmetic_error() {
    let c = Calculator::new();
    assert_eq!(c.invoke("sum", &operands(2147483647, 1)), Err(ToolError::Arithmetic));
    assert_eq!(c.invoke("sum", &operands(-2147483648, -1)), Err(ToolError::Arithmetic));
    // the service keeps answering after the error
    assert_eq!(c.invoke("sum", &operands(1, 1)), Ok("2".to_string()));
}

#[test]
fn sub_overflow_is_an_arithmetic_error() {
    let c = Calculator::new();
    assert_eq!(c.invoke("sub", &operands(-2147483648, 1)), Err(ToolError::Arithmetic));
    assert_eq!(c.invoke("sub", &operands(0, -2147483648)), Err(ToolError::Arithmetic));
}

#[test]
fn unknown_tool_is_reported() {
    let c = Calculator::new();
    assert_eq!(c.invoke("unknown_tool", &operands(1, 1)), Err(ToolError::UnknownTool));
    assert_eq!(c.invoke("", &operands(1, 1)), Err(ToolError::UnknownTool));
    assert_eq!(c.invoke("Sum", &operands(1, 1)), Err(ToolError::UnknownTool));
}

#[test]
fn text_operand_is_a_decode_error() {
    let c = Calculator::new();
    let p = Payload {
        arguments: vec![entry("a", ArgValue::Text("x".to_string())), entry("b", ArgValue::Integer(1))],
    };
    assert_eq!(c.invoke("sum", &p), Err(ToolError::Decode(DecodeError::InvalidType(Field::A))));
}

#[test]
fn other_value_types_are_decode_errors() {
    let c = Calculator::new();
    for v in [ArgValue::Null, ArgValue::Bool(true), ArgValue::Fractional, ArgValue::Array, ArgValue::Object] {
        let p = Payload { arguments: vec![entry("a", ArgValue::Integer(1)), entry("b", v)] };
        assert_eq!(c.invoke("sub", &p), Err(ToolError::Decode(DecodeError::InvalidType(Field::B))));
    }
}

#[test]
fn missing_fields_are_decode_errors() {
    let c = Calculator::new();
    let empty = Payload { arguments: vec![] };
    assert_eq!(c.invoke("sum", &empty), Err(ToolError::Decode(DecodeError::MissingField(Field::A))));
    let only_a = Payload { arguments: vec![entry("a", ArgValue::Integer(1))] };
    assert_eq!(c.invoke("sum", &only_a), Err(ToolError::Decode(DecodeError::MissingField(Field::B))));
    let only_b = Payload { arguments: vec![entry("b", ArgValue::Integer(1))] };
    assert_eq!(c.invoke("sum", &only_b), Err(ToolError::Decode(DecodeError::MissingField(Field::A))));
}

#[test]
fn out_of_range_operand_is_a_decode_error() {
    let c = Calculator::new();
    assert_eq!(
        c.invoke("sum", &operands(2147483648, 0)),
        Err(ToolError::Decode(DecodeError::OutOfRange(Field::A)))
    );
    assert_eq!(
        c.invoke("sum", &operands(0, -2147483649)),
        Err(ToolError::Decode(DecodeError::OutOfRange(Field::B)))
    );
}

#[test]
fn duplicate_field_is_a_decode_error() {
    let c = Calculator::new();
    let p = Payload {
        arguments: vec![
            entry("a", ArgValue::Integer(1)),
            entry("a", ArgValue::Integer(2)),
            entry("b", ArgValue::Integer(3)),
        ],
    };
    assert_eq!(c.invoke("sum", &p), Err(ToolError::Decode(DecodeError::DuplicateField(Field::A))));
}

#[test]
fn first_fault_in_order_is_reported() {
    let c = Calculator::new();
    let p = Payload {
        arguments: vec![entry("b", ArgValue::Text("y".to_string())), entry("a", ArgValue::Null)],
    };
    assert_eq!(c.invoke("sum", &p), Err(ToolError::Decode(DecodeError::InvalidType(Field::B))));
}

#[test]
fn unknown_entries_are_ignored_and_order_is_free() {
    let c = Calculator::new();
    let p = Payload {
        arguments: vec![
            entry("c", ArgValue::Text("ignored".to_string())),
            entry("b", ArgValue::Integer(4)),
            entry("a", ArgValue::Integer(10)),
        ],
    };
    assert_eq!(c.invoke("sub", &p), Ok("6".to_string()));
}

#[test]
fn describe_lists_both_tools() {
    let info = Calculator::new().describe();
    assert_eq!(info.instructions, "A simple calculator");
    assert!(info.tools_enabled);
    assert_eq!(info.tools.len(), 2);
    assert_eq!(info.tools[0].name, "sum");
    assert_eq!(info.tools[0].description, "Calculate the sum of two numbers");
    assert_eq!(info.tools[1].name, "sub");
    assert_eq!(info.tools[1].description, "Calculate the difference of two numbers");
    for tool in &info.tools {
        assert_eq!(tool.fields.len(), 2);
        assert_eq!(tool.fields[0].name, "a");
        assert_eq!(tool.fields[0].description, "the left hand side number");
        assert_eq!(tool.fields[0].kind, FieldKind::Int32);
        assert_eq!(tool.fields[1].name, "b");
        assert_eq!(tool.fields[1].description, "the right hand side number");
        assert_eq!(tool.fields[1].kind, FieldKind::Int32);
    }
}

#[test]
fn repeated_invocations_agree() {
    let c = Calculator::new();
    let d = Calculator::default();
    let p = operands(21, 21);
    let first = c.invoke("sum", &p);
    assert_eq!(first, Ok("42".to_string()));
    assert_eq!(c.invoke("sum", &p), first);
    assert_eq!(d.invoke("sum", &p), first);
    let bad = operands(2147483647, 1);
    assert_eq!(c.invoke("sum", &bad), c.invoke("sum", &bad));
}

#[test]
fn request_decoding() {
    assert_eq!(SumRequest::decode(&operands(5, -6)), Ok(SumRequest { a: 5, b: -6 }));
    assert_eq!(SubRequest::decode(&operands(-1, 9)), Ok(SubRequest { a: -1, b: 9 }));
    assert_eq!(
        SubRequest::decode(&Payload { arguments: vec![] }),
        Err(DecodeError::MissingField(Field::A))
    );
    assert_eq!(SumRequest::fields().len(), 2);
    assert_eq!(SubRequest::fields()[1].name, "b");
}

#[test]
fn handlers_directly() {
    let c = Calculator::new();
    assert_eq!(c.sum(SumRequest { a: 40, b: 2 }), Ok("42".to_string()));
    assert_eq!(c.sub(SubRequest { a: 40, b: 2 }), Ok("38".to_string()));
    assert_eq!(c.sub(SubRequest { a: 2147483647, b: -1 }), Err(ToolError::Arithmetic));
}

#[test]
fn decimal_rendering() {
    assert_eq!(decimal_string(0), "0");
    assert_eq!(decimal_string(7), "7");
    assert_eq!(decimal_string(10), "10");
    assert_eq!(decimal_string(-305), "-305");
    assert_eq!(decimal_string(2147483647), "2147483647");
    assert_eq!(decimal_string(-2147483648), "-2147483648");
}
