use vstd::prelude::*;
use vstd::string::StringExecFns;

verus! {

/// One of the two operand fields of a request, `a` or `b`.
#[derive(Clone, Copy, Debug, PartialEq, Eq, Structural)]
pub enum Field {
    A,
    B,
}

/// The field name under which an operand travels in a payload.
pub open spec fn field_name(f: Field) -> Seq<char> {
    match f {
        Field::A => seq!['a'],
        Field::B => seq!['b'],
    }
}

/// An untyped argument value, as much of it as decoding reads.
#[derive(Clone, Debug)]
pub enum ArgValue {
    Null,
    Bool(bool),
    /// A number without fraction or exponent.
    Integer(i128),
    /// A number with a fraction or an exponent.
    Fractional,
    Text(String),
    Array,
    Object,
}

/// One named entry of a payload.
#[derive(Clone, Debug)]
pub struct Argument {
    pub name: String,
    pub value: ArgValue,
}

/// The untyped arguments of an invocation: named entries in the order given.
#[derive(Clone, Debug)]
pub struct Payload {
    pub arguments: Vec<Argument>,
}

impl View for Payload {
    type V = Seq<(Seq<char>, ArgValue)>;

    open spec fn view(&self) -> Seq<(Seq<char>, ArgValue)> {
        self.arguments@.map_values(|e: Argument| (e.name@, e.value))
    }
}

/// Why a payload does not match the two-operand schema.
#[derive(Clone, Copy, Debug, PartialEq, Eq, Structural)]
pub enum DecodeError {
    /// The field never occurs.
    MissingField(Field),
    /// The field occurs twice.
    DuplicateField(Field),
    /// The field holds something other than an integer.
    InvalidType(Field),
    /// The field holds an integer outside the 32-bit signed range.
    OutOfRange(Field),
}

/// Whether `v` is a 32-bit signed integer.
pub open spec fn fits_i32(v: int) -> bool {
    i32::MIN <= v <= i32::MAX
}

/// What decoding the value of field `f` gives.
pub open spec fn operand_value(f: Field, v: ArgValue) -> Result<i32, DecodeError> {
    match v {
        ArgValue::Integer(n) => if fits_i32(n as int) {
            Ok(n as i32)
        } else {
            Err(DecodeError::OutOfRange(f))
        },
        _ => Err(DecodeError::InvalidType(f)),
    }
}

/// Decoding the entries left to right, with `a` and `b` holding what the
/// entries before them gave. Entries under other names are ignored; the first
/// fault met ends decoding; a field never met is reported after the last
/// entry, `a` before `b`.
pub open spec fn operands_from(
    entries: Seq<(Seq<char>, ArgValue)>,
    a: Option<i32>,
    b: Option<i32>,
) -> Result<(i32, i32), DecodeError>
    decreases entries.len(),
{
    if entries.len() == 0 {
        match (a, b) {
            (Some(x), Some(y)) => Ok((x, y)),
            (None, _) => Err(DecodeError::MissingField(Field::A)),
            (_, None) => Err(DecodeError::MissingField(Field::B)),
        }
    } else {
        let (name, value) = entries[0];
        let rest = entries.drop_first();
        if name == field_name(Field::A) {
            if a is Some {
                Err(DecodeError::DuplicateField(Field::A))
            } else {
                match operand_value(Field::A, value) {
                    Ok(x) => operands_from(rest, Some(x), b),
                    Err(e) => Err(e),
                }
            }
        } else if name == field_name(Field::B) {
            if b is Some {
                Err(DecodeError::DuplicateField(Field::B))
            } else {
                match operand_value(Field::B, value) {
                    Ok(y) => operands_from(rest, a, Some(y)),
                    Err(e) => Err(e),
                }
            }
        } else {
            operands_from(rest, a, b)
        }
    }
}

/// The operands `(a, b)` that a payload decodes to, or why it does not.
pub open spec fn operands_of(entries: Seq<(Seq<char>, ArgValue)>) -> Result<(i32, i32), DecodeError> {
    operands_from(entries, None, None)
}

/// The payload that holds exactly `a` and `b`, in that order.
pub open spec fn operand_entries(a: i32, b: i32) -> Seq<(Seq<char>, ArgValue)> {
    seq![(field_name(Field::A), ArgValue::Integer(a as i128)), (field_name(Field::B), ArgValue::Integer(b as i128))]
}

fn decode_value(f: Field, v: &ArgValue) -> (r: Result<i32, DecodeError>)
    ensures
        r == operand_value(f, *v),
{
    match v {
        ArgValue::Integer(n) => {
            if i32::MIN as i128 <= *n && *n <= i32::MAX as i128 {
                Ok(*n as i32)
            } else {
                Err(DecodeError::OutOfRange(f))
            }
        },
        _ => Err(DecodeError::InvalidType(f)),
    }
}

/// Decodes the two operands of a payload.
pub fn decode_operands(payload: &Payload) -> (r: Result<(i32, i32), DecodeError>)
    ensures
        r == operands_of(payload@),
{
    let mut a: Option<i32> = None;
    let mut b: Option<i32> = None;
    let mut i: usize = 0;
    let name_a = String::from_str("a");
    let name_b = String::from_str("b");
    proof {
        reveal_strlit("a");
        reveal_strlit("b");
        assert(name_a@ =~= field_name(Field::A));
        assert(name_b@ =~= field_name(Field::B));
        assert(payload@.skip(0) =~= payload@);
    }
    while i < payload.arguments.len()
        invariant
            0 <= i <= payload.arguments.len(),
            operands_of(payload@) == operands_from(payload@.skip(i as int), a, b),
            name_a@ == field_name(Field::A),
            name_b@ == field_name(Field::B),
        decreases payload.arguments.len() - i,
    {
        let entry = &payload.arguments[i];
        proof {
            let rest = payload@.skip(i as int);
            assert(rest[0] == (entry.name@, entry.value));
            assert(rest.drop_first() =~= payload@.skip(i + 1));
        }
        if entry.name == name_a {
            assert(entry.name@ == field_name(Field::A));
            if a.is_some() {
                return Err(DecodeError::DuplicateField(Field::A));
            }
            match decode_value(Field::A, &entry.value) {
                Ok(x) => a = Some(x),
                Err(e) => return Err(e),
            }
        } else if entry.name == name_b {
            assert(entry.name@ != field_name(Field::A));
            assert(entry.name@ == field_name(Field::B));
            if b.is_some() {
                return Err(DecodeError::DuplicateField(Field::B));
            }
            match decode_value(Field::B, &entry.value) {
                Ok(y) => b = Some(y),
                Err(e) => return Err(e),
            }
        } else {
            assert(entry.name@ != field_name(Field::A));
            assert(entry.name@ != field_name(Field::B));
        }
        i = i + 1;
    }
    assert(payload@.skip(i as int).len() == 0);
    match (a, b) {
        (Some(x), Some(y)) => Ok((x, y)),
        (None, _) => Err(DecodeError::MissingField(Field::A)),
        (_, None) => Err(DecodeError::MissingField(Field::B)),
    }
}

/// The value type of a schema field.
#[derive(Clone, Copy, Debug, PartialEq, Eq, Structural)]
pub enum FieldKind {
    /// A 32-bit signed integer.
    Int32,
}

/// The documentation of one schema field: its name, what it means, its type.
#[derive(Clone, Debug)]
pub struct FieldDescriptor {
    pub name: String,
    pub description: String,
    pub kind: FieldKind,
}

impl View for FieldDescriptor {
    type V = (Seq<char>, Seq<char>, FieldKind);

    open spec fn view(&self) -> (Seq<char>, Seq<char>, FieldKind) {
        (self.name@, self.description@, self.kind)
    }
}

/// The documented fields of the two-operand schema, `a` then `b`.
pub open spec fn operand_fields() -> Seq<(Seq<char>, Seq<char>, FieldKind)> {
    seq![
        (field_name(Field::A), "the left hand side number"@, FieldKind::Int32),
        (field_name(Field::B), "the right hand side number"@, FieldKind::Int32),
    ]
}

/// Builds the field descriptors of the two-operand schema.
pub fn operand_descriptors() -> (r: Vec<FieldDescriptor>)
    ensures
        r@.map_values(|d: FieldDescriptor| d@) == operand_fields(),
{
    proof {
        reveal_strlit("a");
        reveal_strlit("b");
    }
    let left = FieldDescriptor {
        name: String::from_str("a"),
        description: String::from_str("the left hand side number"),
        kind: FieldKind::Int32,
    };
    let right = FieldDescriptor {
        name: String::from_str("b"),
        description: String::from_str("the right hand side number"),
        kind: FieldKind::Int32,
    };
    assert(left.name@ =~= field_name(Field::A));
    assert(right.name@ =~= field_name(Field::B));
    let mut r: Vec<FieldDescriptor> = Vec::new();
    r.push(left);
    r.push(right);
    assert(r@.map_values(|d: FieldDescriptor| d@) =~= operand_fields());
    r
}

/// The arguments of the `sum` tool.
#[derive(Clone, Copy, Debug, PartialEq, Eq, Structural)]
pub struct SumRequest {
    /// The left hand side number.
    pub a: i32,
    /// The right hand side number.
    pub b: i32,
}

/// The arguments of the `sub` tool.
#[derive(Clone, Copy, Debug, PartialEq, Eq, Structural)]
pub struct SubRequest {
    /// The left hand side number.
    pub a: i32,
    /// The right hand side number.
    pub b: i32,
}

impl SumRequest {
    /// Decodes a payload into a request; unknown entries are ignored.
    pub fn decode(payload: &Payload) -> (r: Result<SumRequest, DecodeError>)
        ensures
            match operands_of(payload@) {
                Ok((a, b)) => r == Ok::<SumRequest, DecodeError>(SumRequest { a, b }),
                Err(e) => r == Err::<SumRequest, DecodeError>(e),
            },
    {
        match decode_operands(payload) {
            Ok((a, b)) => Ok(SumRequest { a, b }),
            Err(e) => Err(e),
        }
    }

    /// The documented fields of this schema.
    pub fn fields() -> (r: Vec<FieldDescriptor>)
        ensures
            r@.map_values(|d: FieldDescriptor| d@) == operand_fields(),
    {
        operand_descriptors()
    }
}

impl SubRequest {
    /// Decodes a payload into a request; unknown entries are ignored.
    pub fn decode(payload: &Payload) -> (r: Result<SubRequest, DecodeError>)
        ensures
            match operands_of(payload@) {
                Ok((a, b)) => r == Ok::<SubRequest, DecodeError>(SubRequest { a, b }),
                Err(e) => r == Err::<SubRequest, DecodeError>(e),
            },
    {
        match decode_operands(payload) {
            Ok((a, b)) => Ok(SubRequest { a, b }),
            Err(e) => Err(e),
        }
    }

    /// The documented fields of this schema.
    pub fn fields() -> (r: Vec<FieldDescriptor>)
        ensures
            r@.map_values(|d: FieldDescriptor| d@) == operand_fields(),
    {
        operand_descriptors()
    }
}

} // verus!
