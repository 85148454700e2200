use vstd::prelude::*;
use vstd::string::StringExecFns;

use crate::decimal::{decimal_of, decimal_string};
use crate::schema::{
    decode_operands, fits_i32, operand_descriptors, operand_fields, operands_of, ArgValue,
    DecodeError, FieldDescriptor, FieldKind, Payload, SubRequest, SumRequest,
};

verus! {

/// Why an invocation failed. None of these ends the service.
#[derive(Clone, Copy, Debug, PartialEq, Eq, Structural)]
pub enum ToolError {
    /// The payload does not match the tool's schema.
    Decode(DecodeError),
    /// No tool is registered under the requested name.
    UnknownTool,
    /// The exact result does not fit in a 32-bit signed integer.
    Arithmetic,
}

/// The computation behind a registered tool.
#[derive(Clone, Copy, Debug, PartialEq, Eq, Structural)]
pub enum Operation {
    Sum,
    Sub,
}

/// The exact integer that `op` computes from `a` and `b`.
pub open spec fn apply(op: Operation, a: i32, b: i32) -> int {
    match op {
        Operation::Sum => a + b,
        Operation::Sub => a - b,
    }
}

/// The outcome of an arithmetic handler whose exact result is `v`: its
/// decimal text, or an arithmetic error where `v` leaves the 32-bit range.
pub open spec fn arithmetic_outcome(v: int) -> Result<Seq<char>, ToolError> {
    if fits_i32(v) {
        Ok(decimal_of(v))
    } else {
        Err(ToolError::Arithmetic)
    }
}

/// The view of a handler's result: its text, or the error.
pub open spec fn outcome_view(r: Result<String, ToolError>) -> Result<Seq<char>, ToolError> {
    match r {
        Ok(s) => Ok(s@),
        Err(e) => Err(e),
    }
}

/// One entry of the routing table: a tool's name, its purpose and its operation.
#[derive(Clone, Debug)]
pub struct ToolRoute {
    pub name: String,
    pub description: String,
    pub operation: Operation,
}

impl View for ToolRoute {
    type V = (Seq<char>, Seq<char>, Operation);

    open spec fn view(&self) -> (Seq<char>, Seq<char>, Operation) {
        (self.name@, self.description@, self.operation)
    }
}

/// The routing table that every calculator is built with: `sum`, then `sub`.
pub open spec fn standard_routes() -> Seq<(Seq<char>, Seq<char>, Operation)> {
    seq![
        ("sum"@, "Calculate the sum of two numbers"@, Operation::Sum),
        ("sub"@, "Calculate the difference of two numbers"@, Operation::Sub),
    ]
}

/// The operation of the first route named `name`, if any.
pub open spec fn route_lookup(routes: Seq<(Seq<char>, Seq<char>, Operation)>, name: Seq<char>) -> Option<
    Operation,
>
    decreases routes.len(),
{
    if routes.len() == 0 {
        None
    } else if routes[0].0 == name {
        Some(routes[0].2)
    } else {
        route_lookup(routes.drop_first(), name)
    }
}

/// What running `op` on a payload gives.
pub open spec fn handler_outcome(op: Operation, entries: Seq<(Seq<char>, ArgValue)>) -> Result<
    Seq<char>,
    ToolError,
> {
    match operands_of(entries) {
        Ok((a, b)) => arithmetic_outcome(apply(op, a, b)),
        Err(e) => Err(ToolError::Decode(e)),
    }
}

/// What invoking the tool `name` through `routes` on a payload gives.
pub open spec fn invoke_outcome(
    routes: Seq<(Seq<char>, Seq<char>, Operation)>,
    name: Seq<char>,
    entries: Seq<(Seq<char>, ArgValue)>,
) -> Result<Seq<char>, ToolError> {
    match route_lookup(routes, name) {
        Some(op) => handler_outcome(op, entries),
        None => Err(ToolError::UnknownTool),
    }
}

/// The description of one tool: its name, its purpose and its documented fields.
#[derive(Clone, Debug)]
pub struct ToolDescriptor {
    pub name: String,
    pub description: String,
    pub fields: Vec<FieldDescriptor>,
}

impl View for ToolDescriptor {
    type V = (Seq<char>, Seq<char>, Seq<(Seq<char>, Seq<char>, FieldKind)>);

    open spec fn view(&self) -> (Seq<char>, Seq<char>, Seq<(Seq<char>, Seq<char>, FieldKind)>) {
        (self.name@, self.description@, self.fields@.map_values(|d: FieldDescriptor| d@))
    }
}

/// The static metadata of the service.
#[derive(Clone, Debug)]
pub struct ServiceInfo {
    /// One line telling callers what the service is.
    pub instructions: String,
    /// Whether the service offers tools.
    pub tools_enabled: bool,
    /// The registered tools, in routing order.
    pub tools: Vec<ToolDescriptor>,
}

/// The view of a service description: instructions, the tools flag and the tools.
pub open spec fn info_view(info: ServiceInfo) -> (
    Seq<char>,
    bool,
    Seq<(Seq<char>, Seq<char>, Seq<(Seq<char>, Seq<char>, FieldKind)>)>,
) {
    (info.instructions@, info.tools_enabled, info.tools@.map_values(|t: ToolDescriptor| t@))
}

/// The description of the tools of a routing table: each with the operand fields.
pub open spec fn tool_descriptions(routes: Seq<(Seq<char>, Seq<char>, Operation)>) -> Seq<
    (Seq<char>, Seq<char>, Seq<(Seq<char>, Seq<char>, FieldKind)>),
> {
    routes.map_values(|r: (Seq<char>, Seq<char>, Operation)| (r.0, r.1, operand_fields()))
}

/// A stateless service with two arithmetic tools, `sum` and `sub`.
#[derive(Clone, Debug)]
pub struct Calculator {
    tool_router: Vec<ToolRoute>,
}

impl View for Calculator {
    type V = Seq<(Seq<char>, Seq<char>, Operation)>;

    closed spec fn view(&self) -> Seq<(Seq<char>, Seq<char>, Operation)> {
        self.tool_router@.map_values(|r: ToolRoute| r@)
    }
}

fn route(name: &str, description: &str, operation: Operation) -> (r: ToolRoute)
    ensures
        r@ == (name@, description@, operation),
{
    ToolRoute { name: String::from_str(name), description: String::from_str(description), operation }
}

impl Calculator {
    /// A calculator holds the standard routing table and nothing else.
    pub open spec fn wf(&self) -> bool {
        self@ == standard_routes()
    }

    /// Builds a calculator with its routing table.
    pub fn new() -> (r: Calculator)
        ensures
            r.wf(),
    {
        let mut tool_router: Vec<ToolRoute> = Vec::new();
        tool_router.push(route("sum", "Calculate the sum of two numbers", Operation::Sum));
        tool_router.push(route("sub", "Calculate the difference of two numbers", Operation::Sub));
        let r = Calculator { tool_router };
        assert(r@ =~= standard_routes());
        r
    }

    /// The `sum` tool: `a + b` in decimal, or an arithmetic error on overflow.
    pub fn sum(&self, request: SumRequest) -> (r: Result<String, ToolError>)
        ensures
            outcome_view(r) == arithmetic_outcome(request.a + request.b),
    {
        match request.a.checked_add(request.b) {
            Some(v) => Ok(decimal_string(v)),
            None => Err(ToolError::Arithmetic),
        }
    }

    /// The `sub` tool: `a - b` in decimal, or an arithmetic error on overflow.
    pub fn sub(&self, request: SubRequest) -> (r: Result<String, ToolError>)
        ensures
            outcome_view(r) == arithmetic_outcome(request.a - request.b),
    {
        match request.a.checked_sub(request.b) {
            Some(v) => Ok(decimal_string(v)),
            None => Err(ToolError::Arithmetic),
        }
    }

    fn run(&self, operation: Operation, payload: &Payload) -> (r: Result<String, ToolError>)
        ensures
            outcome_view(r) == handler_outcome(operation, payload@),
    {
        match operation {
            Operation::Sum => match SumRequest::decode(payload) {
                Ok(request) => self.sum(request),
                Err(e) => Err(ToolError::Decode(e)),
            },
            Operation::Sub => match SubRequest::decode(payload) {
                Ok(request) => self.sub(request),
                Err(e) => Err(ToolError::Decode(e)),
            },
        }
    }

    /// Invokes the tool registered under `name` on `payload`.
    pub fn invoke(&self, name: &str, payload: &Payload) -> (r: Result<String, ToolError>)
        ensures
            outcome_view(r) == invoke_outcome(self@, name@, payload@),
    {
        let requested = String::from_str(name);
        let mut i: usize = 0;
        proof {
            assert(self@.skip(0) =~= self@);
        }
        while i < self.tool_router.len()
            invariant
                0 <= i <= self.tool_router.len(),
                route_lookup(self@, name@) == route_lookup(self@.skip(i as int), name@),
                requested@ == name@,
            decreases self.tool_router.len() - i,
        {
            let candidate = &self.tool_router[i];
            proof {
                let rest = self@.skip(i as int);
                assert(rest[0] == candidate@);
                assert(rest.drop_first() =~= self@.skip(i + 1));
            }
            if candidate.name == requested {
                return self.run(candidate.operation, payload);
            }
            i = i + 1;
        }
        Err(ToolError::UnknownTool)
    }

    /// The static metadata of the service: its instructions, the tools flag
    /// and a description of each registered tool.
    pub fn describe(&self) -> (r: ServiceInfo)
        ensures
            info_view(r) == ("A simple calculator"@, true, tool_descriptions(self@)),
    {
        let mut tools: Vec<ToolDescriptor> = Vec::new();
        let mut i: usize = 0;
        while i < self.tool_router.len()
            invariant
                0 <= i <= self.tool_router.len(),
                tools@.map_values(|t: ToolDescriptor| t@) == tool_descriptions(self@.take(i as int)),
            decreases self.tool_router.len() - i,
        {
            let candidate = &self.tool_router[i];
            let descriptor = ToolDescriptor {
                name: candidate.name.clone(),
                description: candidate.description.clone(),
                fields: operand_descriptors(),
            };
            let ghost before = tools@;
            assert(descriptor@ == (candidate@.0, candidate@.1, operand_fields()));
            tools.push(descriptor);
            proof {
                assert(self@.take(i + 1) =~= self@.take(i as int).push(candidate@));
                assert(tools@.map_values(|t: ToolDescriptor| t@) =~= before.map_values(
                    |t: ToolDescriptor| t@,
                ).push(descriptor@));
                assert(tools@.map_values(|t: ToolDescriptor| t@) =~= tool_descriptions(
                    self@.take(i + 1),
                ));
            }
            i = i + 1;
        }
        assert(self@.take(i as int) =~= self@);
        ServiceInfo { instructions: String::from_str("A simple calculator"), tools_enabled: true, tools }
    }
}

impl Default for Calculator {
    fn default() -> (r: Calculator)
        ensures
            r.wf(),
    {
        Calculator::new()
    }
}

} // verus!
