use vstd::prelude::*;
use crate::conversion::Conversion;
use crate::receiver_type::{CallPrefix, Receiver, ReceiverType, call_prefix, receiver_type_of};
use crate::response_data::{ResponseData, conversion_for};
use crate::result_data::{ResultData, ReturnType, outcome_of};

verus! {

/// A name for what heck's camel-case conversion makes of a method name.
pub uninterp spec fn camel_case_of(s: Seq<char>) -> Seq<char>;

/// Relies on `heck::CamelCase::to_camel_case` for `str`: the result depends on the
/// characters alone.
#[verifier::external_body]
fn to_camel_case(name: &String) -> (r: String)
    ensures
        r@ == camel_case_of(name@),
{
    heck::CamelCase::to_camel_case(name.as_str())
}

/// One parameter of a method: its binding and its type, both as source text.
#[derive(Debug)]
pub struct ParameterData {
    pub pattern: String,
    pub parameter_type: String,
}

impl Clone for ParameterData {
    fn clone(&self) -> (r: Self)
        ensures
            r == *self,
    {
        ParameterData { pattern: self.pattern.clone(), parameter_type: self.parameter_type.clone() }
    }
}

impl ParameterData {
    /// A parameter bound by `pattern` with type `parameter_type`.
    pub fn new(pattern: String, parameter_type: String) -> (r: ParameterData)
        ensures
            r.pattern == pattern,
            r.parameter_type == parameter_type,
    {
        ParameterData { pattern, parameter_type }
    }

    /// The binding through which the parameter's value is reached.
    pub fn binding(&self) -> (r: &String)
        ensures
            r == &self.pattern,
    {
        &self.pattern
    }
}

/// A method as it was declared: what the front end reads from the source.
#[derive(Debug)]
pub struct MethodSignature {
    pub asynchronous: bool,
    pub name: String,
    /// The `self` receiver, if the method has one.
    pub receiver: Option<Receiver>,
    /// The parameters after the receiver, in order.
    pub parameters: Vec<ParameterData>,
    pub output: ReturnType,
}

/// Why a method or an interface cannot be compiled into a router.
#[derive(Debug, Clone, Copy, PartialEq, Eq, Structural)]
pub enum GenerateError {
    /// The interface has no method.
    EmptyInterface,
    /// Two methods give the same request variant name.
    DuplicateMethodName,
    /// A method takes ownership of the service state, which a router cannot offer.
    OwnedReceiver,
}

/// One variant of the request envelope: the method's request name and its parameters as
/// fields (a unit variant when there are none).
#[derive(Debug)]
pub struct EnvelopeVariant {
    pub name: String,
    pub fields: Vec<ParameterData>,
}

/// How the router dispatches one request variant.
#[derive(Debug)]
pub struct RoutingRule {
    /// The request variant this rule matches.
    pub variant: String,
    /// The bindings of the variant's fields, passed on to the method in order.
    pub bindings: Vec<String>,
    /// The method that is called.
    pub method: String,
    /// How the method reaches the state.
    pub prefix: CallPrefix,
    /// The call suspends until the method completes.
    pub awaits: bool,
    /// How the method's outcome becomes the unified reply.
    pub conversion: Conversion,
}

/// The router's convenience operation for one method: it builds the request, dispatches it
/// and reads the method's own outcome back from the reply.
#[derive(Debug)]
pub struct ServiceMethod {
    /// The operation carries the method's name.
    pub name: String,
    /// It takes the method's parameters.
    pub parameters: Vec<ParameterData>,
    /// It returns the method's own outcome.
    pub result: ResultData,
    /// The request variant it builds.
    pub variant: String,
    /// The bindings that fill the variant's fields.
    pub bindings: Vec<String>,
    /// How the reply is read back.
    pub conversion: Conversion,
}

/// A copy of a parameter list.
fn clone_parameters(ps: &Vec<ParameterData>) -> (r: Vec<ParameterData>)
    ensures
        r@ == ps@,
{
    let mut r: Vec<ParameterData> = Vec::new();
    let mut i: usize = 0;
    while i < ps.len()
        invariant
            i <= ps@.len(),
            r@ == ps@.take(i as int),
        decreases ps@.len() - i,
    {
        r.push(ps[i].clone());
        i = i + 1;
        assert(r@ =~= ps@.take(i as int));
    }
    assert(ps@.take(i as int) =~= ps@);
    r
}

/// The bindings of a parameter list, in order.
pub open spec fn bindings_of(ps: Seq<ParameterData>) -> Seq<String> {
    ps.map_values(|p: ParameterData| p.pattern)
}

/// The descriptor of one method of the interface.
#[derive(Debug)]
pub struct MethodData {
    /// The method suspends its caller until it completes.
    pub asynchronous: bool,
    pub name: String,
    /// How the method reaches the shared state.
    pub receiver_type: ReceiverType,
    /// The name of the method's request variant: its name in camel case.
    pub request_name: String,
    /// The parameters after the receiver, in order.
    pub parameters: Vec<ParameterData>,
    /// The method's outcome model.
    pub result: ResultData,
}

impl MethodData {
    /// The descriptor of a declared method; fails for a receiver that takes ownership.
    pub fn new(method: &MethodSignature) -> (r: Result<MethodData, GenerateError>)
        ensures
            match receiver_type_of(method.receiver) {
                None => r == Err::<MethodData, GenerateError>(GenerateError::OwnedReceiver),
                Some(rt) => r is Ok && {
                    let m = r->Ok_0;
                    &&& m.asynchronous == method.asynchronous
                    &&& m.name == method.name
                    &&& m.receiver_type == rt
                    &&& m.request_name@ == camel_case_of(method.name@)
                    &&& m.parameters@ == method.parameters@
                    &&& m.result@ == outcome_of(method.output)
                },
            },
    {
        let receiver_type = match ReceiverType::new(method.receiver) {
            Some(rt) => rt,
            None => return Err(GenerateError::OwnedReceiver),
        };
        let request_name = to_camel_case(&method.name);
        let result = ResultData::new(&method.output);
        Ok(
            MethodData::with_request_name(
                method.asynchronous,
                method.name.clone(),
                receiver_type,
                request_name,
                clone_parameters(&method.parameters),
                result,
            ),
        )
    }

    /// The descriptor of a method whose request variant is named `request_name`.
    pub fn with_request_name(
        asynchronous: bool,
        name: String,
        receiver_type: ReceiverType,
        request_name: String,
        parameters: Vec<ParameterData>,
        result: ResultData,
    ) -> (r: MethodData)
        ensures
            r.asynchronous == asynchronous,
            r.name == name,
            r.receiver_type == receiver_type,
            r.request_name == request_name,
            r.parameters == parameters,
            r.result == result,
    {
        MethodData { asynchronous, name, receiver_type, request_name, parameters, result }
    }

    /// How the method reaches the shared state.
    pub fn receiver_type(&self) -> (r: ReceiverType)
        ensures
            r == self.receiver_type,
    {
        self.receiver_type
    }

    /// The name of the method's request variant.
    pub fn request_name(&self) -> (r: &String)
        ensures
            r == &self.request_name,
    {
        &self.request_name
    }

    /// The method's outcome model.
    pub fn result(&self) -> (r: &ResultData)
        ensures
            r == &self.result,
    {
        &self.result
    }

    /// The method's variant of the request envelope.
    pub fn request_enum_variant(&self) -> (r: EnvelopeVariant)
        ensures
            r.name == self.request_name,
            r.fields@ == self.parameters@,
    {
        EnvelopeVariant {
            name: self.request_name.clone(),
            fields: clone_parameters(&self.parameters),
        }
    }

    /// The bindings of the method's parameters, in order.
    pub fn bindings(&self) -> (r: Vec<String>)
        ensures
            r@ == bindings_of(self.parameters@),
    {
        let mut r: Vec<String> = Vec::new();
        let mut i: usize = 0;
        while i < self.parameters.len()
            invariant
                i <= self.parameters@.len(),
                r@ == bindings_of(self.parameters@).take(i as int),
            decreases self.parameters@.len() - i,
        {
            r.push(self.parameters[i].pattern.clone());
            i = i + 1;
            assert(r@ =~= bindings_of(self.parameters@).take(i as int));
        }
        assert(bindings_of(self.parameters@).take(i as int) =~= bindings_of(self.parameters@));
        r
    }

    /// The rule by which a router whose storage follows `service_receiver_type` dispatches
    /// this method's requests under the contract `response`.
    pub fn request_match_arm(
        &self,
        service_receiver_type: ReceiverType,
        response: &ResponseData,
    ) -> (r: RoutingRule)
        requires
            self.receiver_type.rank() <= service_receiver_type.rank(),
        ensures
            r.variant == self.request_name,
            r.bindings@ == bindings_of(self.parameters@),
            r.method == self.name,
            r.prefix == call_prefix(service_receiver_type, self.receiver_type),
            r.awaits == self.asynchronous,
            r.conversion@ == conversion_for(response@, self.request_name@, self.result@),
    {
        RoutingRule {
            variant: self.request_name.clone(),
            bindings: self.bindings(),
            method: self.name.clone(),
            prefix: service_receiver_type.service_method_call_prefix(self.receiver_type),
            awaits: self.asynchronous,
            conversion: response.conversion_to_response(self),
        }
    }

    /// The router's convenience operation for this method under the contract `response`.
    pub fn service_method(&self, response: &ResponseData) -> (r: ServiceMethod)
        ensures
            r.name == self.name,
            r.parameters@ == self.parameters@,
            r.result == self.result,
            r.variant == self.request_name,
            r.bindings@ == bindings_of(self.parameters@),
            r.conversion@ == conversion_for(response@, self.request_name@, self.result@),
    {
        ServiceMethod {
            name: self.name.clone(),
            parameters: clone_parameters(&self.parameters),
            result: self.result.clone(),
            variant: self.request_name.clone(),
            bindings: self.bindings(),
            conversion: response.conversion_to_response(self),
        }
    }
}

} // verus!
