use vstd::prelude::*;
use crate::method_data::{
    EnvelopeVariant, GenerateError, MethodData, MethodSignature, RoutingRule, ServiceMethod,
    bindings_of, camel_case_of,
};
use crate::receiver_type::{
    ReceiverType, StateStorage, call_prefix, lemma_strictest_is_supremum, receiver_type_of,
    storage_for, strictest,
};
use crate::response_data::{ResponseData, conversion_for, names_of, results_of, unify};
use crate::result_data::outcome_of;

verus! {

/// The dispatch part of the router: its reply types and one rule per method.
#[derive(Debug)]
pub struct ServiceImpl {
    /// The success type of every reply.
    pub ok_type: String,
    /// The failure type of every reply.
    pub err_type: String,
    /// The routing rules, one per method, in declaration order.
    pub rules: Vec<RoutingRule>,
}

/// Everything the router is made of.
#[derive(Debug)]
pub struct ServiceDefinition {
    /// How the router holds the service state.
    pub storage: StateStorage,
    /// The convenience operations, one per method, in declaration order.
    pub methods: Vec<ServiceMethod>,
    /// The dispatch over the request envelope.
    pub implementation: ServiceImpl,
}

/// The receiver types of the methods, in order.
pub open spec fn receivers_of(ms: Seq<MethodData>) -> Seq<ReceiverType> {
    ms.map_values(|m: MethodData| m.receiver_type)
}

/// No two methods share a request variant name.
pub open spec fn names_unique(ms: Seq<MethodData>) -> bool {
    forall|i: int, j: int|
        0 <= i < ms.len() && 0 <= j < ms.len() && i != j ==> (#[trigger] ms[i]).request_name@
            != (#[trigger] ms[j]).request_name@
}

/// The compiler of one interface: its methods and what is derived from all of them.
#[derive(Debug)]
pub struct Generator {
    /// The source text of the service type.
    pub self_type: String,
    /// The methods, in declaration order.
    pub methods: Vec<MethodData>,
    /// The response contract shared by every method.
    pub response: ResponseData,
    /// The strictest receiver type among the methods.
    pub receiver_type: ReceiverType,
}

impl Generator {
    /// The derived parts agree with the methods, which are not empty and have distinct
    /// request names.
    pub open spec fn wf(&self) -> bool {
        &&& self.methods@.len() > 0
        &&& names_unique(self.methods@)
        &&& self.response@ == unify(names_of(self.methods@), results_of(self.methods@))
        &&& self.receiver_type == strictest(receivers_of(self.methods@))
    }

    /// Compiles the interface of `self_type` from its declared methods.
    ///
    /// Fails with `EmptyInterface` when there is no method, with `OwnedReceiver` when a
    /// method takes ownership of the state, and with `DuplicateMethodName` when two method
    /// names give the same request name.
    pub fn new(self_type: String, signatures: Vec<MethodSignature>) -> (r: Result<
        Generator,
        GenerateError,
    >)
        ensures
            signatures@.len() == 0 ==> r == Err::<Generator, GenerateError>(
                GenerateError::EmptyInterface,
            ),
            signatures@.len() > 0 && (exists|i: int|
                0 <= i < signatures@.len() && receiver_type_of((#[trigger] signatures@[i]).receiver)
                    is None) ==> r == Err::<Generator, GenerateError>(GenerateError::OwnedReceiver),
            signatures@.len() > 0 && (forall|i: int|
                0 <= i < signatures@.len() ==> receiver_type_of((#[trigger] signatures@[i]).receiver)
                    is Some) ==> {
                let unique = forall|i: int, j: int|
                    0 <= i < signatures@.len() && 0 <= j < signatures@.len() && i != j
                        ==> camel_case_of((#[trigger] signatures@[i]).name@) != camel_case_of(
                        (#[trigger] signatures@[j]).name@,
                    );
                &&& !unique ==> r == Err::<Generator, GenerateError>(
                    GenerateError::DuplicateMethodName,
                )
                &&& unique ==> r is Ok && {
                    let g = r->Ok_0;
                    &&& g.wf()
                    &&& g.self_type == self_type
                    &&& g.methods@.len() == signatures@.len()
                    &&& forall|i: int|
                        0 <= i < signatures@.len() ==> {
                            let m = #[trigger] g.methods@[i];
                            let s = signatures@[i];
                            &&& m.asynchronous == s.asynchronous
                            &&& m.name == s.name
                            &&& Some(m.receiver_type) == receiver_type_of(s.receiver)
                            &&& m.request_name@ == camel_case_of(s.name@)
                            &&& m.parameters@ == s.parameters@
                            &&& m.result@ == outcome_of(s.output)
                        }
                }
            },
    {
        if signatures.len() == 0 {
            return Err(GenerateError::EmptyInterface);
        }
        let ghost sigs = signatures@;
        let mut methods: Vec<MethodData> = Vec::new();
        let mut i: usize = 0;
        while i < signatures.len()
            invariant
                sigs == signatures@,
                i <= sigs.len(),
                methods@.len() == i,
                forall|k: int| 0 <= k < i ==> receiver_type_of(#[trigger] sigs[k].receiver) is Some,
                forall|k: int|
                    0 <= k < i ==> {
                        let m = #[trigger] methods@[k];
                        let s = sigs[k];
                        &&& m.asynchronous == s.asynchronous
                        &&& m.name == s.name
                        &&& Some(m.receiver_type) == receiver_type_of(s.receiver)
                        &&& m.request_name@ == camel_case_of(s.name@)
                        &&& m.parameters@ == s.parameters@
                        &&& m.result@ == outcome_of(s.output)
                    },
            decreases sigs.len() - i,
        {
            match MethodData::new(&signatures[i]) {
                Ok(m) => methods.push(m),
                Err(e) => {
                    assert(receiver_type_of(sigs[i as int].receiver) is None);
                    return Err(e);
                },
            }
            i = i + 1;
        }
        proof {
            assert forall|a: int, b: int|
                0 <= a < sigs.len() && 0 <= b < sigs.len() && a != b implies (camel_case_of(
                (#[trigger] sigs[a]).name@) != camel_case_of((#[trigger] sigs[b]).name@))
                == (methods@[a].request_name@ != methods@[b].request_name@) by {
            }
        }
        Self::from_methods(self_type, methods)
    }

    /// Compiles the interface of `self_type` from method descriptors.
    ///
    /// Fails with `EmptyInterface` when there is no method and with `DuplicateMethodName`
    /// when two methods share a request name.
    pub fn from_methods(self_type: String, methods: Vec<MethodData>) -> (r: Result<
        Generator,
        GenerateError,
    >)
        ensures
            methods@.len() == 0 ==> r == Err::<Generator, GenerateError>(
                GenerateError::EmptyInterface,
            ),
            methods@.len() > 0 && !names_unique(methods@) ==> r == Err::<Generator, GenerateError>(
                GenerateError::DuplicateMethodName,
            ),
            methods@.len() > 0 && names_unique(methods@) ==> r is Ok && r->Ok_0.wf()
                && r->Ok_0.self_type == self_type && r->Ok_0.methods == methods,
    {
        if methods.len() == 0 {
            return Err(GenerateError::EmptyInterface);
        }
        let mut i: usize = 0;
        while i < methods.len()
            invariant
                i <= methods@.len(),
                forall|a: int, b: int|
                    0 <= a < i && 0 <= b < methods@.len() && a != b ==> (
                    #[trigger] methods@[a]).request_name@ != (#[trigger] methods@[b]).request_name@,
            decreases methods@.len() - i,
        {
            let mut j: usize = 0;
            while j < methods.len()
                invariant
                    i < methods@.len(),
                    j <= methods@.len(),
                    forall|a: int, b: int|
                        0 <= a < i && 0 <= b < methods@.len() && a != b ==> (
                        #[trigger] methods@[a]).request_name@ != (
                        #[trigger] methods@[b]).request_name@,
                    forall|b: int|
                        0 <= b < j && b != i ==> methods@[i as int].request_name@ != (
                        #[trigger] methods@[b]).request_name@,
                decreases methods@.len() - j,
            {
                if i != j && methods[i].request_name == methods[j].request_name {
                    return Err(GenerateError::DuplicateMethodName);
                }
                j = j + 1;
            }
            i = i + 1;
        }
        let response = ResponseData::new(&methods);
        let receiver_type = Self::strictest_receiver_type(&methods);
        Ok(Generator { self_type, methods, response, receiver_type })
    }

    /// The strictest receiver type among the methods.
    fn strictest_receiver_type(methods: &Vec<MethodData>) -> (r: ReceiverType)
        ensures
            r == strictest(receivers_of(methods@)),
    {
        let ghost rs = receivers_of(methods@);
        let mut r = ReceiverType::NoReceiver;
        let mut i: usize = 0;
        while i < methods.len()
            invariant
                i <= methods@.len(),
                rs == receivers_of(methods@),
                r == strictest(rs.take(i as int)),
            decreases methods@.len() - i,
        {
            proof {
                assert(rs.take(i + 1).drop_last() =~= rs.take(i as int));
                assert(rs[i as int] == methods@[i as int].receiver_type);
            }
            r = r.stricter(methods[i].receiver_type);
            i = i + 1;
        }
        assert(rs.take(i as int) =~= rs);
        r
    }

    /// The request envelope: one variant per method, in declaration order.
    pub fn request(&self) -> (r: Vec<EnvelopeVariant>)
        ensures
            r@.len() == self.methods@.len(),
            forall|i: int|
                0 <= i < r@.len() ==> (#[trigger] r@[i]).name == self.methods@[i].request_name
                    && r@[i].fields@ == self.methods@[i].parameters@,
    {
        let mut r: Vec<EnvelopeVariant> = Vec::new();
        let mut i: usize = 0;
        while i < self.methods.len()
            invariant
                i <= self.methods@.len(),
                r@.len() == i,
                forall|k: int|
                    0 <= k < i ==> (#[trigger] r@[k]).name == self.methods@[k].request_name
                        && r@[k].fields@ == self.methods@[k].parameters@,
            decreases self.methods@.len() - i,
        {
            r.push(self.methods[i].request_enum_variant());
            i = i + 1;
        }
        r
    }

    /// The response contract shared by every method.
    pub fn response(&self) -> (r: &ResponseData)
        ensures
            r == &self.response,
    {
        &self.response
    }

    /// How the router holds the service state, as the strictest method requires.
    pub fn service_data(&self) -> (r: StateStorage)
        ensures
            r == storage_for(self.receiver_type),
    {
        self.receiver_type.state_storage()
    }

    /// The dispatch of the router: the reply types and one routing rule per method.
    pub fn service_impl(&self) -> (r: ServiceImpl)
        requires
            self.wf(),
        ensures
            r.ok_type@ == self.response@.ok_type(),
            r.err_type@ == self.response@.err_type(),
            r.rules@.len() == self.methods@.len(),
            forall|i: int|
                0 <= i < r.rules@.len() ==> {
                    let rule = #[trigger] r.rules@[i];
                    let m = self.methods@[i];
                    &&& rule.variant == m.request_name
                    &&& rule.bindings@ == bindings_of(m.parameters@)
                    &&& rule.method == m.name
                    &&& rule.prefix == call_prefix(self.receiver_type, m.receiver_type)
                    &&& rule.awaits == m.asynchronous
                    &&& rule.conversion@ == conversion_for(
                        self.response@,
                        m.request_name@,
                        m.result@,
                    )
                },
    {
        proof {
            lemma_strictest_is_supremum(receivers_of(self.methods@));
        }
        let mut rules: Vec<RoutingRule> = Vec::new();
        let mut i: usize = 0;
        while i < self.methods.len()
            invariant
                self.wf(),
                i <= self.methods@.len(),
                rules@.len() == i,
                forall|k: int|
                    0 <= k < receivers_of(self.methods@).len() ==> (#[trigger] receivers_of(
                        self.methods@,
                    )[k]).rank() <= self.receiver_type.rank(),
                forall|k: int|
                    0 <= k < i ==> {
                        let rule = #[trigger] rules@[k];
                        let m = self.methods@[k];
                        &&& rule.variant == m.request_name
                        &&& rule.bindings@ == bindings_of(m.parameters@)
                        &&& rule.method == m.name
                        &&& rule.prefix == call_prefix(self.receiver_type, m.receiver_type)
                        &&& rule.awaits == m.asynchronous
                        &&& rule.conversion@ == conversion_for(
                            self.response@,
                            m.request_name@,
                            m.result@,
                        )
                    },
            decreases self.methods@.len() - i,
        {
            assert(receivers_of(self.methods@)[i as int] == self.methods@[i as int].receiver_type);
            rules.push(self.methods[i].request_match_arm(self.receiver_type, &self.response));
            i = i + 1;
        }
        ServiceImpl { ok_type: self.response.ok_type(), err_type: self.response.err_type(), rules }
    }

    /// The whole router: its storage, its convenience operations and its dispatch.
    pub fn service(&self) -> (r: ServiceDefinition)
        requires
            self.wf(),
        ensures
            r.storage == storage_for(self.receiver_type),
            r.methods@.len() == self.methods@.len(),
            forall|i: int|
                0 <= i < r.methods@.len() ==> {
                    let sm = #[trigger] r.methods@[i];
                    let m = self.methods@[i];
                    &&& sm.name == m.name
                    &&& sm.parameters@ == m.parameters@
                    &&& sm.result == m.result
                    &&& sm.variant == m.request_name
                    &&& sm.bindings@ == bindings_of(m.parameters@)
                    &&& sm.conversion@ == conversion_for(self.response@, m.request_name@, m.result@)
                },
            r.implementation.ok_type@ == self.response@.ok_type(),
            r.implementation.err_type@ == self.response@.err_type(),
            r.implementation.rules@.len() == self.methods@.len(),
            forall|i: int|
                0 <= i < r.implementation.rules@.len() ==> {
                    let rule = #[trigger] r.implementation.rules@[i];
                    let m = self.methods@[i];
                    &&& rule.variant == m.request_name
                    &&& rule.bindings@ == bindings_of(m.parameters@)
                    &&& rule.method == m.name
                    &&& rule.prefix == call_prefix(self.receiver_type, m.receiver_type)
                    &&& rule.awaits == m.asynchronous
                    &&& rule.conversion@ == conversion_for(
                        self.response@,
                        m.request_name@,
                        m.result@,
                    )
                },
    {
        let storage = self.service_data();
        let implementation = self.service_impl();
        let mut methods: Vec<ServiceMethod> = Vec::new();
        let mut i: usize = 0;
        while i < self.methods.len()
            invariant
                i <= self.methods@.len(),
                methods@.len() == i,
                forall|k: int|
                    0 <= k < i ==> {
                        let sm = #[trigger] methods@[k];
                        let m = self.methods@[k];
                        &&& sm.name == m.name
                        &&& sm.parameters@ == m.parameters@
                        &&& sm.result == m.result
                        &&& sm.variant == m.request_name
                        &&& sm.bindings@ == bindings_of(m.parameters@)
                        &&& sm.conversion@ == conversion_for(
                            self.response@,
                            m.request_name@,
                            m.result@,
                        )
                    },
            decreases self.methods@.len() - i,
        {
            methods.push(self.methods[i].service_method(&self.response));
            i = i + 1;
        }
        ServiceDefinition { storage, methods, implementation }
    }
}

} // verus!
