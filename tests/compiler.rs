use ezrpc::conversion::{Conversion, MethodOutcome, Response};
use ezrpc::generator::Generator;
use ezrpc::method_data::{GenerateError, MethodData, MethodSignature, ParameterData};
use ezrpc::receiver_type::{CallPrefix, Receiver, ReceiverType, StateStorage};
use ezrpc::response_data::ResponseData;
use ezrpc::result_data::{
    GenericArgument, PathArguments, PathSegment, ResultData, ReturnType, Type, TypePath,
};

fn segment(ident: &str, arguments: PathArguments) -> PathSegment {
    PathSegment { ident: ident.to_string(), arguments }
}

fn plain_type(name: &str) -> Type {
    Type {
        text: name.to_string(),
        path: Some(TypePath {
            leading_colon: false,
            segments: vec![segment(name, PathArguments::Bare)],
        }),
    }
}

fn result_type(ok: &str, err: &str) -> Type {
    let args = vec![
        GenericArgument::Type(ok.to_string()),
        GenericArgument::Type(err.to_string()),
    ];
    Type {
        text: format!("Result<{}, {}>", ok, err),
        path: Some(TypePath {
            leading_colon: false,
            segments: vec![segment("Result", PathArguments::AngleBracketed(args))],
        }),
    }
}

fn reference() -> Option<Receiver> {
    Some(Receiver { reference: true, mutable: false })
}

fn mutable_reference() -> Option<Receiver> {
    Some(Receiver { reference: true, mutable: true })
}

fn signature(
    name: &str,
    receiver: Option<Receiver>,
    parameters: &[(&str, &str)],
    output: ReturnType,
) -> MethodSignature {
    MethodSignature {
        asynchronous: false,
        name: name.to_string(),
        receiver,
        parameters: parameters
            .iter()
            .map(|(p, t)| ParameterData::new(p.to_string(), t.to_string()))
            .collect(),
        output,
    }
}

fn echo() -> MethodSignature {
    signature("echo", reference(), &[("string", "String")], ReturnType::Type(plain_type("String")))
}

fn reverse() -> MethodSignature {
    let mut s = signature(
        "reverse",
        mutable_reference(),
        &[("string", "String")],
        ReturnType::Type(result_type("String", "EmptyString")),
    );
    s.asynchronous = true;
    s
}

fn name() -> MethodSignature {
    signature("name", None, &[], ReturnType::Type(plain_type("String")))
}

fn compile(signatures: Vec<MethodSignature>) -> Generator {
    Generator::new("Example".to_string(), signatures).expect("interface compiles")
}

fn method(name: &str, result: ResultData) -> MethodData {
    MethodData::with_request_name(
        false,
        name.to_lowercase(),
        ReceiverType::NoReceiver,
        name.to_string(),
        vec![],
        result,
    )
}

fn plain(t: &str) -> ResultData {
    ResultData::NotResult(t.to_string())
}

fn fallible(ok: &str, err: &str) -> ResultData {
    ResultData::Result { ok_type: ok.to_string(), err_type: err.to_string() }
}

#[test]
fn echo_and_reverse_share_one_contract() {
    let g = compile(vec![echo(), reverse()]);
    match g.response() {
        ResponseData::Shared(r) => assert_eq!(*r, fallible("String", "EmptyString")),
        other => panic!("expected a shared contract, got {:?}", other),
    }
    assert_eq!(g.response().ok_type(), "String");
    assert_eq!(g.response().err_type(), "EmptyString");
}

#[test]
fn name_reverse_and_echo_share_one_contract() {
    let g = compile(vec![name(), reverse(), echo()]);
    match g.response() {
        ResponseData::Shared(r) => assert_eq!(*r, fallible("String", "EmptyString")),
        other => panic!("expected a shared contract, got {:?}", other),
    }
    assert_eq!(g.response().ok_type(), "String");
    assert_eq!(g.response().err_type(), "EmptyString");
}

#[test]
fn plain_methods_share_with_unit_failure() {
    let methods = vec![method("A", plain("u32")), method("B", plain("u32")), method("C", plain("u32"))];
    let response = ResponseData::new(&methods);
    match &response {
        ResponseData::Shared(r) => assert_eq!(*r, plain("u32")),
        other => panic!("expected a shared contract, got {:?}", other),
    }
    assert_eq!(response.ok_type(), "u32");
    assert_eq!(response.err_type(), "()");
}

#[test]
fn different_failures_give_fully_disjoint() {
    let methods = vec![method("A", fallible("String", "E1")), method("B", fallible("String", "E2"))];
    let response = ResponseData::new(&methods);
    match &response {
        ResponseData::FullyDisjoint(results) => {
            assert_eq!(results.len(), 2);
            assert_eq!(results[0].0, "A");
            assert_eq!(results[0].1, fallible("String", "E1"));
            assert_eq!(results[1].0, "B");
            assert_eq!(results[1].1, fallible("String", "E2"));
        }
        other => panic!("expected a fully disjoint contract, got {:?}", other),
    }
    assert_eq!(response.ok_type(), "Response");
    assert_eq!(response.err_type(), "()");
}

#[test]
fn different_successes_with_common_failure_are_tagged() {
    let methods = vec![
        method("A", fallible("u32", "E")),
        method("B", plain("String")),
        method("C", fallible("bool", "E")),
    ];
    let response = ResponseData::new(&methods);
    match &response {
        ResponseData::DisjointWithSharedError { outputs, error } => {
            assert_eq!(
                *outputs,
                vec![
                    ("A".to_string(), "u32".to_string()),
                    ("B".to_string(), "String".to_string()),
                    ("C".to_string(), "bool".to_string()),
                ]
            );
            assert_eq!(error, "E");
        }
        other => panic!("expected a shared failure type, got {:?}", other),
    }
    assert_eq!(response.ok_type(), "Response");
    assert_eq!(response.err_type(), "E");
}

#[test]
fn different_successes_without_failures_are_tagged_with_unit() {
    let methods = vec![method("A", plain("u32")), method("B", plain("String"))];
    let response = ResponseData::new(&methods);
    match &response {
        ResponseData::DisjointWithSharedError { error, .. } => assert_eq!(error, "()"),
        other => panic!("expected a shared failure type, got {:?}", other),
    }
}

#[test]
fn round_trip_through_every_shape() {
    let shapes = vec![
        vec![method("A", fallible("String", "E")), method("B", plain("String"))],
        vec![method("A", fallible("u32", "E")), method("B", plain("String"))],
        vec![method("A", fallible("String", "E1")), method("B", fallible("String", "E2")), method("C", plain("u8"))],
    ];
    for methods in shapes {
        let response = ResponseData::new(&methods);
        for m in &methods {
            let c = response.conversion_to_response(m);
            let outcomes = if m.result().err_type().is_some() {
                vec![MethodOutcome::Success("ok".to_string()), MethodOutcome::Failure("err".to_string())]
            } else {
                vec![MethodOutcome::Value("value".to_string())]
            };
            for o in outcomes {
                let expected = match &o {
                    MethodOutcome::Value(v) => MethodOutcome::Value(v.clone()),
                    MethodOutcome::Success(v) => MethodOutcome::Success(v.clone()),
                    MethodOutcome::Failure(v) => MethodOutcome::Failure(v.clone()),
                };
                assert_eq!(c.unwrap(c.apply(o)), Some(expected));
            }
        }
    }
}

#[test]
fn conversions_follow_the_contract() {
    let methods = vec![method("A", fallible("u32", "E")), method("B", plain("String"))];
    let response = ResponseData::new(&methods);
    let c = response.conversion_to_response(&methods[1]);
    assert!(matches!(&c, Conversion::LiftTagged(n) if n == "B"));
    assert_eq!(
        c.apply(MethodOutcome::Value(7)),
        Ok(Response::Tagged("B".to_string(), 7))
    );
    let a = response.conversion_to_response(&methods[0]);
    assert_eq!(a.apply(MethodOutcome::Failure(3)), Err(3));
    assert_eq!(a.unwrap(Ok(Response::Tagged("B".to_string(), 1))), None);
}

#[test]
fn plain_method_never_reads_a_failure() {
    assert_eq!(Conversion::Lift.unwrap::<u8>(Err(1)), None);
    assert_eq!(Conversion::Lift.unwrap::<u8>(Ok(Response::Output(1))), Some(MethodOutcome::Value(1)));
}

#[test]
fn fully_disjoint_wraps_whole_outcome() {
    let c = Conversion::Wrap("Reverse".to_string());
    assert_eq!(
        c.apply::<u8>(MethodOutcome::Failure(9)),
        Ok(Response::Outcome("Reverse".to_string(), MethodOutcome::Failure(9)))
    );
}

#[test]
fn request_names_are_camel_case() {
    let s = signature("reverse_all_words", None, &[], ReturnType::Default);
    let m = MethodData::new(&s).expect("method compiles");
    assert_eq!(m.request_name(), "ReverseAllWords");
    assert_eq!(*m.result(), plain("()"));
    let g = compile(vec![name(), echo(), reverse()]);
    let names: Vec<String> = g.request().into_iter().map(|v| v.name).collect();
    assert_eq!(names, vec!["Name", "Echo", "Reverse"]);
}

#[test]
fn envelope_carries_parameters() {
    let g = compile(vec![name(), echo()]);
    let variants = g.request();
    assert!(variants[0].fields.is_empty());
    assert_eq!(variants[1].fields.len(), 1);
    assert_eq!(variants[1].fields[0].pattern, "string");
    assert_eq!(variants[1].fields[0].parameter_type, "String");
}

#[test]
fn empty_interface_is_refused() {
    assert_eq!(
        Generator::new("Example".to_string(), vec![]).err(),
        Some(GenerateError::EmptyInterface)
    );
}

#[test]
fn duplicate_names_after_normalisation_are_refused() {
    let a = signature("get_name", None, &[], ReturnType::Default);
    let b = signature("getName", None, &[], ReturnType::Default);
    assert_eq!(
        Generator::new("Example".to_string(), vec![a, b]).err(),
        Some(GenerateError::DuplicateMethodName)
    );
}

#[test]
fn owned_receiver_is_refused() {
    let s = signature("consume", Some(Receiver { reference: false, mutable: false }), &[], ReturnType::Default);
    assert_eq!(
        Generator::new("Example".to_string(), vec![name(), s]).err(),
        Some(GenerateError::OwnedReceiver)
    );
}

#[test]
fn exclusive_write_dominates() {
    let g = compile(vec![name(), echo(), reverse()]);
    assert_eq!(g.receiver_type, ReceiverType::MutableReference);
    assert_eq!(g.service_data(), StateStorage::Serialized);
    let g = compile(vec![name(), echo()]);
    assert_eq!(g.receiver_type, ReceiverType::Reference);
    assert_eq!(g.service_data(), StateStorage::Shared);
    let g = compile(vec![name()]);
    assert_eq!(g.service_data(), StateStorage::Stateless);
}

#[test]
fn reading_method_serialises_behind_writer() {
    let g = compile(vec![echo(), reverse()]);
    let service = g.service();
    assert_eq!(service.storage, StateStorage::Serialized);
    let rules = &service.implementation.rules;
    assert_eq!(rules[0].prefix, CallPrefix::Exclusive);
    assert_eq!(rules[1].prefix, CallPrefix::Exclusive);
    assert!(!rules[0].awaits);
    assert!(rules[1].awaits);
    assert_eq!(rules[1].method, "reverse");
    assert_eq!(rules[1].bindings, vec!["string".to_string()]);
    assert_eq!(service.implementation.ok_type, "String");
    assert_eq!(service.implementation.err_type, "EmptyString");
    assert_eq!(service.methods[0].name, "echo");
    assert_eq!(service.methods[0].result, plain("String"));
    assert!(matches!(service.methods[0].conversion, Conversion::Lift));
    assert!(matches!(service.methods[1].conversion, Conversion::Pass));
}

#[test]
fn call_prefixes() {
    let none = ReceiverType::NoReceiver;
    let read = ReceiverType::Reference;
    let write = ReceiverType::MutableReference;
    assert_eq!(write.service_method_call_prefix(none), CallPrefix::Associated);
    assert_eq!(read.service_method_call_prefix(read), CallPrefix::Shared);
    assert_eq!(write.service_method_call_prefix(read), CallPrefix::Exclusive);
    assert_eq!(write.service_method_call_prefix(write), CallPrefix::Exclusive);
    assert_eq!(none.stricter(read), read);
    assert_eq!(write.stricter(read), write);
}

#[test]
fn receiver_classification() {
    assert_eq!(ReceiverType::new(None), Some(ReceiverType::NoReceiver));
    assert_eq!(ReceiverType::new(reference()), Some(ReceiverType::Reference));
    assert_eq!(ReceiverType::new(mutable_reference()), Some(ReceiverType::MutableReference));
    assert_eq!(ReceiverType::new(Some(Receiver { reference: false, mutable: true })), None);
}

#[test]
fn return_types_are_read() {
    assert_eq!(ResultData::new(&ReturnType::Default), plain("()"));
    assert_eq!(
        ResultData::new(&ReturnType::Type(result_type("u8", "Error"))),
        fallible("u8", "Error")
    );
    let std_path = Type {
        text: "std::result::Result<u8, E>".to_string(),
        path: Some(TypePath {
            leading_colon: true,
            segments: vec![
                segment("std", PathArguments::Bare),
                segment("result", PathArguments::Bare),
                segment(
                    "Result",
                    PathArguments::AngleBracketed(vec![
                        GenericArgument::Type("u8".to_string()),
                        GenericArgument::Type("E".to_string()),
                    ]),
                ),
            ],
        }),
    };
    assert_eq!(ResultData::new(&ReturnType::Type(std_path)), fallible("u8", "E"));
    let rooted = Type {
        text: "::Result<u8, E>".to_string(),
        path: Some(TypePath {
            leading_colon: true,
            segments: vec![segment(
                "Result",
                PathArguments::AngleBracketed(vec![
                    GenericArgument::Type("u8".to_string()),
                    GenericArgument::Type("E".to_string()),
                ]),
            )],
        }),
    };
    assert_eq!(ResultData::new(&ReturnType::Type(rooted)), plain("::Result<u8, E>"));
    let one_arg = Type {
        text: "Result<u8>".to_string(),
        path: Some(TypePath {
            leading_colon: false,
            segments: vec![segment(
                "Result",
                PathArguments::AngleBracketed(vec![GenericArgument::Type("u8".to_string())]),
            )],
        }),
    };
    assert_eq!(ResultData::new(&ReturnType::Type(one_arg)), plain("Result<u8>"));
    let not_a_path = Type { text: "&str".to_string(), path: None };
    assert_eq!(ResultData::new(&ReturnType::Type(not_a_path)), plain("&str"));
    assert_eq!(fallible("u8", "E").ok_type(), "u8");
    assert_eq!(fallible("u8", "E").err_type().map(|e| e.as_str()), Some("E"));
    assert_eq!(plain("u8").err_type(), None);
}

#[test]
fn result_conversions() {
    assert_eq!(plain("u8").conversion_to_result(MethodOutcome::Value(4)), Ok(4));
    assert_eq!(fallible("u8", "E").conversion_to_result(MethodOutcome::Failure(2)), Err(2));
    assert_eq!(plain("u8").conversion_from_result(Ok(4)), Some(MethodOutcome::Value(4)));
    assert_eq!(plain("u8").conversion_from_result::<u8>(Err(1)), None);
    assert_eq!(fallible("u8", "E").conversion_from_result::<u8>(Err(1)), Some(MethodOutcome::Failure(1)));
    assert_eq!(fallible("u8", "E").conversion_from_result::<u8>(Ok(3)), Some(MethodOutcome::Success(3)));
}

#[test]
fn failure_type_helpers() {
    let plain_only = vec![method("A", plain("u32")), method("B", plain("String"))];
    assert_eq!(ResponseData::common_shared_error(&plain_only), Some("()".to_string()));
    assert_eq!(ResponseData::common_shared_result(&plain_only), None);
    let common = vec![method("A", fallible("u8", "E")), method("B", plain("u8")), method("C", fallible("u8", "E"))];
    assert_eq!(ResponseData::common_shared_error(&common), Some("E".to_string()));
    assert_eq!(ResponseData::common_shared_result(&common), Some(fallible("u8", "E")));
    let clash = vec![method("A", fallible("u8", "E1")), method("B", fallible("u8", "E2"))];
    assert_eq!(ResponseData::common_shared_error(&clash), None);
    assert_eq!(ResponseData::common_shared_result(&clash), None);
    let same_plain = vec![method("A", plain("u8")), method("B", plain("u8"))];
    assert_eq!(ResponseData::common_shared_result(&same_plain), Some(plain("u8")));
}
