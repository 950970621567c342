use ezrpc::example::{EmptyString, Example, Request, Service};

#[test]
fn example_methods() {
    assert_eq!(Example::name(), "Example");
    assert_eq!(Example.echo("hi".to_string()), "hi");
    let mut e = Example;
    assert_eq!(e.reverse("abc".to_string()), Ok("cba".to_string()));
    assert_eq!(e.reverse("ñé".to_string()), Ok("éñ".to_string()));
    assert_eq!(e.reverse(String::new()), Err(EmptyString));
}

#[test]
fn example_router() {
    let mut s = Service::new(Example);
    assert_eq!(s.call(Request::Name), Ok("Example".to_string()));
    assert_eq!(s.call(Request::Echo { string: "x".to_string() }), Ok("x".to_string()));
    assert_eq!(s.call(Request::Reverse { string: String::new() }), Err(EmptyString));
    assert_eq!(s.name(), "Example");
    assert_eq!(s.echo("ping".to_string()), "ping");
    assert_eq!(s.reverse("ping".to_string()), Ok("gnip".to_string()));
}
