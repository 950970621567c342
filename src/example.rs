use vstd::prelude::*;
use vstd::string::StrSliceExecFns;

verus! {

/// Relies on std's `String::push`: the character is appended at the end.
#[verifier::external_body]
fn push_char(s: &mut String, c: char)
    ensures
        final(s)@ == old(s)@.push(c),
{
    s.push(c)
}

/// A small service: it tells its name, echoes a string and reverses one.
#[derive(Debug, Clone, Copy, PartialEq, Eq, Structural)]
pub struct Example;

/// The failure of reversing an empty string.
#[derive(Debug, Clone, Copy, PartialEq, Eq, Structural)]
pub struct EmptyString;

/// The request envelope of [`Example`]: one variant per method.
#[derive(Debug)]
pub enum Request {
    Name,
    Echo { string: String },
    Reverse { string: String },
}

/// The characters of `s` in reverse order.
pub open spec fn reversed(s: Seq<char>) -> Seq<char> {
    s.reverse()
}

impl Example {
    /// The service's name.
    pub fn name() -> (r: String)
        ensures
            r@ == "Example"@,
    {
        String::from_str("Example")
    }

    /// The string it was given.
    pub fn echo(&self, string: String) -> (r: String)
        ensures
            r == string,
    {
        string
    }

    /// The string reversed; fails on the empty string.
    pub fn reverse(&mut self, string: String) -> (r: Result<String, EmptyString>)
        ensures
            string@.len() == 0 ==> r == Err::<String, EmptyString>(EmptyString),
            string@.len() > 0 ==> r is Ok && r->Ok_0@ == reversed(string@),
    {
        let n = string.as_str().unicode_len();
        if n == 0 {
            return Err(EmptyString);
        }
        let mut out = String::new();
        let mut i: usize = n;
        while i > 0
            invariant
                n == string@.len(),
                i <= n,
                out@.len() == n - i,
                forall|k: int| 0 <= k < n - i ==> out@[k] == string@[n - 1 - k],
            decreases i,
        {
            let c = string.as_str().get_char(i - 1);
            push_char(&mut out, c);
            i = i - 1;
        }
        assert(out@ =~= reversed(string@));
        Ok(out)
    }
}

/// What each request of [`Example`] yields.
pub open spec fn example_reply(request: Request) -> Result<Seq<char>, EmptyString> {
    match request {
        Request::Name => Ok("Example"@),
        Request::Echo { string } => Ok(string@),
        Request::Reverse { string } => if string@.len() == 0 {
            Err(EmptyString)
        } else {
            Ok(reversed(string@))
        },
    }
}

/// The view of a reply of [`Example`]'s router.
pub open spec fn reply_of(r: Result<String, EmptyString>) -> Result<Seq<char>, EmptyString> {
    match r {
        Ok(s) => Ok(s@),
        Err(e) => Err(e),
    }
}

/// The router of [`Example`]: every method shares the reply `Result<String, EmptyString>`,
/// and since `reverse` writes the state, every call that reaches the state is exclusive.
#[derive(Debug)]
pub struct Service(pub Example);

impl Service {
    /// A router over `example`.
    pub fn new(example: Example) -> (r: Service)
        ensures
            r.0 == example,
    {
        Service(example)
    }

    /// Dispatches a request to its method and converts the outcome into the shared reply.
    pub fn call(&mut self, request: Request) -> (r: Result<String, EmptyString>)
        ensures
            reply_of(r) == example_reply(request),
    {
        match request {
            Request::Name => Ok(Example::name()),
            Request::Echo { string } => Ok(self.0.echo(string)),
            Request::Reverse { string } => self.0.reverse(string),
        }
    }

    /// Calls `name` through the router.
    pub fn name(&mut self) -> (r: String)
        ensures
            r@ == "Example"@,
    {
        match self.call(Request::Name) {
            Ok(s) => s,
            // The router never fails this request.
            Err(_) => String::new(),
        }
    }

    /// Calls `echo` through the router.
    pub fn echo(&mut self, string: String) -> (r: String)
        ensures
            r@ == string@,
    {
        match self.call(Request::Echo { string }) {
            Ok(s) => s,
            // The router never fails this request.
            Err(_) => String::new(),
        }
    }

    /// Calls `reverse` through the router.
    pub fn reverse(&mut self, string: String) -> (r: Result<String, EmptyString>)
        ensures
            string@.len() == 0 ==> r == Err::<String, EmptyString>(EmptyString),
            string@.len() > 0 ==> r is Ok && r->Ok_0@ == reversed(string@),
    {
        self.call(Request::Reverse { string })
    }
}

} // verus!
