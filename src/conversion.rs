use vstd::prelude::*;
use crate::result_data::ResultView;

verus! {

/// What one call of a method produced, before the router converts it.
#[derive(Debug, PartialEq, Eq)]
pub enum MethodOutcome<V> {
    /// The value returned by a method that cannot fail.
    Value(V),
    /// The success value of a method that can fail.
    Success(V),
    /// The failure value of a method that can fail.
    Failure(V),
}

/// The success side of the service's unified reply.
#[derive(Debug, PartialEq, Eq)]
pub enum Response<V> {
    /// Every method shares one success type: the value itself.
    Output(V),
    /// Success types differ and the failure type is shared: the success value under the
    /// method's variant.
    Tagged(String, V),
    /// No failure type is shared: the method's whole outcome under its variant.
    Outcome(String, MethodOutcome<V>),
}

/// The mathematical value of a [`Response`]: variant names as character sequences.
pub enum ResponseValue<V> {
    Output(V),
    Tagged(Seq<char>, V),
    Outcome(Seq<char>, MethodOutcome<V>),
}

impl<V> View for Response<V> {
    type V = ResponseValue<V>;

    open spec fn view(&self) -> ResponseValue<V> {
        match self {
            Response::Output(v) => ResponseValue::Output(*v),
            Response::Tagged(n, v) => ResponseValue::Tagged(n@, *v),
            Response::Outcome(n, o) => ResponseValue::Outcome(n@, *o),
        }
    }
}

/// The mathematical value of a unified reply.
pub open spec fn reply_view<V>(r: Result<Response<V>, V>) -> Result<ResponseValue<V>, V> {
    match r {
        Ok(resp) => Ok(resp@),
        Err(e) => Err(e),
    }
}

/// How the router turns one method's outcome into the unified reply and back.
#[derive(Debug)]
pub enum Conversion {
    /// Shared contract, method that cannot fail: its value becomes the success.
    Lift,
    /// Shared contract, method that can fail: its outcome passes as it is.
    Pass,
    /// Shared failure type, method that cannot fail: its value becomes the success, under
    /// the variant.
    LiftTagged(String),
    /// Shared failure type, method that can fail: its success goes under the variant, its
    /// failure passes as it is.
    MapTagged(String),
    /// Nothing shared: the whole outcome goes under the variant and the reply never fails.
    Wrap(String),
}

/// The mathematical value of a [`Conversion`].
pub enum ConversionView {
    Lift,
    Pass,
    LiftTagged(Seq<char>),
    MapTagged(Seq<char>),
    Wrap(Seq<char>),
}

impl View for Conversion {
    type V = ConversionView;

    open spec fn view(&self) -> ConversionView {
        match self {
            Conversion::Lift => ConversionView::Lift,
            Conversion::Pass => ConversionView::Pass,
            Conversion::LiftTagged(n) => ConversionView::LiftTagged(n@),
            Conversion::MapTagged(n) => ConversionView::MapTagged(n@),
            Conversion::Wrap(n) => ConversionView::Wrap(n@),
        }
    }
}

/// The outcome has the shape that the outcome model allows: a plain value for a method
/// that cannot fail, a success or a failure for one that can.
pub open spec fn outcome_fits<V>(result: ResultView, o: MethodOutcome<V>) -> bool {
    match result {
        ResultView::NotResult(_) => o is Value,
        ResultView::Result(_, _) => !(o is Value),
    }
}

impl ConversionView {
    /// The conversion was made for a method that can fail.
    pub open spec fn for_fallible(self) -> bool {
        self is Pass || self is MapTagged
    }

    /// The conversion takes this outcome.
    pub open spec fn accepts<V>(self, o: MethodOutcome<V>) -> bool {
        match self {
            ConversionView::Lift | ConversionView::LiftTagged(_) => o is Value,
            ConversionView::Pass | ConversionView::MapTagged(_) => !(o is Value),
            ConversionView::Wrap(_) => true,
        }
    }

    /// The unified reply for an outcome.
    pub open spec fn apply<V>(self, o: MethodOutcome<V>) -> Result<ResponseValue<V>, V>
        recommends
            self.accepts(o),
    {
        match self {
            ConversionView::Lift => Ok(ResponseValue::Output(o->Value_0)),
            ConversionView::Pass => match o {
                MethodOutcome::Failure(e) => Err(e),
                MethodOutcome::Success(v) => Ok(ResponseValue::Output(v)),
                MethodOutcome::Value(v) => Ok(ResponseValue::Output(v)),
            },
            ConversionView::LiftTagged(n) => Ok(ResponseValue::Tagged(n, o->Value_0)),
            ConversionView::MapTagged(n) => match o {
                MethodOutcome::Failure(e) => Err(e),
                MethodOutcome::Success(v) => Ok(ResponseValue::Tagged(n, v)),
                MethodOutcome::Value(v) => Ok(ResponseValue::Tagged(n, v)),
            },
            ConversionView::Wrap(n) => Ok(ResponseValue::Outcome(n, o)),
        }
    }

    /// The method's own outcome read back from a unified reply; `None` when the reply cannot
    /// come from this method.
    pub open spec fn unwrap<V>(self, reply: Result<ResponseValue<V>, V>) -> Option<
        MethodOutcome<V>,
    > {
        match self {
            ConversionView::Lift => match reply {
                Ok(ResponseValue::Output(v)) => Some(MethodOutcome::Value(v)),
                _ => None,
            },
            ConversionView::Pass => match reply {
                Ok(ResponseValue::Output(v)) => Some(MethodOutcome::Success(v)),
                Err(e) => Some(MethodOutcome::Failure(e)),
                _ => None,
            },
            ConversionView::LiftTagged(n) => match reply {
                Ok(ResponseValue::Tagged(m, v)) => if m == n {
                    Some(MethodOutcome::Value(v))
                } else {
                    None
                },
                _ => None,
            },
            ConversionView::MapTagged(n) => match reply {
                Ok(ResponseValue::Tagged(m, v)) => if m == n {
                    Some(MethodOutcome::Success(v))
                } else {
                    None
                },
                Err(e) => Some(MethodOutcome::Failure(e)),
                _ => None,
            },
            ConversionView::Wrap(n) => match reply {
                Ok(ResponseValue::Outcome(m, o)) => if m == n {
                    Some(o)
                } else {
                    None
                },
                _ => None,
            },
        }
    }
}

/// Reading back the reply that an outcome was converted into gives the outcome again, for
/// a success, a failure and a plain value alike.
pub proof fn lemma_round_trip<V>(c: ConversionView, o: MethodOutcome<V>)
    requires
        c.accepts(o),
    ensures
        c.unwrap(c.apply(o)) == Some(o),
{
}

impl Conversion {
    /// Converts an outcome of the method into the unified reply.
    pub fn apply<V>(&self, outcome: MethodOutcome<V>) -> (r: Result<Response<V>, V>)
        requires
            self@.accepts(outcome),
        ensures
            reply_view(r) == self@.apply(outcome),
    {
        match self {
            Conversion::Lift => match outcome {
                MethodOutcome::Value(v) => Ok(Response::Output(v)),
                MethodOutcome::Success(v) => Ok(Response::Output(v)),
                MethodOutcome::Failure(v) => Ok(Response::Output(v)),
            },
            Conversion::Pass => match outcome {
                MethodOutcome::Failure(e) => Err(e),
                MethodOutcome::Success(v) => Ok(Response::Output(v)),
                MethodOutcome::Value(v) => Ok(Response::Output(v)),
            },
            Conversion::LiftTagged(n) => match outcome {
                MethodOutcome::Value(v) => Ok(Response::Tagged(n.clone(), v)),
                MethodOutcome::Success(v) => Ok(Response::Tagged(n.clone(), v)),
                MethodOutcome::Failure(v) => Ok(Response::Tagged(n.clone(), v)),
            },
            Conversion::MapTagged(n) => match outcome {
                MethodOutcome::Failure(e) => Err(e),
                MethodOutcome::Success(v) => Ok(Response::Tagged(n.clone(), v)),
                MethodOutcome::Value(v) => Ok(Response::Tagged(n.clone(), v)),
            },
            Conversion::Wrap(n) => Ok(Response::Outcome(n.clone(), outcome)),
        }
    }

    /// Reads the method's own outcome back from a unified reply; `None` when the reply
    /// cannot come from this method, a breach of the router's contract.
    pub fn unwrap<V>(&self, reply: Result<Response<V>, V>) -> (r: Option<MethodOutcome<V>>)
        ensures
            r == self@.unwrap(reply_view(reply)),
    {
        match self {
            Conversion::Lift => match reply {
                Ok(Response::Output(v)) => Some(MethodOutcome::Value(v)),
                _ => None,
            },
            Conversion::Pass => match reply {
                Ok(Response::Output(v)) => Some(MethodOutcome::Success(v)),
                Err(e) => Some(MethodOutcome::Failure(e)),
                _ => None,
            },
            Conversion::LiftTagged(n) => match reply {
                Ok(Response::Tagged(m, v)) => if m == *n {
                    Some(MethodOutcome::Value(v))
                } else {
                    None
                },
                _ => None,
            },
            Conversion::MapTagged(n) => match reply {
                Ok(Response::Tagged(m, v)) => if m == *n {
                    Some(MethodOutcome::Success(v))
                } else {
                    None
                },
                Err(e) => Some(MethodOutcome::Failure(e)),
                _ => None,
            },
            Conversion::Wrap(n) => match reply {
                Ok(Response::Outcome(m, o)) => if m == *n {
                    Some(o)
                } else {
                    None
                },
                _ => None,
            },
        }
    }
}

} // verus!
