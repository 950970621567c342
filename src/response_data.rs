use vstd::prelude::*;
use crate::conversion::{Conversion, ConversionView, outcome_fits, MethodOutcome, lemma_round_trip};
use crate::method_data::MethodData;
use crate::result_data::{ResultData, ResultView, unit_text, unit_type};

verus! {

/// The response contract that one router offers for every method of the interface.
#[derive(Debug)]
pub enum ResponseData {
    /// Every method converges to one success type and at most one failure type.
    Shared(ResultData),
    /// Success types differ but one failure type is common: each success goes under the
    /// method's variant, next to its type.
    DisjointWithSharedError { outputs: Vec<(String, String)>, error: String },
    /// No failure type is common: each method's whole outcome goes under its variant, and
    /// the interface itself never fails.
    FullyDisjoint(Vec<(String, ResultData)>),
}

/// The mathematical value of a [`ResponseData`].
pub enum ResponseView {
    Shared(ResultView),
    DisjointWithSharedError(Seq<(Seq<char>, Seq<char>)>, Seq<char>),
    FullyDisjoint(Seq<(Seq<char>, ResultView)>),
}

impl View for ResponseData {
    type V = ResponseView;

    open spec fn view(&self) -> ResponseView {
        match self {
            ResponseData::Shared(r) => ResponseView::Shared(r@),
            ResponseData::DisjointWithSharedError { outputs, error } => {
                ResponseView::DisjointWithSharedError(
                    outputs@.map_values(|p: (String, String)| (p.0@, p.1@)),
                    error@,
                )
            },
            ResponseData::FullyDisjoint(results) => ResponseView::FullyDisjoint(
                results@.map_values(|p: (String, ResultData)| (p.0@, p.1@)),
            ),
        }
    }
}

/// The type text of the tagged union that the disjoint contracts reply with.
pub open spec fn response_text() -> Seq<char> {
    "Response"@
}

impl ResponseView {
    /// The success type of the interface.
    pub open spec fn ok_type(self) -> Seq<char> {
        match self {
            ResponseView::Shared(r) => r.ok(),
            _ => response_text(),
        }
    }

    /// The failure type of the interface: `()` where no method can fail, or where failures
    /// are folded into each method's variant.
    pub open spec fn err_type(self) -> Seq<char> {
        match self {
            ResponseView::Shared(r) => if r.is_fallible() {
                r.err()
            } else {
                unit_text()
            },
            ResponseView::DisjointWithSharedError(_, e) => e,
            ResponseView::FullyDisjoint(_) => unit_text(),
        }
    }
}

/// The outcome models of the methods, in order.
pub open spec fn results_of(ms: Seq<MethodData>) -> Seq<ResultView> {
    ms.map_values(|m: MethodData| m.result@)
}

/// The request variant names of the methods, in order.
pub open spec fn names_of(ms: Seq<MethodData>) -> Seq<Seq<char>> {
    ms.map_values(|m: MethodData| m.request_name@)
}

/// All methods that can fail fail with one and the same type (vacuous when none can).
pub open spec fn has_common_error(rs: Seq<ResultView>) -> bool {
    forall|i: int, j: int|
        0 <= i < rs.len() && 0 <= j < rs.len() && (#[trigger] rs[i]).is_fallible() && (
        #[trigger] rs[j]).is_fallible() ==> rs[i].err() == rs[j].err()
}

/// Some method can fail.
pub open spec fn any_fallible(rs: Seq<ResultView>) -> bool {
    exists|i: int| 0 <= i < rs.len() && (#[trigger] rs[i]).is_fallible()
}

/// All methods have the success type of the first.
pub open spec fn shares_ok(rs: Seq<ResultView>) -> bool {
    forall|i: int| 0 <= i < rs.len() ==> (#[trigger] rs[i]).ok() == rs[0].ok()
}

/// The failure type of a method that can fail, or `()` when none can.
pub open spec fn shared_error(rs: Seq<ResultView>) -> Seq<char> {
    if any_fallible(rs) {
        rs[choose|i: int| 0 <= i < rs.len() && (#[trigger] rs[i]).is_fallible()].err()
    } else {
        unit_text()
    }
}

/// The single outcome model of a shared contract: the common success type, fallible with
/// the common failure type when some method can fail.
pub open spec fn shared_result(rs: Seq<ResultView>) -> ResultView {
    if any_fallible(rs) {
        ResultView::Result(rs[0].ok(), shared_error(rs))
    } else {
        ResultView::NotResult(rs[0].ok())
    }
}

/// The unified response contract of methods with these variant names and outcome models.
pub open spec fn unify(names: Seq<Seq<char>>, rs: Seq<ResultView>) -> ResponseView {
    if has_common_error(rs) {
        if shares_ok(rs) {
            ResponseView::Shared(shared_result(rs))
        } else {
            ResponseView::DisjointWithSharedError(
                Seq::new(rs.len(), |i: int| (names[i], rs[i].ok())),
                shared_error(rs),
            )
        }
    } else {
        ResponseView::FullyDisjoint(Seq::new(rs.len(), |i: int| (names[i], rs[i])))
    }
}

/// How the method with this variant name and outcome model is converted under a contract.
pub open spec fn conversion_for(
    response: ResponseView,
    name: Seq<char>,
    result: ResultView,
) -> ConversionView {
    match response {
        ResponseView::Shared(_) => if result.is_fallible() {
            ConversionView::Pass
        } else {
            ConversionView::Lift
        },
        ResponseView::DisjointWithSharedError(_, _) => if result.is_fallible() {
            ConversionView::MapTagged(name)
        } else {
            ConversionView::LiftTagged(name)
        },
        ResponseView::FullyDisjoint(_) => ConversionView::Wrap(name),
    }
}

/// Methods that all return the same plain type and never fail share one contract: that
/// type, with `()` as the failure type.
pub proof fn lemma_plain_methods_share(names: Seq<Seq<char>>, rs: Seq<ResultView>, t: Seq<char>)
    requires
        rs.len() > 0,
        forall|i: int| 0 <= i < rs.len() ==> #[trigger] rs[i] == ResultView::NotResult(t),
    ensures
        unify(names, rs) == ResponseView::Shared(ResultView::NotResult(t)),
        unify(names, rs).ok_type() == t,
        unify(names, rs).err_type() == unit_text(),
{
    assert(rs[0] == ResultView::NotResult(t));
    assert(!any_fallible(rs));
}

/// Two methods that fail with different types leave no common failure type: the contract
/// is fully disjoint, never a shared one.
pub proof fn lemma_conflicting_failures_disjoint(
    names: Seq<Seq<char>>,
    rs: Seq<ResultView>,
    i: int,
    j: int,
)
    requires
        0 <= i < rs.len(),
        0 <= j < rs.len(),
        rs[i].is_fallible(),
        rs[j].is_fallible(),
        rs[i].err() != rs[j].err(),
    ensures
        unify(names, rs) is FullyDisjoint,
        unify(names, rs).err_type() == unit_text(),
{
}

/// A contract with a shared failure type and disjoint success types arises only where
/// every method that can fail fails with that type.
pub proof fn lemma_shared_failure_is_common(names: Seq<Seq<char>>, rs: Seq<ResultView>)
    ensures
        unify(names, rs) is DisjointWithSharedError ==> forall|i: int|
            0 <= i < rs.len() && (#[trigger] rs[i]).is_fallible() ==> rs[i].err() == unify(
                names,
                rs,
            ).err_type(),
{
    if unify(names, rs) is DisjointWithSharedError && any_fallible(rs) {
        let k = choose|k: int| 0 <= k < rs.len() && (#[trigger] rs[k]).is_fallible();
        assert forall|i: int| 0 <= i < rs.len() && (#[trigger] rs[i]).is_fallible() implies rs[i].err()
            == unify(names, rs).err_type() by {
            assert(rs[k].is_fallible());
        }
    }
}

/// Under the unified contract, every outcome of every method is carried without loss: the
/// method's conversion takes every outcome its model allows, and reading the reply
/// back gives the outcome again, success and failure alike.
pub proof fn lemma_unified_round_trip<V>(
    names: Seq<Seq<char>>,
    rs: Seq<ResultView>,
    i: int,
    o: MethodOutcome<V>,
)
    requires
        0 <= i < rs.len(),
        names.len() == rs.len(),
    ensures
        outcome_fits(rs[i], o) ==> conversion_for(unify(names, rs), names[i], rs[i]).accepts(o),
        outcome_fits(rs[i], o) ==> {
            let c = conversion_for(unify(names, rs), names[i], rs[i]);
            c.unwrap(c.apply(o)) == Some(o)
        },
{
    let c = conversion_for(unify(names, rs), names[i], rs[i]);
    if outcome_fits(rs[i], o) {
        lemma_round_trip(c, o);
    }
}

impl ResponseData {
    /// The unified response contract of a non-empty list of methods.
    pub fn new(methods: &Vec<MethodData>) -> (r: ResponseData)
        requires
            methods@.len() > 0,
        ensures
            r@ == unify(names_of(methods@), results_of(methods@)),
    {
        let ghost rs = results_of(methods@);
        let ghost names = names_of(methods@);
        match Self::common_shared_error(methods) {
            Some(error) => match Self::common_shared_result(methods) {
                Some(result) => ResponseData::Shared(result),
                None => {
                    let mut outputs: Vec<(String, String)> = Vec::new();
                    let mut i: usize = 0;
                    while i < methods.len()
                        invariant
                            i <= methods@.len(),
                            rs == results_of(methods@),
                            names == names_of(methods@),
                            outputs@.len() == i,
                            forall|j: int|
                                0 <= j < i ==> (#[trigger] outputs@[j]).0@ == names[j]
                                    && outputs@[j].1@ == rs[j].ok(),
                        decreases methods@.len() - i,
                    {
                        let m = &methods[i];
                        outputs.push((m.request_name.clone(), m.result.ok_type().clone()));
                        i = i + 1;
                    }
                    let r = ResponseData::DisjointWithSharedError { outputs, error };
                    assert(outputs@.map_values(|p: (String, String)| (p.0@, p.1@)) =~= Seq::new(
                        rs.len(),
                        |i: int| (names[i], rs[i].ok()),
                    ));
                    r
                },
            },
            None => {
                let mut results: Vec<(String, ResultData)> = Vec::new();
                let mut i: usize = 0;
                while i < methods.len()
                    invariant
                        i <= methods@.len(),
                        rs == results_of(methods@),
                        names == names_of(methods@),
                        results@.len() == i,
                        forall|j: int|
                            0 <= j < i ==> (#[trigger] results@[j]).0@ == names[j]
                                && results@[j].1@ == rs[j],
                    decreases methods@.len() - i,
                {
                    let m = &methods[i];
                    results.push((m.request_name.clone(), m.result.clone()));
                    i = i + 1;
                }
                assert(results@.map_values(|p: (String, ResultData)| (p.0@, p.1@)) =~= Seq::new(
                    rs.len(),
                    |i: int| (names[i], rs[i]),
                ));
                ResponseData::FullyDisjoint(results)
            },
        }
    }

    /// The failure type that every method able to fail shares, `()` when none can fail;
    /// `None` when two methods fail with different types.
    pub fn common_shared_error(methods: &Vec<MethodData>) -> (r: Option<String>)
        ensures
            r is Some <==> has_common_error(results_of(methods@)),
            r is Some ==> r->Some_0@ == shared_error(results_of(methods@)),
    {
        let ghost rs = results_of(methods@);
        let mut first: Option<&String> = None;
        let mut i: usize = 0;
        while i < methods.len()
            invariant
                i <= methods@.len(),
                rs == results_of(methods@),
                first is None <==> !exists|j: int| 0 <= j < i && (#[trigger] rs[j]).is_fallible(),
                first is Some ==> forall|j: int|
                    0 <= j < i && (#[trigger] rs[j]).is_fallible() ==> rs[j].err()
                        == first->Some_0@,
            decreases methods@.len() - i,
        {
            assert(rs[i as int] == methods@[i as int].result@);
            match methods[i].result.err_type() {
                Some(e) => match first {
                    Some(f) => {
                        if *e != *f {
                            assert(rs[i as int].is_fallible());
                            let ghost k = choose|k: int| 0 <= k < i && (#[trigger] rs[k]).is_fallible();
                            assert(rs[k].is_fallible());
                            return None;
                        }
                    },
                    None => {
                        first = Some(e);
                    },
                },
                None => {},
            }
            i = i + 1;
        }
        match first {
            Some(f) => {
                assert(any_fallible(rs));
                let ghost k = choose|k: int| 0 <= k < rs.len() && (#[trigger] rs[k]).is_fallible();
                assert(rs[k].is_fallible());
                Some(f.clone())
            },
            None => Some(unit_type()),
        }
    }

    /// The single outcome model of every method, when all share the success type and at
    /// most one failure type.
    pub fn common_shared_result(methods: &Vec<MethodData>) -> (r: Option<ResultData>)
        requires
            methods@.len() > 0,
        ensures
            r is Some <==> has_common_error(results_of(methods@)) && shares_ok(
                results_of(methods@),
            ),
            r is Some ==> r->Some_0@ == shared_result(results_of(methods@)),
    {
        let ghost rs = results_of(methods@);
        let mut current: &ResultData = &methods[0].result;
        let mut i: usize = 1;
        while i < methods.len()
            invariant
                1 <= i <= methods@.len(),
                rs == results_of(methods@),
                forall|j: int| 0 <= j < i ==> (#[trigger] rs[j]).ok() == rs[0].ok(),
                has_common_error(rs.take(i as int)),
                current@.ok() == rs[0].ok(),
                current@.is_fallible() <==> exists|j: int|
                    0 <= j < i && (#[trigger] rs[j]).is_fallible(),
                current@.is_fallible() ==> forall|j: int|
                    0 <= j < i && (#[trigger] rs[j]).is_fallible() ==> rs[j].err()
                        == current@.err(),
            decreases methods@.len() - i,
        {
            let next = &methods[i].result;
            let ghost pre = rs.take(i as int);
            let ghost post = rs.take(i + 1);
            assert(post[i as int] == rs[i as int]);
            if *current == *next {
            } else if *current.ok_type() != *next.ok_type() {
                assert(!shares_ok(rs));
                return None;
            } else if current.err_type().is_none() {
                current = next;
            } else if next.err_type().is_none() {
            } else {
                let ghost k = choose|k: int| 0 <= k < i && (#[trigger] rs[k]).is_fallible();
                assert(rs[k].is_fallible());
                assert(!has_common_error(rs));
                return None;
            }
            assert forall|a: int, b: int|
                0 <= a < post.len() && 0 <= b < post.len() && (#[trigger] post[a]).is_fallible()
                    && (#[trigger] post[b]).is_fallible() implies post[a].err() == post[b].err() by {
                assert(post[a] == rs[a]);
                assert(post[b] == rs[b]);
                if a < i {
                    assert(pre[a] == rs[a]);
                }
                if b < i {
                    assert(pre[b] == rs[b]);
                }
            }
            i = i + 1;
        }
        assert(rs.take(i as int) =~= rs);
        proof {
            if any_fallible(rs) {
                let k = choose|k: int| 0 <= k < rs.len() && (#[trigger] rs[k]).is_fallible();
                assert(rs[k].is_fallible());
            }
        }
        Some(current.clone())
    }

    /// The variants of the `Response` union that a disjoint contract declares, each with
    /// the type it carries; `None` for a shared contract, which declares no union.
    pub fn response_type_declaration(&self) -> (r: Option<Vec<(String, ResultData)>>)
        ensures
            match self@ {
                ResponseView::Shared(_) => r is None,
                ResponseView::DisjointWithSharedError(outputs, _) => r is Some && {
                    let vs = r->Some_0@;
                    &&& vs.len() == outputs.len()
                    &&& forall|i: int|
                        0 <= i < vs.len() ==> (#[trigger] vs[i]).0@ == outputs[i].0 && vs[i].1@
                            == ResultView::NotResult(outputs[i].1)
                },
                ResponseView::FullyDisjoint(results) => r is Some && {
                    let vs = r->Some_0@;
                    &&& vs.len() == results.len()
                    &&& forall|i: int|
                        0 <= i < vs.len() ==> (#[trigger] vs[i]).0@ == results[i].0 && vs[i].1@
                            == results[i].1
                },
            },
    {
        match self {
            ResponseData::Shared(_) => None,
            ResponseData::DisjointWithSharedError { outputs, .. } => {
                let mut vs: Vec<(String, ResultData)> = Vec::new();
                let mut i: usize = 0;
                while i < outputs.len()
                    invariant
                        i <= outputs@.len(),
                        vs@.len() == i,
                        forall|k: int|
                            0 <= k < i ==> (#[trigger] vs@[k]).0@ == outputs@[k].0@ && vs@[k].1@
                                == ResultView::NotResult(outputs@[k].1@),
                    decreases outputs@.len() - i,
                {
                    let (name, ok) = &outputs[i];
                    vs.push((name.clone(), ResultData::NotResult(ok.clone())));
                    i = i + 1;
                }
                Some(vs)
            },
            ResponseData::FullyDisjoint(results) => {
                let mut vs: Vec<(String, ResultData)> = Vec::new();
                let mut i: usize = 0;
                while i < results.len()
                    invariant
                        i <= results@.len(),
                        vs@.len() == i,
                        forall|k: int|
                            0 <= k < i ==> (#[trigger] vs@[k]).0@ == results@[k].0@ && vs@[k].1@
                                == results@[k].1@,
                    decreases results@.len() - i,
                {
                    let (name, result) = &results[i];
                    vs.push((name.clone(), result.clone()));
                    i = i + 1;
                }
                Some(vs)
            },
        }
    }

    /// How the router converts the outcome of `method` under this contract.
    pub fn conversion_to_response(&self, method: &MethodData) -> (r: Conversion)
        ensures
            r@ == conversion_for(self@, method.request_name@, method.result@),
    {
        let fallible = method.result.err_type().is_some();
        match self {
            ResponseData::Shared(_) => if fallible {
                Conversion::Pass
            } else {
                Conversion::Lift
            },
            ResponseData::DisjointWithSharedError { .. } => if fallible {
                Conversion::MapTagged(method.request_name.clone())
            } else {
                Conversion::LiftTagged(method.request_name.clone())
            },
            ResponseData::FullyDisjoint(_) => Conversion::Wrap(method.request_name.clone()),
        }
    }

    /// The success type of the interface: the shared one, or the `Response` union.
    pub fn ok_type(&self) -> (r: String)
        ensures
            r@ == self@.ok_type(),
    {
        match self {
            ResponseData::Shared(result) => result.ok_type().clone(),
            _ => String::from_str("Response"),
        }
    }

    /// The failure type of the interface.
    pub fn err_type(&self) -> (r: String)
        ensures
            r@ == self@.err_type(),
    {
        match self {
            ResponseData::Shared(result) => match result.err_type() {
                Some(e) => e.clone(),
                None => unit_type(),
            },
            ResponseData::DisjointWithSharedError { error, .. } => error.clone(),
            ResponseData::FullyDisjoint(_) => unit_type(),
        }
    }
}

} // verus!
