//! Small reusable pieces: string comparison and the "collect all errors"
//! combinator that the whole-record aggregation is built on.

use vstd::prelude::*;

verus! {

/// Compares two string slices by their character sequences.
pub fn str_eq(a: &str, b: &str) -> (r: bool)
    ensures
        r == (a@ == b@),
{
    let a_owned: String = a.to_owned();
    let b_owned: String = b.to_owned();
    a_owned == b_owned
}

/// The successful values of a sequence of results, in order.
pub open spec fn ok_parts<T, E>(s: Seq<Result<T, E>>) -> Seq<T>
    decreases s.len(),
{
    if s.len() == 0 {
        Seq::empty()
    } else {
        match s.last() {
            Ok(v) => ok_parts(s.drop_last()).push(v),
            Err(_) => ok_parts(s.drop_last()),
        }
    }
}

/// The failure values of a sequence of results, in order.
pub open spec fn err_parts<T, E>(s: Seq<Result<T, E>>) -> Seq<E>
    decreases s.len(),
{
    if s.len() == 0 {
        Seq::empty()
    } else {
        match s.last() {
            Ok(_) => err_parts(s.drop_last()),
            Err(e) => err_parts(s.drop_last()).push(e),
        }
    }
}

/// What collecting a sequence of independent fallible results yields: all
/// successes when nothing failed, otherwise every failure, never just the
/// first one.
pub open spec fn collected<T, E>(s: Seq<Result<T, E>>) -> Result<Seq<T>, Seq<E>> {
    if err_parts(s).len() == 0 {
        Ok(ok_parts(s))
    } else {
        Err(err_parts(s))
    }
}

/// A sequence of values, each replaced by its mathematical image.
pub open spec fn seq_dv<T: DeepView>(s: Seq<T>) -> Seq<T::V> {
    s.map_values(|t: T| t.deep_view())
}

/// A result with both sides replaced by their mathematical images.
pub open spec fn result_dv<T: DeepView, E: DeepView>(r: Result<T, E>) -> Result<T::V, E::V> {
    match r {
        Ok(v) => Ok(v.deep_view()),
        Err(e) => Err(e.deep_view()),
    }
}

/// A sequence of results, each replaced by its mathematical image.
pub open spec fn results_dv<T: DeepView, E: DeepView>(s: Seq<Result<T, E>>) -> Seq<
    Result<T::V, E::V>,
> {
    s.map_values(|r: Result<T, E>| result_dv(r))
}

/// Partitioning commutes with taking mathematical images: the successes and
/// failures of the images are the images of the successes and failures.
pub proof fn lemma_parts_dv<T: DeepView, E: DeepView>(s: Seq<Result<T, E>>)
    ensures
        ok_parts(results_dv(s)) == seq_dv(ok_parts(s)),
        err_parts(results_dv(s)) == seq_dv(err_parts(s)),
    decreases s.len(),
{
    if s.len() == 0 {
        assert(results_dv(s) =~= Seq::<Result<T::V, E::V>>::empty());
        assert(seq_dv(ok_parts(s)) =~= Seq::<T::V>::empty());
        assert(seq_dv(err_parts(s)) =~= Seq::<E::V>::empty());
    } else {
        lemma_parts_dv(s.drop_last());
        assert(results_dv(s).drop_last() =~= results_dv(s.drop_last()));
        assert(results_dv(s).last() == result_dv(s.last()));
        match s.last() {
            Ok(v) => {
                assert(seq_dv(ok_parts(s)) =~= seq_dv(ok_parts(s.drop_last())).push(
                    v.deep_view(),
                ));
                assert(seq_dv(err_parts(s)) =~= seq_dv(err_parts(s.drop_last())));
            },
            Err(e) => {
                assert(seq_dv(ok_parts(s)) =~= seq_dv(ok_parts(s.drop_last())));
                assert(seq_dv(err_parts(s)) =~= seq_dv(err_parts(s.drop_last())).push(
                    e.deep_view(),
                ));
            },
        }
    }
}

/// A sequence of results has failure values exactly when some element
/// failed.
pub proof fn lemma_err_parts_exists<T, E>(s: Seq<Result<T, E>>)
    ensures
        err_parts(s).len() > 0 <==> exists|i: int| 0 <= i < s.len() && s[i] is Err,
    decreases s.len(),
{
    if s.len() > 0 {
        lemma_err_parts_exists(s.drop_last());
        if s.last() is Err {
            assert(s[s.len() - 1] is Err);
        } else if exists|i: int| 0 <= i < s.len() && s[i] is Err {
            let i = choose|i: int| 0 <= i < s.len() && s[i] is Err;
            assert(s.drop_last()[i] is Err);
        }
    }
}

/// When every element succeeded, collecting keeps every success, in order,
/// and reports no failure.
pub proof fn lemma_ok_parts_all_ok<T, E>(s: Seq<Result<T, E>>)
    requires
        forall|i: int| 0 <= i < s.len() ==> s[i] is Ok,
    ensures
        err_parts(s).len() == 0,
        ok_parts(s).len() == s.len(),
        forall|i: int| 0 <= i < s.len() ==> ok_parts(s)[i] == s[i]->Ok_0,
    decreases s.len(),
{
    if s.len() > 0 {
        assert(forall|i: int| 0 <= i < s.drop_last().len() ==> s.drop_last()[i] is Ok);
        lemma_ok_parts_all_ok(s.drop_last());
        assert(s[s.len() - 1] is Ok);
        assert(forall|i: int| 0 <= i < s.len() - 1 ==> s.drop_last()[i] == s[i]);
    }
}

/// Every failing element's failure value appears among the collected
/// failure values: no failure is lost.
pub proof fn lemma_err_parts_contains<T, E>(s: Seq<Result<T, E>>, i: int)
    requires
        0 <= i < s.len(),
        s[i] is Err,
    ensures
        err_parts(s).contains(s[i]->Err_0),
    decreases s.len(),
{
    if i == s.len() - 1 {
        let parts = err_parts(s);
        assert(parts[parts.len() - 1] == s[i]->Err_0);
    } else {
        lemma_err_parts_contains(s.drop_last(), i);
        assert(s.drop_last()[i] == s[i]);
        let k = choose|k: int|
            0 <= k < err_parts(s.drop_last()).len() && err_parts(s.drop_last())[k] == s[i]->Err_0;
        assert(err_parts(s)[k] == s[i]->Err_0);
    }
}

/// Runs many independent fallible operations' results together: partitions
/// them into successes and failures and only then decides the combined
/// outcome, so no individual failure is lost.
pub fn collect_errors<T, E>(results: Vec<Result<T, E>>) -> (r: Result<Vec<T>, Vec<E>>)
    ensures
        match r {
            Ok(oks) => collected(results@) == Ok::<Seq<T>, Seq<E>>(oks@),
            Err(errs) => collected(results@) == Err::<Seq<T>, Seq<E>>(errs@),
        },
{
    let ghost orig: Seq<Result<T, E>> = results@;
    let mut rest = results;
    let mut oks: Vec<T> = Vec::new();
    let mut errs: Vec<E> = Vec::new();
    let mut i: usize = 0;
    let n = rest.len();
    proof {
        assert(orig.len() == n);
        assert(rest@ =~= orig.skip(0));
    }
    while rest.len() > 0
        invariant
            orig.len() <= usize::MAX,
            i + rest.len() == orig.len(),
            rest@ == orig.skip(i as int),
            oks@ == ok_parts(orig.take(i as int)),
            errs@ == err_parts(orig.take(i as int)),
        decreases rest.len(),
    {
        let item = rest.remove(0);
        proof {
            assert(item == orig[i as int]);
        }
        match item {
            Ok(v) => oks.push(v),
            Err(e) => errs.push(e),
        }
        i = i + 1;
        proof {
            assert(orig.take(i as int).drop_last() =~= orig.take(i as int - 1));
            assert(orig.take(i as int).last() == orig[i as int - 1]);
            assert(rest@ =~= orig.skip(i as int));
        }
    }
    proof {
        assert(orig.take(orig.len() as int) =~= orig);
    }
    if errs.len() > 0 {
        Err(errs)
    } else {
        Ok(oks)
    }
}

} // verus!
