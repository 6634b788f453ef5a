//! Lists of results.

use vstd::prelude::*;

verus! {

/// The first failure in a sequence of results.
pub open spec fn first_failure<X>(results: Seq<Result<(), X>>) -> Option<X>
    decreases results.len(),
{
    if results.len() == 0 {
        None
    } else {
        match results.first() {
            Err(e) => Some(e),
            Ok(()) => first_failure(results.skip(1)),
        }
    }
}

/// The first failure in a list of results.
pub fn find_failure<X>(results: Vec<Result<(), X>>) -> (failure: Option<X>)
    ensures
        failure == first_failure(results@),
{
    let ghost all = results@;
    let mut results = results;
    let mut failure: Option<X> = None;
    assert(all.skip(all.len() as int) =~= Seq::<Result<(), X>>::empty());
    while results.len() > 0
        invariant
            results@ == all.take(results.len() as int),
            results.len() <= all.len(),
            failure == first_failure(all.skip(results.len() as int)),
        decreases results.len(),
    {
        let ghost n = results.len() as int;
        let last = results.pop();
        proof {
            assert(all.skip(n - 1).first() == all[n - 1]);
            assert(all.skip(n - 1).skip(1) =~= all.skip(n));
        }
        if let Some(Err(e)) = last {
            failure = Some(e);
        }
    }
    assert(all.skip(0) =~= all);
    failure
}

/// There is no failure in a sequence of results exactly where all of them are successes, and the
/// first failure is one that only successes come before.
pub proof fn law_first_failure<X>(results: Seq<Result<(), X>>)
    ensures
        first_failure(results) is None <==> forall|i: int|
            0 <= i < results.len() ==> #[trigger] results[i] is Ok,
        first_failure(results) matches Some(e) ==> exists|n: int|
            {
                &&& 0 <= n < results.len()
                &&& #[trigger] results[n] == Err::<(), X>(e)
                &&& forall|i: int| 0 <= i < n ==> #[trigger] results[i] is Ok
            },
    decreases results.len(),
{
    if results.len() > 0 {
        let rest = results.skip(1);
        law_first_failure(rest);
        assert(forall|i: int| 0 <= i < rest.len() ==> #[trigger] rest[i] == results[i + 1]);
        assert(forall|i: int| 1 <= i < results.len() ==> #[trigger] results[i] == rest[i - 1]);
        if let Err(e) = results[0] {
            assert(results[0] == Err::<(), X>(e));
        } else if let Some(e) = first_failure(rest) {
            let n = choose|n: int|
                {
                    &&& 0 <= n < rest.len()
                    &&& #[trigger] rest[n] == Err::<(), X>(e)
                    &&& forall|i: int| 0 <= i < n ==> #[trigger] rest[i] is Ok
                };
            assert(results[n + 1] == Err::<(), X>(e));
        }
    }
}

/// A failure is found exactly where there is one, and it is one that only successes come before.
pub proof fn law_the_first_failure_is_found<X>(results: Vec<Result<(), X>>, failure: Option<X>)
    requires
        call_ensures(find_failure::<X>, (results,), failure),
    ensures
        failure is None <==> forall|i: int|
            0 <= i < results@.len() ==> #[trigger] results@[i] is Ok,
        failure matches Some(e) ==> exists|n: int|
            {
                &&& 0 <= n < results@.len()
                &&& #[trigger] results@[n] == Err::<(), X>(e)
                &&& forall|i: int| 0 <= i < n ==> #[trigger] results@[i] is Ok
            },
        failure == first_failure(results@),
{
    law_first_failure(results@);
}

} // verus!
