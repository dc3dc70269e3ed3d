use vstd::prelude::*;
use crate::data::{FetchError, LeaderboardResponse};
use crate::url::{dec_digits, dec_rep, digit_char, leaderboard_url, url_base};

verus! {

/// The fixed `days` parameter values, in submission order.
pub open spec fn fan_out_days_spec() -> Seq<i32> {
    seq![80i32, 90i32, 100i32, 110i32]
}

/// The fan-out covers each `days` value exactly once: the fixed list has
/// no repeated value.
pub proof fn lemma_fan_out_days_distinct()
    ensures
        forall|i: int, j: int|
            0 <= i < j < fan_out_days_spec().len() ==> fan_out_days_spec()[i]
                != fan_out_days_spec()[j],
{
}

/// The fixed list of `days` query-parameter values, in submission order.
pub fn fan_out_days() -> (r: Vec<i32>)
    ensures
        r@ == fan_out_days_spec(),
{
    let mut v: Vec<i32> = Vec::new();
    v.push(80);
    v.push(90);
    v.push(100);
    v.push(110);
    proof {
        assert(v@ =~= fan_out_days_spec());
    }
    v
}

/// The four request URLs, one per `days` value, in submission order.
pub fn leaderboard_urls() -> (r: Vec<String>)
    ensures
        r@.len() == 4,
        forall|k: int|
            0 <= k < 4 ==> (#[trigger] r@[k])@ == url_base() + dec_rep(
                fan_out_days_spec()[k] as int,
            ),
{
    let days = fan_out_days();
    let mut urls: Vec<String> = Vec::new();
    let mut i: usize = 0;
    while i < days.len()
        invariant
            days@ == fan_out_days_spec(),
            i <= days@.len(),
            urls@.len() == i,
            forall|k: int|
                0 <= k < i ==> (#[trigger] urls@[k])@ == url_base() + dec_rep(
                    fan_out_days_spec()[k] as int,
                ),
        decreases days@.len() - i,
    {
        let u = leaderboard_url(days[i]);
        urls.push(u);
        i = i + 1;
    }
    urls
}

/// The request URL for the `days` value at position `k` of the fan-out.
pub open spec fn request_url_spec(k: int) -> Seq<char> {
    url_base() + dec_rep(fan_out_days_spec()[k] as int)
}

/// The four request URLs differ pairwise: together with the order of
/// `leaderboard_urls`, the fan-out requests each of the four `days`
/// values exactly once.
pub proof fn lemma_urls_distinct()
    ensures
        forall|i: int, j: int| 0 <= i < j < 4 ==> request_url_spec(i) != request_url_spec(j),
{
    assert(dec_digits(8) == seq![digit_char(8)]);
    assert(dec_digits(9) == seq![digit_char(9)]);
    assert(dec_digits(1) == seq![digit_char(1)]);
    assert(dec_digits(10) == dec_digits(1).push(digit_char(0)));
    assert(dec_digits(11) == dec_digits(1).push(digit_char(1)));
    assert(dec_digits(80) == dec_digits(8).push(digit_char(0)));
    assert(dec_digits(90) == dec_digits(9).push(digit_char(0)));
    assert(dec_digits(100) == dec_digits(10).push(digit_char(0)));
    assert(dec_digits(110) == dec_digits(11).push(digit_char(0)));
    let b = url_base().len() as int;
    assert(request_url_spec(0)[b] == '8');
    assert(request_url_spec(1)[b] == '9');
    assert(request_url_spec(2)[b + 1] == '0');
    assert(request_url_spec(3)[b + 1] == '1');
    assert(request_url_spec(0).len() == b + 2);
    assert(request_url_spec(1).len() == b + 2);
    assert(request_url_spec(2).len() == b + 3);
    assert(request_url_spec(3).len() == b + 3);
    assert forall|i: int, j: int| 0 <= i < j < 4 implies request_url_spec(i) != request_url_spec(
        j,
    ) by {
        if request_url_spec(i) == request_url_spec(j) {
            assert(request_url_spec(i).len() == request_url_spec(j).len());
            assert(request_url_spec(i)[b] == request_url_spec(j)[b]);
            assert(request_url_spec(i)[b + 1] == request_url_spec(j)[b + 1]);
        }
    }
}

/// The first failure among the fetch outcomes, scanning in submission
/// order.
pub open spec fn first_err(s: Seq<Result<LeaderboardResponse, FetchError>>) -> Option<FetchError>
    decreases s.len(),
{
    if s.len() == 0 {
        Option::None
    } else if s[0] is Err {
        Option::Some(s[0]->Err_0)
    } else {
        first_err(s.skip(1))
    }
}

/// When no outcome is a failure, every outcome is a success.
pub proof fn lemma_no_err_all_ok(s: Seq<Result<LeaderboardResponse, FetchError>>)
    requires
        first_err(s) is None,
    ensures
        forall|k: int| 0 <= k < s.len() ==> (#[trigger] s[k]) is Ok,
    decreases s.len(),
{
    if s.len() > 0 {
        lemma_no_err_all_ok(s.skip(1));
        assert forall|k: int| 0 <= k < s.len() implies (#[trigger] s[k]) is Ok by {
            if k > 0 {
                assert(s.skip(1)[k - 1] == s[k]);
            }
        }
    }
}

/// Law (fail-fast aggregation): if any outcome is a failure, the first
/// failure in submission order exists, and it is what `first_err` reports;
/// every outcome before it is a success.
pub proof fn lemma_fail_fast(s: Seq<Result<LeaderboardResponse, FetchError>>)
    requires
        exists|k: int| 0 <= k < s.len() && (#[trigger] s[k]) is Err,
    ensures
        first_err(s) is Some,
        exists|k: int|
            0 <= k < s.len() && (#[trigger] s[k]) is Err && first_err(s) == Option::Some(
                s[k]->Err_0,
            ) && (forall|j: int| 0 <= j < k ==> (#[trigger] s[j]) is Ok),
    decreases s.len(),
{
    if s[0] is Err {
        assert(0 <= 0 < s.len() && s[0] is Err && first_err(s) == Option::Some(s[0]->Err_0) && (
        forall|j: int| 0 <= j < 0 ==> (#[trigger] s[j]) is Ok));
    } else {
        let k0 = choose|k: int| 0 <= k < s.len() && (#[trigger] s[k]) is Err;
        assert(s.skip(1)[k0 - 1] == s[k0]);
        lemma_fail_fast(s.skip(1));
        let k1 = choose|k: int|
            0 <= k < s.skip(1).len() && (#[trigger] s.skip(1)[k]) is Err && first_err(s.skip(1))
                == Option::Some(s.skip(1)[k]->Err_0) && (forall|j: int|
                0 <= j < k ==> (#[trigger] s.skip(1)[j]) is Ok);
        assert(s.skip(1)[k1] == s[k1 + 1]);
        assert forall|j: int| 0 <= j < k1 + 1 implies (#[trigger] s[j]) is Ok by {
            if j > 0 {
                assert(s.skip(1)[j - 1] == s[j]);
            }
        }
        assert(0 <= k1 + 1 < s.len() && s[k1 + 1] is Err && first_err(s) == Option::Some(
            s[k1 + 1]->Err_0,
        ) && (forall|j: int| 0 <= j < k1 + 1 ==> (#[trigger] s[j]) is Ok));
    }
}

/// Joins the outcomes of the concurrent fetches, which the caller passes
/// in submission order. Fail-fast, all or nothing: if any fetch failed the
/// join reports the earliest failure and no responses; when all succeeded
/// it yields every response, in submission order (so the outcome does not
/// depend on the order in which the fetches completed).
pub fn join_results(results: Vec<Result<LeaderboardResponse, FetchError>>) -> (r: Result<
    Vec<LeaderboardResponse>,
    FetchError,
>)
    ensures
        match first_err(results@) {
            Option::Some(e) => r == Err::<Vec<LeaderboardResponse>, FetchError>(e),
            Option::None => {
                &&& r is Ok
                &&& r->Ok_0@.len() == results@.len()
                &&& forall|k: int|
                    0 <= k < results@.len() ==> (#[trigger] results@[k]) is Ok && r->Ok_0@[k]
                        == results@[k]->Ok_0
            },
        },
{
    let ghost s0 = results@;
    let mut rest = results;
    let mut out_rev: Vec<LeaderboardResponse> = Vec::new();
    let mut err: Option<FetchError> = None;
    proof {
        assert(s0.subrange(0, s0.len() as int) =~= s0);
        assert(s0.skip(s0.len() as int) =~= Seq::<
            Result<LeaderboardResponse, FetchError>,
        >::empty());
    }
    while rest.len() > 0
        invariant
            rest@.len() <= s0.len(),
            rest@ == s0.subrange(0, rest@.len() as int),
            match err {
                Option::Some(e) => first_err(s0.skip(rest@.len() as int)) == Option::Some(e),
                Option::None => first_err(s0.skip(rest@.len() as int)) is None,
            },
            first_err(s0.skip(rest@.len() as int)) is None ==> {
                &&& out_rev@.len() + rest@.len() == s0.len()
                &&& forall|k: int|
                    0 <= k < out_rev@.len() ==> (#[trigger] s0[s0.len() - 1 - k]) is Ok
                        && out_rev@[k] == s0[s0.len() - 1 - k]->Ok_0
            },
        decreases rest@.len(),
    {
        let ghost n = rest@.len() as int;
        proof {
            assert(s0.skip(n - 1)[0] == s0[n - 1]);
            assert(s0.skip(n - 1).skip(1) =~= s0.skip(n));
            assert(rest@[n - 1] == s0[n - 1]);
        }
        match rest.pop().unwrap() {
            Ok(v) => {
                out_rev.push(v);
            },
            Err(e) => {
                err = Some(e);
            },
        }
        proof {
            assert(rest@ =~= s0.subrange(0, rest@.len() as int));
        }
    }
    proof {
        assert(s0.skip(0) =~= s0);
    }
    match err {
        Some(e) => Err(e),
        None => {
            let ghost rev0 = out_rev@;
            let mut out: Vec<LeaderboardResponse> = Vec::new();
            while out_rev.len() > 0
                invariant
                    out_rev@ == rev0.subrange(0, out_rev@.len() as int),
                    out@.len() + out_rev@.len() == rev0.len(),
                    forall|k: int|
                        0 <= k < out@.len() ==> out@[k] == rev0[rev0.len() - 1 - k],
                decreases out_rev@.len(),
            {
                proof {
                    assert(out_rev@[out_rev@.len() - 1] == rev0[out_rev@.len() - 1]);
                }
                let v = out_rev.pop().unwrap();
                out.push(v);
                proof {
                    assert(out_rev@ =~= rev0.subrange(0, out_rev@.len() as int));
                }
            }
            proof {
                assert(rev0.len() == s0.len());
                assert forall|k: int| 0 <= k < s0.len() implies (#[trigger] s0[k]) is Ok
                    && out@[k] == s0[k]->Ok_0 by {
                    assert(s0[s0.len() - 1 - (s0.len() - 1 - k)] is Ok);
                    assert(rev0[s0.len() - 1 - k] == s0[k]->Ok_0);
                    assert(out@[k] == rev0[rev0.len() - 1 - k]);
                }
            }
            Ok(out)
        },
    }
}

} // verus!
