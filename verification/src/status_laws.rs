//! What holds of every status: of one instance, and of all of them taken together.

use crate::status::{CpuMinerStatus, Summary, SummaryRequest};
use crate::text;
use vstd::prelude::*;

verus! {

/// An instance is connected exactly if its connection has been up for some time, however long. It
/// counts as mining, and its earnings are not estimated, whatever its summary says.
pub proof fn uptime_is_connection<H>(summary: Summary<H>, zero: H)
    ensures
        summary.status(zero).connection.is_connected <==> summary.connection.uptime != 0,
        summary.status(zero).is_mining,
        summary.status(zero).estimated_earnings == 0,
{
}

/// An instance that is connected stays so while its connection stays up.
pub proof fn connection_lasts<H>(earlier: Summary<H>, later: Summary<H>, zero: H)
    requires
        earlier.connection.uptime <= later.connection.uptime,
        earlier.status(zero).connection.is_connected,
    ensures
        later.status(zero).connection.is_connected,
{
}

/// The hash rate of an instance is one of its averages: the one over 15 minutes if it is there, else
/// the one over 60 seconds, else the one over 10 seconds. It is zero only where none of the three is
/// there; what else the list holds does not matter.
pub proof fn rate_is_the_longest_average<H>(summary: Summary<H>, zero: H)
    ensures
        ({
            let total = summary.hashrate.total@;
            let rate = summary.status(zero).hash_rate;
            &&& total.len() > 2 && total[2] is Some ==> Some(rate) == total[2]
            &&& total.len() > 1 && total[1] is Some && (total.len() <= 2 || total[2] is None)
                ==> Some(rate) == total[1]
            &&& total.len() > 0 && total[0] is Some && (total.len() <= 1 || total[1] is None) && (
            total.len() <= 2 || total[2] is None) ==> Some(rate) == total[0]
            &&& (forall|i: int| 0 <= i < total.len() && i < 3 ==> (#[trigger] total[i]) is None)
                ==> rate == zero
        }),
{
}

/// The hash rate of one reply, where there is one.
pub open spec fn rate_of<H>() -> spec_fn(Option<CpuMinerStatus<H>>) -> Option<H> {
    |reply: Option<CpuMinerStatus<H>>|
        match reply {
            Some(status) => Some(status.hash_rate),
            None => None,
        }
}

/// The rates that are added up are those of all replies that are there, in order, whatever else the
/// replies say.
pub proof fn every_reply_counts<H>(replies: Seq<Option<CpuMinerStatus<H>>>)
    ensures
        crate::status::answered_rates(replies) == replies.filter_map(rate_of::<H>()),
    decreases replies.len(),
{
    if replies.len() > 0 {
        every_reply_counts(replies.drop_last());
        let earlier = crate::status::answered_rates(replies.drop_last());
        if let Some(status) = replies.last() {
            assert(earlier.push(status.hash_rate) =~= earlier + seq![status.hash_rate]);
        }
    }
}

/// As many rates are added up as there are replies.
pub proof fn as_many_rates_as_replies<H>(replies: Seq<Option<CpuMinerStatus<H>>>)
    ensures
        crate::status::answered_rates(replies).len() == replies.filter(
            |reply: Option<CpuMinerStatus<H>>| reply is Some,
        ).len(),
    decreases replies.len(),
{
    reveal(Seq::filter);
    if replies.len() > 0 {
        as_many_rates_as_replies(replies.drop_last());
    }
}

/// Where every instance answered, the rates that are added up are theirs, place by place.
pub proof fn rates_of_full_replies<H>(replies: Seq<Option<CpuMinerStatus<H>>>)
    requires
        forall|i: int| 0 <= i < replies.len() ==> (#[trigger] replies[i]) is Some,
    ensures
        crate::status::answered_rates(replies).len() == replies.len(),
        forall|i: int|
            0 <= i < replies.len() ==> #[trigger] crate::status::answered_rates(replies)[i]
                == replies[i]->Some_0.hash_rate,
    decreases replies.len(),
{
    if replies.len() > 0 {
        let rest = replies.drop_last();
        assert forall|i: int| 0 <= i < rest.len() implies (#[trigger] rest[i]) is Some by {
            assert(rest[i] == replies[i]);
        }
        rates_of_full_replies(rest);
        assert(replies[replies.len() - 1] is Some);
        assert forall|i: int|
            0 <= i < replies.len() implies #[trigger] crate::status::answered_rates(replies)[i]
            == replies[i]->Some_0.hash_rate by {
            if i < rest.len() {
                assert(crate::status::answered_rates(rest)[i] == rest[i]->Some_0.hash_rate);
            }
        }
    }
}

/// The hash rate of all instances is zero with the rate of every reply added to it, from the first
/// to the last, where the addition is the function `f`.
pub proof fn hash_rate_is_the_sum<H, F: Fn(H, H) -> H>(
    status: CpuMinerStatus<H>,
    replies: Seq<Option<CpuMinerStatus<H>>>,
    zero: H,
    plus: F,
    f: spec_fn(H, H) -> H,
)
    requires
        forall|a: H, b: H, sum: H| call_ensures(plus, (a, b), sum) ==> sum == f(a, b),
        status.aggregates(replies, zero, plus),
    ensures
        status.hash_rate == replies.filter_map(rate_of::<H>()).fold_left(zero, f),
{
    every_reply_counts(replies);
    let rates = crate::status::answered_rates(replies);
    let sums = choose|sums: Seq<H>| #[trigger]
        crate::status::running_sums(plus, zero, rates, sums) && sums.last() == status.hash_rate;
    sums_fold(rates, zero, plus, f, sums, rates.len() as int);
    assert(rates.take(rates.len() as int) =~= rates);
}

proof fn sums_fold<H, F: Fn(H, H) -> H>(
    rates: Seq<H>,
    zero: H,
    plus: F,
    f: spec_fn(H, H) -> H,
    sums: Seq<H>,
    n: int,
)
    requires
        forall|a: H, b: H, sum: H| call_ensures(plus, (a, b), sum) ==> sum == f(a, b),
        crate::status::running_sums(plus, zero, rates, sums),
        0 <= n <= rates.len(),
    ensures
        sums[n] == rates.take(n).fold_left(zero, f),
    decreases n,
{
    if n > 0 {
        sums_fold(rates, zero, plus, f, sums, n - 1);
        assert(rates.take(n).drop_last() =~= rates.take(n - 1));
        assert(call_ensures(plus, (sums[n - 1], rates[n - 1]), sums[n]));
    }
}

/// All instances together are mining exactly if one reply says so, and connected exactly if one reply
/// says so; their earnings are not estimated.
pub proof fn one_reply_is_enough<H, F: Fn(H, H) -> H>(
    status: CpuMinerStatus<H>,
    replies: Seq<Option<CpuMinerStatus<H>>>,
    zero: H,
    plus: F,
)
    requires
        status.aggregates(replies, zero, plus),
    ensures
        status.is_mining <==> exists|i: int|
            0 <= i < replies.len() && (#[trigger] replies[i]) is Some
                && replies[i]->Some_0.is_mining,
        status.connection.is_connected <==> exists|i: int|
            0 <= i < replies.len() && (#[trigger] replies[i]) is Some
                && replies[i]->Some_0.connection.is_connected,
        status.estimated_earnings == 0,
{
    if crate::status::any_mining(replies) {
        let i = choose|i: int|
            0 <= i < replies.len() && (#[trigger] replies[i] matches Some(s) && s.is_mining);
        assert(replies[i] is Some && replies[i]->Some_0.is_mining);
    }
    if crate::status::any_connected(replies) {
        let i = choose|i: int|
            0 <= i < replies.len() && (#[trigger] replies[i] matches Some(s)
                && s.connection.is_connected);
        assert(replies[i] is Some && replies[i]->Some_0.connection.is_connected);
    }
}

/// A request goes to the summary of the instance on its port of this machine, and carries its token.
pub proof fn request_reaches_its_instance(request: SummaryRequest, port: u16, token: Seq<char>)
    requires
        request.asks(port, token),
    ensures
        request.url@ == "http://127.0.0.1:"@ + text::decimal(port as nat) + "/2/summary"@,
        request.header@ == "Authorization"@,
        request.credentials@ == "Bearer "@ + token,
{
}

/// Instances with different ports are asked at different addresses, and those with different tokens
/// with different credentials.
pub proof fn requests_tell_instances_apart(
    a: SummaryRequest,
    port_a: u16,
    token_a: Seq<char>,
    b: SummaryRequest,
    port_b: u16,
    token_b: Seq<char>,
)
    requires
        a.asks(port_a, token_a),
        b.asks(port_b, token_b),
    ensures
        port_a != port_b ==> a.url@ != b.url@,
        token_a != token_b ==> a.credentials@ != b.credentials@,
{
    if a.url@ == b.url@ {
        let from = "http://127.0.0.1:"@.len() as int;
        let to = a.url@.len() - "/2/summary"@.len();
        assert(a.url@.subrange(from, to) =~= text::decimal(port_a as nat));
        assert(b.url@.subrange(from, to) =~= text::decimal(port_b as nat));
        text::decimal_is_injective(port_a as nat, port_b as nat);
    }
    if a.credentials@ == b.credentials@ {
        let from = "Bearer "@.len() as int;
        assert(a.credentials@.skip(from) =~= token_a);
        assert(b.credentials@.skip(from) =~= token_b);
    }
}

} // verus!
