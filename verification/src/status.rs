//! Status of the miners: the requests that ask for it, its reading, and its aggregation.
//!
//! Hash rates are values of a type `H` that this module only carries along: the caller brings the
//! zero of that type and its addition.

use crate::text;
use vstd::prelude::*;

verus! {

/// Whether a miner is connected to its pool or node.
#[derive(Clone, Copy, PartialEq, Eq, Debug)]
pub struct CpuMinerConnectionStatus {
    pub is_connected: bool,
}

/// Status of one miner, or of several taken together.
#[derive(Clone, Copy, PartialEq, Eq, Debug)]
pub struct CpuMinerStatus<H> {
    pub is_mining: bool,
    pub estimated_earnings: u64,
    pub hash_rate: H,
    pub connection: CpuMinerConnectionStatus,
}

/// A request for the summary of one xmrig instance.
pub struct SummaryRequest {
    pub url: String,
    pub header: String,
    pub credentials: String,
}

/// Connection part of the summary of an xmrig instance.
pub struct Connection {
    pub uptime: u64,
}

/// Hash rate part of the summary: averages over 10 seconds, 60 seconds and 15 minutes, each of
/// which may be missing.
pub struct Hashrate<H> {
    pub total: Vec<Option<H>>,
}

/// Summary that an xmrig instance sends.
pub struct Summary<H> {
    pub connection: Connection,
    pub hashrate: Hashrate<H>,
}

impl SummaryRequest {
    /// This is the request to the instance on `port` that accepts `token`.
    pub open spec fn asks(self, port: u16, token: Seq<char>) -> bool {
        &&& self.url@ == "http://127.0.0.1:"@ + text::decimal(port as nat) + "/2/summary"@
        &&& self.header@ == "Authorization"@
        &&& self.credentials@ == "Bearer "@ + token
    }

    /// The request to the instance on `port` that accepts `token`.
    pub fn new(port: u16, token: &str) -> (request: SummaryRequest)
        ensures
            request.asks(port, token@),
    {
        let mut url = text::with_decimal("http://127.0.0.1:", port as u64);
        url.append("/2/summary");
        SummaryRequest {
            url,
            header: "Authorization".to_owned(),
            credentials: text::joined("Bearer ", token),
        }
    }
}

/// The requests to the instances behind `ports`, in order.
pub fn summary_requests(ports: &Vec<(u16, String)>) -> (requests: Vec<SummaryRequest>)
    ensures
        requests@.len() == ports@.len(),
        forall|i: int|
            0 <= i < ports@.len() ==> (#[trigger] requests@[i]).asks(ports@[i].0, ports@[i].1@),
{
    let mut requests: Vec<SummaryRequest> = Vec::new();
    let mut i: usize = 0;
    while i < ports.len()
        invariant
            i <= ports@.len(),
            requests@.len() == i,
            forall|j: int|
                0 <= j < i ==> (#[trigger] requests@[j]).asks(ports@[j].0, ports@[j].1@),
        decreases ports@.len() - i,
    {
        requests.push(SummaryRequest::new(ports[i].0, ports[i].1.as_str()));
        i += 1;
    }
    requests
}

/// The average at place `i` of a summary, if it is there.
pub open spec fn average_at<H>(total: Seq<Option<H>>, i: int) -> Option<H> {
    if 0 <= i < total.len() {
        total[i]
    } else {
        None
    }
}

/// The hash rate of a summary: its average over the longest period that it has, and `zero` if it
/// has none.
pub open spec fn longest_average<H>(total: Seq<Option<H>>, zero: H) -> H {
    if let Some(fifteen_minutes) = average_at(total, 2) {
        fifteen_minutes
    } else if let Some(sixty_seconds) = average_at(total, 1) {
        sixty_seconds
    } else if let Some(ten_seconds) = average_at(total, 0) {
        ten_seconds
    } else {
        zero
    }
}

impl<H> Summary<H> {
    /// The status that this summary tells of.
    pub open spec fn status(self, zero: H) -> CpuMinerStatus<H> {
        CpuMinerStatus {
            is_mining: true,
            estimated_earnings: 0,
            hash_rate: longest_average(self.hashrate.total@, zero),
            connection: CpuMinerConnectionStatus { is_connected: self.connection.uptime > 0 },
        }
    }
}

impl<H: Copy> Hashrate<H> {
    /// The average at place `i`, if it is there.
    fn average(&self, i: usize) -> (average: Option<H>)
        ensures
            average == average_at(self.total@, i as int),
    {
        if i < self.total.len() {
            self.total[i]
        } else {
            None
        }
    }
}

impl<H: Copy> Summary<H> {
    /// Reads the status out of the summary of one instance.
    pub fn to_status(&self, zero: H) -> (status: CpuMinerStatus<H>)
        ensures
            status == self.status(zero),
            status.is_mining,
            status.estimated_earnings == 0,
            status.connection.is_connected == (self.connection.uptime != 0),
    {
        let hash_rate = match self.hashrate.average(2) {
            Some(fifteen_minutes) => fifteen_minutes,
            None => match self.hashrate.average(1) {
                Some(sixty_seconds) => sixty_seconds,
                None => match self.hashrate.average(0) {
                    Some(ten_seconds) => ten_seconds,
                    None => zero,
                },
            },
        };
        CpuMinerStatus {
            is_mining: true,
            estimated_earnings: 0,
            hash_rate,
            connection: CpuMinerConnectionStatus { is_connected: self.connection.uptime > 0 },
        }
    }
}

/// The hash rates of the instances that answered, in order.
pub open spec fn answered_rates<H>(replies: Seq<Option<CpuMinerStatus<H>>>) -> Seq<H>
    decreases replies.len(),
{
    if replies.len() == 0 {
        seq![]
    } else {
        match replies.last() {
            Some(status) => answered_rates(replies.drop_last()).push(status.hash_rate),
            None => answered_rates(replies.drop_last()),
        }
    }
}

/// `sums` begins with `zero`, and goes on with what `plus` gives of each sum and the next of `rates`.
pub open spec fn running_sums<H, F: Fn(H, H) -> H>(
    plus: F,
    zero: H,
    rates: Seq<H>,
    sums: Seq<H>,
) -> bool {
    &&& sums.len() == rates.len() + 1
    &&& sums[0] == zero
    &&& forall|i: int|
        0 <= i < rates.len() ==> call_ensures(plus, (sums[i], #[trigger] rates[i]), sums[i + 1])
}

/// `total` is `zero` with `rates` added to it by `plus`, one after the other.
pub open spec fn adds_up<H, F: Fn(H, H) -> H>(plus: F, zero: H, rates: Seq<H>, total: H) -> bool {
    exists|sums: Seq<H>| #[trigger]
        running_sums(plus, zero, rates, sums) && sums.last() == total
}

/// Some instance answered that it is mining.
pub open spec fn any_mining<H>(replies: Seq<Option<CpuMinerStatus<H>>>) -> bool {
    exists|i: int| 0 <= i < replies.len() && (#[trigger] replies[i] matches Some(s) && s.is_mining)
}

/// Some instance answered that it is connected.
pub open spec fn any_connected<H>(replies: Seq<Option<CpuMinerStatus<H>>>) -> bool {
    exists|i: int|
        0 <= i < replies.len() && (#[trigger] replies[i] matches Some(s)
            && s.connection.is_connected)
}

impl<H> CpuMinerStatus<H> {
    /// This is the status of all instances taken together, from what each of them replied. An
    /// instance that could not be asked has no reply, and counts for nothing.
    pub open spec fn aggregates<F: Fn(H, H) -> H>(
        self,
        replies: Seq<Option<CpuMinerStatus<H>>>,
        zero: H,
        plus: F,
    ) -> bool {
        &&& self.is_mining == any_mining(replies)
        &&& self.estimated_earnings == 0
        &&& adds_up(plus, zero, answered_rates(replies), self.hash_rate)
        &&& self.connection.is_connected == any_connected(replies)
    }
}

/// The status of all instances taken together.
pub fn aggregate<H: Copy, F: Fn(H, H) -> H>(
    replies: &Vec<Option<CpuMinerStatus<H>>>,
    zero: H,
    plus: F,
) -> (status: CpuMinerStatus<H>)
    requires
        forall|a: H, b: H| call_requires(plus, (a, b)),
    ensures
        status.aggregates(replies@, zero, plus),
{
    let mut hash_rate = zero;
    let mut is_mining = false;
    let mut is_connected = false;
    let mut i: usize = 0;
    assert(replies@.take(0) =~= seq![]);
    assert(running_sums(plus, zero, Seq::<H>::empty(), seq![zero]));
    while i < replies.len()
        invariant
            i <= replies@.len(),
            forall|a: H, b: H| call_requires(plus, (a, b)),
            is_mining == any_mining(replies@.take(i as int)),
            is_connected == any_connected(replies@.take(i as int)),
            adds_up(plus, zero, answered_rates(replies@.take(i as int)), hash_rate),
        decreases replies@.len() - i,
    {
        let ghost before = replies@.take(i as int);
        let ghost after = replies@.take(i + 1);
        let ghost sum = hash_rate;
        assert(after.drop_last() =~= before);
        if let Some(status) = &replies[i] {
            hash_rate = plus(hash_rate, status.hash_rate);
            if status.is_mining {
                is_mining = true;
            }
            if status.connection.is_connected {
                is_connected = true;
            }
        }
        proof {
            let reply = replies@[i as int];
            assert(after[i as int] == reply);
            assert forall|j: int| 0 <= j < i implies #[trigger] after[j] == before[j] by {}
            if any_mining(before) {
                let j = choose|j: int|
                    0 <= j < before.len() && (#[trigger] before[j] matches Some(s) && s.is_mining);
                assert(after[j] == before[j]);
            }
            if any_connected(before) {
                let j = choose|j: int|
                    0 <= j < before.len() && (#[trigger] before[j] matches Some(s)
                        && s.connection.is_connected);
                assert(after[j] == before[j]);
            }
            if reply is Some {
                let rates = answered_rates(before);
                let sums = choose|sums: Seq<H>| #[trigger]
                    running_sums(plus, zero, rates, sums) && sums.last() == sum;
                assert(running_sums(plus, zero, answered_rates(after), sums.push(hash_rate)));
            }
        }
        i += 1;
    }
    assert(replies@.take(i as int) =~= replies@);
    CpuMinerStatus {
        is_mining,
        estimated_earnings: 0,
        hash_rate,
        connection: CpuMinerConnectionStatus { is_connected },
    }
}

/// Where no instance answers, the miner is neither mining nor connected, and its hash rate is zero.
pub proof fn silence_is_no_mining<H, F: Fn(H, H) -> H>(
    status: CpuMinerStatus<H>,
    replies: Seq<Option<CpuMinerStatus<H>>>,
    zero: H,
    plus: F,
)
    requires
        forall|i: int| 0 <= i < replies.len() ==> replies[i] is None,
        status.aggregates(replies, zero, plus),
    ensures
        !status.is_mining,
        !status.connection.is_connected,
        status.hash_rate == zero,
    decreases replies.len(),
{
    no_rates_of_silence(replies);
}

proof fn no_rates_of_silence<H>(replies: Seq<Option<CpuMinerStatus<H>>>)
    requires
        forall|i: int| 0 <= i < replies.len() ==> replies[i] is None,
    ensures
        answered_rates(replies) == Seq::<H>::empty(),
    decreases replies.len(),
{
    if replies.len() > 0 {
        no_rates_of_silence(replies.drop_last());
    }
}

/// An instance that does not answer counts for nothing: the status is the same without it.
pub proof fn silent_instance_counts_for_nothing<H, F: Fn(H, H) -> H>(
    status: CpuMinerStatus<H>,
    replies: Seq<Option<CpuMinerStatus<H>>>,
    zero: H,
    plus: F,
    silent: int,
)
    requires
        0 <= silent < replies.len(),
        replies[silent] is None,
    ensures
        status.aggregates(replies, zero, plus) == status.aggregates(
            replies.remove(silent),
            zero,
            plus,
        ),
{
    let rest = replies.remove(silent);
    rates_without_silent(replies, silent);
    assert forall|i: int| 0 <= i < replies.len() && i != silent implies #[trigger] replies[i]
        == rest[if i < silent {
        i
    } else {
        i - 1
    }] by {}
    assert forall|i: int| 0 <= i < rest.len() implies #[trigger] rest[i] == replies[if i < silent {
        i
    } else {
        i + 1
    }] by {}
}

proof fn rates_without_silent<H>(replies: Seq<Option<CpuMinerStatus<H>>>, silent: int)
    requires
        0 <= silent < replies.len(),
        replies[silent] is None,
    ensures
        answered_rates(replies.remove(silent)) == answered_rates(replies),
    decreases replies.len(),
{
    let rest = replies.remove(silent);
    if silent == replies.len() - 1 {
        assert(rest =~= replies.drop_last());
    } else {
        rates_without_silent(replies.drop_last(), silent);
        assert(rest.drop_last() =~= replies.drop_last().remove(silent));
        assert(rest.last() == replies.last());
    }
}

/// Every instance that answers is mining, so the whole is mining exactly where one of them answers.
pub proof fn mining_is_answering<H, F: Fn(H, H) -> H>(
    status: CpuMinerStatus<H>,
    summaries: Seq<Option<Summary<H>>>,
    replies: Seq<Option<CpuMinerStatus<H>>>,
    zero: H,
    plus: F,
)
    requires
        replies == summaries.map_values(
            |summary: Option<Summary<H>>|
                match summary {
                    Some(s) => Some(s.status(zero)),
                    None => None,
                },
        ),
        status.aggregates(replies, zero, plus),
    ensures
        status.is_mining <==> exists|i: int|
            0 <= i < summaries.len() && #[trigger] summaries[i] is Some,
{
    if exists|i: int| 0 <= i < summaries.len() && #[trigger] summaries[i] is Some {
        let i = choose|i: int| 0 <= i < summaries.len() && #[trigger] summaries[i] is Some;
        assert(replies[i] is Some);
    }
}

/// The status of all instances is determined by their replies, where the addition is a function: it
/// does not matter whether a manager or a list of ports was asked for it.
pub proof fn aggregate_is_determined<H, F: Fn(H, H) -> H>(
    a: CpuMinerStatus<H>,
    b: CpuMinerStatus<H>,
    replies: Seq<Option<CpuMinerStatus<H>>>,
    zero: H,
    plus: F,
)
    requires
        forall|x: H, y: H, first: H, second: H|
            call_ensures(plus, (x, y), first) && call_ensures(plus, (x, y), second) ==> first
                == second,
        a.aggregates(replies, zero, plus),
        b.aggregates(replies, zero, plus),
    ensures
        a == b,
{
    let rates = answered_rates(replies);
    let sums_a = choose|sums: Seq<H>| #[trigger]
        running_sums(plus, zero, rates, sums) && sums.last() == a.hash_rate;
    let sums_b = choose|sums: Seq<H>| #[trigger]
        running_sums(plus, zero, rates, sums) && sums.last() == b.hash_rate;
    sums_are_determined(plus, zero, rates, sums_a, sums_b, rates.len() as int);
}

proof fn sums_are_determined<H, F: Fn(H, H) -> H>(
    plus: F,
    zero: H,
    rates: Seq<H>,
    a: Seq<H>,
    b: Seq<H>,
    n: int,
)
    requires
        forall|x: H, y: H, first: H, second: H|
            call_ensures(plus, (x, y), first) && call_ensures(plus, (x, y), second) ==> first
                == second,
        running_sums(plus, zero, rates, a),
        running_sums(plus, zero, rates, b),
        0 <= n <= rates.len(),
    ensures
        a[n] == b[n],
    decreases n,
{
    if n > 0 {
        sums_are_determined(plus, zero, rates, a, b, n - 1);
        assert(call_ensures(plus, (a[n - 1], rates[n - 1]), a[n]));
        assert(call_ensures(plus, (b[n - 1], rates[n - 1]), b[n]));
    }
}

} // verus!
