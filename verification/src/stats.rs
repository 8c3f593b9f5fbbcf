//! The statistics of one load run.
//!
//! A [`TestResult`] starts empty, takes the outcome of each request as it
//! completes, and is closed with the run's wall-clock duration. All times are
//! whole microseconds. What a result holds is described by its view, a
//! [`Report`], and every operation is stated as a function on reports.

use crate::text::join;
use std::collections::HashMap;
use vstd::prelude::*;

verus! {

broadcast use vstd::std_specs::hash::group_hash_axioms;

/// The value that `min_response_time` holds while no response has been timed.
pub const NO_SAMPLE: u64 = 0xffff_ffff_ffff_ffff;

/// The throughput reported for requests that completed in no measurable time.
pub const UNBOUNDED_THROUGHPUT: u64 = 0xffff_ffff_ffff_ffff;

/// How one request ended.
#[derive(Clone, Copy, Debug, PartialEq, Eq)]
pub enum Outcome {
    /// The server answered with `status` after `elapsed_micros` microseconds.
    Response { status: u16, elapsed_micros: u64 },
    /// No answer arrived: the transport failed or the request timed out.
    TransportError,
}

/// Whether a status code reports success (the 2xx range).
pub open spec fn is_success(status: u16) -> bool {
    200 <= status < 300
}

/// The mathematical content of a [`TestResult`].
#[verifier::ext_equal]
pub struct Report {
    pub total_requests: nat,
    pub successful_requests: nat,
    pub failed_requests: nat,
    pub transport_errors: nat,
    pub min_response_time: nat,
    pub max_response_time: nat,
    pub avg_response_time: nat,
    pub total_response_time: nat,
    pub status_codes: Map<u16, nat>,
    pub duration: nat,
    pub throughput: nat,
    pub test_id: Seq<char>,
    pub timestamp: nat,
}

impl Report {
    /// The report of a run in which nothing has happened yet.
    pub open spec fn fresh(test_id: Seq<char>, timestamp: nat) -> Report {
        Report {
            total_requests: 0,
            successful_requests: 0,
            failed_requests: 0,
            transport_errors: 0,
            min_response_time: NO_SAMPLE as nat,
            max_response_time: 0,
            avg_response_time: 0,
            total_response_time: 0,
            status_codes: Map::empty(),
            duration: 0,
            throughput: 0,
            test_id,
            timestamp,
        }
    }

    /// How many requests were answered, whatever the status.
    pub open spec fn timed(self) -> int {
        self.total_requests - self.transport_errors
    }

    /// How often `status` was seen.
    pub open spec fn count_of(self, status: u16) -> nat {
        if self.status_codes.dom().contains(status) {
            self.status_codes[status]
        } else {
            0
        }
    }

    /// The report after one more request has ended with `outcome`.
    ///
    /// A transport error counts as a failed request and leaves the timing
    /// untouched. An answer counts as successful or failed by its status,
    /// is counted under its status code, and enters the timing.
    pub open spec fn record(self, outcome: Outcome) -> Report {
        match outcome {
            Outcome::TransportError => Report {
                total_requests: self.total_requests + 1,
                failed_requests: self.failed_requests + 1,
                transport_errors: self.transport_errors + 1,
                ..self
            },
            Outcome::Response { status, elapsed_micros } => Report {
                total_requests: self.total_requests + 1,
                successful_requests: if is_success(status) {
                    self.successful_requests + 1
                } else {
                    self.successful_requests
                },
                failed_requests: if is_success(status) {
                    self.failed_requests
                } else {
                    self.failed_requests + 1
                },
                min_response_time: if elapsed_micros < self.min_response_time {
                    elapsed_micros as nat
                } else {
                    self.min_response_time
                },
                max_response_time: if elapsed_micros > self.max_response_time {
                    elapsed_micros as nat
                } else {
                    self.max_response_time
                },
                total_response_time: self.total_response_time + elapsed_micros as nat,
                status_codes: self.status_codes.insert(status, self.count_of(status) + 1),
                ..self
            },
        }
    }

    /// The report after the requests of `outcomes` have ended, in that order.
    pub open spec fn record_all(self, outcomes: Seq<Outcome>) -> Report
        decreases outcomes.len(),
    {
        if outcomes.len() == 0 {
            self
        } else {
            self.record_all(outcomes.drop_last()).record(outcomes.last())
        }
    }

    /// The average response time that a closed report shows: the summed
    /// response time over all requests, and 0 when there was none.
    pub open spec fn average(self) -> nat {
        if self.total_requests == 0 {
            0
        } else {
            self.total_response_time / self.total_requests
        }
    }

    /// The throughput that a report closed after `duration` microseconds
    /// shows, in thousandths of a request per second: 0 when there was no
    /// request, and [`UNBOUNDED_THROUGHPUT`] when requests took no time.
    pub open spec fn rate(self, duration: nat) -> nat {
        if self.total_requests == 0 {
            0
        } else if duration == 0 {
            UNBOUNDED_THROUGHPUT as nat
        } else {
            self.total_requests * 1_000_000_000 / duration
        }
    }

    /// The report closed after `duration` microseconds of wall-clock time.
    pub open spec fn finalize(self, duration: nat) -> Report {
        Report {
            duration,
            avg_response_time: self.average(),
            throughput: self.rate(duration),
            min_response_time: if self.timed() == 0 {
                0
            } else {
                self.min_response_time
            },
            ..self
        }
    }

    /// What holds of every report that the operations of this module build.
    pub open spec fn well_formed(self) -> bool {
        &&& self.successful_requests + self.failed_requests == self.total_requests
        &&& self.transport_errors <= self.failed_requests
        &&& self.status_codes.dom().finite()
        &&& forall|status: u16| #[trigger] self.count_of(status) <= self.timed()
        &&& self.timed() * self.min_response_time <= self.total_response_time
        &&& self.total_response_time <= self.timed() * self.max_response_time
        &&& self.max_response_time <= u64::MAX
    }
}

/// The outcome of one run: counts, timing in microseconds, and how often
/// each status code was seen.
#[derive(Debug)]
pub struct TestResult {
    pub total_requests: u32,
    pub successful_requests: u32,
    /// Requests that ended in a transport error or a status outside 2xx.
    pub failed_requests: u32,
    /// Requests that ended in a transport error.
    pub transport_errors: u32,
    /// [`NO_SAMPLE`] while no response has been timed.
    pub min_response_time: u64,
    pub max_response_time: u64,
    pub avg_response_time: u64,
    pub total_response_time: u128,
    pub status_codes: HashMap<u16, u32>,
    pub duration: u64,
    /// Thousandths of a request per second.
    pub throughput: u64,
    pub test_id: String,
    /// Seconds since the Unix epoch.
    pub timestamp: u64,
}

impl View for TestResult {
    type V = Report;

    open spec fn view(&self) -> Report {
        Report {
            total_requests: self.total_requests as nat,
            successful_requests: self.successful_requests as nat,
            failed_requests: self.failed_requests as nat,
            transport_errors: self.transport_errors as nat,
            min_response_time: self.min_response_time as nat,
            max_response_time: self.max_response_time as nat,
            avg_response_time: self.avg_response_time as nat,
            total_response_time: self.total_response_time as nat,
            status_codes: self.status_codes@.map_values(|c: u32| c as nat),
            duration: self.duration as nat,
            throughput: self.throughput as nat,
            test_id: self.test_id@,
            timestamp: self.timestamp as nat,
        }
    }
}

/// The decimal digit for a number below ten.
pub open spec fn digit(d: nat) -> char
    recommends
        d < 10,
{
    if d == 0 {
        '0'
    } else if d == 1 {
        '1'
    } else if d == 2 {
        '2'
    } else if d == 3 {
        '3'
    } else if d == 4 {
        '4'
    } else if d == 5 {
        '5'
    } else if d == 6 {
        '6'
    } else if d == 7 {
        '7'
    } else if d == 8 {
        '8'
    } else {
        '9'
    }
}

/// A number in decimal digits, without leading zeros.
pub open spec fn decimal(n: nat) -> Seq<char>
    decreases n,
{
    if n < 10 {
        seq![digit(n)]
    } else {
        decimal(n / 10).push(digit(n % 10))
    }
}

fn digit_text(d: u16) -> (r: &'static str)
    requires
        d < 10,
    ensures
        r@ == seq![digit(d as nat)],
{
    proof {
        reveal_strlit("0");
        reveal_strlit("1");
        reveal_strlit("2");
        reveal_strlit("3");
        reveal_strlit("4");
        reveal_strlit("5");
        reveal_strlit("6");
        reveal_strlit("7");
        reveal_strlit("8");
        reveal_strlit("9");
    }
    let r = if d == 0 {
        "0"
    } else if d == 1 {
        "1"
    } else if d == 2 {
        "2"
    } else if d == 3 {
        "3"
    } else if d == 4 {
        "4"
    } else if d == 5 {
        "5"
    } else if d == 6 {
        "6"
    } else if d == 7 {
        "7"
    } else if d == 8 {
        "8"
    } else {
        "9"
    };
    assert(r@ =~= seq![digit(d as nat)]);
    r
}

/// The label under which answers with `status` are counted where labels
/// are texts: the status code in decimal digits.
pub fn status_label(status: u16) -> (r: String)
    ensures
        r@ == decimal(status as nat),
    decreases status,
{
    if status < 10 {
        digit_text(status).to_owned()
    } else {
        let front = status_label(status / 10);
        let r = join(front.as_str(), digit_text(status % 10));
        assert(r@ =~= decimal(status as nat));
        r
    }
}

/// The label under which transport errors are counted where labels are
/// texts.
pub fn error_label() -> (r: String)
    ensures
        r@ == "error"@,
{
    "error".to_owned()
}

/// A new version-4 UUID in its hyphenated form, from `uuid::Uuid::new_v4`
/// and the `Display` of `Uuid`. The identifier is random; of every outcome
/// only its length is stated: 32 hexadecimal digits and 4 hyphens.
#[verifier::external_body]
fn fresh_test_id() -> (r: String)
    ensures
        r@.len() == 36,
{
    uuid::Uuid::new_v4().to_string()
}

/// The current time as `chrono::Utc::now().timestamp()` gives it: seconds
/// since the Unix epoch. Nothing is stated of a clock's reading. `Utc::now`
/// does not return on a machine whose clock stands before 1970.
#[verifier::external_body]
fn unix_seconds() -> (r: i64) {
    chrono::Utc::now().timestamp()
}

/// A signed count of seconds read as an unsigned one: itself when it is not
/// negative, and 2^64 more when it is.
pub open spec fn as_unsigned(seconds: i64) -> nat {
    if seconds >= 0 {
        seconds as nat
    } else {
        (seconds + 0x1_0000_0000_0000_0000) as nat
    }
}

/// The timestamp that a result carries for a clock reading of `seconds`.
pub fn timestamp_from(seconds: i64) -> (r: u64)
    ensures
        r == as_unsigned(seconds),
{
    if seconds >= 0 {
        seconds as u64
    } else {
        let below: u64 = (-(seconds + 1)) as u64;
        u64::MAX - below
    }
}

impl TestResult {
    /// The result of a run in which nothing has happened yet.
    pub fn new(test_id: String, timestamp: u64) -> (r: TestResult)
        ensures
            r@ == Report::fresh(test_id@, timestamp as nat),
            r@.well_formed(),
    {
        let r = TestResult {
            total_requests: 0,
            successful_requests: 0,
            failed_requests: 0,
            transport_errors: 0,
            min_response_time: NO_SAMPLE,
            max_response_time: 0,
            avg_response_time: 0,
            total_response_time: 0,
            status_codes: HashMap::new(),
            duration: 0,
            throughput: 0,
            test_id,
            timestamp,
        };
        assert(r@.status_codes =~= Map::<u16, nat>::empty());
        r
    }

    /// Takes in the outcome of one more request.
    pub fn record(&mut self, outcome: Outcome)
        requires
            old(self)@.well_formed(),
            old(self).total_requests < u32::MAX,
        ensures
            final(self)@ == old(self)@.record(outcome),
            final(self)@.well_formed(),
    {
        proof {
            lemma_record_well_formed(self@, outcome);
        }
        let ghost before = self@;
        self.total_requests = self.total_requests + 1;
        match outcome {
            Outcome::TransportError => {
                self.failed_requests = self.failed_requests + 1;
                self.transport_errors = self.transport_errors + 1;
            },
            Outcome::Response { status, elapsed_micros } => {
                let seen: u32 = match self.status_codes.get(&status) {
                    Some(count) => *count,
                    None => 0,
                };
                assert(seen == before.count_of(status));
                self.status_codes.insert(status, seen + 1);
                if 200 <= status && status < 300 {
                    self.successful_requests = self.successful_requests + 1;
                } else {
                    self.failed_requests = self.failed_requests + 1;
                }
                if elapsed_micros < self.min_response_time {
                    self.min_response_time = elapsed_micros;
                }
                if elapsed_micros > self.max_response_time {
                    self.max_response_time = elapsed_micros;
                }
                assert(before.total_response_time + elapsed_micros <= u128::MAX) by {
                    assert(before.timed() * before.max_response_time <= 0x1_0000_0000
                        * 0x1_0000_0000_0000_0000) by (nonlinear_arith)
                        requires
                            0 <= before.timed() <= 0x1_0000_0000,
                            0 <= before.max_response_time <= 0x1_0000_0000_0000_0000,
                    ;
                }
                self.total_response_time = self.total_response_time + elapsed_micros as u128;
                assert(self@.status_codes =~= before.record(outcome).status_codes);
            },
        }
    }

    /// Closes the result after `duration_micros` microseconds of wall-clock
    /// time: sets the duration, the average response time (the summed
    /// response time over all requests) and the throughput, both 0 when
    /// there was no request, and a minimum of 0 when nothing was timed.
    pub fn finalize(&mut self, duration_micros: u64)
        requires
            old(self)@.well_formed(),
        ensures
            final(self)@ == old(self)@.finalize(duration_micros as nat),
            final(self)@.well_formed(),
    {
        let ghost before = self@;
        self.duration = duration_micros;
        if self.total_requests > 0 {
            let total: u128 = self.total_requests as u128;
            let average: u128 = self.total_response_time / total;
            assert(average <= before.max_response_time) by {
                let n = before.total_requests as int;
                let t = before.timed();
                let m = before.max_response_time as int;
                let sum = before.total_response_time as int;
                assert(t * m <= n * m) by (nonlinear_arith)
                    requires
                        0 <= t <= n,
                        0 <= m,
                ;
                assert(sum / n <= m) by (nonlinear_arith)
                    requires
                        0 <= sum <= n * m,
                        0 < n,
                ;
            }
            self.avg_response_time = average as u64;
            if duration_micros == 0 {
                self.throughput = UNBOUNDED_THROUGHPUT;
            } else {
                let scaled: u64 = self.total_requests as u64 * 1_000_000_000;
                self.throughput = scaled / duration_micros;
            }
        } else {
            self.avg_response_time = 0;
            self.throughput = 0;
        }
        if self.total_requests == self.transport_errors {
            self.min_response_time = 0;
        }
        proof {
            let after = self@;
            assert(after.status_codes == before.status_codes);
            if before.timed() == 0 {
                assert(after.timed() * after.min_response_time == 0) by (nonlinear_arith)
                    requires
                        after.min_response_time == 0,
                ;
            }
            assert forall|status: u16| #[trigger] after.count_of(status) <= after.timed() by {
                assert(after.count_of(status) == before.count_of(status));
            }
        }
    }

    /// The closed result of a run whose requests ended with `outcomes`, in
    /// that order, within `duration_micros` microseconds.
    pub fn from_outcomes(
        outcomes: &Vec<Outcome>,
        duration_micros: u64,
        test_id: String,
        timestamp: u64,
    ) -> (r: TestResult)
        requires
            outcomes.len() <= u32::MAX,
        ensures
            r@ == Report::fresh(test_id@, timestamp as nat).record_all(outcomes@).finalize(
                duration_micros as nat,
            ),
            r@.well_formed(),
            r.total_requests == outcomes.len(),
            r.successful_requests + r.failed_requests == r.total_requests,
    {
        let ghost start = Report::fresh(test_id@, timestamp as nat);
        let mut result = TestResult::new(test_id, timestamp);
        let n = outcomes.len();
        let mut i: usize = 0;
        assert(outcomes@.take(0) =~= Seq::<Outcome>::empty());
        while i < n
            invariant
                n == outcomes.len(),
                n <= u32::MAX,
                i <= n,
                result@ == start.record_all(outcomes@.take(i as int)),
                result@.well_formed(),
                result.total_requests == i,
            decreases n - i,
        {
            proof {
                lemma_record_all_step(start, outcomes@, i as int);
            }
            result.record(outcomes[i]);
            i = i + 1;
        }
        assert(outcomes@.take(n as int) =~= outcomes@);
        result.finalize(duration_micros);
        result
    }
}

impl Default for TestResult {
    /// An empty result under a new random identifier, stamped with the
    /// current time.
    fn default() -> (r: TestResult)
        ensures
            r@ == Report::fresh(r.test_id@, r.timestamp as nat),
            r.test_id@.len() == 36,
    {
        let test_id = fresh_test_id();
        let seconds = unix_seconds();
        TestResult::new(test_id, timestamp_from(seconds))
    }
}

/// Recording the outcomes up to and including the one at `i` is recording
/// those before `i` and then that one.
pub proof fn lemma_record_all_step(start: Report, outcomes: Seq<Outcome>, i: int)
    requires
        0 <= i < outcomes.len(),
    ensures
        start.record_all(outcomes.take(i + 1)) == start.record_all(outcomes.take(i)).record(
            outcomes[i],
        ),
{
    assert(outcomes.take(i + 1).drop_last() =~= outcomes.take(i));
}

/// One more outcome keeps a report well formed and adds one request.
pub proof fn lemma_record_well_formed(before: Report, outcome: Outcome)
    requires
        before.well_formed(),
    ensures
        before.record(outcome).well_formed(),
        before.record(outcome).total_requests == before.total_requests + 1,
{
    let after = before.record(outcome);
    match outcome {
        Outcome::TransportError => {
            assert forall|status: u16| #[trigger] after.count_of(status) <= after.timed() by {
                assert(after.count_of(status) == before.count_of(status));
            }
        },
        Outcome::Response { status, elapsed_micros } => {
            assert forall|other: u16| #[trigger] after.count_of(other) <= after.timed() by {
                assert(before.count_of(other) <= before.timed());
            }
            let n = before.timed();
            let e = elapsed_micros as int;
            let lo = after.min_response_time as int;
            let hi = after.max_response_time as int;
            assert(n * lo <= n * before.min_response_time) by (nonlinear_arith)
                requires
                    0 <= n,
                    lo <= before.min_response_time,
            ;
            assert(n * before.max_response_time <= n * hi) by (nonlinear_arith)
                requires
                    0 <= n,
                    before.max_response_time <= hi,
            ;
            assert((n + 1) * lo == n * lo + lo) by (nonlinear_arith);
            assert((n + 1) * hi == n * hi + hi) by (nonlinear_arith);
        },
    }
}

/// However a run went, every request is counted exactly once, as successful
/// or as failed: the report of `outcomes` is well formed, and its total is
/// the number of outcomes.
pub proof fn lemma_counts_balance(test_id: Seq<char>, timestamp: nat, outcomes: Seq<Outcome>)
    ensures
        Report::fresh(test_id, timestamp).record_all(outcomes).well_formed(),
        Report::fresh(test_id, timestamp).record_all(outcomes).total_requests == outcomes.len(),
        ({
            let r = Report::fresh(test_id, timestamp).record_all(outcomes);
            r.successful_requests + r.failed_requests == r.total_requests
        }),
    decreases outcomes.len(),
{
    let start = Report::fresh(test_id, timestamp);
    if outcomes.len() == 0 {
        assert(start.well_formed());
    } else {
        lemma_counts_balance(test_id, timestamp, outcomes.drop_last());
        lemma_record_well_formed(start.record_all(outcomes.drop_last()), outcomes.last());
    }
}

/// Closing a report changes neither the counts nor their balance.
pub proof fn lemma_finalize_keeps_counts(report: Report, duration: nat)
    requires
        report.successful_requests + report.failed_requests == report.total_requests,
    ensures
        ({
            let closed = report.finalize(duration);
            &&& closed.total_requests == report.total_requests
            &&& closed.successful_requests + closed.failed_requests == closed.total_requests
        }),
{
}

/// A run in which every request ended in a transport error has timed
/// nothing.
pub proof fn lemma_transport_errors_time_nothing(
    test_id: Seq<char>,
    timestamp: nat,
    outcomes: Seq<Outcome>,
)
    requires
        forall|i: int| 0 <= i < outcomes.len() ==> outcomes[i] == Outcome::TransportError,
    ensures
        Report::fresh(test_id, timestamp).record_all(outcomes).timed() == 0,
        Report::fresh(test_id, timestamp).record_all(outcomes).failed_requests == outcomes.len(),
    decreases outcomes.len(),
{
    if outcomes.len() > 0 {
        lemma_transport_errors_time_nothing(test_id, timestamp, outcomes.drop_last());
    }
}

/// When every request of a run ends in a transport error, the closed report
/// shows a minimum response time of 0, not [`NO_SAMPLE`].
pub proof fn lemma_all_failed_min_is_zero(
    test_id: Seq<char>,
    timestamp: nat,
    outcomes: Seq<Outcome>,
    duration: nat,
)
    requires
        forall|i: int| 0 <= i < outcomes.len() ==> outcomes[i] == Outcome::TransportError,
    ensures
        Report::fresh(test_id, timestamp).record_all(outcomes).finalize(
            duration,
        ).min_response_time == 0,
{
    lemma_transport_errors_time_nothing(test_id, timestamp, outcomes);
}

/// A closed report without requests shows a throughput of 0 and an average
/// response time of 0, whatever else it holds.
pub proof fn lemma_no_requests_no_rates(report: Report, duration: nat)
    requires
        report.total_requests == 0,
    ensures
        report.finalize(duration).throughput == 0,
        report.finalize(duration).avg_response_time == 0,
{
}

} // verus!
