//! The configuration of a load run and the plan that follows from it.

use crate::address::{url_parse_error, url_parse_failure};
use crate::text::{join, same_text, to_uppercase, uppercase};
use std::collections::HashMap;
use vstd::prelude::*;

verus! {

/// What the caller asks of one load run.
#[derive(Clone, Debug, PartialEq, Eq)]
pub struct TestConfig {
    /// The target, an absolute URL.
    pub url: String,
    /// The HTTP method, in any letter case.
    pub method: String,
    pub headers: HashMap<String, String>,
    pub body: Option<String>,
    /// How many requests this agent is to issue in all.
    pub requests_per_client: u32,
    /// How many workers issue them side by side.
    pub concurrency: u32,
    /// The time allowed to each request, in milliseconds.
    pub timeout_ms: u32,
}

/// The HTTP methods a run can use.
#[derive(Clone, Copy, Debug, PartialEq, Eq, Structural)]
pub enum HttpMethod {
    Get,
    Post,
    Put,
    Delete,
    Patch,
    Head,
    Options,
}

/// Why a run did not produce a result.
#[derive(Clone, Debug, PartialEq, Eq)]
pub enum EngineError {
    /// The configuration names no usable target or method; nothing was sent.
    InvalidConfig(String),
    /// A worker ended abnormally.
    TaskFailed(String),
}

/// The mathematical content of an [`EngineError`].
pub enum EngineFault {
    InvalidConfig(Seq<char>),
    TaskFailed(Seq<char>),
}

impl View for EngineError {
    type V = EngineFault;

    open spec fn view(&self) -> EngineFault {
        match self {
            EngineError::InvalidConfig(message) => EngineFault::InvalidConfig(message@),
            EngineError::TaskFailed(message) => EngineFault::TaskFailed(message@),
        }
    }
}

impl EngineFault {
    /// The message shown to the user.
    pub open spec fn message(self) -> Seq<char> {
        match self {
            EngineFault::InvalidConfig(message) => message,
            EngineFault::TaskFailed(message) => message,
        }
    }
}

impl EngineError {
    /// The message shown to the user.
    pub fn message(&self) -> (r: String)
        ensures
            r@ == self@.message(),
    {
        match self {
            EngineError::InvalidConfig(message) => message.clone(),
            EngineError::TaskFailed(message) => message.clone(),
        }
    }

    /// The error of a run in which a worker ended abnormally, `detail` being
    /// what is known of its end.
    pub fn task_failed(detail: &str) -> (r: EngineError)
        ensures
            r@ == EngineFault::TaskFailed("Task failed: "@ + detail@),
    {
        EngineError::TaskFailed(join("Task failed: ", detail))
    }
}

/// The method that an upper-case name stands for.
pub open spec fn method_named(upper: Seq<char>) -> Option<HttpMethod> {
    if upper == "GET"@ {
        Some(HttpMethod::Get)
    } else if upper == "POST"@ {
        Some(HttpMethod::Post)
    } else if upper == "PUT"@ {
        Some(HttpMethod::Put)
    } else if upper == "DELETE"@ {
        Some(HttpMethod::Delete)
    } else if upper == "PATCH"@ {
        Some(HttpMethod::Patch)
    } else if upper == "HEAD"@ {
        Some(HttpMethod::Head)
    } else if upper == "OPTIONS"@ {
        Some(HttpMethod::Options)
    } else {
        None
    }
}

/// How many requests each of `workers` workers issues one after another when
/// `requests` are asked for: the whole quotient. What is left over is not
/// issued.
pub open spec fn share(requests: nat, workers: nat) -> nat {
    if workers == 0 {
        0
    } else {
        requests / workers
    }
}

/// The mathematical content of a [`RunPlan`].
pub struct PlanView {
    pub method: HttpMethod,
    pub workers: nat,
    pub requests_per_worker: nat,
    pub timeout_ms: nat,
}

impl PlanView {
    /// How many requests the run issues in all.
    pub open spec fn total_requests(self) -> nat {
        self.workers * self.requests_per_worker
    }
}

/// How a run proceeds: so many workers side by side, each issuing so many
/// requests one after another with the given method.
#[derive(Clone, Copy, Debug, PartialEq, Eq)]
pub struct RunPlan {
    method: HttpMethod,
    workers: u32,
    requests_per_worker: u32,
    timeout_ms: u32,
}

impl View for RunPlan {
    type V = PlanView;

    closed spec fn view(&self) -> PlanView {
        PlanView {
            method: self.method,
            workers: self.workers as nat,
            requests_per_worker: self.requests_per_worker as nat,
            timeout_ms: self.timeout_ms as nat,
        }
    }
}

impl RunPlan {
    #[verifier::type_invariant]
    spec fn fits(self) -> bool {
        self.workers * self.requests_per_worker <= u32::MAX
    }

    pub fn method(&self) -> (r: HttpMethod)
        ensures
            r == self@.method,
    {
        self.method
    }

    pub fn workers(&self) -> (r: u32)
        ensures
            r == self@.workers,
    {
        self.workers
    }

    pub fn requests_per_worker(&self) -> (r: u32)
        ensures
            r == self@.requests_per_worker,
    {
        self.requests_per_worker
    }

    pub fn timeout_ms(&self) -> (r: u32)
        ensures
            r == self@.timeout_ms,
    {
        self.timeout_ms
    }

    /// How many requests the run issues in all.
    pub fn total_requests(&self) -> (r: u32)
        ensures
            r == self@.total_requests(),
    {
        proof {
            use_type_invariant(self);
        }
        self.workers * self.requests_per_worker
    }
}

/// The method that an upper-case name stands for, if it stands for one.
pub fn method_from_upper(upper: &str) -> (r: Option<HttpMethod>)
    ensures
        r == method_named(upper@),
{
    if same_text(upper, "GET") {
        Some(HttpMethod::Get)
    } else if same_text(upper, "POST") {
        Some(HttpMethod::Post)
    } else if same_text(upper, "PUT") {
        Some(HttpMethod::Put)
    } else if same_text(upper, "DELETE") {
        Some(HttpMethod::Delete)
    } else if same_text(upper, "PATCH") {
        Some(HttpMethod::Patch)
    } else if same_text(upper, "HEAD") {
        Some(HttpMethod::Head)
    } else if same_text(upper, "OPTIONS") {
        Some(HttpMethod::Options)
    } else {
        None
    }
}

/// What planning a run comes to, given why the URL parser rejects the
/// target (if it does) and the upper-case form of the method.
///
/// A rejected URL is reported first, then an unknown method. Otherwise the
/// plan has one worker for each unit of concurrency, and each worker's share
/// of the requests.
pub open spec fn plan_of(
    config: TestConfig,
    url_error: Option<Seq<char>>,
    upper_method: Seq<char>,
) -> Result<PlanView, EngineFault> {
    match url_error {
        Some(reason) => Err(EngineFault::InvalidConfig("Invalid URL: "@ + reason)),
        None => match method_named(upper_method) {
            None => Err(
                EngineFault::InvalidConfig("Unsupported HTTP method: "@ + config.method@),
            ),
            Some(method) => Ok(
                PlanView {
                    method,
                    workers: config.concurrency as nat,
                    requests_per_worker: share(
                        config.requests_per_client as nat,
                        config.concurrency as nat,
                    ),
                    timeout_ms: config.timeout_ms as nat,
                },
            ),
        },
    }
}

impl TestConfig {
    /// Plans the run, given what the URL parser said of the target and the
    /// upper-case form of the method.
    pub fn plan_checked(&self, url_error: Option<String>, upper_method: &str) -> (r: Result<
        RunPlan,
        EngineError,
    >)
        ensures
            match r {
                Ok(plan) => plan_of(
                    *self,
                    match url_error {
                        Some(reason) => Some(reason@),
                        None => None,
                    },
                    upper_method@,
                ) == Ok::<PlanView, EngineFault>(plan@),
                Err(e) => plan_of(
                    *self,
                    match url_error {
                        Some(reason) => Some(reason@),
                        None => None,
                    },
                    upper_method@,
                ) == Err::<PlanView, EngineFault>(e@),
            },
    {
        if let Some(reason) = url_error {
            return Err(EngineError::InvalidConfig(join("Invalid URL: ", reason.as_str())));
        }
        match method_from_upper(upper_method) {
            None => Err(
                EngineError::InvalidConfig(
                    join("Unsupported HTTP method: ", self.method.as_str()),
                ),
            ),
            Some(method) => {
                let requests_per_worker: u32 = if self.concurrency == 0 {
                    0
                } else {
                    self.requests_per_client / self.concurrency
                };
                assert(self.concurrency * requests_per_worker <= self.requests_per_client)
                    by (nonlinear_arith)
                    requires
                        requests_per_worker == share(
                            self.requests_per_client as nat,
                            self.concurrency as nat,
                        ),
                ;
                Ok(
                    RunPlan {
                        method,
                        workers: self.concurrency,
                        requests_per_worker,
                        timeout_ms: self.timeout_ms,
                    },
                )
            },
        }
    }

    /// Checks the target and the method and plans the run. Nothing is sent.
    ///
    /// The plan issues `concurrency * floor(requests_per_client /
    /// concurrency)` requests in all.
    pub fn plan(&self) -> (r: Result<RunPlan, EngineError>)
        ensures
            match r {
                Ok(plan) => plan_of(*self, url_parse_error(self.url@), uppercase(self.method@))
                    == Ok::<PlanView, EngineFault>(plan@),
                Err(e) => plan_of(*self, url_parse_error(self.url@), uppercase(self.method@))
                    == Err::<PlanView, EngineFault>(e@),
            },
            r matches Ok(plan) ==> plan@.total_requests() == planned_requests(
                self.requests_per_client as nat,
                self.concurrency as nat,
            ),
    {
        let url_error = url_parse_failure(self.url.as_str());
        let upper = to_uppercase(self.method.as_str());
        self.plan_checked(url_error, upper.as_str())
    }
}

/// How many requests a run issues in all when `requests` are asked of
/// `workers` workers.
pub open spec fn planned_requests(requests: nat, workers: nat) -> nat {
    workers * share(requests, workers)
}

/// A run of `c >= 1` workers that is asked for `r` requests issues
/// `c * floor(r / c)` of them, which is at most `r` and falls short of it
/// by less than `c`.
pub proof fn lemma_planned_requests(r: nat, c: nat)
    requires
        c >= 1,
    ensures
        planned_requests(r, c) == c * (r / c),
        planned_requests(r, c) <= r,
        r - planned_requests(r, c) == r % c,
{
    assert(r == c * (r / c) + r % c) by (nonlinear_arith)
        requires
            c >= 1,
    ;
}

} // verus!
