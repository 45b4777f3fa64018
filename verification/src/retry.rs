//! The retry budget of one request: how many attempts have gone out, and
//! whether another may follow a transport failure.

use vstd::prelude::*;

verus! {

/// Attempts permitted for each request unless configured otherwise.
pub const DEFAULT_ATTEMPTS: u32 = 3;

/// Progress of one request through its retry budget. `made` counts the
/// attempts sent so far, the one in flight included.
#[derive(Clone, Copy, Debug, PartialEq, Eq, Structural)]
pub struct Retry {
    pub max_attempts: u32,
    pub made: u32,
}

impl Retry {
    /// At least one attempt has been sent and the budget is not exceeded.
    pub open spec fn wf(self) -> bool {
        1 <= self.made <= self.max_attempts
    }

    /// The state in which the first attempt has just been sent.
    pub open spec fn spec_start(max_attempts: u32) -> Retry {
        Retry { max_attempts, made: 1 }
    }

    /// The state after the attempt in flight met a transport failure:
    /// one more attempt is sent if the budget allows, else the request is
    /// given up (`None`).
    pub open spec fn failed(self) -> Option<Retry> {
        if self.made < self.max_attempts {
            Some(Retry { max_attempts: self.max_attempts, made: (self.made + 1) as u32 })
        } else {
            None
        }
    }

    /// The state after `failures` attempts in a row met a transport failure.
    pub open spec fn failed_times(self, failures: nat) -> Option<Retry>
        decreases failures,
    {
        if failures == 0 {
            Some(self)
        } else {
            match self.failed_times((failures - 1) as nat) {
                Some(r) => r.failed(),
                None => None,
            }
        }
    }

    /// A request never uses more than its budget: while fewer than
    /// `max_attempts` attempts have failed, exactly one more than have failed
    /// has been sent; with the failure of attempt number `max_attempts` the
    /// request is given up and no further attempt is sent.
    pub proof fn lemma_budget(max_attempts: u32, failures: nat)
        requires
            max_attempts >= 1,
        ensures
            failures < max_attempts ==> Self::spec_start(max_attempts).failed_times(failures)
                == Some(Retry { max_attempts, made: (failures + 1) as u32 }),
            failures >= max_attempts ==> Self::spec_start(max_attempts).failed_times(failures)
                is None,
            Self::spec_start(max_attempts).failed_times(failures) is Some ==> Self::spec_start(
                max_attempts,
            ).failed_times(failures)->0.wf(),
        decreases failures,
    {
        if failures > 0 {
            Self::lemma_budget(max_attempts, (failures - 1) as nat);
        }
    }

    /// Starts the budget of a request whose first attempt is being sent.
    pub fn start(max_attempts: u32) -> (r: Retry)
        requires
            max_attempts >= 1,
        ensures
            r == Self::spec_start(max_attempts),
            r.wf(),
    {
        Retry { max_attempts, made: 1 }
    }

    /// Records a transport failure of the attempt in flight. `Some` means
    /// that another attempt is to be sent, `None` that the budget is spent.
    pub fn on_failure(self) -> (next: Option<Retry>)
        requires
            self.wf(),
        ensures
            next == self.failed(),
            next is Some <==> self.made < self.max_attempts,
            next is Some ==> next->0.wf(),
    {
        if self.made < self.max_attempts {
            Some(Retry { max_attempts: self.max_attempts, made: self.made + 1 })
        } else {
            None
        }
    }
}

} // verus!
