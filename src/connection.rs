use vstd::prelude::*;

verus! {

/// Connect attempts made at most: the first try and two retries.
pub const MAX_ATTEMPTS: u32 = 3;

/// What the caller does next while bringing a device into a connected state.
#[derive(PartialEq, Eq, Structural, Clone, Copy, Debug)]
pub enum NextStep {
    /// Ask the stack to connect once more, then hand the outcome to `record`.
    Attempt,
    /// The device is connected: stop.
    Connected,
    /// The attempts are used up: stop and report the last error.
    GiveUp,
}

/// Bounded retry of a device connection, with no delay between attempts and
/// no distinction between kinds of failure.
pub struct Retry<E> {
    connected: bool,
    attempts: u32,
    last_error: Option<E>,
}

impl<E> Retry<E> {
    pub closed spec fn is_connected(self) -> bool {
        self.connected
    }

    /// Connect attempts made so far.
    pub closed spec fn attempts(self) -> nat {
        self.attempts as nat
    }

    /// The error of the latest failed attempt, if any attempt failed.
    pub closed spec fn last_error(self) -> Option<E> {
        self.last_error
    }

    pub closed spec fn wf(self) -> bool {
        &&& self.attempts <= MAX_ATTEMPTS
        &&& !self.connected && self.attempts > 0 ==> self.last_error is Some
    }

    /// The state before any attempt, given whether the device already reports a connection.
    pub closed spec fn fresh(already_connected: bool) -> Self {
        Retry { connected: already_connected, attempts: 0, last_error: None }
    }

    /// The state after one more attempt with the given outcome.
    pub closed spec fn recorded(self, outcome: Result<(), E>) -> Self {
        Retry {
            connected: outcome is Ok,
            attempts: (self.attempts + 1) as u32,
            last_error: match outcome {
                Ok(_) => self.last_error,
                Err(e) => Some(e),
            },
        }
    }

    pub open spec fn step_spec(self) -> NextStep {
        if self.is_connected() {
            NextStep::Connected
        } else if self.attempts() < MAX_ATTEMPTS {
            NextStep::Attempt
        } else {
            NextStep::GiveUp
        }
    }

    /// What the whole operation reports once it has stopped.
    pub open spec fn result_spec(self) -> Result<(), E> {
        if self.is_connected() {
            Ok(())
        } else {
            Err(self.last_error().unwrap())
        }
    }

    /// The state reached by feeding attempt outcomes in order, for as long as
    /// another attempt is called for; outcomes left over are never asked for.
    pub open spec fn after(self, outcomes: Seq<Result<(), E>>) -> Self
        decreases outcomes.len(),
    {
        if outcomes.len() == 0 || self.step_spec() != NextStep::Attempt {
            self
        } else {
            self.recorded(outcomes[0]).after(outcomes.drop_first())
        }
    }

    /// Starts the procedure; `already_connected` is the device's reported state.
    pub fn new(already_connected: bool) -> (r: Self)
        ensures
            r.wf(),
            r == Self::fresh(already_connected),
            r.is_connected() == already_connected,
            r.attempts() == 0,
            r.last_error() is None,
    {
        Retry { connected: already_connected, attempts: 0, last_error: None }
    }

    pub fn next_step(&self) -> (r: NextStep)
        requires
            self.wf(),
        ensures
            r == self.step_spec(),
    {
        if self.connected {
            NextStep::Connected
        } else if self.attempts < MAX_ATTEMPTS {
            NextStep::Attempt
        } else {
            NextStep::GiveUp
        }
    }

    /// Records the outcome of the attempt that `next_step` asked for.
    pub fn record(&mut self, outcome: Result<(), E>)
        requires
            old(self).wf(),
            old(self).step_spec() == NextStep::Attempt,
        ensures
            final(self).wf(),
            *final(self) == old(self).recorded(outcome),
            final(self).attempts() == old(self).attempts() + 1,
            final(self).is_connected() == outcome is Ok,
            outcome is Err ==> final(self).last_error() == Some(outcome->Err_0),
    {
        self.attempts = self.attempts + 1;
        match outcome {
            Ok(()) => {
                self.connected = true;
            },
            Err(e) => {
                self.connected = false;
                self.last_error = Some(e);
            },
        }
    }

    /// Ends the procedure: success once connected, else the last attempt's error.
    pub fn finish(self) -> (r: Result<(), E>)
        requires
            self.wf(),
            self.step_spec() != NextStep::Attempt,
        ensures
            r == self.result_spec(),
            r is Ok <==> self.is_connected(),
    {
        if self.connected {
            Ok(())
        } else {
            match self.last_error {
                Some(e) => Err(e),
                None => Ok(()),
            }
        }
    }
}

/// A device that already reports a connection is never asked to connect:
/// whatever the stack would answer, no attempt is made and the result is success.
pub proof fn connected_device_needs_no_attempt<E>(outcomes: Seq<Result<(), E>>)
    ensures
        Retry::<E>::fresh(true).after(outcomes) == Retry::<E>::fresh(true),
        Retry::<E>::fresh(true).after(outcomes).attempts() == 0,
        Retry::<E>::fresh(true).after(outcomes).step_spec() == NextStep::Connected,
        Retry::<E>::fresh(true).after(outcomes).result_spec() is Ok,
{
}

/// A device that is not connected, whose connect succeeds on attempt `n` of at
/// most three, ends connected after exactly `n` attempts.
pub proof fn success_on_attempt_n<E>(n: nat, outcomes: Seq<Result<(), E>>)
    requires
        1 <= n <= MAX_ATTEMPTS,
        n <= outcomes.len(),
        forall|k: int| 0 <= k < n - 1 ==> (#[trigger] outcomes[k]) is Err,
        outcomes[n - 1] is Ok,
    ensures
        Retry::<E>::fresh(false).after(outcomes).attempts() == n,
        Retry::<E>::fresh(false).after(outcomes).step_spec() == NextStep::Connected,
        Retry::<E>::fresh(false).after(outcomes).result_spec() is Ok,
{
    let s0 = Retry::<E>::fresh(false);
    let o1 = outcomes.drop_first();
    let s1 = s0.recorded(outcomes[0]);
    assert(s0.after(outcomes) == s1.after(o1));
    if n > 1 {
        assert(o1[0] == outcomes[1]);
        let o2 = o1.drop_first();
        let s2 = s1.recorded(o1[0]);
        assert(s1.after(o1) == s2.after(o2));
        if n > 2 {
            assert(o2[0] == outcomes[2]);
            let s3 = s2.recorded(o2[0]);
            assert(s2.after(o2) == s3.after(o2.drop_first()));
        }
    }
}

/// A device that is not connected, whose first three connect attempts all
/// fail, is asked no more: the result is the third attempt's error, and any
/// later outcome makes no difference.
pub proof fn gives_up_after_third_failure<E>(outcomes: Seq<Result<(), E>>)
    requires
        MAX_ATTEMPTS <= outcomes.len(),
        outcomes[0] is Err,
        outcomes[1] is Err,
        outcomes[2] is Err,
    ensures
        Retry::<E>::fresh(false).after(outcomes).attempts() == MAX_ATTEMPTS,
        Retry::<E>::fresh(false).after(outcomes).step_spec() == NextStep::GiveUp,
        Retry::<E>::fresh(false).after(outcomes).result_spec() == outcomes[2],
        Retry::<E>::fresh(false).after(outcomes) == Retry::<E>::fresh(false).after(
            outcomes.take(3),
        ),
{
    let s0 = Retry::<E>::fresh(false);
    let t = outcomes.take(3);
    let o1 = outcomes.drop_first();
    let o2 = o1.drop_first();
    let o3 = o2.drop_first();
    let t1 = t.drop_first();
    let t2 = t1.drop_first();
    let t3 = t2.drop_first();
    assert(o1[0] == outcomes[1] && o2[0] == outcomes[2]);
    assert(t[0] == outcomes[0] && t1[0] == outcomes[1] && t2[0] == outcomes[2]);
    let s1 = s0.recorded(outcomes[0]);
    let s2 = s1.recorded(outcomes[1]);
    let s3 = s2.recorded(outcomes[2]);
    assert(s0.after(outcomes) == s1.after(o1));
    assert(s1.after(o1) == s2.after(o2));
    assert(s2.after(o2) == s3.after(o3));
    assert(s0.after(t) == s1.after(t1));
    assert(s1.after(t1) == s2.after(t2));
    assert(s2.after(t2) == s3.after(t3));
    assert(s3.step_spec() == NextStep::GiveUp);
}

} // verus!
