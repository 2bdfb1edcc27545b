//! Output devices, and the order of the calls that make one of them the
//! default.
//!
//! The platform keeps a default output for each of three roles. Making a
//! device the default means: instantiate the platform's policy object, ask it
//! for its extended interface, assign the device to each role in turn, and
//! release the interface. `SwitchSession` decides which call comes next and
//! what the whole attempt amounts to; the caller makes the calls.

use vstd::prelude::*;

verus! {

/// An output device: its endpoint id and its display name.
#[derive(Debug, PartialEq, Eq)]
pub struct AudioDevice {
    pub id: String,
    pub name: String,
}

/// One of the three contexts for which the platform keeps a default output.
#[derive(Clone, Copy, Debug, PartialEq, Eq, Structural)]
pub enum Role {
    /// Interactive use.
    Console,
    /// Music and video.
    Multimedia,
    /// Voice calls.
    Communications,
}

impl Role {
    /// The number by which the platform knows the role.
    pub open spec fn index(self) -> int {
        match self {
            Role::Console => 0,
            Role::Multimedia => 1,
            Role::Communications => 2,
        }
    }

    /// The role that is assigned after this one, if any.
    pub open spec fn following(self) -> Option<Role> {
        match self {
            Role::Console => Some(Role::Multimedia),
            Role::Multimedia => Some(Role::Communications),
            Role::Communications => None,
        }
    }

    /// The number by which the platform knows the role.
    pub fn number(self) -> (r: u32)
        ensures
            r == self.index(),
    {
        match self {
            Role::Console => 0,
            Role::Multimedia => 1,
            Role::Communications => 2,
        }
    }

    /// The role that is assigned after this one, if any.
    pub fn next(self) -> (r: Option<Role>)
        ensures
            r == self.following(),
    {
        match self {
            Role::Console => Some(Role::Multimedia),
            Role::Multimedia => Some(Role::Communications),
            Role::Communications => None,
        }
    }
}

/// Why an attempt to change the default output failed. Each variant carries
/// the status code of the call that failed.
#[derive(Clone, Copy, Debug, PartialEq, Eq, Structural)]
pub enum SwitchError {
    /// The policy object could not be instantiated.
    Activation { code: i32 },
    /// The policy object does not offer the extended interface: switching
    /// as a whole may not work on this system.
    InterfaceUnavailable { code: i32 },
    /// The device could not be assigned to `role`. The roles before it have
    /// been assigned, those after it have not been tried.
    RoleSet { role: Role, code: i32 },
}

/// The call that the caller of a `SwitchSession` has to make next.
#[derive(Clone, Copy, Debug, PartialEq, Eq)]
pub enum SwitchStep {
    /// Instantiate the policy object.
    Activate,
    /// Ask the policy object for its extended interface.
    Negotiate,
    /// Make the device the default for the role.
    Assign(Role),
    /// Release the extended interface.
    Release,
    /// Nothing: the attempt is over, with this result.
    Done(Result<(), SwitchError>),
}

/// How far an attempt to change the default output has come.
#[derive(Clone, Copy, Debug, PartialEq, Eq)]
pub enum SwitchSession {
    /// The policy object is being instantiated.
    Activating,
    /// The extended interface is being asked for.
    Negotiating,
    /// The interface is held, and the device is being assigned to the role.
    Assigning(Role),
    /// The interface is held and is being released; the result is settled.
    Releasing(Result<(), SwitchError>),
    /// The attempt is over and no interface is held.
    Finished(Result<(), SwitchError>),
}

impl SwitchSession {
    /// The call that is due in this state.
    pub open spec fn step(self) -> SwitchStep {
        match self {
            SwitchSession::Activating => SwitchStep::Activate,
            SwitchSession::Negotiating => SwitchStep::Negotiate,
            SwitchSession::Assigning(role) => SwitchStep::Assign(role),
            SwitchSession::Releasing(_) => SwitchStep::Release,
            SwitchSession::Finished(result) => SwitchStep::Done(result),
        }
    }

    /// The state after the call that was due has returned `outcome`.
    ///
    /// A failure before the interface is held ends the attempt. Once it is
    /// held, the roles are assigned in order up to the first failure, and
    /// the interface is released whether or not one failed. What the
    /// release itself returns is not looked at.
    pub open spec fn after(self, outcome: Result<(), i32>) -> SwitchSession {
        match self {
            SwitchSession::Activating => match outcome {
                Ok(_) => SwitchSession::Negotiating,
                Err(code) => SwitchSession::Finished(Err(SwitchError::Activation { code })),
            },
            SwitchSession::Negotiating => match outcome {
                Ok(_) => SwitchSession::Assigning(Role::Console),
                Err(code) => SwitchSession::Finished(
                    Err(SwitchError::InterfaceUnavailable { code }),
                ),
            },
            SwitchSession::Assigning(role) => match outcome {
                Ok(_) => match role.following() {
                    Some(next) => SwitchSession::Assigning(next),
                    None => SwitchSession::Releasing(Ok(())),
                },
                Err(code) => SwitchSession::Releasing(Err(SwitchError::RoleSet { role, code })),
            },
            SwitchSession::Releasing(result) => SwitchSession::Finished(result),
            SwitchSession::Finished(result) => SwitchSession::Finished(result),
        }
    }

    /// Whether the extended interface is held in this state.
    pub open spec fn holds_interface(self) -> bool {
        self is Assigning || self is Releasing
    }

    /// A new attempt, of which no call has been made yet.
    pub fn begin() -> (r: SwitchSession)
        ensures
            r == SwitchSession::Activating,
    {
        SwitchSession::Activating
    }

    /// The call that is due.
    pub fn pending(&self) -> (r: SwitchStep)
        ensures
            r == self.step(),
    {
        match self {
            SwitchSession::Activating => SwitchStep::Activate,
            SwitchSession::Negotiating => SwitchStep::Negotiate,
            SwitchSession::Assigning(role) => SwitchStep::Assign(*role),
            SwitchSession::Releasing(_) => SwitchStep::Release,
            SwitchSession::Finished(result) => SwitchStep::Done(*result),
        }
    }

    /// Takes note of what the call that was due returned.
    pub fn advance(&mut self, outcome: Result<(), i32>)
        ensures
            *final(self) == old(self).after(outcome),
    {
        let next: SwitchSession = match *self {
            SwitchSession::Activating => match outcome {
                Ok(_) => SwitchSession::Negotiating,
                Err(code) => SwitchSession::Finished(Err(SwitchError::Activation { code })),
            },
            SwitchSession::Negotiating => match outcome {
                Ok(_) => SwitchSession::Assigning(Role::Console),
                Err(code) => SwitchSession::Finished(
                    Err(SwitchError::InterfaceUnavailable { code }),
                ),
            },
            SwitchSession::Assigning(role) => match outcome {
                Ok(_) => match role.next() {
                    Some(next) => SwitchSession::Assigning(next),
                    None => SwitchSession::Releasing(Ok(())),
                },
                Err(code) => SwitchSession::Releasing(Err(SwitchError::RoleSet { role, code })),
            },
            SwitchSession::Releasing(result) => SwitchSession::Finished(result),
            SwitchSession::Finished(result) => SwitchSession::Finished(result),
        };
        *self = next;
    }
}

/// The state that a session is in after its calls have returned
/// `outcomes`, one after the other.
pub open spec fn run(start: SwitchSession, outcomes: Seq<Result<(), i32>>) -> SwitchSession
    decreases outcomes.len(),
{
    if outcomes.len() == 0 {
        start
    } else {
        run(start.after(outcomes[0]), outcomes.skip(1))
    }
}

/// The result of an attempt is decided by the first call that fails: a
/// failed instantiation or negotiation is reported as such, a failed
/// assignment is reported with the role that it was for, and an attempt in
/// which none of them fails succeeds. What the release returns changes
/// nothing.
pub proof fn lemma_first_failure_decides(code: i32, release: Result<(), i32>)
    ensures
        SwitchSession::Activating.after(Err(code)) == SwitchSession::Finished(
            Err(SwitchError::Activation { code }),
        ),
        SwitchSession::Activating.after(Ok(())).after(Err(code)) == SwitchSession::Finished(
            Err(SwitchError::InterfaceUnavailable { code }),
        ),
        ({
            let held = SwitchSession::Activating.after(Ok(())).after(Ok(()));
            &&& held.after(Err(code)).after(release) == SwitchSession::Finished(
                Err(SwitchError::RoleSet { role: Role::Console, code }),
            )
            &&& held.after(Ok(())).after(Err(code)).after(release) == SwitchSession::Finished(
                Err(SwitchError::RoleSet { role: Role::Multimedia, code }),
            )
            &&& held.after(Ok(())).after(Ok(())).after(Err(code)).after(release)
                == SwitchSession::Finished(
                Err(SwitchError::RoleSet { role: Role::Communications, code }),
            )
            &&& held.after(Ok(())).after(Ok(())).after(Ok(())).after(release)
                == SwitchSession::Finished(Ok(()))
        }),
{
}

/// The extended interface is held from a successful negotiation to the
/// release and at no other time: nothing but a successful negotiation
/// acquires it, nothing but the release gives it up, the release is due
/// once, directly after the last assignment that is tried, and a finished
/// attempt holds nothing.
pub proof fn lemma_interface_released_once(s: SwitchSession, outcome: Result<(), i32>)
    ensures
        !s.holds_interface() && s.after(outcome).holds_interface() ==> s is Negotiating
            && outcome is Ok,
        s.holds_interface() && !s.after(outcome).holds_interface() ==> s.step()
            == SwitchStep::Release,
        s.step() == SwitchStep::Release ==> s.after(outcome) is Finished,
        s.after(outcome).step() == SwitchStep::Release ==> s is Assigning,
        s is Finished ==> !s.holds_interface() && s.after(outcome) == s,
{
}

/// Every attempt is over after six calls at most.
pub proof fn lemma_attempt_ends(outcomes: Seq<Result<(), i32>>)
    requires
        outcomes.len() >= 6,
    ensures
        run(SwitchSession::Activating, outcomes) is Finished,
{
    let first = outcomes.take(6);
    lemma_run_split(SwitchSession::Activating, outcomes, 6);
    assert(run(SwitchSession::Activating, first) is Finished) by {
        reveal_with_fuel(run, 7);
        assert(first.skip(1)[0] == first[1]);
        assert(first.skip(1).skip(1)[0] == first[2]);
        assert(first.skip(1).skip(1).skip(1)[0] == first[3]);
        assert(first.skip(1).skip(1).skip(1).skip(1)[0] == first[4]);
        assert(first.skip(1).skip(1).skip(1).skip(1).skip(1)[0] == first[5]);
        assert(first.skip(1).skip(1).skip(1).skip(1).skip(1).skip(1).len() == 0);
    }
    lemma_finished_stays(run(SwitchSession::Activating, first), outcomes.skip(6));
}

proof fn lemma_finished_stays(s: SwitchSession, outcomes: Seq<Result<(), i32>>)
    requires
        s is Finished,
    ensures
        run(s, outcomes) == s,
    decreases outcomes.len(),
{
    if outcomes.len() > 0 {
        lemma_finished_stays(s, outcomes.skip(1));
    }
}

proof fn lemma_run_split(s: SwitchSession, outcomes: Seq<Result<(), i32>>, k: int)
    requires
        0 <= k <= outcomes.len(),
    ensures
        run(s, outcomes) == run(run(s, outcomes.take(k)), outcomes.skip(k)),
    decreases k,
{
    if k == 0 {
        assert(outcomes.skip(0) =~= outcomes);
    } else {
        assert(outcomes.take(k)[0] == outcomes[0]);
        assert(outcomes.take(k).skip(1) =~= outcomes.skip(1).take(k - 1));
        assert(outcomes.skip(1).skip(k - 1) =~= outcomes.skip(k));
        lemma_run_split(s.after(outcomes[0]), outcomes.skip(1), k - 1);
    }
}

/// The default output of each role, by endpoint id: what an attempt to
/// change the default can be seen to have done.
pub struct Defaults {
    pub console: Seq<char>,
    pub multimedia: Seq<char>,
    pub communications: Seq<char>,
}

impl Defaults {
    /// The default output of `role`.
    pub open spec fn of(self, role: Role) -> Seq<char> {
        match role {
            Role::Console => self.console,
            Role::Multimedia => self.multimedia,
            Role::Communications => self.communications,
        }
    }

    /// The defaults after `device` has been assigned to `role`.
    pub open spec fn assign(self, role: Role, device: Seq<char>) -> Defaults {
        match role {
            Role::Console => Defaults { console: device, ..self },
            Role::Multimedia => Defaults { multimedia: device, ..self },
            Role::Communications => Defaults { communications: device, ..self },
        }
    }

    /// The defaults after the call that was due in state `s` of an attempt
    /// for `device` has returned `outcome`: an assignment that succeeds
    /// takes effect, and nothing else changes anything.
    pub open spec fn after_call(
        self,
        s: SwitchSession,
        outcome: Result<(), i32>,
        device: Seq<char>,
    ) -> Defaults {
        match s {
            SwitchSession::Assigning(role) => if outcome is Ok {
                self.assign(role, device)
            } else {
                self
            },
            _ => self,
        }
    }

    /// The defaults after an attempt for `device` whose calls, from state
    /// `s` on, return `outcomes`.
    pub open spec fn after_run(
        self,
        s: SwitchSession,
        outcomes: Seq<Result<(), i32>>,
        device: Seq<char>,
    ) -> Defaults
        decreases outcomes.len(),
    {
        if outcomes.len() == 0 {
            self
        } else {
            self.after_call(s, outcomes[0], device).after_run(
                s.after(outcomes[0]),
                outcomes.skip(1),
                device,
            )
        }
    }
}

/// Assigning a device to a role whose default it already is changes
/// nothing, so an assignment can be made again without effect.
pub proof fn lemma_reassignment_changes_nothing(d: Defaults, role: Role, device: Seq<char>)
    ensures
        d.of(role) == device ==> d.assign(role, device) == d,
        d.assign(role, device).assign(role, device) == d.assign(role, device),
        d.assign(role, device).of(role) == device,
        forall|other: Role| other != role ==> d.assign(role, device).of(other) == d.of(other),
{
}

/// An attempt that fails at the second role leaves the first role assigned
/// and the other two as they were; a second attempt for the same device
/// changes nothing for the first role, however far it gets.
pub proof fn lemma_retry_after_partial_failure(
    d: Defaults,
    device: Seq<char>,
    code: i32,
    release: Result<(), i32>,
    retry: Seq<Result<(), i32>>,
)
    ensures
        ({
            let first = seq![Ok(()), Ok(()), Ok(()), Err(code), release];
            let left = d.after_run(SwitchSession::Activating, first, device);
            &&& run(SwitchSession::Activating, first) == SwitchSession::Finished(
                Err(SwitchError::RoleSet { role: Role::Multimedia, code }),
            )
            &&& left == d.assign(Role::Console, device)
            &&& left.after_run(SwitchSession::Activating, retry, device).console == device
        }),
{
    let first = seq![Ok(()), Ok(()), Ok(()), Err(code), release];
    let s0 = SwitchSession::Activating;
    reveal_with_fuel(run, 6);
    reveal_with_fuel(Defaults::after_run, 6);
    assert(first.skip(1)[0] == first[1]);
    assert(first.skip(1).skip(1)[0] == first[2]);
    assert(first.skip(1).skip(1).skip(1)[0] == first[3]);
    assert(first.skip(1).skip(1).skip(1).skip(1)[0] == first[4]);
    assert(first.skip(1).skip(1).skip(1).skip(1).skip(1).len() == 0);
    let left = d.after_run(s0, first, device);
    lemma_run_keeps_device(left, s0, retry, device, Role::Console);
}

/// A role whose default is `device` keeps it through any attempt for
/// `device`.
pub proof fn lemma_run_keeps_device(
    d: Defaults,
    s: SwitchSession,
    outcomes: Seq<Result<(), i32>>,
    device: Seq<char>,
    role: Role,
)
    requires
        d.of(role) == device,
    ensures
        d.after_run(s, outcomes, device).of(role) == device,
    decreases outcomes.len(),
{
    if outcomes.len() > 0 {
        lemma_run_keeps_device(
            d.after_call(s, outcomes[0], device),
            s.after(outcomes[0]),
            outcomes.skip(1),
            device,
            role,
        );
    }
}

} // verus!
