//! Waiting for a freshly created instance to be given a usable address.
use vstd::prelude::*;
use crate::ipv4::Ipv4Address;

verus! {

/// How many times a deployment re-reads an instance, one second apart,
/// before it gives up on it being assigned an address.
pub const DEFAULT_MAX_POLLS: u64 = 600;

/// The state of a wait for an address: how many times the instance was
/// re-read so far, and how many re-reads are allowed.
#[derive(Debug, Clone, Copy, PartialEq, Eq, Structural)]
pub struct ReadinessPoller {
    pub polls: u64,
    pub max_polls: u64,
}

/// What to do after one observation of the instance's address.
#[derive(Debug, Clone, Copy, PartialEq, Eq, Structural)]
pub enum PollStep {
    /// Still provisioning: sleep, then read the instance again.
    Wait,
    /// The instance is ready with this address.
    Ready(Ipv4Address),
    /// The allowed re-reads are used up.
    TimedOut,
}

/// An observed address that makes the instance ready: present and not the
/// placeholder `0.0.0.0`.
pub open spec fn is_usable(address: Option<Ipv4Address>) -> bool {
    address matches Some(a) && !a.is_placeholder()
}

/// One transition of the wait.
pub open spec fn poll_step(p: ReadinessPoller, address: Option<Ipv4Address>) -> (
    ReadinessPoller,
    PollStep,
) {
    match address {
        Some(a) if !a.is_placeholder() => (p, PollStep::Ready(a)),
        _ => if p.polls < p.max_polls {
            (ReadinessPoller { polls: (p.polls + 1) as u64, ..p }, PollStep::Wait)
        } else {
            (p, PollStep::TimedOut)
        },
    }
}

/// The wait fed the observations `obs` in turn, up to the first step that
/// is not `Wait`.
pub open spec fn poll_run(p: ReadinessPoller, obs: Seq<Option<Ipv4Address>>) -> (
    ReadinessPoller,
    PollStep,
)
    decreases obs.len(),
{
    if obs.len() == 0 {
        (p, PollStep::Wait)
    } else {
        let (q, s) = poll_step(p, obs[0]);
        if s is Wait {
            poll_run(q, obs.drop_first())
        } else {
            (q, s)
        }
    }
}

impl ReadinessPoller {
    /// A wait that has not re-read the instance yet.
    pub fn new(max_polls: u64) -> (r: Self)
        ensures
            r.polls == 0,
            r.max_polls == max_polls,
    {
        ReadinessPoller { polls: 0, max_polls }
    }

    /// Takes one observation of the instance's address and says what to do
    /// next. The wait ends only on a usable address or when it has used up
    /// its re-reads.
    pub fn observe(&mut self, address: Option<Ipv4Address>) -> (r: PollStep)
        ensures
            (*final(self), r) == poll_step(*old(self), address),
    {
        match address {
            Some(a) => {
                if !a.is_unspecified() {
                    return PollStep::Ready(a);
                }
            },
            None => {},
        }
        if self.polls < self.max_polls {
            self.polls = self.polls + 1;
            PollStep::Wait
        } else {
            PollStep::TimedOut
        }
    }
}

/// A wait becomes ready only on a usable address, and with that address;
/// an unusable observation either keeps it waiting, one re-read further, or
/// ends it as timed out once the re-reads are used up.
pub proof fn lemma_ready_only_on_usable(p: ReadinessPoller, address: Option<Ipv4Address>)
    ensures
        poll_step(p, address).1 matches PollStep::Ready(a) ==> address == Some(a) && is_usable(
            address,
        ),
        !is_usable(address) ==> (poll_step(p, address).1 is Wait && poll_step(p, address).0.polls
            == p.polls + 1) || (poll_step(p, address).1 is TimedOut && p.polls >= p.max_polls),
{
}

/// Fed observations that are all unusable and then a usable address, a
/// wait with enough re-reads left becomes ready with that address exactly
/// once, at the end, after one re-read per unusable observation.
pub proof fn lemma_ready_after_placeholders(
    p: ReadinessPoller,
    pending: Seq<Option<Ipv4Address>>,
    a: Ipv4Address,
)
    requires
        !a.is_placeholder(),
        forall|i: int| 0 <= i < pending.len() ==> !is_usable(#[trigger] pending[i]),
        p.polls + pending.len() <= p.max_polls,
    ensures
        poll_run(p, pending.push(Some(a))) == (
            ReadinessPoller { polls: (p.polls + pending.len()) as u64, ..p },
            PollStep::Ready(a),
        ),
        forall|k: int|
            0 <= k <= pending.len() ==> (#[trigger] poll_run(p, pending.subrange(0, k))).1
                == PollStep::Wait,
    decreases pending.len(),
{
    let obs = pending.push(Some(a));
    if pending.len() == 0 {
        assert(obs.drop_first() =~= Seq::<Option<Ipv4Address>>::empty());
        assert forall|k: int| 0 <= k <= pending.len() implies (#[trigger] poll_run(
            p,
            pending.subrange(0, k),
        )).1 == PollStep::Wait by {
            assert(pending.subrange(0, k) =~= Seq::<Option<Ipv4Address>>::empty());
        }
    } else {
        let q = ReadinessPoller { polls: (p.polls + 1) as u64, ..p };
        assert(!is_usable(pending[0]));
        assert(poll_step(p, obs[0]) == (q, PollStep::Wait));
        let rest = pending.drop_first();
        assert forall|i: int| 0 <= i < rest.len() implies !is_usable(#[trigger] rest[i]) by {
            assert(rest[i] == pending[i + 1]);
        }
        lemma_ready_after_placeholders(q, rest, a);
        assert(obs.drop_first() =~= rest.push(Some(a)));
        assert forall|k: int| 0 <= k <= pending.len() implies (#[trigger] poll_run(
            p,
            pending.subrange(0, k),
        )).1 == PollStep::Wait by {
            if k == 0 {
                assert(pending.subrange(0, k) =~= Seq::<Option<Ipv4Address>>::empty());
            } else {
                assert(pending.subrange(0, k)[0] == pending[0]);
                assert(pending.subrange(0, k).drop_first() =~= rest.subrange(0, k - 1));
                assert(poll_run(q, rest.subrange(0, k - 1)).1 == PollStep::Wait);
            }
        }
    }
}

} // verus!
