//! The direct service: files a ban request and alerts every platform,
//! without a quorum.

use crate::domain::models::Text;
use crate::domain::ports::{
    violation_spec, BanProposal, BanRepository, Failure, PlatformNotifier,
};
use vstd::prelude::*;
use vstd::string::StringExecFns;

verus! {

/// Why the service gave up on a request.
#[derive(Debug, PartialEq, Eq)]
pub enum ServiceError {
    /// The repository failed; no notifier was reached.
    Repository(Failure),
}

/// A notifier that could not take an alert: its place among the
/// notifiers, and what it reported.
pub type Missed = (usize, Failure);

/// Whether the notifier at `index` is among those that failed.
pub open spec fn listed(missed: Seq<Missed>, index: int) -> bool {
    exists|k: int| 0 <= k < missed.len() && (#[trigger] missed[k]).0 == index
}

/// Failures are listed in the order of the notifiers, each notifier once.
pub open spec fn in_order(missed: Seq<Missed>) -> bool {
    forall|j: int, k: int|
        0 <= j < k < missed.len() ==> (#[trigger] missed[j]).0 < (#[trigger] missed[k]).0
}

/// The alert posted when `requester` asks for a ban of `target`.
pub open spec fn ban_alert_spec(target: Text, requester: Text) -> Text {
    "Ban requested for "@ + target + " by "@ + requester
}

/// The alert posted when `requester` asks for a ban of `target`.
pub fn ban_alert(target: &str, requester: &str) -> (message: String)
    ensures
        message@ == ban_alert_spec(target@, requester@),
{
    String::from_str("Ban requested for ").concat(target).concat(" by ").concat(requester)
}

/// The repository, asked for `target_id`, gave `outcome`.
pub open spec fn answered<R: BanRepository>(
    repo: &R,
    target_id: &str,
    outcome: Result<Option<BanProposal>, Failure>,
) -> bool {
    call_ensures(R::get_proposal, (repo, target_id), outcome)
}

/// The repository, handed the request that `requester` files against
/// `target`, gave `outcome`.
pub open spec fn filed<R: BanRepository>(
    repo: &R,
    target: Text,
    requester: Text,
    outcome: Result<(), Failure>,
) -> bool {
    exists|proposal: BanProposal|
        proposal@ == violation_spec(target, requester) && #[trigger] call_ensures(
            R::save_proposal,
            (repo, proposal),
            outcome,
        )
}

/// The notifier, handed the alert that `requester` asks for a ban of
/// `target`, gave `outcome`.
pub open spec fn alerted<N: PlatformNotifier>(
    notifier: &N,
    target: Text,
    requester: Text,
    outcome: Result<(), Failure>,
) -> bool {
    exists|message: &str|
        message@ == ban_alert_spec(target, requester) && #[trigger] call_ensures(
            N::broadcast_alert,
            (notifier, message),
            outcome,
        )
}

/// A repository and the notifiers of every connected platform.
pub struct ConsensusService<R: BanRepository, N: PlatformNotifier> {
    pub repo: R,
    pub notifiers: Vec<N>,
}

impl<R: BanRepository, N: PlatformNotifier> ConsensusService<R, N> {
    /// A service over `repo` that alerts each of `notifiers`.
    pub fn new(repo: R, notifiers: Vec<N>) -> (service: Self)
        ensures
            service.repo == repo,
            service.notifiers == notifiers,
    {
        ConsensusService { repo, notifiers }
    }

    /// Files a ban request by `requester` against `target`, then alerts
    /// every notifier in order.
    ///
    /// Only the repository can fail the request, and then no notifier is
    /// reached. Once the repository took the request, every notifier is
    /// handed the alert whatever the others answered, and the request
    /// succeeds: the notifiers that failed are handed back, for the caller
    /// to log.
    pub fn request_ban(&self, target: &str, requester: &str) -> (res: Result<
        Vec<Missed>,
        ServiceError,
    >)
        ensures
            match res {
                Ok(missed) => {
                    &&& filed(&self.repo, target@, requester@, Ok(()))
                    &&& in_order(missed@)
                    &&& forall|k: int|
                        0 <= k < missed@.len() ==> (#[trigger] missed@[k]).0
                            < self.notifiers@.len() && alerted(
                            &self.notifiers@[missed@[k].0 as int],
                            target@,
                            requester@,
                            Err(missed@[k].1),
                        )
                    &&& forall|i: int|
                        0 <= i < self.notifiers@.len() && !listed(missed@, i) ==> alerted(
                            &#[trigger] self.notifiers@[i],
                            target@,
                            requester@,
                            Ok(()),
                        )
                },
                Err(ServiceError::Repository(failure)) => filed(
                    &self.repo,
                    target@,
                    requester@,
                    Err(failure),
                ),
            },
    {
        let proposal = BanProposal::violation(target, requester);
        let ghost handed = proposal;
        let saved = self.repo.save_proposal(proposal);
        assert(call_ensures(R::save_proposal, (&self.repo, handed), saved));
        match saved {
            Ok(_) => {
                assert(saved->Ok_0 == ());
                assert(saved == Ok::<(), Failure>(saved->Ok_0));
            },
            Err(failure) => {
                return Err(ServiceError::Repository(failure));
            },
        }
        let message = ban_alert(target, requester);
        let mut missed: Vec<Missed> = Vec::new();
        let mut index: usize = 0;
        while index < self.notifiers.len()
            invariant
                index <= self.notifiers@.len(),
                message@ == ban_alert_spec(target@, requester@),
                filed(&self.repo, target@, requester@, Ok(())),
                in_order(missed@),
                forall|k: int|
                    0 <= k < missed@.len() ==> (#[trigger] missed@[k]).0 < index && alerted(
                        &self.notifiers@[missed@[k].0 as int],
                        target@,
                        requester@,
                        Err(missed@[k].1),
                    ),
                forall|i: int|
                    0 <= i < index && !listed(missed@, i) ==> alerted(
                        &#[trigger] self.notifiers@[i],
                        target@,
                        requester@,
                        Ok(()),
                    ),
            decreases self.notifiers@.len() - index,
        {
            let text = message.as_str();
            let sent = self.notifiers[index].broadcast_alert(text);
            assert(call_ensures(N::broadcast_alert, (&self.notifiers@[index as int], text), sent));
            let ghost before = missed@;
            match sent {
                Ok(_) => {
                    assert(sent->Ok_0 == ());
                    assert(sent == Ok::<(), Failure>(sent->Ok_0));
                },
                Err(failure) => {
                    missed.push((index, failure));
                    proof {
                        let last = before.len() as int;
                        assert(missed@[last] == (index, failure));
                        assert forall|k: int| 0 <= k < missed@.len() implies (#[trigger] missed@[k]).0
                            < index + 1 && alerted(
                            &self.notifiers@[missed@[k].0 as int],
                            target@,
                            requester@,
                            Err(missed@[k].1),
                        ) by {
                            if k < last {
                                assert(missed@[k] == before[k]);
                            }
                        }
                        assert forall|j: int, k: int| 0 <= j < k < missed@.len() implies (
                        #[trigger] missed@[j]).0 < (#[trigger] missed@[k]).0 by {
                            assert(missed@[j] == before[j]);
                            if k < last {
                                assert(missed@[k] == before[k]);
                            }
                        }
                        assert forall|i: int| 0 <= i < index && !listed(missed@, i) implies alerted(
                            &#[trigger] self.notifiers@[i],
                            target@,
                            requester@,
                            Ok(()),
                        ) by {
                            if listed(before, i) {
                                let k = choose|k: int| 0 <= k < before.len() && (#[trigger] before[k]).0 == i;
                                assert(missed@[k] == before[k]);
                            }
                        }
                        assert(listed(missed@, index as int));
                    }
                },
            }
            index = index + 1;
        }
        Ok(missed)
    }

    /// Asks the repository what is pending against `target_id`, and hands
    /// its answer on: what it found, or its failure.
    pub fn check_ban_status(&self, target_id: &str) -> (res: Result<
        Option<BanProposal>,
        ServiceError,
    >)
        ensures
            match res {
                Ok(found) => answered(&self.repo, target_id, Ok(found)),
                Err(ServiceError::Repository(failure)) => answered(
                    &self.repo,
                    target_id,
                    Err(failure),
                ),
            },
    {
        match self.repo.get_proposal(target_id) {
            Ok(found) => Ok(found),
            Err(failure) => Err(ServiceError::Repository(failure)),
        }
    }
}

} // verus!
