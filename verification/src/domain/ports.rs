//! What platform adapters exchange with the engine: the events they raise,
//! the flat proposal they render, and the capabilities they offer.

use crate::domain::models::{Event, EventView, Platform, Proposal, ProposalView, Text};
use vstd::prelude::*;
use vstd::string::StringExecFns;

verus! {

/// What a [`BanProposal`] stands for.
pub struct BanProposalView {
    pub target_id: Text,
    pub reason: Text,
    pub requester_id: Text,
    pub origin_platform: Platform,
    pub origin_channel_id: Text,
    pub kind: Text,
}

/// A proposal as adapters render it: no approvers, no timestamp, and the
/// target by its key alone.
#[derive(Debug, PartialEq, Eq)]
pub struct BanProposal {
    pub target_id: String,
    pub reason: String,
    pub requester_id: String,
    pub origin_platform: Platform,
    pub origin_channel_id: String,
    /// Action tag, "ban" or "kick".
    pub kind: String,
}

impl View for BanProposal {
    type V = BanProposalView;

    open spec fn view(&self) -> BanProposalView {
        BanProposalView {
            target_id: self.target_id@,
            reason: self.reason@,
            requester_id: self.requester_id@,
            origin_platform: self.origin_platform,
            origin_channel_id: self.origin_channel_id@,
            kind: self.kind@,
        }
    }
}

impl Clone for BanProposal {
    fn clone(&self) -> (copy: BanProposal)
        ensures
            copy == *self,
    {
        BanProposal {
            target_id: self.target_id.clone(),
            reason: self.reason.clone(),
            requester_id: self.requester_id.clone(),
            origin_platform: self.origin_platform,
            origin_channel_id: self.origin_channel_id.clone(),
            kind: self.kind.clone(),
        }
    }
}

/// The flat form of a pending proposal.
pub open spec fn flatten(p: ProposalView) -> BanProposalView {
    BanProposalView {
        target_id: p.target.raw,
        reason: p.reason,
        requester_id: p.author,
        origin_platform: p.origin,
        origin_channel_id: p.channel,
        kind: p.action,
    }
}

/// The ban request that the direct service files for `target`: a ban for
/// the stock reason, recorded as raised on Discord outside any channel.
pub open spec fn violation_spec(target: Text, requester: Text) -> BanProposalView {
    BanProposalView {
        target_id: target,
        reason: "Violation"@,
        requester_id: requester,
        origin_platform: Platform::Discord,
        origin_channel_id: Seq::empty(),
        kind: "ban"@,
    }
}

impl BanProposal {
    /// The flat form of `p`, addressed by the key it is stored under.
    pub fn from_proposal(p: &Proposal) -> (flat: BanProposal)
        ensures
            flat@ == flatten(p@),
    {
        BanProposal {
            target_id: p.target.raw.clone(),
            reason: p.reason.clone(),
            requester_id: p.author.clone(),
            origin_platform: p.origin,
            origin_channel_id: p.channel.clone(),
            kind: p.action.clone(),
        }
    }

    /// The request that `requester` files against `target` through the
    /// direct service.
    pub fn violation(target: &str, requester: &str) -> (filed: BanProposal)
        ensures
            filed@ == violation_spec(target@, requester@),
    {
        BanProposal {
            target_id: String::from_str(target),
            reason: String::from_str("Violation"),
            requester_id: String::from_str(requester),
            origin_platform: Platform::Discord,
            origin_channel_id: String::new(),
            kind: String::from_str("ban"),
        }
    }
}

/// What adapters raise.
#[derive(Debug, PartialEq, Eq)]
pub enum UrchinEvent {
    /// A staff member asked for an action of `kind` against `target`.
    RequestAction {
        kind: String,
        target: String,
        requester: String,
        origin_platform: Platform,
        origin_channel_id: String,
        reason: String,
    },
    /// A staff member confirmed the pending action against `target`.
    ConfirmAction { target: String, approver: String },
}

/// The engine event that an adapter event stands for.
pub open spec fn event_of(raised: UrchinEvent) -> EventView {
    match raised {
        UrchinEvent::RequestAction {
            kind,
            target,
            requester,
            origin_platform,
            origin_channel_id,
            reason,
        } => EventView::Propose {
            action: kind@,
            target: target@,
            author: requester@,
            origin: origin_platform,
            channel: origin_channel_id@,
            reason: reason@,
        },
        UrchinEvent::ConfirmAction { target, approver } => EventView::Approve {
            target: target@,
            approver: approver@,
        },
    }
}

impl UrchinEvent {
    /// Turns what an adapter raised into the engine's input: a request
    /// proposes, a confirmation approves.
    pub fn into_event(self) -> (event: Event)
        ensures
            event@ == event_of(self),
    {
        match self {
            UrchinEvent::RequestAction {
                kind,
                target,
                requester,
                origin_platform,
                origin_channel_id,
                reason,
            } => Event::Propose {
                action: kind,
                target,
                author: requester,
                origin: origin_platform,
                channel: origin_channel_id,
                reason,
            },
            UrchinEvent::ConfirmAction { target, approver } => Event::Approve { target, approver },
        }
    }
}

/// Why a collaborator could not do what it was asked.
#[derive(Debug, PartialEq, Eq)]
pub struct Failure {
    pub reason: String,
}

/// Durable storage of flat proposals, keyed by target id. Implemented by
/// the surrounding process; nothing is assumed of an implementation.
pub trait BanRepository {
    /// Stores the proposal under its target id.
    fn save_proposal(&self, proposal: BanProposal) -> Result<(), Failure>;

    /// The proposal stored under `target_id`, if any.
    fn get_proposal(&self, target_id: &str) -> Result<Option<BanProposal>, Failure>;

    /// Forgets the proposal stored under `target_id`.
    fn delete_proposal(&self, target_id: &str) -> Result<(), Failure>;
}

/// One platform's outlet. Implemented by the surrounding process; nothing
/// is assumed of an implementation.
pub trait PlatformNotifier {
    /// Shows the proposal somewhere staff can confirm it.
    fn notify_proposal(&self, proposal: &BanProposal) -> Result<(), Failure>;

    /// Performs the approved action.
    fn execute_action(&self, proposal: &BanProposal, approver: &str) -> Result<(), Failure>;

    /// Posts a plain message.
    fn broadcast_alert(&self, message: &str) -> Result<(), Failure>;
}

} // verus!
