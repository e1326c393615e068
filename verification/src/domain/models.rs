//! Proposals, identities and events, each with the mathematical value that
//! contracts speak of.

pub use crate::text::{opt_text, texts, Text};
use vstd::prelude::*;
use vstd::string::StringExecFns;

verus! {

/// The platforms a request can come from.
#[derive(Debug, Clone, Copy, PartialEq, Eq, Structural)]
pub enum Platform {
    Discord,
    Stoat,
}

/// A platform's name.
pub open spec fn platform_name_spec(platform: Platform) -> Text {
    match platform {
        Platform::Discord => "Discord"@,
        Platform::Stoat => "Stoat"@,
    }
}

/// A platform's name, as messages show it.
pub fn platform_name(platform: Platform) -> (name: String)
    ensures
        name@ == platform_name_spec(platform),
{
    match platform {
        Platform::Discord => String::from_str("Discord"),
        Platform::Stoat => String::from_str("Stoat"),
    }
}

/// What an [`Identity`] stands for.
pub struct IdentityView {
    pub raw: Text,
    pub discord: Option<Text>,
    pub stoat: Option<Text>,
}

/// One moderation target, addressable on every platform that recognises it.
#[derive(Debug, PartialEq, Eq)]
pub struct Identity {
    /// The target exactly as the requester wrote it; the storage key.
    pub raw: String,
    /// The target's Discord id, when one could be inferred.
    pub discord: Option<String>,
    /// The target's Stoat id, when one could be inferred.
    pub stoat: Option<String>,
}

impl View for Identity {
    type V = IdentityView;

    open spec fn view(&self) -> IdentityView {
        IdentityView {
            raw: self.raw@,
            discord: opt_text(self.discord),
            stoat: opt_text(self.stoat),
        }
    }
}

impl Clone for Identity {
    fn clone(&self) -> (copy: Identity)
        ensures
            copy == *self,
    {
        Identity {
            raw: self.raw.clone(),
            discord: self.discord.clone(),
            stoat: self.stoat.clone(),
        }
    }
}

/// What a [`Proposal`] stands for.
pub struct ProposalView {
    pub target: IdentityView,
    pub action: Text,
    pub reason: Text,
    pub author: Text,
    pub origin: Platform,
    pub channel: Text,
    pub approvers: Seq<Text>,
    pub timestamp: u64,
}

impl ProposalView {
    /// The key under which the proposal is stored.
    pub open spec fn key(self) -> Text {
        self.target.raw
    }

    /// Approvers form a set, and the author is never among them.
    pub open spec fn well_formed(self) -> bool {
        &&& self.approvers.no_duplicates()
        &&& !self.approvers.contains(self.author)
    }

    /// The proposal with `approver` counted once.
    pub open spec fn with_approver(self, approver: Text) -> ProposalView {
        if self.approvers.contains(approver) {
            self
        } else {
            ProposalView { approvers: self.approvers.push(approver), ..self }
        }
    }

    /// Whether the proposal is older than `expiry` seconds at time `now`.
    pub open spec fn expired(self, now: u64, expiry: u64) -> bool {
        now > self.timestamp + expiry
    }
}

/// A pending request to act on a target, awaiting quorum.
#[derive(Debug, PartialEq, Eq)]
pub struct Proposal {
    pub target: Identity,
    /// Action tag such as "ban" or "kick"; opaque to the engine.
    pub action: String,
    pub reason: String,
    /// Who asked for the action.
    pub author: String,
    /// Platform the request was raised on.
    pub origin: Platform,
    /// Where on the origin platform it was raised; opaque to the engine.
    pub channel: String,
    /// Distinct approvers, in the order they approved.
    pub approvers: Vec<String>,
    /// Creation time, seconds since the epoch.
    pub timestamp: u64,
}

impl View for Proposal {
    type V = ProposalView;

    open spec fn view(&self) -> ProposalView {
        ProposalView {
            target: self.target@,
            action: self.action@,
            reason: self.reason@,
            author: self.author@,
            origin: self.origin,
            channel: self.channel@,
            approvers: texts(self.approvers@),
            timestamp: self.timestamp,
        }
    }
}

impl Clone for Proposal {
    fn clone(&self) -> (copy: Proposal)
        ensures
            copy@ == self@,
    {
        let copy = Proposal {
            target: self.target.clone(),
            action: self.action.clone(),
            reason: self.reason.clone(),
            author: self.author.clone(),
            origin: self.origin,
            channel: self.channel.clone(),
            approvers: self.approvers.clone(),
            timestamp: self.timestamp,
        };
        assert(texts(copy.approvers@) =~= texts(self.approvers@));
        copy
    }
}

/// View of an optional proposal.
pub open spec fn opt_proposal(value: Option<Proposal>) -> Option<ProposalView> {
    match value {
        Some(p) => Some(p@),
        None => None,
    }
}

/// Views of a list of proposals, element by element.
pub open spec fn proposal_views(values: Seq<Proposal>) -> Seq<ProposalView> {
    Seq::new(values.len(), |i: int| values[i]@)
}

/// What an [`Event`] stands for.
pub enum EventView {
    Propose { action: Text, target: Text, author: Text, origin: Platform, channel: Text, reason: Text },
    Approve { target: Text, approver: Text },
    Cancel { target: Text, author: Text },
    Sweep,
}

/// The engine's only input.
#[derive(Debug, PartialEq, Eq)]
pub enum Event {
    /// Somebody asks for `action` against `target`.
    Propose {
        action: String,
        target: String,
        author: String,
        origin: Platform,
        channel: String,
        reason: String,
    },
    /// `approver` confirms the pending proposal on `target`.
    Approve { target: String, approver: String },
    /// `author` withdraws the pending proposal on `target`.
    Cancel { target: String, author: String },
    /// The periodic timer fired.
    Sweep,
}

impl View for Event {
    type V = EventView;

    open spec fn view(&self) -> EventView {
        match *self {
            Event::Propose { action, target, author, origin, channel, reason } => EventView::Propose {
                action: action@,
                target: target@,
                author: author@,
                origin,
                channel: channel@,
                reason: reason@,
            },
            Event::Approve { target, approver } => EventView::Approve {
                target: target@,
                approver: approver@,
            },
            Event::Cancel { target, author } => EventView::Cancel { target: target@, author: author@ },
            Event::Sweep => EventView::Sweep,
        }
    }
}

} // verus!
