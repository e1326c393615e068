//! What the Stoat adapter decides: where a message goes, what it says,
//! and which reactions count as an approval.

use crate::domain::models::{platform_name, platform_name_spec, EventView, Platform};
use crate::domain::ports::{event_of, UrchinEvent};
use crate::text::{chars_of, has_text, opt_text, texts, Text};
use vstd::prelude::*;
use vstd::string::StringExecFns;

verus! {

/// The channel to post in: where the request was raised when that is on
/// Stoat, else the log channel.
pub open spec fn route_spec(origin: Platform, channel: Text, log_channel: Text) -> Text {
    if origin == Platform::Stoat {
        channel
    } else {
        log_channel
    }
}

/// The channel to post in about a proposal raised on `origin` in
/// `channel`.
pub fn route(origin: Platform, channel: &str, log_channel: &str) -> (to: String)
    ensures
        to@ == route_spec(origin, channel@, log_channel@),
{
    if origin == Platform::Stoat {
        String::from_str(channel)
    } else {
        String::from_str(log_channel)
    }
}

/// The message that asks staff to approve.
pub open spec fn proposal_notice_spec(target: Text, reason: Text, origin: Platform) -> Text {
    "**TPI Action Required:**\nTarget: "@ + target + "\nReason: "@ + reason + "\nOrigin: "@
        + platform_name_spec(origin) + "\n\n_React with \u{2705} to approve._"@
}

/// The message that asks staff to approve an action against `target`.
pub fn proposal_notice(target: &str, reason: &str, origin: Platform) -> (message: String)
    ensures
        message@ == proposal_notice_spec(target@, reason@, origin),
{
    let name = platform_name(origin);
    String::from_str("**TPI Action Required:**\nTarget: ").concat(target).concat(
        "\nReason: ",
    ).concat(reason).concat("\nOrigin: ").concat(name.as_str()).concat(
        "\n\n_React with \u{2705} to approve._",
    )
}

/// The message that reports an executed action.
pub open spec fn execution_notice_spec(target: Text, requester: Text, approver: Text) -> Text {
    "**Action Executed:**\nTarget: "@ + target + " handled by "@ + requester + " (Approved by "@
        + approver + ")"@
}

/// The message that reports an executed action against `target`.
pub fn execution_notice(target: &str, requester: &str, approver: &str) -> (message: String)
    ensures
        message@ == execution_notice_spec(target@, requester@, approver@),
{
    String::from_str("**Action Executed:**\nTarget: ").concat(target).concat(" handled by ").concat(
        requester,
    ).concat(" (Approved by ").concat(approver).concat(")")
}

/// The message that reports a proposal as dropped.
pub open spec fn dropped_notice_spec(target: Text, why: Text) -> Text {
    "**Action Dropped:**\nTarget: "@ + target + " ("@ + why + ")"@
}

/// The message that reports the proposal against `target` as dropped, and
/// why.
pub fn dropped_notice(target: &str, why: &str) -> (message: String)
    ensures
        message@ == dropped_notice_spec(target@, why@),
{
    String::from_str("**Action Dropped:**\nTarget: ").concat(target).concat(" (").concat(why).concat(
        ")",
    )
}

/// The check mark that staff react with.
pub const CHECK_MARK: char = '\u{2705}';

/// What a [`Reaction`] stands for.
pub struct ReactionView {
    pub kind: Text,
    pub emoji: Text,
    pub user_id: Text,
    pub message_id: Text,
    pub channel_id: Text,
}

/// A gateway message, reduced to the fields the adapter reads; a field
/// the message lacks is empty.
#[derive(Debug, PartialEq, Eq)]
pub struct Reaction {
    /// The message's type tag.
    pub kind: String,
    pub emoji: String,
    pub user_id: String,
    pub message_id: String,
    pub channel_id: String,
}

impl View for Reaction {
    type V = ReactionView;

    open spec fn view(&self) -> ReactionView {
        ReactionView {
            kind: self.kind@,
            emoji: self.emoji@,
            user_id: self.user_id@,
            message_id: self.message_id@,
            channel_id: self.channel_id@,
        }
    }
}

/// A reaction message whose emoji holds the check mark.
pub open spec fn is_approval_spec(reaction: ReactionView) -> bool {
    reaction.kind == "MessageReact"@ && reaction.emoji.contains(CHECK_MARK)
}

/// Whether the gateway message is a reaction that approves.
pub fn is_approval(reaction: &Reaction) -> (yes: bool)
    ensures
        yes == is_approval_spec(reaction@),
{
    if !(reaction.kind == String::from_str("MessageReact")) {
        return false;
    }
    let emoji = chars_of(reaction.emoji.as_str());
    let mut i: usize = 0;
    while i < emoji.len()
        invariant
            i <= emoji.len(),
            emoji@ == reaction.emoji@,
            reaction.kind@ == "MessageReact"@,
            forall|k: int| 0 <= k < i ==> emoji@[k] != CHECK_MARK,
        decreases emoji.len() - i,
    {
        if emoji[i] == CHECK_MARK {
            assert(reaction.emoji@[i as int] == CHECK_MARK);
            return true;
        }
        i = i + 1;
    }
    false
}

/// What the adapter learned of the reacting member.
#[derive(Debug, PartialEq, Eq)]
pub enum Membership {
    /// The lookup did not come through.
    Unknown,
    /// The member's roles.
    Roles(Vec<String>),
}

/// Whether a member may approve: only one whose roles are known and hold
/// the staff role. A member whose roles could not be looked up was not
/// shown to be staff, and is turned away.
pub open spec fn may_approve_spec(membership: MembershipView, staff_role: Text) -> bool {
    match membership {
        MembershipView::Unknown => false,
        MembershipView::Roles(roles) => roles.contains(staff_role),
    }
}

/// Whether a member may approve.
pub fn may_approve(membership: &Membership, staff_role: &str) -> (yes: bool)
    ensures
        yes == may_approve_spec(membership@, staff_role@),
{
    match membership {
        Membership::Unknown => false,
        Membership::Roles(roles) => has_text(roles, &String::from_str(staff_role)),
    }
}

/// The engine event that a gateway message stands for: an approval of the
/// target recorded for the message reacted to, by the member who reacted,
/// if the message is an approving reaction, the member may approve, and a
/// target was recorded.
pub open spec fn confirmation_of_spec(
    reaction: ReactionView,
    membership: MembershipView,
    staff_role: Text,
    recorded: Option<Text>,
) -> Option<EventView> {
    match recorded {
        Some(target) => if is_approval_spec(reaction) && may_approve_spec(membership, staff_role) {
            Some(EventView::Approve { target, approver: reaction.user_id })
        } else {
            None
        },
        None => None,
    }
}

/// What the listener raises for a gateway message, given what was learned
/// of the member who reacted and the target recorded for the message
/// reacted to, if any.
pub fn confirmation_of(
    reaction: &Reaction,
    membership: &Membership,
    staff_role: &str,
    recorded: Option<String>,
) -> (raised: Option<UrchinEvent>)
    ensures
        match raised {
            Some(event) => confirmation_of_spec(
                reaction@,
                membership@,
                staff_role@,
                opt_text(recorded),
            ) == Some(event_of(event)),
            None => confirmation_of_spec(reaction@, membership@, staff_role@, opt_text(recorded))
                is None,
        },
{
    match recorded {
        Some(target) => {
            if is_approval(reaction) && may_approve(membership, staff_role) {
                Some(UrchinEvent::ConfirmAction { target, approver: reaction.user_id.clone() })
            } else {
                None
            }
        },
        None => None,
    }
}

/// Views of a list of optional strings, element by element.
pub open spec fn opt_texts(values: Seq<Option<String>>) -> Seq<Option<Text>> {
    Seq::new(values.len(), |i: int| opt_text(values[i]))
}

/// View of what was read of a document's string members.
pub open spec fn members_view(found: Option<Vec<Option<String>>>) -> Option<Seq<Option<Text>>> {
    match found {
        Some(values) => Some(opt_texts(values@)),
        None => None,
    }
}

/// View of what was read of a document's list member.
pub open spec fn items_view(found: Option<Option<Vec<Option<String>>>>) -> Option<
    Option<Seq<Option<Text>>>,
> {
    match found {
        Some(Some(items)) => Some(Some(opt_texts(items@))),
        Some(None) => Some(None),
        None => None,
    }
}

/// What `serde_json` reads of the members `names` of the JSON text
/// `document`: nothing when the text is not JSON; else, for each name in
/// turn, the string stored under it in the top-level object, if there is
/// such a member and it is a string.
pub uninterp spec fn json_strings(document: Seq<char>, names: Seq<Seq<char>>) -> Option<
    Seq<Option<Seq<char>>>,
>;

/// What `serde_json` reads of the list member `name` of the JSON text
/// `document`: nothing when the text is not JSON; else the member's items
/// if it is a list, each item by the string it holds, if it is one.
pub uninterp spec fn json_string_items(document: Seq<char>, name: Seq<char>) -> Option<
    Option<Seq<Option<Seq<char>>>>,
>;

/// `serde_json::from_str::<Value>`, then `Value::get` and `Value::as_str`
/// for each name: the result is what `json_strings` names, one entry for
/// each name asked for.
#[verifier::external_body]
fn string_members(document: &str, names: &Vec<String>) -> (found: Option<Vec<Option<String>>>)
    ensures
        members_view(found) == json_strings(document@, texts(names@)),
        found matches Some(values) ==> values@.len() == names@.len(),
{
    let value: serde_json::Value = serde_json::from_str(document).ok()?;
    Some(
        names.iter().map(|name| value.get(name).and_then(|v| v.as_str()).map(String::from)).collect(),
    )
}

/// `serde_json::from_str::<Value>`, then `Value::get`, `Value::as_array`
/// and, for each item, `Value::as_str`: the result is what
/// `json_string_items` names.
#[verifier::external_body]
fn string_items(document: &str, name: &str) -> (found: Option<Option<Vec<Option<String>>>>)
    ensures
        items_view(found) == json_string_items(document@, name@),
{
    let value: serde_json::Value = serde_json::from_str(document).ok()?;
    Some(
        value.get(name).and_then(|v| v.as_array()).map(
            |items| items.iter().map(|item| item.as_str().map(String::from)).collect(),
        ),
    )
}

/// The text of an entry, empty where there is none.
pub open spec fn text_or_empty(value: Option<Text>) -> Text {
    match value {
        Some(text) => text,
        None => Seq::empty(),
    }
}

/// The member names that make up a reaction, in the order of its fields.
pub open spec fn reaction_fields() -> Seq<Text> {
    seq!["type"@, "emoji_id"@, "user_id"@, "id"@, "channel_id"@]
}

/// The reaction that the members read from a gateway message make up:
/// none unless all five were asked for.
pub open spec fn reaction_from_spec(found: Option<Seq<Option<Text>>>) -> Option<ReactionView> {
    match found {
        Some(values) => if values.len() == 5 {
            Some(
                ReactionView {
                    kind: text_or_empty(values[0]),
                    emoji: text_or_empty(values[1]),
                    user_id: text_or_empty(values[2]),
                    message_id: text_or_empty(values[3]),
                    channel_id: text_or_empty(values[4]),
                },
            )
        } else {
            None
        },
        None => None,
    }
}

/// View of an optional reaction.
pub open spec fn opt_reaction(value: Option<Reaction>) -> Option<ReactionView> {
    match value {
        Some(r) => Some(r@),
        None => None,
    }
}

/// A copy of the entry at `at`, empty where there is none.
fn entry(values: &Vec<Option<String>>, at: usize) -> (text: String)
    requires
        at < values@.len(),
    ensures
        text@ == text_or_empty(opt_texts(values@)[at as int]),
{
    match &values[at] {
        Some(text) => text.clone(),
        None => String::new(),
    }
}

/// Makes a reaction of the members read from a gateway message, in the
/// order type, emoji, user, message, channel; a member the message lacks
/// is empty.
pub fn reaction_from(found: Option<Vec<Option<String>>>) -> (reaction: Option<Reaction>)
    ensures
        opt_reaction(reaction) == reaction_from_spec(members_view(found)),
{
    match found {
        Some(values) => {
            if values.len() == 5 {
                Some(
                    Reaction {
                        kind: entry(&values, 0),
                        emoji: entry(&values, 1),
                        user_id: entry(&values, 2),
                        message_id: entry(&values, 3),
                        channel_id: entry(&values, 4),
                    },
                )
            } else {
                None
            }
        },
        None => None,
    }
}

/// Reads a gateway message: none when it is not JSON, else the reaction
/// made of its string members.
pub fn read_reaction(message: &str) -> (reaction: Option<Reaction>)
    ensures
        opt_reaction(reaction) == reaction_from_spec(json_strings(message@, reaction_fields())),
{
    let mut names: Vec<String> = Vec::new();
    names.push(String::from_str("type"));
    names.push(String::from_str("emoji_id"));
    names.push(String::from_str("user_id"));
    names.push(String::from_str("id"));
    names.push(String::from_str("channel_id"));
    assert(texts(names@) =~= reaction_fields());
    reaction_from(string_members(message, &names))
}

/// The one string asked for, if the document is JSON and holds it.
pub open spec fn single_spec(found: Option<Seq<Option<Text>>>) -> Option<Text> {
    match found {
        Some(values) => if values.len() == 1 {
            values[0]
        } else {
            None
        },
        None => None,
    }
}

/// The one string member read from a document, if any.
pub fn single(found: Option<Vec<Option<String>>>) -> (text: Option<String>)
    ensures
        opt_text(text) == single_spec(members_view(found)),
{
    match found {
        Some(values) => {
            if values.len() == 1 {
                values[0].clone()
            } else {
                None
            }
        },
        None => None,
    }
}

/// Reads the string member `name` of the JSON text `document`.
pub fn read_string(document: &str, name: &str) -> (text: Option<String>)
    ensures
        opt_text(text) == single_spec(json_strings(document@, seq![name@])),
{
    let mut names: Vec<String> = Vec::new();
    names.push(String::from_str(name));
    assert(texts(names@) =~= seq![name@]);
    single(string_members(document, &names))
}

/// The strings among `items`, in order.
pub open spec fn present(items: Seq<Option<Text>>) -> Seq<Text>
    decreases items.len(),
{
    if items.len() == 0 {
        Seq::empty()
    } else {
        match items.last() {
            Some(text) => present(items.drop_last()).push(text),
            None => present(items.drop_last()),
        }
    }
}

/// What a [`Membership`] stands for.
pub enum MembershipView {
    Unknown,
    Roles(Seq<Text>),
}

impl View for Membership {
    type V = MembershipView;

    open spec fn view(&self) -> MembershipView {
        match *self {
            Membership::Unknown => MembershipView::Unknown,
            Membership::Roles(roles) => MembershipView::Roles(texts(roles@)),
        }
    }
}

/// What a member record tells of the member's roles: unknown when the
/// record is not JSON; no role when it holds no list of roles; else the
/// strings in that list.
pub open spec fn membership_from_spec(found: Option<Option<Seq<Option<Text>>>>) -> MembershipView {
    match found {
        None => MembershipView::Unknown,
        Some(None) => MembershipView::Roles(Seq::empty()),
        Some(Some(items)) => MembershipView::Roles(present(items)),
    }
}

/// Makes a membership of the roles read from a member record.
pub fn membership_from(found: Option<Option<Vec<Option<String>>>>) -> (membership: Membership)
    ensures
        membership@ == membership_from_spec(items_view(found)),
{
    match found {
        None => Membership::Unknown,
        Some(None) => {
            let roles: Vec<String> = Vec::new();
            assert(texts(roles@) =~= Seq::<Text>::empty());
            Membership::Roles(roles)
        },
        Some(Some(items)) => {
            let ghost all = opt_texts(items@);
            let mut roles: Vec<String> = Vec::new();
            let mut i: usize = 0;
            assert(texts(roles@) =~= Seq::<Text>::empty());
            assert(all.take(0) =~= Seq::<Option<Text>>::empty());
            while i < items.len()
                invariant
                    i <= items.len(),
                    all == opt_texts(items@),
                    texts(roles@) == present(all.take(i as int)),
                decreases items.len() - i,
            {
                let ghost so_far = texts(roles@);
                proof {
                    assert(all.take(i + 1).drop_last() =~= all.take(i as int));
                    assert(all.take(i + 1).last() == opt_text(items@[i as int]));
                }
                match &items[i] {
                    Some(role) => {
                        let copy = role.clone();
                        roles.push(copy);
                        assert(texts(roles@) =~= so_far.push(copy@));
                    },
                    None => {},
                }
                i = i + 1;
            }
            assert(all.take(items.len() as int) =~= all);
            Membership::Roles(roles)
        },
    }
}

/// Reads a member record: the member's roles, as far as the record tells.
pub fn read_membership(record: &str) -> (membership: Membership)
    ensures
        membership@ == membership_from_spec(json_string_items(record@, "roles"@)),
{
    membership_from(string_items(record, "roles"))
}

} // verus!
