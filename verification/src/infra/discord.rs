//! What the Discord adapter decides: where a message goes, how a confirm
//! button names its target, and the wording of what it posts.

use crate::domain::models::{
    platform_name, platform_name_spec, Identity, IdentityView, Platform, Proposal, ProposalView,
};
use crate::domain::ports::UrchinEvent;
use crate::text::{
    chars_of, find_from, first_index_of, has_prefix, is_digit, lemma_first_index_is, push_char,
    starts_with, string_of, Text,
};
use vstd::prelude::*;
use vstd::string::StringExecFns;

verus! {

/// Every character is a decimal digit.
pub open spec fn all_digits(text: Text) -> bool {
    forall|i: int| 0 <= i < text.len() ==> is_digit(#[trigger] text[i])
}

/// The number that a digit stands for.
pub open spec fn digit_value(c: char) -> nat {
    (c as u32 - '0' as u32) as nat
}

/// The number that a run of digits stands for, read in base ten.
pub open spec fn decimal(digits: Text) -> nat
    decreases digits.len(),
{
    if digits.len() == 0 {
        0
    } else {
        decimal(digits.drop_last()) * 10 + digit_value(digits.last())
    }
}

/// `text` without one leading plus sign.
pub open spec fn unsigned_part(text: Text) -> Text {
    if text.len() > 0 && text[0] == '+' {
        text.skip(1)
    } else {
        text
    }
}

/// The id that `text` spells: decimal digits, at least one, after an
/// optional plus sign, and a value that fits in 64 bits.
pub open spec fn parse_id_spec(text: Text) -> Option<u64> {
    let digits = unsigned_part(text);
    if digits.len() > 0 && all_digits(digits) && decimal(digits) <= u64::MAX {
        Some(decimal(digits) as u64)
    } else {
        None
    }
}

/// A longer run of digits never stands for a smaller number.
proof fn lemma_decimal_grows(digits: Text, upto: int)
    requires
        0 <= upto <= digits.len(),
    ensures
        decimal(digits.take(upto)) <= decimal(digits),
    decreases digits.len(),
{
    if upto == digits.len() {
        assert(digits.take(upto) =~= digits);
    } else {
        lemma_decimal_grows(digits.drop_last(), upto);
        assert(digits.drop_last().take(upto) =~= digits.take(upto));
    }
}

/// Reads a Discord id: what `str::parse::<u64>` accepts, and the same
/// number.
pub fn parse_id(text: &str) -> (id: Option<u64>)
    ensures
        id == parse_id_spec(text@),
{
    let chars = chars_of(text);
    let start: usize = if chars.len() > 0 && chars[0] == '+' {
        1
    } else {
        0
    };
    let ghost digits = unsigned_part(text@);
    assert(digits =~= chars@.skip(start as int));
    if start == chars.len() {
        return None;
    }
    let mut value: u64 = 0;
    let mut i: usize = start;
    assert(digits.take(0) =~= Seq::<char>::empty());
    while i < chars.len()
        invariant
            start <= i <= chars.len(),
            start < chars.len(),
            chars@ == text@,
            digits == chars@.skip(start as int),
            digits == unsigned_part(text@),
            all_digits(digits.take(i - start)),
            value == decimal(digits.take(i - start)),
        decreases chars.len() - i,
    {
        let c = chars[i];
        let ghost seen = digits.take(i - start);
        let ghost next = digits.take(i - start + 1);
        proof {
            assert(digits[i - start] == c);
            assert(next.drop_last() =~= seen);
            assert(next.last() == c);
        }
        if !(c >= '0' && c <= '9') {
            assert(!is_digit(digits[i - start]));
            return None;
        }
        let d: u64 = (c as u32 - '0' as u32) as u64;
        assert(d == digit_value(c));
        assert(decimal(next) == value * 10 + d);
        let grown = match value.checked_mul(10) {
            Some(tenfold) => tenfold.checked_add(d),
            None => None,
        };
        match grown {
            Some(v) => {
                value = v;
            },
            None => {
                proof {
                    assert(decimal(next) > u64::MAX);
                    lemma_decimal_grows(digits, i - start + 1);
                }
                return None;
            },
        }
        proof {
            assert forall|k: int| 0 <= k < next.len() implies is_digit(#[trigger] next[k]) by {
                if k < seen.len() {
                    assert(next[k] == seen[k]);
                }
            }
        }
        i = i + 1;
    }
    assert(digits.take(chars.len() - start) =~= digits);
    Some(value)
}

/// Where the Discord adapter posts about a proposal.
#[derive(Debug, Clone, Copy, PartialEq, Eq, Structural)]
pub enum Route {
    /// The channel the request was raised in.
    Channel(u64),
    /// The shared log channel.
    Log,
    /// Nowhere: the request is from Discord but names no channel.
    Nowhere,
}

/// Where to post about a proposal raised on `origin` in `channel`.
pub open spec fn route_spec(origin: Platform, channel: Text) -> Route {
    if origin == Platform::Discord {
        match parse_id_spec(channel) {
            Some(id) => Route::Channel(id),
            None => Route::Nowhere,
        }
    } else {
        Route::Log
    }
}

/// Where to post about a proposal raised on `origin` in `channel`: back
/// where it came from when that is on Discord, else in the log channel.
pub fn route(origin: Platform, channel: &str) -> (to: Route)
    ensures
        to == route_spec(origin, channel@),
{
    if origin == Platform::Discord {
        match parse_id(channel) {
            Some(id) => Route::Channel(id),
            None => Route::Nowhere,
        }
    } else {
        Route::Log
    }
}

/// The id of the button that confirms an action of `kind` on `target`.
pub open spec fn confirm_id_spec(kind: Text, target: Text) -> Text {
    "confirm_"@ + kind + seq![':'] + target
}

/// The target named by a button id: for an id that starts with
/// `confirm_`, what stands between its first colon and the next.
pub open spec fn confirm_target_spec(id: Text) -> Option<Text> {
    let colon = first_index_of(id, ':');
    if has_prefix(id, "confirm_"@) && colon < id.len() {
        let rest = id.skip(colon + 1);
        Some(rest.take(first_index_of(rest, ':')))
    } else {
        None
    }
}

/// The id of the button that confirms an action of `kind` on `target`.
pub fn confirm_id(kind: &str, target: &str) -> (id: String)
    ensures
        id@ == confirm_id_spec(kind@, target@),
{
    proof {
        reveal_strlit(":");
        assert(":"@ =~= seq![':']);
    }
    String::from_str("confirm_").concat(kind).concat(":").concat(target)
}

/// The target that the button `id` confirms, if it is a confirm button
/// and names one.
pub fn confirm_target(id: &str) -> (target: Option<String>)
    ensures
        target is Some == confirm_target_spec(id@) is Some,
        target is Some ==> target->0@ == confirm_target_spec(id@)->0,
{
    let chars = chars_of(id);
    let prefix = chars_of("confirm_");
    if !starts_with(&chars, &prefix) {
        return None;
    }
    assert(chars@.skip(0) =~= chars@);
    let colon = find_from(&chars, 0, ':');
    if colon >= chars.len() {
        return None;
    }
    let from = colon + 1;
    let len = find_from(&chars, from, ':');
    let out = string_of(&chars, from, from + len);
    assert(chars@.subrange(from as int, from + len) =~= chars@.skip(from as int).take(len as int));
    Some(out)
}

/// A button made for a target confirms that target, as long as neither
/// the action tag nor the target holds a colon.
pub proof fn law_confirm_id_round_trip(kind: Text, target: Text)
    requires
        !kind.contains(':'),
        !target.contains(':'),
    ensures
        confirm_target_spec(confirm_id_spec(kind, target)) == Some(target),
{
    reveal_strlit("confirm_");
    let prefix = "confirm_"@;
    let id = confirm_id_spec(kind, target);
    let colon: int = (prefix.len() + kind.len()) as int;
    assert(id.take(prefix.len() as int) =~= prefix);
    assert(id[colon] == ':');
    assert forall|i: int| 0 <= i < colon implies id[i] != ':' by {
        if i < prefix.len() {
            assert(id[i] == prefix[i]);
        } else {
            assert(id[i] == kind[i - prefix.len()]);
            assert(kind.contains(kind[i - prefix.len()]));
        }
    }
    lemma_first_index_is(id, ':', colon);
    let rest = id.skip(colon + 1);
    assert(rest =~= target);
    assert forall|i: int| 0 <= i < target.len() implies target[i] != ':' by {
        assert(target.contains(target[i]));
    }
    lemma_first_index_is(target, ':', target.len() as int);
    assert(target.take(target.len() as int) =~= target);
}

/// What the adapter does to the target once a proposal is approved.
#[derive(Debug, Clone, Copy, PartialEq, Eq, Structural)]
pub enum Sanction {
    Ban,
    Kick,
    /// An action tag the adapter does not know; nothing is done.
    Nothing,
}

/// The sanction that an action tag asks for.
pub open spec fn sanction_spec(kind: Text) -> Sanction {
    if kind == "ban"@ {
        Sanction::Ban
    } else if kind == "kick"@ {
        Sanction::Kick
    } else {
        Sanction::Nothing
    }
}

/// The sanction that the action tag `kind` asks for.
pub fn sanction(kind: &str) -> (what: Sanction)
    ensures
        what == sanction_spec(kind@),
{
    let kind = String::from_str(kind);
    if kind == String::from_str("ban") {
        Sanction::Ban
    } else if kind == String::from_str("kick") {
        Sanction::Kick
    } else {
        Sanction::Nothing
    }
}

/// The reason written to the audit log.
pub open spec fn audit_reason_spec(reason: Text, requester: Text, approver: Text) -> Text {
    reason + " | Req: "@ + requester + " | App: "@ + approver
}

/// The reason written to the audit log: why, who asked, who approved.
pub fn audit_reason(reason: &str, requester: &str, approver: &str) -> (line: String)
    ensures
        line@ == audit_reason_spec(reason@, requester@, approver@),
{
    String::from_str(reason).concat(" | Req: ").concat(requester).concat(" | App: ").concat(approver)
}

/// How a user is mentioned.
pub open spec fn mention_spec(target: Text) -> Text {
    "<@"@ + target + ">"@
}

/// The mention of the user `target`.
pub fn mention(target: &str) -> (text: String)
    ensures
        text@ == mention_spec(target@),
{
    String::from_str("<@").concat(target).concat(">")
}

/// The message posted once a sanction has been carried out.
pub open spec fn outcome_spec(what: Sanction, target: Text, reason: Text) -> Option<Text> {
    match what {
        Sanction::Ban => Some(
            "\u{1F528} **Banned** "@ + mention_spec(target) + "\n**Reason:** "@ + reason,
        ),
        Sanction::Kick => Some(
            "\u{1F462} **Kicked** "@ + mention_spec(target) + "\n**Reason:** "@ + reason,
        ),
        Sanction::Nothing => None,
    }
}

/// The message posted once `what` has been carried out against `target`;
/// none where nothing was done.
pub fn outcome(what: Sanction, target: &str, reason: &str) -> (message: Option<String>)
    ensures
        message is Some == outcome_spec(what, target@, reason@) is Some,
        message is Some ==> message->0@ == outcome_spec(what, target@, reason@)->0,
{
    let who = mention(target);
    match what {
        Sanction::Ban => Some(
            String::from_str("\u{1F528} **Banned** ").concat(who.as_str()).concat(
                "\n**Reason:** ",
            ).concat(reason),
        ),
        Sanction::Kick => Some(
            String::from_str("\u{1F462} **Kicked** ").concat(who.as_str()).concat(
                "\n**Reason:** ",
            ).concat(reason),
        ),
        Sanction::Nothing => None,
    }
}

/// The colour of a proposal's embed: red for a ban, orange otherwise.
pub fn embed_colour(kind: &str) -> (colour: u32)
    ensures
        colour == if sanction_spec(kind@) == Sanction::Ban {
            0xFF0000u32
        } else {
            0xFFA500u32
        },
{
    match sanction(kind) {
        Sanction::Ban => 0xFF0000,
        _ => 0xFFA500,
    }
}

/// The sign shown beside a proposal: a hammer for a ban, a boot otherwise.
pub open spec fn emblem_spec(kind: Text) -> char {
    if sanction_spec(kind) == Sanction::Ban {
        '\u{1F528}'
    } else {
        '\u{1F462}'
    }
}

/// The sign shown beside a proposal of `kind`.
pub fn emblem(kind: &str) -> (sign: char)
    ensures
        sign == emblem_spec(kind@),
{
    match sanction(kind) {
        Sanction::Ban => '\u{1F528}',
        _ => '\u{1F462}',
    }
}

/// What `str::to_uppercase` makes of a text.
pub uninterp spec fn uppercase(text: Seq<char>) -> Seq<char>;

/// `str::to_uppercase`: the result is what `uppercase` names.
#[verifier::external_body]
fn to_upper(text: &str) -> (upper: String)
    ensures
        upper@ == uppercase(text@),
{
    text.to_uppercase()
}

/// What a [`Notice`] stands for.
pub struct NoticeView {
    pub title: Text,
    pub colour: u32,
    pub target: Text,
    pub requester: Text,
    pub reason: Text,
    pub footer: Text,
    pub button_id: Text,
    pub button_label: Text,
}

/// Everything the announcement of a proposal shows.
#[derive(Debug, PartialEq, Eq)]
pub struct Notice {
    pub title: String,
    pub colour: u32,
    /// The target, as a mention where its Discord id is known.
    pub target: String,
    pub requester: String,
    pub reason: String,
    pub footer: String,
    /// The id of the confirm button.
    pub button_id: String,
    pub button_label: String,
}

impl View for Notice {
    type V = NoticeView;

    open spec fn view(&self) -> NoticeView {
        NoticeView {
            title: self.title@,
            colour: self.colour,
            target: self.target@,
            requester: self.requester@,
            reason: self.reason@,
            footer: self.footer@,
            button_id: self.button_id@,
            button_label: self.button_label@,
        }
    }
}

/// The text that names a target on Discord: its Discord id where one was
/// resolved, else the target as it was written.
pub open spec fn discord_name_spec(target: IdentityView) -> Text {
    match target.discord {
        Some(id) => id,
        None => target.raw,
    }
}

/// The text that names `target` on Discord.
pub fn discord_name(target: &Identity) -> (name: String)
    ensures
        name@ == discord_name_spec(target@),
{
    match &target.discord {
        Some(id) => id.clone(),
        None => target.raw.clone(),
    }
}

/// How the target of a proposal is shown: its Discord id as a mention
/// where one was resolved, else the target as it was written.
pub open spec fn shown_target_spec(target: IdentityView) -> Text {
    match target.discord {
        Some(id) => mention_spec(id),
        None => target.raw,
    }
}

/// How the target `target` is shown.
pub fn shown_target(target: &Identity) -> (text: String)
    ensures
        text@ == shown_target_spec(target@),
{
    match &target.discord {
        Some(id) => mention(id.as_str()),
        None => target.raw.clone(),
    }
}

/// The announcement of `proposal`, where `upper` is its action tag in
/// upper case. The button names the key the proposal is stored under.
pub open spec fn notice_spec(proposal: ProposalView, upper: Text) -> NoticeView {
    NoticeView {
        title: seq![emblem_spec(proposal.action)] + " "@ + upper + " Proposal"@,
        colour: if sanction_spec(proposal.action) == Sanction::Ban {
            0xFF0000u32
        } else {
            0xFFA500u32
        },
        target: shown_target_spec(proposal.target),
        requester: proposal.author,
        reason: proposal.reason,
        footer: "Origin: "@ + platform_name_spec(proposal.origin),
        button_id: confirm_id_spec(proposal.action, proposal.target.raw),
        button_label: "Confirm "@ + upper,
    }
}

/// Works out the announcement of `proposal`, given its action tag in
/// upper case: its wording, its colour and the button that confirms it.
pub fn notice_from(proposal: &Proposal, upper: &str) -> (shown: Notice)
    ensures
        shown@ == notice_spec(proposal@, upper@),
{
    let origin = platform_name(proposal.origin);
    let mut title = String::new();
    push_char(&mut title, emblem(proposal.action.as_str()));
    assert(title@ =~= seq![emblem_spec(proposal.action@)]);
    Notice {
        title: title.concat(" ").concat(upper).concat(" Proposal"),
        colour: embed_colour(proposal.action.as_str()),
        target: shown_target(&proposal.target),
        requester: proposal.author.clone(),
        reason: proposal.reason.clone(),
        footer: String::from_str("Origin: ").concat(origin.as_str()),
        button_id: confirm_id(proposal.action.as_str(), proposal.target.raw.as_str()),
        button_label: String::from_str("Confirm ").concat(upper),
    }
}

/// Works out the announcement of `proposal`.
pub fn notice(proposal: &Proposal) -> (shown: Notice)
    ensures
        shown@ == notice_spec(proposal@, uppercase(proposal@.action)),
{
    let upper = to_upper(proposal.action.as_str());
    notice_from(proposal, upper.as_str())
}

/// The message that reports a proposal as dropped, where `upper` is its
/// action tag in upper case.
pub open spec fn dropped_notice_spec(proposal: ProposalView, upper: Text, why: Text) -> Text {
    "\u{1F5D1}\u{FE0F} "@ + upper + " proposal for "@ + shown_target_spec(proposal.target)
        + " dropped: "@ + why
}

/// The message that reports `proposal` as dropped and why, given its
/// action tag in upper case.
pub fn dropped_notice_from(proposal: &Proposal, upper: &str, why: &str) -> (message: String)
    ensures
        message@ == dropped_notice_spec(proposal@, upper@, why@),
{
    let target = shown_target(&proposal.target);
    String::from_str("\u{1F5D1}\u{FE0F} ").concat(upper).concat(" proposal for ").concat(
        target.as_str(),
    ).concat(" dropped: ").concat(why)
}

/// The message that reports `proposal` as dropped, and why.
pub fn dropped_notice(proposal: &Proposal, why: &str) -> (message: String)
    ensures
        message@ == dropped_notice_spec(proposal@, uppercase(proposal@.action), why@),
{
    let upper = to_upper(proposal.action.as_str());
    dropped_notice_from(proposal, upper.as_str(), why)
}

/// The reason recorded when a command gives none.
pub open spec fn default_reason() -> Text {
    "No reason provided"@
}

/// The event raised for a slash command `kind` used by `requester` in
/// `channel`: a request on Discord, against the user the command names
/// (empty when it names none), for the reason it gives or the stock one.
pub fn request_of(
    kind: String,
    target: Option<String>,
    reason: Option<String>,
    requester: String,
    channel: String,
) -> (raised: UrchinEvent)
    ensures
        raised matches UrchinEvent::RequestAction {
            kind: k,
            target: t,
            requester: r,
            origin_platform,
            origin_channel_id,
            reason: why,
        } && {
            &&& k == kind
            &&& r == requester
            &&& origin_channel_id == channel
            &&& origin_platform == Platform::Discord
            &&& t@ == match target {
                Some(user) => user@,
                None => Seq::<char>::empty(),
            }
            &&& why@ == match reason {
                Some(text) => text@,
                None => default_reason(),
            }
        },
{
    let target = match target {
        Some(user) => user,
        None => String::new(),
    };
    let reason = match reason {
        Some(text) => text,
        None => String::from_str("No reason provided"),
    };
    UrchinEvent::RequestAction {
        kind,
        target,
        requester,
        origin_platform: Platform::Discord,
        origin_channel_id: channel,
        reason,
    }
}

/// The reply to a command that was taken up.
pub open spec fn logged_reply_spec(target: Text) -> Text {
    "\u{23F3} Proposal Logged. Target: "@ + mention_spec(target)
}

/// The reply to a command against `target` that was taken up.
pub fn logged_reply(target: &str) -> (reply: String)
    ensures
        reply@ == logged_reply_spec(target@),
{
    let who = mention(target);
    String::from_str("\u{23F3} Proposal Logged. Target: ").concat(who.as_str())
}

} // verus!
