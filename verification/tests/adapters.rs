use urchin::domain::models::{platform_name, Identity, Platform, Proposal};
use urchin::infra::discord::{
    audit_reason, confirm_id, confirm_target, embed_colour, mention, outcome, parse_id, sanction,
    Route, Sanction,
};
use urchin::infra::stoat::{
    execution_notice, is_approval, may_approve, proposal_notice, read_membership, read_reaction,
    read_string, reaction_from, single, Membership, Reaction,
};
use urchin::infra::store::{sift, Record, Scan};

#[test]
fn parse_id_reads_what_the_standard_parser_reads() {
    let cases = [
        "0", "7", "42", "007", "+5", "+", "", "-3", "12a", " 1", "1 ", "1_000",
        "18446744073709551615", "18446744073709551616", "99999999999999999999999",
        "123456789012345678", "++1", "\u{663}",
    ];
    for text in cases {
        assert_eq!(parse_id(text), text.parse::<u64>().ok(), "{:?}", text);
    }
}

#[test]
fn parse_id_gives_exact_values() {
    assert_eq!(parse_id("123456789012345678"), Some(123456789012345678));
    assert_eq!(parse_id("18446744073709551615"), Some(u64::MAX));
    assert_eq!(parse_id("18446744073709551616"), None);
    assert_eq!(parse_id(""), None);
}

#[test]
fn discord_routes_back_to_the_origin_channel_or_to_the_log() {
    assert_eq!(urchin::infra::discord::route(Platform::Discord, "42"), Route::Channel(42));
    assert_eq!(urchin::infra::discord::route(Platform::Discord, "general"), Route::Nowhere);
    assert_eq!(urchin::infra::discord::route(Platform::Stoat, "42"), Route::Log);
}

#[test]
fn stoat_routes_back_to_the_origin_channel_or_to_the_log() {
    assert_eq!(urchin::infra::stoat::route(Platform::Stoat, "general", "log"), "general");
    assert_eq!(urchin::infra::stoat::route(Platform::Discord, "42", "log"), "log");
}

#[test]
fn a_confirm_button_names_its_target() {
    assert_eq!(confirm_id("ban", "123"), "confirm_ban:123");
    assert_eq!(confirm_target("confirm_ban:123"), Some("123".to_string()));
    assert_eq!(confirm_target(&confirm_id("kick", "BadGuy")), Some("BadGuy".to_string()));
}

#[test]
fn confirm_target_follows_the_split_on_colons() {
    for id in [
        "confirm_ban:123", "confirm_ban", "confirm_:", "confirm_ban:1:2", "confirm_::x",
        "cancel_ban:123", "confirm", "", ":confirm_", "confirm_ban:",
    ] {
        let expected = if id.starts_with("confirm_") {
            let parts: Vec<&str> = id.split(':').collect();
            if parts.len() < 2 { None } else { Some(parts[1].to_string()) }
        } else {
            None
        };
        assert_eq!(confirm_target(id), expected, "{:?}", id);
    }
}

#[test]
fn action_tags_map_to_sanctions() {
    assert_eq!(sanction("ban"), Sanction::Ban);
    assert_eq!(sanction("kick"), Sanction::Kick);
    assert_eq!(sanction("mute"), Sanction::Nothing);
    assert_eq!(sanction("Ban"), Sanction::Nothing);
    assert_eq!(embed_colour("ban"), 0xFF0000);
    assert_eq!(embed_colour("kick"), 0xFFA500);
    assert_eq!(embed_colour("mute"), 0xFFA500);
}

#[test]
fn discord_wording_is_exact() {
    assert_eq!(audit_reason("spam", "Mod", "Al"), "spam | Req: Mod | App: Al");
    assert_eq!(mention("123"), "<@123>");
    assert_eq!(
        outcome(Sanction::Ban, "123", "spam"),
        Some("\u{1F528} **Banned** <@123>\n**Reason:** spam".to_string())
    );
    assert_eq!(
        outcome(Sanction::Kick, "123", "spam"),
        Some("\u{1F462} **Kicked** <@123>\n**Reason:** spam".to_string())
    );
    assert_eq!(outcome(Sanction::Nothing, "123", "spam"), None);
}

#[test]
fn stoat_wording_is_exact() {
    assert_eq!(platform_name(Platform::Discord), format!("{:?}", Platform::Discord));
    assert_eq!(platform_name(Platform::Stoat), format!("{:?}", Platform::Stoat));
    assert_eq!(
        proposal_notice("BadGuy", "spam", Platform::Discord),
        "**TPI Action Required:**\nTarget: BadGuy\nReason: spam\nOrigin: Discord\n\n_React with \u{2705} to approve._"
    );
    assert_eq!(
        execution_notice("BadGuy", "Mod", "Al"),
        "**Action Executed:**\nTarget: BadGuy handled by Mod (Approved by Al)"
    );
}

fn reaction(kind: &str, emoji: &str) -> Reaction {
    Reaction {
        kind: kind.to_string(),
        emoji: emoji.to_string(),
        user_id: "u".to_string(),
        message_id: "m".to_string(),
        channel_id: "c".to_string(),
    }
}

#[test]
fn only_check_mark_reactions_approve() {
    assert!(is_approval(&reaction("MessageReact", "\u{2705}")));
    assert!(is_approval(&reaction("MessageReact", "x\u{2705}y")));
    assert!(!is_approval(&reaction("MessageReact", "\u{274C}")));
    assert!(!is_approval(&reaction("MessageReact", "")));
    assert!(!is_approval(&reaction("Message", "\u{2705}")));
}

#[test]
fn known_members_need_the_staff_role() {
    let roles = |names: &[&str]| Membership::Roles(names.iter().map(|r| r.to_string()).collect());
    assert!(may_approve(&roles(&["a", "staff"]), "staff"));
    assert!(!may_approve(&roles(&["a", "b"]), "staff"));
    assert!(!may_approve(&roles(&[]), "staff"));
    assert!(!may_approve(&Membership::Unknown, "staff"));
}

fn pending(target: &str) -> Proposal {
    Proposal {
        target: Identity { raw: target.to_string(), discord: None, stoat: None },
        action: "ban".to_string(),
        reason: "spam".to_string(),
        author: "Mod".to_string(),
        origin: Platform::Stoat,
        channel: "general".to_string(),
        approvers: Vec::new(),
        timestamp: 1,
    }
}

#[test]
fn sift_hands_on_what_decoded_and_lists_the_rest_for_purging() {
    let records = vec![
        Record { key: b"a".to_vec(), proposal: Some(pending("a")) },
        Record { key: b"b".to_vec(), proposal: None },
        Record { key: b"c".to_vec(), proposal: Some(pending("c")) },
        Record { key: b"d".to_vec(), proposal: None },
    ];
    assert_eq!(
        sift(&records),
        Scan {
            proposals: vec![pending("a"), pending("c")],
            purge: vec![b"b".to_vec(), b"d".to_vec()],
        }
    );
    assert_eq!(sift(&Vec::new()), Scan { proposals: Vec::new(), purge: Vec::new() });
}

#[test]
fn a_gateway_message_is_read_field_by_field() {
    let message = r#"{"type":"MessageReact","id":"m1","channel_id":"c1","user_id":"u1","emoji_id":"✅"}"#;
    assert_eq!(
        read_reaction(message),
        Some(Reaction {
            kind: "MessageReact".to_string(),
            emoji: "\u{2705}".to_string(),
            user_id: "u1".to_string(),
            message_id: "m1".to_string(),
            channel_id: "c1".to_string(),
        })
    );
}

#[test]
fn missing_or_mistyped_members_of_a_gateway_message_are_empty() {
    let message = r#"{"type":"Ping","id":7,"emoji_id":null}"#;
    assert_eq!(
        read_reaction(message),
        Some(Reaction {
            kind: "Ping".to_string(),
            emoji: String::new(),
            user_id: String::new(),
            message_id: String::new(),
            channel_id: String::new(),
        })
    );
    assert_eq!(
        read_reaction("[1, 2]").map(|r| r.kind),
        Some(String::new())
    );
}

#[test]
fn text_that_is_not_json_is_no_gateway_message() {
    assert_eq!(read_reaction("MessageReact"), None);
    assert_eq!(read_reaction(""), None);
    assert_eq!(read_reaction(r#"{"type":"#), None);
}

#[test]
fn reaction_from_needs_all_five_members() {
    let some = |s: &str| Some(s.to_string());
    assert_eq!(
        reaction_from(Some(vec![some("a"), None, some("c"), None, some("e")])),
        Some(Reaction {
            kind: "a".to_string(),
            emoji: String::new(),
            user_id: "c".to_string(),
            message_id: String::new(),
            channel_id: "e".to_string(),
        })
    );
    assert_eq!(reaction_from(Some(vec![some("a")])), None);
    assert_eq!(reaction_from(None), None);
}

#[test]
fn a_string_member_is_read_by_name() {
    assert_eq!(read_string(r#"{"server":"s1","name":"general"}"#, "server"), Some("s1".to_string()));
    assert_eq!(read_string(r#"{"_id":"01ABC"}"#, "_id"), Some("01ABC".to_string()));
    assert_eq!(read_string(r#"{"server":5}"#, "server"), None);
    assert_eq!(read_string(r#"{"name":"general"}"#, "server"), None);
    assert_eq!(read_string("not json", "server"), None);
    assert_eq!(single(Some(vec![None, None])), None);
}

#[test]
fn a_member_record_tells_the_roles() {
    assert_eq!(
        read_membership(r#"{"roles":["mod","staff"]}"#),
        Membership::Roles(vec!["mod".to_string(), "staff".to_string()])
    );
    assert_eq!(
        read_membership(r#"{"roles":["mod",7,null,"staff"]}"#),
        Membership::Roles(vec!["mod".to_string(), "staff".to_string()])
    );
    assert_eq!(read_membership(r#"{"nickname":"x"}"#), Membership::Roles(Vec::new()));
    assert_eq!(read_membership(r#"{"roles":"staff"}"#), Membership::Roles(Vec::new()));
    assert_eq!(read_membership("<html>"), Membership::Unknown);
    assert!(may_approve(&read_membership(r#"{"roles":["staff"]}"#), "staff"));
    assert!(!may_approve(&read_membership(r#"{"roles":[]}"#), "staff"));
    assert!(!may_approve(&read_membership("oops"), "staff"));
}

fn raised_on_stoat(raw: &str, discord: Option<&str>, action: &str) -> Proposal {
    Proposal {
        target: Identity {
            raw: raw.to_string(),
            discord: discord.map(str::to_string),
            stoat: Some(raw.to_string()),
        },
        action: action.to_string(),
        reason: "spam".to_string(),
        author: "Mod".to_string(),
        origin: Platform::Stoat,
        channel: "general".to_string(),
        approvers: Vec::new(),
        timestamp: 1,
    }
}

#[test]
fn a_discord_notice_shows_the_proposal() {
    let proposal = raised_on_stoat("123", Some("123"), "ban");
    assert_eq!(
        urchin::infra::discord::notice(&proposal),
        urchin::infra::discord::Notice {
            title: "\u{1F528} BAN Proposal".to_string(),
            colour: 0xFF0000,
            target: "<@123>".to_string(),
            requester: "Mod".to_string(),
            reason: "spam".to_string(),
            footer: "Origin: Stoat".to_string(),
            button_id: "confirm_ban:123".to_string(),
            button_label: "Confirm BAN".to_string(),
        }
    );
    let shown = urchin::infra::discord::notice(&raised_on_stoat("123", Some("123"), "kick"));
    assert_eq!(shown.title, "\u{1F462} KICK Proposal");
    assert_eq!(shown.colour, 0xFFA500);
    assert_eq!(shown.button_label, "Confirm KICK");
    assert_eq!(urchin::infra::discord::emblem("mute"), '\u{1F462}');
}

#[test]
fn a_notice_mentions_the_resolved_id_and_its_button_names_the_key() {
    let typed = urchin::domain::identity::resolve("<@123456789012345678>", Platform::Discord);
    let proposal = Proposal { target: typed, ..raised_on_stoat("x", None, "ban") };
    let shown = urchin::infra::discord::notice(&proposal);
    assert_eq!(shown.target, "<@123456789012345678>");
    assert_eq!(shown.button_id, "confirm_ban:<@123456789012345678>");
    assert_eq!(
        confirm_target(&shown.button_id),
        Some("<@123456789012345678>".to_string())
    );
    assert_eq!(urchin::infra::discord::discord_name(&proposal.target), "123456789012345678");
}

#[test]
fn a_target_without_a_discord_id_is_shown_as_written() {
    let proposal = raised_on_stoat("BadGuy", None, "ban");
    assert_eq!(urchin::infra::discord::notice(&proposal).target, "BadGuy");
    assert_eq!(urchin::infra::discord::discord_name(&proposal.target), "BadGuy");
    assert_eq!(urchin::infra::discord::shown_target(&proposal.target), "BadGuy");
}

#[test]
fn notice_from_takes_the_upper_case_tag_as_given() {
    let proposal = raised_on_stoat("123", Some("123"), "ban");
    let shown = urchin::infra::discord::notice_from(&proposal, "Verbot");
    assert_eq!(shown.title, "\u{1F528} Verbot Proposal");
    assert_eq!(shown.button_label, "Confirm Verbot");
    assert_eq!(shown.button_id, "confirm_ban:123");
}

#[test]
fn dropped_notices_are_worded_exactly() {
    let proposal = raised_on_stoat("123", Some("123"), "kick");
    assert_eq!(
        urchin::infra::discord::dropped_notice(&proposal, "Expired"),
        "\u{1F5D1}\u{FE0F} KICK proposal for <@123> dropped: Expired"
    );
    assert_eq!(
        urchin::infra::discord::dropped_notice_from(&proposal, "K", "Cancelled by Al"),
        "\u{1F5D1}\u{FE0F} K proposal for <@123> dropped: Cancelled by Al"
    );
    assert_eq!(
        urchin::infra::stoat::dropped_notice("BadGuy", "Expired"),
        "**Action Dropped:**\nTarget: BadGuy (Expired)"
    );
}

#[test]
fn only_an_approving_reaction_by_staff_on_a_recorded_message_confirms() {
    let staff = Membership::Roles(vec!["staff".to_string()]);
    let guest = Membership::Roles(vec!["guest".to_string()]);
    let target = || Some("BadGuy".to_string());
    let confirm = urchin::infra::stoat::confirmation_of;
    assert_eq!(
        confirm(&reaction("MessageReact", "\u{2705}"), &staff, "staff", target()),
        Some(urchin::domain::ports::UrchinEvent::ConfirmAction {
            target: "BadGuy".to_string(),
            approver: "u".to_string(),
        })
    );
    assert_eq!(confirm(&reaction("MessageReact", "\u{2705}"), &guest, "staff", target()), None);
    assert_eq!(
        confirm(&reaction("MessageReact", "\u{2705}"), &Membership::Unknown, "staff", target()),
        None
    );
    assert_eq!(confirm(&reaction("MessageReact", "\u{274C}"), &staff, "staff", target()), None);
    assert_eq!(confirm(&reaction("Message", "\u{2705}"), &staff, "staff", target()), None);
    assert_eq!(confirm(&reaction("MessageReact", "\u{2705}"), &staff, "staff", None), None);
}

#[test]
fn a_slash_command_becomes_a_request_from_discord() {
    let raised = urchin::infra::discord::request_of(
        "ban".to_string(),
        Some("123".to_string()),
        None,
        "Mod".to_string(),
        "42".to_string(),
    );
    assert_eq!(
        raised,
        urchin::domain::ports::UrchinEvent::RequestAction {
            kind: "ban".to_string(),
            target: "123".to_string(),
            requester: "Mod".to_string(),
            origin_platform: Platform::Discord,
            origin_channel_id: "42".to_string(),
            reason: "No reason provided".to_string(),
        }
    );
    let raised = urchin::infra::discord::request_of(
        "kick".to_string(),
        None,
        Some("rude".to_string()),
        "Mod".to_string(),
        "42".to_string(),
    );
    assert_eq!(
        raised,
        urchin::domain::ports::UrchinEvent::RequestAction {
            kind: "kick".to_string(),
            target: String::new(),
            requester: "Mod".to_string(),
            origin_platform: Platform::Discord,
            origin_channel_id: "42".to_string(),
            reason: "rude".to_string(),
        }
    );
    assert_eq!(
        urchin::infra::discord::logged_reply("123"),
        "\u{23F3} Proposal Logged. Target: <@123>"
    );
}
