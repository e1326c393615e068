use urchin::domain::identity::{resolve, sanitize};
use urchin::domain::models::Platform;

#[test]
fn eighteen_digits_are_a_discord_id_whatever_the_origin() {
    let id = resolve("123456789012345678", Platform::Stoat);
    assert_eq!(id.raw, "123456789012345678");
    assert_eq!(id.discord, Some("123456789012345678".to_string()));
    assert_eq!(id.stoat, Some("123456789012345678".to_string()));
}

#[test]
fn twenty_six_alphanumerics_are_a_stoat_id_whatever_the_origin() {
    let raw = "01HZX3K9ABCDEFGHJKMNPQRSTV";
    assert_eq!(raw.len(), 26);
    let id = resolve(raw, Platform::Discord);
    assert_eq!(id.raw, raw);
    assert_eq!(id.stoat, Some(raw.to_string()));
    assert_eq!(id.discord, Some(raw.to_string()));
}

#[test]
fn other_shapes_get_the_origin_id_only() {
    let id = resolve("BadGuy", Platform::Discord);
    assert_eq!(id.raw, "BadGuy");
    assert_eq!(id.discord, Some("BadGuy".to_string()));
    assert_eq!(id.stoat, None);
    let id = resolve("BadGuy", Platform::Stoat);
    assert_eq!(id.discord, None);
    assert_eq!(id.stoat, Some("BadGuy".to_string()));
}

#[test]
fn sixteen_digits_are_too_short_for_a_snowflake() {
    let id = resolve("1234567890123456", Platform::Stoat);
    assert_eq!(id.discord, None);
}

#[test]
fn seventeen_digits_are_enough_for_a_snowflake() {
    let id = resolve("12345678901234567", Platform::Stoat);
    assert_eq!(id.discord, Some("12345678901234567".to_string()));
}

#[test]
fn twenty_six_characters_with_punctuation_are_no_stoat_id() {
    let id = resolve("01HZX3K9ABCDEFGHJKMNPQRS-V", Platform::Discord);
    assert_eq!(id.stoat, None);
}

#[test]
fn twenty_five_and_twenty_seven_characters_are_no_stoat_id() {
    assert_eq!(resolve("01HZX3K9ABCDEFGHJKMNPQRST", Platform::Discord).stoat, None);
    assert_eq!(resolve("01HZX3K9ABCDEFGHJKMNPQRSTVW", Platform::Discord).stoat, None);
}

#[test]
fn non_ascii_letters_are_no_stoat_id() {
    let raw = "01HZX3K9ABCDEFGHJKMNPQRST\u{e9}";
    assert_eq!(raw.chars().count(), 26);
    assert_eq!(resolve(raw, Platform::Discord).stoat, None);
}

#[test]
fn mention_markup_is_stripped_before_classifying_and_raw_is_kept() {
    let id = resolve("<@!123456789012345678>", Platform::Stoat);
    assert_eq!(id.raw, "<@!123456789012345678>");
    assert_eq!(id.discord, Some("123456789012345678".to_string()));
    assert_eq!(id.stoat, Some("123456789012345678".to_string()));
}

#[test]
fn sanitize_removes_openers_then_closers() {
    assert_eq!(sanitize("<@123>"), "123");
    assert_eq!(sanitize("<@!123>"), "123");
    assert_eq!(sanitize("plain"), "plain");
    assert_eq!(sanitize(""), "");
    assert_eq!(sanitize("a>b!c"), "abc");
}

#[test]
fn sanitize_makes_one_pass_for_each_pattern() {
    assert_eq!(sanitize("<<@@"), "<@");
    assert_eq!(sanitize("<!@x"), "<@x");
    assert_eq!(sanitize("<"), "<");
    assert_eq!(sanitize("x<"), "x<");
    assert_eq!(sanitize("<@<@7"), "7");
}

#[test]
fn sanitize_agrees_with_three_replacements() {
    for raw in ["<@1>", "<<@!>>", "@<@<", "!<@>!", "a<b@c", "<@", "\u{e9}<@\u{e9}>"] {
        let expected = raw.replace("<@", "").replace(">", "").replace("!", "");
        assert_eq!(sanitize(raw), expected);
    }
}
