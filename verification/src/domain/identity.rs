//! Identity resolution: from the target a requester typed to the ids that
//! each platform recognises.

use crate::domain::models::{Identity, IdentityView, Platform, Text};
use crate::text::{chars_of, is_digit, push_char};
use vstd::prelude::*;

verus! {

/// Fewest digits of a Discord snowflake id.
pub const SNOWFLAKE_MIN_LEN: usize = 17;

/// Exact length of a Stoat id.
pub const TOKEN_LEN: usize = 26;

/// An ASCII letter or digit.
pub open spec fn is_alphanumeric(c: char) -> bool {
    ||| '0' <= c <= '9'
    ||| 'a' <= c <= 'z'
    ||| 'A' <= c <= 'Z'
}

/// `text` with every mention opener `<@` taken out, scanning left to right.
pub open spec fn strip_openers(text: Text) -> Text
    decreases text.len(),
{
    if text.len() == 0 {
        text
    } else if text.len() >= 2 && text[0] == '<' && text[1] == '@' {
        strip_openers(text.skip(2))
    } else {
        seq![text[0]] + strip_openers(text.skip(1))
    }
}

/// `text` without the characters `>` and `!`.
pub open spec fn strip_closers(text: Text) -> Text {
    text.filter(|c: char| c != '>' && c != '!')
}

/// The target with mention markup removed: first every `<@`, then every
/// `>` and `!` that is left.
pub open spec fn sanitize_spec(raw: Text) -> Text {
    strip_closers(strip_openers(raw))
}

/// At least seventeen characters, all of them digits.
pub open spec fn is_snowflake(text: Text) -> bool {
    &&& text.len() >= SNOWFLAKE_MIN_LEN
    &&& forall|i: int| 0 <= i < text.len() ==> is_digit(#[trigger] text[i])
}

/// Exactly twenty-six characters, all of them ASCII letters or digits.
pub open spec fn is_token(text: Text) -> bool {
    &&& text.len() == TOKEN_LEN
    &&& forall|i: int| 0 <= i < text.len() ==> is_alphanumeric(#[trigger] text[i])
}

/// The identity that `raw`, raised on `origin`, resolves to.
///
/// `raw` is kept as written. A platform's id is the sanitized target, and
/// is present when the request came from that platform or the sanitized
/// target has the shape of that platform's ids.
pub open spec fn resolve_spec(raw: Text, origin: Platform) -> IdentityView {
    let clean = sanitize_spec(raw);
    IdentityView {
        raw,
        discord: if is_snowflake(clean) || origin == Platform::Discord {
            Some(clean)
        } else {
            None
        },
        stoat: if is_token(clean) || origin == Platform::Stoat {
            Some(clean)
        } else {
            None
        },
    }
}

/// Unfolds `strip_openers` once at position `i` of `text`.
proof fn lemma_strip_openers_step(text: Text, i: int)
    requires
        0 <= i < text.len(),
    ensures
        i + 1 < text.len() && text[i] == '<' && text[i + 1] == '@' ==> strip_openers(text.skip(i))
            == strip_openers(text.skip(i + 2)),
        !(i + 1 < text.len() && text[i] == '<' && text[i + 1] == '@') ==> strip_openers(
            text.skip(i),
        ) == seq![text[i]] + strip_openers(text.skip(i + 1)),
{
    let rest = text.skip(i);
    assert(rest.len() == text.len() - i);
    assert(rest[0] == text[i]);
    if i + 1 < text.len() {
        assert(rest[1] == text[i + 1]);
    }
    assert(rest.skip(1) =~= text.skip(i + 1));
    if i + 1 < text.len() {
        assert(rest.skip(2) =~= text.skip(i + 2));
    }
}

/// Filtering a sequence with one more element at its end.
proof fn lemma_strip_closers_push(text: Text, c: char)
    ensures
        strip_closers(text.push(c)) == if c != '>' && c != '!' {
            strip_closers(text).push(c)
        } else {
            strip_closers(text)
        },
{
    let keep = |c: char| c != '>' && c != '!';
    assert(text.push(c).drop_last() =~= text);
    reveal_with_fuel(Seq::filter, 2);
}

/// Removes mention markup from a target: every `<@`, then every `>` and
/// `!`.
pub fn sanitize(raw: &str) -> (clean: String)
    ensures
        clean@ == sanitize_spec(raw@),
{
    let chars = chars_of(raw);
    let n = chars.len();
    // First pass: drop the openers.
    let mut kept: Vec<char> = Vec::new();
    let mut i: usize = 0;
    assert(raw@.skip(0) =~= raw@);
    assert(kept@ + strip_openers(raw@) =~= strip_openers(raw@));
    while i < n
        invariant
            n == chars.len(),
            chars@ == raw@,
            i <= n,
            strip_openers(raw@) == kept@ + strip_openers(raw@.skip(i as int)),
        decreases n - i,
    {
        proof {
            lemma_strip_openers_step(raw@, i as int);
        }
        if i + 1 < n && chars[i] == '<' && chars[i + 1] == '@' {
            i = i + 2;
        } else {
            let ghost before = kept@;
            kept.push(chars[i]);
            assert(kept@ + strip_openers(raw@.skip(i + 1)) =~= before + (seq![raw@[i as int]]
                + strip_openers(raw@.skip(i + 1))));
            i = i + 1;
        }
    }
    assert(raw@.skip(n as int) =~= Seq::<char>::empty());
    assert(kept@ =~= strip_openers(raw@));
    // Second pass: drop the closers.
    let mut clean = String::new();
    let mut j: usize = 0;
    assert(kept@.take(0) =~= Seq::<char>::empty());
    assert(strip_closers(Seq::<char>::empty()) =~= Seq::<char>::empty()) by {
        reveal_with_fuel(Seq::filter, 1);
    }
    while j < kept.len()
        invariant
            j <= kept.len(),
            clean@ == strip_closers(kept@.take(j as int)),
        decreases kept.len() - j,
    {
        let c = kept[j];
        proof {
            lemma_strip_closers_push(kept@.take(j as int), c);
            assert(kept@.take(j + 1) =~= kept@.take(j as int).push(c));
        }
        if c != '>' && c != '!' {
            push_char(&mut clean, c);
        }
        j = j + 1;
    }
    assert(kept@.take(kept.len() as int) =~= kept@);
    clean
}

/// Whether `chars` has the shape of a Discord snowflake id.
fn looks_like_snowflake(chars: &Vec<char>) -> (yes: bool)
    ensures
        yes == is_snowflake(chars@),
{
    if chars.len() < SNOWFLAKE_MIN_LEN {
        return false;
    }
    let mut i: usize = 0;
    while i < chars.len()
        invariant
            i <= chars.len(),
            chars.len() >= SNOWFLAKE_MIN_LEN,
            forall|k: int| 0 <= k < i ==> is_digit(#[trigger] chars@[k]),
        decreases chars.len() - i,
    {
        let c = chars[i];
        if !(c >= '0' && c <= '9') {
            return false;
        }
        i = i + 1;
    }
    true
}

/// Whether `chars` has the shape of a Stoat id.
fn looks_like_token(chars: &Vec<char>) -> (yes: bool)
    ensures
        yes == is_token(chars@),
{
    if chars.len() != TOKEN_LEN {
        return false;
    }
    let mut i: usize = 0;
    while i < chars.len()
        invariant
            i <= chars.len(),
            chars.len() == TOKEN_LEN,
            forall|k: int| 0 <= k < i ==> is_alphanumeric(#[trigger] chars@[k]),
        decreases chars.len() - i,
    {
        let c = chars[i];
        let ok = (c >= '0' && c <= '9') || (c >= 'a' && c <= 'z') || (c >= 'A' && c <= 'Z');
        if !ok {
            return false;
        }
        i = i + 1;
    }
    true
}

/// Resolves the target `raw` of a request raised on `origin`.
///
/// Never fails: a target of no known shape yields an identity that holds
/// `raw` and the id of the origin platform only.
pub fn resolve(raw: &str, origin: Platform) -> (id: Identity)
    ensures
        id@ == resolve_spec(raw@, origin),
{
    let clean = sanitize(raw);
    let chars = chars_of(clean.as_str());
    let snowflake = looks_like_snowflake(&chars);
    let token = looks_like_token(&chars);
    let discord = if snowflake || origin == Platform::Discord {
        Some(clean.clone())
    } else {
        None
    };
    let stoat = if token || origin == Platform::Stoat {
        Some(clean.clone())
    } else {
        None
    };
    Identity { raw: raw.to_owned(), discord, stoat }
}

} // verus!
