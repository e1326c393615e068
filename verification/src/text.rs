//! Working with strings one character at a time.

use vstd::prelude::*;

verus! {

broadcast use vstd::string::group_string_axioms;

/// Text as contracts see it.
pub type Text = Seq<char>;

/// An ASCII decimal digit.
pub open spec fn is_digit(c: char) -> bool {
    '0' <= c <= '9'
}

/// View of an optional string.
pub open spec fn opt_text(value: Option<String>) -> Option<Text> {
    match value {
        Some(s) => Some(s@),
        None => None,
    }
}

/// View of a list of strings, element by element.
pub open spec fn texts(values: Seq<String>) -> Seq<Text> {
    Seq::new(values.len(), |i: int| values[i]@)
}

/// `String::push`: the string afterwards is the string before with `c` at
/// its end.
#[verifier::external_body]
pub(crate) fn push_char(text: &mut String, c: char)
    ensures
        final(text)@ == old(text)@.push(c),
{
    text.push(c);
}

/// The characters of `text`, in order.
pub(crate) fn chars_of(text: &str) -> (out: Vec<char>)
    ensures
        out@ == text@,
{
    let mut out: Vec<char> = Vec::new();
    for c in it: text.chars()
        invariant
            it.seq() == text@,
            out@ == it.seq().take(it.index()),
    {
        out.push(c);
    }
    assert(out@ == text@.take(text@.len() as int));
    out
}

/// The string made of `chars[from..to]`.
pub(crate) fn string_of(chars: &Vec<char>, from: usize, to: usize) -> (out: String)
    requires
        from <= to <= chars@.len(),
    ensures
        out@ == chars@.subrange(from as int, to as int),
{
    let mut out = String::new();
    let mut i: usize = from;
    assert(chars@.subrange(from as int, from as int) =~= Seq::<char>::empty());
    while i < to
        invariant
            from <= i <= to <= chars@.len(),
            out@ == chars@.subrange(from as int, i as int),
        decreases to - i,
    {
        push_char(&mut out, chars[i]);
        assert(chars@.subrange(from as int, i + 1) =~= chars@.subrange(from as int, i as int).push(
            chars@[i as int],
        ));
        i = i + 1;
    }
    out
}

/// Whether `name` is among `names`.
pub(crate) fn has_text(names: &Vec<String>, name: &String) -> (yes: bool)
    ensures
        yes == texts(names@).contains(name@),
{
    let mut i: usize = 0;
    while i < names.len()
        invariant
            i <= names.len(),
            forall|k: int| 0 <= k < i ==> texts(names@)[k] != name@,
        decreases names.len() - i,
    {
        if names[i] == *name {
            assert(texts(names@)[i as int] == name@);
            return true;
        }
        i = i + 1;
    }
    false
}

/// Whether `text` begins with `prefix`.
pub open spec fn has_prefix(text: Text, prefix: Text) -> bool {
    prefix.len() <= text.len() && text.take(prefix.len() as int) == prefix
}

/// Whether `chars` begins with `prefix`.
pub(crate) fn starts_with(chars: &Vec<char>, prefix: &Vec<char>) -> (yes: bool)
    ensures
        yes == has_prefix(chars@, prefix@),
{
    if prefix.len() > chars.len() {
        return false;
    }
    let mut i: usize = 0;
    while i < prefix.len()
        invariant
            i <= prefix.len() <= chars.len(),
            forall|k: int| 0 <= k < i ==> chars@[k] == prefix@[k],
        decreases prefix.len() - i,
    {
        if chars[i] != prefix[i] {
            assert(chars@.take(prefix@.len() as int)[i as int] != prefix@[i as int]);
            return false;
        }
        i = i + 1;
    }
    assert(chars@.take(prefix@.len() as int) =~= prefix@);
    true
}

/// Index of the first `mark` in `text`, or the length when there is none.
pub open spec fn first_index_of(text: Text, mark: char) -> int
    decreases text.len(),
{
    if text.len() == 0 {
        0
    } else if text[0] == mark {
        0
    } else {
        1 + first_index_of(text.skip(1), mark)
    }
}

/// `first_index_of` is the least index that holds the mark.
pub proof fn lemma_first_index_of(text: Text, mark: char)
    ensures
        0 <= first_index_of(text, mark) <= text.len(),
        first_index_of(text, mark) < text.len() ==> text[first_index_of(text, mark)] == mark,
        forall|i: int| 0 <= i < first_index_of(text, mark) ==> text[i] != mark,
    decreases text.len(),
{
    if text.len() > 0 && text[0] != mark {
        let rest = text.skip(1);
        lemma_first_index_of(rest, mark);
        assert forall|i: int| 0 <= i < first_index_of(text, mark) implies text[i] != mark by {
            if i > 0 {
                assert(text[i] == rest[i - 1]);
            }
        }
    }
}

/// An index that holds the mark, with none before it, is the first.
pub proof fn lemma_first_index_is(text: Text, mark: char, at: int)
    requires
        0 <= at <= text.len(),
        at < text.len() ==> text[at] == mark,
        forall|i: int| 0 <= i < at ==> text[i] != mark,
    ensures
        first_index_of(text, mark) == at,
{
    lemma_first_index_of(text, mark);
}

/// Index of the first `mark` in `chars[from..]`, counted from `from`, or
/// the number of characters left when there is none.
pub(crate) fn find_from(chars: &Vec<char>, from: usize, mark: char) -> (at: usize)
    requires
        from <= chars@.len(),
    ensures
        at == first_index_of(chars@.skip(from as int), mark),
        from + at <= chars@.len(),
{
    let ghost rest = chars@.skip(from as int);
    let mut at: usize = 0;
    while at < chars.len() - from
        invariant
            from + at <= chars@.len(),
            rest == chars@.skip(from as int),
            forall|i: int| 0 <= i < at ==> rest[i] != mark,
        decreases chars@.len() - from - at,
    {
        if chars[from + at] == mark {
            proof {
                assert(rest[at as int] == mark);
                lemma_first_index_is(rest, mark, at as int);
            }
            return at;
        }
        assert(rest[at as int] != mark);
        at = at + 1;
    }
    proof {
        lemma_first_index_is(rest, mark, at as int);
    }
    at
}

} // verus!
