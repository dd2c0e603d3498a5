//! Filling `${key}$` placeholders of a text with values.
use vstd::prelude::*;
use crate::text::{find, find_from, chars_of, push_range, str_equals, lemma_find_found};

verus! {

pub struct Template;

/// Why a template could not be filled.
pub enum RenderError {
    /// A `${` that no `}$` closes.
    MissingEndTag,
    /// A placeholder whose key has no value.
    MissingValue(String),
}

/// What filling a template gives: the text, or the first fault met.
pub enum Rendering {
    Text(Seq<char>),
    NoEndTag,
    NoValue(Seq<char>),
}

pub open spec fn start_tag() -> Seq<char> {
    seq!['$', '{']
}

pub open spec fn end_tag() -> Seq<char> {
    seq!['}', '$']
}

/// The key-value pairs, as character sequences.
pub open spec fn pairs_view(values: Seq<(&str, &str)>) -> Seq<(Seq<char>, Seq<char>)> {
    values.map_values(|p: (&str, &str)| (p.0@, p.1@))
}

/// The value given for `key`: that of the last pair with this key, as a map
/// built from the pairs in order keeps it.
pub open spec fn lookup(values: Seq<(Seq<char>, Seq<char>)>, key: Seq<char>) -> Option<Seq<char>>
    decreases values.len(),
{
    if values.len() == 0 {
        None
    } else if values.last().0 == key {
        Some(values.last().1)
    } else {
        lookup(values.drop_last(), key)
    }
}

/// Fills the placeholders of `content` from left to right.
#[verifier::opaque]
pub open spec fn rendering(content: Seq<char>, values: Seq<(Seq<char>, Seq<char>)>) -> Rendering
    decreases content.len(),
{
    match find(content, start_tag()) {
        None => Rendering::Text(content),
        Some(i) => {
            let after = content.skip(i + 2);
            match find(after, end_tag()) {
                None => Rendering::NoEndTag,
                Some(j) => {
                    let key = after.take(j);
                    match lookup(values, key) {
                        None => Rendering::NoValue(key),
                        Some(v) => {
                            proof {
                                lemma_find_found(content, start_tag());
                                lemma_find_found(after, end_tag());
                            }
                            match rendering(after.skip(j + 2), values) {
                                Rendering::Text(rest) => Rendering::Text(content.take(i) + v + rest),
                                other => other,
                            }
                        },
                    }
                },
            }
        },
    }
}

/// Puts `prefix` in front of the text of a rendering.
pub open spec fn after_prefix(prefix: Seq<char>, r: Rendering) -> Rendering {
    match r {
        Rendering::Text(t) => Rendering::Text(prefix + t),
        other => other,
    }
}

/// The error that stands for a rendering that failed.
pub open spec fn error_is(e: RenderError, r: Rendering) -> bool {
    match e {
        RenderError::MissingEndTag => r is NoEndTag,
        RenderError::MissingValue(key) => r == Rendering::NoValue(key@),
    }
}

/// The value for `chars[lo..hi]` among `values`, the last pair with that key winning.
fn lookup_value<'a>(values: &[(&'a str, &'a str)], chars: &Vec<char>, lo: usize, hi: usize) -> (r: Option<&'a str>)
    requires
        lo <= hi <= chars.len(),
    ensures
        r is None <==> lookup(pairs_view(values@), chars@.subrange(lo as int, hi as int)) is None,
        r matches Some(v) ==> lookup(pairs_view(values@), chars@.subrange(lo as int, hi as int)) == Some(v@),
{
    let ghost key = chars@.subrange(lo as int, hi as int);
    let mut k = values.len();
    assert(values@.take(k as int) =~= values@);
    while k > 0
        invariant
            k <= values@.len(),
            key == chars@.subrange(lo as int, hi as int),
            lo <= hi <= chars.len(),
            lookup(pairs_view(values@), key) == lookup(pairs_view(values@.take(k as int)), key),
        decreases k,
    {
        let ghost prefix = values@.take(k as int);
        assert(prefix.drop_last() =~= values@.take(k - 1));
        assert(pairs_view(prefix).drop_last() =~= pairs_view(values@.take(k - 1)));
        if str_equals(values[k - 1].0, chars, lo, hi) {
            return Some(values[k - 1].1);
        }
        k = k - 1;
    }
    None
}

impl Template {
    /// Fills `content`, giving the text or the first fault.
    pub fn try_render(file_content: &str, values: &[(&str, &str)]) -> (r: Result<String, RenderError>)
        ensures
            r matches Ok(s) ==> rendering(file_content@, pairs_view(values@)) == Rendering::Text(s@),
            r matches Err(e) ==> error_is(e, rendering(file_content@, pairs_view(values@))),
    {
        let chars = chars_of(file_content);
        let start: Vec<char> = vec!['$', '{'];
        let end: Vec<char> = vec!['}', '$'];
        assert(start@ =~= start_tag());
        assert(end@ =~= end_tag());
        let mut result = String::new();
        let mut pos: usize = 0;
        assert(chars@.skip(0) =~= chars@);
        while pos <= chars.len()
            invariant
                pos <= chars.len(),
                chars@ == file_content@,
                start@ == start_tag(),
                end@ == end_tag(),
                after_prefix(result@, rendering(chars@.skip(pos as int), pairs_view(values@)))
                    == rendering(file_content@, pairs_view(values@)),
            decreases chars.len() - pos,
        {
            let ghost rest = chars@.skip(pos as int);
            proof {
                reveal(rendering);
            }
            match find_from(&chars, pos, &start) {
                None => {
                    push_range(&mut result, &chars, pos, chars.len());
                    assert(chars@.subrange(pos as int, chars@.len() as int) =~= rest);
                    return Ok(result);
                },
                Some(i) => {
                    let ghost old_result = result@;
                    push_range(&mut result, &chars, pos, pos + i);
                    assert(chars@.subrange(pos as int, pos + i) =~= rest.take(i as int));
                    let key_start = pos + i + 2;
                    let ghost after = rest.skip(i + 2);
                    assert(chars@.skip(key_start as int) =~= after);
                    match find_from(&chars, key_start, &end) {
                        None => {
                            return Err(RenderError::MissingEndTag);
                        },
                        Some(j) => {
                            assert(chars@.subrange(key_start as int, key_start + j) =~= after.take(j as int));
                            match lookup_value(values, &chars, key_start, key_start + j) {
                                None => {
                                    let key = crate::text::string_of(&chars, key_start, key_start + j);
                                    return Err(RenderError::MissingValue(key));
                                },
                                Some(v) => {
                                    let ghost before = result@;
                                    let vc = chars_of(v);
                                    push_range(&mut result, &vc, 0, vc.len());
                                    assert(vc@.subrange(0, vc@.len() as int) =~= v@);
                                    let next = key_start + j + 2;
                                    assert(chars@.skip(next as int) =~= after.skip(j + 2));
                                    proof {
                                        let r2 = rendering(after.skip(j + 2), pairs_view(values@));
                                        match r2 {
                                            Rendering::Text(t) => {
                                                assert(old_result + (rest.take(i as int) + v@ + t)
                                                    =~= result@ + t);
                                            },
                                            _ => {},
                                        }
                                    }
                                    pos = next;
                                },
                            }
                        },
                    }
                },
            }
        }
        Ok(result)
    }

    /// Fills the `${key}$` placeholders of `file_content` with the values of
    /// their keys; every placeholder must be closed and have a value.
    pub fn render(file_content: &str, values: &[(&str, &str)]) -> (r: String)
        requires
            rendering(file_content@, pairs_view(values@)) is Text,
        ensures
            rendering(file_content@, pairs_view(values@)) == Rendering::Text(r@),
    {
        match Self::try_render(file_content, values) {
            Ok(s) => s,
            Err(_) => {
                proof {
                    assert(false);
                }
                String::new()
            },
        }
    }
}

/// A text without `${` is filled to itself, whatever the values.
pub proof fn lemma_render_plain_text(content: Seq<char>, values: Seq<(Seq<char>, Seq<char>)>)
    requires
        find(content, start_tag()) is None,
    ensures
        rendering(content, values) == Rendering::Text(content),
{
    reveal(rendering);
}

/// One step of filling: the text up to the first placeholder, its value, then
/// the rest filled in turn.
proof fn lemma_rendering_step(
    content: Seq<char>,
    values: Seq<(Seq<char>, Seq<char>)>,
    i: int,
    j: int,
    v: Seq<char>,
)
    requires
        find(content, start_tag()) == Some(i),
        find(content.skip(i + 2), end_tag()) == Some(j),
        lookup(values, content.skip(i + 2).take(j)) == Some(v),
    ensures
        rendering(content, values) == after_prefix(
            content.take(i) + v,
            rendering(content.skip(i + 2).skip(j + 2), values),
        ),
{
    reveal(rendering);
    match rendering(content.skip(i + 2).skip(j + 2), values) {
        Rendering::Text(t) => {
            assert(content.take(i) + v + t =~= (content.take(i) + v) + t);
        },
        _ => {},
    }
}

proof fn lemma_end_tag_found_after_key(key: Seq<char>)
    requires
        find(key, end_tag()) is None,
    ensures
        find(key + end_tag(), end_tag()) == Some(key.len() as int),
{
    let after = key + end_tag();
    assert(after.subrange(key.len() as int, key.len() as int + 2) =~= end_tag());
    assert forall|j: int| 0 <= j < key.len() implies !crate::text::occurs_at(after, end_tag(), j) by {
        if crate::text::occurs_at(after, end_tag(), j) {
            if j + 2 <= key.len() {
                assert(key.subrange(j, j + 2) =~= after.subrange(j, j + 2));
                crate::text::lemma_find_if_occurs(key, end_tag(), j);
            } else {
                assert(after.subrange(j, j + 2)[1] == after[j + 1]);
            }
        }
    }
    crate::text::lemma_find_is(after, end_tag(), key.len() as int);
}

/// A placeholder alone is filled with the value of its key.
pub proof fn lemma_render_single_placeholder(
    key: Seq<char>,
    value: Seq<char>,
    values: Seq<(Seq<char>, Seq<char>)>,
)
    requires
        find(key, end_tag()) is None,
        lookup(values, key) == Some(value),
    ensures
        rendering(start_tag() + key + end_tag(), values) == Rendering::Text(value),
{
    let content = start_tag() + key + end_tag();
    assert(content.subrange(0, 2) =~= start_tag());
    crate::text::lemma_find_is(content, start_tag(), 0);
    let after = content.skip(2);
    assert(after =~= key + end_tag());
    lemma_end_tag_found_after_key(key);
    assert(after.take(key.len() as int) =~= key);
    let tail = after.skip(key.len() as int + 2);
    assert(tail =~= Seq::<char>::empty());
    crate::text::lemma_find_none(tail, start_tag());
    lemma_render_plain_text(tail, values);
    lemma_rendering_step(content, values, 0, key.len() as int, value);
    assert(content.take(0) + value + tail =~= value);
}

/// A two-character tag whose characters differ is first found right after a
/// text that does not hold it.
proof fn lemma_tag_found_after(p: Seq<char>, tag: Seq<char>, rest: Seq<char>)
    requires
        tag.len() == 2,
        tag[0] != tag[1],
        find(p, tag) is None,
    ensures
        find(p + tag + rest, tag) == Some(p.len() as int),
{
    let s = p + tag + rest;
    let n = p.len() as int;
    assert(s.subrange(n, n + 2) =~= tag);
    assert forall|j: int| 0 <= j < n implies !crate::text::occurs_at(s, tag, j) by {
        if crate::text::occurs_at(s, tag, j) {
            if j + 2 <= n {
                assert(p.subrange(j, j + 2) =~= s.subrange(j, j + 2));
                crate::text::lemma_find_if_occurs(p, tag, j);
            } else {
                assert(s.subrange(j, j + 2)[1] == s[j + 1]);
                assert(s[j + 1] == tag[0]);
            }
        }
    }
    crate::text::lemma_find_is(s, tag, n);
}

/// A text that starts with a literal piece and a placeholder whose key has a
/// value fills as the piece, the value, then the rest filled in turn.
pub proof fn lemma_render_leading_placeholder(
    piece: Seq<char>,
    key: Seq<char>,
    rest: Seq<char>,
    values: Seq<(Seq<char>, Seq<char>)>,
    value: Seq<char>,
)
    requires
        find(piece, start_tag()) is None,
        find(key, end_tag()) is None,
        lookup(values, key) == Some(value),
    ensures
        rendering(piece + start_tag() + key + end_tag() + rest, values) == after_prefix(
            piece + value,
            rendering(rest, values),
        ),
{
    let content = piece + start_tag() + key + end_tag() + rest;
    let n = piece.len() as int;
    assert(content =~= piece + start_tag() + (key + end_tag() + rest));
    lemma_tag_found_after(piece, start_tag(), key + end_tag() + rest);
    let after = content.skip(n + 2);
    assert(after =~= key + end_tag() + rest);
    lemma_tag_found_after(key, end_tag(), rest);
    assert(after.take(key.len() as int) =~= key);
    assert(after.skip(key.len() as int + 2) =~= rest);
    assert(content.take(n) =~= piece);
    lemma_rendering_step(content, values, n, key.len() as int, value);
}

/// A template made of literal pieces and placeholders: `p0 ${k0}$ p1 ${k1}$ ... tail`.
pub open spec fn template_text(parts: Seq<(Seq<char>, Seq<char>)>, tail: Seq<char>) -> Seq<char>
    decreases parts.len(),
{
    if parts.len() == 0 {
        tail
    } else {
        parts[0].0 + start_tag() + parts[0].1 + end_tag() + template_text(parts.drop_first(), tail)
    }
}

/// The same text with each placeholder replaced by the value of its key.
pub open spec fn filled_text(
    parts: Seq<(Seq<char>, Seq<char>)>,
    tail: Seq<char>,
    values: Seq<(Seq<char>, Seq<char>)>,
) -> Seq<char>
    decreases parts.len(),
{
    if parts.len() == 0 {
        tail
    } else {
        let v = match lookup(values, parts[0].1) {
            Some(v) => v,
            None => Seq::empty(),
        };
        parts[0].0 + v + filled_text(parts.drop_first(), tail, values)
    }
}

/// Filling replaces each placeholder once, left to right, by the value of its
/// key, and copies the literal text unchanged, when no literal piece holds
/// `${`, no key holds `}$` and every key has a value.
pub proof fn lemma_render_fills_left_to_right(
    parts: Seq<(Seq<char>, Seq<char>)>,
    tail: Seq<char>,
    values: Seq<(Seq<char>, Seq<char>)>,
)
    requires
        forall|i: int| 0 <= i < parts.len() ==> find(#[trigger] parts[i].0, start_tag()) is None,
        forall|i: int| 0 <= i < parts.len() ==> find(#[trigger] parts[i].1, end_tag()) is None,
        forall|i: int| 0 <= i < parts.len() ==> lookup(values, #[trigger] parts[i].1) is Some,
        find(tail, start_tag()) is None,
    ensures
        rendering(template_text(parts, tail), values) == Rendering::Text(
            filled_text(parts, tail, values),
        ),
    decreases parts.len(),
{
    if parts.len() == 0 {
        lemma_render_plain_text(tail, values);
    } else {
        let rest = parts.drop_first();
        assert forall|i: int| 0 <= i < rest.len() implies find(#[trigger] rest[i].0, start_tag()) is None by {
            assert(rest[i] == parts[i + 1]);
        }
        assert forall|i: int| 0 <= i < rest.len() implies find(#[trigger] rest[i].1, end_tag()) is None by {
            assert(rest[i] == parts[i + 1]);
        }
        assert forall|i: int| 0 <= i < rest.len() implies lookup(values, #[trigger] rest[i].1) is Some by {
            assert(rest[i] == parts[i + 1]);
        }
        lemma_render_fills_left_to_right(rest, tail, values);
        assert(find(parts[0].0, start_tag()) is None);
        assert(find(parts[0].1, end_tag()) is None);
        assert(lookup(values, parts[0].1) is Some);
        let v = lookup(values, parts[0].1)->0;
        lemma_render_leading_placeholder(parts[0].0, parts[0].1, template_text(rest, tail), values, v);
    }
}

/// The value found for a key is that of the last pair with that key.
pub proof fn lemma_lookup_last_pair(values: Seq<(Seq<char>, Seq<char>)>, key: Seq<char>, i: int)
    requires
        0 <= i < values.len(),
        values[i].0 == key,
        forall|j: int| i < j < values.len() ==> (#[trigger] values[j]).0 != key,
    ensures
        lookup(values, key) == Some(values[i].1),
    decreases values.len(),
{
    if i < values.len() - 1 {
        let shorter = values.drop_last();
        assert forall|j: int| i < j < shorter.len() implies (#[trigger] shorter[j]).0 != key by {
            assert(shorter[j] == values[j]);
        }
        lemma_lookup_last_pair(shorter, key, i);
    }
}

/// Adding a pair for a key makes its value the one found for that key, and
/// leaves the values found for the other keys as they were.
pub proof fn lemma_lookup_push(
    values: Seq<(Seq<char>, Seq<char>)>,
    key: Seq<char>,
    value: Seq<char>,
    other: Seq<char>,
)
    ensures
        lookup(values.push((key, value)), key) == Some(value),
        other != key ==> lookup(values.push((key, value)), other) == lookup(values, other),
{
    assert(values.push((key, value)).drop_last() =~= values);
}

} // verus!
