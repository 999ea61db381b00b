//! The event's canonical wire representation: a JSON object with the
//! integration key, the status spelling, the title, and each optional field
//! only when it is present. The exact text is pinned down by
//! [`spec_encode_event`]; [`encode_event`] is proved to produce it.

use vstd::prelude::*;
use crate::models::{AlertEvent, AlertEventView, Image, ImageView, spec_status_name, status_name};

verus! {

/// The lower-case hex digit of a value below 16.
pub open spec fn hex_digit(n: int) -> char {
    if n == 0 {
        '0'
    } else if n == 1 {
        '1'
    } else if n == 2 {
        '2'
    } else if n == 3 {
        '3'
    } else if n == 4 {
        '4'
    } else if n == 5 {
        '5'
    } else if n == 6 {
        '6'
    } else if n == 7 {
        '7'
    } else if n == 8 {
        '8'
    } else if n == 9 {
        '9'
    } else if n == 10 {
        'a'
    } else if n == 11 {
        'b'
    } else if n == 12 {
        'c'
    } else if n == 13 {
        'd'
    } else if n == 14 {
        'e'
    } else {
        'f'
    }
}

/// How one character is written inside a JSON string literal: quote and
/// backslash are escaped, the common control characters get their short
/// escapes, the remaining control characters are written as `\u00XX`, and
/// every other character stands for itself.
pub open spec fn spec_escape_char(c: char) -> Seq<char> {
    if c == '"' {
        seq!['\\', '"']
    } else if c == '\\' {
        seq!['\\', '\\']
    } else if c == '\n' {
        seq!['\\', 'n']
    } else if c == '\r' {
        seq!['\\', 'r']
    } else if c == '\t' {
        seq!['\\', 't']
    } else if (c as u32) < 0x20 {
        seq!['\\', 'u', '0', '0', hex_digit(c as u32 as int / 16), hex_digit(c as u32 as int % 16)]
    } else {
        seq![c]
    }
}

/// The escaped body of a JSON string literal.
pub open spec fn spec_escape(s: Seq<char>) -> Seq<char>
    decreases s.len(),
{
    if s.len() == 0 {
        Seq::empty()
    } else {
        spec_escape(s.drop_last()) + spec_escape_char(s.last())
    }
}

/// A complete JSON string literal: the escaped body between quotes.
pub open spec fn spec_json_string(s: Seq<char>) -> Seq<char> {
    seq!['"'] + spec_escape(s) + seq!['"']
}

/// One `"name":"value"` member whose value is a string.
pub open spec fn spec_member(name: Seq<char>, value: Seq<char>) -> Seq<char> {
    spec_json_string(name) + seq![':'] + spec_json_string(value)
}

/// One `"key":"value"` entry of the label map.
pub open spec fn spec_encode_label(l: (Seq<char>, Seq<char>)) -> Seq<char> {
    spec_member(l.0, l.1)
}

/// The comma-separated entries of the label map, in the event's order.
pub open spec fn spec_encode_label_items(ls: Seq<(Seq<char>, Seq<char>)>) -> Seq<char>
    decreases ls.len(),
{
    if ls.len() == 0 {
        Seq::empty()
    } else if ls.len() == 1 {
        spec_encode_label(ls[0])
    } else {
        spec_encode_label_items(ls.drop_last()) + seq![','] + spec_encode_label(ls.last())
    }
}

/// The label map as a JSON object.
pub open spec fn spec_encode_labels(ls: Seq<(Seq<char>, Seq<char>)>) -> Seq<char> {
    seq!['{'] + spec_encode_label_items(ls) + seq!['}']
}

/// One image descriptor as a JSON object; absent fields are omitted.
pub open spec fn spec_encode_image(img: ImageView) -> Seq<char> {
    seq!['{'] + spec_member("src"@, img.src) + (match img.href {
        Some(h) => seq![','] + spec_member("href"@, h),
        None => Seq::empty(),
    }) + (match img.alt {
        Some(a) => seq![','] + spec_member("alt"@, a),
        None => Seq::empty(),
    }) + seq!['}']
}

/// The comma-separated image objects, in the event's order.
pub open spec fn spec_encode_image_items(imgs: Seq<ImageView>) -> Seq<char>
    decreases imgs.len(),
{
    if imgs.len() == 0 {
        Seq::empty()
    } else if imgs.len() == 1 {
        spec_encode_image(imgs[0])
    } else {
        spec_encode_image_items(imgs.drop_last()) + seq![','] + spec_encode_image(imgs.last())
    }
}

/// The image list as a JSON array.
pub open spec fn spec_encode_images(imgs: Seq<ImageView>) -> Seq<char> {
    seq!['['] + spec_encode_image_items(imgs) + seq![']']
}

/// The opening brace and the three members every event carries.
pub open spec fn spec_event_head(ev: AlertEventView) -> Seq<char> {
    seq!['{'] + spec_member("integration_key"@, ev.integration_key) + seq![','] + spec_member(
        "event_status"@,
        spec_status_name(ev.event_status),
    ) + seq![','] + spec_member("title_rule"@, ev.title_rule)
}

/// The head followed by the alert-key member, when one is present.
pub open spec fn spec_event_with_alert_key(ev: AlertEventView) -> Seq<char> {
    match ev.alert_key {
        Some(k) => spec_event_head(ev) + seq![','] + spec_member("alert_key"@, k),
        None => spec_event_head(ev),
    }
}

/// The text so far followed by the description member, when one is present.
pub open spec fn spec_event_with_description(ev: AlertEventView) -> Seq<char> {
    match ev.description {
        Some(d) => spec_event_with_alert_key(ev) + seq![','] + spec_member("description"@, d),
        None => spec_event_with_alert_key(ev),
    }
}

/// The text so far followed by the label map, when one is present.
pub open spec fn spec_event_with_labels(ev: AlertEventView) -> Seq<char> {
    match ev.labels {
        Some(ls) => spec_event_with_description(ev) + seq![','] + spec_json_string("labels"@)
            + seq![':'] + spec_encode_labels(ls),
        None => spec_event_with_description(ev),
    }
}

/// The text so far followed by the image list, when one is present.
pub open spec fn spec_event_with_images(ev: AlertEventView) -> Seq<char> {
    match ev.images {
        Some(imgs) => spec_event_with_labels(ev) + seq![','] + spec_json_string("images"@)
            + seq![':'] + spec_encode_images(imgs),
        None => spec_event_with_labels(ev),
    }
}

/// The canonical wire representation of an event: the required members in a
/// fixed order, then each optional member only when the field is present.
pub open spec fn spec_encode_event(ev: AlertEventView) -> Seq<char> {
    spec_event_with_images(ev) + seq!['}']
}

/// Appending one element is the same as concatenating a singleton.
proof fn lemma_push_concat<A>(s: Seq<A>, x: A)
    ensures
        s.push(x) == s + seq![x],
{
    assert(s.push(x) =~= s + seq![x]);
}

/// Relies on `String::push`: appends exactly the one character.
#[verifier::external_body]
fn push_char(out: &mut String, c: char)
    ensures
        final(out)@ == old(out)@.push(c),
{
    out.push(c);
}

/// The lower-case hex digit of a value below 16.
fn hex_digit_char(n: u32) -> (r: char)
    requires
        n < 16,
    ensures
        r == hex_digit(n as int),
{
    match n {
        0 => '0',
        1 => '1',
        2 => '2',
        3 => '3',
        4 => '4',
        5 => '5',
        6 => '6',
        7 => '7',
        8 => '8',
        9 => '9',
        10 => 'a',
        11 => 'b',
        12 => 'c',
        13 => 'd',
        14 => 'e',
        _ => 'f',
    }
}

/// Appends the escaped body of `s` to `out`.
fn append_escaped(out: &mut String, s: &str)
    ensures
        final(out)@ == old(out)@ + spec_escape(s@),
{
    let len = s.unicode_len();
    let mut i: usize = 0;
    while i < len
        invariant
            i <= len,
            len == s@.len(),
            out@ == old(out)@ + spec_escape(s@.subrange(0, i as int)),
        decreases len - i,
    {
        let c = s.get_char(i);
        proof {
            let t = s@.subrange(0, i as int + 1);
            assert(t.drop_last() =~= s@.subrange(0, i as int));
            assert(t.last() == s@[i as int]);
        }
        if c == '"' {
            out.append("\\\"");
            proof {
                reveal_strlit("\\\"");
                assert("\\\""@ =~= spec_escape_char('"'));
            }
        } else if c == '\\' {
            out.append("\\\\");
            proof {
                reveal_strlit("\\\\");
                assert("\\\\"@ =~= spec_escape_char('\\'));
            }
        } else if c == '\n' {
            out.append("\\n");
            proof {
                reveal_strlit("\\n");
                assert("\\n"@ =~= spec_escape_char('\n'));
            }
        } else if c == '\r' {
            out.append("\\r");
            proof {
                reveal_strlit("\\r");
                assert("\\r"@ =~= spec_escape_char('\r'));
            }
        } else if c == '\t' {
            out.append("\\t");
            proof {
                reveal_strlit("\\t");
                assert("\\t"@ =~= spec_escape_char('\t'));
            }
        } else if (c as u32) < 0x20 {
            out.append("\\u00");
            push_char(out, hex_digit_char(c as u32 / 16));
            push_char(out, hex_digit_char(c as u32 % 16));
            proof {
                reveal_strlit("\\u00");
                assert("\\u00"@.push(hex_digit(c as u32 as int / 16)).push(
                    hex_digit(c as u32 as int % 16),
                ) =~= spec_escape_char(c));
            }
        } else {
            push_char(out, c);
            proof {
                assert(Seq::<char>::empty().push(c) =~= spec_escape_char(c));
            }
        }
        proof {
            assert(out@ =~= old(out)@ + spec_escape(s@.subrange(0, i as int + 1)));
        }
        i += 1;
    }
    proof {
        assert(s@.subrange(0, len as int) =~= s@);
    }
}

/// Appends `s` as a JSON string literal to `out`.
fn append_json_string(out: &mut String, s: &str)
    ensures
        final(out)@ == old(out)@ + spec_json_string(s@),
{
    push_char(out, '"');
    append_escaped(out, s);
    push_char(out, '"');
    proof {
        assert(out@ =~= old(out)@ + spec_json_string(s@));
    }
}

/// Appends one `"name":"value"` member.
fn append_member(out: &mut String, name: &str, value: &str)
    ensures
        final(out)@ == old(out)@ + spec_member(name@, value@),
{
    append_json_string(out, name);
    push_char(out, ':');
    append_json_string(out, value);
    proof {
        assert(out@ =~= old(out)@ + spec_member(name@, value@));
    }
}

/// Appends the label map as a JSON object, in the event's order.
fn append_labels(out: &mut String, ls: &Vec<(String, String)>)
    ensures
        final(out)@ == old(out)@ + spec_encode_labels(ls.deep_view()),
{
    push_char(out, '{');
    let mut i: usize = 0;
    while i < ls.len()
        invariant
            i <= ls.len(),
            out@ == old(out)@.push('{') + spec_encode_label_items(
                ls.deep_view().subrange(0, i as int),
            ),
        decreases ls.len() - i,
    {
        if i > 0 {
            push_char(out, ',');
        }
        append_member(out, ls[i].0.as_str(), ls[i].1.as_str());
        proof {
            let dv = ls.deep_view();
            let t = dv.subrange(0, i as int + 1);
            if i == 0 {
                assert(t =~= seq![dv[0]]);
                assert(t[0] == dv[0]);
            } else {
                assert(t.drop_last() =~= dv.subrange(0, i as int));
                assert(t.last() == dv[i as int]);
            }
            assert(out@ =~= old(out)@.push('{') + spec_encode_label_items(t));
        }
        i += 1;
    }
    push_char(out, '}');
    proof {
        assert(ls.deep_view().subrange(0, ls.len() as int) =~= ls.deep_view());
        assert(out@ =~= old(out)@ + spec_encode_labels(ls.deep_view()));
    }
}

/// Appends one image descriptor as a JSON object.
fn append_image(out: &mut String, img: &Image)
    ensures
        final(out)@ == old(out)@ + spec_encode_image(img@),
{
    push_char(out, '{');
    append_member(out, "src", img.src.as_str());
    match &img.href {
        Some(h) => {
            push_char(out, ',');
            append_member(out, "href", h.as_str());
        },
        None => {},
    }
    match &img.alt {
        Some(a) => {
            push_char(out, ',');
            append_member(out, "alt", a.as_str());
        },
        None => {},
    }
    push_char(out, '}');
    proof {
        assert(out@ =~= old(out)@ + spec_encode_image(img@));
    }
}

/// Appends the image list as a JSON array, in the event's order.
fn append_images(out: &mut String, imgs: &Vec<Image>)
    ensures
        final(out)@ == old(out)@ + spec_encode_images(imgs.deep_view()),
{
    push_char(out, '[');
    let mut i: usize = 0;
    while i < imgs.len()
        invariant
            i <= imgs.len(),
            out@ == old(out)@.push('[') + spec_encode_image_items(
                imgs.deep_view().subrange(0, i as int),
            ),
        decreases imgs.len() - i,
    {
        if i > 0 {
            push_char(out, ',');
        }
        append_image(out, &imgs[i]);
        proof {
            let dv = imgs.deep_view();
            let t = dv.subrange(0, i as int + 1);
            if i == 0 {
                assert(t =~= seq![dv[0]]);
                assert(t[0] == dv[0]);
            } else {
                assert(t.drop_last() =~= dv.subrange(0, i as int));
                assert(t.last() == dv[i as int]);
            }
            assert(out@ =~= old(out)@.push('[') + spec_encode_image_items(t));
        }
        i += 1;
    }
    push_char(out, ']');
    proof {
        assert(imgs.deep_view().subrange(0, imgs.len() as int) =~= imgs.deep_view());
        assert(out@ =~= old(out)@ + spec_encode_images(imgs.deep_view()));
    }
}

/// Builds the canonical wire representation of one event: exactly the text
/// that [`spec_encode_event`] gives for its value.
pub fn encode_event(ev: &AlertEvent) -> (r: String)
    ensures
        r@ == spec_encode_event(ev@),
{
    let mut out = String::new();
    push_char(&mut out, '{');
    proof {
        assert(out@ =~= seq!['{']);
    }
    append_member(&mut out, "integration_key", ev.integration_key.as_str());
    push_char(&mut out, ',');
    proof {
        lemma_push_concat(seq!['{'] + spec_member("integration_key"@, ev@.integration_key), ',');
    }
    append_member(&mut out, "event_status", status_name(ev.event_status));
    push_char(&mut out, ',');
    proof {
        lemma_push_concat(
            seq!['{'] + spec_member("integration_key"@, ev@.integration_key) + seq![',']
                + spec_member("event_status"@, spec_status_name(ev@.event_status)),
            ',',
        );
    }
    append_member(&mut out, "title_rule", ev.title_rule.as_str());
    proof {
        assert(out@ == spec_event_head(ev@));
    }
    match &ev.alert_key {
        Some(k) => {
            push_char(&mut out, ',');
            proof {
                lemma_push_concat(spec_event_head(ev@), ',');
            }
            append_member(&mut out, "alert_key", k.as_str());
        },
        None => {},
    }
    proof {
        assert(out@ == spec_event_with_alert_key(ev@));
    }
    match &ev.description {
        Some(d) => {
            push_char(&mut out, ',');
            proof {
                lemma_push_concat(spec_event_with_alert_key(ev@), ',');
            }
            append_member(&mut out, "description", d.as_str());
        },
        None => {},
    }
    proof {
        assert(out@ == spec_event_with_description(ev@));
    }
    match &ev.labels {
        Some(ls) => {
            push_char(&mut out, ',');
            proof {
                lemma_push_concat(spec_event_with_description(ev@), ',');
            }
            append_json_string(&mut out, "labels");
            push_char(&mut out, ':');
            proof {
                lemma_push_concat(
                    spec_event_with_description(ev@) + seq![','] + spec_json_string("labels"@),
                    ':',
                );
            }
            append_labels(&mut out, ls);
        },
        None => {},
    }
    proof {
        assert(out@ == spec_event_with_labels(ev@));
    }
    match &ev.images {
        Some(imgs) => {
            push_char(&mut out, ',');
            proof {
                lemma_push_concat(spec_event_with_labels(ev@), ',');
            }
            append_json_string(&mut out, "images");
            push_char(&mut out, ':');
            proof {
                lemma_push_concat(
                    spec_event_with_labels(ev@) + seq![','] + spec_json_string("images"@),
                    ':',
                );
            }
            append_images(&mut out, imgs);
        },
        None => {},
    }
    proof {
        assert(out@ == spec_event_with_images(ev@));
    }
    push_char(&mut out, '}');
    proof {
        lemma_push_concat(spec_event_with_images(ev@), '}');
    }
    out
}

} // verus!
