//! The completion client's verified half: framing the request body that is
//! sent to the completion endpoint, and deciding what a response means.
//!
//! The wire contract is JSON: a fixed model identifier, the full message
//! history in order, a temperature and a response-token bound. The library
//! produces the body as text; the surrounding binary only transports it and
//! hands back the choice contents it received, if any.

use vstd::prelude::*;
use vstd::string::StringExecFns;
use crate::history::{History, MessageView, Role};
use crate::text::{chars_to_string, push_str_chars};

verus! {

/// The hexadecimal digit `d` as a lower-case character; meaningful for
/// `d < 16`.
pub open spec fn spec_hex_digit(d: nat) -> char {
    if d < 10 {
        (((48 + d) as u8) as char)
    } else {
        (((87 + d) as u8) as char)
    }
}

/// How one character is written inside a JSON string literal: quote and
/// backslash are escaped, the named control characters take their short
/// escapes, every other control character its `\u00XX` escape, and
/// everything else stands as itself.
pub open spec fn spec_escape_char(c: char) -> Seq<char> {
    if c == '"' {
        seq!['\\', '"']
    } else if c == '\\' {
        seq!['\\', '\\']
    } else if c == '\u{0008}' {
        seq!['\\', 'b']
    } else if c == '\u{0009}' {
        seq!['\\', 't']
    } else if c == '\u{000A}' {
        seq!['\\', 'n']
    } else if c == '\u{000C}' {
        seq!['\\', 'f']
    } else if c == '\u{000D}' {
        seq!['\\', 'r']
    } else if (c as u32) < 32 {
        seq!['\\', 'u', '0', '0', spec_hex_digit((c as u32) as nat / 16), spec_hex_digit(
            (c as u32) as nat % 16,
        )]
    } else {
        seq![c]
    }
}

/// A whole text as it is written inside a JSON string literal.
pub open spec fn spec_escape(s: Seq<char>) -> Seq<char>
    decreases s.len(),
{
    if s.len() == 0 {
        Seq::empty()
    } else {
        spec_escape_char(s[0]) + spec_escape(s.drop_first())
    }
}

proof fn lemma_escape_snoc(s: Seq<char>, c: char)
    ensures
        spec_escape(s.push(c)) == spec_escape(s) + spec_escape_char(c),
    decreases s.len(),
{
    if s.len() == 0 {
        assert(s.push(c)[0] == c);
        assert(s.push(c).drop_first() =~= s);
        assert(spec_escape(s.push(c)) == spec_escape_char(c) + spec_escape(s));
        assert(spec_escape_char(c) + spec_escape(s) =~= spec_escape(s) + spec_escape_char(c));
    } else {
        lemma_escape_snoc(s.drop_first(), c);
        assert(s.push(c)[0] == s[0]);
        assert(s.push(c).drop_first() =~= s.drop_first().push(c));
        assert(spec_escape(s.push(c)) =~= spec_escape(s) + spec_escape_char(c));
    }
}

/// Appends the JSON escaping of `s` to `acc`.
fn push_escaped(acc: &mut Vec<char>, s: &str)
    ensures
        final(acc)@ == old(acc)@ + spec_escape(s@),
{
    let ghost base = acc@;
    let n = s.unicode_len();
    let mut i: usize = 0;
    while i < n
        invariant
            n == s@.len(),
            i <= n,
            acc@ == base + spec_escape(s@.subrange(0, i as int)),
        decreases n - i,
    {
        let c = s.get_char(i);
        let code = c as u32;
        if c == '"' {
            acc.push('\\');
            acc.push('"');
        } else if c == '\\' {
            acc.push('\\');
            acc.push('\\');
        } else if c == '\u{0008}' {
            acc.push('\\');
            acc.push('b');
        } else if c == '\u{0009}' {
            acc.push('\\');
            acc.push('t');
        } else if c == '\u{000A}' {
            acc.push('\\');
            acc.push('n');
        } else if c == '\u{000C}' {
            acc.push('\\');
            acc.push('f');
        } else if c == '\u{000D}' {
            acc.push('\\');
            acc.push('r');
        } else if code < 32 {
            acc.push('\\');
            acc.push('u');
            acc.push('0');
            acc.push('0');
            acc.push(hex_digit((code / 16) as u8));
            acc.push(hex_digit((code % 16) as u8));
        } else {
            acc.push(c);
        }
        proof {
            lemma_escape_snoc(s@.subrange(0, i as int), s@[i as int]);
            assert(s@.subrange(0, i as int).push(s@[i as int]) =~= s@.subrange(0, i + 1));
            assert(acc@ =~= base + (spec_escape(s@.subrange(0, i as int)) + spec_escape_char(
                s@[i as int],
            )));
        }
        i = i + 1;
    }
    proof {
        assert(s@.subrange(0, n as int) =~= s@);
    }
}

/// Decides `spec_hex_digit`.
fn hex_digit(d: u8) -> (r: char)
    requires
        d < 16,
    ensures
        r == spec_hex_digit(d as nat),
{
    if d < 10 {
        (48 + d) as char
    } else {
        (87 + d) as char
    }
}

/// The wire name of a role.
pub open spec fn spec_role_str(r: Role) -> Seq<char> {
    match r {
        Role::System => "system"@,
        Role::User => "user"@,
        Role::Assistant => "assistant"@,
    }
}

/// One message as a JSON object.
pub open spec fn spec_message_json(m: MessageView) -> Seq<char> {
    "{\"role\":\""@ + spec_role_str(m.role) + "\",\"content\":\""@ + spec_escape(m.content)
        + "\"}"@
}

/// The messages from position `i` on, comma-separated.
pub open spec fn spec_messages_json_from(ms: Seq<MessageView>, i: int) -> Seq<char>
    decreases ms.len() - i,
    when 0 <= i <= ms.len()
{
    if i >= ms.len() {
        Seq::empty()
    } else if i == ms.len() - 1 {
        spec_message_json(ms[i])
    } else {
        spec_message_json(ms[i]) + ","@ + spec_messages_json_from(ms, i + 1)
    }
}

/// The opening of the request body, up to the messages array.
pub open spec fn spec_body_prefix() -> Seq<char> {
    "{\"model\":\"deepseek-coder\",\"messages\":["@
}

/// The close of the request body, after the messages array: the temperature
/// and the response-token bound.
pub open spec fn spec_body_suffix() -> Seq<char> {
    "],\"temperature\":0.7,\"max_tokens\":500}"@
}

/// The whole request body for a history.
pub open spec fn spec_request_body(ms: Seq<MessageView>) -> Seq<char> {
    spec_body_prefix() + spec_messages_json_from(ms, 0) + spec_body_suffix()
}

/// Frames the completion request for `h`: the fixed model identifier, every
/// message of the history in order with its role, temperature 0.7 and a
/// 500-token response bound, as one JSON text.
pub fn build_request_body(h: &History) -> (r: String)
    ensures
        r@ == spec_request_body(h@),
{
    let mut acc: Vec<char> = Vec::new();
    push_str_chars(&mut acc, "{\"model\":\"deepseek-coder\",\"messages\":[");
    let n = h.len();
    let mut i: usize = 0;
    while i < n
        invariant
            n == h@.len(),
            i <= n,
            i == 0 ==> acc@ == spec_body_prefix(),
            0 < i < n ==> spec_body_prefix() + spec_messages_json_from(h@, 0) == acc@ + ","@
                + spec_messages_json_from(h@, i as int),
            0 < i && i == n ==> spec_body_prefix() + spec_messages_json_from(h@, 0) == acc@,
        decreases n - i,
    {
        let ghost pre = acc@;
        if i > 0 {
            acc.push(',');
        }
        let ghost mark = acc@;
        push_str_chars(&mut acc, "{\"role\":\"");
        match h.role_at(i) {
            Role::System => push_str_chars(&mut acc, "system"),
            Role::User => push_str_chars(&mut acc, "user"),
            Role::Assistant => push_str_chars(&mut acc, "assistant"),
        }
        push_str_chars(&mut acc, "\",\"content\":\"");
        push_escaped(&mut acc, h.content_at(i).as_str());
        push_str_chars(&mut acc, "\"}");
        proof {
            let m = h@[i as int];
            assert(acc@ =~= mark + spec_message_json(m));
            if i == 0 {
                assert(mark == pre);
                if i + 1 < n {
                    assert(spec_body_prefix() + spec_messages_json_from(h@, 0) =~= acc@ + ","@
                        + spec_messages_json_from(h@, 1));
                } else {
                    assert(spec_body_prefix() + spec_messages_json_from(h@, 0) =~= acc@);
                }
            } else {
                reveal_strlit(",");
                assert(mark =~= pre + ","@);
                if i + 1 < n {
                    assert(spec_messages_json_from(h@, i as int) =~= spec_message_json(m) + ","@
                        + spec_messages_json_from(h@, i + 1));
                    assert(spec_body_prefix() + spec_messages_json_from(h@, 0) =~= acc@ + ","@
                        + spec_messages_json_from(h@, i + 1));
                } else {
                    assert(spec_messages_json_from(h@, i as int) =~= spec_message_json(m));
                    assert(spec_body_prefix() + spec_messages_json_from(h@, 0) =~= acc@);
                }
            }
        }
        i = i + 1;
    }
    push_str_chars(&mut acc, "],\"temperature\":0.7,\"max_tokens\":500}");
    proof {
        if n == 0 {
            assert(spec_messages_json_from(h@, 0) =~= Seq::<char>::empty());
        }
        assert(acc@ =~= spec_request_body(h@));
    }
    chars_to_string(&acc)
}

/// What stands in the messages array before message `i`: the earlier
/// messages, each followed by its comma.
pub open spec fn spec_messages_before(ms: Seq<MessageView>, i: int) -> Seq<char>
    decreases i,
    when 0 <= i <= ms.len()
{
    if i <= 0 {
        Seq::empty()
    } else {
        spec_messages_before(ms, i - 1) + spec_message_json(ms[i - 1]) + ","@
    }
}

/// What stands in the messages array after message `i`.
pub open spec fn spec_messages_after(ms: Seq<MessageView>, i: int) -> Seq<char> {
    if i + 1 < ms.len() {
        ","@ + spec_messages_json_from(ms, i + 1)
    } else {
        Seq::empty()
    }
}

/// Law: the request body carries every message of the history, in order —
/// message `i` stands in the framed payload between the earlier and the
/// later ones. So a user message that a failed completion left in the
/// history is still part of the body framed for the next call: history is
/// cumulative across failures.
pub proof fn lemma_request_carries_every_message(ms: Seq<MessageView>, i: int)
    requires
        0 <= i < ms.len(),
    ensures
        spec_request_body(ms) == spec_body_prefix() + spec_messages_before(ms, i)
            + spec_message_json(ms[i]) + spec_messages_after(ms, i) + spec_body_suffix(),
    decreases i,
{
    if i == 0 {
        if i + 1 < ms.len() {
            assert(spec_messages_json_from(ms, 0) =~= spec_message_json(ms[0])
                + spec_messages_after(ms, 0));
        }
        assert(spec_request_body(ms) =~= spec_body_prefix() + spec_messages_before(ms, 0)
            + spec_message_json(ms[0]) + spec_messages_after(ms, 0) + spec_body_suffix());
    } else {
        lemma_request_carries_every_message(ms, i - 1);
        assert(spec_messages_after(ms, i - 1) =~= ","@ + spec_messages_json_from(ms, i));
        if i + 1 < ms.len() {
            assert(spec_messages_json_from(ms, i) =~= spec_message_json(ms[i]) + ","@
                + spec_messages_json_from(ms, i + 1));
        }
        assert(spec_request_body(ms) =~= spec_body_prefix() + spec_messages_before(ms, i)
            + spec_message_json(ms[i]) + spec_messages_after(ms, i) + spec_body_suffix());
    }
}

/// The one error surfaced when no valid response arrives, whatever went
/// wrong underneath.
pub open spec fn spec_no_reply() -> Seq<char> {
    "No se pudo obtener una respuesta válida de Deepseek"@
}

/// Decides a completion outcome.
///
/// `choices` holds the contents of the response's choice list when
/// transport, status and parsing all succeeded, and `None` otherwise. The
/// reply is the first choice's content; an empty choice list, like every
/// failure underneath, yields the one generic error.
pub fn completion_outcome(choices: Option<Vec<String>>) -> (r: Result<String, String>)
    ensures
        match choices {
            Some(cs) => if cs.deep_view().len() > 0 {
                r matches Ok(s) && s@ == cs.deep_view()[0]
            } else {
                r matches Err(e) && e@ == spec_no_reply()
            },
            None => r matches Err(e) && e@ == spec_no_reply(),
        },
{
    match choices {
        Some(cs) => {
            if cs.len() > 0 {
                Ok(cs[0].clone())
            } else {
                Err(String::from_str("No se pudo obtener una respuesta válida de Deepseek"))
            }
        },
        None => Err(String::from_str("No se pudo obtener una respuesta válida de Deepseek")),
    }
}

} // verus!
