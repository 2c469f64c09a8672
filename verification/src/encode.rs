//! JSON string encoding: the escaping a text undergoes inside a JSON string
//! literal, and the exact body of a sendMessage call.

use vstd::prelude::*;
use crate::strutil::push_char;

verus! {

/// The lowercase hexadecimal digit character of a value below sixteen.
pub open spec fn hex_digit(d: nat) -> char {
    if d == 0 {
        '0'
    } else if d == 1 {
        '1'
    } else if d == 2 {
        '2'
    } else if d == 3 {
        '3'
    } else if d == 4 {
        '4'
    } else if d == 5 {
        '5'
    } else if d == 6 {
        '6'
    } else if d == 7 {
        '7'
    } else if d == 8 {
        '8'
    } else if d == 9 {
        '9'
    } else if d == 10 {
        'a'
    } else if d == 11 {
        'b'
    } else if d == 12 {
        'c'
    } else if d == 13 {
        'd'
    } else if d == 14 {
        'e'
    } else {
        'f'
    }
}

/// The hexadecimal digit character of a value below sixteen.
pub(crate) fn hex_digit_exec(d: u8) -> (c: char)
    requires
        d < 16,
    ensures
        c == hex_digit(d as nat),
{
    match d {
        0 => '0',
        1 => '1',
        2 => '2',
        3 => '3',
        4 => '4',
        5 => '5',
        6 => '6',
        7 => '7',
        8 => '8',
        9 => '9',
        10 => 'a',
        11 => 'b',
        12 => 'c',
        13 => 'd',
        14 => 'e',
        _ => 'f',
    }
}

/// How one character appears inside a JSON string literal: quote, backslash
/// and the named control characters get a two-character escape, any other
/// control character a `\u00..` escape, and everything else stands as itself.
pub open spec fn json_escaped_char(c: char) -> Seq<char> {
    if c == '"' {
        seq!['\\', '"']
    } else if c == '\\' {
        seq!['\\', '\\']
    } else if c == '\u{8}' {
        seq!['\\', 'b']
    } else if c == '\t' {
        seq!['\\', 't']
    } else if c == '\n' {
        seq!['\\', 'n']
    } else if c == '\u{c}' {
        seq!['\\', 'f']
    } else if c == '\r' {
        seq!['\\', 'r']
    } else if (c as u32) < 32 {
        seq!['\\', 'u', '0', '0', hex_digit(((c as u32) / 16) as nat), hex_digit(
            ((c as u32) % 16) as nat,
        )]
    } else {
        seq![c]
    }
}

/// A text as it appears inside a JSON string literal.
pub open spec fn json_escaped(s: Seq<char>) -> Seq<char>
    decreases s.len(),
{
    if s.len() == 0 {
        Seq::empty()
    } else {
        json_escaped_char(s[0]) + json_escaped(s.drop_first())
    }
}

proof fn lemma_json_escaped_push(s: Seq<char>, c: char)
    ensures
        json_escaped(s.push(c)) == json_escaped(s) + json_escaped_char(c),
    decreases s.len(),
{
    if s.len() == 0 {
        assert(json_escaped(s) == Seq::<char>::empty());
        assert(s.push(c)[0] == c);
        assert(s.push(c).drop_first() =~= Seq::<char>::empty());
        assert(json_escaped(s.push(c).drop_first()) == Seq::<char>::empty());
        assert(json_escaped(s.push(c)) =~= json_escaped(s) + json_escaped_char(c));
    } else {
        assert(s.push(c)[0] == s[0]);
        assert(s.push(c).drop_first() =~= s.drop_first().push(c));
        lemma_json_escaped_push(s.drop_first(), c);
        assert(json_escaped(s.push(c)) == json_escaped_char(s[0]) + json_escaped(
            s.drop_first().push(c),
        ));
        assert(json_escaped(s) == json_escaped_char(s[0]) + json_escaped(s.drop_first()));
        assert(json_escaped(s.push(c)) =~= json_escaped(s) + json_escaped_char(c));
    }
}

/// Append the escaped form of one character.
fn append_escaped_char(r: &mut String, c: char)
    ensures
        final(r)@ == old(r)@ + json_escaped_char(c),
{
    if c == '"' {
        r.append("\\\"");
        proof {
            reveal_strlit("\\\"");
            assert(final(r)@ =~= old(r)@ + json_escaped_char(c));
        }
    } else if c == '\\' {
        r.append("\\\\");
        proof {
            reveal_strlit("\\\\");
            assert(final(r)@ =~= old(r)@ + json_escaped_char(c));
        }
    } else if c == '\u{8}' {
        r.append("\\b");
        proof {
            reveal_strlit("\\b");
            assert(final(r)@ =~= old(r)@ + json_escaped_char(c));
        }
    } else if c == '\t' {
        r.append("\\t");
        proof {
            reveal_strlit("\\t");
            assert(final(r)@ =~= old(r)@ + json_escaped_char(c));
        }
    } else if c == '\n' {
        r.append("\\n");
        proof {
            reveal_strlit("\\n");
            assert(final(r)@ =~= old(r)@ + json_escaped_char(c));
        }
    } else if c == '\u{c}' {
        r.append("\\f");
        proof {
            reveal_strlit("\\f");
            assert(final(r)@ =~= old(r)@ + json_escaped_char(c));
        }
    } else if c == '\r' {
        r.append("\\r");
        proof {
            reveal_strlit("\\r");
            assert(final(r)@ =~= old(r)@ + json_escaped_char(c));
        }
    } else {
        let code: u32 = c as u32;
        if code < 32 {
            r.append("\\u00");
            let hi: u8 = (code / 16) as u8;
            let lo: u8 = (code % 16) as u8;
            push_char(r, hex_digit_exec(hi));
            push_char(r, hex_digit_exec(lo));
            proof {
                reveal_strlit("\\u00");
                assert(final(r)@ =~= old(r)@ + json_escaped_char(c));
            }
        } else {
            push_char(r, c);
            proof {
                assert(final(r)@ =~= old(r)@ + json_escaped_char(c));
            }
        }
    }
}

/// Escape a text for inclusion in a JSON string literal.
pub fn escape_json(s: &str) -> (r: String)
    ensures
        r@ == json_escaped(s@),
{
    let n = s.unicode_len();
    let mut r = String::new();
    let mut i: usize = 0;
    while i < n
        invariant
            i <= n,
            n == s@.len(),
            r@ == json_escaped(s@.take(i as int)),
        decreases n - i,
    {
        let c = s.get_char(i);
        proof {
            assert(s@.take(i as int).push(c) =~= s@.take(i + 1 as int));
            lemma_json_escaped_push(s@.take(i as int), c);
        }
        append_escaped_char(&mut r, c);
        i = i + 1;
    }
    proof {
        assert(s@.take(n as int) =~= s@);
    }
    r
}

/// The JSON body of a sendMessage call: the chat id and the text as escaped
/// string fields, and HTML parse mode, with the keys in the order they are
/// serialized.
pub open spec fn send_message_json(chat_id: Seq<char>, text: Seq<char>) -> Seq<char> {
    "{\"chat_id\":\""@ + json_escaped(chat_id) + "\",\"parse_mode\":\"HTML\",\"text\":\""@
        + json_escaped(text) + "\"}"@
}

/// Build the sendMessage body for a chat id and a message text.
pub fn send_message_body(chat_id: &str, text: &str) -> (r: String)
    ensures
        r@ == send_message_json(chat_id@, text@),
{
    let mut s = String::from_str("{\"chat_id\":\"");
    let escaped_chat = escape_json(chat_id);
    s.append(escaped_chat.as_str());
    s.append("\",\"parse_mode\":\"HTML\",\"text\":\"");
    let escaped_text = escape_json(text);
    s.append(escaped_text.as_str());
    s.append("\"}");
    proof {
        assert(s@ =~= send_message_json(chat_id@, text@));
    }
    s
}

} // verus!
