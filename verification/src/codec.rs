//! Command channel codec: each control message sent to the worker is one
//! newline-terminated line of JSON. Encoding is write-only; the worker
//! decodes on its side. String values are escaped as JSON requires.
use vstd::prelude::*;
use crate::text::decimal_digit;

verus! {

/// One control message of the fixed command vocabulary.
pub enum ControlMessage {
    StartInsertion { form: Option<String> },
    PauseInsertion,
    StopInsertion,
    LoadCsvContent { csv: String },
    LoadCsvPath { path: String },
}

/// The character for one hexadecimal digit, lower case.
pub open spec fn hex_digit(d: int) -> char
    recommends
        0 <= d < 16,
{
    if d < 10 {
        decimal_digit(d)
    } else {
        ((d + 0x57) as u8) as char
    }
}

/// How one character appears inside a JSON string literal: quote and
/// backslash are escaped, the named control characters get their short
/// escapes, the remaining control characters a `\u00XX` escape, and
/// everything else stands for itself.
pub open spec fn escaped_char(c: char) -> Seq<char> {
    if c == '"' {
        seq!['\\', '"']
    } else if c == '\\' {
        seq!['\\', '\\']
    } else if c == '\u{08}' {
        seq!['\\', 'b']
    } else if c == '\u{0C}' {
        seq!['\\', 'f']
    } else if c == '\n' {
        seq!['\\', 'n']
    } else if c == '\r' {
        seq!['\\', 'r']
    } else if c == '\t' {
        seq!['\\', 't']
    } else if (c as int) < 0x20 {
        seq!['\\', 'u', '0', '0', hex_digit(c as int / 16), hex_digit(c as int % 16)]
    } else {
        seq![c]
    }
}

/// The body of a JSON string literal holding the characters of `s`.
pub open spec fn json_escaped(s: Seq<char>) -> Seq<char>
    decreases s.len(),
{
    if s.len() == 0 {
        Seq::empty()
    } else {
        json_escaped(s.drop_last()) + escaped_char(s.last())
    }
}

fn hex_digit_char(d: u8) -> (c: char)
    requires
        d < 16,
    ensures
        c == hex_digit(d as int),
{
    if d < 10 {
        (0x30u8 + d) as char
    } else {
        (0x57u8 + d) as char
    }
}

/// Appends the JSON-escaped form of `s` to `out`.
pub(crate) fn append_json_escaped(out: &mut String, s: &str)
    ensures
        final(out)@ == old(out)@ + json_escaped(s@),
{
    let n = s.unicode_len();
    let mut i: usize = 0;
    while i < n
        invariant
            n == s@.len(),
            i <= n,
            out@ == old(out)@ + json_escaped(s@.take(i as int)),
        decreases n - i,
    {
        let c = s.get_char(i);
        if c == '"' {
            out.append("\\\"");
            proof {
                reveal_strlit("\\\"");
                assert("\\\""@ =~= escaped_char(c));
            }
        } else if c == '\\' {
            out.append("\\\\");
            proof {
                reveal_strlit("\\\\");
                assert("\\\\"@ =~= escaped_char(c));
            }
        } else if c == '\u{08}' {
            out.append("\\b");
            proof {
                reveal_strlit("\\b");
                assert("\\b"@ =~= escaped_char(c));
            }
        } else if c == '\u{0C}' {
            out.append("\\f");
            proof {
                reveal_strlit("\\f");
                assert("\\f"@ =~= escaped_char(c));
            }
        } else if c == '\n' {
            out.append("\\n");
            proof {
                reveal_strlit("\\n");
                assert("\\n"@ =~= escaped_char(c));
            }
        } else if c == '\r' {
            out.append("\\r");
            proof {
                reveal_strlit("\\r");
                assert("\\r"@ =~= escaped_char(c));
            }
        } else if c == '\t' {
            out.append("\\t");
            proof {
                reveal_strlit("\\t");
                assert("\\t"@ =~= escaped_char(c));
            }
        } else if (c as u32) < 0x20 {
            let code = c as u32;
            out.append("\\u00");
            crate::text::push_char(out, hex_digit_char((code / 16) as u8));
            crate::text::push_char(out, hex_digit_char((code % 16) as u8));
            proof {
                reveal_strlit("\\u00");
                assert("\\u00"@ + seq![hex_digit(c as int / 16), hex_digit(c as int % 16)]
                    =~= escaped_char(c));
            }
        } else {
            crate::text::push_char(out, c);
            proof {
                assert(seq![c] =~= escaped_char(c));
            }
        }
        proof {
            let pre = s@.take(i as int);
            let post = s@.take(i as int + 1);
            assert(post.drop_last() =~= pre);
            assert(post.last() == s@[i as int]);
            assert(json_escaped(post) == json_escaped(pre) + escaped_char(s@[i as int]));
        }
        i = i + 1;
    }
    proof {
        assert(s@.take(n as int) =~= s@);
    }
}

/// The one line of text that carries a control message: a JSON object with
/// the `cmd` discriminator first, then the message's field, closed by a
/// newline. Written exactly as the worker expects it on its input stream.
pub open spec fn control_line_spec(m: ControlMessage) -> Seq<char> {
    match m {
        ControlMessage::StartInsertion { form: Option::None } =>
            "{\"cmd\":\"start_insertion\"}\n"@,
        ControlMessage::StartInsertion { form: Option::Some(f) } =>
            "{\"cmd\":\"start_insertion\",\"form\":\""@ + json_escaped(f@) + "\"}\n"@,
        ControlMessage::PauseInsertion => "{\"cmd\":\"pause_insertion\"}\n"@,
        ControlMessage::StopInsertion => "{\"cmd\":\"stop_insertion\"}\n"@,
        ControlMessage::LoadCsvContent { csv } =>
            "{\"cmd\":\"load_csv_content\",\"csv\":\""@ + json_escaped(csv@) + "\"}\n"@,
        ControlMessage::LoadCsvPath { path } =>
            "{\"cmd\":\"load_csv_path\",\"path\":\""@ + json_escaped(path@) + "\"}\n"@,
    }
}

/// Encodes a control message as its single wire line.
pub fn encode_control_line(m: &ControlMessage) -> (r: String)
    ensures
        r@ == control_line_spec(*m),
{
    match m {
        ControlMessage::StartInsertion { form: Option::None } => {
            "{\"cmd\":\"start_insertion\"}\n".to_owned()
        },
        ControlMessage::StartInsertion { form: Option::Some(f) } => {
            let mut s = "{\"cmd\":\"start_insertion\",\"form\":\"".to_owned();
            append_json_escaped(&mut s, f.as_str());
            s.append("\"}\n");
            s
        },
        ControlMessage::PauseInsertion => "{\"cmd\":\"pause_insertion\"}\n".to_owned(),
        ControlMessage::StopInsertion => "{\"cmd\":\"stop_insertion\"}\n".to_owned(),
        ControlMessage::LoadCsvContent { csv } => {
            let mut s = "{\"cmd\":\"load_csv_content\",\"csv\":\"".to_owned();
            append_json_escaped(&mut s, csv.as_str());
            s.append("\"}\n");
            s
        },
        ControlMessage::LoadCsvPath { path } => {
            let mut s = "{\"cmd\":\"load_csv_path\",\"path\":\"".to_owned();
            append_json_escaped(&mut s, path.as_str());
            s.append("\"}\n");
            s
        },
    }
}

/// No escape form contains a newline: the newline character itself leaves as
/// its two-character escape, every other control character as a named or hex
/// escape, and what passes through unescaped is no control character.
pub proof fn lemma_escaped_char_no_newline(c: char)
    ensures
        forall|i: int| 0 <= i < escaped_char(c).len() ==> #[trigger] escaped_char(c)[i] != '\n',
{
    if !(c == '"' || c == '\\' || c == '\u{08}' || c == '\u{0C}' || c == '\n' || c == '\r'
        || c == '\t') && (c as int) < 0x20 {
        assert(hex_digit(c as int / 16) as int == c as int / 16 + 0x30);
        assert(hex_digit(c as int % 16) as int
            == if c as int % 16 < 10 { c as int % 16 + 0x30 } else { c as int % 16 + 0x57 });
    }
}

/// An escaped text contains no newline at all.
pub proof fn lemma_json_escaped_no_newline(s: Seq<char>)
    ensures
        forall|i: int| 0 <= i < json_escaped(s).len() ==> #[trigger] json_escaped(s)[i] != '\n',
    decreases s.len(),
{
    if s.len() > 0 {
        lemma_json_escaped_no_newline(s.drop_last());
        lemma_escaped_char_no_newline(s.last());
        let pre = json_escaped(s.drop_last());
        let esc = escaped_char(s.last());
        assert forall|i: int| 0 <= i < json_escaped(s).len() implies #[trigger] json_escaped(
            s,
        )[i] != '\n' by {
            if i < pre.len() {
                assert(json_escaped(s)[i] == pre[i]);
            } else {
                assert(json_escaped(s)[i] == esc[i - pre.len()]);
            }
        }
    }
}

proof fn lemma_concat_single_trailing_newline(pre: Seq<char>, mid: Seq<char>, suf: Seq<char>)
    requires
        forall|i: int| 0 <= i < pre.len() ==> #[trigger] pre[i] != '\n',
        forall|i: int| 0 <= i < mid.len() ==> #[trigger] mid[i] != '\n',
        suf.len() > 0,
        suf.last() == '\n',
        forall|i: int| 0 <= i < suf.len() - 1 ==> #[trigger] suf[i] != '\n',
    ensures
        (pre + mid + suf).len() > 0,
        (pre + mid + suf).last() == '\n',
        forall|i: int| 0 <= i < (pre + mid + suf).len() - 1 ==> #[trigger] (pre + mid + suf)[i]
            != '\n',
{
    let all = pre + mid + suf;
    assert(all.last() == suf.last());
    assert forall|i: int| 0 <= i < all.len() - 1 implies #[trigger] all[i] != '\n' by {
        if i < pre.len() {
            assert(all[i] == pre[i]);
        } else if i < pre.len() + mid.len() {
            assert(all[i] == mid[i - pre.len()]);
        } else {
            assert(all[i] == suf[i - pre.len() - mid.len()]);
        }
    }
}

/// Every control message is written as exactly one line: its wire text ends
/// in a newline and contains no other, whatever the message's field holds.
pub proof fn lemma_control_line_is_single_line(m: ControlMessage)
    ensures
        control_line_spec(m).len() > 0,
        control_line_spec(m).last() == '\n',
        forall|i: int| 0 <= i < control_line_spec(m).len() - 1 ==> #[trigger] control_line_spec(
            m,
        )[i] != '\n',
{
    reveal_strlit("\"}\n");
    let suf = "\"}\n"@;
    match m {
        ControlMessage::StartInsertion { form: Option::None } => {
            reveal_strlit("{\"cmd\":\"start_insertion\"}\n");
            let s = "{\"cmd\":\"start_insertion\"}\n"@;
            assert(s.last() == '\n');
            assert forall|i: int| 0 <= i < s.len() - 1 implies #[trigger] s[i] != '\n' by {}
        },
        ControlMessage::StartInsertion { form: Option::Some(f) } => {
            reveal_strlit("{\"cmd\":\"start_insertion\",\"form\":\"");
            let pre = "{\"cmd\":\"start_insertion\",\"form\":\""@;
            lemma_json_escaped_no_newline(f@);
            assert forall|i: int| 0 <= i < pre.len() implies #[trigger] pre[i] != '\n' by {}
            lemma_concat_single_trailing_newline(pre, json_escaped(f@), suf);
        },
        ControlMessage::PauseInsertion => {
            reveal_strlit("{\"cmd\":\"pause_insertion\"}\n");
            let s = "{\"cmd\":\"pause_insertion\"}\n"@;
            assert(s.last() == '\n');
            assert forall|i: int| 0 <= i < s.len() - 1 implies #[trigger] s[i] != '\n' by {}
        },
        ControlMessage::StopInsertion => {
            reveal_strlit("{\"cmd\":\"stop_insertion\"}\n");
            let s = "{\"cmd\":\"stop_insertion\"}\n"@;
            assert(s.last() == '\n');
            assert forall|i: int| 0 <= i < s.len() - 1 implies #[trigger] s[i] != '\n' by {}
        },
        ControlMessage::LoadCsvContent { csv } => {
            reveal_strlit("{\"cmd\":\"load_csv_content\",\"csv\":\"");
            let pre = "{\"cmd\":\"load_csv_content\",\"csv\":\""@;
            lemma_json_escaped_no_newline(csv@);
            assert forall|i: int| 0 <= i < pre.len() implies #[trigger] pre[i] != '\n' by {}
            lemma_concat_single_trailing_newline(pre, json_escaped(csv@), suf);
        },
        ControlMessage::LoadCsvPath { path } => {
            reveal_strlit("{\"cmd\":\"load_csv_path\",\"path\":\"");
            let pre = "{\"cmd\":\"load_csv_path\",\"path\":\""@;
            lemma_json_escaped_no_newline(path@);
            assert forall|i: int| 0 <= i < pre.len() implies #[trigger] pre[i] != '\n' by {}
            lemma_concat_single_trailing_newline(pre, json_escaped(path@), suf);
        },
    }
}

} // verus!
