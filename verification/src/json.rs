//! Serialization of the wire envelope.
//!
//! The gateway publishes a compact JSON record whose object keys appear in
//! ascending order, strings are escaped with `\"`, `\\`, `\b`, `\t`, `\n`,
//! `\f`, `\r` and `\u00XX` for the remaining control characters, and byte
//! sequences are rendered as arrays of decimal numbers. The spec functions
//! here define that grammar character by character, and the executable
//! builders are proved to emit exactly it.

use vstd::prelude::*;
use vstd::string::StrSliceExecFns;
use vstd::string::StringExecFns;

verus! {

/// The sixteen lowercase hexadecimal digit characters, by value.
pub open spec fn hex_digit(d: int) -> char {
    if d == 0 {
        '0'
    } else if d == 1 {
        '1'
    } else if d == 2 {
        '2'
    } else if d == 3 {
        '3'
    } else if d == 4 {
        '4'
    } else if d == 5 {
        '5'
    } else if d == 6 {
        '6'
    } else if d == 7 {
        '7'
    } else if d == 8 {
        '8'
    } else if d == 9 {
        '9'
    } else if d == 10 {
        'a'
    } else if d == 11 {
        'b'
    } else if d == 12 {
        'c'
    } else if d == 13 {
        'd'
    } else if d == 14 {
        'e'
    } else {
        'f'
    }
}

/// How one character appears inside a JSON string literal: quote and
/// backslash are escaped, the named control characters take their two-letter
/// escapes, every other control character becomes `\u00XX` with lowercase
/// hex digits, and everything else passes through unchanged.
pub open spec fn esc_char(c: char) -> Seq<char> {
    if c == '"' {
        seq!['\\', '"']
    } else if c == '\\' {
        seq!['\\', '\\']
    } else if c == '\u{8}' {
        seq!['\\', 'b']
    } else if c == '\t' {
        seq!['\\', 't']
    } else if c == '\n' {
        seq!['\\', 'n']
    } else if c == '\u{c}' {
        seq!['\\', 'f']
    } else if c == '\r' {
        seq!['\\', 'r']
    } else if (c as u32) < 0x20 {
        seq!['\\', 'u', '0', '0', hex_digit((c as u32 / 16) as int), hex_digit((c as u32 % 16) as int)]
    } else {
        seq![c]
    }
}

/// A whole character sequence escaped for use inside a JSON string literal.
pub open spec fn esc_seq(s: Seq<char>) -> Seq<char>
    decreases s.len(),
{
    if s.len() == 0 {
        Seq::<char>::empty()
    } else {
        esc_char(s[0]) + esc_seq(s.skip(1))
    }
}

/// A JSON string literal: the escaped content between double quotes.
pub open spec fn json_string(s: Seq<char>) -> Seq<char> {
    seq!['"'] + esc_seq(s) + seq!['"']
}

/// The decimal rendering of a natural number, most significant digit first,
/// with no leading zeros (a lone zero for 0).
pub open spec fn dec_nat(n: nat) -> Seq<char>
    decreases n,
{
    if n < 10 {
        seq![hex_digit(n as int)]
    } else {
        dec_nat(n / 10) + seq![hex_digit((n % 10) as int)]
    }
}

/// A comma-separated list of the decimal renderings of the given bytes.
pub open spec fn dec_list(s: Seq<u8>) -> Seq<char>
    decreases s.len(),
{
    if s.len() == 0 {
        Seq::<char>::empty()
    } else if s.len() == 1 {
        dec_nat(s[0] as nat)
    } else {
        dec_nat(s[0] as nat) + seq![','] + dec_list(s.skip(1))
    }
}

/// A JSON array holding the given bytes as decimal numbers.
pub open spec fn json_byte_array(s: Seq<u8>) -> Seq<char> {
    seq!['['] + dec_list(s) + seq![']']
}

/// The character sequences held by an optional string, if any.
pub open spec fn opt_text(o: &Option<String>) -> Option<Seq<char>> {
    match o {
        Option::Some(d) => Option::Some(d@),
        Option::None => Option::None,
    }
}

/// The inner payload record carried in the envelope's `data` field:
/// `{"reqdata":<request data or null>,"reqid":"<correlation id>"}`.
pub open spec fn payload_json(reqid: Seq<char>, reqdata: Option<Seq<char>>) -> Seq<char> {
    "{\"reqdata\":"@ + (match reqdata {
        Option::None => "null"@,
        Option::Some(d) => json_string(d),
    }) + ",\"reqid\":"@ + json_string(reqid) + "}"@
}

/// The wire envelope:
/// `{"action":...,"data":[...],"ext":[...],"model":...,"proto":...}` where
/// `data` holds the UTF-8 bytes of the payload record and `ext` carries the
/// reserved extension bytes.
pub open spec fn envelope_json(
    proto: Seq<char>,
    model: Seq<char>,
    action: Seq<char>,
    data: Seq<u8>,
    ext: Seq<u8>,
) -> Seq<char> {
    "{\"action\":"@ + json_string(action) + ",\"data\":"@ + json_byte_array(data) + ",\"ext\":"@
        + json_byte_array(ext) + ",\"model\":"@ + json_string(model) + ",\"proto\":"@ + json_string(
        proto) + "}"@
}

/// Escaping a sequence one character longer appends that character's escape.
proof fn lemma_esc_seq_snoc(s: Seq<char>)
    requires
        s.len() > 0,
    ensures
        esc_seq(s) == esc_seq(s.drop_last()) + esc_char(s.last()),
    decreases s.len(),
{
    if s.len() == 1 {
        assert(s.skip(1) =~= Seq::<char>::empty());
        assert(s.drop_last() =~= Seq::<char>::empty());
        assert(esc_seq(s) =~= esc_seq(s.drop_last()) + esc_char(s.last()));
    } else {
        lemma_esc_seq_snoc(s.skip(1));
        assert(s.skip(1).drop_last() =~= s.drop_last().skip(1));
        assert(s.skip(1).last() == s.last());
        assert(s.drop_last()[0] == s[0]);
        assert(esc_seq(s) =~= esc_seq(s.drop_last()) + esc_char(s.last()));
    }
}

/// Rendering a byte list one byte longer appends a comma (when anything
/// precedes) and that byte's decimal rendering.
proof fn lemma_dec_list_snoc(s: Seq<u8>)
    requires
        s.len() > 1,
    ensures
        dec_list(s) == dec_list(s.drop_last()) + seq![','] + dec_nat(s.last() as nat),
    decreases s.len(),
{
    if s.len() == 2 {
        assert(s.skip(1) =~= seq![s[1]]);
        assert(s.drop_last() =~= seq![s[0]]);
        assert(dec_list(s) =~= dec_list(s.drop_last()) + seq![','] + dec_nat(s.last() as nat));
    } else {
        lemma_dec_list_snoc(s.skip(1));
        assert(s.skip(1).drop_last() =~= s.drop_last().skip(1));
        assert(s.skip(1).last() == s.last());
        assert(s.drop_last().len() > 1);
        assert(s.drop_last()[0] == s[0]);
        assert(dec_list(s) == dec_nat(s[0] as nat) + seq![','] + dec_list(s.skip(1)));
        assert(dec_list(s.drop_last()) == dec_nat(s[0] as nat) + seq![','] + dec_list(
            s.drop_last().skip(1)));
        assert(dec_list(s.skip(1)) == dec_list(s.drop_last().skip(1)) + seq![','] + dec_nat(
            s.last() as nat));
        assert(dec_list(s) =~= dec_list(s.drop_last()) + seq![','] + dec_nat(s.last() as nat));
    }
}

/// Append one lowercase hexadecimal digit character.
fn append_hex_digit(out: &mut String, d: u8)
    requires
        d < 16,
    ensures
        final(out)@ == old(out)@ + seq![hex_digit(d as int)],
{
    if d == 0 {
        out.append("0");
        proof {
            reveal_strlit("0");
            assert(old(out)@ + "0"@ =~= old(out)@ + seq![hex_digit(d as int)]);
        }
    } else if d == 1 {
        out.append("1");
        proof {
            reveal_strlit("1");
            assert(old(out)@ + "1"@ =~= old(out)@ + seq![hex_digit(d as int)]);
        }
    } else if d == 2 {
        out.append("2");
        proof {
            reveal_strlit("2");
            assert(old(out)@ + "2"@ =~= old(out)@ + seq![hex_digit(d as int)]);
        }
    } else if d == 3 {
        out.append("3");
        proof {
            reveal_strlit("3");
            assert(old(out)@ + "3"@ =~= old(out)@ + seq![hex_digit(d as int)]);
        }
    } else if d == 4 {
        out.append("4");
        proof {
            reveal_strlit("4");
            assert(old(out)@ + "4"@ =~= old(out)@ + seq![hex_digit(d as int)]);
        }
    } else if d == 5 {
        out.append("5");
        proof {
            reveal_strlit("5");
            assert(old(out)@ + "5"@ =~= old(out)@ + seq![hex_digit(d as int)]);
        }
    } else if d == 6 {
        out.append("6");
        proof {
            reveal_strlit("6");
            assert(old(out)@ + "6"@ =~= old(out)@ + seq![hex_digit(d as int)]);
        }
    } else if d == 7 {
        out.append("7");
        proof {
            reveal_strlit("7");
            assert(old(out)@ + "7"@ =~= old(out)@ + seq![hex_digit(d as int)]);
        }
    } else if d == 8 {
        out.append("8");
        proof {
            reveal_strlit("8");
            assert(old(out)@ + "8"@ =~= old(out)@ + seq![hex_digit(d as int)]);
        }
    } else if d == 9 {
        out.append("9");
        proof {
            reveal_strlit("9");
            assert(old(out)@ + "9"@ =~= old(out)@ + seq![hex_digit(d as int)]);
        }
    } else if d == 10 {
        out.append("a");
        proof {
            reveal_strlit("a");
            assert(old(out)@ + "a"@ =~= old(out)@ + seq![hex_digit(d as int)]);
        }
    } else if d == 11 {
        out.append("b");
        proof {
            reveal_strlit("b");
            assert(old(out)@ + "b"@ =~= old(out)@ + seq![hex_digit(d as int)]);
        }
    } else if d == 12 {
        out.append("c");
        proof {
            reveal_strlit("c");
            assert(old(out)@ + "c"@ =~= old(out)@ + seq![hex_digit(d as int)]);
        }
    } else if d == 13 {
        out.append("d");
        proof {
            reveal_strlit("d");
            assert(old(out)@ + "d"@ =~= old(out)@ + seq![hex_digit(d as int)]);
        }
    } else if d == 14 {
        out.append("e");
        proof {
            reveal_strlit("e");
            assert(old(out)@ + "e"@ =~= old(out)@ + seq![hex_digit(d as int)]);
        }
    } else {
        out.append("f");
        proof {
            reveal_strlit("f");
            assert(old(out)@ + "f"@ =~= old(out)@ + seq![hex_digit(d as int)]);
        }
    }
}

/// Append the escaped form of every character of `s`.
fn append_escaped(out: &mut String, s: &str)
    ensures
        final(out)@ == old(out)@ + esc_seq(s@),
{
    let n: usize = s.unicode_len();
    let mut i: usize = 0;
    proof {
        assert(s@.take(0) =~= Seq::<char>::empty());
        assert(out@ + esc_seq(s@.take(0)) =~= out@);
    }
    while i < n
        invariant
            i <= n,
            n == s@.len(),
            out@ == old(out)@ + esc_seq(s@.take(i as int)),
        decreases n - i,
    {
        let c = s.get_char(i);
        let ghost pre = out@;
        if c == '"' {
            out.append("\\\"");
            proof {
                reveal_strlit("\\\"");
                assert(pre + "\\\""@ =~= pre + esc_char(c));
            }
        } else if c == '\\' {
            out.append("\\\\");
            proof {
                reveal_strlit("\\\\");
                assert(pre + "\\\\"@ =~= pre + esc_char(c));
            }
        } else if c == '\u{8}' {
            out.append("\\b");
            proof {
                reveal_strlit("\\b");
                assert(pre + "\\b"@ =~= pre + esc_char(c));
            }
        } else if c == '\t' {
            out.append("\\t");
            proof {
                reveal_strlit("\\t");
                assert(pre + "\\t"@ =~= pre + esc_char(c));
            }
        } else if c == '\n' {
            out.append("\\n");
            proof {
                reveal_strlit("\\n");
                assert(pre + "\\n"@ =~= pre + esc_char(c));
            }
        } else if c == '\u{c}' {
            out.append("\\f");
            proof {
                reveal_strlit("\\f");
                assert(pre + "\\f"@ =~= pre + esc_char(c));
            }
        } else if c == '\r' {
            out.append("\\r");
            proof {
                reveal_strlit("\\r");
                assert(pre + "\\r"@ =~= pre + esc_char(c));
            }
        } else if (c as u32) < 0x20 {
            let v: u32 = c as u32;
            out.append("\\u00");
            append_hex_digit(out, (v / 16) as u8);
            append_hex_digit(out, (v % 16) as u8);
            proof {
                reveal_strlit("\\u00");
                assert(pre + "\\u00"@ + seq![hex_digit((v / 16) as int)] + seq![
                    hex_digit((v % 16) as int),
                ] =~= pre + esc_char(c));
            }
        } else {
            let piece = s.substring_char(i, i + 1);
            out.append(piece);
            proof {
                assert(piece@ =~= seq![c]);
                assert(pre + piece@ =~= pre + esc_char(c));
            }
        }
        proof {
            lemma_esc_seq_snoc(s@.take(i as int + 1));
            assert(s@.take(i as int + 1).drop_last() =~= s@.take(i as int));
            assert(s@.take(i as int + 1).last() == s@[i as int]);
            assert(out@ =~= old(out)@ + esc_seq(s@.take(i as int + 1)));
        }
        i = i + 1;
    }
    proof {
        assert(s@.take(n as int) =~= s@);
    }
}

/// Append a JSON string literal holding `s`.
fn append_json_string(out: &mut String, s: &str)
    ensures
        final(out)@ == old(out)@ + json_string(s@),
{
    out.append("\"");
    append_escaped(out, s);
    out.append("\"");
    proof {
        reveal_strlit("\"");
        assert(old(out)@ + "\""@ + esc_seq(s@) + "\""@ =~= old(out)@ + json_string(s@));
    }
}

/// Append the decimal rendering of one byte.
fn append_dec_u8(out: &mut String, n: u8)
    ensures
        final(out)@ == old(out)@ + dec_nat(n as nat),
{
    if n >= 100 {
        append_hex_digit(out, n / 100);
        append_hex_digit(out, (n / 10) % 10);
        append_hex_digit(out, n % 10);
        proof {
            vstd::arithmetic::div_mod::lemma_div_denominator(n as int, 10, 10);
            assert((n as nat) / 10 / 10 == (n as nat) / 100);
            assert((n as nat) / 10 >= 10);
            assert((n as nat) / 100 < 10);
            assert(dec_nat((n as nat) / 100) == seq![hex_digit(((n as nat) / 100) as int)]);
            assert(dec_nat((n as nat) / 10) == dec_nat((n as nat) / 10 / 10) + seq![
                hex_digit((((n as nat) / 10) % 10) as int),
            ]);
            assert(dec_nat(n as nat) == dec_nat((n as nat) / 10) + seq![
                hex_digit(((n as nat) % 10) as int),
            ]);
            assert(old(out)@ + seq![hex_digit(((n / 100) as u8) as int)] + seq![
                hex_digit((((n / 10) % 10) as u8) as int),
            ] + seq![hex_digit(((n % 10) as u8) as int)] =~= old(out)@ + dec_nat(n as nat));
        }
    } else if n >= 10 {
        append_hex_digit(out, n / 10);
        append_hex_digit(out, n % 10);
        proof {
            assert((n as nat) / 10 < 10);
            assert(dec_nat((n as nat) / 10) == seq![hex_digit(((n as nat) / 10) as int)]);
            assert(dec_nat(n as nat) == dec_nat((n as nat) / 10) + seq![
                hex_digit(((n as nat) % 10) as int),
            ]);
            assert(old(out)@ + seq![hex_digit(((n / 10) as u8) as int)] + seq![
                hex_digit(((n % 10) as u8) as int),
            ] =~= old(out)@ + dec_nat(n as nat));
        }
    } else {
        append_hex_digit(out, n);
    }
}

/// Append a JSON array holding `data` as decimal numbers.
fn append_byte_array(out: &mut String, data: &Vec<u8>)
    ensures
        final(out)@ == old(out)@ + json_byte_array(data@),
{
    out.append("[");
    let n: usize = data.len();
    let mut i: usize = 0;
    proof {
        reveal_strlit("[");
        assert(data@.take(0) =~= Seq::<u8>::empty());
        assert(out@ =~= old(out)@ + seq!['['] + dec_list(data@.take(0)));
    }
    while i < n
        invariant
            i <= n,
            n == data@.len(),
            out@ == old(out)@ + seq!['['] + dec_list(data@.take(i as int)),
        decreases n - i,
    {
        let ghost pre = out@;
        if i > 0 {
            out.append(",");
            proof {
                reveal_strlit(",");
            }
        }
        append_dec_u8(out, data[i]);
        proof {
            if i == 0 {
                assert(data@.take(1) =~= seq![data@[0]]);
                assert(out@ =~= old(out)@ + seq!['['] + dec_list(data@.take(1)));
            } else {
                lemma_dec_list_snoc(data@.take(i as int + 1));
                assert(data@.take(i as int + 1).drop_last() =~= data@.take(i as int));
                assert(data@.take(i as int + 1).last() == data@[i as int]);
                assert(out@ =~= old(out)@ + seq!['['] + dec_list(data@.take(i as int + 1)));
            }
        }
        i = i + 1;
    }
    out.append("]");
    proof {
        reveal_strlit("]");
        assert(data@.take(n as int) =~= data@);
        assert(out@ =~= old(out)@ + json_byte_array(data@));
    }
}

/// The payload record as text, ready to be UTF-8 encoded into the
/// envelope's `data` field.
pub fn payload_json_text(reqid: &str, reqdata: &Option<String>) -> (r: String)
    ensures
        r@ == payload_json(reqid@, opt_text(reqdata)),
{
    let mut out = String::new();
    out.append("{\"reqdata\":");
    match reqdata {
        Option::None => out.append("null"),
        Option::Some(d) => append_json_string(&mut out, d.as_str()),
    }
    out.append(",\"reqid\":");
    append_json_string(&mut out, reqid);
    out.append("}");
    proof {
        assert(out@ =~= payload_json(reqid@, opt_text(reqdata)));
    }
    out
}

/// The full envelope as text; its UTF-8 bytes are what goes on the bus.
pub fn envelope_json_text(proto: &str, model: &str, action: &str, data: &Vec<u8>, ext: &Vec<u8>) -> (r:
    String)
    ensures
        r@ == envelope_json(proto@, model@, action@, data@, ext@),
{
    let mut out = String::new();
    out.append("{\"action\":");
    append_json_string(&mut out, action);
    out.append(",\"data\":");
    append_byte_array(&mut out, data);
    out.append(",\"ext\":");
    append_byte_array(&mut out, ext);
    out.append(",\"model\":");
    append_json_string(&mut out, model);
    out.append(",\"proto\":");
    append_json_string(&mut out, proto);
    out.append("}");
    proof {
        assert(out@ =~= envelope_json(proto@, model@, action@, data@, ext@));
    }
    out
}

} // verus!
