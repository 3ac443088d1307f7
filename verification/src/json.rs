//! The metadata file format: pretty-printed JSON with exactly three string
//! fields, `name`, `path` and `diagram_type`.
//!
//! The writer escapes a string the way JSON asks: `"` and `\` get a
//! backslash, the five control characters with a short form (backspace, tab,
//! line feed, form feed, carriage return) use it, and every other control
//! character below space is written as `\u00` and two hex digits. All other
//! characters stand for themselves.

use vstd::prelude::*;

verus! {

/// The escape sequence that a character contributes to a JSON string body.
pub open spec fn escape_char(c: char) -> Seq<char> {
    match c {
        '\u{00}' => seq!['\\', 'u', '0', '0', '0', '0'],
        '\u{01}' => seq!['\\', 'u', '0', '0', '0', '1'],
        '\u{02}' => seq!['\\', 'u', '0', '0', '0', '2'],
        '\u{03}' => seq!['\\', 'u', '0', '0', '0', '3'],
        '\u{04}' => seq!['\\', 'u', '0', '0', '0', '4'],
        '\u{05}' => seq!['\\', 'u', '0', '0', '0', '5'],
        '\u{06}' => seq!['\\', 'u', '0', '0', '0', '6'],
        '\u{07}' => seq!['\\', 'u', '0', '0', '0', '7'],
        '\u{08}' => seq!['\\', 'b'],
        '\u{09}' => seq!['\\', 't'],
        '\u{0a}' => seq!['\\', 'n'],
        '\u{0b}' => seq!['\\', 'u', '0', '0', '0', 'b'],
        '\u{0c}' => seq!['\\', 'f'],
        '\u{0d}' => seq!['\\', 'r'],
        '\u{0e}' => seq!['\\', 'u', '0', '0', '0', 'e'],
        '\u{0f}' => seq!['\\', 'u', '0', '0', '0', 'f'],
        '\u{10}' => seq!['\\', 'u', '0', '0', '1', '0'],
        '\u{11}' => seq!['\\', 'u', '0', '0', '1', '1'],
        '\u{12}' => seq!['\\', 'u', '0', '0', '1', '2'],
        '\u{13}' => seq!['\\', 'u', '0', '0', '1', '3'],
        '\u{14}' => seq!['\\', 'u', '0', '0', '1', '4'],
        '\u{15}' => seq!['\\', 'u', '0', '0', '1', '5'],
        '\u{16}' => seq!['\\', 'u', '0', '0', '1', '6'],
        '\u{17}' => seq!['\\', 'u', '0', '0', '1', '7'],
        '\u{18}' => seq!['\\', 'u', '0', '0', '1', '8'],
        '\u{19}' => seq!['\\', 'u', '0', '0', '1', '9'],
        '\u{1a}' => seq!['\\', 'u', '0', '0', '1', 'a'],
        '\u{1b}' => seq!['\\', 'u', '0', '0', '1', 'b'],
        '\u{1c}' => seq!['\\', 'u', '0', '0', '1', 'c'],
        '\u{1d}' => seq!['\\', 'u', '0', '0', '1', 'd'],
        '\u{1e}' => seq!['\\', 'u', '0', '0', '1', 'e'],
        '\u{1f}' => seq!['\\', 'u', '0', '0', '1', 'f'],
        '"' => seq!['\\', '"'],
        '\\' => seq!['\\', '\\'],
        _ => seq![c],
    }
}

/// A whole string's body as it appears between the quotes of a JSON string.
pub open spec fn escaped(s: Seq<char>) -> Seq<char>
    decreases s.len(),
{
    if s.len() == 0 {
        Seq::<char>::empty()
    } else {
        escape_char(s[0]) + escaped(s.drop_first())
    }
}

/// Escaping a string one character longer appends that character's escape.
pub proof fn lemma_escaped_snoc(s: Seq<char>, c: char)
    ensures
        escaped(s.push(c)) == escaped(s) + escape_char(c),
    decreases s.len(),
{
    if s.len() == 0 {
        assert(s.push(c)[0] == c);
        assert(s.push(c).drop_first() =~= Seq::<char>::empty());
        assert(escaped(s.push(c)) == escape_char(c) + escaped(Seq::<char>::empty()));
        assert(escape_char(c) + Seq::<char>::empty() =~= escape_char(c));
        assert(Seq::<char>::empty() + escape_char(c) =~= escape_char(c));
        assert(escaped(s.push(c)) =~= escaped(s) + escape_char(c));
    } else {
        assert(s.push(c)[0] == s[0]);
        assert(s.push(c).drop_first() =~= s.drop_first().push(c));
        lemma_escaped_snoc(s.drop_first(), c);
        assert(escaped(s.push(c)) =~= escaped(s) + escape_char(c));
    }
}

/// The replacement text for a character that JSON cannot hold verbatim, or
/// `None` for a character that stands for itself.
fn escape_fragment(c: char) -> (r: Option<&'static str>)
    ensures
        (match r {
            Some(f) => f@ == escape_char(c),
            None => escape_char(c) == seq![c],
        }),
{
    match c {
        '\u{00}' => {
            proof {
                reveal_strlit("\\u0000");
                assert(("\\u0000")@ =~= escape_char(c));
            }
            Some("\\u0000")
        },
        '\u{01}' => {
            proof {
                reveal_strlit("\\u0001");
                assert(("\\u0001")@ =~= escape_char(c));
            }
            Some("\\u0001")
        },
        '\u{02}' => {
            proof {
                reveal_strlit("\\u0002");
                assert(("\\u0002")@ =~= escape_char(c));
            }
            Some("\\u0002")
        },
        '\u{03}' => {
            proof {
                reveal_strlit("\\u0003");
                assert(("\\u0003")@ =~= escape_char(c));
            }
            Some("\\u0003")
        },
        '\u{04}' => {
            proof {
                reveal_strlit("\\u0004");
                assert(("\\u0004")@ =~= escape_char(c));
            }
            Some("\\u0004")
        },
        '\u{05}' => {
            proof {
                reveal_strlit("\\u0005");
                assert(("\\u0005")@ =~= escape_char(c));
            }
            Some("\\u0005")
        },
        '\u{06}' => {
            proof {
                reveal_strlit("\\u0006");
                assert(("\\u0006")@ =~= escape_char(c));
            }
            Some("\\u0006")
        },
        '\u{07}' => {
            proof {
                reveal_strlit("\\u0007");
                assert(("\\u0007")@ =~= escape_char(c));
            }
            Some("\\u0007")
        },
        '\u{08}' => {
            proof {
                reveal_strlit("\\b");
                assert(("\\b")@ =~= escape_char(c));
            }
            Some("\\b")
        },
        '\u{09}' => {
            proof {
                reveal_strlit("\\t");
                assert(("\\t")@ =~= escape_char(c));
            }
            Some("\\t")
        },
        '\u{0a}' => {
            proof {
                reveal_strlit("\\n");
                assert(("\\n")@ =~= escape_char(c));
            }
            Some("\\n")
        },
        '\u{0b}' => {
            proof {
                reveal_strlit("\\u000b");
                assert(("\\u000b")@ =~= escape_char(c));
            }
            Some("\\u000b")
        },
        '\u{0c}' => {
            proof {
                reveal_strlit("\\f");
                assert(("\\f")@ =~= escape_char(c));
            }
            Some("\\f")
        },
        '\u{0d}' => {
            proof {
                reveal_strlit("\\r");
                assert(("\\r")@ =~= escape_char(c));
            }
            Some("\\r")
        },
        '\u{0e}' => {
            proof {
                reveal_strlit("\\u000e");
                assert(("\\u000e")@ =~= escape_char(c));
            }
            Some("\\u000e")
        },
        '\u{0f}' => {
            proof {
                reveal_strlit("\\u000f");
                assert(("\\u000f")@ =~= escape_char(c));
            }
            Some("\\u000f")
        },
        '\u{10}' => {
            proof {
                reveal_strlit("\\u0010");
                assert(("\\u0010")@ =~= escape_char(c));
            }
            Some("\\u0010")
        },
        '\u{11}' => {
            proof {
                reveal_strlit("\\u0011");
                assert(("\\u0011")@ =~= escape_char(c));
            }
            Some("\\u0011")
        },
        '\u{12}' => {
            proof {
                reveal_strlit("\\u0012");
                assert(("\\u0012")@ =~= escape_char(c));
            }
            Some("\\u0012")
        },
        '\u{13}' => {
            proof {
                reveal_strlit("\\u0013");
                assert(("\\u0013")@ =~= escape_char(c));
            }
            Some("\\u0013")
        },
        '\u{14}' => {
            proof {
                reveal_strlit("\\u0014");
                assert(("\\u0014")@ =~= escape_char(c));
            }
            Some("\\u0014")
        },
        '\u{15}' => {
            proof {
                reveal_strlit("\\u0015");
                assert(("\\u0015")@ =~= escape_char(c));
            }
            Some("\\u0015")
        },
        '\u{16}' => {
            proof {
                reveal_strlit("\\u0016");
                assert(("\\u0016")@ =~= escape_char(c));
            }
            Some("\\u0016")
        },
        '\u{17}' => {
            proof {
                reveal_strlit("\\u0017");
                assert(("\\u0017")@ =~= escape_char(c));
            }
            Some("\\u0017")
        },
        '\u{18}' => {
            proof {
                reveal_strlit("\\u0018");
                assert(("\\u0018")@ =~= escape_char(c));
            }
            Some("\\u0018")
        },
        '\u{19}' => {
            proof {
                reveal_strlit("\\u0019");
                assert(("\\u0019")@ =~= escape_char(c));
            }
            Some("\\u0019")
        },
        '\u{1a}' => {
            proof {
                reveal_strlit("\\u001a");
                assert(("\\u001a")@ =~= escape_char(c));
            }
            Some("\\u001a")
        },
        '\u{1b}' => {
            proof {
                reveal_strlit("\\u001b");
                assert(("\\u001b")@ =~= escape_char(c));
            }
            Some("\\u001b")
        },
        '\u{1c}' => {
            proof {
                reveal_strlit("\\u001c");
                assert(("\\u001c")@ =~= escape_char(c));
            }
            Some("\\u001c")
        },
        '\u{1d}' => {
            proof {
                reveal_strlit("\\u001d");
                assert(("\\u001d")@ =~= escape_char(c));
            }
            Some("\\u001d")
        },
        '\u{1e}' => {
            proof {
                reveal_strlit("\\u001e");
                assert(("\\u001e")@ =~= escape_char(c));
            }
            Some("\\u001e")
        },
        '\u{1f}' => {
            proof {
                reveal_strlit("\\u001f");
                assert(("\\u001f")@ =~= escape_char(c));
            }
            Some("\\u001f")
        },
        '"' => {
            proof {
                reveal_strlit("\\\"");
                assert(("\\\"")@ =~= escape_char(c));
            }
            Some("\\\"")
        },
        '\\' => {
            proof {
                reveal_strlit("\\\\");
                assert(("\\\\")@ =~= escape_char(c));
            }
            Some("\\\\")
        },
        _ => None,
    }
}

/// Appends the escaped body of `s` to `out`.
pub fn append_escaped(out: &mut String, s: &str)
    ensures
        final(out)@ == old(out)@ + escaped(s@),
{
    let ghost start: Seq<char> = out@;
    let n = s.unicode_len();
    let mut i: usize = 0;
    while i < n
        invariant
            i <= n,
            n == s@.len(),
            out@ == start + escaped(s@.take(i as int)),
        decreases n - i,
    {
        let c = s.get_char(i);
        match escape_fragment(c) {
            Some(fragment) => {
                out.append(fragment);
            },
            None => {
                let piece = s.substring_char(i, i + 1);
                proof {
                    assert(piece@ =~= seq![c]);
                }
                out.append(piece);
            },
        }
        proof {
            lemma_escaped_snoc(s@.take(i as int), c);
            assert(s@.take(i as int).push(c) =~= s@.take(i + 1 as int));
        }
        i = i + 1;
    }
    proof {
        assert(s@.take(n as int) =~= s@);
    }
}

/// The whole metadata document: a pretty-printed JSON object whose three
/// string members are `name`, `path` and `diagram_type`, in that order,
/// indented by two spaces.
pub open spec fn metadata_json_text(
    name: Seq<char>,
    path: Seq<char>,
    diagram_type: Seq<char>,
) -> Seq<char> {
    "{\n  \"name\": \""@ + escaped(name) + "\""@ + ",\n  \"path\": \""@ + escaped(path) + "\""@
        + ",\n  \"diagram_type\": \""@ + escaped(diagram_type) + "\""@ + "\n}"@
}

/// Serializes the three metadata fields as the metadata document.
pub fn metadata_json(name: &str, path: &str, diagram_type: &str) -> (r: String)
    ensures
        r@ == metadata_json_text(name@, path@, diagram_type@),
{
    let mut out = String::new();
    out.append("{\n  \"name\": \"");
    append_escaped(&mut out, name);
    out.append("\"");
    out.append(",\n  \"path\": \"");
    append_escaped(&mut out, path);
    out.append("\"");
    out.append(",\n  \"diagram_type\": \"");
    append_escaped(&mut out, diagram_type);
    out.append("\"");
    out.append("\n}");
    proof {
        assert(out@ =~= metadata_json_text(name@, path@, diagram_type@));
    }
    out
}

/// The character named by a short escape: the letter that follows the
/// backslash, mapped back.
pub open spec fn unescape_short(e: char) -> Option<char> {
    match e {
        '"' => Some('"'),
        '\\' => Some('\\'),
        'b' => Some('\u{08}'),
        't' => Some('\u{09}'),
        'n' => Some('\u{0a}'),
        'f' => Some('\u{0c}'),
        'r' => Some('\u{0d}'),
        _ => None,
    }
}

/// The control character named by `\u00` and two hex digits, mapped back.
pub open spec fn unescape_control(h: char, l: char) -> Option<char> {
    match (h, l) {
        ('0', '0') => Some('\u{00}'),
        ('0', '1') => Some('\u{01}'),
        ('0', '2') => Some('\u{02}'),
        ('0', '3') => Some('\u{03}'),
        ('0', '4') => Some('\u{04}'),
        ('0', '5') => Some('\u{05}'),
        ('0', '6') => Some('\u{06}'),
        ('0', '7') => Some('\u{07}'),
        ('0', '8') => Some('\u{08}'),
        ('0', '9') => Some('\u{09}'),
        ('0', 'a') => Some('\u{0a}'),
        ('0', 'b') => Some('\u{0b}'),
        ('0', 'c') => Some('\u{0c}'),
        ('0', 'd') => Some('\u{0d}'),
        ('0', 'e') => Some('\u{0e}'),
        ('0', 'f') => Some('\u{0f}'),
        ('1', '0') => Some('\u{10}'),
        ('1', '1') => Some('\u{11}'),
        ('1', '2') => Some('\u{12}'),
        ('1', '3') => Some('\u{13}'),
        ('1', '4') => Some('\u{14}'),
        ('1', '5') => Some('\u{15}'),
        ('1', '6') => Some('\u{16}'),
        ('1', '7') => Some('\u{17}'),
        ('1', '8') => Some('\u{18}'),
        ('1', '9') => Some('\u{19}'),
        ('1', 'a') => Some('\u{1a}'),
        ('1', 'b') => Some('\u{1b}'),
        ('1', 'c') => Some('\u{1c}'),
        ('1', 'd') => Some('\u{1d}'),
        ('1', 'e') => Some('\u{1e}'),
        ('1', 'f') => Some('\u{1f}'),
        _ => None,
    }
}

/// Reads a JSON string body from the front of `s`, up to and including its
/// closing quote: the decoded content and how many characters were
/// consumed, or `None` when `s` does not start with a string body in the
/// writer's escape repertoire.
pub open spec fn scan_string(s: Seq<char>) -> Option<(Seq<char>, int)>
    decreases s.len(),
{
    if s.len() == 0 {
        None
    } else if s[0] == '"' {
        Some((Seq::<char>::empty(), 1))
    } else if s[0] == '\\' {
        if s.len() >= 2 && s[1] == 'u' {
            if s.len() >= 6 && s[2] == '0' && s[3] == '0' && unescape_control(s[4], s[5]) is Some {
                match scan_string(s.skip(6)) {
                    Some(t) => Some(
                        (seq![unescape_control(s[4], s[5]).unwrap()] + t.0, t.1 + 6),
                    ),
                    None => None,
                }
            } else {
                None
            }
        } else if s.len() >= 2 && unescape_short(s[1]) is Some {
            match scan_string(s.skip(2)) {
                Some(t) => Some((seq![unescape_short(s[1]).unwrap()] + t.0, t.1 + 2)),
                None => None,
            }
        } else {
            None
        }
    } else {
        match scan_string(s.skip(1)) {
            Some(t) => Some((seq![s[0]] + t.0, t.1 + 1)),
            None => None,
        }
    }
}

/// Scanning an escaped body followed by its closing quote decodes exactly
/// the original string and stops at the quote, whatever follows it.
pub proof fn lemma_scan_escaped(x: Seq<char>, rest: Seq<char>)
    ensures
        scan_string(escaped(x) + seq!['"'] + rest) == Some((x, escaped(x).len() as int + 1)),
    decreases x.len(),
{
    let s = escaped(x) + seq!['"'] + rest;
    if x.len() == 0 {
        assert(x =~= Seq::<char>::empty());
        assert(s[0] == '"');
        assert(scan_string(s) == Some((x, escaped(x).len() as int + 1)));
    } else {
        let c = x[0];
        let x1 = x.drop_first();
        let e = escape_char(c);
        let tail = escaped(x1) + seq!['"'] + rest;
        assert(escaped(x) == e + escaped(x1));
        assert(s =~= e + tail);
        assert(seq![c] + x1 =~= x);
        lemma_scan_escaped(x1, rest);
        if c == '"' || c == '\\' || c == '\u{08}' || c == '\u{09}' || c == '\u{0a}' || c
            == '\u{0c}' || c == '\u{0d}' {
            assert(e.len() == 2 && e[0] == '\\' && e[1] != 'u' && unescape_short(e[1]) == Some(c));
            assert(s[0] == '\\' && s[1] == e[1]);
            assert(s.skip(2) =~= tail);
            assert(scan_string(s) == Some((x, escaped(x).len() as int + 1)));
        } else if e.len() == 6 {
            assert(e[0] == '\\' && e[1] == 'u' && e[2] == '0' && e[3] == '0' && unescape_control(
                e[4],
                e[5],
            ) == Some(c));
            assert(s[0] == '\\' && s[1] == 'u' && s[2] == '0' && s[3] == '0' && s[4] == e[4] && s[5]
                == e[5]);
            assert(s.skip(6) =~= tail);
            assert(scan_string(s) == Some((x, escaped(x).len() as int + 1)));
        } else {
            assert(e =~= seq![c]);
            assert(s[0] == c && c != '"' && c != '\\');
            assert(s.skip(1) =~= tail);
            assert(scan_string(s) == Some((x, escaped(x).len() as int + 1)));
        }
    }
}

/// Whether `s` begins with `p`.
pub open spec fn has_prefix(s: Seq<char>, p: Seq<char>) -> bool {
    s.len() >= p.len() && s.take(p.len() as int) == p
}

/// Reads a metadata document back: the three member values, in the order
/// the writer lays them out, or `None` for any text the writer does not
/// produce.
pub open spec fn parse_metadata_json(s: Seq<char>) -> Option<(Seq<char>, Seq<char>, Seq<char>)> {
    if has_prefix(s, "{\n  \"name\": \""@) {
        match scan_string(s.skip("{\n  \"name\": \""@.len() as int)) {
            Some(n) => {
                let s1 = s.skip("{\n  \"name\": \""@.len() as int).skip(n.1);
                if has_prefix(s1, ",\n  \"path\": \""@) {
                    match scan_string(s1.skip(",\n  \"path\": \""@.len() as int)) {
                        Some(p) => {
                            let s3 = s1.skip(",\n  \"path\": \""@.len() as int).skip(p.1);
                            if has_prefix(s3, ",\n  \"diagram_type\": \""@) {
                                match scan_string(
                                    s3.skip(",\n  \"diagram_type\": \""@.len() as int),
                                ) {
                                    Some(d) => {
                                        let s5 = s3.skip(
                                            ",\n  \"diagram_type\": \""@.len() as int,
                                        ).skip(d.1);
                                        if s5 == "\n}"@ {
                                            Some((n.0, p.0, d.0))
                                        } else {
                                            None
                                        }
                                    },
                                    None => None,
                                }
                            } else {
                                None
                            }
                        },
                        None => None,
                    }
                } else {
                    None
                }
            },
            None => None,
        }
    } else {
        None
    }
}

/// The round trip: parsing the document the writer produced for a record
/// yields exactly that record's three fields, for every choice of them.
pub proof fn lemma_metadata_json_parses_back(
    name: Seq<char>,
    path: Seq<char>,
    diagram_type: Seq<char>,
)
    ensures
        parse_metadata_json(metadata_json_text(name, path, diagram_type)) == Some(
            (name, path, diagram_type),
        ),
{
    let open_p = "{\n  \"name\": \""@;
    let sep_path = ",\n  \"path\": \""@;
    let sep_diagram = ",\n  \"diagram_type\": \""@;
    let tail = "\n}"@;
    let q = "\""@;
    reveal_strlit("{\n  \"name\": \"");
    reveal_strlit(",\n  \"path\": \"");
    reveal_strlit(",\n  \"diagram_type\": \"");
    reveal_strlit("\n}");
    reveal_strlit("\"");
    assert(q =~= seq!['"']);
    let s = metadata_json_text(name, path, diagram_type);
    let rest1 = sep_path + escaped(path) + q + sep_diagram + escaped(diagram_type) + q + tail;
    let rest2 = sep_diagram + escaped(diagram_type) + q + tail;

    assert(s.take(open_p.len() as int) =~= open_p);
    assert(has_prefix(s, open_p));
    let s0 = s.skip(open_p.len() as int);
    assert(s0 =~= escaped(name) + seq!['"'] + rest1);
    lemma_scan_escaped(name, rest1);
    assert(scan_string(s0) == Some((name, escaped(name).len() as int + 1)));

    let s1 = s0.skip(escaped(name).len() as int + 1);
    assert(s1 =~= rest1);
    assert(s1.take(sep_path.len() as int) =~= sep_path);
    assert(has_prefix(s1, sep_path));
    let s2 = s1.skip(sep_path.len() as int);
    assert(s2 =~= escaped(path) + seq!['"'] + rest2);
    lemma_scan_escaped(path, rest2);
    assert(scan_string(s2) == Some((path, escaped(path).len() as int + 1)));

    let s3 = s2.skip(escaped(path).len() as int + 1);
    assert(s3 =~= rest2);
    assert(s3.take(sep_diagram.len() as int) =~= sep_diagram);
    assert(has_prefix(s3, sep_diagram));
    let s4 = s3.skip(sep_diagram.len() as int);
    assert(s4 =~= escaped(diagram_type) + seq!['"'] + tail);
    lemma_scan_escaped(diagram_type, tail);
    assert(scan_string(s4) == Some((diagram_type, escaped(diagram_type).len() as int + 1)));

    let s5 = s4.skip(escaped(diagram_type).len() as int + 1);
    assert(s5 =~= tail);
    assert(parse_metadata_json(s) == Some((name, path, diagram_type)));
}

} // verus!
