use vstd::prelude::*;
use vstd::string::StrSliceExecFns;
use crate::codec::{
    digit_val, is_digit, parse_bool, parse_digits, parse_num, parse_quoted, rbrace_seq,
    spec_decode_request, spec_decode_response, strip_prefix, unescaped_char,
};
use crate::codec::lemma_parse_digits_lb;
use crate::encode::{chars_to_string, str_chars};
use crate::protocol::{GuiRequest, GuiResponse};

verus! {

/// Consumes the literal `lit` at `pos`, if it is there.
fn match_lit(v: &Vec<char>, pos: usize, lit: &str) -> (r: Option<usize>)
    requires
        pos <= v.len(),
    ensures
        match r {
            Some(p2) => pos <= p2 <= v.len() && strip_prefix(v@.skip(pos as int), lit@) == Some(
                v@.skip(p2 as int),
            ),
            None => strip_prefix(v@.skip(pos as int), lit@) is None,
        },
{
    let n = lit.unicode_len();
    if n > v.len() - pos {
        return None;
    }
    let mut i: usize = 0;
    while i < n
        invariant
            0 <= i <= n,
            pos + n <= v.len(),
            n == lit@.len(),
            forall|j: int| 0 <= j < i ==> v@[pos + j] == lit@[j],
        decreases n - i,
    {
        let c = lit.get_char(i);
        if v[pos + i] != c {
            proof {
                let s = v@.skip(pos as int);
                if s.take(n as int) == lit@ {
                    assert(s.take(n as int)[i as int] == lit@[i as int]);
                    assert(s.take(n as int)[i as int] == v@[pos + i]);
                    assert(false);
                }
            }
            return None;
        }
        i = i + 1;
    }
    proof {
        let s = v@.skip(pos as int);
        assert(s.take(n as int) =~= lit@);
        assert(s.skip(n as int) =~= v@.skip((pos + n) as int));
    }
    Some(pos + n)
}

/// Whether `t` holds exactly the characters of `lit`.
fn eq_lit(t: &Vec<char>, lit: &str) -> (r: bool)
    ensures
        r == (t@ == lit@),
{
    let n = lit.unicode_len();
    if t.len() != n {
        proof {
            if t@ == lit@ {
                assert(t@.len() == lit@.len());
                assert(false);
            }
        }
        return false;
    }
    let mut i: usize = 0;
    while i < n
        invariant
            0 <= i <= n,
            n == lit@.len(),
            n == t@.len(),
            forall|j: int| 0 <= j < i ==> t@[j] == lit@[j],
        decreases n - i,
    {
        let c = lit.get_char(i);
        if t[i] != c {
            proof {
                if t@ == lit@ {
                    assert(t@[i as int] == lit@[i as int]);
                    assert(false);
                }
            }
            return false;
        }
        i = i + 1;
    }
    proof {
        assert(t@ =~= lit@);
    }
    true
}

fn unescape_exec(c: char) -> (r: Option<char>)
    ensures
        r == unescaped_char(c),
{
    if c == '"' {
        Some('"')
    } else if c == '\\' {
        Some('\\')
    } else if c == 'n' {
        Some('\n')
    } else if c == 'r' {
        Some('\r')
    } else if c == 't' {
        Some('\t')
    } else {
        None
    }
}

/// Reads a quoted string body at `pos`, unescaping it, up to and past its
/// closing quote.
fn take_quoted(v: &Vec<char>, pos: usize) -> (r: Option<(Vec<char>, usize)>)
    requires
        pos <= v.len(),
    ensures
        match r {
            Some(p) => pos <= p.1 <= v.len() && parse_quoted(v@.skip(pos as int)) == Some(
                (p.0@, v@.skip(p.1 as int)),
            ),
            None => parse_quoted(v@.skip(pos as int)) is None,
        },
    decreases v.len() - pos,
{
    let ghost s = v@.skip(pos as int);
    if pos == v.len() {
        return None;
    }
    let c = v[pos];
    proof {
        assert(s[0] == c);
    }
    if c == '"' {
        proof {
            assert(s.skip(1) =~= v@.skip(pos + 1 as int));
        }
        let t: Vec<char> = Vec::new();
        Some((t, pos + 1))
    } else if c == '\\' {
        if pos + 1 == v.len() {
            proof {
                assert(s.len() == 1);
            }
            return None;
        }
        let e = v[pos + 1];
        proof {
            assert(s[1] == e);
            assert(s.skip(2) =~= v@.skip(pos + 2 as int));
        }
        match unescape_exec(e) {
            None => None,
            Some(c0) => {
                match take_quoted(v, pos + 2) {
                    None => None,
                    Some((mut t, p2)) => {
                        let ghost t0 = t@;
                        t.insert(0, c0);
                        proof {
                            assert(t@ =~= seq![c0] + t0);
                        }
                        Some((t, p2))
                    },
                }
            },
        }
    } else {
        proof {
            assert(s.skip(1) =~= v@.skip(pos + 1 as int));
        }
        match take_quoted(v, pos + 1) {
            None => None,
            Some((mut t, p2)) => {
                let ghost t0 = t@;
                t.insert(0, c);
                proof {
                    assert(t@ =~= seq![c] + t0);
                }
                Some((t, p2))
            },
        }
    }
}

/// Reads a JSON boolean at `pos`.
fn take_bool(v: &Vec<char>, pos: usize) -> (r: Option<(bool, usize)>)
    requires
        pos <= v.len(),
    ensures
        match r {
            Some(p) => pos <= p.1 <= v.len() && parse_bool(v@.skip(pos as int)) == Some(
                (p.0, v@.skip(p.1 as int)),
            ),
            None => parse_bool(v@.skip(pos as int)) is None,
        },
{
    match match_lit(v, pos, "true") {
        Some(p) => Some((true, p)),
        None => match match_lit(v, pos, "false") {
            Some(p) => Some((false, p)),
            None => None,
        },
    }
}

fn is_digit_exec(c: char) -> (r: bool)
    ensures
        r == is_digit(c),
{
    c == '0' || c == '1' || c == '2' || c == '3' || c == '4' || c == '5' || c == '6' || c == '7'
        || c == '8' || c == '9'
}

fn digit_val_exec(c: char) -> (d: u32)
    ensures
        d == digit_val(c),
        d < 10,
{
    if c == '0' {
        0
    } else if c == '1' {
        1
    } else if c == '2' {
        2
    } else if c == '3' {
        3
    } else if c == '4' {
        4
    } else if c == '5' {
        5
    } else if c == '6' {
        6
    } else if c == '7' {
        7
    } else if c == '8' {
        8
    } else {
        9
    }
}

/// Folds consecutive digits onto `acc`; reports numbers too large for `u32`.
fn fold_digits(v: &Vec<char>, pos: usize, acc: u32) -> (r: Option<(u32, usize)>)
    requires
        pos <= v.len(),
    ensures
        match r {
            Some(p) => pos <= p.1 <= v.len() && parse_digits(v@.skip(pos as int), acc as nat) == (
                p.0 as nat,
                v@.skip(p.1 as int),
            ),
            None => parse_digits(v@.skip(pos as int), acc as nat).0 > u32::MAX,
        },
    decreases v.len() - pos,
{
    let ghost s = v@.skip(pos as int);
    if pos == v.len() {
        proof {
            assert(s.len() == 0);
        }
        return Some((acc, pos));
    }
    let c = v[pos];
    proof {
        assert(s[0] == c);
        assert(s.skip(1) =~= v@.skip(pos + 1 as int));
    }
    if is_digit_exec(c) {
        let d = digit_val_exec(c);
        match acc.checked_mul(10) {
            None => {
                proof {
                    lemma_parse_digits_lb(s.skip(1), acc as nat * 10 + digit_val(c));
                }
                None
            },
            Some(m) => {
                match m.checked_add(d) {
                    None => {
                        proof {
                            lemma_parse_digits_lb(s.skip(1), acc as nat * 10 + digit_val(c));
                        }
                        None
                    },
                    Some(acc2) => fold_digits(v, pos + 1, acc2),
                }
            },
        }
    } else {
        Some((acc, pos))
    }
}

/// Reads a decimal number at `pos`.
fn take_num(v: &Vec<char>, pos: usize) -> (r: Option<(u32, usize)>)
    requires
        pos <= v.len(),
    ensures
        match r {
            Some(p) => pos <= p.1 <= v.len() && parse_num(v@.skip(pos as int)) == Some(
                (p.0, v@.skip(p.1 as int)),
            ),
            None => parse_num(v@.skip(pos as int)) is None,
        },
{
    if pos == v.len() {
        return None;
    }
    let c = v[pos];
    proof {
        assert(v@.skip(pos as int)[0] == c);
    }
    if !is_digit_exec(c) {
        return None;
    }
    match fold_digits(v, pos, 0) {
        None => None,
        Some(p) => Some(p),
    }
}

/// Whether exactly the closing brace is left at `pos`.
fn end_brace(v: &Vec<char>, pos: usize) -> (r: bool)
    requires
        pos <= v.len(),
    ensures
        r == (v@.skip(pos as int) == rbrace_seq()),
{
    let ghost s = v@.skip(pos as int);
    if v.len() - pos == 1 && v[pos] == '}' {
        proof {
            assert(s =~= rbrace_seq());
        }
        true
    } else {
        proof {
            if s == rbrace_seq() {
                assert(s.len() == 1);
                assert(s[0] == '}');
                assert(v@[pos as int] == '}');
            }
        }
        false
    }
}

/// Reads `lit` + a quoted payload + the closing brace; the shared tail of
/// every single-string-field message.
fn take_one_str_tail(v: &Vec<char>, pos: usize, lit: &str) -> (r: Option<Vec<char>>)
    requires
        pos <= v.len(),
    ensures
        match r {
            Some(t) => crate::codec::parse_one_str_tail(v@.skip(pos as int), lit@) == Some(t@),
            None => crate::codec::parse_one_str_tail(v@.skip(pos as int), lit@) is None,
        },
{
    let p2 = match match_lit(v, pos, lit) {
        None => {
            return None;
        },
        Some(p) => p,
    };
    let (t, p3) = match take_quoted(v, p2) {
        None => {
            return None;
        },
        Some(x) => x,
    };
    if end_brace(v, p3) {
        Some(t)
    } else {
        None
    }
}

/// Reads the settings tail: decimal flag, compression name, excludes text.
fn take_settings_tail(v: &Vec<char>, pos: usize) -> (r: Option<(bool, Vec<char>, Vec<char>)>)
    requires
        pos <= v.len(),
    ensures
        match r {
            Some(t) => crate::codec::parse_settings_tail(v@.skip(pos as int)) == Some(
                (t.0, t.1@, t.2@),
            ),
            None => crate::codec::parse_settings_tail(v@.skip(pos as int)) is None,
        },
{
    let p1 = match match_lit(v, pos, ",\"decimal\":") {
        None => {
            return None;
        },
        Some(p) => p,
    };
    let (decimal, p2) = match take_bool(v, p1) {
        None => {
            return None;
        },
        Some(x) => x,
    };
    let p3 = match match_lit(v, p2, ",\"compression\":\"") {
        None => {
            return None;
        },
        Some(p) => p,
    };
    let (compression, p4) = match take_quoted(v, p3) {
        None => {
            return None;
        },
        Some(x) => x,
    };
    let p5 = match match_lit(v, p4, ",\"excludes\":\"") {
        None => {
            return None;
        },
        Some(p) => p,
    };
    let (excludes, p6) = match take_quoted(v, p5) {
        None => {
            return None;
        },
        Some(x) => x,
    };
    if end_brace(v, p6) {
        Some((decimal, compression, excludes))
    } else {
        None
    }
}

/// Decodes a command from its wire text; anything but a canonical encoding
/// is rejected.
pub fn decode_request(s: &str) -> (r: Option<GuiRequest>)
    ensures
        match r {
            Some(req) => spec_decode_request(s@) == Some(req@),
            None => spec_decode_request(s@) is None,
        },
{
    let v = str_chars(s);
    proof {
        assert(v@.skip(0) =~= s@);
    }
    let p0 = match match_lit(&v, 0, "{\"type\":\"") {
        None => {
            return None;
        },
        Some(p) => p,
    };
    let (tag, p1) = match take_quoted(&v, p0) {
        None => {
            return None;
        },
        Some(x) => x,
    };
    if eq_lit(&tag, "OpenUrl") {
        match take_one_str_tail(&v, p1, ",\"url\":\"") {
            None => None,
            Some(url) => Some(GuiRequest::OpenUrl { url: chars_to_string(&url) }),
        }
    } else if eq_lit(&tag, "SaveConfig") {
        match take_settings_tail(&v, p1) {
            None => None,
            Some((decimal, compression, excludes)) => Some(
                GuiRequest::SaveConfig {
                    decimal,
                    compression: chars_to_string(&compression),
                    excludes: chars_to_string(&excludes),
                },
            ),
        }
    } else if eq_lit(&tag, "ResetConfig") {
        if end_brace(&v, p1) {
            Some(GuiRequest::ResetConfig)
        } else {
            None
        }
    } else if eq_lit(&tag, "ChooseFolder") {
        if end_brace(&v, p1) {
            Some(GuiRequest::ChooseFolder)
        } else {
            None
        }
    } else if eq_lit(&tag, "Compress") {
        if end_brace(&v, p1) {
            Some(GuiRequest::Compress)
        } else {
            None
        }
    } else if eq_lit(&tag, "Decompress") {
        if end_brace(&v, p1) {
            Some(GuiRequest::Decompress)
        } else {
            None
        }
    } else if eq_lit(&tag, "Pause") {
        if end_brace(&v, p1) {
            Some(GuiRequest::Pause)
        } else {
            None
        }
    } else if eq_lit(&tag, "Resume") {
        if end_brace(&v, p1) {
            Some(GuiRequest::Resume)
        } else {
            None
        }
    } else if eq_lit(&tag, "Analyse") {
        if end_brace(&v, p1) {
            Some(GuiRequest::Analyse)
        } else {
            None
        }
    } else if eq_lit(&tag, "Stop") {
        if end_brace(&v, p1) {
            Some(GuiRequest::Stop)
        } else {
            None
        }
    } else if eq_lit(&tag, "Quit") {
        if end_brace(&v, p1) {
            Some(GuiRequest::Quit)
        } else {
            None
        }
    } else {
        None
    }
}

/// Decodes a notification on the UI-side dispatcher; anything but a
/// canonical encoding is rejected.
pub fn decode_response(s: &str) -> (r: Option<GuiResponse>)
    ensures
        match r {
            Some(resp) => spec_decode_response(s@) == Some(resp@),
            None => spec_decode_response(s@) is None,
        },
{
    let v = str_chars(s);
    proof {
        assert(v@.skip(0) =~= s@);
    }
    let p0 = match match_lit(&v, 0, "{\"type\":\"") {
        None => {
            return None;
        },
        Some(p) => p,
    };
    let (tag, p1) = match take_quoted(&v, p0) {
        None => {
            return None;
        },
        Some(x) => x,
    };
    if eq_lit(&tag, "Version") {
        let p2 = match match_lit(&v, p1, ",\"date\":\"") {
            None => {
                return None;
            },
            Some(p) => p,
        };
        let (date, p3) = match take_quoted(&v, p2) {
            None => {
                return None;
            },
            Some(x) => x,
        };
        let p4 = match match_lit(&v, p3, ",\"version\":\"") {
            None => {
                return None;
            },
            Some(p) => p,
        };
        let (version, p5) = match take_quoted(&v, p4) {
            None => {
                return None;
            },
            Some(x) => x,
        };
        if end_brace(&v, p5) {
            Some(
                GuiResponse::Version {
                    date: chars_to_string(&date),
                    version: chars_to_string(&version),
                },
            )
        } else {
            None
        }
    } else if eq_lit(&tag, "Config") {
        match take_settings_tail(&v, p1) {
            None => None,
            Some((decimal, compression, excludes)) => Some(
                GuiResponse::Config {
                    decimal,
                    compression: chars_to_string(&compression),
                    excludes: chars_to_string(&excludes),
                },
            ),
        }
    } else if eq_lit(&tag, "Folder") {
        match take_one_str_tail(&v, p1, ",\"path\":\"") {
            None => None,
            Some(path) => Some(GuiResponse::Folder { path: chars_to_string(&path) }),
        }
    } else if eq_lit(&tag, "Status") {
        let p2 = match match_lit(&v, p1, ",\"status\":\"") {
            None => {
                return None;
            },
            Some(p) => p,
        };
        let (status, p3) = match take_quoted(&v, p2) {
            None => {
                return None;
            },
            Some(x) => x,
        };
        let p4 = match match_lit(&v, p3, ",\"pct\":") {
            None => {
                return None;
            },
            Some(p) => p,
        };
        match match_lit(&v, p4, "null") {
            Some(p5) => {
                if end_brace(&v, p5) {
                    Some(GuiResponse::Status { status: chars_to_string(&status), pct: None })
                } else {
                    None
                }
            },
            None => {
                let (n, p5) = match take_num(&v, p4) {
                    None => {
                        return None;
                    },
                    Some(x) => x,
                };
                if end_brace(&v, p5) {
                    Some(GuiResponse::Status { status: chars_to_string(&status), pct: Some(n) })
                } else {
                    None
                }
            },
        }
    } else if eq_lit(&tag, "FolderSummary") {
        match take_one_str_tail(&v, p1, ",\"info\":\"") {
            None => None,
            Some(info) => Some(GuiResponse::FolderSummary { info: chars_to_string(&info) }),
        }
    } else if eq_lit(&tag, "Paused") {
        if end_brace(&v, p1) {
            Some(GuiResponse::Paused)
        } else {
            None
        }
    } else if eq_lit(&tag, "Resumed") {
        if end_brace(&v, p1) {
            Some(GuiResponse::Resumed)
        } else {
            None
        }
    } else if eq_lit(&tag, "Scanned") {
        if end_brace(&v, p1) {
            Some(GuiResponse::Scanned)
        } else {
            None
        }
    } else if eq_lit(&tag, "Stopped") {
        if end_brace(&v, p1) {
            Some(GuiResponse::Stopped)
        } else {
            None
        }
    } else if eq_lit(&tag, "Compacting") {
        if end_brace(&v, p1) {
            Some(GuiResponse::Compacting)
        } else {
            None
        }
    } else {
        None
    }
}

} // verus!
