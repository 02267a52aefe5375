use vstd::prelude::*;
use crate::protocol::{GuiRequestView, GuiResponseView};

verus! {

// ---------------------------------------------------------------------------
// The wire format.
//
// Commands and notifications travel as JSON objects with a `type`
// discriminator field, in a fixed canonical shape: no whitespace, fields in
// declaration order, text payloads as JSON strings with the five escapes
// `\"  \\  \n  \r  \t`, the optional percentage as a decimal number or
// `null`. The spec functions below define that shape character by character;
// the executable encoder and decoder are proved against them.
// ---------------------------------------------------------------------------

/// Characters that the string escaping rewrites.
pub open spec fn is_special(c: char) -> bool {
    c == '"' || c == '\\' || c == '\n' || c == '\r' || c == '\t'
}

/// The escaped form of a single character.
pub open spec fn escaped_char(c: char) -> Seq<char> {
    if c == '"' {
        seq!['\\', '"']
    } else if c == '\\' {
        seq!['\\', '\\']
    } else if c == '\n' {
        seq!['\\', 'n']
    } else if c == '\r' {
        seq!['\\', 'r']
    } else if c == '\t' {
        seq!['\\', 't']
    } else {
        seq![c]
    }
}

/// JSON string escaping of a whole payload.
pub open spec fn escape(s: Seq<char>) -> Seq<char>
    decreases s.len(),
{
    if s.len() == 0 {
        Seq::<char>::empty()
    } else {
        escaped_char(s[0]) + escape(s.skip(1))
    }
}

/// The character an escape pair `\x` stands for, if `x` is a valid escape.
pub open spec fn unescaped_char(c: char) -> Option<char> {
    if c == '"' {
        Some('"')
    } else if c == '\\' {
        Some('\\')
    } else if c == 'n' {
        Some('\n')
    } else if c == 'r' {
        Some('\r')
    } else if c == 't' {
        Some('\t')
    } else {
        None
    }
}

/// Holds when no character of `s` needs escaping (decidable form, used on
/// concrete literals such as the variant tags).
pub open spec fn no_specials(s: Seq<char>) -> bool
    decreases s.len(),
{
    if s.len() == 0 {
        true
    } else {
        !is_special(s[0]) && no_specials(s.skip(1))
    }
}

/// Reads a JSON string body up to and including its closing quote; returns
/// the unescaped content and what follows the quote.
pub open spec fn parse_quoted(s: Seq<char>) -> Option<(Seq<char>, Seq<char>)>
    decreases s.len(),
{
    if s.len() == 0 {
        None
    } else if s[0] == '"' {
        Some((Seq::<char>::empty(), s.skip(1)))
    } else if s[0] == '\\' {
        if s.len() == 1 {
            None
        } else {
            match unescaped_char(s[1]) {
                None => None,
                Some(c) => match parse_quoted(s.skip(2)) {
                    None => None,
                    Some(p) => Some((seq![c] + p.0, p.1)),
                },
            }
        }
    } else {
        match parse_quoted(s.skip(1)) {
            None => None,
            Some(p) => Some((seq![s[0]] + p.0, p.1)),
        }
    }
}

/// Removes `p` from the front of `s`, if it is there.
pub open spec fn strip_prefix(s: Seq<char>, p: Seq<char>) -> Option<Seq<char>> {
    if p.len() <= s.len() && s.take(p.len() as int) == p {
        Some(s.skip(p.len() as int))
    } else {
        None
    }
}

pub open spec fn is_digit(c: char) -> bool {
    c == '0' || c == '1' || c == '2' || c == '3' || c == '4' || c == '5' || c == '6' || c == '7'
        || c == '8' || c == '9'
}

pub open spec fn digit_val(c: char) -> nat {
    if c == '0' {
        0
    } else if c == '1' {
        1
    } else if c == '2' {
        2
    } else if c == '3' {
        3
    } else if c == '4' {
        4
    } else if c == '5' {
        5
    } else if c == '6' {
        6
    } else if c == '7' {
        7
    } else if c == '8' {
        8
    } else {
        9
    }
}

pub open spec fn digit_char(d: int) -> char {
    if d == 0 {
        '0'
    } else if d == 1 {
        '1'
    } else if d == 2 {
        '2'
    } else if d == 3 {
        '3'
    } else if d == 4 {
        '4'
    } else if d == 5 {
        '5'
    } else if d == 6 {
        '6'
    } else if d == 7 {
        '7'
    } else if d == 8 {
        '8'
    } else {
        '9'
    }
}

/// Decimal representation of a number, most significant digit first.
pub open spec fn dec_rep(n: nat) -> Seq<char>
    decreases n,
{
    if n < 10 {
        seq![digit_char(n as int)]
    } else {
        dec_rep(n / 10).push(digit_char((n % 10) as int))
    }
}

pub open spec fn pow10(k: nat) -> nat
    decreases k,
{
    if k == 0 {
        1
    } else {
        10 * pow10((k - 1) as nat)
    }
}

/// Consumes a run of decimal digits, folding them onto `acc`.
pub open spec fn parse_digits(s: Seq<char>, acc: nat) -> (nat, Seq<char>)
    decreases s.len(),
{
    if s.len() > 0 && is_digit(s[0]) {
        parse_digits(s.skip(1), acc * 10 + digit_val(s[0]))
    } else {
        (acc, s)
    }
}

/// Reads a decimal number that fits in a `u32`; returns it and the rest.
pub open spec fn parse_num(s: Seq<char>) -> Option<(u32, Seq<char>)> {
    if s.len() > 0 && is_digit(s[0]) {
        let p = parse_digits(s, 0);
        if p.0 <= u32::MAX {
            Some((p.0 as u32, p.1))
        } else {
            None
        }
    } else {
        None
    }
}

pub open spec fn bool_rep(b: bool) -> Seq<char> {
    if b {
        "true"@
    } else {
        "false"@
    }
}

/// Reads a JSON boolean; returns it and the rest.
pub open spec fn parse_bool(s: Seq<char>) -> Option<(bool, Seq<char>)> {
    match strip_prefix(s, "true"@) {
        Some(r) => Some((true, r)),
        None => match strip_prefix(s, "false"@) {
            Some(r) => Some((false, r)),
            None => None,
        },
    }
}

// ---------------------------------------------------------------------------
// Literal pieces of the wire shape.
// ---------------------------------------------------------------------------

pub open spec fn lit_head() -> Seq<char> {
    "{\"type\":\""@
}

pub open spec fn quote_seq() -> Seq<char> {
    seq!['"']
}

pub open spec fn rbrace_seq() -> Seq<char> {
    seq!['}']
}

pub open spec fn lit_url() -> Seq<char> {
    ",\"url\":\""@
}

pub open spec fn lit_decimal() -> Seq<char> {
    ",\"decimal\":"@
}

pub open spec fn lit_compression() -> Seq<char> {
    ",\"compression\":\""@
}

pub open spec fn lit_excludes() -> Seq<char> {
    ",\"excludes\":\""@
}

pub open spec fn lit_date() -> Seq<char> {
    ",\"date\":\""@
}

pub open spec fn lit_version() -> Seq<char> {
    ",\"version\":\""@
}

pub open spec fn lit_path() -> Seq<char> {
    ",\"path\":\""@
}

pub open spec fn lit_status() -> Seq<char> {
    ",\"status\":\""@
}

pub open spec fn lit_pct() -> Seq<char> {
    ",\"pct\":"@
}

pub open spec fn lit_info() -> Seq<char> {
    ",\"info\":\""@
}

pub open spec fn lit_null() -> Seq<char> {
    "null"@
}

// ---------------------------------------------------------------------------
// Canonical encodings.
// ---------------------------------------------------------------------------

/// Encoding of a variant that carries no payload.
pub open spec fn unit_enc(tag: Seq<char>) -> Seq<char> {
    lit_head() + tag + quote_seq() + rbrace_seq()
}

/// Encoding of a variant with a single string field.
pub open spec fn one_str_enc(tag: Seq<char>, lit: Seq<char>, payload: Seq<char>) -> Seq<char> {
    lit_head() + tag + quote_seq() + lit + escape(payload) + quote_seq() + rbrace_seq()
}

/// Encoding of a settings payload (shared by the save command and the
/// settings notification).
pub open spec fn settings_enc(
    tag: Seq<char>,
    decimal: bool,
    compression: Seq<char>,
    excludes: Seq<char>,
) -> Seq<char> {
    lit_head() + tag + quote_seq() + lit_decimal() + bool_rep(decimal) + lit_compression()
        + escape(compression) + quote_seq() + lit_excludes() + escape(excludes) + quote_seq()
        + rbrace_seq()
}

/// The canonical wire text of a command.
pub open spec fn spec_encode_request(m: GuiRequestView) -> Seq<char> {
    match m {
        GuiRequestView::OpenUrl { url } => one_str_enc("OpenUrl"@, lit_url(), url),
        GuiRequestView::SaveConfig { decimal, compression, excludes } => settings_enc(
            "SaveConfig"@,
            decimal,
            compression,
            excludes,
        ),
        GuiRequestView::ResetConfig => unit_enc("ResetConfig"@),
        GuiRequestView::ChooseFolder => unit_enc("ChooseFolder"@),
        GuiRequestView::Compress => unit_enc("Compress"@),
        GuiRequestView::Decompress => unit_enc("Decompress"@),
        GuiRequestView::Pause => unit_enc("Pause"@),
        GuiRequestView::Resume => unit_enc("Resume"@),
        GuiRequestView::Analyse => unit_enc("Analyse"@),
        GuiRequestView::Stop => unit_enc("Stop"@),
        GuiRequestView::Quit => unit_enc("Quit"@),
    }
}

/// The percentage field: a decimal number, or `null` when absent. Absence
/// and zero are distinct texts.
pub open spec fn pct_enc(pct: Option<u32>) -> Seq<char> {
    match pct {
        None => lit_null(),
        Some(n) => dec_rep(n as nat),
    }
}

/// The canonical wire text of a notification.
pub open spec fn spec_encode_response(m: GuiResponseView) -> Seq<char> {
    match m {
        GuiResponseView::Version { date, version } => lit_head() + "Version"@ + quote_seq()
            + lit_date() + escape(date) + quote_seq() + lit_version() + escape(version)
            + quote_seq() + rbrace_seq(),
        GuiResponseView::Config { decimal, compression, excludes } => settings_enc(
            "Config"@,
            decimal,
            compression,
            excludes,
        ),
        GuiResponseView::Folder { path } => one_str_enc("Folder"@, lit_path(), path),
        GuiResponseView::Status { status, pct } => lit_head() + "Status"@ + quote_seq()
            + lit_status() + escape(status) + quote_seq() + lit_pct() + pct_enc(pct)
            + rbrace_seq(),
        GuiResponseView::FolderSummary { info } => one_str_enc("FolderSummary"@, lit_info(), info),
        GuiResponseView::Paused => unit_enc("Paused"@),
        GuiResponseView::Resumed => unit_enc("Resumed"@),
        GuiResponseView::Scanned => unit_enc("Scanned"@),
        GuiResponseView::Stopped => unit_enc("Stopped"@),
        GuiResponseView::Compacting => unit_enc("Compacting"@),
    }
}

// ---------------------------------------------------------------------------
// The decoders, as acceptance specifications.
// ---------------------------------------------------------------------------

/// Reads `lit` + a string payload + the closing brace, the tail of every
/// single-string-field message.
pub open spec fn parse_one_str_tail(r: Seq<char>, lit: Seq<char>) -> Option<Seq<char>> {
    match strip_prefix(r, lit) {
        None => None,
        Some(r1) => match parse_quoted(r1) {
            None => None,
            Some(p) => if p.1 == rbrace_seq() {
                Some(p.0)
            } else {
                None
            },
        },
    }
}

/// Reads the settings tail: decimal flag, compression name, excludes text.
pub open spec fn parse_settings_tail(r: Seq<char>) -> Option<(bool, Seq<char>, Seq<char>)> {
    match strip_prefix(r, lit_decimal()) {
        None => None,
        Some(r1) => match parse_bool(r1) {
            None => None,
            Some(pb) => match strip_prefix(pb.1, lit_compression()) {
                None => None,
                Some(r2) => match parse_quoted(r2) {
                    None => None,
                    Some(pc) => match strip_prefix(pc.1, lit_excludes()) {
                        None => None,
                        Some(r3) => match parse_quoted(r3) {
                            None => None,
                            Some(pe) => if pe.1 == rbrace_seq() {
                                Some((pb.0, pc.0, pe.0))
                            } else {
                                None
                            },
                        },
                    },
                },
            },
        },
    }
}

/// What a command text means: the unique command it is the canonical
/// encoding of, or nothing.
pub open spec fn spec_decode_request(s: Seq<char>) -> Option<GuiRequestView> {
    match strip_prefix(s, lit_head()) {
        None => None,
        Some(r0) => match parse_quoted(r0) {
            None => None,
            Some(pt) => {
                let tag = pt.0;
                let r1 = pt.1;
                if tag == "OpenUrl"@ {
                    match parse_one_str_tail(r1, lit_url()) {
                        None => None,
                        Some(url) => Some(GuiRequestView::OpenUrl { url }),
                    }
                } else if tag == "SaveConfig"@ {
                    match parse_settings_tail(r1) {
                        None => None,
                        Some(t) => Some(
                            GuiRequestView::SaveConfig {
                                decimal: t.0,
                                compression: t.1,
                                excludes: t.2,
                            },
                        ),
                    }
                } else if tag == "ResetConfig"@ {
                    if r1 == rbrace_seq() {
                        Some(GuiRequestView::ResetConfig)
                    } else {
                        None
                    }
                } else if tag == "ChooseFolder"@ {
                    if r1 == rbrace_seq() {
                        Some(GuiRequestView::ChooseFolder)
                    } else {
                        None
                    }
                } else if tag == "Compress"@ {
                    if r1 == rbrace_seq() {
                        Some(GuiRequestView::Compress)
                    } else {
                        None
                    }
                } else if tag == "Decompress"@ {
                    if r1 == rbrace_seq() {
                        Some(GuiRequestView::Decompress)
                    } else {
                        None
                    }
                } else if tag == "Pause"@ {
                    if r1 == rbrace_seq() {
                        Some(GuiRequestView::Pause)
                    } else {
                        None
                    }
                } else if tag == "Resume"@ {
                    if r1 == rbrace_seq() {
                        Some(GuiRequestView::Resume)
                    } else {
                        None
                    }
                } else if tag == "Analyse"@ {
                    if r1 == rbrace_seq() {
                        Some(GuiRequestView::Analyse)
                    } else {
                        None
                    }
                } else if tag == "Stop"@ {
                    if r1 == rbrace_seq() {
                        Some(GuiRequestView::Stop)
                    } else {
                        None
                    }
                } else if tag == "Quit"@ {
                    if r1 == rbrace_seq() {
                        Some(GuiRequestView::Quit)
                    } else {
                        None
                    }
                } else {
                    None
                }
            },
        },
    }
}

/// What a notification text means to the UI-side dispatcher.
pub open spec fn spec_decode_response(s: Seq<char>) -> Option<GuiResponseView> {
    match strip_prefix(s, lit_head()) {
        None => None,
        Some(r0) => match parse_quoted(r0) {
            None => None,
            Some(pt) => {
                let tag = pt.0;
                let r1 = pt.1;
                if tag == "Version"@ {
                    match strip_prefix(r1, lit_date()) {
                        None => None,
                        Some(r2) => match parse_quoted(r2) {
                            None => None,
                            Some(pd) => match strip_prefix(pd.1, lit_version()) {
                                None => None,
                                Some(r3) => match parse_quoted(r3) {
                                    None => None,
                                    Some(pv) => if pv.1 == rbrace_seq() {
                                        Some(
                                            GuiResponseView::Version {
                                                date: pd.0,
                                                version: pv.0,
                                            },
                                        )
                                    } else {
                                        None
                                    },
                                },
                            },
                        },
                    }
                } else if tag == "Config"@ {
                    match parse_settings_tail(r1) {
                        None => None,
                        Some(t) => Some(
                            GuiResponseView::Config {
                                decimal: t.0,
                                compression: t.1,
                                excludes: t.2,
                            },
                        ),
                    }
                } else if tag == "Folder"@ {
                    match parse_one_str_tail(r1, lit_path()) {
                        None => None,
                        Some(path) => Some(GuiResponseView::Folder { path }),
                    }
                } else if tag == "Status"@ {
                    match strip_prefix(r1, lit_status()) {
                        None => None,
                        Some(r2) => match parse_quoted(r2) {
                            None => None,
                            Some(ps) => match strip_prefix(ps.1, lit_pct()) {
                                None => None,
                                Some(r3) => match strip_prefix(r3, lit_null()) {
                                    Some(r4) => if r4 == rbrace_seq() {
                                        Some(
                                            GuiResponseView::Status {
                                                status: ps.0,
                                                pct: None,
                                            },
                                        )
                                    } else {
                                        None
                                    },
                                    None => match parse_num(r3) {
                                        None => None,
                                        Some(pn) => if pn.1 == rbrace_seq() {
                                            Some(
                                                GuiResponseView::Status {
                                                    status: ps.0,
                                                    pct: Some(pn.0),
                                                },
                                            )
                                        } else {
                                            None
                                        },
                                    },
                                },
                            },
                        },
                    }
                } else if tag == "FolderSummary"@ {
                    match parse_one_str_tail(r1, lit_info()) {
                        None => None,
                        Some(info) => Some(GuiResponseView::FolderSummary { info }),
                    }
                } else if tag == "Paused"@ {
                    if r1 == rbrace_seq() {
                        Some(GuiResponseView::Paused)
                    } else {
                        None
                    }
                } else if tag == "Resumed"@ {
                    if r1 == rbrace_seq() {
                        Some(GuiResponseView::Resumed)
                    } else {
                        None
                    }
                } else if tag == "Scanned"@ {
                    if r1 == rbrace_seq() {
                        Some(GuiResponseView::Scanned)
                    } else {
                        None
                    }
                } else if tag == "Stopped"@ {
                    if r1 == rbrace_seq() {
                        Some(GuiResponseView::Stopped)
                    } else {
                        None
                    }
                } else if tag == "Compacting"@ {
                    if r1 == rbrace_seq() {
                        Some(GuiResponseView::Compacting)
                    } else {
                        None
                    }
                } else {
                    None
                }
            },
        },
    }
}

// ---------------------------------------------------------------------------
// Core parsing lemmas.
// ---------------------------------------------------------------------------

/// Removing a prefix that is literally there yields the rest.
pub proof fn lemma_strip_prefix_concat(p: Seq<char>, rest: Seq<char>)
    ensures
        strip_prefix(p + rest, p) == Some(rest),
{
    let s = p + rest;
    assert(s.take(p.len() as int) =~= p);
    assert(s.skip(p.len() as int) =~= rest);
}

/// Escaping changes nothing in text without special characters.
pub proof fn lemma_escape_plain(s: Seq<char>)
    requires
        no_specials(s),
    ensures
        escape(s) == s,
    decreases s.len(),
{
    if s.len() == 0 {
        assert(escape(s) =~= s);
    } else {
        assert(!is_special(s[0]));
        lemma_escape_plain(s.skip(1));
        assert(escaped_char(s[0]) == seq![s[0]]);
        assert(seq![s[0]] + s.skip(1) =~= s);
    }
}

/// Reading a quoted string back out of its escaped form recovers the
/// original payload and leaves the tail untouched.
pub proof fn lemma_parse_quoted_escape(s: Seq<char>, rest: Seq<char>)
    ensures
        parse_quoted(escape(s) + seq!['"'] + rest) == Some((s, rest)),
    decreases s.len(),
{
    let t = escape(s) + seq!['"'] + rest;
    if s.len() == 0 {
        assert(escape(s) == Seq::<char>::empty());
        assert(t[0] == '"');
        assert(t.skip(1) =~= rest);
        assert(s =~= Seq::<char>::empty());
    } else {
        let c = s[0];
        let s1 = s.skip(1);
        assert(escape(s) == escaped_char(c) + escape(s1));
        lemma_parse_quoted_escape(s1, rest);
        let t1 = escape(s1) + seq!['"'] + rest;
        if is_special(c) {
            let e = escaped_char(c)[1];
            assert(escaped_char(c).len() == 2);
            assert(t[0] == '\\');
            assert(t.len() >= 2);
            assert(t[1] == e);
            assert(unescaped_char(e) == Some(c));
            assert(t.skip(2) =~= t1);
            assert(parse_quoted(t) == Some((seq![c] + s1, rest)));
            assert(seq![c] + s1 =~= s);
        } else {
            assert(escaped_char(c) == seq![c]);
            assert(t[0] == c);
            assert(c != '"' && c != '\\');
            assert(t.skip(1) =~= t1);
            assert(parse_quoted(t) == Some((seq![c] + s1, rest)));
            assert(seq![c] + s1 =~= s);
        }
    }
}

/// A boolean's wire text reads back as that boolean.
pub proof fn lemma_parse_bool_rep(b: bool, rest: Seq<char>)
    ensures
        parse_bool(bool_rep(b) + rest) == Some((b, rest)),
{
    reveal_strlit("true");
    reveal_strlit("false");
    let s = bool_rep(b) + rest;
    if b {
        lemma_strip_prefix_concat("true"@, rest);
    } else {
        assert("true"@.len() == 4);
        assert(s[0] == 'f');
        if strip_prefix(s, "true"@) is Some {
            assert(s.take(4)[0] == 'f');
            assert("true"@[0] == 't');
            assert(false);
        }
        lemma_strip_prefix_concat("false"@, rest);
    }
}

/// Digit characters decode to their value.
pub proof fn lemma_digit_roundtrip(d: int)
    requires
        0 <= d < 10,
    ensures
        is_digit(digit_char(d)),
        digit_val(digit_char(d)) == d,
{
}

/// A decimal representation is never empty and starts with a digit.
pub proof fn lemma_dec_first(n: nat)
    ensures
        dec_rep(n).len() >= 1,
        is_digit(dec_rep(n)[0]),
    decreases n,
{
    if n < 10 {
        lemma_digit_roundtrip(n as int);
    } else {
        lemma_dec_first(n / 10);
    }
}

/// Folding the digits of `n` onto an accumulator shifts the accumulator by
/// the width of `n` and adds `n`.
pub proof fn lemma_parse_digits_append(n: nat, rest: Seq<char>, acc: nat)
    ensures
        parse_digits(dec_rep(n) + rest, acc) == parse_digits(
            rest,
            acc * pow10(dec_rep(n).len()) + n,
        ),
    decreases n,
{
    assert(pow10(0) == 1);
    assert(pow10(1) == 10);
    if n < 10 {
        let s = dec_rep(n) + rest;
        lemma_digit_roundtrip(n as int);
        assert(s[0] == digit_char(n as int));
        assert(s.skip(1) =~= rest);
        assert(parse_digits(s, acc) == parse_digits(rest, acc * 10 + n));
        assert(dec_rep(n).len() == 1);
        assert(acc * pow10(1) == acc * 10);
    } else {
        let m = n / 10;
        let d = (n % 10) as int;
        lemma_digit_roundtrip(d);
        let mid = seq![digit_char(d)] + rest;
        assert(dec_rep(n) =~= dec_rep(m) + seq![digit_char(d)]);
        assert(dec_rep(n) + rest =~= dec_rep(m) + mid);
        lemma_parse_digits_append(m, mid, acc);
        let a1 = acc * pow10(dec_rep(m).len()) + m;
        assert(mid[0] == digit_char(d));
        assert(mid.skip(1) =~= rest);
        assert(parse_digits(mid, a1) == parse_digits(rest, (a1 * 10 + d) as nat));
        let lm = dec_rep(m).len();
        assert(dec_rep(n).len() == lm + 1);
        assert(pow10(lm + 1) == 10 * pow10(lm));
        assert(a1 * 10 + d == acc * pow10(lm + 1) + n) by {
            assert((acc * pow10(lm) + m) * 10 == acc * pow10(lm) * 10 + m * 10);
            assert(acc * pow10(lm) * 10 == acc * (10 * pow10(lm))) by (nonlinear_arith);
            assert(m * 10 + d == n);
        }
    }
}

/// The wire text of a number, followed by anything that is not a digit,
/// reads back as exactly that number.
pub proof fn lemma_parse_num_rep(n: u32, rest: Seq<char>)
    requires
        rest.len() == 0 || !is_digit(rest[0]),
    ensures
        parse_num(dec_rep(n as nat) + rest) == Some((n, rest)),
{
    let s = dec_rep(n as nat) + rest;
    lemma_dec_first(n as nat);
    assert(s[0] == dec_rep(n as nat)[0]);
    lemma_parse_digits_append(n as nat, rest, 0);
    assert(0 * pow10(dec_rep(n as nat).len()) == 0) by (nonlinear_arith);
    assert(parse_digits(rest, n as nat) == (n as nat, rest));
    assert(parse_digits(s, 0) == (n as nat, rest));
}

/// The digit fold never shrinks the accumulator.
pub proof fn lemma_parse_digits_lb(s: Seq<char>, acc: nat)
    ensures
        parse_digits(s, acc).0 >= acc,
    decreases s.len(),
{
    if s.len() > 0 && is_digit(s[0]) {
        lemma_parse_digits_lb(s.skip(1), acc * 10 + digit_val(s[0]));
    }
}

// ---------------------------------------------------------------------------
// Decoding a canonical encoding.
// ---------------------------------------------------------------------------

/// Every message starts with the head literal, then its tag as a quoted
/// string; both read back exactly.
proof fn lemma_decode_frame(tag: Seq<char>, t: Seq<char>)
    requires
        no_specials(tag),
    ensures
        strip_prefix(lit_head() + tag + quote_seq() + t, lit_head()) == Some(
            tag + quote_seq() + t,
        ),
        parse_quoted(tag + quote_seq() + t) == Some((tag, t)),
{
    let s = lit_head() + tag + quote_seq() + t;
    assert(s.take(lit_head().len() as int) =~= lit_head());
    assert(s.skip(lit_head().len() as int) =~= tag + quote_seq() + t);
    lemma_escape_plain(tag);
    lemma_parse_quoted_escape(tag, t);
    assert(escape(tag) + seq!['"'] + t =~= tag + quote_seq() + t);
}

/// The tail of a single-string-field message reads back its payload.
proof fn lemma_one_str_tail_round(lit: Seq<char>, payload: Seq<char>)
    ensures
        parse_one_str_tail(lit + escape(payload) + quote_seq() + rbrace_seq(), lit) == Some(
            payload,
        ),
{
    let t = lit + escape(payload) + quote_seq() + rbrace_seq();
    assert(t.take(lit.len() as int) =~= lit);
    assert(t.skip(lit.len() as int) =~= escape(payload) + seq!['"'] + rbrace_seq());
    lemma_parse_quoted_escape(payload, rbrace_seq());
}

/// The settings tail reads back its three fields.
proof fn lemma_settings_tail_round(decimal: bool, compression: Seq<char>, excludes: Seq<char>)
    ensures
        parse_settings_tail(
            lit_decimal() + bool_rep(decimal) + lit_compression() + escape(compression)
                + quote_seq() + lit_excludes() + escape(excludes) + quote_seq() + rbrace_seq(),
        ) == Some((decimal, compression, excludes)),
{
    let t = lit_decimal() + bool_rep(decimal) + lit_compression() + escape(compression)
        + quote_seq() + lit_excludes() + escape(excludes) + quote_seq() + rbrace_seq();
    let t4 = lit_excludes() + escape(excludes) + quote_seq() + rbrace_seq();
    let t2 = lit_compression() + escape(compression) + quote_seq() + t4;
    assert(t.take(lit_decimal().len() as int) =~= lit_decimal());
    assert(t.skip(lit_decimal().len() as int) =~= bool_rep(decimal) + t2);
    lemma_parse_bool_rep(decimal, t2);
    assert(t2.take(lit_compression().len() as int) =~= lit_compression());
    assert(t2.skip(lit_compression().len() as int) =~= escape(compression) + seq!['"'] + t4);
    lemma_parse_quoted_escape(compression, t4);
    assert(t4.take(lit_excludes().len() as int) =~= lit_excludes());
    assert(t4.skip(lit_excludes().len() as int) =~= escape(excludes) + seq!['"'] + rbrace_seq());
    lemma_parse_quoted_escape(excludes, rbrace_seq());
}

/// The command tags contain nothing the escaping would rewrite.
proof fn lemma_request_tags_plain()
    ensures
        no_specials("OpenUrl"@),
        no_specials("SaveConfig"@),
        no_specials("ResetConfig"@),
        no_specials("ChooseFolder"@),
        no_specials("Compress"@),
        no_specials("Decompress"@),
        no_specials("Pause"@),
        no_specials("Resume"@),
        no_specials("Analyse"@),
        no_specials("Stop"@),
        no_specials("Quit"@),
{
    reveal_strlit("OpenUrl");
    reveal_strlit("SaveConfig");
    reveal_strlit("ResetConfig");
    reveal_strlit("ChooseFolder");
    reveal_strlit("Compress");
    reveal_strlit("Decompress");
    reveal_strlit("Pause");
    reveal_strlit("Resume");
    reveal_strlit("Analyse");
    reveal_strlit("Stop");
    reveal_strlit("Quit");
    reveal_with_fuel(no_specials, 14);
}

/// The notification tags contain nothing the escaping would rewrite.
proof fn lemma_response_tags_plain()
    ensures
        no_specials("Version"@),
        no_specials("Config"@),
        no_specials("Folder"@),
        no_specials("Status"@),
        no_specials("FolderSummary"@),
        no_specials("Paused"@),
        no_specials("Resumed"@),
        no_specials("Scanned"@),
        no_specials("Stopped"@),
        no_specials("Compacting"@),
{
    reveal_strlit("Version");
    reveal_strlit("Config");
    reveal_strlit("Folder");
    reveal_strlit("Status");
    reveal_strlit("FolderSummary");
    reveal_strlit("Paused");
    reveal_strlit("Resumed");
    reveal_strlit("Scanned");
    reveal_strlit("Stopped");
    reveal_strlit("Compacting");
    reveal_with_fuel(no_specials, 15);
}

/// Round trip: the canonical wire text of any command decodes back to
/// exactly that command, every payload included.
#[verifier::rlimit(80)]
pub proof fn lemma_request_round_trip(m: GuiRequestView)
    ensures
        spec_decode_request(spec_encode_request(m)) == Some(m),
{
    lemma_request_tags_plain();
    reveal_strlit("OpenUrl");
    reveal_strlit("SaveConfig");
    reveal_strlit("ResetConfig");
    reveal_strlit("ChooseFolder");
    reveal_strlit("Compress");
    reveal_strlit("Decompress");
    reveal_strlit("Pause");
    reveal_strlit("Resume");
    reveal_strlit("Analyse");
    reveal_strlit("Stop");
    reveal_strlit("Quit");
    if "SaveConfig"@ == "Decompress"@ {
        assert("SaveConfig"@[0] == "Decompress"@[0]);
        assert(false);
    }
    if "OpenUrl"@ == "Analyse"@ {
        assert("OpenUrl"@[0] == "Analyse"@[0]);
        assert(false);
    }
    if "Stop"@ == "Quit"@ {
        assert("Stop"@[0] == "Quit"@[0]);
        assert(false);
    }
    match m {
        GuiRequestView::OpenUrl { url } => {
            let t = lit_url() + escape(url) + quote_seq() + rbrace_seq();
            lemma_decode_frame("OpenUrl"@, t);
            assert(spec_encode_request(m) =~= lit_head() + "OpenUrl"@ + quote_seq() + t);
            lemma_one_str_tail_round(lit_url(), url);
        },
        GuiRequestView::SaveConfig { decimal, compression, excludes } => {
            let t = lit_decimal() + bool_rep(decimal) + lit_compression() + escape(compression)
                + quote_seq() + lit_excludes() + escape(excludes) + quote_seq() + rbrace_seq();
            lemma_decode_frame("SaveConfig"@, t);
            assert(spec_encode_request(m) =~= lit_head() + "SaveConfig"@ + quote_seq() + t);
            lemma_settings_tail_round(decimal, compression, excludes);
        },
        GuiRequestView::ResetConfig => {
            lemma_decode_frame("ResetConfig"@, rbrace_seq());
        },
        GuiRequestView::ChooseFolder => {
            lemma_decode_frame("ChooseFolder"@, rbrace_seq());
        },
        GuiRequestView::Compress => {
            lemma_decode_frame("Compress"@, rbrace_seq());
        },
        GuiRequestView::Decompress => {
            lemma_decode_frame("Decompress"@, rbrace_seq());
        },
        GuiRequestView::Pause => {
            lemma_decode_frame("Pause"@, rbrace_seq());
        },
        GuiRequestView::Resume => {
            lemma_decode_frame("Resume"@, rbrace_seq());
        },
        GuiRequestView::Analyse => {
            lemma_decode_frame("Analyse"@, rbrace_seq());
        },
        GuiRequestView::Stop => {
            lemma_decode_frame("Stop"@, rbrace_seq());
        },
        GuiRequestView::Quit => {
            lemma_decode_frame("Quit"@, rbrace_seq());
        },
    }
}

/// Round trip: the canonical wire text of any notification decodes back, on
/// the UI-side dispatcher, to a value equal in every field — an absent
/// percentage stays absent and zero stays zero.
#[verifier::rlimit(80)]
pub proof fn lemma_response_round_trip(m: GuiResponseView)
    ensures
        spec_decode_response(spec_encode_response(m)) == Some(m),
{
    lemma_response_tags_plain();
    reveal_strlit("Version");
    reveal_strlit("Config");
    reveal_strlit("Folder");
    reveal_strlit("Status");
    reveal_strlit("FolderSummary");
    reveal_strlit("Paused");
    reveal_strlit("Resumed");
    reveal_strlit("Scanned");
    reveal_strlit("Stopped");
    reveal_strlit("Compacting");
    if "Config"@ == "Folder"@ {
        assert("Config"@[0] == "Folder"@[0]);
        assert(false);
    }
    if "Config"@ == "Status"@ {
        assert("Config"@[0] == "Status"@[0]);
        assert(false);
    }
    if "Config"@ == "Paused"@ {
        assert("Config"@[0] == "Paused"@[0]);
        assert(false);
    }
    if "Folder"@ == "Status"@ {
        assert("Folder"@[0] == "Status"@[0]);
        assert(false);
    }
    if "Folder"@ == "Paused"@ {
        assert("Folder"@[0] == "Paused"@[0]);
        assert(false);
    }
    if "Status"@ == "Paused"@ {
        assert("Status"@[0] == "Paused"@[0]);
        assert(false);
    }
    if "Version"@ == "Resumed"@ {
        assert("Version"@[0] == "Resumed"@[0]);
        assert(false);
    }
    if "Version"@ == "Scanned"@ {
        assert("Version"@[0] == "Scanned"@[0]);
        assert(false);
    }
    if "Version"@ == "Stopped"@ {
        assert("Version"@[0] == "Stopped"@[0]);
        assert(false);
    }
    if "Resumed"@ == "Scanned"@ {
        assert("Resumed"@[0] == "Scanned"@[0]);
        assert(false);
    }
    if "Resumed"@ == "Stopped"@ {
        assert("Resumed"@[0] == "Stopped"@[0]);
        assert(false);
    }
    if "Scanned"@ == "Stopped"@ {
        assert("Scanned"@[1] == "Stopped"@[1]);
        assert(false);
    }
    match m {
        GuiResponseView::Version { date, version } => {
            let t4 = lit_version() + escape(version) + quote_seq() + rbrace_seq();
            let t = lit_date() + escape(date) + quote_seq() + t4;
            lemma_decode_frame("Version"@, t);
            assert(spec_encode_response(m) =~= lit_head() + "Version"@ + quote_seq() + t);
            assert(t.take(lit_date().len() as int) =~= lit_date());
            assert(t.skip(lit_date().len() as int) =~= escape(date) + seq!['"'] + t4);
            lemma_parse_quoted_escape(date, t4);
            assert(t4.take(lit_version().len() as int) =~= lit_version());
            assert(t4.skip(lit_version().len() as int) =~= escape(version) + seq!['"']
                + rbrace_seq());
            lemma_parse_quoted_escape(version, rbrace_seq());
        },
        GuiResponseView::Config { decimal, compression, excludes } => {
            let t = lit_decimal() + bool_rep(decimal) + lit_compression() + escape(compression)
                + quote_seq() + lit_excludes() + escape(excludes) + quote_seq() + rbrace_seq();
            lemma_decode_frame("Config"@, t);
            assert(spec_encode_response(m) =~= lit_head() + "Config"@ + quote_seq() + t);
            lemma_settings_tail_round(decimal, compression, excludes);
        },
        GuiResponseView::Folder { path } => {
            let t = lit_path() + escape(path) + quote_seq() + rbrace_seq();
            lemma_decode_frame("Folder"@, t);
            assert(spec_encode_response(m) =~= lit_head() + "Folder"@ + quote_seq() + t);
            lemma_one_str_tail_round(lit_path(), path);
        },
        GuiResponseView::Status { status, pct } => {
            let t3 = lit_pct() + pct_enc(pct) + rbrace_seq();
            let t = lit_status() + escape(status) + quote_seq() + t3;
            lemma_decode_frame("Status"@, t);
            assert(spec_encode_response(m) =~= lit_head() + "Status"@ + quote_seq() + t);
            assert(t.take(lit_status().len() as int) =~= lit_status());
            assert(t.skip(lit_status().len() as int) =~= escape(status) + seq!['"'] + t3);
            lemma_parse_quoted_escape(status, t3);
            assert(t3.take(lit_pct().len() as int) =~= lit_pct());
            let t5 = pct_enc(pct) + rbrace_seq();
            assert(t3.skip(lit_pct().len() as int) =~= t5);
            reveal_strlit("null");
            match pct {
                None => {
                    lemma_strip_prefix_concat(lit_null(), rbrace_seq());
                },
                Some(n) => {
                    lemma_dec_first(n as nat);
                    assert(t5[0] == dec_rep(n as nat)[0]);
                    if strip_prefix(t5, lit_null()) is Some {
                        assert(lit_null().len() <= t5.len());
                        assert(t5.take(lit_null().len() as int) == lit_null());
                        assert(t5.take(lit_null().len() as int)[0] == t5[0]);
                        assert(lit_null()[0] == 'n');
                        assert(is_digit(t5[0]));
                        assert(false);
                    }
                    assert(rbrace_seq()[0] == '}');
                    lemma_parse_num_rep(n, rbrace_seq());
                },
            }
        },
        GuiResponseView::FolderSummary { info } => {
            let t = lit_info() + escape(info) + quote_seq() + rbrace_seq();
            lemma_decode_frame("FolderSummary"@, t);
            assert(spec_encode_response(m) =~= lit_head() + "FolderSummary"@ + quote_seq() + t);
            lemma_one_str_tail_round(lit_info(), info);
        },
        GuiResponseView::Paused => {
            lemma_decode_frame("Paused"@, rbrace_seq());
        },
        GuiResponseView::Resumed => {
            lemma_decode_frame("Resumed"@, rbrace_seq());
        },
        GuiResponseView::Scanned => {
            lemma_decode_frame("Scanned"@, rbrace_seq());
        },
        GuiResponseView::Stopped => {
            lemma_decode_frame("Stopped"@, rbrace_seq());
        },
        GuiResponseView::Compacting => {
            lemma_decode_frame("Compacting"@, rbrace_seq());
        },
    }
}

} // verus!
