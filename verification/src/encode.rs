use vstd::prelude::*;
use vstd::string::StrSliceExecFns;
use vstd::string::StringExecFns;
use crate::codec::{
    bool_rep, dec_rep, digit_char, escape, escaped_char, lit_head, pct_enc, quote_seq, rbrace_seq,
    spec_encode_request, spec_encode_response,
};
use crate::protocol::{GuiRequest, GuiResponse};

verus! {

/// Relies on `String`'s `FromIterator<char>`: collecting characters yields
/// the string of exactly those characters, in order.
#[verifier::external_body]
pub(crate) fn chars_to_string(v: &Vec<char>) -> (s: String)
    ensures
        s@ == v@,
{
    v.iter().collect()
}

/// The characters of a text, in order.
pub(crate) fn str_chars(s: &str) -> (v: Vec<char>)
    ensures
        v@ == s@,
{
    let n = s.unicode_len();
    let mut v: Vec<char> = Vec::new();
    let mut i: usize = 0;
    while i < n
        invariant
            0 <= i <= n,
            n == s@.len(),
            v@ == s@.take(i as int),
        decreases n - i,
    {
        let c = s.get_char(i);
        v.push(c);
        assert(s@.take(i + 1 as int) =~= s@.take(i as int).push(c));
        i = i + 1;
    }
    assert(s@.take(n as int) =~= s@);
    v
}

/// JSON string escaping of the characters of `v` from `pos` on.
fn escape_from(v: &Vec<char>, pos: usize) -> (out: Vec<char>)
    requires
        pos <= v.len(),
    ensures
        out@ == escape(v@.skip(pos as int)),
    decreases v.len() - pos,
{
    if pos == v.len() {
        assert(v@.skip(pos as int) =~= Seq::<char>::empty());
        Vec::new()
    } else {
        let c = v[pos];
        let ghost s = v@.skip(pos as int);
        proof {
            assert(s[0] == c);
            assert(s.skip(1) =~= v@.skip(pos + 1 as int));
        }
        let mut rest = escape_from(v, pos + 1);
        let ghost r0 = rest@;
        if c == '"' {
            rest.insert(0, '"');
            rest.insert(0, '\\');
            assert(rest@ =~= seq!['\\', '"'] + r0);
        } else if c == '\\' {
            rest.insert(0, '\\');
            rest.insert(0, '\\');
            assert(rest@ =~= seq!['\\', '\\'] + r0);
        } else if c == '\n' {
            rest.insert(0, 'n');
            rest.insert(0, '\\');
            assert(rest@ =~= seq!['\\', 'n'] + r0);
        } else if c == '\r' {
            rest.insert(0, 'r');
            rest.insert(0, '\\');
            assert(rest@ =~= seq!['\\', 'r'] + r0);
        } else if c == '\t' {
            rest.insert(0, 't');
            rest.insert(0, '\\');
            assert(rest@ =~= seq!['\\', 't'] + r0);
        } else {
            rest.insert(0, c);
            assert(rest@ =~= seq![c] + r0);
        }
        assert(rest@ == escaped_char(c) + escape(s.skip(1)));
        rest
    }
}

fn digit_char_exec(d: u32) -> (c: char)
    requires
        d < 10,
    ensures
        c == digit_char(d as int),
{
    if d == 0 {
        '0'
    } else if d == 1 {
        '1'
    } else if d == 2 {
        '2'
    } else if d == 3 {
        '3'
    } else if d == 4 {
        '4'
    } else if d == 5 {
        '5'
    } else if d == 6 {
        '6'
    } else if d == 7 {
        '7'
    } else if d == 8 {
        '8'
    } else {
        '9'
    }
}

/// Decimal digits of `n`, most significant first.
fn dec_chars(n: u32) -> (out: Vec<char>)
    ensures
        out@ == dec_rep(n as nat),
    decreases n,
{
    if n < 10 {
        let mut v: Vec<char> = Vec::new();
        v.push(digit_char_exec(n));
        v
    } else {
        let mut v = dec_chars(n / 10);
        v.push(digit_char_exec(n % 10));
        v
    }
}

/// Appends the escaped form of `field` to `out`.
pub(crate) fn append_escaped(out: &mut String, field: &str)
    ensures
        final(out)@ == old(out)@ + escape(field@),
{
    let cs = str_chars(field);
    let esc = escape_from(&cs, 0);
    proof {
        assert(cs@.skip(0) =~= field@);
    }
    let es = chars_to_string(&esc);
    out.append(es.as_str());
}

proof fn lemma_punct()
    ensures
        "\""@ == quote_seq(),
        "}"@ == rbrace_seq(),
{
    reveal_strlit("\"");
    reveal_strlit("}");
    assert("\""@ =~= quote_seq());
    assert("}"@ =~= rbrace_seq());
}

/// Appends one message tag and the punctuation around it.
fn append_tag(out: &mut String, tag: &str)
    ensures
        final(out)@ == old(out)@ + lit_head() + tag@ + quote_seq(),
{
    proof {
        lemma_punct();
    }
    out.append("{\"type\":\"");
    out.append(tag);
    out.append("\"");
}

fn append_bool(out: &mut String, b: bool)
    ensures
        final(out)@ == old(out)@ + bool_rep(b),
{
    if b {
        out.append("true");
    } else {
        out.append("false");
    }
}

fn append_pct(out: &mut String, pct: &Option<u32>)
    ensures
        final(out)@ == old(out)@ + pct_enc(*pct),
{
    match pct {
        None => {
            out.append("null");
        },
        Some(n) => {
            let d = dec_chars(*n);
            let ds = chars_to_string(&d);
            out.append(ds.as_str());
        },
    }
}

/// Closes the object.
fn append_end(out: &mut String)
    ensures
        final(out)@ == old(out)@ + rbrace_seq(),
{
    proof {
        lemma_punct();
    }
    out.append("}");
}

/// Appends the settings fields shared by the save command and the settings
/// notification.
fn append_settings(out: &mut String, decimal: bool, compression: &str, excludes: &str)
    ensures
        final(out)@ == old(out)@ + crate::codec::lit_decimal() + bool_rep(decimal)
            + crate::codec::lit_compression() + escape(compression@) + quote_seq()
            + crate::codec::lit_excludes() + escape(excludes@) + quote_seq() + rbrace_seq(),
{
    proof {
        lemma_punct();
    }
    out.append(",\"decimal\":");
    append_bool(out, decimal);
    out.append(",\"compression\":\"");
    append_escaped(out, compression);
    out.append("\"");
    out.append(",\"excludes\":\"");
    append_escaped(out, excludes);
    out.append("\"");
    append_end(out);
}

/// Canonical wire text of a command.
pub fn encode_request(msg: &GuiRequest) -> (out: String)
    ensures
        out@ == spec_encode_request(msg@),
{
    proof {
        lemma_punct();
    }
    let mut out = String::new();
    match msg {
        GuiRequest::OpenUrl { url } => {
            append_tag(&mut out, "OpenUrl");
            out.append(",\"url\":\"");
            append_escaped(&mut out, url.as_str());
            out.append("\"");
            append_end(&mut out);
        },
        GuiRequest::SaveConfig { decimal, compression, excludes } => {
            append_tag(&mut out, "SaveConfig");
            append_settings(&mut out, *decimal, compression.as_str(), excludes.as_str());
        },
        GuiRequest::ResetConfig => {
            append_tag(&mut out, "ResetConfig");
            append_end(&mut out);
        },
        GuiRequest::ChooseFolder => {
            append_tag(&mut out, "ChooseFolder");
            append_end(&mut out);
        },
        GuiRequest::Compress => {
            append_tag(&mut out, "Compress");
            append_end(&mut out);
        },
        GuiRequest::Decompress => {
            append_tag(&mut out, "Decompress");
            append_end(&mut out);
        },
        GuiRequest::Pause => {
            append_tag(&mut out, "Pause");
            append_end(&mut out);
        },
        GuiRequest::Resume => {
            append_tag(&mut out, "Resume");
            append_end(&mut out);
        },
        GuiRequest::Analyse => {
            append_tag(&mut out, "Analyse");
            append_end(&mut out);
        },
        GuiRequest::Stop => {
            append_tag(&mut out, "Stop");
            append_end(&mut out);
        },
        GuiRequest::Quit => {
            append_tag(&mut out, "Quit");
            append_end(&mut out);
        },
    }
    assert(out@ =~= spec_encode_request(msg@));
    out
}

/// Canonical wire text of a notification.
pub fn encode_response(msg: &GuiResponse) -> (out: String)
    ensures
        out@ == spec_encode_response(msg@),
{
    proof {
        lemma_punct();
    }
    let mut out = String::new();
    match msg {
        GuiResponse::Version { date, version } => {
            append_tag(&mut out, "Version");
            out.append(",\"date\":\"");
            append_escaped(&mut out, date.as_str());
            out.append("\"");
            out.append(",\"version\":\"");
            append_escaped(&mut out, version.as_str());
            out.append("\"");
            append_end(&mut out);
        },
        GuiResponse::Config { decimal, compression, excludes } => {
            append_tag(&mut out, "Config");
            append_settings(&mut out, *decimal, compression.as_str(), excludes.as_str());
        },
        GuiResponse::Folder { path } => {
            append_tag(&mut out, "Folder");
            out.append(",\"path\":\"");
            append_escaped(&mut out, path.as_str());
            out.append("\"");
            append_end(&mut out);
        },
        GuiResponse::Status { status, pct } => {
            append_tag(&mut out, "Status");
            out.append(",\"status\":\"");
            append_escaped(&mut out, status.as_str());
            out.append("\"");
            out.append(",\"pct\":");
            append_pct(&mut out, pct);
            append_end(&mut out);
        },
        GuiResponse::FolderSummary { info } => {
            append_tag(&mut out, "FolderSummary");
            out.append(",\"info\":\"");
            append_escaped(&mut out, info.as_str());
            out.append("\"");
            append_end(&mut out);
        },
        GuiResponse::Paused => {
            append_tag(&mut out, "Paused");
            append_end(&mut out);
        },
        GuiResponse::Resumed => {
            append_tag(&mut out, "Resumed");
            append_end(&mut out);
        },
        GuiResponse::Scanned => {
            append_tag(&mut out, "Scanned");
            append_end(&mut out);
        },
        GuiResponse::Stopped => {
            append_tag(&mut out, "Stopped");
            append_end(&mut out);
        },
        GuiResponse::Compacting => {
            append_tag(&mut out, "Compacting");
            append_end(&mut out);
        },
    }
    assert(out@ =~= spec_encode_response(msg@));
    out
}

} // verus!
