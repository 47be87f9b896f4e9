//! Device records and what is read from the bridge tool's listings and probes.
use vstd::prelude::*;
use vstd::string::*;
use crate::session::ToolOutput;
use crate::text::{
    char_from, find_from, find_text, has_at, lines, lines_from, occurs_at, strs, tokens, tokens_from,
    trim, trim_of, whitespace_from, ws_from,
};

verus! {

/// The view of an optional string.
pub open spec fn opt_view(o: Option<String>) -> Option<Seq<char>> {
    match o {
        Some(s) => Some(s@),
        None => None,
    }
}

/// The value, or the placeholder `Undefined` when it is absent.
pub open spec fn or_undefined(o: Option<Seq<char>>) -> Seq<char> {
    match o {
        Some(v) => v,
        None => "Undefined"@,
    }
}

/// One attached device with the metadata that could be read from it.
pub struct Device {
    pub serial: String,
    pub model: String,
    pub os_version: String,
    pub ip: String,
}

impl Device {
    /// A record in which a missing OS version or address reads `Undefined`.
    pub fn new(serial: String, model: String, os_version: Option<String>, ip: Option<String>) -> (r: Device)
        ensures
            r.serial@ == serial@,
            r.model@ == model@,
            r.os_version@ == or_undefined(opt_view(os_version)),
            r.ip@ == or_undefined(opt_view(ip)),
    {
        let os_version = match os_version {
            Some(v) => v,
            None => String::from_str("Undefined"),
        };
        let ip = match ip {
            Some(v) => v,
            None => String::from_str("Undefined"),
        };
        Device { serial, model, os_version, ip }
    }
}

/// The key of the token that gives a device's model.
pub open spec fn model_key() -> Seq<char> {
    "model:"@
}

/// The value of a `model:` token: what follows the key, up to the next colon.
pub open spec fn model_value(t: Seq<char>) -> Seq<char> {
    let k = model_key().len() as int;
    t.subrange(k, char_from(t, ':', k))
}

/// The model named by the first `model:` token of `ts`, or `Undefined`.
pub open spec fn model_in(ts: Seq<Seq<char>>) -> Seq<char>
    decreases ts.len(),
{
    if ts.len() == 0 {
        "Undefined"@
    } else if has_at(ts[0], model_key(), 0) {
        model_value(ts[0])
    } else {
        model_in(ts.skip(1))
    }
}

/// The serial and model read from one line of a long device listing, if the
/// line holds a token.
pub open spec fn entry_of(line: Seq<char>) -> Seq<(Seq<char>, Seq<char>)> {
    let t = tokens_from(line, 0);
    if t.len() == 0 {
        Seq::empty()
    } else {
        seq![(t[0], model_in(t.skip(1)))]
    }
}

/// The entries of the lines `ls`, in order.
pub open spec fn entries_in(ls: Seq<Seq<char>>) -> Seq<(Seq<char>, Seq<char>)>
    decreases ls.len(),
{
    if ls.len() == 0 {
        Seq::empty()
    } else {
        entries_in(ls.drop_last()) + entry_of(ls.last())
    }
}

/// The serial and model of each device of a long device listing: its first
/// line is a header.
pub open spec fn listing_entries(s: Seq<char>) -> Seq<(Seq<char>, Seq<char>)> {
    let ls = lines_from(s, 0);
    if ls.len() == 0 {
        Seq::empty()
    } else {
        entries_in(ls.skip(1))
    }
}

pub open spec fn pairs(v: Seq<(String, String)>) -> Seq<(Seq<char>, Seq<char>)> {
    v.map_values(|p: (String, String)| (p.0@, p.1@))
}

/// The OS version read from the answer to the version probe.
pub open spec fn os_of(out: ToolOutput) -> Option<Seq<char>> {
    match out {
        ToolOutput::Success(s) => Some(trim_of(s@)),
        _ => None,
    }
}

pub open spec fn src_marker() -> Seq<char> {
    "src "@
}

/// The address that follows the first `src ` marker of a route table, up to
/// the next whitespace; none where there is no marker or nothing follows it.
pub open spec fn route_ip(s: Seq<char>) -> Option<Seq<char>> {
    let p = find_from(s, src_marker(), 0);
    if p < 0 {
        None
    } else {
        let a = p + src_marker().len();
        let b = ws_from(s, a);
        if b <= a {
            None
        } else {
            Some(s.subrange(a, b))
        }
    }
}

/// The address read from the answer to the route probe.
pub open spec fn ip_of(out: ToolOutput) -> Option<Seq<char>> {
    match out {
        ToolOutput::Success(s) => route_ip(s@),
        _ => None,
    }
}

/// The model named by the tokens of `toks` after the first.
fn model_of_tokens(toks: &Vec<String>) -> (r: String)
    requires
        toks@.len() >= 1,
    ensures
        r@ == model_in(strs(toks@).skip(1)),
{
    let key = "model:";
    let ghost ts = strs(toks@);
    let mut k: usize = 1;
    while k < toks.len()
        invariant
            1 <= k <= toks@.len(),
            ts == strs(toks@),
            key@ == model_key(),
            model_in(ts.skip(k as int)) == model_in(ts.skip(1)),
        decreases toks@.len() - k,
    {
        let t = toks[k].as_str();
        assert(ts.skip(k as int)[0] == t@);
        if occurs_at(t, key, 0) {
            let m = key.unicode_len();
            let mut j = m;
            let n = t.unicode_len();
            while j < n && t.get_char(j) != ':'
                invariant
                    m <= j <= n,
                    n == t@.len(),
                    char_from(t@, ':', m as int) == char_from(t@, ':', j as int),
                decreases n - j,
            {
                j = j + 1;
            }
            return String::from_str(t.substring_char(m, j));
        }
        assert(ts.skip(k as int).skip(1) =~= ts.skip(k + 1));
        k = k + 1;
    }
    assert(ts.skip(k as int).len() == 0);
    String::from_str("Undefined")
}

/// The serial and model of each device in `listing`, the answer to a long
/// device listing.
pub fn device_entries(listing: &str) -> (r: Vec<(String, String)>)
    ensures
        pairs(r@) == listing_entries(listing@),
{
    let ls = lines(listing);
    let mut out: Vec<(String, String)> = Vec::new();
    if ls.len() == 0 {
        assert(pairs(out@) =~= listing_entries(listing@));
        return out;
    }
    let ghost rest = strs(ls@).skip(1);
    let mut i: usize = 1;
    while i < ls.len()
        invariant
            1 <= i <= ls@.len(),
            rest == strs(ls@).skip(1),
            pairs(out@) == entries_in(rest.take(i - 1)),
        decreases ls@.len() - i,
    {
        let toks = tokens(ls[i].as_str());
        let ghost prev = out@;
        assert(rest.take(i as int).drop_last() =~= rest.take(i - 1));
        assert(rest.take(i as int).last() == ls@[i as int]@);
        if toks.len() > 0 {
            let serial = toks[0].clone();
            let model = model_of_tokens(&toks);
            out.push((serial, model));
            assert(pairs(out@) =~= pairs(prev) + entry_of(ls@[i as int]@));
        } else {
            assert(pairs(out@) =~= pairs(prev) + entry_of(ls@[i as int]@));
        }
        i = i + 1;
    }
    assert(rest.take(i - 1) =~= rest);
    out
}

/// The OS version in `out`, the answer to the version probe.
pub fn os_from_probe(out: &ToolOutput) -> (r: Option<String>)
    ensures
        opt_view(r) == os_of(*out),
{
    match out {
        ToolOutput::Success(s) => Some(trim(s.as_str())),
        _ => None,
    }
}

/// The address in `s`, a route table, as `route_ip` reads it.
pub fn ip_from_routes(s: &str) -> (r: Option<String>)
    ensures
        opt_view(r) == route_ip(s@),
{
    let marker = "src ";
    assert(marker@ == src_marker());
    match find_text(s, marker) {
        None => None,
        Some(p) => {
            let n = s.unicode_len();
            let m = marker.unicode_len();
            assert(p + m <= n);
            let a = p + m;
            let b = whitespace_from(s, a);
            if b <= a {
                None
            } else {
                Some(String::from_str(s.substring_char(a, b)))
            }
        },
    }
}

/// The address in `out`, the answer to the route probe.
pub fn ip_from_probe(out: &ToolOutput) -> (r: Option<String>)
    ensures
        opt_view(r) == ip_of(*out),
{
    match out {
        ToolOutput::Success(s) => ip_from_routes(s.as_str()),
        _ => None,
    }
}

/// The rendering of `rows` as an aligned text table, the first row as header.
pub uninterp spec fn table_of(rows: Seq<Seq<Seq<char>>>) -> Seq<char>;

pub open spec fn rows_view(rows: Seq<Vec<String>>) -> Seq<Seq<Seq<char>>> {
    rows.map_values(|r: Vec<String>| strs(r@))
}

/// Relies on tabled's `Builder` (built from the records, the first one as
/// header) and the `Display` of the `Table` it builds: the text depends on
/// the rows alone.
#[verifier::external_body]
pub(crate) fn render_table(rows: &Vec<Vec<String>>) -> (r: String)
    ensures
        r@ == table_of(rows_view(rows@)),
{
    tabled::builder::Builder::from_iter(rows.iter().cloned()).build().to_string()
}

} // verus!
