//! The JSON document answered by `GET /api/status`.

use vstd::prelude::*;
use crate::json::{append_json_escaped, json_escape, json_unescape, lemma_escape_round_trip};
use crate::web::Reply;

verus! {

/// The JSON literal for `b`.
pub open spec fn bool_text(b: bool) -> Seq<char> {
    if b {
        "true"@
    } else {
        "false"@
    }
}

/// The decimal digit for `d` (below ten).
pub open spec fn digit_text(d: nat) -> Seq<char> {
    if d == 0 {
        "0"@
    } else if d == 1 {
        "1"@
    } else if d == 2 {
        "2"@
    } else if d == 3 {
        "3"@
    } else if d == 4 {
        "4"@
    } else if d == 5 {
        "5"@
    } else if d == 6 {
        "6"@
    } else if d == 7 {
        "7"@
    } else if d == 8 {
        "8"@
    } else {
        "9"@
    }
}

/// The decimal digits of `n`, most significant first, without leading
/// zeros.
pub open spec fn digits_text(n: nat) -> Seq<char>
    decreases n,
{
    if n < 10 {
        digit_text(n)
    } else {
        digits_text(n / 10) + digit_text(n % 10)
    }
}

/// `v` written in decimal, with a leading `-` when negative.
pub open spec fn decimal_text(v: int) -> Seq<char> {
    if v < 0 {
        "-"@ + digits_text((-v) as nat)
    } else {
        digits_text(v as nat)
    }
}

/// Whole seconds in `us` microseconds, rounded toward zero.
pub open spec fn uptime_seconds(us: int) -> int {
    if us >= 0 {
        us / 1_000_000
    } else {
        -((-us) / 1_000_000)
    }
}

/// The status document, a JSON object: connection state, SSID and IP
/// address as JSON strings (escaped with [`json_escape`]), and uptime in
/// whole seconds.
pub open spec fn status_document(connected: bool, ssid: Seq<char>, ip: Seq<char>, uptime_us: int) -> Seq<
    char,
> {
    "{\"connected\":"@ + bool_text(connected) + ",\"ssid\":\""@ + json_escape(ssid) + "\",\"ip\":\""@
        + json_escape(ip) + "\",\"uptime\":"@ + decimal_text(uptime_seconds(uptime_us)) + "}"@
}

/// The SSID shown when none is stored.
pub const NO_SSID: &'static str = "Not Configured";

/// The address shown when none is known.
pub const NO_IP: &'static str = "Unknown";

/// The text of the digit `d`.
fn digit_str(d: u64) -> (r: &'static str)
    requires
        d < 10,
    ensures
        r@ == digit_text(d as nat),
{
    match d {
        0 => "0",
        1 => "1",
        2 => "2",
        3 => "3",
        4 => "4",
        5 => "5",
        6 => "6",
        7 => "7",
        8 => "8",
        _ => "9",
    }
}

/// Appends the decimal digits of `n` to `out`.
fn append_digits(out: &mut String, n: u64)
    ensures
        final(out)@ == old(out)@ + digits_text(n as nat),
    decreases n,
{
    if n >= 10 {
        append_digits(out, n / 10);
    }
    out.append(digit_str(n % 10));
    proof {
        if n >= 10 {
            assert(digits_text(n as nat) == digits_text((n / 10) as nat) + digit_text((n % 10) as nat));
        }
    }
}

/// The status document as sent; `ssid` and `ip` fall back to
/// "Not Configured" and "Unknown".
pub fn status_json(connected: bool, ssid: Option<&str>, ip: Option<&str>, uptime_us: i64) -> (r:
    String)
    ensures
        r@ == status_document(
            connected,
            match ssid {
                Some(s) => s@,
                None => NO_SSID@,
            },
            match ip {
                Some(a) => a@,
                None => NO_IP@,
            },
            uptime_us as int,
        ),
{
    let ssid_text = match ssid {
        Some(s) => s,
        None => NO_SSID,
    };
    let ip_text = match ip {
        Some(a) => a,
        None => NO_IP,
    };
    let mut out = "{\"connected\":".to_owned();
    out.append(if connected { "true" } else { "false" });
    out.append(",\"ssid\":\"");
    append_json_escaped(&mut out, ssid_text);
    out.append("\",\"ip\":\"");
    append_json_escaped(&mut out, ip_text);
    out.append("\",\"uptime\":");
    let magnitude: u64 = if uptime_us >= 0 {
        uptime_us as u64
    } else {
        (-(uptime_us as i128)) as u64
    };
    let seconds: u64 = magnitude / 1_000_000;
    if uptime_us < 0 && seconds > 0 {
        out.append("-");
    }
    append_digits(&mut out, seconds);
    out.append("}");
    proof {
        let secs = uptime_seconds(uptime_us as int);
        if uptime_us >= 0 {
            assert(secs == seconds);
        } else {
            assert(secs == -(seconds as int));
            if seconds == 0 {
                assert(decimal_text(secs) == digits_text(0));
            }
        }
    }
    out
}

/// The answer to an authorized `GET /api/status`.
pub fn status_reply(connected: bool, ssid: Option<&str>, ip: Option<&str>, uptime_us: i64) -> (r:
    Reply)
    ensures
        r.status == 200,
        r.content_type == Some("application/json"),
        r.body@ == status_document(
            connected,
            match ssid {
                Some(s) => s@,
                None => NO_SSID@,
            },
            match ip {
                Some(a) => a@,
                None => NO_IP@,
            },
            uptime_us as int,
        ),
        !r.reboot,
{
    Reply {
        status: 200,
        content_type: Some("application/json"),
        body: status_json(connected, ssid, ip, uptime_us),
        reboot: false,
    }
}

/// The document opens with the `connected` field, which reads `true`
/// exactly when the connection state given is true and `false` otherwise,
/// whatever the SSID, address and uptime.
pub proof fn lemma_status_connected_field(
    connected: bool,
    ssid: Seq<char>,
    ip: Seq<char>,
    uptime_us: int,
)
    ensures
        connected ==> status_document(connected, ssid, ip, uptime_us).subrange(0, 17)
            == "{\"connected\":true"@,
        !connected ==> status_document(connected, ssid, ip, uptime_us).subrange(0, 18)
            == "{\"connected\":false"@,
{
    reveal_strlit("{\"connected\":");
    reveal_strlit("{\"connected\":true");
    reveal_strlit("{\"connected\":false");
    reveal_strlit("true");
    reveal_strlit("false");
    let head = "{\"connected\":"@ + bool_text(connected);
    let doc = status_document(connected, ssid, ip, uptime_us);
    let rest = ",\"ssid\":\""@ + json_escape(ssid) + "\",\"ip\":\""@ + json_escape(ip)
        + "\",\"uptime\":"@ + decimal_text(uptime_seconds(uptime_us)) + "}"@;
    assert(doc =~= head + rest);
    assert(doc.subrange(0, head.len() as int) =~= head);
    if connected {
        assert(head =~= "{\"connected\":true"@);
    } else {
        assert(head =~= "{\"connected\":false"@);
    }
}

/// The uptime shown is the number of whole seconds in the microseconds
/// given, rounded toward zero: the rest left over is less than a second
/// and has the sign of the input.
pub proof fn lemma_uptime_whole_seconds(us: int)
    ensures
        us >= 0 ==> 0 <= us - 1_000_000 * uptime_seconds(us) < 1_000_000,
        us < 0 ==> -1_000_000 < us - 1_000_000 * uptime_seconds(us) <= 0,
{
    if us < 0 {
        let m = -us;
        assert(0 <= m - 1_000_000 * (m / 1_000_000) < 1_000_000) by (nonlinear_arith)
            requires
                m > 0,
        ;
    } else {
        assert(0 <= us - 1_000_000 * (us / 1_000_000) < 1_000_000) by (nonlinear_arith)
            requires
                us >= 0,
        ;
    }
}

/// The value of a decimal digit character (`0` for any other character).
pub open spec fn digit_value(c: char) -> int {
    if '0' <= c && c <= '9' {
        (c as u32) - ('0' as u32)
    } else {
        0
    }
}

/// The number that a string of decimal digits denotes.
pub open spec fn decimal_value(t: Seq<char>) -> int
    decreases t.len(),
{
    if t.len() == 0 {
        0
    } else {
        10 * decimal_value(t.drop_last()) + digit_value(t.last())
    }
}

/// Each digit text is the one character of that digit.
proof fn lemma_digit_text(d: nat)
    requires
        d < 10,
    ensures
        digit_text(d).len() == 1,
        digit_value(digit_text(d)[0]) == d,
        '0' <= digit_text(d)[0] && digit_text(d)[0] <= '9',
{
    reveal_strlit("0");
    reveal_strlit("1");
    reveal_strlit("2");
    reveal_strlit("3");
    reveal_strlit("4");
    reveal_strlit("5");
    reveal_strlit("6");
    reveal_strlit("7");
    reveal_strlit("8");
    reveal_strlit("9");
}

/// The digits written for `n` are decimal digits and denote `n`, with no
/// leading zero unless `n` is zero.
pub proof fn lemma_digits_denote(n: nat)
    ensures
        decimal_value(digits_text(n)) == n,
        digits_text(n).len() >= 1,
        forall|i: int| 0 <= i < digits_text(n).len() ==> '0' <= #[trigger] digits_text(n)[i]
            && digits_text(n)[i] <= '9',
        n > 0 ==> digits_text(n)[0] != '0',
    decreases n,
{
    if n < 10 {
        lemma_digit_text(n);
        let t = digit_text(n);
        assert(t.drop_last() =~= Seq::<char>::empty());
        assert(decimal_value(t.drop_last()) == 0);
        assert(t.last() == t[0]);
        if n > 0 {
            reveal_strlit("0");
            assert(t[0] != '0');
        }
    } else {
        lemma_digits_denote(n / 10);
        lemma_digit_text(n % 10);
        let a = digits_text(n / 10);
        let b = digit_text(n % 10);
        let t = digits_text(n);
        assert(t == a + b);
        assert(t.drop_last() =~= a);
        assert(t.last() == b[0]);
        assert(10 * (n / 10) + n % 10 == n);
        assert forall|i: int| 0 <= i < t.len() implies '0' <= #[trigger] t[i] && t[i] <= '9' by {
            if i < a.len() {
                assert(t[i] == a[i]);
            } else {
                assert(t[i] == b[i - a.len()]);
            }
        }
        assert(t[0] == a[0]);
    }
}

/// After the `connected` field the document holds `"ssid":"` and then text
/// that decodes (as a JSON string) to exactly the SSID given, then
/// `","ip":"` and text that decodes to exactly the address given.
pub proof fn lemma_status_strings_read_back(
    connected: bool,
    ssid: Seq<char>,
    ip: Seq<char>,
    uptime_us: int,
)
    ensures
        ({
            let doc = status_document(connected, ssid, ip, uptime_us);
            let s0: int = 13 + bool_text(connected).len() as int + 9;
            let s1: int = s0 + json_escape(ssid).len();
            let i0: int = s1 + 8;
            let i1: int = i0 + json_escape(ip).len();
            &&& doc.subrange(s0 - 9, s0) == ",\"ssid\":\""@
            &&& json_unescape(doc.subrange(s0, s1)) == ssid
            &&& doc.subrange(s1, i0) == "\",\"ip\":\""@
            &&& json_unescape(doc.subrange(i0, i1)) == ip
            &&& doc.subrange(i1, i1 + 11) == "\",\"uptime\":"@
            &&& doc.subrange(i1 + 11, doc.len() - 1) == decimal_text(uptime_seconds(uptime_us))
            &&& doc[doc.len() - 1] == '}'
        }),
{
    reveal_strlit("{\"connected\":");
    reveal_strlit(",\"ssid\":\"");
    reveal_strlit("\",\"ip\":\"");
    lemma_escape_round_trip(ssid);
    lemma_escape_round_trip(ip);
    let doc = status_document(connected, ssid, ip, uptime_us);
    let h = "{\"connected\":"@ + bool_text(connected);
    let es = json_escape(ssid);
    let ei = json_escape(ip);
    let tail = "\",\"uptime\":"@ + decimal_text(uptime_seconds(uptime_us)) + "}"@;
    let a = h + ",\"ssid\":\""@;
    let b = a + es;
    let c = b + "\",\"ip\":\""@;
    let d = c + ei;
    assert(doc =~= d + tail);
    assert(doc.subrange(a.len() - 9, a.len() as int) =~= ",\"ssid\":\""@);
    assert(doc.subrange(a.len() as int, b.len() as int) =~= es);
    assert(doc.subrange(b.len() as int, c.len() as int) =~= "\",\"ip\":\""@);
    assert(doc.subrange(c.len() as int, d.len() as int) =~= ei);
    reveal_strlit("\",\"uptime\":");
    reveal_strlit("}");
    assert(doc.subrange(d.len() as int, d.len() as int + 11) =~= "\",\"uptime\":"@);
    assert(doc.subrange(d.len() as int + 11, doc.len() - 1) =~= decimal_text(uptime_seconds(uptime_us)));
}

/// The decimal text of `v` is its digits, after a `-` when `v` is
/// negative, and reads back as `v`.
pub proof fn lemma_decimal_text_denotes(v: int)
    ensures
        v >= 0 ==> decimal_value(decimal_text(v)) == v,
        v < 0 ==> decimal_text(v)[0] == '-' && decimal_value(decimal_text(v).drop_first()) == -v,
{
    reveal_strlit("-");
    if v >= 0 {
        lemma_digits_denote(v as nat);
    } else {
        lemma_digits_denote((-v) as nat);
        assert(decimal_text(v).drop_first() =~= digits_text((-v) as nat));
    }
}

} // verus!
