use vstd::prelude::*;
use crate::monitor::{Monitor, MonitorResult, Monitors};
use crate::text::{hex_digit, push_char, push_hex_digit, push_signed_decimal, signed_dec_rep};

verus! {

/// How one character is written inside a JSON string: quote and
/// backslash escaped, control characters written as `\u00xx`, every
/// other character as itself.
pub open spec fn json_escape_char(c: char) -> Seq<char> {
    if c == '"' {
        seq!['\\', '"']
    } else if c == '\\' {
        seq!['\\', '\\']
    } else if (c as u32) < 32 {
        seq!['\\', 'u', '0', '0', hex_digit((c as u32) as int / 16), hex_digit(
            (c as u32) as int % 16,
        )]
    } else {
        seq![c]
    }
}

/// The body of a JSON string: every character escaped in turn.
pub open spec fn json_escape(s: Seq<char>) -> Seq<char>
    decreases s.len(),
{
    if s.len() == 0 {
        Seq::empty()
    } else {
        json_escape(s.drop_last()) + json_escape_char(s.last())
    }
}

/// A JSON string: the escaped body between double quotes.
pub open spec fn json_string(s: Seq<char>) -> Seq<char> {
    seq!['"'] + json_escape(s) + seq!['"']
}

/// An optional JSON string: `null` when absent.
pub open spec fn json_opt_string(o: Option<String>) -> Seq<char> {
    match o {
        Some(s) => json_string(s@),
        None => "null"@,
    }
}

/// An optional JSON integer: `null` when absent.
pub open spec fn json_opt_int(o: Option<i32>) -> Seq<char> {
    match o {
        Some(n) => signed_dec_rep(n as int),
        None => "null"@,
    }
}

/// One result object, keys in the order the records carry them.
pub open spec fn json_result(r: MonitorResult) -> Seq<char> {
    "{\"value\":"@ + signed_dec_rep(r.value as int) + ",\"processed_at\":"@ + signed_dec_rep(
        r.processed_at as int,
    ) + "}"@
}

/// An optional result object: `null` when the record has never been
/// refreshed.
pub open spec fn json_opt_result(o: Option<MonitorResult>) -> Seq<char> {
    match o {
        Some(r) => json_result(r),
        None => "null"@,
    }
}

/// One monitor object, fields in load order, the classification under
/// its external key `type`.
pub open spec fn json_monitor(m: Monitor) -> Seq<char> {
    "{\"monitor_id\":"@ + json_opt_int(m.monitor_id) + ",\"name\":"@ + json_string(m.name@)
        + ",\"script\":"@ + json_opt_string(m.script) + ",\"result\":"@ + json_opt_result(m.result)
        + ",\"type\":"@ + json_opt_string(m.monitor_type) + ",\"code\":"@ + json_string(m.code@)
        + "}"@
}

/// The members of the `monitors` array, comma-separated, in set order.
pub open spec fn json_monitor_list(s: Seq<Monitor>) -> Seq<char>
    decreases s.len(),
{
    if s.len() == 0 {
        Seq::empty()
    } else if s.len() == 1 {
        json_monitor(s[0])
    } else {
        json_monitor_list(s.drop_last()) + seq![','] + json_monitor(s.last())
    }
}

/// The whole snapshot document: the set under its single `monitors`
/// key, records in load order.
pub open spec fn json_monitors(m: Monitors) -> Seq<char> {
    "{\"monitors\":["@ + json_monitor_list(m.monitors@) + "]}"@
}

fn append_escaped_char(out: &mut String, c: char)
    ensures
        final(out)@ == old(out)@ + json_escape_char(c),
{
    if c == '"' {
        push_char(out, '\\');
        push_char(out, '"');
        proof {
            assert(out@ =~= old(out)@ + json_escape_char(c));
        }
    } else if c == '\\' {
        push_char(out, '\\');
        push_char(out, '\\');
        proof {
            assert(out@ =~= old(out)@ + json_escape_char(c));
        }
    } else if (c as u32) < 32 {
        let code = c as u32;
        push_char(out, '\\');
        push_char(out, 'u');
        push_char(out, '0');
        push_char(out, '0');
        push_hex_digit(out, code / 16);
        push_hex_digit(out, code % 16);
        proof {
            assert(out@ =~= old(out)@ + json_escape_char(c));
        }
    } else {
        push_char(out, c);
        proof {
            assert(out@ =~= old(out)@ + json_escape_char(c));
        }
    }
}

/// Append `s` as a JSON string, quoted and escaped.
pub fn append_json_string(out: &mut String, s: &str)
    ensures
        final(out)@ == old(out)@ + json_string(s@),
{
    push_char(out, '"');
    let n = s.unicode_len();
    let mut i: usize = 0;
    proof {
        assert(s@.subrange(0, 0) =~= Seq::<char>::empty());
        assert(out@ =~= old(out)@ + seq!['"'] + json_escape(s@.subrange(0, 0)));
    }
    while i < n
        invariant
            n == s@.len(),
            i <= n,
            out@ == old(out)@ + seq!['"'] + json_escape(s@.subrange(0, i as int)),
        decreases n - i,
    {
        let c = s.get_char(i);
        append_escaped_char(out, c);
        proof {
            let pre = s@.subrange(0, i as int);
            let ext = s@.subrange(0, (i + 1) as int);
            assert(ext.drop_last() =~= pre);
            assert(ext.last() == c);
            assert(json_escape(ext) == json_escape(pre) + json_escape_char(c));
            assert(out@ =~= old(out)@ + seq!['"'] + json_escape(ext));
        }
        i = i + 1;
    }
    proof {
        assert(s@.subrange(0, n as int) =~= s@);
    }
    push_char(out, '"');
    proof {
        assert(out@ =~= old(out)@ + json_string(s@));
    }
}

fn append_opt_string(out: &mut String, o: &Option<String>)
    ensures
        final(out)@ == old(out)@ + json_opt_string(*o),
{
    match o {
        Some(s) => {
            append_json_string(out, s.as_str());
        },
        None => {
            out.append("null");
        },
    }
}

fn append_opt_int(out: &mut String, o: &Option<i32>)
    ensures
        final(out)@ == old(out)@ + json_opt_int(*o),
{
    match o {
        Some(n) => {
            push_signed_decimal(out, *n as i64);
        },
        None => {
            out.append("null");
        },
    }
}

fn append_opt_result(out: &mut String, o: &Option<MonitorResult>)
    ensures
        final(out)@ == old(out)@ + json_opt_result(*o),
{
    match o {
        Some(r) => {
            out.append("{\"value\":");
            push_signed_decimal(out, r.value as i64);
            out.append(",\"processed_at\":");
            push_signed_decimal(out, r.processed_at);
            out.append("}");
            proof {
                assert(out@ =~= old(out)@ + json_result(*r));
            }
        },
        None => {
            out.append("null");
        },
    }
}

/// Append one monitor as a JSON object.
pub fn append_monitor(out: &mut String, m: &Monitor)
    ensures
        final(out)@ == old(out)@ + json_monitor(*m),
{
    out.append("{\"monitor_id\":");
    append_opt_int(out, &m.monitor_id);
    out.append(",\"name\":");
    append_json_string(out, m.name.as_str());
    out.append(",\"script\":");
    append_opt_string(out, &m.script);
    out.append(",\"result\":");
    append_opt_result(out, &m.result);
    out.append(",\"type\":");
    append_opt_string(out, &m.monitor_type);
    out.append(",\"code\":");
    append_json_string(out, m.code.as_str());
    out.append("}");
    proof {
        assert(out@ =~= old(out)@ + json_monitor(*m));
    }
}

/// Serialize the whole set to its snapshot document. The document is
/// a function of the set alone, so the bytes a snapshot writes are
/// decided entirely by the state the lock handed out.
pub fn monitors_to_json(set: &Monitors) -> (r: String)
    ensures
        r@ == json_monitors(*set),
{
    let mut out = String::new();
    out.append("{\"monitors\":[");
    let n = set.monitors.len();
    let mut i: usize = 0;
    proof {
        assert(set.monitors@.subrange(0, 0) =~= Seq::<Monitor>::empty());
        assert(out@ =~= "{\"monitors\":["@ + json_monitor_list(set.monitors@.subrange(0, 0)));
    }
    while i < n
        invariant
            n == set.monitors@.len(),
            i <= n,
            out@ == "{\"monitors\":["@ + json_monitor_list(set.monitors@.subrange(0, i as int)),
        decreases n - i,
    {
        if i > 0 {
            push_char(&mut out, ',');
        }
        append_monitor(&mut out, &set.monitors[i]);
        proof {
            let pre = set.monitors@.subrange(0, i as int);
            let ext = set.monitors@.subrange(0, (i + 1) as int);
            assert(ext.drop_last() =~= pre);
            assert(ext.last() == set.monitors@[i as int]);
            if i == 0 {
                assert(json_monitor_list(ext) == json_monitor(set.monitors@[0]));
            } else {
                assert(json_monitor_list(ext) == json_monitor_list(pre) + seq![','] + json_monitor(
                    set.monitors@[i as int],
                ));
            }
            assert(out@ =~= "{\"monitors\":["@ + json_monitor_list(ext));
        }
        i = i + 1;
    }
    proof {
        assert(set.monitors@.subrange(0, n as int) =~= set.monitors@);
    }
    out.append("]}");
    proof {
        assert(out@ =~= json_monitors(*set));
    }
    out
}

} // verus!
