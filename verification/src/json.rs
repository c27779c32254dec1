//! The activity-record line format: one JSON object per record, keys in
//! lexicographic order at every level, numbers in plain decimal, string
//! values escaped as `crate::text::escape_str` says.
//!
//! A record carries the foreground-window context, a timestamp and the full
//! metrics snapshot; the exact character sequence is pinned down here so
//! that what is pushed into the ring buffer and appended to the log is one
//! and the same line.

use vstd::prelude::*;
use vstd::string::StringExecFns;
use crate::events::WindowContext;
use crate::metrics::Metrics;
use crate::text::{append_escaped, append_lit_escaped, append_lit_u64, dec_str, escape_str};

verus! {

/// The serialized metrics object.
pub open spec fn metrics_json(m: Metrics) -> Seq<char> {
    "{\"backspace_count\":"@ + dec_str(m.backspace_count as nat)
        + ",\"char_count\":"@ + dec_str(m.char_count as nat)
        + ",\"copy_count\":"@ + dec_str(m.copy_count as nat)
        + ",\"enter_count\":"@ + dec_str(m.enter_count as nat)
        + ",\"function_keys\":{\"f1_f12\":"@ + dec_str(m.function_keys.f1_f12 as nat)
        + "},\"kpm\":"@ + dec_str(m.kpm as nat)
        + ",\"mods\":{\"alt\":"@ + dec_str(m.mods.alt as nat)
        + ",\"ctrl\":"@ + dec_str(m.mods.ctrl as nat)
        + ",\"shift\":"@ + dec_str(m.mods.shift as nat)
        + "},\"mouse\":{\"double_clicks\":"@ + dec_str(m.mouse.double_clicks as nat)
        + ",\"drags\":"@ + dec_str(m.mouse.drags as nat)
        + ",\"left_clicks\":"@ + dec_str(m.mouse.left_clicks as nat)
        + ",\"middle_clicks\":"@ + dec_str(m.mouse.middle_clicks as nat)
        + ",\"moves\":"@ + dec_str(m.mouse.moves as nat)
        + ",\"right_clicks\":"@ + dec_str(m.mouse.right_clicks as nat)
        + ",\"scrolls\":"@ + dec_str(m.mouse.scrolls as nat)
        + "},\"nav_keys\":{\"arrows\":"@ + dec_str(m.nav_keys.arrows as nat)
        + ",\"home_end\":"@ + dec_str(m.nav_keys.home_end as nat)
        + ",\"pgup_pgdn\":"@ + dec_str(m.nav_keys.pgup_pgdn as nat)
        + "},\"paste_count\":"@ + dec_str(m.paste_count as nat)
        + "}"@
}

/// The serialized activity record.
pub open spec fn event_line(
    app: Seq<char>,
    title: Seq<char>,
    proc: Seq<char>,
    pid: u32,
    iso: Seq<char>,
    m: Metrics,
) -> Seq<char> {
    "{\"app_name\":\""@ + escape_str(app)
        + "\",\"metrics\":"@ + metrics_json(m)
        + ",\"pid\":"@ + dec_str(pid as nat)
        + ",\"process_name\":\""@ + escape_str(proc)
        + "\",\"timestamp\":\""@ + escape_str(iso)
        + "\",\"window_title\":\""@ + escape_str(title)
        + "\"}"@
}

/// Renders the metrics object.
pub fn metrics_json_string(m: &Metrics) -> (r: String)
    ensures
        r@ == metrics_json(*m),
{
    let mut out = String::from_str("{\"backspace_count\":");
    let d = crate::text::u64_to_string(m.backspace_count);
    out.append(d.as_str());
    append_lit_u64(&mut out, ",\"char_count\":", m.char_count);
    append_lit_u64(&mut out, ",\"copy_count\":", m.copy_count);
    append_lit_u64(&mut out, ",\"enter_count\":", m.enter_count);
    append_lit_u64(&mut out, ",\"function_keys\":{\"f1_f12\":", m.function_keys.f1_f12);
    append_lit_u64(&mut out, "},\"kpm\":", m.kpm);
    append_lit_u64(&mut out, ",\"mods\":{\"alt\":", m.mods.alt);
    append_lit_u64(&mut out, ",\"ctrl\":", m.mods.ctrl);
    append_lit_u64(&mut out, ",\"shift\":", m.mods.shift);
    append_lit_u64(&mut out, "},\"mouse\":{\"double_clicks\":", m.mouse.double_clicks);
    append_lit_u64(&mut out, ",\"drags\":", m.mouse.drags);
    append_lit_u64(&mut out, ",\"left_clicks\":", m.mouse.left_clicks);
    append_lit_u64(&mut out, ",\"middle_clicks\":", m.mouse.middle_clicks);
    append_lit_u64(&mut out, ",\"moves\":", m.mouse.moves);
    append_lit_u64(&mut out, ",\"right_clicks\":", m.mouse.right_clicks);
    append_lit_u64(&mut out, ",\"scrolls\":", m.mouse.scrolls);
    append_lit_u64(&mut out, "},\"nav_keys\":{\"arrows\":", m.nav_keys.arrows);
    append_lit_u64(&mut out, ",\"home_end\":", m.nav_keys.home_end);
    append_lit_u64(&mut out, ",\"pgup_pgdn\":", m.nav_keys.pgup_pgdn);
    append_lit_u64(&mut out, "},\"paste_count\":", m.paste_count);
    out.append("}");
    proof {
        assert(out@ =~= metrics_json(*m));
    }
    out
}

/// Renders one full activity record: the foreground-window context, the
/// given timestamp and the metrics snapshot, as one JSON line.
pub fn event_line_string(ctx: &WindowContext, iso_timestamp: &str, m: &Metrics) -> (r: String)
    ensures
        r@ == event_line(
            ctx.app_name@,
            ctx.window_title@,
            ctx.process_name@,
            ctx.pid,
            iso_timestamp@,
            *m,
        ),
{
    let mut out = String::from_str("{\"app_name\":\"");
    append_escaped(&mut out, ctx.app_name.as_str());
    out.append("\",\"metrics\":");
    let mj = metrics_json_string(m);
    out.append(mj.as_str());
    append_lit_u64(&mut out, ",\"pid\":", ctx.pid as u64);
    append_lit_escaped(&mut out, ",\"process_name\":\"", ctx.process_name.as_str());
    append_lit_escaped(&mut out, "\",\"timestamp\":\"", iso_timestamp);
    append_lit_escaped(&mut out, "\",\"window_title\":\"", ctx.window_title.as_str());
    out.append("\"}");
    proof {
        assert(dec_str(ctx.pid as u64 as nat) == dec_str(ctx.pid as nat));
        assert(out@ =~= event_line(
            ctx.app_name@,
            ctx.window_title@,
            ctx.process_name@,
            ctx.pid,
            iso_timestamp@,
            *m,
        ));
    }
    out
}

} // verus!
