//! Serialization of snapshots and the delivery pipeline around the
//! debouncer: build the payload, feed the debouncer, and hand immediate or
//! settled messages to the sink.

use vstd::prelude::*;

use crate::debounce::{
    opt_view, submit_arms_timer, submit_post, submit_sends_now, tick_delivery, tick_fires,
    tick_post, Debouncer,
};
use crate::types::WindowInfo;

verus! {

/// The delivery channel for serialized snapshots.  Implementations perform
/// the actual (fallible, possibly slow) transmission to the keyboard; the
/// library promises nothing about the outcome of a delivery attempt and
/// must never hold a lock across a call to it.
pub trait Notifier {
    fn notify(&self, message: String) -> Result<(), String>;
}

/// The single non-printable byte that separates class from title in a
/// payload: ASCII Group Separator.
pub open spec fn separator_char() -> char {
    '\u{1D}'
}

/// The character shown in place of the separator in verbose output.
pub open spec fn display_separator_char() -> char {
    '|'
}

/// A payload is the application class, the separator, then the title.
pub open spec fn payload_spec(app: Seq<char>, title: Seq<char>) -> Seq<char> {
    app + seq![separator_char()] + title
}

/// Builds the wire payload for one snapshot.
pub fn payload(w: &WindowInfo) -> (r: String)
    ensures
        r@ == payload_spec(w.app_class@, w.title@),
{
    let mut m = w.app_class.clone();
    m.append("\u{1D}");
    m.append(w.title.as_str());
    proof {
        reveal_strlit("\u{1D}");
        assert(m@ =~= payload_spec(w.app_class@, w.title@));
    }
    m
}

/// What sanitization does to each character: the separator becomes the
/// printable bar, everything else is kept.
pub open spec fn sanitize_char(c: char) -> char {
    if c == separator_char() {
        display_separator_char()
    } else {
        c
    }
}

/// The sanitized form of a payload, for verbose display only.
pub open spec fn sanitize_spec(s: Seq<char>) -> Seq<char> {
    s.map(|i: int, c: char| sanitize_char(c))
}

/// Replaces every separator byte by `|` for display.  The input is not
/// altered: delivery always uses the unmodified payload.
pub fn sanitize(s: &str) -> (r: String)
    ensures
        r@ == sanitize_spec(s@),
{
    let n = s.unicode_len();
    let mut out = String::new();
    let mut i: usize = 0;
    while i < n
        invariant
            i <= n,
            n == s@.len(),
            out@ == sanitize_spec(s@.subrange(0, i as int)),
        decreases n - i,
    {
        let c = s.get_char(i);
        if c == '\u{1D}' {
            out.append("|");
        } else {
            let piece = s.substring_char(i, i + 1);
            out.append(piece);
        }
        proof {
            reveal_strlit("|");
            assert(s@.subrange(0, i + 1) =~= s@.subrange(0, i as int).push(s@[i as int]));
            assert(out@ =~= sanitize_spec(s@.subrange(0, i + 1)));
        }
        i += 1;
    }
    proof {
        assert(s@.subrange(0, n as int) =~= s@);
    }
    out
}

/// Law (separator roundtrip): a payload built from separator-free parts
/// sanitizes to class, `|`, title — same shape, printable separator — while
/// delivery itself uses the unaltered payload (sanitize is a pure function
/// of a copy).
pub proof fn lemma_payload_sanitize(app: Seq<char>, title: Seq<char>)
    requires
        forall|i: int| 0 <= i < app.len() ==> app[i] != separator_char(),
        forall|i: int| 0 <= i < title.len() ==> title[i] != separator_char(),
    ensures
        sanitize_spec(payload_spec(app, title)) =~= app + seq![display_separator_char()] + title,
{
    let p = payload_spec(app, title);
    assert forall|i: int| 0 <= i < p.len() implies sanitize_spec(p)[i] == (app + seq![
        display_separator_char(),
    ] + title)[i] by {
        if i < app.len() {
            assert(p[i] == app[i]);
        } else if i == app.len() {
            assert(p[i] == separator_char());
        } else {
            assert(p[i] == title[i - app.len() - 1]);
        }
    }
}

/// What one submission through the pipeline did.
pub struct NotifyOutcome {
    /// The message handed to the sink on the immediate path, if any.
    pub delivered: Option<String>,
    /// The sink's complaint, if delivery was attempted and failed.
    pub sink_error: Option<String>,
    /// True when the caller must start the single background timer task.
    pub arm_timer: bool,
}

/// Submits one snapshot at time `now_ms`: serializes it, records it in the
/// debouncer, and when the immediate path applies hands the payload to the
/// sink right away.  A sink failure is reported but changes no state and is
/// not retried.
///
/// Delivery happens inline, so this form suits a debouncer owned by one
/// caller.  A caller sharing the debouncer behind a lock must not hold the
/// lock across the sink's latency: it should call `Debouncer::submit`
/// under the lock and deliver `deliver_now` after releasing it.
pub fn notify_qmk<S: Notifier>(
    deb: &mut Debouncer,
    sink: &S,
    window_info: &WindowInfo,
    now_ms: u64,
) -> (out: NotifyOutcome)
    requires
        old(deb)@.last_activity <= now_ms,
    ensures
        final(deb)@ == submit_post(
            old(deb)@,
            payload_spec(window_info.app_class@, window_info.title@),
            now_ms as int,
        ),
        opt_view(out.delivered) == (if submit_sends_now(old(deb)@, now_ms as int) {
            Some(payload_spec(window_info.app_class@, window_info.title@))
        } else {
            None::<Seq<char>>
        }),
        out.arm_timer == submit_arms_timer(old(deb)@, now_ms as int),
        out.sink_error is Some ==> out.delivered is Some,
{
    let message = payload(window_info);
    let o = deb.submit(message, now_ms);
    match o.deliver_now {
        Some(msg) => {
            let delivered = msg.clone();
            match sink.notify(msg) {
                Ok(()) => NotifyOutcome {
                    delivered: Some(delivered),
                    sink_error: None,
                    arm_timer: o.arm_timer,
                },
                Err(e) => NotifyOutcome {
                    delivered: Some(delivered),
                    sink_error: Some(e),
                    arm_timer: o.arm_timer,
                },
            }
        },
        None => NotifyOutcome { delivered: None, sink_error: None, arm_timer: o.arm_timer },
    }
}

/// What one timer wake-up did.
pub struct TickReport {
    /// True when the quiescence window had elapsed and the task must exit.
    pub fired: bool,
    /// The settled message handed to the sink, if any.
    pub delivered: Option<String>,
    /// The sink's complaint, if delivery was attempted and failed.
    pub sink_error: Option<String>,
}

/// One wake-up of the background timer task at time `now_ms`: if the burst
/// has settled, takes the pending message, delivers it, and tells the task
/// to exit.  A sink failure is reported but not retried.
///
/// As with `notify_qmk`, delivery happens inline; a caller sharing the
/// debouncer behind a lock should call `Debouncer::timer_tick` under the
/// lock and deliver `deliver` after releasing it.
pub fn debounce_timer_tick<S: Notifier>(deb: &mut Debouncer, sink: &S, now_ms: u64) -> (out:
    TickReport)
    requires
        old(deb)@.last_activity <= now_ms,
    ensures
        final(deb)@ == tick_post(old(deb)@, now_ms as int),
        out.fired == tick_fires(old(deb)@, now_ms as int),
        opt_view(out.delivered) == tick_delivery(old(deb)@, now_ms as int),
        out.sink_error is Some ==> out.delivered is Some,
{
    let t = deb.timer_tick(now_ms);
    match t.deliver {
        Some(msg) => {
            let delivered = msg.clone();
            match sink.notify(msg) {
                Ok(()) => TickReport {
                    fired: t.exit,
                    delivered: Some(delivered),
                    sink_error: None,
                },
                Err(e) => TickReport {
                    fired: t.exit,
                    delivered: Some(delivered),
                    sink_error: Some(e),
                },
            }
        },
        None => TickReport { fired: t.exit, delivered: None, sink_error: None },
    }
}

} // verus!
