//! The compositor-IPC focus monitor: window-state bookkeeping shared by the
//! push handlers and the polling fallback, the reconnect-with-backoff policy
//! for a disconnect-prone event listener, and the environment probes'
//! decision logic.  The blocking socket work itself lives outside the
//! library and feeds plain values into these functions.

use vstd::prelude::*;

use crate::strutil::{
    find_char_from, find_from, first_at_or_after, first_match_at_or_after, is_ascii_space,
    is_space_exec, lemma_first_at_or_after, lemma_first_match_at_or_after, occurs_at,
    occurs_at_exec, str_eq,
};
use crate::types::WindowInfo;

verus! {

/// The last window state a monitor has submitted: class and title.
#[derive(Debug)]
pub struct WindowState {
    pub app_class: String,
    pub title: String,
}

impl View for WindowState {
    type V = (Seq<char>, Seq<char>);

    open spec fn view(&self) -> (Seq<char>, Seq<char>) {
        (self.app_class@, self.title@)
    }
}

impl Clone for WindowState {
    fn clone(&self) -> (r: Self)
        ensures
            r@ == self@,
    {
        Self { app_class: self.app_class.clone(), title: self.title.clone() }
    }
}

impl PartialEq for WindowState {
    fn eq(&self, other: &Self) -> (r: bool) {
        self.app_class == other.app_class && self.title == other.title
    }
}

impl Eq for WindowState {

}

impl vstd::std_specs::cmp::PartialEqSpecImpl for WindowState {
    open spec fn obeys_eq_spec() -> bool {
        true
    }

    open spec fn eq_spec(&self, other: &Self) -> bool {
        self@ == other@
    }
}

/// The empty state: no window focused (an empty workspace).
pub open spec fn is_empty_state(s: (Seq<char>, Seq<char>)) -> bool {
    s.0.len() == 0 && s.1.len() == 0
}

/// The view of an optional window state.
pub open spec fn opt_state_view(o: Option<WindowState>) -> Option<(Seq<char>, Seq<char>)> {
    match o {
        Some(s) => Some(s@),
        None => None,
    }
}

/// Whether a polled observation counts as a change against the last
/// submitted state.  A failed query (`current` absent) is no snapshot
/// this cycle and never a change.  Any transition into or out of the
/// empty state is a change, but two consecutive empty states are not
/// re-submitted; apart from that, any difference in class or title is a
/// change.
pub open spec fn window_changed_spec(
    last: Option<(Seq<char>, Seq<char>)>,
    current: Option<(Seq<char>, Seq<char>)>,
) -> bool {
    match (last, current) {
        (_, None) => false,
        (None, Some(_)) => true,
        (Some(l), Some(c)) => if is_empty_state(l) && is_empty_state(c) {
            false
        } else {
            l != c
        },
    }
}

/// The compositor-IPC monitor.  It owns the one piece of last-seen state
/// that both the push handlers and the polling fallback compare against,
/// and the flag that keeps the polling task alive.
#[derive(Debug)]
pub struct HyprlandMonitor {
    /// The most recent state either detection path has submitted.
    pub last_window_state: Option<WindowState>,
    /// True while the polling fallback task should keep running.
    pub polling_active: bool,
    /// Whether verbose diagnostics were requested.
    pub verbose: bool,
}

impl HyprlandMonitor {
    /// A fresh monitor: nothing seen yet, polling not started.
    pub fn new(verbose: bool) -> (r: Self)
        ensures
            r.last_window_state is None,
            !r.polling_active,
            r.verbose == verbose,
    {
        Self { last_window_state: None, polling_active: false, verbose }
    }

    /// The name this variant reports for diagnostics.
    pub fn platform_name(&self) -> (r: &str)
        ensures
            r@ == "Hyprland"@,
    {
        "Hyprland"
    }

    /// Marks the polling fallback as running.
    pub fn start_polling(&mut self)
        ensures
            final(self).polling_active,
            final(self).last_window_state == old(self).last_window_state,
            final(self).verbose == old(self).verbose,
    {
        self.polling_active = true;
    }

    /// Stops the monitor: the polling task observes the cleared flag and
    /// exits at its next wake-up.
    pub fn stop(&mut self) -> (r: Result<(), String>)
        ensures
            r is Ok,
            !final(self).polling_active,
            final(self).last_window_state == old(self).last_window_state,
            final(self).verbose == old(self).verbose,
    {
        self.polling_active = false;
        Ok(())
    }

    /// One cycle of the polling fallback.  `current` is what the active-
    /// window query returned: a state (the empty state for an empty
    /// workspace), or `None` when the query itself failed — then there is
    /// no snapshot this cycle and the last-seen state is kept.  Returns
    /// the snapshot to submit, if this observation counts as a change;
    /// the last-seen state is updated exactly when it does.
    pub fn poll_observation(&mut self, current: Option<WindowState>) -> (r: Option<WindowInfo>)
        ensures
            ({
                let changed = window_changed_spec(
                    opt_state_view(old(self).last_window_state),
                    opt_state_view(current),
                );
                &&& opt_state_view(final(self).last_window_state) == (if changed {
                    opt_state_view(current)
                } else {
                    opt_state_view(old(self).last_window_state)
                })
                &&& (match r {
                    Some(w) => changed && current is Some && w.app_class@ == current.unwrap()@.0
                        && w.title@ == current.unwrap()@.1,
                    None => !changed,
                })
            }),
            final(self).polling_active == old(self).polling_active,
            final(self).verbose == old(self).verbose,
    {
        let changed = match (&self.last_window_state, &current) {
            (_, Option::None) => false,
            (Option::None, Option::Some(_)) => true,
            (Option::Some(l), Option::Some(c)) => {
                let both_empty = l.app_class.as_str().is_empty() && l.title.as_str().is_empty()
                    && c.app_class.as_str().is_empty() && c.title.as_str().is_empty();
                if both_empty {
                    false
                } else {
                    !(l == c)
                }
            },
        };
        if changed {
            let r = match &current {
                Option::Some(ws) => Some(
                    WindowInfo::new(ws.app_class.clone(), ws.title.clone()),
                ),
                Option::None => None,
            };
            self.last_window_state = current;
            r
        } else {
            None
        }
    }

    /// One push-handler event.  Every handler re-queries the active window
    /// rather than trusting the event payload; `current` is that query's
    /// result, where `None` means an empty workspace.  The snapshot to
    /// submit is always returned (the empty snapshot for an empty
    /// workspace), and the shared last-seen state is updated to match.
    pub fn push_observation(&mut self, current: Option<WindowState>) -> (r: WindowInfo)
        ensures
            ({
                match current {
                    Some(ws) => r.app_class@ == ws@.0 && r.title@ == ws@.1,
                    None => r.app_class@ == Seq::<char>::empty() && r.title@ == Seq::<
                        char,
                    >::empty(),
                }
            }),
            opt_state_view(final(self).last_window_state) == Some(
                (r.app_class@, r.title@),
            ),
            final(self).polling_active == old(self).polling_active,
            final(self).verbose == old(self).verbose,
    {
        match current {
            Option::Some(ws) => {
                let r = WindowInfo::new(ws.app_class.clone(), ws.title.clone());
                self.last_window_state = Some(ws);
                r
            },
            Option::None => {
                let r = WindowInfo::new(String::new(), String::new());
                self.last_window_state = Some(
                    WindowState { app_class: String::new(), title: String::new() },
                );
                r
            },
        }
    }
}

/// Milliseconds after `start()` within which a listener-start failure is
/// treated as "this environment has no compositor" rather than as a
/// transient disconnect.
pub open spec fn startup_grace_ms() -> int {
    2000
}

/// Parameters of the exponential retry backoff.
#[derive(Clone, Copy, Debug)]
pub struct BackoffPolicy {
    /// The delay before the first retry.
    pub initial_delay_ms: u64,
    /// The multiplicative growth factor applied after each failure.
    pub factor: u64,
    /// The largest delay ever used.
    pub cap_ms: u64,
}

/// A sane policy: a positive factor small enough that growing a delay that
/// is at most the cap can never overflow.
pub open spec fn policy_wf(p: BackoffPolicy) -> bool {
    &&& 1 <= p.factor <= 16
    &&& 1 <= p.initial_delay_ms
    &&& p.initial_delay_ms <= p.cap_ms
    &&& p.cap_ms <= 1000000
}

/// The delay after one more failure: grown by the factor, capped.
pub open spec fn next_delay_spec(p: BackoffPolicy, delay: int) -> int {
    if delay * p.factor <= p.cap_ms {
        delay * p.factor
    } else {
        p.cap_ms as int
    }
}

/// The backoff parameters the compositor-IPC monitor uses.
pub fn hyprland_backoff() -> (p: BackoffPolicy)
    ensures
        p.initial_delay_ms == 101,
        p.factor == 3,
        p.cap_ms == 10000,
        policy_wf(p),
{
    BackoffPolicy { initial_delay_ms: 101, factor: 3, cap_ms: 10000 }
}

/// What to do about one listener-start failure.
#[derive(Debug, PartialEq, Eq, Structural)]
pub enum RetryDecision {
    /// The failure happened within the startup grace period: the
    /// compositor is absent; fail `start()` at once, retrying would only
    /// mask that.
    Abort,
    /// The failure is a transient disconnect: sleep this many
    /// milliseconds, then try to start the listener again.
    RetryAfter(u64),
}

/// The reconnect loop's state: how long the next retry will wait.
pub struct ReconnectState {
    pub policy: BackoffPolicy,
    pub delay_ms: u64,
}

impl ReconnectState {
    /// The state invariant: the policy is sane and the current delay never
    /// exceeds the cap.
    pub open spec fn wf(&self) -> bool {
        policy_wf(self.policy) && 1 <= self.delay_ms <= self.policy.cap_ms
    }

    /// A fresh reconnect state waiting the policy's initial delay.
    pub fn new(policy: BackoffPolicy) -> (r: Self)
        requires
            policy_wf(policy),
        ensures
            r.wf(),
            r.policy == policy,
            r.delay_ms == policy.initial_delay_ms,
    {
        let delay_ms = policy.initial_delay_ms;
        ReconnectState { policy, delay_ms }
    }

    /// Decides on one listener-start failure, `elapsed_ms` milliseconds
    /// after `start()` was called.  Within the startup grace period the
    /// monitor aborts; after it, the caller must sleep the returned delay
    /// and retry, and the delay for the following failure grows by the
    /// policy's factor up to its cap.
    pub fn on_start_failure(&mut self, elapsed_ms: u64) -> (r: RetryDecision)
        requires
            old(self).wf(),
        ensures
            final(self).wf(),
            final(self).policy == old(self).policy,
            elapsed_ms < startup_grace_ms() ==> r == RetryDecision::Abort && final(self).delay_ms
                == old(self).delay_ms,
            elapsed_ms >= startup_grace_ms() ==> r == RetryDecision::RetryAfter(
                old(self).delay_ms,
            ) && final(self).delay_ms == next_delay_spec(
                old(self).policy,
                old(self).delay_ms as int,
            ),
    {
        if elapsed_ms < 2000 {
            RetryDecision::Abort
        } else {
            let wait = self.delay_ms;
            proof {
                assert(1 <= self.delay_ms * self.policy.factor <= 16000000) by (nonlinear_arith)
                    requires
                        1 <= self.delay_ms <= 1000000,
                        1 <= self.policy.factor <= 16,
                ;
            }
            let grown = self.delay_ms * self.policy.factor;
            self.delay_ms = if grown <= self.policy.cap_ms {
                grown
            } else {
                self.policy.cap_ms
            };
            RetryDecision::RetryAfter(wait)
        }
    }
}

/// Law (backoff bounds): however many failures have been seen, the next
/// retry delay stays positive and never exceeds the policy's cap.
pub proof fn lemma_backoff_bounded(p: BackoffPolicy, delay: int)
    requires
        policy_wf(p),
        1 <= delay <= p.cap_ms,
    ensures
        1 <= next_delay_spec(p, delay) <= p.cap_ms,
{
    assert(1 <= delay * p.factor) by (nonlinear_arith)
        requires
            1 <= delay,
            1 <= p.factor,
    ;
}

/// Law (backoff growth): until the cap is reached, each failure multiplies
/// the delay by exactly the policy's factor.
pub proof fn lemma_backoff_growth(p: BackoffPolicy, delay: int)
    requires
        policy_wf(p),
        1 <= delay,
        delay * p.factor <= p.cap_ms,
    ensures
        next_delay_spec(p, delay) == delay * p.factor,
{
}

/// What the environment probes reported about the compositor.  The probing
/// itself (environment variables, the file system, the process list) is
/// outside work; this record carries its plain results.
pub struct HyprlandProbe {
    /// The instance signature from the session environment, if set.
    pub signature: Option<String>,
    /// The runtime directory from the session environment, if set.
    pub runtime_dir: Option<String>,
    /// Whether the socket at the signature-derived path exists.
    pub signature_socket_exists: bool,
    /// An instance whose socket was found by scanning the runtime
    /// directory, if any.
    pub discovered_signature: Option<String>,
    /// Whether a compositor process is running at all.
    pub process_running: bool,
}

/// How the compositor environment classified.
#[derive(Debug)]
pub enum HyprlandEnvironment {
    /// The session environment points at a live socket.
    BySignature,
    /// A live socket was found by scanning; its instance signature should
    /// be adopted before connecting.
    ByDiscovery(String),
    /// The compositor runs, but no socket could be found.
    SocketMissing,
    /// The compositor is not running in this environment.
    NotRunning,
}

/// Classifies the environment from the probes' results: the session
/// signature wins; otherwise a discovered socket is adopted; otherwise the
/// distinction between a running compositor with no reachable socket and
/// no compositor at all decides the error.
pub fn check_hyprland_environment(probe: &HyprlandProbe) -> (r: HyprlandEnvironment)
    ensures
        probe.signature is Some && probe.runtime_dir is Some && probe.signature_socket_exists
            ==> r is BySignature,
        !(probe.signature is Some && probe.runtime_dir is Some && probe.signature_socket_exists)
            && probe.runtime_dir is Some && probe.discovered_signature is Some ==> (match r {
            HyprlandEnvironment::ByDiscovery(s) => s@ == probe.discovered_signature.unwrap()@,
            _ => false,
        }),
        !(probe.signature is Some && probe.runtime_dir is Some && probe.signature_socket_exists)
            && !(probe.runtime_dir is Some && probe.discovered_signature is Some)
            ==> r == (if probe.process_running {
            HyprlandEnvironment::SocketMissing
        } else {
            HyprlandEnvironment::NotRunning
        }),
{
    if probe.signature.is_some() && probe.runtime_dir.is_some() && probe.signature_socket_exists {
        HyprlandEnvironment::BySignature
    } else if probe.runtime_dir.is_some() && probe.discovered_signature.is_some() {
        match &probe.discovered_signature {
            Option::Some(s) => HyprlandEnvironment::ByDiscovery(s.clone()),
            Option::None => HyprlandEnvironment::NotRunning,
        }
    } else if probe.process_running {
        HyprlandEnvironment::SocketMissing
    } else {
        HyprlandEnvironment::NotRunning
    }
}

/// Whether the classification means the monitor can start.
pub fn is_hyprland_running(probe: &HyprlandProbe) -> (r: bool)
    ensures
        r == (probe.runtime_dir is Some && ((probe.signature is Some
            && probe.signature_socket_exists) || probe.discovered_signature is Some)),
{
    let env = check_hyprland_environment(probe);
    match env {
        HyprlandEnvironment::BySignature => true,
        HyprlandEnvironment::ByDiscovery(_) => true,
        HyprlandEnvironment::SocketMissing => false,
        HyprlandEnvironment::NotRunning => false,
    }
}

/// The path of the compositor's command socket for one instance
/// signature.
pub fn hyprland_socket_path(runtime_dir: &str, signature: &str) -> (r: String)
    ensures
        r@ == runtime_dir@ + "/hypr/"@ + signature@ + "/.socket.sock"@,
{
    let mut p = runtime_dir.to_owned();
    p.append("/hypr/");
    p.append(signature);
    p.append("/.socket.sock");
    p
}

/// The path of the compositor's event socket for one instance signature.
pub fn hyprland_event_socket_path(runtime_dir: &str, signature: &str) -> (r: String)
    ensures
        r@ == runtime_dir@ + "/hypr/"@ + signature@ + "/.socket2.sock"@,
{
    let mut p = runtime_dir.to_owned();
    p.append("/hypr/");
    p.append(signature);
    p.append("/.socket2.sock");
    p
}

/// The first position at or after `from` holding neither a space nor a
/// tab, or `s.len()` when all of the rest is blank.
pub open spec fn first_non_blank(s: Seq<char>, from: int) -> int
    decreases s.len() - from,
{
    if from < 0 || from >= s.len() {
        s.len() as int
    } else if s[from] == ' ' || s[from] == '\t' {
        first_non_blank(s, from + 1)
    } else {
        from
    }
}

/// What `first_non_blank` points at: the first non-blank character.
proof fn lemma_first_non_blank(s: Seq<char>, from: int)
    requires
        0 <= from <= s.len(),
    ensures
        from <= first_non_blank(s, from) <= s.len(),
        first_non_blank(s, from) < s.len() ==> !(s[first_non_blank(s, from)] == ' '
            || s[first_non_blank(s, from)] == '\t'),
        forall|j: int|
            from <= j < first_non_blank(s, from) ==> (s[j] == ' ' || s[j] == '\t'),
    decreases s.len() - from,
{
    if from < s.len() && (s[from] == ' ' || s[from] == '\t') {
        lemma_first_non_blank(s, from + 1);
    }
}

/// The value of the first line at or after position `from` whose content,
/// after leading blanks, begins with `pat`: the characters between the
/// pattern and the line's end.
pub open spec fn line_field_from(s: Seq<char>, pat: Seq<char>, from: int) -> Option<Seq<char>>
    decreases s.len() - from,
    via line_field_from_decreases
{
    if from < 0 || from > s.len() {
        None
    } else {
        let nl = first_at_or_after(s, '\n', from);
        let w = first_non_blank(s, from);
        if occurs_at(s, pat, w) && w + pat.len() <= nl {
            Some(s.subrange(w + pat.len(), nl))
        } else if nl >= s.len() {
            None
        } else {
            line_field_from(s, pat, nl + 1)
        }
    }
}

#[via_fn]
proof fn line_field_from_decreases(s: Seq<char>, pat: Seq<char>, from: int) {
    if 0 <= from <= s.len() {
        lemma_first_at_or_after(s, '\n', from);
    }
}

/// Extracts one field of the query reply: the rest of the first line
/// that, after leading blanks, begins with `pat`.
fn line_field(s: &str, pat: &str) -> (r: Option<String>)
    ensures
        match r {
            Some(v) => line_field_from(s@, pat@, 0) == Some(v@),
            None => line_field_from(s@, pat@, 0) is None,
        },
{
    let n = s.unicode_len();
    let m = pat.unicode_len();
    let mut from: usize = 0;
    loop
        invariant
            from <= n,
            n == s@.len(),
            m == pat@.len(),
            line_field_from(s@, pat@, 0) == line_field_from(s@, pat@, from as int),
        decreases n - from,
    {
        let nl = match find_char_from(s, '\n', from) {
            Option::Some(x) => x,
            Option::None => n,
        };
        proof {
            lemma_first_at_or_after(s@, '\n', from as int);
        }
        let mut w: usize = from;
        loop
            invariant
                from <= w <= nl <= n,
                n == s@.len(),
                nl as int == first_at_or_after(s@, '\n', from as int),
                forall|j: int| from <= j < w ==> (s@[j] == ' ' || s@[j] == '\t'),
            ensures
                from <= w <= nl,
                w as int == first_non_blank(s@, from as int),
            decreases nl - w,
        {
            if w < nl {
                let c = s.get_char(w);
                if c == ' ' || c == '\t' {
                    w += 1;
                    continue;
                }
            }
            proof {
                lemma_first_non_blank(s@, from as int);
                lemma_first_at_or_after(s@, '\n', from as int);
                let fnb = first_non_blank(s@, from as int);
                assert(!(fnb < w)) by {
                    if fnb < w {
                        assert(s@[fnb] == ' ' || s@[fnb] == '\t');
                    }
                }
                assert(!(w < fnb)) by {
                    if w < fnb {
                        assert(s@[w as int] == ' ' || s@[w as int] == '\t');
                        if w == nl && nl < n {
                            assert(s@[nl as int] == '\n');
                        }
                        assert(w < nl);
                    }
                }
            }
            break;
        }
        if m <= nl - w && occurs_at_exec(s, pat, w) {
            let v = s.substring_char(w + m, nl);
            return Some(v.to_owned());
        } else if nl >= n {
            return None;
        } else {
            from = nl + 1;
        }
    }
}

/// Whether the reply holds nothing but ASCII whitespace.
pub open spec fn reply_blank(s: Seq<char>) -> bool {
    forall|i: int| 0 <= i < s.len() ==> is_ascii_space(#[trigger] s[i])
}

fn reply_is_blank(s: &str) -> (r: bool)
    ensures
        r == reply_blank(s@),
{
    let n = s.unicode_len();
    let mut i: usize = 0;
    while i < n
        invariant
            i <= n,
            n == s@.len(),
            forall|j: int| 0 <= j < i ==> is_ascii_space(#[trigger] s@[j]),
        decreases n - i,
    {
        if !is_space_exec(s.get_char(i)) {
            return false;
        }
        i += 1;
    }
    true
}

/// What the active-window query's reply means: a blank reply or one the
/// compositor rejects stands for an empty workspace; otherwise the window
/// is the `initialClass: ` field with the `title: ` field (empty when the
/// reply carries none), each read from the first line that begins with it
/// after leading blanks.
pub open spec fn parse_reply_spec(s: Seq<char>) -> Option<(Seq<char>, Seq<char>)> {
    if reply_blank(s) || occurs_at(s, "Invalid"@, 0) {
        None
    } else {
        match line_field_from(s, "initialClass: "@, 0) {
            None => None,
            Some(cls) => Some(
                (
                    cls,
                    match line_field_from(s, "title: "@, 0) {
                        Some(t) => t,
                        None => Seq::<char>::empty(),
                    },
                ),
            ),
        }
    }
}

/// Parses the compositor's reply to the active-window query into a window
/// state; the wire protocol is the moved remainder of the IPC client this
/// variant talks through.  `None` stands for an empty workspace.
pub fn parse_active_window_reply(reply: &str) -> (r: Option<WindowState>)
    ensures
        opt_state_view(r) == parse_reply_spec(reply@),
{
    if reply_is_blank(reply) || occurs_at_exec(reply, "Invalid", 0) {
        return None;
    }
    match line_field(reply, "initialClass: ") {
        Option::None => None,
        Option::Some(app_class) => {
            let title = match line_field(reply, "title: ") {
                Option::Some(t) => t,
                Option::None => String::new(),
            };
            Some(WindowState { app_class, title })
        },
    }
}

/// The name of one event-stream line: what stands before the first `>>`,
/// or the whole line when there is none.
pub open spec fn event_name_spec(line: Seq<char>) -> Seq<char> {
    let k = first_match_at_or_after(line, ">>"@, 0);
    if k <= line.len() - 2 {
        line.subrange(0, k)
    } else {
        line
    }
}

/// The events on which a handler re-queries the active window: focus,
/// workspace, window-close and layer transitions.
pub open spec fn relevant_event_spec(line: Seq<char>) -> bool {
    ||| event_name_spec(line) == "activewindow"@
    ||| event_name_spec(line) == "workspace"@
    ||| event_name_spec(line) == "closewindow"@
    ||| event_name_spec(line) == "openlayer"@
    ||| event_name_spec(line) == "closelayer"@
}

/// Decides whether one event-stream line warrants re-querying the active
/// window.
pub fn relevant_event(line: &str) -> (r: bool)
    ensures
        r == relevant_event_spec(line@),
{
    let n = line.unicode_len();
    let name = match find_from(line, ">>", 0) {
        Option::Some(k) => {
            proof {
                lemma_first_match_at_or_after(line@, ">>"@, 0);
                reveal_strlit(">>");
            }
            line.substring_char(0, k)
        },
        Option::None => {
            proof {
                reveal_strlit(">>");
                assert(line@.subrange(0, n as int) =~= line@);
            }
            line
        },
    };
    str_eq(name, "activewindow") || str_eq(name, "workspace") || str_eq(name, "closewindow")
        || str_eq(name, "openlayer") || str_eq(name, "closelayer")
}

} // verus!
