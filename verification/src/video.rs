//! Window state machine.
//!
//! A `State` is the engine's snapshot of its single top-level window:
//! client-area size, an edge-triggered resize flag, a focus flag and a
//! latched close flag. Window-system notifications are folded into the
//! snapshot one at a time by [`State::handle_notification`]; the engine
//! loop drains all pending notifications and asks [`State::update`]
//! whether the window is still open.

use vstd::prelude::*;

verus! {

/// The process-unique name under which the host registers the window
/// class for the engine's window.
pub const WND_CLASS_NAME: &'static str = "PurplWindow";

/// One window-system notification, reduced to the plain values the state
/// machine reads. The host translates each raw message it drains into one
/// of these: a size change carries the freshly queried client-area
/// dimensions, an activation change carries whether the window is being
/// activated, and every message kind the state machine does not fold is
/// `Other`.
#[derive(Clone, Copy, PartialEq, Eq, Debug)]
pub enum Notification {
    SizeChanged { width: u32, height: u32 },
    ActivationChanged { active: bool },
    CloseRequested,
    Other,
}

/// A drained notification together with the handle of the window it was
/// addressed to, as a plain integer (`0` is the null handle).
#[derive(Clone, Copy, PartialEq, Eq, Debug)]
pub struct Msg {
    pub source: usize,
    pub note: Notification,
}

/// Mathematical model of a window snapshot.
pub ghost struct StateView {
    pub window: usize,
    pub title: Seq<char>,
    pub width: u32,
    pub height: u32,
    pub resized: bool,
    pub focused: bool,
    pub closed: bool,
}

/// Snapshot of the engine's window.
pub struct State {
    window: usize,
    title: String,
    width: u32,
    height: u32,
    resized: bool,
    focused: bool,
    closed: bool,
}

impl View for State {
    type V = StateView;

    closed spec fn view(&self) -> StateView {
        StateView {
            window: self.window,
            title: self.title@,
            width: self.width,
            height: self.height,
            resized: self.resized,
            focused: self.focused,
            closed: self.closed,
        }
    }
}

/// A notification addressed to `source` concerns the tracked window
/// `window`: either it is that window, or no window is bound yet and the
/// callback may be observing messages for a window about to be bound.
pub open spec fn targets(window: usize, source: usize) -> bool {
    window == 0 || source == window
}

/// How one notification changes the snapshot: the transition function of
/// the state machine.
pub open spec fn step(s: StateView, source: usize, note: Notification) -> StateView {
    if targets(s.window, source) {
        match note {
            Notification::SizeChanged { width, height } => {
                if width != s.width || height != s.height {
                    StateView { width, height, resized: true, ..s }
                } else {
                    s
                }
            },
            Notification::ActivationChanged { active } => StateView { focused: active, ..s },
            Notification::CloseRequested => StateView { closed: true, ..s },
            Notification::Other => s,
        }
    } else {
        s
    }
}

/// Whether the state machine consumes the notification (the callback
/// reports it handled) rather than leaving it to default processing.
pub open spec fn handles(s: StateView, source: usize, note: Notification) -> bool {
    targets(s.window, source) && !(note is Other)
}

/// The snapshot after a whole batch of drained notifications has been
/// folded in, oldest first.
pub open spec fn fold_msgs(s: StateView, msgs: Seq<Msg>) -> StateView
    decreases msgs.len(),
{
    if msgs.len() == 0 {
        s
    } else {
        step(fold_msgs(s, msgs.drop_last()), msgs.last().source, msgs.last().note)
    }
}

/// The character for one decimal digit.
pub open spec fn digit_char(d: nat) -> char {
    if d == 0 {
        '0'
    } else if d == 1 {
        '1'
    } else if d == 2 {
        '2'
    } else if d == 3 {
        '3'
    } else if d == 4 {
        '4'
    } else if d == 5 {
        '5'
    } else if d == 6 {
        '6'
    } else if d == 7 {
        '7'
    } else if d == 8 {
        '8'
    } else {
        '9'
    }
}

/// The decimal rendering of a natural number: no leading zeroes, a single
/// zero for zero.
pub open spec fn dec_str(n: nat) -> Seq<char>
    decreases n,
{
    if n < 10 {
        seq![digit_char(n)]
    } else {
        dec_str(n / 10) + seq![digit_char(n % 10)]
    }
}

/// The window title shown to the user:
/// `<name> v<major>.<minor>.<patch> by <organization>`.
pub open spec fn title_spec(
    name: Seq<char>,
    major: nat,
    minor: nat,
    patch: nat,
    org: Seq<char>,
) -> Seq<char> {
    name + " v"@ + dec_str(major) + "."@ + dec_str(minor) + "."@ + dec_str(patch) + " by "@ + org
}

fn append_digit(s: &mut String, d: u32)
    requires
        d < 10,
    ensures
        final(s)@ == old(s)@ + seq![digit_char(d as nat)],
{
    match d {
        0 => {
            proof {
                reveal_strlit("0");
                assert("0"@ =~= seq![digit_char(d as nat)]);
            }
            s.append("0");
        },
        1 => {
            proof {
                reveal_strlit("1");
                assert("1"@ =~= seq![digit_char(d as nat)]);
            }
            s.append("1");
        },
        2 => {
            proof {
                reveal_strlit("2");
                assert("2"@ =~= seq![digit_char(d as nat)]);
            }
            s.append("2");
        },
        3 => {
            proof {
                reveal_strlit("3");
                assert("3"@ =~= seq![digit_char(d as nat)]);
            }
            s.append("3");
        },
        4 => {
            proof {
                reveal_strlit("4");
                assert("4"@ =~= seq![digit_char(d as nat)]);
            }
            s.append("4");
        },
        5 => {
            proof {
                reveal_strlit("5");
                assert("5"@ =~= seq![digit_char(d as nat)]);
            }
            s.append("5");
        },
        6 => {
            proof {
                reveal_strlit("6");
                assert("6"@ =~= seq![digit_char(d as nat)]);
            }
            s.append("6");
        },
        7 => {
            proof {
                reveal_strlit("7");
                assert("7"@ =~= seq![digit_char(d as nat)]);
            }
            s.append("7");
        },
        8 => {
            proof {
                reveal_strlit("8");
                assert("8"@ =~= seq![digit_char(d as nat)]);
            }
            s.append("8");
        },
        _ => {
            proof {
                reveal_strlit("9");
                assert("9"@ =~= seq![digit_char(d as nat)]);
            }
            s.append("9");
        },
    }
}

/// Appends the decimal rendering of `n` to `s`.
fn append_decimal(s: &mut String, n: u32)
    ensures
        final(s)@ == old(s)@ + dec_str(n as nat),
    decreases n,
{
    if n >= 10 {
        append_decimal(s, n / 10);
    }
    append_digit(s, n % 10);
    proof {
        assert(s@ =~= old(s)@ + dec_str(n as nat));
    }
}

/// Builds the window title from the game's identity metadata.
pub fn build_title(name: &str, major: u32, minor: u32, patch: u32, org: &str) -> (title: String)
    ensures
        title@ == title_spec(name@, major as nat, minor as nat, patch as nat, org@),
{
    let mut title = String::new();
    title.append(name);
    title.append(" v");
    append_decimal(&mut title, major);
    title.append(".");
    append_decimal(&mut title, minor);
    title.append(".");
    append_decimal(&mut title, patch);
    title.append(" by ");
    title.append(org);
    proof {
        assert(title@ =~= title_spec(name@, major as nat, minor as nat, patch as nat, org@));
    }
    title
}

/// Target client-area size for a fresh window: two thirds (that is,
/// 1/1.5) of the primary display's width and height, truncated.
pub fn initial_client_size(screen_width: u32, screen_height: u32) -> (size: (u32, u32))
    ensures
        size.0 == 2 * (screen_width as int) / 3,
        size.1 == 2 * (screen_height as int) / 3,
{
    let w = (2u64 * screen_width as u64) / 3;
    let h = (2u64 * screen_height as u64) / 3;
    (w as u32, h as u32)
}

/// A size-change notification that the snapshot `s` consumes and whose
/// dimensions differ from the stored ones.
pub open spec fn is_effective_resize(s: StateView, m: Msg) -> bool {
    targets(s.window, m.source) && (m.note matches Notification::SizeChanged { width, height }
        && (width != s.width || height != s.height))
}

/// Whether folding `msgs` into `s` ever consumes a size change whose
/// dimensions differ from the ones stored at that moment.
pub open spec fn has_effective_resize(s: StateView, msgs: Seq<Msg>) -> bool
    decreases msgs.len(),
{
    if msgs.len() == 0 {
        false
    } else {
        has_effective_resize(s, msgs.drop_last()) || is_effective_resize(
            fold_msgs(s, msgs.drop_last()),
            msgs.last(),
        )
    }
}

/// Whether the batch holds a close or destroy request addressed to
/// `window`.
pub open spec fn has_close_request(window: usize, msgs: Seq<Msg>) -> bool {
    exists|i: int|
        0 <= i < msgs.len() && targets(window, (#[trigger] msgs[i]).source) && msgs[i].note
            is CloseRequested
}

/// The tracked window handle never changes while notifications are folded
/// in.
pub proof fn lemma_window_constant(s: StateView, msgs: Seq<Msg>)
    ensures
        fold_msgs(s, msgs).window == s.window,
    decreases msgs.len(),
{
    if msgs.len() > 0 {
        lemma_window_constant(s, msgs.drop_last());
    }
}

/// Law: after a batch of notifications, the resize flag is set if and
/// only if it was set before or some consumed size change actually
/// changed the stored dimensions. In particular the flag is never raised
/// by a size change that reports the dimensions already stored.
pub proof fn lemma_resized_iff_effective_change(s: StateView, msgs: Seq<Msg>)
    ensures
        fold_msgs(s, msgs).resized <==> (s.resized || has_effective_resize(s, msgs)),
    decreases msgs.len(),
{
    if msgs.len() > 0 {
        lemma_resized_iff_effective_change(s, msgs.drop_last());
    }
}

/// Law: once the close flag is set, no batch of further notifications
/// clears it.
pub proof fn lemma_close_is_permanent(s: StateView, msgs: Seq<Msg>)
    requires
        s.closed,
    ensures
        fold_msgs(s, msgs).closed,
    decreases msgs.len(),
{
    if msgs.len() > 0 {
        lemma_close_is_permanent(s, msgs.drop_last());
    }
}

/// Law: after a batch of notifications, the window is closed if and only
/// if it was closed before or the batch holds a close request addressed
/// to it.
pub proof fn lemma_closed_iff_close_request(s: StateView, msgs: Seq<Msg>)
    ensures
        fold_msgs(s, msgs).closed <==> (s.closed || has_close_request(s.window, msgs)),
    decreases msgs.len(),
{
    if msgs.len() > 0 {
        lemma_closed_iff_close_request(s, msgs.drop_last());
        lemma_window_constant(s, msgs.drop_last());
        if has_close_request(s.window, msgs.drop_last()) {
            let i = choose|i: int|
                0 <= i < msgs.drop_last().len() && targets(
                    s.window,
                    (#[trigger] msgs.drop_last()[i]).source,
                ) && msgs.drop_last()[i].note is CloseRequested;
            assert(msgs[i] == msgs.drop_last()[i]);
            assert(has_close_request(s.window, msgs));
        }
        if has_close_request(s.window, msgs) && !fold_msgs(s, msgs).closed {
            let i = choose|i: int|
                0 <= i < msgs.len() && targets(s.window, (#[trigger] msgs[i]).source) && msgs[i].note
                    is CloseRequested;
            if i < msgs.len() - 1 {
                assert(msgs.drop_last()[i] == msgs[i]);
                assert(has_close_request(s.window, msgs.drop_last()));
            }
            assert(false);
        }
    }
}

/// Law: a consumed size change with new dimensions stores exactly those
/// dimensions and sets the resize flag; one reporting the dimensions
/// already stored changes nothing at all.
pub proof fn lemma_size_change_exact(s: StateView, source: usize, width: u32, height: u32)
    requires
        targets(s.window, source),
    ensures
        (width != s.width || height != s.height) ==> ({
            let s2 = step(s, source, Notification::SizeChanged { width, height });
            s2.width == width && s2.height == height && s2.resized
        }),
        (width == s.width && height == s.height) ==> step(
            s,
            source,
            Notification::SizeChanged { width, height },
        ) == s,
{
}

/// Law: a consumed activation notification sets the focus flag to exactly
/// its payload, an unconsumed one changes nothing, and repeating the same
/// activation notification is idempotent.
pub proof fn lemma_activation_exact_and_idempotent(s: StateView, source: usize, active: bool)
    ensures
        targets(s.window, source) ==> step(
            s,
            source,
            Notification::ActivationChanged { active },
        ).focused == active,
        !targets(s.window, source) ==> step(s, source, Notification::ActivationChanged { active })
            == s,
        step(
            step(s, source, Notification::ActivationChanged { active }),
            source,
            Notification::ActivationChanged { active },
        ) == step(s, source, Notification::ActivationChanged { active }),
{
}

impl State {
    /// Builds the snapshot for a freshly created window: the host passes
    /// the new window's handle, its title and the client-area size it
    /// queried after creation. A fresh window reports no resize, has
    /// focus, and is open.
    pub fn init(window: usize, title: String, width: u32, height: u32) -> (s: Self)
        ensures
            s@ == (StateView {
                window,
                title: title@,
                width,
                height,
                resized: false,
                focused: true,
                closed: false,
            }),
    {
        State { window, title, width, height, resized: false, focused: true, closed: false }
    }

    /// Folds one notification into the snapshot, exactly as [`step`]
    /// describes, and reports whether it was consumed. The host's window
    /// callback calls this for every message dispatched to the window and
    /// returns the handled disposition when this returns true.
    pub fn handle_notification(&mut self, source: usize, note: Notification) -> (handled: bool)
        ensures
            final(self)@ == step(old(self)@, source, note),
            handled == handles(old(self)@, source, note),
    {
        if self.window == 0 || source == self.window {
            match note {
                Notification::SizeChanged { width, height } => {
                    if width != self.width || height != self.height {
                        self.resized = true;
                        self.width = width;
                        self.height = height;
                    }
                    true
                },
                Notification::ActivationChanged { active } => {
                    self.focused = active;
                    true
                },
                Notification::CloseRequested => {
                    self.closed = true;
                    true
                },
                Notification::Other => false,
            }
        } else {
            false
        }
    }

    /// Engine-tick entry point: folds a drained batch of notifications
    /// into the snapshot, oldest first, then reports whether the window
    /// is still open. The host drains its message queue without blocking,
    /// so the batch may be empty, in which case nothing changes. Once a
    /// close request has been folded in, this returns false on that call
    /// and on every later one.
    pub fn update(&mut self, pending: &Vec<Msg>) -> (running: bool)
        ensures
            final(self)@ == fold_msgs(old(self)@, pending@),
            running == !final(self)@.closed,
            pending@.len() == 0 ==> *final(self) == *old(self),
    {
        let ghost start = self@;
        let mut i: usize = 0;
        while i < pending.len()
            invariant
                i <= pending@.len(),
                self@ == fold_msgs(start, pending@.take(i as int)),
                i == 0 ==> *self == *old(self),
            decreases pending@.len() - i,
        {
            let m = pending[i];
            self.handle_notification(m.source, m.note);
            proof {
                assert(pending@.take(i + 1 as int).drop_last() =~= pending@.take(i as int));
                assert(pending@.take(i + 1 as int).last() == pending@[i as int]);
            }
            i = i + 1;
        }
        proof {
            assert(pending@.take(pending@.len() as int) =~= pending@);
        }
        !self.closed
    }

    /// The stored client-area size, as (width, height). Plain read.
    pub fn get_size(&self) -> (size: (u32, u32))
        ensures
            size.0 == self@.width,
            size.1 == self@.height,
    {
        (self.width, self.height)
    }

    /// Read-and-reset accessor for the resize flag: returns whether a
    /// size change has been folded in since the last call, and clears the
    /// flag, so an immediate second call returns false.
    pub fn resized(&mut self) -> (r: bool)
        ensures
            r == old(self)@.resized,
            final(self)@ == (StateView { resized: false, ..old(self)@ }),
    {
        let ret = self.resized;
        self.resized = false;
        ret
    }

    /// Shutdown decision: reports which window handle the host must
    /// destroy. Destroying it is an operating-system call performed by
    /// the host, once, after the engine loop has exited; a failure there
    /// is logged by the host and swallowed.
    pub fn shutdown(&self) -> (handle: usize)
        ensures
            handle == self@.window,
    {
        self.window
    }

    /// Whether the window is focused. Plain read: unlike the resize flag,
    /// this one is not cleared by its accessor.
    pub fn focused(&self) -> (f: bool)
        ensures
            f == self@.focused,
    {
        self.focused
    }
}

} // verus!
