//! Window controller: message routing and coordinated shutdown.
//!
//! The message callback of the platform window receives messages before the
//! owning controller has been associated with the window handle; until the
//! structural creation message performs that association, every message must
//! fall through to default platform handling. Once running, the main loop
//! and the message callback share a one-shot quit latch: whichever shutdown
//! trigger fires first (window destroyed, or render thread finished) posts
//! exactly one quit request, and the loop terminates on observing it.

use vstd::prelude::*;

verus! {

/// A platform message, as seen by the window's message callback.
#[derive(Clone, Copy, Debug, PartialEq, Eq, Structural)]
pub enum WindowMessage {
    /// The structural creation message, delivered first and carrying the
    /// creation-time pointer that associates handle and controller.
    NcCreate,
    /// The window is being destroyed.
    Destroy,
    /// Any other message, by its raw platform code.
    Other(u32),
}

/// What the message callback must do with one message.
#[derive(Clone, Copy, Debug, PartialEq, Eq, Structural)]
pub enum MessageAction {
    /// Store the handle-to-controller association, then fall through to
    /// default platform handling.
    Associate,
    /// Post a quit request and report the message as handled.
    QuitAndHandled,
    /// Route the message to default platform handling.
    DefaultHandling,
}

/// What routing a message does, given whether the controller is associated.
pub open spec fn spec_route(associated: bool, msg: WindowMessage) -> MessageAction {
    match msg {
        WindowMessage::NcCreate => MessageAction::Associate,
        WindowMessage::Destroy => if associated {
            MessageAction::QuitAndHandled
        } else {
            MessageAction::DefaultHandling
        },
        WindowMessage::Other(_) => MessageAction::DefaultHandling,
    }
}

/// The association state of the window's message callback: whether the
/// handle-to-controller back-reference has been stored yet.
pub struct MessageRouter {
    associated: bool,
}

impl MessageRouter {
    /// Whether the structural creation message has been seen.
    pub closed spec fn is_associated(&self) -> bool {
        self.associated
    }

    /// A fresh router: no association exists yet.
    pub fn new() -> (r: MessageRouter)
        ensures
            !r.is_associated(),
    {
        MessageRouter { associated: false }
    }

    /// Route one message. The structural creation message establishes the
    /// association; a destroy message reaches the controller only once the
    /// association exists; everything else takes default handling.
    pub fn route(&mut self, msg: WindowMessage) -> (a: MessageAction)
        ensures
            a == spec_route(old(self).is_associated(), msg),
            final(self).is_associated() == (old(self).is_associated() || msg is NcCreate),
    {
        match msg {
            WindowMessage::NcCreate => {
                self.associated = true;
                MessageAction::Associate
            },
            WindowMessage::Destroy => if self.associated {
                MessageAction::QuitAndHandled
            } else {
                MessageAction::DefaultHandling
            },
            WindowMessage::Other(_) => MessageAction::DefaultHandling,
        }
    }
}

/// Whether a sequence of messages contains the structural creation message.
pub open spec fn contains_creation(msgs: Seq<WindowMessage>) -> bool {
    exists|j: int| 0 <= j < msgs.len() && msgs[j] is NcCreate
}

/// The action a fresh router takes on the `i`-th message of `msgs`, after
/// routing the messages before it in order.
pub open spec fn action_at(msgs: Seq<WindowMessage>, i: int) -> MessageAction {
    spec_route(contains_creation(msgs.take(i)), msgs[i])
}

/// Messages delivered before the structural creation message never reach the
/// controller: as long as no creation message has arrived, every message is
/// routed to default platform handling.
pub proof fn lemma_unassociated_routes_to_default(msgs: Seq<WindowMessage>, i: int)
    requires
        0 <= i < msgs.len(),
        forall|j: int| 0 <= j <= i ==> !(#[trigger] msgs[j] is NcCreate),
    ensures
        action_at(msgs, i) is DefaultHandling,
{
    assert(forall|j: int| 0 <= j < i ==> !(#[trigger] msgs.take(i)[j] is NcCreate));
}

/// The one-shot quit latch: the transition into the quit-requested phase is
/// taken at most once, from whichever shutdown path reaches it first.
pub struct QuitLatch {
    requested: bool,
}

/// Quit messages produced by `n` latch requests starting from a latch whose
/// requested flag is `requested`.
pub open spec fn quit_posts(requested: bool, n: nat) -> nat
    decreases n,
{
    if n == 0 {
        0
    } else {
        (if requested { 0nat } else { 1nat }) + quit_posts(true, (n - 1) as nat)
    }
}

/// Idempotence of the quit request: however many times either shutdown path
/// asks for a quit, at most one quit message is ever posted, and none at all
/// once the latch is already set.
pub proof fn lemma_quit_request_idempotent(requested: bool, n: nat)
    ensures
        quit_posts(requested, n) <= 1,
        requested ==> quit_posts(requested, n) == 0,
    decreases n,
{
    if n > 0 {
        lemma_quit_request_idempotent(true, (n - 1) as nat);
    }
}

impl QuitLatch {
    /// Whether a quit has already been requested.
    pub closed spec fn is_requested(&self) -> bool {
        self.requested
    }

    /// A fresh latch: no quit requested yet.
    pub fn new() -> (l: QuitLatch)
        ensures
            !l.is_requested(),
    {
        QuitLatch { requested: false }
    }

    /// Request a quit. Returns whether a quit message must actually be
    /// posted: true exactly on the first request, so repeated requests from
    /// either shutdown path post at most one quit message in total.
    pub fn request(&mut self) -> (posted: bool)
        ensures
            posted == !old(self).is_requested(),
            final(self).is_requested(),
            quit_posts(old(self).is_requested(), 1) == if posted { 1nat } else { 0nat },
    {
        let posted = !self.requested;
        self.requested = true;
        proof {
            assert(quit_posts(true, 0) == 0);
        }
        posted
    }
}

/// A message drained from the platform queue, as the main loop sees it.
#[derive(Clone, Copy, Debug, PartialEq, Eq, Structural)]
pub enum PumpEvent {
    /// The quit message posted through the quit latch.
    Quit,
    /// Any other message, to be dispatched to the window's callback.
    Other,
}

/// What the main loop must do after one poll.
#[derive(Clone, Copy, Debug, PartialEq, Eq, Structural)]
pub enum MainAction {
    /// Dispatch the drained message to the window's message callback.
    Dispatch,
    /// Post a quit message: the render thread was seen finished first.
    PostQuit,
    /// Leave the loop, join the render thread, and finish with the render
    /// thread's terminal result.
    ExitJoin,
    /// Leave the loop at once with success, without waiting for the render
    /// thread.
    ExitSuccess,
    /// Nothing to do this iteration.
    Idle,
}

/// Shutdown phase of the main loop.
#[derive(Clone, Copy, Debug, PartialEq, Eq, Structural)]
pub enum Phase {
    /// Pumping messages; no shutdown trigger seen yet.
    Running,
    /// A quit has been requested; waiting for the quit message to arrive.
    QuitRequested,
    /// The loop has exited.
    Terminated,
}

/// The main thread's message loop, as a state machine over drained messages
/// and the observed liveness of the render thread.
pub struct MainLoop {
    latch: QuitLatch,
    phase: Phase,
}

impl MainLoop {
    /// Current shutdown phase.
    pub closed spec fn phase(&self) -> Phase {
        self.phase
    }

    /// Whether a quit has been requested through the latch.
    pub closed spec fn quit_requested(&self) -> bool {
        self.latch.is_requested()
    }

    /// The loop's invariant: while still running, no quit was requested.
    pub open spec fn wf(&self) -> bool {
        self.phase() is Running ==> !self.quit_requested()
    }

    /// A fresh loop: running, no quit requested.
    pub fn new() -> (m: MainLoop)
        ensures
            m.wf(),
            m.phase() is Running,
            !m.quit_requested(),
    {
        MainLoop { latch: QuitLatch::new(), phase: Phase::Running }
    }

    /// The current shutdown phase, for the surrounding loop to observe.
    pub fn current_phase(&self) -> (p: Phase)
        ensures
            p == self.phase(),
    {
        self.phase
    }

    /// Request a quit from the window-destruction path (the message callback
    /// handling a destroy message). Posts at most one quit message: only the
    /// first request over the shared latch posts.
    pub fn request_quit(&mut self) -> (posted: bool)
        requires
            old(self).wf(),
            !(old(self).phase() is Terminated),
        ensures
            final(self).wf(),
            posted == !old(self).quit_requested(),
            final(self).quit_requested(),
            final(self).phase() == if old(self).phase() is Running {
                Phase::QuitRequested
            } else {
                old(self).phase()
            },
    {
        let posted = self.latch.request();
        if matches!(self.phase, Phase::Running) {
            self.phase = Phase::QuitRequested;
        }
        posted
    }

    /// One iteration of the main loop: `drained` is the message taken from
    /// the queue, if any, and `render_finished` is whether the render thread
    /// was observed to have completed. A quit message terminates the loop —
    /// joining the render thread for its result if it already finished,
    /// otherwise returning success immediately. With the queue empty, a
    /// finished render thread posts a quit request exactly once.
    pub fn step(&mut self, drained: Option<PumpEvent>, render_finished: bool) -> (a: MainAction)
        requires
            old(self).wf(),
            !(old(self).phase() is Terminated),
        ensures
            final(self).wf(),
            a is ExitJoin <==> drained == Some(PumpEvent::Quit) && render_finished,
            a is ExitSuccess <==> drained == Some(PumpEvent::Quit) && !render_finished,
            a is Dispatch <==> drained == Some(PumpEvent::Other),
            a is PostQuit <==> drained is None && render_finished && !old(self).quit_requested(),
            a is Idle <==> drained is None && !(render_finished && !old(self).quit_requested()),
            final(self).phase() == (match drained {
                Some(PumpEvent::Quit) => Phase::Terminated,
                Some(PumpEvent::Other) => old(self).phase(),
                None => if render_finished && old(self).phase() is Running {
                    Phase::QuitRequested
                } else {
                    old(self).phase()
                },
            }),
            final(self).quit_requested() == (old(self).quit_requested() || (drained is None
                && render_finished)),
    {
        match drained {
            Some(PumpEvent::Quit) => {
                self.phase = Phase::Terminated;
                if render_finished {
                    MainAction::ExitJoin
                } else {
                    MainAction::ExitSuccess
                }
            },
            Some(PumpEvent::Other) => MainAction::Dispatch,
            None => {
                if render_finished {
                    let posted = self.latch.request();
                    if matches!(self.phase, Phase::Running) {
                        self.phase = Phase::QuitRequested;
                    }
                    if posted {
                        MainAction::PostQuit
                    } else {
                        MainAction::Idle
                    }
                } else {
                    MainAction::Idle
                }
            },
        }
    }
}

} // verus!
