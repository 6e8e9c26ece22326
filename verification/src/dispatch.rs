//! The dispatcher and the shutdown coordinator.
//!
//! The dispatcher is the single consumer of the message queue that the
//! acceptor and every handler feed. On a `Connected` message it hands the
//! connection to a fresh handler; on a `Quit` message it stops, and before
//! anything else fires the shutdown coordinator so the acceptor stops
//! accepting. The coordinator is an idempotent one-shot: only the first
//! request to fire it counts, so any number of concurrent `quit` requests
//! end the server exactly once.

use vstd::prelude::*;

verus! {

/// A message to the dispatcher: a freshly accepted connection, or the
/// request to stop. `C` is the connection type, owned by the message and
/// passed on whole; the dispatcher never looks inside it.
pub enum DispatchMessage<C> {
    Connected(C),
    Quit,
}

/// What the caller of the dispatcher must do next: hand the connection to
/// a fresh handler, or stop reading the queue.
pub enum DispatchAction<C> {
    Spawn(C),
    Stop,
}

/// A processed message, with the connection abstracted away: the shape of
/// the dispatcher's history.
pub enum MessageKind {
    Connected,
    Quit,
}

/// The kind of a message, with its connection forgotten.
pub open spec fn kind_of<C>(m: DispatchMessage<C>) -> MessageKind {
    match m {
        DispatchMessage::Connected(_) => MessageKind::Connected,
        DispatchMessage::Quit => MessageKind::Quit,
    }
}

/// How many of the processed messages were `Quit`.
pub open spec fn quit_count(log: Seq<MessageKind>) -> nat
    decreases log.len(),
{
    if log.len() == 0 {
        0
    } else {
        quit_count(log.drop_last()) + if log.last() is Quit {
            1nat
        } else {
            0nat
        }
    }
}

/// The one-shot that stops the acceptor. Firing it is idempotent: the
/// first request reports that it was first and every later one reports
/// that it was not, so duplicate `quit` requests cannot end the server
/// twice, and a request after the first changes nothing.
pub struct ShutdownCoordinator {
    fired: bool,
}

/// The coordinator after one shutdown request, with whether that request
/// was the first: the request fires it, and it stays fired.
pub closed spec fn after_request(c: ShutdownCoordinator) -> (ShutdownCoordinator, bool) {
    (ShutdownCoordinator { fired: true }, !c.fired)
}

impl ShutdownCoordinator {
    /// Whether a shutdown request has fired this coordinator.
    pub closed spec fn has_fired(&self) -> bool {
        self.fired
    }

    /// A coordinator that nothing has fired yet.
    pub fn new() -> (c: Self)
        ensures
            !c.has_fired(),
    {
        ShutdownCoordinator { fired: false }
    }

    /// Request shutdown. Reports whether this request was the first;
    /// either way the coordinator is fired afterwards.
    pub fn request(&mut self) -> (first: bool)
        ensures
            (*final(self), first) == after_request(*old(self)),
            final(self).has_fired(),
            first == !old(self).has_fired(),
    {
        let first = !self.fired;
        self.fired = true;
        first
    }
}

/// Law: requesting shutdown twice is requesting it once — the second
/// request leaves the coordinator as the first left it, and is never
/// itself reported as first; of any two requests in a row, at most the
/// first is.
pub proof fn lemma_shutdown_request_idempotent(c: ShutdownCoordinator)
    ensures
        after_request(after_request(c).0).0 == after_request(c).0,
        !after_request(after_request(c).0).1,
        !(after_request(c).1 && after_request(after_request(c).0).1),
{
}

/// The dispatcher's state: whether it is still reading the queue, the
/// coordinator it fires when it stops, and the history of what it has
/// processed.
pub struct Dispatcher {
    running: bool,
    shutdown: ShutdownCoordinator,
    handled: Ghost<Seq<MessageKind>>,
}

impl Dispatcher {
    /// Whether the dispatcher is still reading the queue.
    pub closed spec fn is_running(&self) -> bool {
        self.running
    }

    /// Whether the dispatcher has fired its shutdown coordinator.
    pub closed spec fn shutdown_requested(&self) -> bool {
        self.shutdown.has_fired()
    }

    /// The kinds of the messages processed so far, in order.
    pub closed spec fn handled_log(&self) -> Seq<MessageKind> {
        self.handled@
    }

    /// The dispatcher's invariant: it runs until it has processed a `Quit`
    /// and not a moment longer, it fires the coordinator the moment it
    /// stops, and it never processes a second `Quit`.
    pub closed spec fn wf(&self) -> bool {
        &&& (self.running <==> !self.shutdown.has_fired())
        &&& quit_count(self.handled@) == if self.running {
            0nat
        } else {
            1nat
        }
    }

    /// A dispatcher that has processed nothing.
    pub fn new() -> (d: Self)
        ensures
            d.wf(),
            d.is_running(),
            d.handled_log() == Seq::<MessageKind>::empty(),
    {
        Dispatcher {
            running: true,
            shutdown: ShutdownCoordinator::new(),
            handled: Ghost(Seq::empty()),
        }
    }

    /// Process one message. A connection goes to a fresh handler, whole
    /// and untouched; `Quit` stops the dispatcher for good and fires the
    /// shutdown coordinator before anything else can happen.
    pub fn step<C>(&mut self, m: DispatchMessage<C>) -> (a: DispatchAction<C>)
        requires
            old(self).wf(),
            old(self).is_running(),
        ensures
            final(self).wf(),
            final(self).handled_log() == old(self).handled_log().push(kind_of(m)),
            match m {
                DispatchMessage::Connected(c) => a == DispatchAction::Spawn(c)
                    && final(self).is_running() && !final(self).shutdown_requested(),
                DispatchMessage::Quit => (a is Stop) && !final(self).is_running()
                    && final(self).shutdown_requested(),
            },
    {
        proof {
            lemma_quit_count_push(self.handled@, kind_of(m));
        }
        match m {
            DispatchMessage::Connected(c) => {
                self.handled = Ghost(self.handled@.push(MessageKind::Connected));
                DispatchAction::Spawn(c)
            },
            DispatchMessage::Quit => {
                self.running = false;
                self.shutdown.request();
                self.handled = Ghost(self.handled@.push(MessageKind::Quit));
                DispatchAction::Stop
            },
        }
    }
}

/// Appending one message adds its own quit count and nothing more.
proof fn lemma_quit_count_push(log: Seq<MessageKind>, k: MessageKind)
    ensures
        quit_count(log.push(k)) == quit_count(log) + if k is Quit {
            1nat
        } else {
            0nat
        },
{
    assert(log.push(k).drop_last() =~= log);
    assert(log.push(k).last() == k);
}

/// Law: a dispatcher never processes more than one `Quit` — later `quit`
/// requests sit unread behind the one that stopped it.
pub proof fn lemma_quit_handled_at_most_once(d: &Dispatcher)
    requires
        d.wf(),
    ensures
        quit_count(d.handled_log()) <= 1,
{
}

/// Law: a dispatcher that stopped has requested shutdown, and one still
/// running has not — the acceptor is told to stop exactly when the
/// dispatcher's loop ends.
pub proof fn lemma_stop_fires_shutdown(d: &Dispatcher)
    requires
        d.wf(),
    ensures
        d.is_running() <==> !d.shutdown_requested(),
{
}

} // verus!
