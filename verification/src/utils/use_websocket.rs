use vstd::prelude::*;

verus! {

/// `readyState` of a socket that is still connecting.
pub const READY_STATE_CONNECTING: u16 = 0;
/// `readyState` of an open socket.
pub const READY_STATE_OPEN: u16 = 1;
/// `readyState` of a socket that is closing.
pub const READY_STATE_CLOSING: u16 = 2;
/// `readyState` of a closed socket.
pub const READY_STATE_CLOSED: u16 = 3;

/// WebSocket connection status.
#[derive(Clone, Debug, PartialEq, Eq)]
pub enum WebSocketStatus {
    /// Connection is being established
    Connecting,
    /// Connection is open and ready to communicate
    Open,
    /// Connection is closing
    Closing,
    /// Connection is closed or couldn't be opened
    Closed,
    /// Error occurred
    Error(String),
}

/// The status with its error message as a character sequence.
pub enum WebSocketStatusView {
    Connecting,
    Open,
    Closing,
    Closed,
    Error(Seq<char>),
}

impl View for WebSocketStatus {
    type V = WebSocketStatusView;

    open spec fn view(&self) -> WebSocketStatusView {
        match self {
            WebSocketStatus::Connecting => WebSocketStatusView::Connecting,
            WebSocketStatus::Open => WebSocketStatusView::Open,
            WebSocketStatus::Closing => WebSocketStatusView::Closing,
            WebSocketStatus::Closed => WebSocketStatusView::Closed,
            WebSocketStatus::Error(msg) => WebSocketStatusView::Error(msg@),
        }
    }
}

impl Default for WebSocketStatus {
    fn default() -> (s: Self)
        ensures
            s@ == WebSocketStatusView::Closed,
    {
        WebSocketStatus::Closed
    }
}

/// Options for configuring the WebSocket connection.
#[derive(Clone, Debug, PartialEq)]
pub struct UseWebSocketOptions {
    /// Whether to reconnect after the connection closes
    pub auto_reconnect: bool,
    /// Maximum number of reconnection attempts (`None`: no limit)
    pub max_reconnect_attempts: Option<usize>,
    /// Delay in milliseconds before a reconnection attempt
    pub reconnect_delay: u32,
    /// Whether to connect as soon as the hook is mounted
    pub immediate: bool,
    /// Sub-protocols to request
    pub protocols: Option<Vec<String>>,
}

impl Default for UseWebSocketOptions {
    fn default() -> (o: Self)
        ensures
            o.auto_reconnect,
            o.max_reconnect_attempts == Some(3usize),
            o.reconnect_delay == 1000,
            o.immediate,
            o.protocols is None,
    {
        UseWebSocketOptions {
            auto_reconnect: true,
            max_reconnect_attempts: Some(3),
            reconnect_delay: 1000,
            immediate: true,
            protocols: None,
        }
    }
}

/// The strings of `list` joined with `sep` between consecutive ones.
pub open spec fn seq_join(list: Seq<Seq<char>>, sep: Seq<char>) -> Seq<char>
    decreases list.len(),
{
    if list.len() == 0 {
        Seq::empty()
    } else if list.len() == 1 {
        list[0]
    } else {
        seq_join(list.drop_last(), sep) + sep + list.last()
    }
}

/// The sub-protocol list as the socket constructor takes it: the protocols
/// joined by commas.
pub fn join_protocols(protocols: &Vec<String>) -> (joined: String)
    ensures
        joined@ == seq_join(protocols@.map_values(|p: String| p@), ","@),
{
    let ghost views = protocols@.map_values(|p: String| p@);
    let mut joined = String::new();
    let n = protocols.len();
    for i in 0..n
        invariant
            n == protocols@.len(),
            views == protocols@.map_values(|p: String| p@),
            joined@ == seq_join(views.take(i as int), ","@),
    {
        proof {
            reveal_strlit(",");
        }
        if i != 0 {
            joined.append(",");
        }
        joined.append(protocols[i].as_str());
        assert(views.take(i + 1).drop_last() =~= views.take(i as int));
    }
    assert(views.take(n as int) =~= views);
    joined
}

/// The message of the status after an error event on the socket.
pub open spec fn socket_error_message() -> Seq<char> {
    "WebSocket error occurred"@
}

/// The message of the status after a failed reconnection.
pub open spec fn reconnection_failed_message() -> Seq<char> {
    "Reconnection failed"@
}

/// The message of the status after a failed send.
pub open spec fn send_failed_message() -> Seq<char> {
    "Failed to send message"@
}

/// The message of the status when the socket cannot be created.
pub open spec fn creation_failed_message(detail: Seq<char>) -> Seq<char> {
    "Failed to create WebSocket: "@ + detail
}

/// What the connection state machine knows of a connection.
pub struct WebSocketModel {
    pub status: WebSocketStatusView,
    pub reconnect_attempts: nat,
    pub reconnect_timer: Option<i32>,
    pub auto_reconnect: bool,
    pub max_reconnect_attempts: Option<usize>,
    pub reconnect_delay: u32,
}

/// The limit on reconnection attempts (no limit counts as `usize::MAX`).
pub open spec fn attempt_limit(m: WebSocketModel) -> nat {
    match m.max_reconnect_attempts {
        Some(max) => max as nat,
        None => usize::MAX as nat,
    }
}

/// Whether a close event on `m` schedules a reconnection.
pub open spec fn close_reconnects(m: WebSocketModel) -> bool {
    m.auto_reconnect && m.reconnect_attempts < attempt_limit(m)
}

/// The model after a close event.
pub open spec fn after_close(m: WebSocketModel) -> WebSocketModel {
    WebSocketModel {
        status: WebSocketStatusView::Closed,
        reconnect_attempts: if close_reconnects(m) { m.reconnect_attempts + 1 } else { m.reconnect_attempts },
        ..m
    }
}

/// The model after the socket reports that it is open.
pub open spec fn after_open(m: WebSocketModel) -> WebSocketModel {
    WebSocketModel { status: WebSocketStatusView::Open, reconnect_attempts: 0, ..m }
}

/// The model after `k` close events in a row.
pub open spec fn after_closes(m: WebSocketModel, k: nat) -> WebSocketModel
    decreases k,
{
    if k == 0 {
        m
    } else {
        after_close(after_closes(m, (k - 1) as nat))
    }
}

/// Whether the attempt counter is within its limit.
pub open spec fn attempts_within_limit(m: WebSocketModel) -> bool {
    m.reconnect_attempts <= attempt_limit(m)
}

/// The events that change what the state machine knows of a connection.
pub enum WebSocketEvent {
    /// A connection attempt starts
    Connect,
    /// The socket could not be created, for the reason given
    CreateFailed(Seq<char>),
    /// The socket opened
    Opened,
    /// The socket reported an error
    Errored,
    /// The socket closed
    Closed,
    /// A reconnection timer was scheduled under this handle
    ReconnectScheduled(i32),
    /// A reconnection attempt could not create a socket
    ReconnectFailed,
    /// A disconnect was requested while the socket was in this `readyState`
    Disconnect(Option<u16>),
    /// Sending a message failed
    SendFailed,
}

/// Whether a disconnect closes a socket in `ready_state`.
pub open spec fn disconnect_closes(ready_state: Option<u16>) -> bool {
    ready_state == Some(READY_STATE_OPEN) || ready_state == Some(READY_STATE_CONNECTING)
}

/// The model after event `e`.
pub open spec fn apply_event(m: WebSocketModel, e: WebSocketEvent) -> WebSocketModel {
    match e {
        WebSocketEvent::Connect => WebSocketModel { status: WebSocketStatusView::Connecting, ..m },
        WebSocketEvent::CreateFailed(detail) => WebSocketModel {
            status: WebSocketStatusView::Error(creation_failed_message(detail)),
            ..m
        },
        WebSocketEvent::Opened => after_open(m),
        WebSocketEvent::Errored => WebSocketModel { status: WebSocketStatusView::Error(socket_error_message()), ..m },
        WebSocketEvent::Closed => after_close(m),
        WebSocketEvent::ReconnectScheduled(handle) => WebSocketModel { reconnect_timer: Some(handle), ..m },
        WebSocketEvent::ReconnectFailed => WebSocketModel {
            status: WebSocketStatusView::Error(reconnection_failed_message()),
            ..m
        },
        WebSocketEvent::Disconnect(ready_state) => WebSocketModel {
            status: if disconnect_closes(ready_state) { WebSocketStatusView::Closing } else { m.status },
            reconnect_timer: None,
            ..m
        },
        WebSocketEvent::SendFailed => WebSocketModel { status: WebSocketStatusView::Error(send_failed_message()), ..m },
    }
}

/// The model after the events of `events`, in order.
pub open spec fn apply_events(m: WebSocketModel, events: Seq<WebSocketEvent>) -> WebSocketModel
    decreases events.len(),
{
    if events.len() == 0 {
        m
    } else {
        apply_event(apply_events(m, events.drop_last()), events.last())
    }
}

/// The number of reconnections that the events of `events` schedule.
pub open spec fn reconnections(m: WebSocketModel, events: Seq<WebSocketEvent>) -> nat
    decreases events.len(),
{
    if events.len() == 0 {
        0
    } else {
        let before = apply_events(m, events.drop_last());
        reconnections(m, events.drop_last()) + if events.last() is Closed && close_reconnects(before) { 1nat } else { 0nat }
    }
}

/// What to do with the existing socket and its reconnection timer when
/// disconnecting or tearing down.
pub struct DisconnectPlan {
    /// The pending reconnection timer to clear, if any
    pub clear_timer: Option<i32>,
    /// Whether to close the socket
    pub close_socket: bool,
}

/// The decisions of a WebSocket connection: its status, the reconnection
/// attempts made since it last opened, and the pending reconnection timer.
pub struct WebSocketMachine {
    pub status: WebSocketStatus,
    pub reconnect_attempts: usize,
    pub reconnect_timer: Option<i32>,
    pub auto_reconnect: bool,
    pub max_reconnect_attempts: Option<usize>,
    pub reconnect_delay: u32,
}

impl View for WebSocketMachine {
    type V = WebSocketModel;

    open spec fn view(&self) -> WebSocketModel {
        WebSocketModel {
            status: self.status@,
            reconnect_attempts: self.reconnect_attempts as nat,
            reconnect_timer: self.reconnect_timer,
            auto_reconnect: self.auto_reconnect,
            max_reconnect_attempts: self.max_reconnect_attempts,
            reconnect_delay: self.reconnect_delay,
        }
    }
}

impl WebSocketMachine {
    /// A closed connection with no attempts made, configured by `options`.
    pub fn new(options: &UseWebSocketOptions) -> (m: Self)
        ensures
            m@.status == WebSocketStatusView::Closed,
            m@.reconnect_attempts == 0,
            m@.reconnect_timer is None,
            m@.auto_reconnect == options.auto_reconnect,
            m@.max_reconnect_attempts == options.max_reconnect_attempts,
            m@.reconnect_delay == options.reconnect_delay,
    {
        WebSocketMachine {
            status: WebSocketStatus::Closed,
            reconnect_attempts: 0,
            reconnect_timer: None,
            auto_reconnect: options.auto_reconnect,
            max_reconnect_attempts: options.max_reconnect_attempts,
            reconnect_delay: options.reconnect_delay,
        }
    }

    /// Takes on the reconnection settings of `options`, keeping the status,
    /// the attempts made and the pending timer.
    pub fn configure(&mut self, options: &UseWebSocketOptions)
        ensures
            final(self)@ == (WebSocketModel {
                auto_reconnect: options.auto_reconnect,
                max_reconnect_attempts: options.max_reconnect_attempts,
                reconnect_delay: options.reconnect_delay,
                ..old(self)@
            }),
    {
        self.auto_reconnect = options.auto_reconnect;
        self.max_reconnect_attempts = options.max_reconnect_attempts;
        self.reconnect_delay = options.reconnect_delay;
    }

    /// Starts connecting. Returns whether the existing socket, whose
    /// `readyState` is `existing` (`None`: there is none), must be closed first.
    pub fn begin_connect(&mut self, existing: Option<u16>) -> (close_existing: bool)
        ensures
            close_existing == (existing is Some && existing->0 != READY_STATE_CLOSED),
            final(self)@ == apply_event(old(self)@, WebSocketEvent::Connect),
    {
        self.status = WebSocketStatus::Connecting;
        match existing {
            Some(state) => state != READY_STATE_CLOSED,
            None => false,
        }
    }

    /// The socket could not be created; `detail` describes the failure.
    pub fn connection_failed(&mut self, detail: &str)
        ensures
            final(self)@ == apply_event(old(self)@, WebSocketEvent::CreateFailed(detail@)),
    {
        let mut msg = "Failed to create WebSocket: ".to_string();
        msg.append(detail);
        self.status = WebSocketStatus::Error(msg);
    }

    /// The socket opened: the status is Open and the attempt count starts over.
    pub fn opened(&mut self)
        ensures
            final(self)@ == apply_event(old(self)@, WebSocketEvent::Opened),
    {
        self.status = WebSocketStatus::Open;
        self.reconnect_attempts = 0;
    }

    /// The socket reported an error.
    pub fn errored(&mut self)
        ensures
            final(self)@ == apply_event(old(self)@, WebSocketEvent::Errored),
    {
        self.status = WebSocketStatus::Error("WebSocket error occurred".to_string());
    }

    /// The socket closed. Returns the delay after which to reconnect, when
    /// reconnection is enabled and the attempts are below their limit.
    pub fn closed(&mut self) -> (reconnect_after: Option<u32>)
        ensures
            final(self)@ == apply_event(old(self)@, WebSocketEvent::Closed),
            reconnect_after == (if close_reconnects(old(self)@) { Some(old(self).reconnect_delay) } else { None }),
    {
        self.status = WebSocketStatus::Closed;
        if self.auto_reconnect {
            let current_attempts = self.reconnect_attempts;
            let max_attempts = match self.max_reconnect_attempts {
                Some(m) => m,
                None => usize::MAX,
            };
            if current_attempts < max_attempts {
                self.reconnect_attempts = current_attempts + 1;
                return Some(self.reconnect_delay);
            }
        }
        None
    }

    /// A reconnection timer was scheduled under `handle`.
    pub fn reconnect_scheduled(&mut self, handle: i32)
        ensures
            final(self)@ == apply_event(old(self)@, WebSocketEvent::ReconnectScheduled(handle)),
    {
        self.reconnect_timer = Some(handle);
    }

    /// The reconnection attempt could not create a socket.
    pub fn reconnect_failed(&mut self)
        ensures
            final(self)@ == apply_event(old(self)@, WebSocketEvent::ReconnectFailed),
    {
        self.status = WebSocketStatus::Error("Reconnection failed".to_string());
    }

    /// Disconnects on request: the pending reconnection timer is dropped, and
    /// a socket that is open or connecting is closed, with the status Closing.
    pub fn disconnect(&mut self, ready_state: Option<u16>) -> (plan: DisconnectPlan)
        ensures
            plan.clear_timer == old(self).reconnect_timer,
            plan.close_socket == disconnect_closes(ready_state),
            final(self)@ == apply_event(old(self)@, WebSocketEvent::Disconnect(ready_state)),
            (ready_state == Some(READY_STATE_OPEN) || ready_state == Some(READY_STATE_CONNECTING))
                ==> plan.close_socket && final(self).status is Closing,
            final(self).reconnect_timer is None,
    {
        let clear_timer = self.reconnect_timer.take();
        let close_socket = match ready_state {
            Some(state) => state == READY_STATE_OPEN || state == READY_STATE_CONNECTING,
            None => false,
        };
        if close_socket {
            self.status = WebSocketStatus::Closing;
        }
        DisconnectPlan { clear_timer, close_socket }
    }

    /// Whether a message may be sent on a socket in `ready_state`.
    pub fn can_send(ready_state: Option<u16>) -> (ok: bool)
        ensures
            ok == (ready_state == Some(READY_STATE_OPEN)),
    {
        match ready_state {
            Some(state) => state == READY_STATE_OPEN,
            None => false,
        }
    }

    /// Sending a message failed.
    pub fn send_failed(&mut self)
        ensures
            final(self)@ == apply_event(old(self)@, WebSocketEvent::SendFailed),
    {
        self.status = WebSocketStatus::Error("Failed to send message".to_string());
    }

    /// What to release when the hook unmounts: a socket that is not closed,
    /// and the pending reconnection timer.
    pub fn teardown(&self, ready_state: Option<u16>) -> (plan: DisconnectPlan)
        ensures
            plan.clear_timer == self.reconnect_timer,
            plan.close_socket == (ready_state is Some && ready_state->0 != READY_STATE_CLOSED),
    {
        let close_socket = match ready_state {
            Some(state) => state != READY_STATE_CLOSED,
            None => false,
        };
        DisconnectPlan { clear_timer: self.reconnect_timer, close_socket }
    }
}

/// Without automatic reconnection a close never schedules a reconnection,
/// and the attempt count does not move.
pub proof fn lemma_no_reconnect_when_disabled(m: WebSocketModel)
    requires
        !m.auto_reconnect,
    ensures
        !close_reconnects(m),
        after_close(m).reconnect_attempts == m.reconnect_attempts,
{
}

/// After `k` closes in a row with reconnection enabled, the attempt count is
/// the smaller of its old value plus `k` and the limit: a connection that keeps
/// failing is retried at most `max_reconnect_attempts` times before it opens again.
pub proof fn lemma_closes_bounded(m: WebSocketModel, k: nat)
    requires
        m.auto_reconnect,
        attempts_within_limit(m),
    ensures
        after_closes(m, k).reconnect_attempts == if m.reconnect_attempts + k <= attempt_limit(m) {
            m.reconnect_attempts + k
        } else {
            attempt_limit(m)
        },
        after_closes(m, k).auto_reconnect == m.auto_reconnect,
        after_closes(m, k).max_reconnect_attempts == m.max_reconnect_attempts,
        k > 0 ==> after_closes(m, k).status == WebSocketStatusView::Closed,
    decreases k,
{
    if k > 0 {
        lemma_closes_bounded(m, (k - 1) as nat);
    }
}

/// Every sequence of events keeps the attempt count within its limit and
/// leaves the configuration as it was.
pub proof fn lemma_events_keep_attempts_within_limit(m: WebSocketModel, events: Seq<WebSocketEvent>)
    requires
        attempts_within_limit(m),
    ensures
        attempts_within_limit(apply_events(m, events)),
        apply_events(m, events).auto_reconnect == m.auto_reconnect,
        apply_events(m, events).max_reconnect_attempts == m.max_reconnect_attempts,
        apply_events(m, events).reconnect_delay == m.reconnect_delay,
    decreases events.len(),
{
    if events.len() > 0 {
        lemma_events_keep_attempts_within_limit(m, events.drop_last());
    }
}

/// Between two openings the connection is retried at most as often as the
/// options allow: along any sequence of events without an `Opened`, the
/// reconnections scheduled number the attempts added, and never more than the
/// limit minus the attempts already made.
pub proof fn lemma_reconnections_bounded(m: WebSocketModel, events: Seq<WebSocketEvent>)
    requires
        attempts_within_limit(m),
        forall|i: int| 0 <= i < events.len() ==> !(#[trigger] events[i] is Opened),
    ensures
        apply_events(m, events).reconnect_attempts == m.reconnect_attempts + reconnections(m, events),
        reconnections(m, events) <= attempt_limit(m) - m.reconnect_attempts,
    decreases events.len(),
{
    if events.len() > 0 {
        let prefix = events.drop_last();
        assert forall|i: int| 0 <= i < prefix.len() implies !(#[trigger] prefix[i] is Opened) by {
            assert(prefix[i] == events[i]);
        }
        lemma_reconnections_bounded(m, prefix);
        lemma_events_keep_attempts_within_limit(m, prefix);
        assert(!(events[events.len() - 1] is Opened));
    }
}

/// Opening starts the count over, so after an open the full number of
/// reconnection attempts is available again.
pub proof fn lemma_open_restores_attempts(m: WebSocketModel)
    requires
        m.auto_reconnect,
        attempt_limit(m) > 0,
    ensures
        close_reconnects(after_open(m)),
{
}

/// A disconnect closes a live socket: when its `readyState` is OPEN or
/// CONNECTING the socket is closed and the status becomes Closing; a socket
/// that is already closing or closed, or none at all, is left alone and the
/// status kept. Either way the pending reconnection timer is dropped and the
/// attempt count is kept.
pub proof fn lemma_disconnect_closes_live_socket(m: WebSocketModel, ready_state: Option<u16>)
    ensures
        ready_state == Some(READY_STATE_OPEN) ==> disconnect_closes(ready_state)
            && apply_event(m, WebSocketEvent::Disconnect(ready_state)).status == WebSocketStatusView::Closing,
        ready_state == Some(READY_STATE_CONNECTING) ==> disconnect_closes(ready_state)
            && apply_event(m, WebSocketEvent::Disconnect(ready_state)).status == WebSocketStatusView::Closing,
        (ready_state is None || ready_state == Some(READY_STATE_CLOSING) || ready_state == Some(READY_STATE_CLOSED))
            ==> !disconnect_closes(ready_state)
            && apply_event(m, WebSocketEvent::Disconnect(ready_state)).status == m.status,
        apply_event(m, WebSocketEvent::Disconnect(ready_state)).reconnect_timer is None,
        apply_event(m, WebSocketEvent::Disconnect(ready_state)).reconnect_attempts == m.reconnect_attempts,
{
}

} // verus!
