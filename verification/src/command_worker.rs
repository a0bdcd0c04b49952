//! Whoever takes the trading commands, keeps the trading socket open, and answers for every
//! command: what it does about each thing that happens.

use crate::json::{canonical, Json, JsonView};
use crate::text::outcome;
use crate::trade_stream::{
    all_failed, answer_in, fail_pending, handle_response_text, lists_replies, one_reply,
    PendingRequests, Reply, SignedTradeRequest, SignedTradeRequestView, TradeError, TradeErrorView,
};
use crate::websocket::{ping, ping_payload, WebSocketError};
use crate::ws_trade::{action_named, command, command_envelope, RawTradeResponse, WsTradeAction};
use vstd::prelude::*;

verus! {

/// What the worker is at.
#[derive(Debug)]
pub enum WorkerPhase {
    /// There is no socket, and no command.
    Idle,
    /// The socket is being opened for a command.
    Connecting(SignedTradeRequest),
    /// A command is being sent.
    Sending(String),
    /// A sign of life is being sent.
    Signalling,
    /// The socket is open.
    Listening,
    /// No more commands will come.
    Stopped,
}

/// What a [`WorkerPhase`] says.
pub enum PhaseView {
    Idle,
    Connecting(SignedTradeRequestView),
    Sending(Seq<char>),
    Signalling,
    Listening,
    Stopped,
}

impl View for WorkerPhase {
    type V = PhaseView;

    open spec fn view(&self) -> PhaseView {
        match *self {
            WorkerPhase::Idle => PhaseView::Idle,
            WorkerPhase::Connecting(request) => PhaseView::Connecting(request@),
            WorkerPhase::Sending(id) => PhaseView::Sending(id@),
            WorkerPhase::Signalling => PhaseView::Signalling,
            WorkerPhase::Listening => PhaseView::Listening,
            WorkerPhase::Stopped => PhaseView::Stopped,
        }
    }
}

/// What happens to the worker.
#[derive(Debug)]
pub enum WorkerEvent {
    /// A command came.
    Command(SignedTradeRequest),
    /// No more commands will come.
    CommandsClosed,
    /// The socket is open.
    Connected,
    /// The socket could not be opened.
    ConnectFailed(WebSocketError),
    /// What was to be sent is sent.
    Sent,
    /// What was to be sent could not be.
    SendFailed(String),
    /// A message came: its text, and what was read in it.
    Text { text: String, frame: Result<RawTradeResponse, String> },
    /// The exchange asks for a sign of life.
    Ping,
    /// The exchange closed the socket, or it ended.
    Closed,
    /// Something came that has no meaning here.
    Ignored,
    /// The socket failed.
    SocketFailed(String),
    /// It is time for a sign of life.
    Tick,
}

/// What the worker is to do next.
#[derive(Debug)]
pub enum WorkerAction {
    /// Wait for a command.
    AwaitCommand,
    /// Open the socket.
    Connect,
    /// Send a request.
    Send(Json),
    /// Answer with a sign of life.
    Pong,
    /// Wait for a command, a message, or the time for a sign of life.
    AwaitAny,
    /// Leave.
    Stop,
}

/// What a [`WorkerAction`] says.
pub enum ActionView {
    AwaitCommand,
    Connect,
    Send(JsonView),
    Pong,
    AwaitAny,
    Stop,
}

impl View for WorkerAction {
    type V = ActionView;

    open spec fn view(&self) -> ActionView {
        match *self {
            WorkerAction::AwaitCommand => ActionView::AwaitCommand,
            WorkerAction::Connect => ActionView::Connect,
            WorkerAction::Send(request) => ActionView::Send(request@),
            WorkerAction::Pong => ActionView::Pong,
            WorkerAction::AwaitAny => ActionView::AwaitAny,
            WorkerAction::Stop => ActionView::Stop,
        }
    }
}

/// What the worker is at, and which commands it owes an answer for.
#[verifier::ext_equal]
pub struct WorkerView {
    pub phase: PhaseView,
    pub pending: Set<Seq<char>>,
}

/// What comes of an event: the worker after it, what to do next, and the replies to commands.
pub type WorkerStep = (WorkerView, ActionView, Map<Seq<char>, Result<(), TradeErrorView>>);

impl WorkerView {
    /// At the start there is no socket and no command.
    pub open spec fn start() -> WorkerView {
        WorkerView { phase: PhaseView::Idle, pending: Set::empty() }
    }

    /// Without a socket no answers are waited for, and what is being sent is waited for.
    pub open spec fn wf(self) -> bool {
        match self.phase {
            PhaseView::Idle => self.pending == Set::<Seq<char>>::empty(),
            PhaseView::Stopped => self.pending == Set::<Seq<char>>::empty(),
            PhaseView::Connecting(request) => self.pending == Set::<Seq<char>>::empty()
                && canonical(request.body),
            PhaseView::Sending(id) => self.pending.contains(id),
            PhaseView::Signalling => true,
            PhaseView::Listening => true,
        }
    }

    /// What to do where nothing has changed.
    pub open spec fn again(self) -> WorkerStep {
        let action = match self.phase {
            PhaseView::Idle => ActionView::AwaitCommand,
            PhaseView::Connecting(_) => ActionView::Connect,
            PhaseView::Sending(_) => ActionView::AwaitAny,
            PhaseView::Signalling => ActionView::AwaitAny,
            PhaseView::Listening => ActionView::AwaitAny,
            PhaseView::Stopped => ActionView::Stop,
        };
        (self, action, Map::empty())
    }

    /// The socket is open, and there is nothing to send.
    pub open spec fn listens(self) -> WorkerStep {
        (
            WorkerView { phase: PhaseView::Listening, ..self },
            ActionView::AwaitAny,
            Map::empty(),
        )
    }

    /// The socket is lost: every command that is waited for fails.
    pub open spec fn loses_socket(self, message: Seq<char>) -> WorkerStep {
        (WorkerView::start(), ActionView::AwaitCommand, all_failed(self.pending, message))
    }

    /// A command is sent over the open socket. One of an unknown kind is not, and costs the
    /// socket: every command that is waited for fails, and so does the new one. Under the
    /// identifier of a command that is waited for, the reply is the one to that command.
    pub open spec fn sends(self, request: SignedTradeRequestView) -> WorkerStep {
        match action_named(request.operation_type) {
            Some(action) => (
                WorkerView {
                    phase: PhaseView::Sending(request.request_id),
                    pending: self.pending.insert(request.request_id),
                },
                ActionView::Send(command(request.request_id, action, request.body)),
                Map::empty(),
            ),
            None => {
                let error = TradeErrorView::UnsupportedOperation(request.operation_type);
                let failed = all_failed(self.pending, error.words());
                (
                    WorkerView::start(),
                    ActionView::AwaitCommand,
                    if self.pending.contains(request.request_id) {
                        failed
                    } else {
                        failed.insert(request.request_id, Err(TradeErrorView::Stopped))
                    },
                )
            },
        }
    }

    /// What comes of an event.
    pub open spec fn step(self, event: WorkerEvent) -> WorkerStep {
        match (self.phase, event) {
            (PhaseView::Idle, WorkerEvent::Command(request)) => (
                WorkerView { phase: PhaseView::Connecting(request@), ..self },
                ActionView::Connect,
                Map::empty(),
            ),
            (PhaseView::Idle, WorkerEvent::CommandsClosed) => (
                WorkerView { phase: PhaseView::Stopped, pending: Set::empty() },
                ActionView::Stop,
                all_failed(self.pending, "trade command client stopped"@),
            ),
            (PhaseView::Connecting(request), WorkerEvent::Connected) => self.sends(request),
            (PhaseView::Connecting(request), WorkerEvent::ConnectFailed(error)) => (
                WorkerView { phase: PhaseView::Idle, ..self },
                ActionView::AwaitCommand,
                one_reply(request.request_id, Err(TradeErrorView::WebSocket(error@))),
            ),
            (PhaseView::Sending(_), WorkerEvent::Sent) => self.listens(),
            (PhaseView::Sending(_), WorkerEvent::SendFailed(error)) => self.loses_socket(
                TradeErrorView::Tungstenite(error@).words(),
            ),
            (PhaseView::Signalling, WorkerEvent::Sent) => self.listens(),
            (PhaseView::Signalling, WorkerEvent::SendFailed(error)) => self.loses_socket(error@),
            (PhaseView::Listening, WorkerEvent::Command(request)) => self.sends(request@),
            (PhaseView::Listening, WorkerEvent::Text { text, frame }) => match answer_in(
                text@,
                frame,
                self.pending,
            ) {
                Some(reply) => (
                    WorkerView { pending: self.pending.remove(reply.0), ..self },
                    ActionView::AwaitAny,
                    one_reply(reply.0, reply.1),
                ),
                None => self.again(),
            },
            (PhaseView::Listening, WorkerEvent::Ping) => (
                WorkerView { phase: PhaseView::Signalling, ..self },
                ActionView::Pong,
                Map::empty(),
            ),
            (PhaseView::Listening, WorkerEvent::Tick) => (
                WorkerView { phase: PhaseView::Signalling, ..self },
                ActionView::Send(ping()),
                Map::empty(),
            ),
            (PhaseView::Listening, WorkerEvent::Closed) => self.loses_socket(
                "connection interrupted"@,
            ),
            (PhaseView::Listening, WorkerEvent::SocketFailed(error)) => self.loses_socket(error@),
            _ => self.again(),
        }
    }

    /// The command is in the worker's hands: it is being sent, or its answer is waited for.
    pub open spec fn holds(self, id: Seq<char>) -> bool {
        ||| self.pending.contains(id)
        ||| self.phase matches PhaseView::Connecting(request) && request.request_id == id
    }

    /// The worker takes commands in this phase.
    pub open spec fn takes_commands(self) -> bool {
        self.phase == PhaseView::Idle || self.phase == PhaseView::Listening
    }
}

/// What the worker is at, and which commands it owes an answer for.
#[derive(Debug)]
struct WorkerState {
    phase: WorkerPhase,
    pending: PendingRequests,
}

impl View for WorkerState {
    type V = WorkerView;

    closed spec fn view(&self) -> WorkerView {
        WorkerView { phase: self.phase@, pending: self.pending@ }
    }
}

/// Whoever takes the trading commands.
#[derive(Debug)]
pub struct CommandWorker {
    state: WorkerState,
}

impl View for CommandWorker {
    type V = WorkerView;

    closed spec fn view(&self) -> WorkerView {
        self.state@
    }
}

/// No replies.
fn no_replies() -> (r: Vec<Reply>)
    ensures
        lists_replies(r.deep_view(), Map::empty()),
{
    Vec::new()
}

/// One reply.
fn single_reply(reply: Reply) -> (r: Vec<Reply>)
    ensures
        lists_replies(
            r.deep_view(),
            one_reply(reply.request_id@, outcome(reply.result)),
        ),
{
    let ghost said = reply.deep_view();
    let mut replies: Vec<Reply> = Vec::new();
    replies.push(reply);
    assert(replies.deep_view() =~= seq![said]);
    proof {
        let list = replies.deep_view();
        let expected = one_reply(said.0, said.1);
        assert forall|id: Seq<char>| #[trigger] expected.contains_key(id) implies exists|i: int|
            0 <= i < list.len() && #[trigger] list[i].0 == id by {
            assert(list[0].0 == id);
        }
    }
    replies
}

impl CommandWorker {
    #[verifier::type_invariant]
    closed spec fn well_formed(self) -> bool {
        self.state@.wf()
    }

    /// At the start there is no socket and no command: a command is waited for.
    pub fn new() -> (r: Self)
        ensures
            r@ == WorkerView::start(),
            r@.wf(),
    {
        CommandWorker { state: WorkerState::new() }
    }

    /// Whether there is a socket, or one is being used.
    pub fn connected(&self) -> (r: bool)
        ensures
            r == (self@.phase is Sending || self@.phase is Signalling || self@.phase is Listening),
    {
        match self.state.phase {
            WorkerPhase::Idle | WorkerPhase::Connecting(_) | WorkerPhase::Stopped => false,
            WorkerPhase::Sending(_) | WorkerPhase::Signalling | WorkerPhase::Listening => true,
        }
    }

    /// Whether the answer to a command is waited for.
    pub fn awaits(&self, request_id: &String) -> (r: bool)
        ensures
            r == self@.pending.contains(request_id@),
    {
        self.state.pending.contains(request_id)
    }

    /// Takes in an event: what to do next, and the replies to commands.
    pub fn step(&mut self, event: WorkerEvent) -> (r: (WorkerAction, Vec<Reply>))
        requires
            event matches WorkerEvent::Command(request) ==> canonical(request.body@),
        ensures
            ({
                let (after, action, replies) = old(self)@.step(event);
                final(self)@ == after && r.0@ == action && lists_replies(r.1.deep_view(), replies)
            }),
            old(self)@.wf(),
            final(self)@.wf(),
            r.0 matches WorkerAction::Send(request) ==> canonical(request@),
    {
        proof {
            use_type_invariant(&*self);
        }
        let mut state = WorkerState::new();
        core::mem::swap(&mut state, &mut self.state);
        let r = state.step(event);
        self.state = state;
        r
    }
}

impl WorkerState {
    /// No socket and no command.
    fn new() -> (r: Self)
        ensures
            r@ == WorkerView::start(),
            r@.wf(),
    {
        WorkerState { phase: WorkerPhase::Idle, pending: PendingRequests::new() }
    }

    /// The socket is lost: every command that is waited for fails.
    fn lose_socket(&mut self, message: String) -> (r: (WorkerAction, Vec<Reply>))
        ensures
            ({
                let (after, action, replies) = old(self)@.loses_socket(message@);
                final(self)@ == after && r.0@ == action && lists_replies(r.1.deep_view(), replies)
            }),
    {
        let replies = fail_pending(&mut self.pending, message);
        self.phase = WorkerPhase::Idle;
        (WorkerAction::AwaitCommand, replies)
    }

    /// Sends a command over the open socket.
    fn send_command(&mut self, request: SignedTradeRequest) -> (r: (WorkerAction, Vec<Reply>))
        requires
            canonical(request.body@),
        ensures
            ({
                let (after, action, replies) = old(self)@.sends(request@);
                final(self)@ == after && r.0@ == action && lists_replies(r.1.deep_view(), replies)
            }),
            r.0 matches WorkerAction::Send(body) ==> canonical(body@),
    {
        match WsTradeAction::from_operation_type(request.operation_type) {
            Some(action) => {
                let payload = command_envelope(request.request_id.as_str(), action, request.body);
                self.pending.insert(request.request_id.clone());
                self.phase = WorkerPhase::Sending(request.request_id);
                (WorkerAction::Send(payload), no_replies())
            },
            None => {
                let ghost held = self.pending@;
                let error = TradeError::UnsupportedOperation(request.operation_type);
                let message = error.message();
                let ghost words = message@;
                let waited_for = self.pending.contains(&request.request_id);
                let mut replies = fail_pending(&mut self.pending, message);
                self.phase = WorkerPhase::Idle;
                if waited_for {
                    return (WorkerAction::AwaitCommand, replies);
                }
                let ghost before = replies.deep_view();
                let ghost id = request.request_id@;
                replies.push(
                    Reply { request_id: request.request_id, result: Err(TradeError::Stopped) },
                );
                proof {
                    let stopped = Err::<(), TradeErrorView>(TradeErrorView::Stopped);
                    let list = replies.deep_view();
                    assert(list =~= before.push((id, stopped)));
                    let others = all_failed(held, words);
                    let expected = others.insert(id, stopped);
                    assert forall|i: int, j: int|
                        #![trigger list[i], list[j]]
                        0 <= i < j < list.len() implies list[i].0 != list[j].0 by {
                        assert(list[i] == before[i]);
                        assert(others.contains_key(before[i].0));
                        if j < before.len() {
                            assert(list[j] == before[j]);
                        }
                    }
                    assert forall|i: int| 0 <= i < list.len() implies #[trigger] expected.contains_key(
                        list[i].0,
                    ) && expected[list[i].0] == list[i].1 by {
                        if i < before.len() {
                            assert(list[i] == before[i]);
                            assert(others.contains_key(before[i].0));
                        }
                    }
                    assert forall|k: Seq<char>| #[trigger] expected.contains_key(k) implies exists|
                        i: int,
                    |
                        0 <= i < list.len() && #[trigger] list[i].0 == k by {
                        if k == id {
                            assert(list[before.len() as int].0 == k);
                        } else {
                            assert(others.contains_key(k));
                            let i = choose|i: int|
                                0 <= i < before.len() && #[trigger] before[i].0 == k;
                            assert(list[i].0 == k);
                        }
                    }
                }
                (WorkerAction::AwaitCommand, replies)
            },
        }
    }

    /// What is done where nothing has changed.
    fn wait(&self) -> (r: (WorkerAction, Vec<Reply>))
        ensures
            r.0@ == self@.again().1,
            lists_replies(r.1.deep_view(), Map::empty()),
    {
        let action = match self.phase {
            WorkerPhase::Idle => WorkerAction::AwaitCommand,
            WorkerPhase::Connecting(_) => WorkerAction::Connect,
            WorkerPhase::Sending(_) => WorkerAction::AwaitAny,
            WorkerPhase::Signalling => WorkerAction::AwaitAny,
            WorkerPhase::Listening => WorkerAction::AwaitAny,
            WorkerPhase::Stopped => WorkerAction::Stop,
        };
        (action, no_replies())
    }

    /// Takes in an event: what to do next, and the replies to commands.
    fn step(&mut self, event: WorkerEvent) -> (r: (WorkerAction, Vec<Reply>))
        requires
            old(self)@.wf(),
            event matches WorkerEvent::Command(request) ==> canonical(request.body@),
        ensures
            ({
                let (after, action, replies) = old(self)@.step(event);
                final(self)@ == after && r.0@ == action && lists_replies(r.1.deep_view(), replies)
            }),
            final(self)@.wf(),
            r.0 matches WorkerAction::Send(request) ==> canonical(request@),
    {
        let mut phase = WorkerPhase::Idle;
        core::mem::swap(&mut phase, &mut self.phase);
        match (phase, event) {
            (WorkerPhase::Idle, WorkerEvent::Command(request)) => {
                self.phase = WorkerPhase::Connecting(request);
                (WorkerAction::Connect, no_replies())
            },
            (WorkerPhase::Idle, WorkerEvent::CommandsClosed) => {
                let replies = fail_pending(
                    &mut self.pending,
                    "trade command client stopped".to_string(),
                );
                self.phase = WorkerPhase::Stopped;
                (WorkerAction::Stop, replies)
            },
            (WorkerPhase::Connecting(request), WorkerEvent::Connected) => self.send_command(
                request,
            ),
            (WorkerPhase::Connecting(request), WorkerEvent::ConnectFailed(error)) => (
                WorkerAction::AwaitCommand,
                single_reply(
                    Reply {
                        request_id: request.request_id,
                        result: Err(TradeError::WebSocket(error)),
                    },
                ),
            ),
            (WorkerPhase::Sending(_), WorkerEvent::Sent) => {
                self.phase = WorkerPhase::Listening;
                self.wait()
            },
            (WorkerPhase::Sending(_), WorkerEvent::SendFailed(error)) => {
                let message = TradeError::Tungstenite(error).message();
                self.lose_socket(message)
            },
            (WorkerPhase::Signalling, WorkerEvent::Sent) => {
                self.phase = WorkerPhase::Listening;
                self.wait()
            },
            (WorkerPhase::Signalling, WorkerEvent::SendFailed(error)) => self.lose_socket(error),
            (WorkerPhase::Listening, WorkerEvent::Command(request)) => self.send_command(request),
            (WorkerPhase::Listening, WorkerEvent::Text { text, frame }) => {
                self.phase = WorkerPhase::Listening;
                match handle_response_text(text.as_str(), frame, &mut self.pending) {
                    Some(reply) => (WorkerAction::AwaitAny, single_reply(reply)),
                    None => self.wait(),
                }
            },
            (WorkerPhase::Listening, WorkerEvent::Ping) => {
                self.phase = WorkerPhase::Signalling;
                (WorkerAction::Pong, no_replies())
            },
            (WorkerPhase::Listening, WorkerEvent::Tick) => {
                self.phase = WorkerPhase::Signalling;
                (WorkerAction::Send(ping_payload()), no_replies())
            },
            (WorkerPhase::Listening, WorkerEvent::Closed) => self.lose_socket(
                "connection interrupted".to_string(),
            ),
            (WorkerPhase::Listening, WorkerEvent::SocketFailed(error)) => self.lose_socket(error),
            (phase, _) => {
                self.phase = phase;
                self.wait()
            },
        }
    }
}

/// Every command that the worker holds stays in its hands or is answered, and only commands that it
/// held or that just came are answered.
pub proof fn no_command_is_lost(worker: WorkerView, event: WorkerEvent, id: Seq<char>)
    requires
        worker.wf(),
    ensures
        ({
            let (after, _, replies) = worker.step(event);
            let came = event matches WorkerEvent::Command(request) && worker.takes_commands()
                && request.request_id@ == id;
            &&& worker.holds(id) || came ==> after.holds(id) || replies.contains_key(id)
            &&& replies.contains_key(id) ==> worker.holds(id) || came
            &&& replies.contains_key(id) ==> !after.holds(id)
            &&& after.holds(id) ==> worker.holds(id) || came
        }),
{
}

/// A command succeeds only where an answer for it bears the code of success; and a worker that
/// has stopped holds none.
pub proof fn success_needs_an_answer(worker: WorkerView, event: WorkerEvent, id: Seq<char>)
    requires
        worker.wf(),
    ensures
        ({
            let (after, _, replies) = worker.step(event);
            &&& replies.contains_key(id) && replies[id] is Ok ==> {
                &&& event matches WorkerEvent::Text { frame: Ok(frame), .. } && frame@.code == Some(
                    200i64,
                ) && frame@.error is None && frame@.id == Some(id)
            }
            &&& after.phase == PhaseView::Stopped ==> !after.holds(id)
        }),
{
}

/// The error in a reply can always be put into words.
pub proof fn reply_errors_have_words(worker: WorkerView, event: WorkerEvent, id: Seq<char>)
    ensures
        ({
            let (_, _, replies) = worker.step(event);
            replies.contains_key(id) && replies[id] is Err ==> (replies[id]->Err_0).wf()
        }),
{
}

} // verus!
