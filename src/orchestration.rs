//! The start and stop orchestrations of the game-server instance, as a state
//! machine: the caller performs each action that a step hands back (a call to
//! the control plane, a chat message, a pause) and feeds the outcome back in
//! as the next event.
use vstd::prelude::*;
use vstd::string::StringExecFns;
use crate::command::Direction;
use crate::text::same_text;

verus! {

/// Seconds to pause between two status queries.
pub const POLL_INTERVAL_SECS: u64 = 5;

/// The port that the game server listens on, as it is appended to the address.
pub open spec fn port_suffix() -> Seq<char> {
    ":8211"@
}

/// The state that the instance reports once it runs.
pub open spec fn running_state() -> Seq<char> {
    "RUNNING"@
}

/// The state that the instance reports once it has stopped.
pub open spec fn terminated_state() -> Seq<char> {
    "TERMINATED"@
}

/// The state that an orchestration waits for.
pub open spec fn target_state(d: Direction) -> Seq<char> {
    match d {
        Direction::Start => running_state(),
        Direction::Stop => terminated_state(),
    }
}

/// The notice sent once the control plane has accepted the request.
pub open spec fn begin_notice(d: Direction) -> Seq<char> {
    match d {
        Direction::Start => "palworldのサーバーを起動中..."@,
        Direction::Stop => "palworldのサーバーを停止中..."@,
    }
}

/// The notice sent once the instance has started at address `ip`.
pub open spec fn started_notice(ip: Seq<char>) -> Seq<char> {
    "起動が完了しました。"@ + ip + port_suffix()
}

/// The notice sent once the instance has stopped.
pub open spec fn stopped_notice() -> Seq<char> {
    "停止が完了しました。"@
}

/// A call to the remote control plane.
#[derive(Clone, Copy, Debug, PartialEq, Eq, Structural)]
pub enum ControlCall {
    /// Ask the instance to start.
    Start,
    /// Ask the instance to stop.
    Stop,
    /// Ask for the instance's current state.
    Status,
    /// Ask for the instance's network address.
    Ip,
}

/// The last segment of a control call's path.
pub open spec fn call_name(c: ControlCall) -> Seq<char> {
    match c {
        ControlCall::Start => "start"@,
        ControlCall::Stop => "stop"@,
        ControlCall::Status => "status"@,
        ControlCall::Ip => "ip"@,
    }
}

/// The URL of a control call under the control plane's base URL.
pub fn endpoint(base: &str, call: ControlCall) -> (r: String)
    ensures
        r@ == base@ + "/instance/"@ + call_name(call),
{
    let name = match call {
        ControlCall::Start => "start",
        ControlCall::Stop => "stop",
        ControlCall::Status => "status",
        ControlCall::Ip => "ip",
    };
    let mut url = String::from_str(base);
    url.append("/instance/");
    url.append(name);
    url
}

/// Where an orchestration stands.
#[derive(Clone, Copy, Debug, PartialEq, Eq, Structural)]
pub enum Phase {
    /// The start or stop request is out.
    Requesting,
    /// The notice that the request was accepted is out.
    Announcing,
    /// A status query is out.
    Polling,
    /// A pause before the next status query is under way.
    Waiting,
    /// The address query is out (start only).
    Locating,
    /// The completion notice is out.
    Reporting,
    /// The orchestration has completed.
    Done,
    /// The orchestration was abandoned.
    Failed,
}

/// What the caller observed after performing the last action.
pub enum EventView {
    Accepted,
    TransportFailed,
    Delivered,
    Status(Seq<char>),
    Slept,
    Address(Seq<char>),
}

/// What the caller observed after performing the last action.
#[derive(Debug)]
pub enum Event {
    /// The control plane accepted a start or stop request.
    Accepted,
    /// A call to the control plane failed in transport.
    TransportFailed,
    /// A chat message was handed to the gateway; whether it arrived does not matter.
    Delivered,
    /// The instance's state, as the control plane reported it.
    Status(String),
    /// The pause is over.
    Slept,
    /// The instance's address, as the control plane reported it.
    Address(String),
}

impl View for Event {
    type V = EventView;

    open spec fn view(&self) -> EventView {
        match self {
            Event::Accepted => EventView::Accepted,
            Event::TransportFailed => EventView::TransportFailed,
            Event::Delivered => EventView::Delivered,
            Event::Status(s) => EventView::Status(s@),
            Event::Slept => EventView::Slept,
            Event::Address(s) => EventView::Address(s@),
        }
    }
}

/// What the caller is to do next.
pub enum ActionView {
    Control(ControlCall),
    Say(Seq<char>),
    Sleep(u64),
    Finish,
    Abort,
}

/// What the caller is to do next.
#[derive(Debug)]
pub enum Action {
    /// Make this call to the control plane.
    Control(ControlCall),
    /// Send this message to the channel the command came from.
    Say(String),
    /// Pause for this many seconds.
    Sleep(u64),
    /// The orchestration has completed.
    Finish,
    /// The orchestration was abandoned.
    Abort,
}

impl View for Action {
    type V = ActionView;

    open spec fn view(&self) -> ActionView {
        match self {
            Action::Control(c) => ActionView::Control(*c),
            Action::Say(s) => ActionView::Say(s@),
            Action::Sleep(n) => ActionView::Sleep(*n),
            Action::Finish => ActionView::Finish,
            Action::Abort => ActionView::Abort,
        }
    }
}

/// One start or stop orchestration of the game-server instance.
#[derive(Clone, Copy, Debug, PartialEq, Eq, Structural)]
pub struct Orchestration {
    pub direction: Direction,
    pub phase: Phase,
}

/// The request that opens an orchestration.
pub open spec fn request_call(d: Direction) -> ControlCall {
    match d {
        Direction::Start => ControlCall::Start,
        Direction::Stop => ControlCall::Stop,
    }
}

/// The next state and action of an orchestration in state `s` on event `e`.
/// An event that the current phase does not await abandons the orchestration;
/// a finished one stays as it is.
pub open spec fn step(s: Orchestration, e: EventView) -> (Orchestration, ActionView) {
    let at = |p: Phase| Orchestration { direction: s.direction, phase: p };
    let fail = (at(Phase::Failed), ActionView::Abort);
    match s.phase {
        Phase::Requesting => match e {
            EventView::Accepted => (at(Phase::Announcing), ActionView::Say(begin_notice(s.direction))),
            _ => fail,
        },
        Phase::Announcing => match e {
            EventView::Delivered => (at(Phase::Polling), ActionView::Control(ControlCall::Status)),
            _ => fail,
        },
        Phase::Polling => match e {
            EventView::Status(st) => if st == target_state(s.direction) {
                match s.direction {
                    Direction::Start => (at(Phase::Locating), ActionView::Control(ControlCall::Ip)),
                    Direction::Stop => (at(Phase::Reporting), ActionView::Say(stopped_notice())),
                }
            } else {
                (at(Phase::Waiting), ActionView::Sleep(POLL_INTERVAL_SECS))
            },
            _ => fail,
        },
        Phase::Waiting => match e {
            EventView::Slept => (at(Phase::Polling), ActionView::Control(ControlCall::Status)),
            _ => fail,
        },
        Phase::Locating => match e {
            EventView::Address(ip) => (at(Phase::Reporting), ActionView::Say(started_notice(ip))),
            _ => fail,
        },
        Phase::Reporting => match e {
            EventView::Delivered => (at(Phase::Done), ActionView::Finish),
            _ => fail,
        },
        Phase::Done => (s, ActionView::Finish),
        Phase::Failed => (s, ActionView::Abort),
    }
}

/// The state and the actions of an orchestration in state `s` fed the events
/// `es` one after the other.
pub open spec fn run(s: Orchestration, es: Seq<EventView>) -> (Orchestration, Seq<ActionView>)
    decreases es.len(),
{
    if es.len() == 0 {
        (s, Seq::empty())
    } else {
        let (s1, a) = step(s, es[0]);
        let (s2, rest) = run(s1, es.drop_first());
        (s2, seq![a] + rest)
    }
}

/// The events of a poll loop whose status queries return `sts` in turn: each
/// status but the last is followed by the end of a pause.
pub open spec fn poll_events(sts: Seq<Seq<char>>) -> Seq<EventView>
    decreases sts.len(),
{
    if sts.len() == 0 {
        Seq::empty()
    } else if sts.len() == 1 {
        seq![EventView::Status(sts[0])]
    } else {
        seq![EventView::Status(sts[0]), EventView::Slept] + poll_events(sts.drop_first())
    }
}

/// `k` rounds of a pause followed by a status query.
pub open spec fn wait_rounds(k: nat) -> Seq<ActionView>
    decreases k,
{
    if k == 0 {
        Seq::empty()
    } else {
        seq![ActionView::Sleep(POLL_INTERVAL_SECS), ActionView::Control(ControlCall::Status)]
            + wait_rounds((k - 1) as nat)
    }
}

/// The number of pauses among `acts`.
pub open spec fn count_sleeps(acts: Seq<ActionView>) -> nat
    decreases acts.len(),
{
    if acts.len() == 0 {
        0
    } else {
        (if acts[0] is Sleep {
            1nat
        } else {
            0nat
        }) + count_sleeps(acts.drop_first())
    }
}

/// The number of status queries among `acts`.
pub open spec fn count_status_queries(acts: Seq<ActionView>) -> nat
    decreases acts.len(),
{
    if acts.len() == 0 {
        0
    } else {
        (if acts[0] == ActionView::Control(ControlCall::Status) {
            1nat
        } else {
            0nat
        }) + count_status_queries(acts.drop_first())
    }
}

/// The poll loop waits until the target state is reported: where the status
/// queries of an orchestration return `sts`, of which only the last is its
/// target state, the orchestration leaves the loop right after that last reply,
/// as it would had the target come at once, and meanwhile it pauses before
/// each query but the first: `sts.len() - 1` pauses and as many further status
/// queries, each pause of the fixed interval.
pub proof fn lemma_poll_until_target(d: Direction, sts: Seq<Seq<char>>)
    requires
        sts.len() >= 1,
        sts.last() == target_state(d),
        forall|i: int| 0 <= i < sts.len() - 1 ==> sts[i] != target_state(d),
    ensures
        ({
            let polling = Orchestration { direction: d, phase: Phase::Polling };
            let (s, last) = step(polling, EventView::Status(target_state(d)));
            run(polling, poll_events(sts)) == (s, wait_rounds((sts.len() - 1) as nat).push(last))
        }),
        count_sleeps(run(Orchestration { direction: d, phase: Phase::Polling }, poll_events(sts)).1)
            == sts.len() - 1,
        count_status_queries(
            run(Orchestration { direction: d, phase: Phase::Polling }, poll_events(sts)).1,
        ) == sts.len() - 1,
    decreases sts.len(),
{
    let polling = Orchestration { direction: d, phase: Phase::Polling };
    let waiting = Orchestration { direction: d, phase: Phase::Waiting };
    let (s, last) = step(polling, EventView::Status(target_state(d)));
    let es = poll_events(sts);
    if sts.len() == 1 {
        assert(sts[0] == target_state(d));
        assert(es =~= seq![EventView::Status(sts[0])]);
        assert(es.drop_first() =~= Seq::<EventView>::empty());
        assert(run(s, es.drop_first()) == (s, Seq::<ActionView>::empty()));
        assert(run(polling, es).1 =~= seq![last]);
        assert(wait_rounds(0).push(last) =~= seq![last]);
    } else {
        let rest = sts.drop_first();
        lemma_poll_until_target(d, rest);
        assert(sts[0] != target_state(d));
        assert(es[0] == EventView::Status(sts[0]));
        assert(es.drop_first() =~= seq![EventView::Slept] + poll_events(rest));
        assert(es.drop_first().drop_first() =~= poll_events(rest));
        let tail = run(polling, poll_events(rest)).1;
        assert(run(waiting, es.drop_first()).1 =~= seq![ActionView::Control(ControlCall::Status)]
            + tail);
        let k = (sts.len() - 1) as nat;
        let acts = run(polling, es).1;
        assert(acts =~= seq![
            ActionView::Sleep(POLL_INTERVAL_SECS),
            ActionView::Control(ControlCall::Status),
        ] + tail);
        assert(wait_rounds(k).push(last) =~= seq![
            ActionView::Sleep(POLL_INTERVAL_SECS),
            ActionView::Control(ControlCall::Status),
        ] + wait_rounds((k - 1) as nat).push(last));
    }
    lemma_wait_rounds_counts((sts.len() - 1) as nat, last);
}

proof fn lemma_wait_rounds_counts(k: nat, last: ActionView)
    requires
        last !is Sleep,
        last != ActionView::Control(ControlCall::Status),
    ensures
        count_sleeps(wait_rounds(k).push(last)) == k,
        count_status_queries(wait_rounds(k).push(last)) == k,
    decreases k,
{
    let acts = wait_rounds(k).push(last);
    if k == 0 {
        assert(acts =~= seq![last]);
        assert(acts.drop_first() =~= Seq::<ActionView>::empty());
        assert(count_sleeps(acts) == 0 + count_sleeps(acts.drop_first()));
        assert(count_status_queries(acts) == 0 + count_status_queries(acts.drop_first()));
    } else {
        lemma_wait_rounds_counts((k - 1) as nat, last);
        let tail = wait_rounds((k - 1) as nat).push(last);
        assert(acts =~= seq![
            ActionView::Sleep(POLL_INTERVAL_SECS),
            ActionView::Control(ControlCall::Status),
        ] + tail);
        assert(acts.drop_first() =~= seq![ActionView::Control(ControlCall::Status)] + tail);
        assert(acts.drop_first().drop_first() =~= tail);
        let rest = acts.drop_first();
        assert(count_sleeps(acts) == 1 + count_sleeps(rest));
        assert(count_sleeps(rest) == 0 + count_sleeps(tail));
        assert(count_status_queries(acts) == 0 + count_status_queries(rest));
        assert(count_status_queries(rest) == 1 + count_status_queries(tail));
    }
}

/// Every action of `acts` is the end of an abandoned orchestration.
pub open spec fn all_abort(acts: Seq<ActionView>) -> bool {
    forall|i: int| 0 <= i < acts.len() ==> acts[i] == ActionView::Abort
}

/// An abandoned orchestration stays abandoned: whatever events follow, it
/// sends no message and makes no call.
pub proof fn lemma_failed_stays_silent(d: Direction, es: Seq<EventView>)
    ensures
        run(Orchestration { direction: d, phase: Phase::Failed }, es).0 == (Orchestration {
            direction: d,
            phase: Phase::Failed,
        }),
        all_abort(run(Orchestration { direction: d, phase: Phase::Failed }, es).1),
    decreases es.len(),
{
    let failed = Orchestration { direction: d, phase: Phase::Failed };
    if es.len() > 0 {
        lemma_failed_stays_silent(d, es.drop_first());
        let acts = run(failed, es).1;
        assert(acts =~= seq![ActionView::Abort] + run(failed, es.drop_first()).1);
    }
}

/// Where the control plane refuses the start or stop request in transport, the
/// orchestration is abandoned at once: whatever events follow, it sends no
/// message and makes no further call, so it never queries the status.
pub proof fn lemma_refused_request_is_silent(d: Direction, es: Seq<EventView>)
    ensures
        all_abort(
            run(
                Orchestration { direction: d, phase: Phase::Requesting },
                seq![EventView::TransportFailed] + es,
            ).1,
        ),
{
    let failed = Orchestration { direction: d, phase: Phase::Failed };
    let all = seq![EventView::TransportFailed] + es;
    assert(all.drop_first() =~= es);
    lemma_failed_stays_silent(d, es);
    let acts = run(Orchestration { direction: d, phase: Phase::Requesting }, all).1;
    assert(acts =~= seq![ActionView::Abort] + run(failed, es).1);
}

/// A start whose request is accepted and whose instance reports that it runs
/// at the first query takes exactly these steps: the start request, the
/// starting notice, one status query, the address query, and the notice of
/// completion with the address and the game port; then it is done.
pub proof fn lemma_start_when_running_at_once(ip: Seq<char>)
    ensures
        ({
            let (s, acts) = run(
                Orchestration { direction: Direction::Start, phase: Phase::Requesting },
                seq![
                    EventView::Accepted,
                    EventView::Delivered,
                    EventView::Status(running_state()),
                    EventView::Address(ip),
                    EventView::Delivered,
                ],
            );
            &&& s.phase == Phase::Done
            &&& acts == seq![
                ActionView::Say(begin_notice(Direction::Start)),
                ActionView::Control(ControlCall::Status),
                ActionView::Control(ControlCall::Ip),
                ActionView::Say(started_notice(ip)),
                ActionView::Finish,
            ]
        }),
{
    let at = |p: Phase| Orchestration { direction: Direction::Start, phase: p };
    let es = seq![
        EventView::Accepted,
        EventView::Delivered,
        EventView::Status(running_state()),
        EventView::Address(ip),
        EventView::Delivered,
    ];
    let e1 = es.drop_first();
    let e2 = e1.drop_first();
    let e3 = e2.drop_first();
    let e4 = e3.drop_first();
    let e5 = e4.drop_first();
    assert(e5 =~= Seq::<EventView>::empty());
    assert(e4 =~= seq![EventView::Delivered]);
    assert(e3 =~= seq![EventView::Address(ip), EventView::Delivered]);
    assert(run(at(Phase::Done), e5) == (at(Phase::Done), Seq::<ActionView>::empty()));
    assert(run(at(Phase::Reporting), e4).1 =~= seq![ActionView::Finish]);
    assert(run(at(Phase::Locating), e3).1 =~= seq![
        ActionView::Say(started_notice(ip)),
        ActionView::Finish,
    ]);
    assert(run(at(Phase::Polling), e2).1 =~= seq![
        ActionView::Control(ControlCall::Ip),
        ActionView::Say(started_notice(ip)),
        ActionView::Finish,
    ]);
    assert(run(at(Phase::Announcing), e1).1 =~= seq![
        ActionView::Control(ControlCall::Status),
        ActionView::Control(ControlCall::Ip),
        ActionView::Say(started_notice(ip)),
        ActionView::Finish,
    ]);
    assert(run(at(Phase::Requesting), es).1 =~= seq![
        ActionView::Say(begin_notice(Direction::Start)),
        ActionView::Control(ControlCall::Status),
        ActionView::Control(ControlCall::Ip),
        ActionView::Say(started_notice(ip)),
        ActionView::Finish,
    ]);
}

fn begin_text(d: Direction) -> (r: String)
    ensures
        r@ == begin_notice(d),
{
    match d {
        Direction::Start => String::from_str("palworldのサーバーを起動中..."),
        Direction::Stop => String::from_str("palworldのサーバーを停止中..."),
    }
}

fn started_text(ip: &str) -> (r: String)
    ensures
        r@ == started_notice(ip@),
{
    let mut out = String::from_str("起動が完了しました。");
    out.append(ip);
    out.append(":8211");
    out
}

fn target_text(d: Direction) -> (r: &'static str)
    ensures
        r@ == target_state(d),
{
    match d {
        Direction::Start => "RUNNING",
        Direction::Stop => "TERMINATED",
    }
}

impl Orchestration {
    /// Opens an orchestration in direction `direction`: its first action is
    /// the start or stop request.
    pub fn new(direction: Direction) -> (r: (Orchestration, Action))
        ensures
            r.0 == (Orchestration { direction, phase: Phase::Requesting }),
            r.1@ == ActionView::Control(request_call(direction)),
    {
        let call = match direction {
            Direction::Start => ControlCall::Start,
            Direction::Stop => ControlCall::Stop,
        };
        (Orchestration { direction, phase: Phase::Requesting }, Action::Control(call))
    }

    /// Moves the orchestration on by the event that the last action led to,
    /// and returns the next action.
    pub fn on_event(&mut self, e: Event) -> (r: Action)
        ensures
            (*final(self), r@) == step(*old(self), e@),
    {
        let d = self.direction;
        match self.phase {
            Phase::Requesting => match e {
                Event::Accepted => {
                    self.phase = Phase::Announcing;
                    Action::Say(begin_text(d))
                },
                _ => {
                    self.phase = Phase::Failed;
                    Action::Abort
                },
            },
            Phase::Announcing => match e {
                Event::Delivered => {
                    self.phase = Phase::Polling;
                    Action::Control(ControlCall::Status)
                },
                _ => {
                    self.phase = Phase::Failed;
                    Action::Abort
                },
            },
            Phase::Polling => match e {
                Event::Status(st) => {
                    if same_text(st.as_str(), target_text(d)) {
                        match d {
                            Direction::Start => {
                                self.phase = Phase::Locating;
                                Action::Control(ControlCall::Ip)
                            },
                            Direction::Stop => {
                                self.phase = Phase::Reporting;
                                Action::Say(String::from_str("停止が完了しました。"))
                            },
                        }
                    } else {
                        self.phase = Phase::Waiting;
                        Action::Sleep(POLL_INTERVAL_SECS)
                    }
                },
                _ => {
                    self.phase = Phase::Failed;
                    Action::Abort
                },
            },
            Phase::Waiting => match e {
                Event::Slept => {
                    self.phase = Phase::Polling;
                    Action::Control(ControlCall::Status)
                },
                _ => {
                    self.phase = Phase::Failed;
                    Action::Abort
                },
            },
            Phase::Locating => match e {
                Event::Address(ip) => {
                    self.phase = Phase::Reporting;
                    Action::Say(started_text(ip.as_str()))
                },
                _ => {
                    self.phase = Phase::Failed;
                    Action::Abort
                },
            },
            Phase::Reporting => match e {
                Event::Delivered => {
                    self.phase = Phase::Done;
                    Action::Finish
                },
                _ => {
                    self.phase = Phase::Failed;
                    Action::Abort
                },
            },
            Phase::Done => Action::Finish,
            Phase::Failed => Action::Abort,
        }
    }

    /// Whether the orchestration has completed or was abandoned.
    pub fn is_over(&self) -> (r: bool)
        ensures
            r == (self.phase == Phase::Done || self.phase == Phase::Failed),
    {
        match self.phase {
            Phase::Done | Phase::Failed => true,
            _ => false,
        }
    }
}

} // verus!
