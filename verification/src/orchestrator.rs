use vstd::prelude::*;
use crate::device::{Device, TestData};
use crate::poller::{spec_accept_poll, spec_suppressed};
use crate::states::State;

verus! {

/// Events the orchestrator reacts to: status reports from the poller and
/// commands from the operator.
#[derive(Clone, Copy, Debug, PartialEq, Eq, Structural)]
pub enum Msg {
    NoOp,
    CheckServerUp,
    ShowDevices,
    UpdateChosenDevice(Device),
    UpdateStringPot(bool),
    StartTest,
    DownloadFile(Device),
    UpdateStatus(State),
}

/// An outbound request the orchestrator asks its transport to perform.
/// The orchestrator itself performs no I/O: each step yields at most one
/// of these, and the caller feeds the outcome back as a `Msg`.
#[derive(Clone, Copy, Debug, PartialEq, Eq, Structural)]
pub enum Action {
    /// Ask the controller whether it is up (the periodic health poll).
    HealthPoll,
    /// Submit the pending test configuration to start a test.
    SendTest(TestData),
    /// Poll the dedicated result endpoint for a terminal status.
    PollResult,
    /// Fetch the result file named by the device's short code.
    FetchFile(Device),
}

/// The test-orchestration state machine: current lifecycle state, pending
/// test configuration, and the flags the renderer displays. All mutation
/// goes through `update`; the renderer only reads snapshots.
#[derive(Clone, Copy, Debug, PartialEq, Eq, Structural)]
pub struct App {
    pub chosen_dev: Device,
    pub show_devices: bool,
    pub bst_chosen: bool,
    pub use_str_pot: bool,
    pub test_data: TestData,
    pub state: State,
    pub finished: bool,
}

impl App {
    /// Well-formedness: the derived flags agree with the data they are
    /// derived from — `bst_chosen` mirrors the selection, the pending request
    /// mirrors the selection and the option flag, the option is only set for
    /// the brake signal transmitter, and `finished` (download availability)
    /// holds exactly in the terminal states.
    pub open spec fn wf(self) -> bool {
        &&& self.bst_chosen <==> self.chosen_dev is BST
        &&& self.test_data.device == self.chosen_dev
        &&& self.test_data.check == self.use_str_pot
        &&& self.use_str_pot ==> self.chosen_dev is BST
        &&& self.finished <==> (self.state is Pass || self.state is Fail)
    }

    /// The orchestrator at session start: nothing selected, option off,
    /// assumed offline until the first poll says otherwise.
    pub open spec fn spec_init() -> App {
        App {
            chosen_dev: Device::NoDevice,
            show_devices: false,
            bst_chosen: false,
            use_str_pot: false,
            test_data: TestData { device: Device::NoDevice, check: false },
            state: State::Offline,
            finished: false,
        }
    }

    /// Create the orchestrator in its session-start configuration.
    pub fn new() -> (app: App)
        ensures
            app == App::spec_init(),
    {
        App {
            chosen_dev: Device::NoDevice,
            show_devices: false,
            bst_chosen: false,
            use_str_pot: false,
            test_data: TestData { device: Device::NoDevice, check: false },
            state: State::Offline,
            finished: false,
        }
    }

    /// The state-changing request the orchestrator issues for the current
    /// state: from `Online`, submit the pending test — unless no device is
    /// selected, which is rejected locally; from `InProgress`, poll the
    /// result endpoint; from any other state, nothing.
    pub open spec fn spec_test_action(self) -> Option<Action> {
        if self.state is Online {
            if self.chosen_dev is NoDevice {
                None
            } else {
                Some(Action::SendTest(self.test_data))
            }
        } else if self.state is InProgress {
            Some(Action::PollResult)
        } else {
            None
        }
    }

    /// The request to issue for the current state, if any.
    pub fn test_action(&self) -> (r: Option<Action>)
        ensures
            r == self.spec_test_action(),
    {
        match self.state {
            State::Online => {
                if self.chosen_dev == Device::NoDevice {
                    None
                } else {
                    Some(Action::SendTest(self.test_data))
                }
            },
            State::InProgress => Some(Action::PollResult),
            _ => None,
        }
    }

    /// The orchestrator after one event. Only `UpdateStatus` moves the
    /// lifecycle state, and it adopts the reported status verbatim: the
    /// controller is the single source of truth, and the panel never invents
    /// progress locally.
    pub open spec fn spec_step(pre: App, msg: Msg) -> App {
        match msg {
            Msg::NoOp => pre,
            Msg::CheckServerUp => pre,
            Msg::ShowDevices => App { show_devices: !pre.show_devices, ..pre },
            Msg::UpdateChosenDevice(d) => App {
                chosen_dev: d,
                bst_chosen: d is BST,
                use_str_pot: if d is BST {
                    pre.use_str_pot
                } else {
                    false
                },
                test_data: TestData {
                    device: d,
                    check: if d is BST {
                        pre.test_data.check
                    } else {
                        false
                    },
                },
                ..pre
            },
            Msg::UpdateStringPot(b) => if pre.chosen_dev is BST {
                App {
                    use_str_pot: b,
                    test_data: TestData { device: pre.test_data.device, check: b },
                    ..pre
                }
            } else {
                pre
            },
            Msg::StartTest => pre,
            Msg::DownloadFile(_) => pre,
            Msg::UpdateStatus(s) => App {
                state: s,
                finished: s is Pass || s is Fail,
                ..pre
            },
        }
    }

    /// Whether the event calls for a re-render.
    pub open spec fn spec_step_render(msg: Msg) -> bool {
        match msg {
            Msg::NoOp => false,
            Msg::CheckServerUp => false,
            Msg::ShowDevices => true,
            Msg::UpdateChosenDevice(_) => true,
            Msg::UpdateStringPot(_) => true,
            Msg::StartTest => false,
            Msg::DownloadFile(_) => false,
            Msg::UpdateStatus(_) => true,
        }
    }

    /// The outbound request one event produces, if any: a health poll per
    /// tick — withheld while the orchestrator is already waiting on a result
    /// fetch, so that at most one request per kind is outstanding; the test
    /// submission when — and only when — a test is started from `Online`
    /// with a device selected; a result poll when the controller reports
    /// `InProgress`; a file fetch when results are downloadable and a real
    /// device is named.
    pub open spec fn spec_step_action(pre: App, msg: Msg) -> Option<Action> {
        match msg {
            Msg::CheckServerUp => if pre.state is InProgress {
                None
            } else {
                Some(Action::HealthPoll)
            },
            Msg::StartTest => if pre.state is Online {
                pre.spec_test_action()
            } else {
                None
            },
            Msg::UpdateStatus(s) => if s is InProgress {
                Some(Action::PollResult)
            } else {
                None
            },
            Msg::DownloadFile(d) => if pre.finished && !(d is NoDevice) {
                Some(Action::FetchFile(d))
            } else {
                None
            },
            _ => None,
        }
    }

    /// Process one event: mutate the orchestrator as `spec_step` says and
    /// return whether to re-render together with the outbound request to
    /// perform, if any.
    pub fn update(&mut self, msg: Msg) -> (r: (bool, Option<Action>))
        ensures
            *final(self) == App::spec_step(*old(self), msg),
            r.0 == App::spec_step_render(msg),
            r.1 == App::spec_step_action(*old(self), msg),
    {
        match msg {
            Msg::NoOp => (false, None),
            Msg::CheckServerUp => {
                let act = if self.state == State::InProgress {
                    None
                } else {
                    Some(Action::HealthPoll)
                };
                (false, act)
            },
            Msg::ShowDevices => {
                self.show_devices = !self.show_devices;
                (true, None)
            },
            Msg::UpdateChosenDevice(device) => {
                self.chosen_dev = device;
                self.test_data.device = device;
                if device == Device::BST {
                    self.bst_chosen = true;
                } else {
                    self.bst_chosen = false;
                    self.use_str_pot = false;
                    self.test_data.check = false;
                }
                (true, None)
            },
            Msg::UpdateStringPot(check) => {
                if self.chosen_dev == Device::BST {
                    self.use_str_pot = check;
                    self.test_data.check = check;
                }
                (true, None)
            },
            Msg::StartTest => {
                let act = if self.state == State::Online {
                    self.test_action()
                } else {
                    None
                };
                (false, act)
            },
            Msg::DownloadFile(dev) => {
                let act = if self.finished && dev != Device::NoDevice {
                    Some(Action::FetchFile(dev))
                } else {
                    None
                };
                (false, act)
            },
            Msg::UpdateStatus(s) => {
                self.state = s;
                self.finished = s == State::Pass || s == State::Fail;
                let act = if self.state == State::InProgress {
                    self.test_action()
                } else {
                    None
                };
                (true, act)
            },
        }
    }

    /// The state adopted from a start-test exchange: the decoded reply code,
    /// or `EUnknown` when transport failed or the body could not be read —
    /// such a failure is surfaced, not retried.
    pub open spec fn spec_start_response_state(resp: Option<i32>) -> State {
        match resp {
            Some(c) => State::spec_from_code(c as int),
            None => State::EUnknown,
        }
    }

    /// Normalize the outcome of the start-test request into a lifecycle state.
    pub fn start_response_state(resp: Option<i32>) -> (s: State)
        ensures
            s == App::spec_start_response_state(resp),
    {
        match resp {
            Some(c) => State::from_code(c),
            None => State::EUnknown,
        }
    }

    /// The state adopted from one result poll: `InProgress` remains, a
    /// terminal or controller-error state surfaces verbatim, and a failed
    /// exchange — or a reply that is no test result at all (`Offline`,
    /// `Online`) — is `EUnknown`.
    pub open spec fn spec_result_response_state(resp: Option<i32>) -> State {
        match resp {
            Some(c) => {
                let s = State::spec_from_code(c as int);
                if s is Offline || s is Online {
                    State::EUnknown
                } else {
                    s
                }
            },
            None => State::EUnknown,
        }
    }

    /// Normalize the outcome of one result poll into a lifecycle state.
    pub fn result_response_state(resp: Option<i32>) -> (s: State)
        ensures
            s == App::spec_result_response_state(resp),
    {
        match resp {
            Some(c) => {
                let s = State::from_code(c);
                if s == State::Offline || s == State::Online {
                    State::EUnknown
                } else {
                    s
                }
            },
            None => State::EUnknown,
        }
    }
}

/// Law: the session-start configuration is well-formed.
pub proof fn lemma_init_wf()
    ensures
        App::spec_init().wf(),
{
}

/// Law: every event preserves well-formedness; in particular the pending
/// request's option flag can only be set while the brake signal transmitter
/// is selected, and download availability tracks the terminal states.
pub proof fn lemma_step_preserves_wf(pre: App, msg: Msg)
    requires
        pre.wf(),
    ensures
        App::spec_step(pre, msg).wf(),
{
}

/// Law: while the orchestrator is waiting on a result fetch (`InProgress`),
/// a poll tick issues no health request — the result poll is the only
/// request outstanding; in every other state a tick issues exactly one.
pub proof fn lemma_no_health_poll_while_awaiting_result(pre: App)
    ensures
        pre.state is InProgress ==> App::spec_step_action(pre, Msg::CheckServerUp) is None,
        !(pre.state is InProgress) ==> App::spec_step_action(pre, Msg::CheckServerUp)
            == Some(Action::HealthPoll),
        App::spec_step(pre, Msg::CheckServerUp) == pre,
{
}

/// Law: a start-test command issued in any state other than `Online` neither
/// changes the orchestrator nor produces an outbound request.
pub proof fn lemma_start_test_blocked(pre: App)
    requires
        !(pre.state is Online),
    ensures
        App::spec_step(pre, Msg::StartTest) == pre,
        App::spec_step_action(pre, Msg::StartTest) is None,
{
}

/// Law: selecting any device other than the brake signal transmitter forces
/// the string-potentiometer option off — in the flag and in the pending
/// request — and doing so is idempotent: selecting the same device again
/// changes nothing further.
pub proof fn lemma_select_device_clears_option(pre: App, d: Device)
    requires
        !(d is BST),
    ensures
        App::spec_step(pre, Msg::UpdateChosenDevice(d)).use_str_pot == false,
        App::spec_step(pre, Msg::UpdateChosenDevice(d)).test_data.check == false,
        App::spec_step(App::spec_step(pre, Msg::UpdateChosenDevice(d)), Msg::UpdateChosenDevice(d))
            == App::spec_step(pre, Msg::UpdateChosenDevice(d)),
{
}

/// The orchestrator after a whole sequence of poll results, each first put
/// through suppression and, when forwarded, applied as a status event.
pub open spec fn spec_run_polls(app: App, polls: Seq<State>) -> App
    decreases polls.len(),
{
    if polls.len() == 0 {
        app
    } else {
        let prev = spec_run_polls(app, polls.drop_last());
        match spec_accept_poll(prev.state, polls.last()) {
            Some(s) => App::spec_step(prev, Msg::UpdateStatus(s)),
            None => prev,
        }
    }
}

/// The subsequence of poll results that were actually forwarded (accepted)
/// while running `spec_run_polls` on the same inputs.
pub open spec fn spec_accepted_polls(app: App, polls: Seq<State>) -> Seq<State>
    decreases polls.len(),
{
    if polls.len() == 0 {
        Seq::empty()
    } else {
        let prev = spec_run_polls(app, polls.drop_last());
        if spec_suppressed(prev.state, polls.last()) {
            spec_accepted_polls(app, polls.drop_last())
        } else {
            spec_accepted_polls(app, polls.drop_last()).push(polls.last())
        }
    }
}

/// Law: after any sequence of poll results, the orchestrator's state equals
/// the most recently accepted (non-suppressed) observation — or the starting
/// state when every observation was suppressed. The state is never locally
/// fabricated.
pub proof fn lemma_state_tracks_accepted_polls(app: App, polls: Seq<State>)
    ensures
        ({
            let accepted = spec_accepted_polls(app, polls);
            let end = spec_run_polls(app, polls);
            if accepted.len() == 0 {
                end.state == app.state
            } else {
                end.state == accepted.last()
            }
        }),
    decreases polls.len(),
{
    if polls.len() > 0 {
        lemma_state_tracks_accepted_polls(app, polls.drop_last());
    }
}

} // verus!
