//! The relay's serial control: the mission state machine that decides, on
//! each uplink message and each command outcome, which stage comes next and
//! which command goes to the central station.

use vstd::prelude::*;

use super::control::StateVal;
use crate::message::header::Conversation;

verus! {

/// What the serial control reacts to.
#[derive(Clone, Copy, Debug, PartialEq, Eq, Structural)]
pub enum Event {
    /// An uplink message of the given conversation arrived.
    Uplink(Conversation),
    /// The uplink stream ended.
    UplinkClosed,
    /// The command in flight finished: acknowledged as valid (`true`), or
    /// failed after its retries (`false`).
    CommandDone(bool),
    /// A ping of the central station and the wait that follows it are over.
    PingCycleDone,
}

/// What the driver does next.
#[derive(Clone, Copy, Debug, PartialEq, Eq, Structural)]
pub enum Action {
    /// Nothing: wait for the next event.
    Wait,
    /// Forward the uplink message just received to the central station.
    ForwardUplink,
    /// Send a command of the given conversation to the central station.
    SendCommand(Conversation),
    /// Ping the central station, then wait before the next ping.
    PingCycle,
}

/// The serial control: the mission stage, and whether an uplink message is
/// being forwarded while the mission is idle.
#[derive(Clone, Copy, Debug, PartialEq, Eq, Structural)]
pub struct SerialControl {
    pub state: StateVal,
    pub forwarding: bool,
}

/// The outcome of one event: the next control, the action to perform, and
/// whether the stage failed (the failure is reported and the stage starts over).
#[derive(Clone, Copy, Debug, PartialEq, Eq, Structural)]
pub struct Step {
    pub next: SerialControl,
    pub action: Action,
    pub failed: bool,
}

/// The action that starts a stage.
pub open spec fn spec_entry_action(s: StateVal) -> Action {
    match s {
        StateVal::FlightIdle => Action::Wait,
        StateVal::PingCentralStation => Action::PingCycle,
        StateVal::StartBLE => Action::SendCommand(Conversation::Start),
        StateVal::AwaitRoverStationary => Action::Wait,
        StateVal::CalibrateIMU => Action::SendCommand(Conversation::Calibrate),
        StateVal::AntRun => Action::Wait,
    }
}

/// Whether the control reads uplink messages in its current stage.
pub open spec fn spec_listening(c: SerialControl) -> bool {
    match c.state {
        StateVal::FlightIdle => !c.forwarding,
        StateVal::StartBLE => false,
        _ => true,
    }
}

/// Entering a stage afresh.
pub open spec fn spec_enter(s: StateVal, failed: bool) -> Step {
    Step { next: SerialControl { state: s, forwarding: false }, action: spec_entry_action(s), failed }
}

/// The event leaves the control as it is.
pub open spec fn spec_stay(c: SerialControl) -> Step {
    Step { next: c, action: Action::Wait, failed: false }
}

/// The reaction of the control to an event.
pub open spec fn spec_step(c: SerialControl, e: Event) -> Step {
    match c.state {
        StateVal::FlightIdle => if !c.forwarding {
            match e {
                Event::Uplink(Conversation::PowerSupplied) => Step {
                    next: SerialControl { state: StateVal::FlightIdle, forwarding: true },
                    action: Action::ForwardUplink,
                    failed: false,
                },
                Event::UplinkClosed => spec_enter(StateVal::FlightIdle, true),
                _ => spec_stay(c),
            }
        } else {
            match e {
                Event::CommandDone(true) => spec_enter(StateVal::PingCentralStation, false),
                Event::CommandDone(false) => spec_enter(StateVal::FlightIdle, true),
                _ => spec_stay(c),
            }
        },
        StateVal::PingCentralStation => match e {
            Event::Uplink(Conversation::GarageOpenPending) => spec_enter(StateVal::StartBLE, false),
            Event::PingCycleDone => Step { next: c, action: Action::PingCycle, failed: false },
            Event::UplinkClosed => spec_enter(StateVal::PingCentralStation, true),
            _ => spec_stay(c),
        },
        StateVal::StartBLE => match e {
            Event::CommandDone(true) => spec_enter(StateVal::AwaitRoverStationary, false),
            Event::CommandDone(false) => spec_enter(StateVal::StartBLE, true),
            _ => spec_stay(c),
        },
        StateVal::AwaitRoverStationary => match e {
            Event::Uplink(Conversation::RoverStopping) => spec_enter(StateVal::CalibrateIMU, false),
            Event::UplinkClosed => spec_enter(StateVal::AwaitRoverStationary, true),
            _ => spec_stay(c),
        },
        StateVal::CalibrateIMU => match e {
            Event::Uplink(Conversation::RoverMoving) => spec_enter(
                StateVal::AwaitRoverStationary,
                false,
            ),
            Event::CommandDone(true) => spec_enter(StateVal::AntRun, false),
            Event::CommandDone(false) => spec_enter(StateVal::CalibrateIMU, true),
            Event::UplinkClosed => spec_enter(StateVal::CalibrateIMU, true),
            _ => spec_stay(c),
        },
        StateVal::AntRun => match e {
            Event::Uplink(Conversation::RoverMoving) => spec_enter(
                StateVal::AwaitRoverStationary,
                false,
            ),
            Event::UplinkClosed => spec_enter(StateVal::AntRun, true),
            _ => spec_stay(c),
        },
    }
}

fn entry_action(s: StateVal) -> (r: Action)
    ensures
        r == spec_entry_action(s),
{
    match s {
        StateVal::FlightIdle => Action::Wait,
        StateVal::PingCentralStation => Action::PingCycle,
        StateVal::StartBLE => Action::SendCommand(Conversation::Start),
        StateVal::AwaitRoverStationary => Action::Wait,
        StateVal::CalibrateIMU => Action::SendCommand(Conversation::Calibrate),
        StateVal::AntRun => Action::Wait,
    }
}

fn enter(s: StateVal, failed: bool) -> (r: Step)
    ensures
        r == spec_enter(s, failed),
{
    Step { next: SerialControl { state: s, forwarding: false }, action: entry_action(s), failed }
}

impl SerialControl {
    /// The control at the given stage, with the action that starts it.
    pub fn start(state: StateVal) -> (r: Step)
        ensures
            r == spec_enter(state, false),
    {
        enter(state, false)
    }

    /// Whether the control reads uplink messages now; while it does not, the
    /// driver holds them back.
    pub fn listening(&self) -> (r: bool)
        ensures
            r == spec_listening(*self),
    {
        match self.state {
            StateVal::FlightIdle => !self.forwarding,
            StateVal::StartBLE => false,
            _ => true,
        }
    }

    /// Reacts to an event.
    pub fn step(&self, e: Event) -> (r: Step)
        ensures
            r == spec_step(*self, e),
    {
        let stay = Step { next: *self, action: Action::Wait, failed: false };
        match self.state {
            StateVal::FlightIdle => if !self.forwarding {
                match e {
                    Event::Uplink(Conversation::PowerSupplied) => Step {
                        next: SerialControl { state: StateVal::FlightIdle, forwarding: true },
                        action: Action::ForwardUplink,
                        failed: false,
                    },
                    Event::UplinkClosed => enter(StateVal::FlightIdle, true),
                    _ => stay,
                }
            } else {
                match e {
                    Event::CommandDone(true) => enter(StateVal::PingCentralStation, false),
                    Event::CommandDone(false) => enter(StateVal::FlightIdle, true),
                    _ => stay,
                }
            },
            StateVal::PingCentralStation => match e {
                Event::Uplink(Conversation::GarageOpenPending) => enter(StateVal::StartBLE, false),
                Event::PingCycleDone => Step { next: *self, action: Action::PingCycle, failed: false },
                Event::UplinkClosed => enter(StateVal::PingCentralStation, true),
                _ => stay,
            },
            StateVal::StartBLE => match e {
                Event::CommandDone(true) => enter(StateVal::AwaitRoverStationary, false),
                Event::CommandDone(false) => enter(StateVal::StartBLE, true),
                _ => stay,
            },
            StateVal::AwaitRoverStationary => match e {
                Event::Uplink(Conversation::RoverStopping) => enter(StateVal::CalibrateIMU, false),
                Event::UplinkClosed => enter(StateVal::AwaitRoverStationary, true),
                _ => stay,
            },
            StateVal::CalibrateIMU => match e {
                Event::Uplink(Conversation::RoverMoving) => enter(
                    StateVal::AwaitRoverStationary,
                    false,
                ),
                Event::CommandDone(true) => enter(StateVal::AntRun, false),
                Event::CommandDone(false) => enter(StateVal::CalibrateIMU, true),
                Event::UplinkClosed => enter(StateVal::CalibrateIMU, true),
                _ => stay,
            },
            StateVal::AntRun => match e {
                Event::Uplink(Conversation::RoverMoving) => enter(
                    StateVal::AwaitRoverStationary,
                    false,
                ),
                Event::UplinkClosed => enter(StateVal::AntRun, true),
                _ => stay,
            },
        }
    }
}

/// The stage transitions of the mission: power supplied, garage opening,
/// radio link started, rover stopped, calibration done, rover moving (during
/// the run or during calibration).
pub open spec fn spec_mission_edge(from: StateVal, to: StateVal) -> bool {
    ||| from == StateVal::FlightIdle && to == StateVal::PingCentralStation
    ||| from == StateVal::PingCentralStation && to == StateVal::StartBLE
    ||| from == StateVal::StartBLE && to == StateVal::AwaitRoverStationary
    ||| from == StateVal::AwaitRoverStationary && to == StateVal::CalibrateIMU
    ||| from == StateVal::CalibrateIMU && to == StateVal::AntRun
    ||| from == StateVal::CalibrateIMU && to == StateVal::AwaitRoverStationary
    ||| from == StateVal::AntRun && to == StateVal::AwaitRoverStationary
}

/// How far the mission has come: idle, pinging, starting the link, and
/// the rover cycle.
pub open spec fn spec_progress(s: StateVal) -> nat {
    match s {
        StateVal::FlightIdle => 0,
        StateVal::PingCentralStation => 1,
        StateVal::StartBLE => 2,
        _ => 3,
    }
}

/// Every reaction either keeps the stage or follows a mission transition.
pub proof fn lemma_step_follows_mission(c: SerialControl, e: Event)
    ensures
        spec_step(c, e).next.state == c.state || spec_mission_edge(c.state, spec_step(c, e).next.state),
{
}

/// The mission never goes back: once the radio link is started, the control
/// never returns to idle, pinging or starting the link again.
pub proof fn lemma_progress_monotone(c: SerialControl, e: Event)
    ensures
        spec_progress(c.state) <= spec_progress(spec_step(c, e).next.state),
{
}

/// The radio link is started only after the garage reported that it opens,
/// and calibration only after the rover reported that it stopped.
pub proof fn lemma_commands_follow_reports(c: SerialControl, e: Event)
    ensures
        spec_step(c, e).next.state == StateVal::StartBLE && c.state != StateVal::StartBLE ==> e
            == Event::Uplink(Conversation::GarageOpenPending),
        spec_step(c, e).next.state == StateVal::CalibrateIMU && c.state != StateVal::CalibrateIMU
            ==> e == Event::Uplink(Conversation::RoverStopping),
        spec_step(c, e).next.state == StateVal::PingCentralStation && c.state
            == StateVal::FlightIdle ==> c.forwarding && e == Event::CommandDone(true),
{
}

/// Every command sent goes with the stage that it serves: the link start in
/// its stage, calibration in its stage; an uplink message is forwarded only
/// while idle, for the power report.
pub proof fn lemma_actions_match_stage(c: SerialControl, e: Event)
    ensures
        spec_step(c, e).action == Action::SendCommand(Conversation::Start) ==> spec_step(
            c,
            e,
        ).next.state == StateVal::StartBLE,
        spec_step(c, e).action == Action::SendCommand(Conversation::Calibrate) ==> spec_step(
            c,
            e,
        ).next.state == StateVal::CalibrateIMU,
        spec_step(c, e).action is SendCommand ==> spec_step(c, e).action == Action::SendCommand(
            Conversation::Start,
        ) || spec_step(c, e).action == Action::SendCommand(Conversation::Calibrate),
        spec_step(c, e).action == Action::ForwardUplink ==> c.state == StateVal::FlightIdle
            && e == Event::Uplink(Conversation::PowerSupplied) && spec_step(c, e).next.forwarding,
        spec_step(c, e).action == Action::PingCycle ==> spec_step(c, e).next.state
            == StateVal::PingCentralStation,
{
}

/// A failed stage starts over in the same stage.
pub proof fn lemma_failure_restarts_stage(c: SerialControl, e: Event)
    ensures
        spec_step(c, e).failed ==> spec_step(c, e) == spec_enter(c.state, true),
{
}

/// The order of the stages along the mission: idle, pinging, starting the
/// link, waiting for the rover, calibrating, running the ant.
pub open spec fn spec_stage_order(s: StateVal) -> nat {
    match s {
        StateVal::FlightIdle => 0,
        StateVal::PingCentralStation => 1,
        StateVal::StartBLE => 2,
        StateVal::AwaitRoverStationary => 3,
        StateVal::CalibrateIMU => 4,
        StateVal::AntRun => 5,
    }
}

/// The control waits for the outcome of a command it sent: the forwarded
/// power report, the link start, or the calibration.
pub open spec fn spec_command_in_flight(c: SerialControl) -> bool {
    ||| c.state == StateVal::FlightIdle && c.forwarding
    ||| c.state == StateVal::StartBLE
    ||| c.state == StateVal::CalibrateIMU
}

/// A command acknowledged as valid completes the stage that sent it: the
/// mission moves on, without failure, along a mission transition to the
/// stage that comes right after it.
pub proof fn lemma_acknowledged_command_advances(c: SerialControl)
    requires
        spec_command_in_flight(c),
    ensures
        !spec_step(c, Event::CommandDone(true)).failed,
        spec_mission_edge(c.state, spec_step(c, Event::CommandDone(true)).next.state),
        spec_stage_order(spec_step(c, Event::CommandDone(true)).next.state) == spec_stage_order(
            c.state,
        ) + 1,
{
}

/// The control reads uplink messages exactly in the stages where some uplink
/// message changes what it does: no message it reacts to is ever held back,
/// and none is read where it would be ignored.
pub proof fn lemma_listening_iff_uplink_matters(c: SerialControl)
    ensures
        spec_listening(c) <==> exists|k: Conversation| #[trigger] spec_step(c, Event::Uplink(k)) != spec_stay(c),
{
    if spec_listening(c) {
        let k = match c.state {
            StateVal::FlightIdle => Conversation::PowerSupplied,
            StateVal::PingCentralStation => Conversation::GarageOpenPending,
            StateVal::AwaitRoverStationary => Conversation::RoverStopping,
            _ => Conversation::RoverMoving,
        };
        assert(spec_step(c, Event::Uplink(k)) != spec_stay(c));
    }
}

/// Every uplink message that moves the mission to another stage is read.
pub proof fn lemma_stage_changing_uplink_is_read(c: SerialControl, k: Conversation)
    ensures
        spec_step(c, Event::Uplink(k)).next.state != c.state ==> spec_listening(c),
{
}

} // verus!
