//! The stages of the mission that the relay steps through, as values and as
//! types.

use std::marker::PhantomData;

use vstd::prelude::*;

verus! {

/// The stage of the mission.
#[derive(Clone, Copy, Debug, Hash, PartialEq, Eq, Structural, PartialOrd, Ord)]
pub enum StateVal {
    FlightIdle,
    PingCentralStation,
    StartBLE,
    AwaitRoverStationary,
    CalibrateIMU,
    AntRun,
}

/// Closes [`State`] to the stages declared here.
pub trait Sealed {

}

/// A stage of the mission, as a type.
pub trait State: Sealed {
    spec fn spec_value() -> StateVal;

    fn value() -> (r: StateVal)
        ensures
            r == Self::spec_value(),
    ;
}

#[derive(Debug, Copy, Clone, Hash, PartialEq, Eq, PartialOrd, Ord)]
pub struct FlightIdle;

#[derive(Debug, Copy, Clone, Hash, PartialEq, Eq, PartialOrd, Ord)]
pub struct PingCentralStation;

#[derive(Debug, Copy, Clone, Hash, PartialEq, Eq, PartialOrd, Ord)]
pub struct StartBLE;

#[derive(Debug, Copy, Clone, Hash, PartialEq, Eq, PartialOrd, Ord)]
pub struct AwaitRoverStationary;

#[derive(Debug, Copy, Clone, Hash, PartialEq, Eq, PartialOrd, Ord)]
pub struct CalibrateIMU;

#[derive(Debug, Copy, Clone, Hash, PartialEq, Eq, PartialOrd, Ord)]
pub struct AntRun;

impl Sealed for FlightIdle {

}

impl Sealed for PingCentralStation {

}

impl Sealed for StartBLE {

}

impl Sealed for AwaitRoverStationary {

}

impl Sealed for CalibrateIMU {

}

impl Sealed for AntRun {

}

impl State for FlightIdle {
    open spec fn spec_value() -> StateVal {
        StateVal::FlightIdle
    }

    fn value() -> (r: StateVal) {
        StateVal::FlightIdle
    }
}

impl State for PingCentralStation {
    open spec fn spec_value() -> StateVal {
        StateVal::PingCentralStation
    }

    fn value() -> (r: StateVal) {
        StateVal::PingCentralStation
    }
}

impl State for StartBLE {
    open spec fn spec_value() -> StateVal {
        StateVal::StartBLE
    }

    fn value() -> (r: StateVal) {
        StateVal::StartBLE
    }
}

impl State for AwaitRoverStationary {
    open spec fn spec_value() -> StateVal {
        StateVal::AwaitRoverStationary
    }

    fn value() -> (r: StateVal) {
        StateVal::AwaitRoverStationary
    }
}

impl State for CalibrateIMU {
    open spec fn spec_value() -> StateVal {
        StateVal::CalibrateIMU
    }

    fn value() -> (r: StateVal) {
        StateVal::CalibrateIMU
    }
}

impl State for AntRun {
    open spec fn spec_value() -> StateVal {
        StateVal::AntRun
    }

    fn value() -> (r: StateVal) {
        StateVal::AntRun
    }
}

/// The relay's control, in the stage `S`. Its stage value always names `S`.
#[derive(Debug)]
pub struct Control<S: State> {
    discriminator: StateVal,
    state: (),
    _marker: PhantomData<S>,
}

impl<S: State> Control<S> {
    #[verifier::type_invariant]
    spec fn wf(self) -> bool {
        self.discriminator == S::spec_value()
    }

    pub closed spec fn spec_discriminator(self) -> StateVal {
        self.discriminator
    }

    /// The control in stage `S`, holding nothing but its stage.
    pub closed spec fn spec_at_stage() -> Self {
        Control { discriminator: S::spec_value(), state: (), _marker: PhantomData }
    }

    /// The stage, as a value.
    pub fn discriminator(&self) -> (r: StateVal)
        ensures
            r == S::spec_value(),
            r == self.spec_discriminator(),
    {
        proof {
            use_type_invariant(self);
        }
        self.discriminator
    }

    fn enter() -> (r: Self)
        ensures
            r.spec_discriminator() == S::spec_value(),
            r == Self::spec_at_stage(),
    {
        Control { discriminator: S::value(), state: (), _marker: PhantomData }
    }
}

impl Control<FlightIdle> {
    /// The control at the start of the mission.
    pub fn new() -> (r: Self)
        ensures
            r.spec_discriminator() == StateVal::FlightIdle,
            r == Self::spec_at_stage(),
    {
        Control { discriminator: StateVal::FlightIdle, state: (), _marker: PhantomData }
    }

    /// The same control as [`Control::new`].
    pub fn default() -> (r: Self)
        ensures
            r.spec_discriminator() == StateVal::FlightIdle,
            r == Self::spec_at_stage(),
    {
        Self::new()
    }

    /// The ant has been powered: ping the central station next.
    pub fn voltage_supplied(self) -> (r: Control<PingCentralStation>)
        ensures
            r.spec_discriminator() == StateVal::PingCentralStation,
            r == Control::<PingCentralStation>::spec_at_stage(),
    {
        Control::enter()
    }
}

impl Control<PingCentralStation> {
    /// The garage is about to open: start the radio link next.
    pub fn garage_pending(self) -> (r: Control<StartBLE>)
        ensures
            r.spec_discriminator() == StateVal::StartBLE,
            r == Control::<StartBLE>::spec_at_stage(),
    {
        Control::enter()
    }
}

impl Control<StartBLE> {
    /// The radio link is up: wait for the rover to stand still.
    pub fn ble_started(self) -> (r: Control<AwaitRoverStationary>)
        ensures
            r.spec_discriminator() == StateVal::AwaitRoverStationary,
            r == Control::<AwaitRoverStationary>::spec_at_stage(),
    {
        Control::enter()
    }
}

impl Control<AwaitRoverStationary> {
    /// The rover stopped: calibrate the inertial unit.
    pub fn rover_stopped(self) -> (r: Control<CalibrateIMU>)
        ensures
            r.spec_discriminator() == StateVal::CalibrateIMU,
            r == Control::<CalibrateIMU>::spec_at_stage(),
    {
        Control::enter()
    }
}

impl Control<CalibrateIMU> {
    /// Calibration finished: run the ant.
    pub fn calibration_complete(self) -> (r: Control<AntRun>)
        ensures
            r.spec_discriminator() == StateVal::AntRun,
            r == Control::<AntRun>::spec_at_stage(),
    {
        Control::enter()
    }
}

impl Control<AntRun> {
    /// The rover moves again: wait for it to stand still.
    pub fn rover_moving(self) -> (r: Control<AwaitRoverStationary>)
        ensures
            r.spec_discriminator() == StateVal::AwaitRoverStationary,
            r == Control::<AwaitRoverStationary>::spec_at_stage(),
    {
        Control::enter()
    }
}

} // verus!
