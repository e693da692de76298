//! Controller health for the status strip.

use vstd::prelude::*;

verus! {

/// Fault-confinement state of a CAN controller.
#[derive(Debug, Clone, Copy, PartialEq, Eq, Structural)]
pub enum CanControllerState {
    ErrorActive,
    ErrorWarning,
    ErrorPassive,
    BusOff,
    Stopped,
    Sleeping,
}

impl CanControllerState {
    pub open spec fn text(self) -> Seq<char> {
        match self {
            CanControllerState::ErrorActive => "error_active"@,
            CanControllerState::ErrorWarning => "error_warning"@,
            CanControllerState::ErrorPassive => "error_passive"@,
            CanControllerState::BusOff => "bus_off"@,
            CanControllerState::Stopped => "stopped"@,
            CanControllerState::Sleeping => "sleeping"@,
        }
    }

    /// Tag the frontend matches on.
    pub fn as_str(self) -> (s: &'static str)
        ensures
            s@ == self.text(),
    {
        match self {
            CanControllerState::ErrorActive => "error_active",
            CanControllerState::ErrorWarning => "error_warning",
            CanControllerState::ErrorPassive => "error_passive",
            CanControllerState::BusOff => "bus_off",
            CanControllerState::Stopped => "stopped",
            CanControllerState::Sleeping => "sleeping",
        }
    }
}

/// What a bus reports of its controller; each part where it is known.
#[derive(Debug, Clone, Copy, PartialEq, Eq, Structural)]
pub struct CanBusState {
    pub state: Option<CanControllerState>,
    pub tx_errors: Option<u16>,
    pub rx_errors: Option<u16>,
}

/// Controller health as the status strip shows it.
#[derive(Debug, Clone)]
pub struct BusHealthDto {
    /// `true` when the bus reported anything at all; `false` is unknown.
    pub supported: bool,
    /// "error_active" | "error_warning" | "error_passive" | "bus_off" |
    /// "stopped" | "sleeping", when known.
    pub state: Option<String>,
    pub tx_errors: Option<u16>,
    pub rx_errors: Option<u16>,
}

impl Default for BusHealthDto {
    fn default() -> (r: Self)
        ensures
            !r.supported,
            r.state is None,
            r.tx_errors is None,
            r.rx_errors is None,
    {
        BusHealthDto { supported: false, state: None, tx_errors: None, rx_errors: None }
    }
}

impl BusHealthDto {
    /// Health of a bus that reported `s`, or nothing.
    pub fn from_state(s: Option<CanBusState>) -> (r: Self)
        ensures
            r.supported == (s is Some),
            s is None ==> r.state is None && r.tx_errors is None && r.rx_errors is None,
            s matches Some(b) ==> {
                &&& r.tx_errors == b.tx_errors
                &&& r.rx_errors == b.rx_errors
                &&& (r.state is Some) == (b.state is Some)
                &&& b.state matches Some(st) ==> r.state->Some_0@ == st.text()
            },
    {
        match s {
            None => BusHealthDto::default(),
            Some(b) => BusHealthDto {
                supported: true,
                state: match b.state {
                    Some(st) => Some(st.as_str().to_string()),
                    None => None,
                },
                tx_errors: b.tx_errors,
                rx_errors: b.rx_errors,
            },
        }
    }
}

} // verus!
