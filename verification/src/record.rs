//! Vehicle records and the diagnostic readings they accumulate.

use vstd::prelude::*;
use crate::account::AccountId;

verus! {

/// The kind of diagnostic command a log entry reports.
#[derive(Clone, Copy, Debug, PartialEq, Eq, Structural)]
pub enum CarCommand {
    EngineLoad,
    ThrottlePosition,
    DistanceWithMil,
}

impl CarCommand {
    /// The unit in which readings of this command are expressed.
    pub open spec fn unit(self) -> Seq<char> {
        match self {
            CarCommand::EngineLoad => "percent"@,
            CarCommand::ThrottlePosition => "percent"@,
            CarCommand::DistanceWithMil => "km"@,
        }
    }

    /// The display title of this command.
    pub open spec fn title(self) -> Seq<char> {
        match self {
            CarCommand::EngineLoad => "Engine Load"@,
            CarCommand::ThrottlePosition => "Throttle Position"@,
            CarCommand::DistanceWithMil => "Distance with MIL"@,
        }
    }

    pub fn _get_unit(&self) -> (r: &str)
        ensures
            r@ == self.unit(),
    {
        match self {
            CarCommand::EngineLoad => "percent",
            CarCommand::ThrottlePosition => "percent",
            CarCommand::DistanceWithMil => "km",
        }
    }

    pub fn _get_title(&self) -> (r: &str)
        ensures
            r@ == self.title(),
    {
        match self {
            CarCommand::EngineLoad => "Engine Load",
            CarCommand::ThrottlePosition => "Throttle Position",
            CarCommand::DistanceWithMil => "Distance with MIL",
        }
    }
}

/// One diagnostic observation.
///
/// The reading is kept as text and is not validated when it is written; what it
/// counts for is decided when the log is aggregated.
#[derive(Debug, PartialEq)]
pub struct Log {
    pub command: CarCommand,
    pub value: String,
    pub desc: String,
    pub command_code: String,
    pub ecu: u8,
    pub timestamp: u64,
}

/// What a [`Log`] holds, as mathematical values.
pub struct LogView {
    pub command: CarCommand,
    pub value: Seq<char>,
    pub desc: Seq<char>,
    pub command_code: Seq<char>,
    pub ecu: u8,
    pub timestamp: u64,
}

impl View for Log {
    type V = LogView;

    open spec fn view(&self) -> LogView {
        LogView {
            command: self.command,
            value: self.value@,
            desc: self.desc@,
            command_code: self.command_code@,
            ecu: self.ecu,
            timestamp: self.timestamp,
        }
    }
}

impl Clone for Log {
    fn clone(&self) -> (r: Log)
        ensures
            r@ == self@,
    {
        Log {
            command: self.command,
            value: self.value.clone(),
            desc: self.desc.clone(),
            command_code: self.command_code.clone(),
            ecu: self.ecu,
            timestamp: self.timestamp,
        }
    }
}

/// The entries of a log, each by its view, in order.
pub open spec fn log_views(logs: Seq<Log>) -> Seq<LogView> {
    logs.map_values(|l: Log| l@)
}

/// The texts of a list of strings, in order.
pub open spec fn string_views(strings: Seq<String>) -> Seq<Seq<char>> {
    strings.map_values(|s: String| s@)
}

/// A copy of a log, entry by entry.
pub fn clone_logs(logs: &Vec<Log>) -> (r: Vec<Log>)
    ensures
        log_views(r@) == log_views(logs@),
{
    let mut out: Vec<Log> = Vec::new();
    let mut i: usize = 0;
    while i < logs.len()
        invariant
            i <= logs@.len(),
            out@.len() == i,
            forall|j: int| 0 <= j < i ==> out@[j]@ == logs@[j]@,
        decreases logs@.len() - i,
    {
        out.push(logs[i].clone());
        i += 1;
    }
    assert(log_views(out@) =~= log_views(logs@));
    out
}

/// A copy of a list of strings.
pub fn clone_strings(strings: &Vec<String>) -> (r: Vec<String>)
    ensures
        string_views(r@) == string_views(strings@),
{
    let mut out: Vec<String> = Vec::new();
    let mut i: usize = 0;
    while i < strings.len()
        invariant
            i <= strings@.len(),
            out@.len() == i,
            forall|j: int| 0 <= j < i ==> out@[j]@ == strings@[j]@,
        decreases strings@.len() - i,
    {
        out.push(strings[i].clone());
        i += 1;
    }
    assert(string_views(out@) =~= string_views(strings@));
    out
}

/// The record of one vehicle.
#[derive(Debug, PartialEq)]
pub struct CarData {
    pub model: String,
    pub vin: String,
    pub log: Vec<Log>,
    pub car_identity: String,
    pub owner: AccountId,
}

/// What a [`CarData`] holds, as mathematical values.
pub struct CarDataView {
    pub model: Seq<char>,
    pub vin: Seq<char>,
    pub log: Seq<LogView>,
    pub car_identity: Seq<char>,
    pub owner: AccountId,
}

impl View for CarData {
    type V = CarDataView;

    open spec fn view(&self) -> CarDataView {
        CarDataView {
            model: self.model@,
            vin: self.vin@,
            log: log_views(self.log@),
            car_identity: self.car_identity@,
            owner: self.owner,
        }
    }
}

impl Clone for CarData {
    fn clone(&self) -> (r: CarData)
        ensures
            r@ == self@,
    {
        CarData {
            model: self.model.clone(),
            vin: self.vin.clone(),
            log: clone_logs(&self.log),
            car_identity: self.car_identity.clone(),
            owner: self.owner,
        }
    }
}

/// The records of a list, each by its view, in order.
pub open spec fn car_views(cars: Seq<CarData>) -> Seq<CarDataView> {
    cars.map_values(|c: CarData| c@)
}

} // verus!
