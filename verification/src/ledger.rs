//! The vehicle ledger: records by VIN, the owners' index, and the insurance
//! that opens the ledger to an account.

use vstd::prelude::*;
use crate::account::{AccountId, Balance, DEFAULT_PREMIUM};
use crate::account_map::AccountMap;
use crate::decimal::parse_u64;
use crate::health::{
    CarHealth,
    average_distance,
    distance_entries,
    health_of_log,
    lemma_average_distance_bound,
    lemma_distance_entries_push,
    market_value_of,
    total_reading,
};
use crate::insurance::InsurancePurchased;
use crate::ledger_model::ChronicleView;
use crate::record::{
    CarCommand,
    CarData,
    CarDataView,
    Log,
    car_views,
    clone_logs,
    clone_strings,
    log_views,
    string_views,
};

verus! {

/// Why an operation of the ledger was turned down.
#[derive(Clone, Copy, Debug, PartialEq, Eq, Structural)]
pub enum Error {
    /// The call broke a precondition that admits no recovery; nothing changed.
    TransactionFailed,
    CarNotFound,
    OwnerNotFound,
    AlreadyHasInsurance,
    NoInsurance,
    NoPremiumProvided,
    /// For a host that moves value; no operation of the ledger returns it.
    BalanceTooLow,
    CarAlreadyRegistered,
}

/// The ledger.
///
/// The records are kept in the order of their registration; a VIN is looked
/// up among them, so the list and the lookup cannot disagree.
pub struct Chronicle {
    cars: Vec<CarData>,
    owners: AccountMap<Vec<String>>,
    insurance_premiums: AccountMap<Balance>,
    has_insurance: AccountMap<bool>,
}

impl View for Chronicle {
    type V = ChronicleView;

    closed spec fn view(&self) -> ChronicleView {
        ChronicleView {
            cars: car_views(self.cars@),
            owners: self.owners@.map_values(|v: Vec<String>| string_views(v@)),
            insurance_premiums: self.insurance_premiums@,
            has_insurance: self.has_insurance@,
        }
    }
}

/// A result that carries a record, with the record by its view.
pub open spec fn record_result(r: Result<CarData, Error>) -> Result<CarDataView, Error> {
    match r {
        Ok(car) => Ok(car@),
        Err(e) => Err(e),
    }
}

impl Chronicle {
    /// The three tables are each well formed.
    pub closed spec fn tables_wf(&self) -> bool {
        &&& self.owners.wf()
        &&& self.insurance_premiums.wf()
        &&& self.has_insurance.wf()
    }

    /// The ledger is in a valid state.
    pub open spec fn wf(&self) -> bool {
        &&& self.tables_wf()
        &&& self@.inv()
    }

    /// An empty ledger.
    pub fn new() -> (r: Chronicle)
        ensures
            r.wf(),
            r@ == ChronicleView::empty(),
    {
        let r = Chronicle {
            cars: Vec::new(),
            owners: AccountMap::new(),
            insurance_premiums: AccountMap::new(),
            has_insurance: AccountMap::new(),
        };
        assert(r@.cars =~= Seq::empty());
        assert(r@.owners =~= Map::empty());
        r
    }

    /// The position of the record with this VIN, if there is one.
    fn find_car(&self, vin: &String) -> (r: Option<usize>)
        ensures
            match r {
                Some(i) => i < self.cars@.len() && self@.cars[i as int].vin == vin@
                    && self@.has_car(vin@),
                None => !self@.has_car(vin@),
            },
            self@.inv() && r is Some ==> r->0 == self@.car_position(vin@),
    {
        let mut i: usize = 0;
        while i < self.cars.len()
            invariant
                i <= self.cars@.len(),
                forall|j: int| 0 <= j < i ==> (#[trigger] self@.cars[j]).vin != vin@,
            decreases self.cars@.len() - i,
        {
            if self.cars[i].vin == *vin {
                assert(self@.cars[i as int].vin == vin@);
                proof {
                    self@.lemma_car_found(vin@);
                }
                return Some(i);
            }
            i += 1;
        }
        None
    }

    /// The record with this VIN.
    pub fn get_single_car(&self, vin: String) -> (r: Result<CarData, Error>)
        requires
            self.wf(),
        ensures
            record_result(r) == if self@.has_car(vin@) {
                Ok::<CarDataView, Error>(self@.car(vin@))
            } else {
                Err(Error::CarNotFound)
            },
    {
        match self.find_car(&vin) {
            Some(i) => Ok(self.cars[i].clone()),
            None => Err(Error::CarNotFound),
        }
    }

    /// The VINs of the vehicles that `owner` registered, in the order of
    /// their registration; an error for an account that registered none.
    pub fn get_cars_owned_by_single_owner(&self, owner: AccountId) -> (r: Result<
        Vec<String>,
        Error,
    >)
        requires
            self.wf(),
        ensures
            match r {
                Ok(listed) => self@.owns_any(owner) && string_views(listed@) == self@.vins_of(
                    owner,
                ),
                Err(e) => e == Error::OwnerNotFound && !self@.owns_any(owner),
            },
    {
        match self.owners.get(&owner) {
            Some(listed) => {
                assert(self@.owners.contains_key(owner));
                Ok(clone_strings(listed))
            },
            None => {
                assert(!self@.owners.contains_key(owner));
                Err(Error::OwnerNotFound)
            },
        }
    }

    /// Lets `caller` through if it has bought insurance.
    pub fn require_coverage(&self, caller: AccountId) -> (r: Result<(), Error>)
        requires
            self.wf(),
        ensures
            r == if self@.is_premium(caller) {
                Ok::<(), Error>(())
            } else {
                Err(Error::NoInsurance)
            },
    {
        match self.is_premium(caller) {
            Ok(_) => Ok(()),
            Err(_) => Err(Error::NoInsurance),
        }
    }

    /// Registers a vehicle for `caller`.
    pub fn add_car(&mut self, caller: AccountId, model: String, vin: String, logs: Vec<Log>) -> (r:
        Result<CarData, Error>)
        requires
            old(self).wf(),
        ensures
            final(self).wf(),
            record_result(r) == old(self)@.add_car_outcome(
                caller,
                model@,
                vin@,
                log_views(logs@),
            ),
            final(self)@ == old(self)@.after_add_car(caller, model@, vin@, log_views(logs@)),
    {
        proof {
            self@.lemma_add_car_inv(caller, model@, vin@, log_views(logs@));
        }
        if self.require_coverage(caller).is_err() {
            return Err(Error::NoInsurance);
        }
        if self.find_car(&vin).is_some() {
            return Err(Error::CarAlreadyRegistered);
        }
        if logs.len() == 0 {
            return Err(Error::TransactionFailed);
        }
        let car = CarData {
            model,
            vin: vin.clone(),
            log: logs,
            car_identity: vin.clone(),
            owner: caller,
        };
        let mut owner_cars = match self.owners.get(&caller) {
            Some(listed) => clone_strings(listed),
            None => Vec::new(),
        };
        owner_cars.push(vin);
        self.owners.insert(caller, owner_cars);
        let stored = car.clone();
        self.cars.push(car);
        proof {
            let before = old(self)@;
            let after = before.after_add_car(caller, model@, vin@, log_views(logs@));
            assert(self@.cars =~= after.cars);
            assert(string_views(owner_cars@) =~= after.owners[caller]);
            assert(self@.owners =~= after.owners);
        }
        Ok(stored)
    }

    /// Appends `logs` to the log of the vehicle with this VIN, on behalf of
    /// `caller`.
    pub fn update_car_logs(&mut self, caller: AccountId, vin: String, logs: Vec<Log>) -> (r: Result<
        CarData,
        Error,
    >)
        requires
            old(self).wf(),
        ensures
            final(self).wf(),
            record_result(r) == old(self)@.update_outcome(caller, vin@, log_views(logs@)),
            final(self)@ == old(self)@.after_update(caller, vin@, log_views(logs@)),
    {
        proof {
            self@.lemma_update_inv(caller, vin@, log_views(logs@));
        }
        if self.require_coverage(caller).is_err() {
            return Err(Error::NoInsurance);
        }
        let at = match self.find_car(&vin) {
            Some(i) => i,
            None => {
                return Err(Error::CarNotFound);
            },
        };
        let mut car = self.cars[at].clone();
        let mut i: usize = 0;
        while i < logs.len()
            invariant
                i <= logs@.len(),
                at < self.cars@.len(),
                *self == *old(self),
                car@.model == self.cars@[at as int]@.model,
                car@.vin == self.cars@[at as int]@.vin,
                car@.car_identity == self.cars@[at as int]@.car_identity,
                car@.owner == self.cars@[at as int]@.owner,
                car@.log == self.cars@[at as int]@.log + log_views(logs@).take(i as int),
            decreases logs@.len() - i,
        {
            let ghost earlier = car@.log;
            car.log.push(logs[i].clone());
            proof {
                assert(car@.log =~= earlier.push(logs@[i as int]@));
                assert(log_views(logs@).take(i as int + 1) =~= log_views(logs@).take(
                    i as int,
                ).push(logs@[i as int]@));
                assert(car@.log =~= self.cars@[at as int]@.log + log_views(logs@).take(
                    i as int + 1,
                ));
            }
            i += 1;
        }
        assert(log_views(logs@).take(i as int) =~= log_views(logs@));
        let stored = car.clone();
        self.cars.set(at, car);
        proof {
            let before = old(self)@;
            let after = before.after_update(caller, vin@, log_views(logs@));
            assert(self@.cars =~= after.cars);
            assert(self@.owners =~= after.owners);
        }
        Ok(stored)
    }

    /// Whether `user` has ever bought insurance; an error where not.
    pub fn is_premium(&self, user: AccountId) -> (r: Result<bool, Error>)
        requires
            self.wf(),
        ensures
            r == if self@.is_premium(user) {
                Ok::<bool, Error>(true)
            } else {
                Err(Error::NoInsurance)
            },
    {
        match self.insurance_premiums.get(&user) {
            Some(_) => Ok(true),
            None => Err(Error::NoInsurance),
        }
    }

    /// Whether `user` is covered now.
    pub fn has_insurance(&self, user: AccountId) -> (r: bool)
        requires
            self.wf(),
        ensures
            r == self@.has_insurance(user),
    {
        match self.has_insurance.get(&user) {
            Some(covered) => *covered,
            None => false,
        }
    }

    /// Buys insurance for `caller`, who offers `premium`.
    ///
    /// The premium recorded is the default one, whatever was offered; the
    /// notification returned carries the offer.
    pub fn purchase_insurance(&mut self, caller: AccountId, premium: Balance) -> (r: Result<
        InsurancePurchased,
        Error,
    >)
        requires
            old(self).wf(),
        ensures
            final(self).wf(),
            r == old(self)@.purchase_outcome(caller, premium),
            final(self)@ == old(self)@.after_purchase(caller, premium),
    {
        proof {
            self@.lemma_purchase_inv(caller, premium);
        }
        if self.has_insurance(caller) {
            return Err(Error::AlreadyHasInsurance);
        }
        if premium == 0 {
            return Err(Error::NoPremiumProvided);
        }
        self.insurance_premiums.insert(caller, DEFAULT_PREMIUM);
        self.has_insurance.insert(caller, true);
        Ok(InsurancePurchased { user: caller, premium })
    }

    /// The log of the vehicle with this VIN.
    pub fn check_single_car_logs(&self, vin: String) -> (r: Result<Vec<Log>, Error>)
        requires
            self.wf(),
        ensures
            match r {
                Ok(logs) => self@.has_car(vin@) && log_views(logs@) == self@.car(vin@).log,
                Err(e) => e == Error::CarNotFound && !self@.has_car(vin@),
            },
    {
        match self.find_car(&vin) {
            Some(i) => Ok(clone_logs(&self.cars[i].log)),
            None => Err(Error::CarNotFound),
        }
    }

    /// Every record, in the order of registration.
    pub fn get_all_cars(&self) -> (r: Vec<CarData>)
        ensures
            car_views(r@) == self@.cars,
    {
        let mut out: Vec<CarData> = Vec::new();
        let mut i: usize = 0;
        while i < self.cars.len()
            invariant
                i <= self.cars@.len(),
                out@.len() == i,
                forall|j: int| 0 <= j < i ==> out@[j]@ == self.cars@[j]@,
            decreases self.cars@.len() - i,
        {
            out.push(self.cars[i].clone());
            i += 1;
        }
        assert(car_views(out@) =~= self@.cars);
        out
    }

    /// The rating of the vehicle with this VIN.
    pub fn get_single_car_health(&self, vin: String) -> (r: Result<CarHealth, Error>)
        requires
            self.wf(),
        ensures
            r == if self@.has_car(vin@) {
                Ok::<CarHealth, Error>(health_of_log(self@.car(vin@).log))
            } else {
                Err(Error::CarNotFound)
            },
    {
        match self.find_car(&vin) {
            Some(i) => {
                let average = Self::calculate_average_distance_with_milage(
                    self.cars[i].log.as_slice(),
                );
                Ok(CarHealth::from_average(average))
            },
            None => Err(Error::CarNotFound),
        }
    }

    /// The mean of the distance readings in `logs`, rounded down; zero where
    /// there is none. A reading whose text denotes no number counts as zero.
    pub fn calculate_average_distance_with_milage(logs: &[Log]) -> (r: u64)
        ensures
            r == average_distance(log_views(logs@)),
    {
        let ghost log = log_views(logs@);
        let mut total_distance: u128 = 0;
        let mut logs_with_distance: usize = 0;
        let mut i: usize = 0;
        while i < logs.len()
            invariant
                i <= logs@.len(),
                log == log_views(logs@),
                logs_with_distance <= i,
                logs_with_distance == distance_entries(log.take(i as int)).len(),
                total_distance == total_reading(distance_entries(log.take(i as int))),
                total_distance <= logs_with_distance * u64::MAX,
            decreases logs@.len() - i,
        {
            let entry = &logs[i];
            proof {
                assert(log.take(i as int + 1) =~= log.take(i as int).push(log[i as int]));
                lemma_distance_entries_push(log.take(i as int), log[i as int]);
                assert(distance_entries(log.take(i as int)).push(log[i as int]).drop_last()
                    =~= distance_entries(log.take(i as int)));
            }
            match entry.command {
                CarCommand::DistanceWithMil => {
                    let value: u64 = match parse_u64(entry.value.as_str()) {
                        Some(v) => v,
                        None => 0,
                    };
                    total_distance = total_distance + value as u128;
                    logs_with_distance = logs_with_distance + 1;
                },
                _ => {},
            }
            i += 1;
        }
        assert(log.take(i as int) =~= log);
        if logs_with_distance > 0 {
            proof {
                lemma_average_distance_bound(log);
            }
            (total_distance / logs_with_distance as u128) as u64
        } else {
            0
        }
    }

    /// The market value of the vehicle with this VIN, by its rating.
    pub fn predict_car_market_value(&self, vin: String) -> (r: Result<u64, Error>)
        requires
            self.wf(),
        ensures
            r == if self@.has_car(vin@) {
                Ok::<u64, Error>(market_value_of(health_of_log(self@.car(vin@).log)))
            } else {
                Err(Error::CarNotFound)
            },
    {
        match self.get_single_car_health(vin) {
            Ok(car_health) => Ok(car_health.market_value()),
            Err(e) => Err(e),
        }
    }
}

} // verus!
