//! The ledger as a mathematical state, and what each operation makes of it.
//!
//! Authorization is by insurance alone: an account may register a vehicle or
//! append to a log once it has bought insurance through the ledger. The
//! account that registers a vehicle becomes its owner; no call names an
//! owner of its own, and appending does not ask who owns the vehicle.
//!
//! A call that is turned down leaves the state as it was. That holds also of
//! the one failure that admits no recovery, a registration with an empty
//! log, which is reported as a failed transaction.

use vstd::prelude::*;
use crate::account::{AccountId, Balance, DEFAULT_PREMIUM};
use crate::insurance::InsurancePurchased;
use crate::ledger::Error;
use crate::record::{CarDataView, LogView};

verus! {

/// The records of `cars` whose owner is `owner`, in order.
pub open spec fn owned_by(cars: Seq<CarDataView>, owner: AccountId) -> Seq<CarDataView> {
    cars.filter(|c: CarDataView| c.owner == owner)
}

/// The VINs of `cars`, in order.
pub open spec fn vins(cars: Seq<CarDataView>) -> Seq<Seq<char>> {
    cars.map_values(|c: CarDataView| c.vin)
}

/// The state of the ledger.
pub struct ChronicleView {
    /// The records, in the order in which they were registered.
    pub cars: Seq<CarDataView>,
    /// For each owner, the VINs they registered.
    pub owners: Map<AccountId, Seq<Seq<char>>>,
    /// The premium recorded for each account that ever bought insurance.
    pub insurance_premiums: Map<AccountId, Balance>,
    /// The coverage flag of each account that ever bought insurance.
    pub has_insurance: Map<AccountId, bool>,
}

impl ChronicleView {
    /// The ledger with no record and no account.
    pub open spec fn empty() -> ChronicleView {
        ChronicleView {
            cars: Seq::empty(),
            owners: Map::empty(),
            insurance_premiums: Map::empty(),
            has_insurance: Map::empty(),
        }
    }

    /// Whether a record with this VIN exists.
    pub open spec fn has_car(self, vin: Seq<char>) -> bool {
        exists|i: int| 0 <= i < self.cars.len() && (#[trigger] self.cars[i]).vin == vin
    }

    /// The position of the record with this VIN, where one exists.
    pub open spec fn car_position(self, vin: Seq<char>) -> int {
        choose|i: int| 0 <= i < self.cars.len() && (#[trigger] self.cars[i]).vin == vin
    }

    /// The record with this VIN, where one exists.
    pub open spec fn car(self, vin: Seq<char>) -> CarDataView {
        self.cars[self.car_position(vin)]
    }

    /// Whether some record names `owner` as its owner.
    pub open spec fn owns_any(self, owner: AccountId) -> bool {
        exists|i: int| 0 <= i < self.cars.len() && (#[trigger] self.cars[i]).owner == owner
    }

    /// The VINs of the records that `owner` owns, in registration order.
    pub open spec fn vins_of(self, owner: AccountId) -> Seq<Seq<char>> {
        vins(owned_by(self.cars, owner))
    }

    /// Whether `user` has ever bought insurance.
    pub open spec fn is_premium(self, user: AccountId) -> bool {
        self.insurance_premiums.contains_key(user)
    }

    /// Whether `user` is covered now.
    pub open spec fn has_insurance(self, user: AccountId) -> bool {
        self.has_insurance.contains_key(user) && self.has_insurance[user]
    }

    /// What holds of every state that the operations can reach:
    ///
    /// - no two records share a VIN;
    /// - every record has a log that is not empty, an identity equal to its
    ///   VIN, and an owner who bought insurance;
    /// - the owners' index lists an account exactly when some record names
    ///   it, and lists for it the VINs of those records, in order;
    /// - every premium recorded is the default one;
    /// - an account that bought insurance is covered, and no other is.
    pub open spec fn inv(self) -> bool {
        &&& forall|i: int, j: int|
            0 <= i < j < self.cars.len() ==> (#[trigger] self.cars[i]).vin != (
            #[trigger] self.cars[j]).vin
        &&& forall|i: int|
            0 <= i < self.cars.len() ==> {
                &&& (#[trigger] self.cars[i]).log.len() > 0
                &&& self.cars[i].car_identity == self.cars[i].vin
                &&& self.insurance_premiums.contains_key(self.cars[i].owner)
            }
        &&& forall|o: AccountId| #[trigger] self.owners.contains_key(o) <==> self.owns_any(o)
        &&& forall|o: AccountId| #[trigger]
            self.owners.contains_key(o) ==> self.owners[o] == self.vins_of(o)
        &&& forall|a: AccountId| #[trigger]
            self.insurance_premiums.contains_key(a) ==> self.insurance_premiums[a]
                == DEFAULT_PREMIUM
        &&& forall|a: AccountId| #[trigger]
            self.insurance_premiums.contains_key(a) <==> self.has_insurance(a)
    }

    /// What buying insurance returns.
    ///
    /// An account that is covered is turned away first; then an offer of
    /// nothing. The notification carries the amount that was offered.
    pub open spec fn purchase_outcome(self, caller: AccountId, premium: Balance) -> Result<
        InsurancePurchased,
        Error,
    > {
        if self.has_insurance(caller) {
            Err(Error::AlreadyHasInsurance)
        } else if premium == 0 {
            Err(Error::NoPremiumProvided)
        } else {
            Ok(InsurancePurchased { user: caller, premium })
        }
    }

    /// The state after buying insurance: on success the account is covered and
    /// the default premium is recorded for it; otherwise nothing changes.
    pub open spec fn after_purchase(self, caller: AccountId, premium: Balance) -> ChronicleView {
        if self.purchase_outcome(caller, premium) is Ok {
            ChronicleView {
                insurance_premiums: self.insurance_premiums.insert(caller, DEFAULT_PREMIUM),
                has_insurance: self.has_insurance.insert(caller, true),
                ..self
            }
        } else {
            self
        }
    }

    /// What registering a vehicle returns.
    ///
    /// The caller must have bought insurance, the VIN must be new, and the
    /// log must hold at least one entry; an empty log fails the call as a
    /// whole. The new record names the caller as owner.
    pub open spec fn add_car_outcome(
        self,
        caller: AccountId,
        model: Seq<char>,
        vin: Seq<char>,
        log: Seq<LogView>,
    ) -> Result<CarDataView, Error> {
        if !self.is_premium(caller) {
            Err(Error::NoInsurance)
        } else if self.has_car(vin) {
            Err(Error::CarAlreadyRegistered)
        } else if log.len() == 0 {
            Err(Error::TransactionFailed)
        } else {
            Ok(CarDataView { model, vin, log, car_identity: vin, owner: caller })
        }
    }

    /// The state after registering a vehicle: on success the record is added
    /// last and its VIN joins the caller's list; otherwise nothing changes.
    pub open spec fn after_add_car(
        self,
        caller: AccountId,
        model: Seq<char>,
        vin: Seq<char>,
        log: Seq<LogView>,
    ) -> ChronicleView {
        match self.add_car_outcome(caller, model, vin, log) {
            Ok(car) => {
                let listed = if self.owners.contains_key(caller) {
                    self.owners[caller]
                } else {
                    Seq::empty()
                };
                ChronicleView {
                    cars: self.cars.push(car),
                    owners: self.owners.insert(caller, listed.push(vin)),
                    ..self
                }
            },
            Err(_) => self,
        }
    }

    /// What appending to a log returns: on success the record with the new
    /// entries after the old ones.
    pub open spec fn update_outcome(
        self,
        caller: AccountId,
        vin: Seq<char>,
        log: Seq<LogView>,
    ) -> Result<CarDataView, Error> {
        if !self.is_premium(caller) {
            Err(Error::NoInsurance)
        } else if !self.has_car(vin) {
            Err(Error::CarNotFound)
        } else {
            Ok(CarDataView { log: self.car(vin).log + log, ..self.car(vin) })
        }
    }

    /// The state after appending to a log: on success the record is replaced
    /// in its place; otherwise nothing changes.
    pub open spec fn after_update(
        self,
        caller: AccountId,
        vin: Seq<char>,
        log: Seq<LogView>,
    ) -> ChronicleView {
        match self.update_outcome(caller, vin, log) {
            Ok(car) => ChronicleView {
                cars: self.cars.update(self.car_position(vin), car),
                ..self
            },
            Err(_) => self,
        }
    }
}

/// One more record joins those of an owner exactly when it names that owner.
pub proof fn lemma_owned_by_push(cars: Seq<CarDataView>, car: CarDataView, owner: AccountId)
    ensures
        owned_by(cars.push(car), owner) == if car.owner == owner {
            owned_by(cars, owner).push(car)
        } else {
            owned_by(cars, owner)
        },
{
    reveal(Seq::filter);
    assert(cars.push(car).drop_last() =~= cars);
}

/// Replacing a record by one with the same owner and VIN leaves every
/// owner's list of VINs as it was.
pub proof fn lemma_vins_owned_by_update(
    cars: Seq<CarDataView>,
    at: int,
    car: CarDataView,
    owner: AccountId,
)
    requires
        0 <= at < cars.len(),
        car.owner == cars[at].owner,
        car.vin == cars[at].vin,
    ensures
        vins(owned_by(cars.update(at, car), owner)) == vins(owned_by(cars, owner)),
    decreases cars.len(),
{
    let front = cars.drop_last();
    let last = cars.last();
    assert(cars =~= front.push(last));
    lemma_owned_by_push(front, last, owner);
    if at == cars.len() - 1 {
        assert(cars.update(at, car) =~= front.push(car));
        lemma_owned_by_push(front, car, owner);
        assert(vins(owned_by(front, owner).push(car)) =~= vins(owned_by(front, owner)).push(
            car.vin,
        ));
        assert(vins(owned_by(front, owner).push(last)) =~= vins(owned_by(front, owner)).push(
            last.vin,
        ));
    } else {
        assert(cars.update(at, car) =~= front.update(at, car).push(last));
        lemma_owned_by_push(front.update(at, car), last, owner);
        lemma_vins_owned_by_update(front, at, car, owner);
        assert(vins(owned_by(front.update(at, car), owner).push(last)) =~= vins(
            owned_by(front.update(at, car), owner),
        ).push(last.vin));
        assert(vins(owned_by(front, owner).push(last)) =~= vins(owned_by(front, owner)).push(
            last.vin,
        ));
    }
}

/// The records of an owner are those of the list that name that owner: each
/// VIN among them belongs to such a record, and each such record's VIN is
/// among them.
pub proof fn lemma_vins_owned_by_exact(cars: Seq<CarDataView>, owner: AccountId, vin: Seq<char>)
    ensures
        vins(owned_by(cars, owner)).contains(vin) <==> exists|i: int|
            0 <= i < cars.len() && (#[trigger] cars[i]).owner == owner && cars[i].vin == vin,
    decreases cars.len(),
{
    if cars.len() == 0 {
        reveal(Seq::filter);
        assert(owned_by(cars, owner) =~= Seq::empty());
    } else {
        let front = cars.drop_last();
        let last = cars.last();
        assert(cars =~= front.push(last));
        lemma_owned_by_push(front, last, owner);
        lemma_vins_owned_by_exact(front, owner, vin);
        let listed = vins(owned_by(front, owner));
        if last.owner == owner {
            assert(vins(owned_by(cars, owner)) =~= listed.push(last.vin));
        }
        if vins(owned_by(cars, owner)).contains(vin) {
            let k = choose|k: int|
                0 <= k < vins(owned_by(cars, owner)).len() && vins(owned_by(cars, owner))[k]
                    == vin;
            if last.owner == owner && k == listed.len() {
                assert(cars[cars.len() - 1].owner == owner && cars[cars.len() - 1].vin == vin);
            } else {
                assert(listed[k] == vin);
                assert(listed.contains(vin));
                let i = choose|i: int|
                    0 <= i < front.len() && (#[trigger] front[i]).owner == owner && front[i].vin
                        == vin;
                assert(cars[i].owner == owner && cars[i].vin == vin);
            }
        }
        if exists|i: int|
            0 <= i < cars.len() && (#[trigger] cars[i]).owner == owner && cars[i].vin == vin {
            let i = choose|i: int|
                0 <= i < cars.len() && (#[trigger] cars[i]).owner == owner && cars[i].vin == vin;
            if i == cars.len() - 1 {
                assert(vins(owned_by(cars, owner))[listed.len() as int] == vin);
            } else {
                assert(front[i].owner == owner && front[i].vin == vin);
                assert(listed.contains(vin));
                let k = choose|k: int| 0 <= k < listed.len() && listed[k] == vin;
                assert(vins(owned_by(cars, owner))[k] == vin);
            }
        }
    }
}

/// An owner without a record has an empty list.
pub proof fn lemma_owned_by_none(cars: Seq<CarDataView>, owner: AccountId)
    requires
        forall|i: int| 0 <= i < cars.len() ==> (#[trigger] cars[i]).owner != owner,
    ensures
        owned_by(cars, owner) == Seq::<CarDataView>::empty(),
    decreases cars.len(),
{
    reveal(Seq::filter);
    if cars.len() > 0 {
        lemma_owned_by_none(cars.drop_last(), owner);
    }
}

impl ChronicleView {
    /// The empty ledger is a valid state.
    pub proof fn lemma_empty_inv()
        ensures
            ChronicleView::empty().inv(),
    {
    }

    /// Where a record with this VIN exists, the record found for the VIN has
    /// it; in a valid state no other record has.
    pub proof fn lemma_car_found(self, vin: Seq<char>)
        requires
            self.has_car(vin),
        ensures
            0 <= self.car_position(vin) < self.cars.len(),
            self.car(vin).vin == vin,
            self.inv() ==> forall|i: int|
                0 <= i < self.cars.len() && (#[trigger] self.cars[i]).vin == vin ==> i
                    == self.car_position(vin),
    {
    }

    /// Buying insurance keeps the state valid.
    pub proof fn lemma_purchase_inv(self, caller: AccountId, premium: Balance)
        requires
            self.inv(),
        ensures
            self.after_purchase(caller, premium).inv(),
    {
        let next = self.after_purchase(caller, premium);
        assert(next.cars == self.cars);
        assert(forall|o: AccountId| next.owns_any(o) == self.owns_any(o));
        assert(forall|o: AccountId| next.vins_of(o) == self.vins_of(o));
    }

    /// Registering a vehicle keeps the state valid.
    pub proof fn lemma_add_car_inv(
        self,
        caller: AccountId,
        model: Seq<char>,
        vin: Seq<char>,
        log: Seq<LogView>,
    )
        requires
            self.inv(),
        ensures
            self.after_add_car(caller, model, vin, log).inv(),
    {
        let next = self.after_add_car(caller, model, vin, log);
        match self.add_car_outcome(caller, model, vin, log) {
            Ok(car) => {
                let n = self.cars.len() as int;
                assert(next.cars[n] == car);
                assert forall|i: int, j: int| 0 <= i < j < next.cars.len() implies (
                #[trigger] next.cars[i]).vin != (#[trigger] next.cars[j]).vin by {
                    if j == n {
                        assert(self.cars[i].vin != vin);
                    } else {
                        assert(self.cars[i].vin != self.cars[j].vin);
                    }
                }
                assert forall|o: AccountId| #[trigger]
                    next.owners.contains_key(o) <==> next.owns_any(o) by {
                    if next.owns_any(o) {
                        let i = choose|i: int|
                            0 <= i < next.cars.len() && (#[trigger] next.cars[i]).owner == o;
                        if i < n {
                            assert(self.cars[i].owner == o);
                            assert(self.owns_any(o));
                        }
                    }
                    if next.owners.contains_key(o) {
                        if o == caller {
                            assert(next.cars[n].owner == o);
                        } else {
                            assert(self.owns_any(o));
                            let i = choose|i: int|
                                0 <= i < self.cars.len() && (#[trigger] self.cars[i]).owner == o;
                            assert(next.cars[i].owner == o);
                        }
                    }
                }
                assert forall|o: AccountId| #[trigger]
                    next.owners.contains_key(o) implies next.owners[o] == next.vins_of(o) by {
                    lemma_owned_by_push(self.cars, car, o);
                    if o == caller {
                        if !self.owners.contains_key(caller) {
                            assert(!self.owns_any(caller));
                            lemma_owned_by_none(self.cars, caller);
                        }
                        assert(vins(owned_by(self.cars, o).push(car)) =~= vins(
                            owned_by(self.cars, o),
                        ).push(vin));
                    }
                }
            },
            Err(_) => {},
        }
    }

    /// Appending to a log keeps the state valid.
    pub proof fn lemma_update_inv(self, caller: AccountId, vin: Seq<char>, log: Seq<LogView>)
        requires
            self.inv(),
        ensures
            self.after_update(caller, vin, log).inv(),
    {
        let next = self.after_update(caller, vin, log);
        match self.update_outcome(caller, vin, log) {
            Ok(car) => {
                let at = self.car_position(vin);
                self.lemma_car_found(vin);
                assert forall|i: int, j: int| 0 <= i < j < next.cars.len() implies (
                #[trigger] next.cars[i]).vin != (#[trigger] next.cars[j]).vin by {
                    assert(self.cars[i].vin != self.cars[j].vin);
                }
                assert forall|i: int| 0 <= i < next.cars.len() implies {
                    &&& (#[trigger] next.cars[i]).log.len() > 0
                    &&& next.cars[i].car_identity == next.cars[i].vin
                    &&& next.insurance_premiums.contains_key(next.cars[i].owner)
                } by {
                    assert(self.cars[i].log.len() > 0);
                }
                assert forall|o: AccountId| next.owns_any(o) == self.owns_any(o) by {
                    if self.owns_any(o) {
                        let i = choose|i: int|
                            0 <= i < self.cars.len() && (#[trigger] self.cars[i]).owner == o;
                        assert(next.cars[i].owner == o);
                    }
                    if next.owns_any(o) {
                        let i = choose|i: int|
                            0 <= i < next.cars.len() && (#[trigger] next.cars[i]).owner == o;
                        assert(self.cars[i].owner == o);
                    }
                }
                assert forall|o: AccountId| next.vins_of(o) == self.vins_of(o) by {
                    lemma_vins_owned_by_update(self.cars, at, car, o);
                }
            },
            Err(_) => {},
        }
    }
}

impl ChronicleView {
    /// A vehicle that was just registered is found under its VIN, with the
    /// model, the VIN and the log that it was registered with, and with the
    /// caller as its owner.
    pub proof fn lemma_registered_car_is_found(
        self,
        caller: AccountId,
        model: Seq<char>,
        vin: Seq<char>,
        log: Seq<LogView>,
    )
        requires
            self.inv(),
            self.add_car_outcome(caller, model, vin, log) is Ok,
        ensures
            ({
                let next = self.after_add_car(caller, model, vin, log);
                &&& next.has_car(vin)
                &&& Ok::<CarDataView, Error>(next.car(vin)) == self.add_car_outcome(
                    caller,
                    model,
                    vin,
                    log,
                )
                &&& next.car(vin).model == model
                &&& next.car(vin).vin == vin
                &&& next.car(vin).log == log
                &&& next.car(vin).owner == caller
            }),
    {
        let next = self.after_add_car(caller, model, vin, log);
        self.lemma_add_car_inv(caller, model, vin, log);
        assert(next.cars[self.cars.len() as int].vin == vin);
        next.lemma_car_found(vin);
    }

    /// A VIN is registered once: after a vehicle was registered, registering
    /// its VIN again fails and changes nothing, whoever asks and whatever
    /// else they supply. An insured caller is told that the vehicle is
    /// already registered.
    pub proof fn lemma_vin_registers_once(
        self,
        caller: AccountId,
        model: Seq<char>,
        vin: Seq<char>,
        log: Seq<LogView>,
        second_caller: AccountId,
        second_model: Seq<char>,
        second_log: Seq<LogView>,
    )
        requires
            self.inv(),
            self.add_car_outcome(caller, model, vin, log) is Ok,
        ensures
            ({
                let next = self.after_add_car(caller, model, vin, log);
                &&& next.add_car_outcome(second_caller, second_model, vin, second_log) is Err
                &&& next.is_premium(second_caller) ==> next.add_car_outcome(
                    second_caller,
                    second_model,
                    vin,
                    second_log,
                ) == Err::<CarDataView, Error>(Error::CarAlreadyRegistered)
                &&& next.after_add_car(second_caller, second_model, vin, second_log) == next
            }),
    {
        self.lemma_registered_car_is_found(caller, model, vin, log);
    }

    /// Registering with an empty log always fails and stores nothing. Where
    /// the caller is insured and the VIN is new, the call fails as a whole.
    pub proof fn lemma_empty_log_is_refused(
        self,
        caller: AccountId,
        model: Seq<char>,
        vin: Seq<char>,
    )
        ensures
            self.add_car_outcome(caller, model, vin, Seq::empty()) is Err,
            self.after_add_car(caller, model, vin, Seq::empty()) == self,
            self.is_premium(caller) && !self.has_car(vin) ==> self.add_car_outcome(
                caller,
                model,
                vin,
                Seq::empty(),
            ) == Err::<CarDataView, Error>(Error::TransactionFailed),
    {
    }

    /// After an account offered a premium that is not zero, it is covered,
    /// and buying again fails and changes nothing.
    pub proof fn lemma_purchase_covers(self, account: AccountId, premium: Balance, again: Balance)
        requires
            self.inv(),
            premium > 0,
        ensures
            ({
                let next = self.after_purchase(account, premium);
                &&& next.has_insurance(account)
                &&& next.is_premium(account)
                &&& next.purchase_outcome(account, again) == Err::<InsurancePurchased, Error>(
                    Error::AlreadyHasInsurance,
                )
                &&& next.after_purchase(account, again) == next
            }),
    {
    }

    /// An account that is not covered and offers nothing is told so, and
    /// nothing changes.
    pub proof fn lemma_purchase_for_nothing(self, account: AccountId)
        requires
            !self.has_insurance(account),
        ensures
            self.purchase_outcome(account, 0) == Err::<InsurancePurchased, Error>(
                Error::NoPremiumProvided,
            ),
            self.after_purchase(account, 0) == self,
    {
    }

    /// A call that is refused changes nothing.
    pub proof fn lemma_refused_calls_change_nothing(
        self,
        caller: AccountId,
        premium: Balance,
        model: Seq<char>,
        vin: Seq<char>,
        log: Seq<LogView>,
    )
        ensures
            self.purchase_outcome(caller, premium) is Err ==> self.after_purchase(caller, premium)
                == self,
            self.add_car_outcome(caller, model, vin, log) is Err ==> self.after_add_car(
                caller,
                model,
                vin,
                log,
            ) == self,
            self.update_outcome(caller, vin, log) is Err ==> self.after_update(caller, vin, log)
                == self,
    {
    }

    /// The owners' index lists, for each owner, exactly the VINs of the
    /// records that name that owner.
    pub proof fn lemma_owner_index_exact(self, owner: AccountId, vin: Seq<char>)
        requires
            self.inv(),
        ensures
            self.owners.contains_key(owner) <==> self.owns_any(owner),
            self.owners.contains_key(owner) ==> self.owners[owner] == self.vins_of(owner),
            self.vins_of(owner).contains(vin) <==> exists|i: int|
                0 <= i < self.cars.len() && (#[trigger] self.cars[i]).owner == owner
                    && self.cars[i].vin == vin,
    {
        lemma_vins_owned_by_exact(self.cars, owner, vin);
    }

    /// Appending to a log puts the new entries after the old ones, in order:
    /// the log grows by as many entries as were appended. The record keeps
    /// its place and every other record stays as it was.
    pub proof fn lemma_update_appends(self, caller: AccountId, vin: Seq<char>, log: Seq<LogView>)
        requires
            self.inv(),
            self.update_outcome(caller, vin, log) is Ok,
        ensures
            ({
                let next = self.after_update(caller, vin, log);
                &&& next.has_car(vin)
                &&& Ok::<CarDataView, Error>(next.car(vin)) == self.update_outcome(
                    caller,
                    vin,
                    log,
                )
                &&& next.car(vin).log == self.car(vin).log + log
                &&& next.car(vin).log.len() == self.car(vin).log.len() + log.len()
                &&& next.car_position(vin) == self.car_position(vin)
                &&& next.cars.len() == self.cars.len()
                &&& forall|i: int|
                    0 <= i < self.cars.len() && i != self.car_position(vin) ==> next.cars[i]
                        == self.cars[i]
            }),
    {
        let next = self.after_update(caller, vin, log);
        self.lemma_update_inv(caller, vin, log);
        self.lemma_car_found(vin);
        assert(next.cars[self.car_position(vin)].vin == vin);
        next.lemma_car_found(vin);
    }
}

} // verus!
