use chronicle::account::AccountId;
use chronicle::health::CarHealth;
use chronicle::insurance::InsurancePurchased;
use chronicle::ledger::{Chronicle, Error};
use chronicle::record::{CarCommand, CarData, Log};

fn alice() -> AccountId {
    AccountId::new([1u8; 32])
}

fn bob() -> AccountId {
    AccountId::new([2u8; 32])
}

fn charlie() -> AccountId {
    AccountId::new([3u8; 32])
}

fn entry(command: CarCommand, value: &str, timestamp: u64) -> Log {
    Log {
        command,
        value: String::from(value),
        desc: String::from("reading"),
        command_code: String::from("01"),
        ecu: 1,
        timestamp,
    }
}

fn engine_load() -> Vec<Log> {
    vec![Log {
        command: CarCommand::EngineLoad,
        value: String::from("10"),
        desc: String::from("Engine Load"),
        command_code: String::from("01"),
        ecu: 1,
        timestamp: 123456789,
    }]
}

fn build_contract() -> Chronicle {
    Chronicle::new()
}

fn insured(accounts: &[AccountId]) -> Chronicle {
    let mut contract = Chronicle::new();
    for a in accounts {
        contract.purchase_insurance(*a, 100).unwrap();
    }
    contract
}

#[test]
#[should_panic(expected = "No insurance")]
fn test_add_car_without_insurance() {
    let mut contract = build_contract();
    let model = String::from("Toyota");
    let vin = String::from("123456789");
    let logs = engine_load();
    let car = contract.add_car(alice(), model, vin, logs).expect("No insurance");
    assert_eq!(car.model, String::from("Toyota"));
    assert_eq!(car.vin, String::from("123456789"));
    assert_eq!(car.log.len(), 1);
}

#[test]
fn test_add_car_with_insurance() {
    let user = alice();
    let mut contract = build_contract();
    let model = String::from("Toyota");
    let vin = String::from("123456789");
    let logs = engine_load();
    contract.purchase_insurance(user, 100).unwrap();
    let car = contract.add_car(user, model, vin, logs);
    assert!(car.is_ok());
}

#[test]
fn add_car_without_insurance_is_refused_and_stores_nothing() {
    let mut contract = build_contract();
    let r = contract.add_car(alice(), String::from("Toyota"), String::from("123456789"), engine_load());
    assert_eq!(r, Err(Error::NoInsurance));
    assert_eq!(contract.get_all_cars().len(), 0);
    assert_eq!(contract.get_single_car(String::from("123456789")), Err(Error::CarNotFound));
    assert_eq!(contract.get_cars_owned_by_single_owner(alice()), Err(Error::OwnerNotFound));
}

#[test]
fn new_ledger_is_empty() {
    let contract = Chronicle::new();
    assert_eq!(contract.get_all_cars().len(), 0);
    assert!(!contract.has_insurance(alice()));
    assert_eq!(contract.is_premium(alice()), Err(Error::NoInsurance));
    assert_eq!(contract.get_cars_owned_by_single_owner(alice()), Err(Error::OwnerNotFound));
}

#[test]
fn registered_car_is_returned_and_found() {
    let mut contract = insured(&[alice()]);
    let logs = vec![
        entry(CarCommand::EngineLoad, "10", 1),
        entry(CarCommand::ThrottlePosition, "55", 2),
    ];
    let car = contract
        .add_car(alice(), String::from("Toyota"), String::from("VIN-1"), logs.clone())
        .unwrap();
    let expected = CarData {
        model: String::from("Toyota"),
        vin: String::from("VIN-1"),
        log: logs,
        car_identity: String::from("VIN-1"),
        owner: alice(),
    };
    assert_eq!(car, expected);
    assert_eq!(contract.get_single_car(String::from("VIN-1")), Ok(expected.clone()));
    assert_eq!(contract.check_single_car_logs(String::from("VIN-1")), Ok(expected.log.clone()));
    assert_eq!(contract.get_all_cars(), vec![expected]);
}

#[test]
fn registering_a_vin_twice_fails() {
    let mut contract = insured(&[alice(), bob()]);
    contract
        .add_car(alice(), String::from("Toyota"), String::from("VIN-1"), engine_load())
        .unwrap();
    let again = contract.add_car(alice(), String::from("Toyota"), String::from("VIN-1"), engine_load());
    assert_eq!(again, Err(Error::CarAlreadyRegistered));
    let other = contract.add_car(bob(), String::from("Honda"), String::from("VIN-1"), engine_load());
    assert_eq!(other, Err(Error::CarAlreadyRegistered));
    let uninsured =
        contract.add_car(charlie(), String::from("Honda"), String::from("VIN-1"), engine_load());
    assert_eq!(uninsured, Err(Error::NoInsurance));
    assert_eq!(contract.get_all_cars().len(), 1);
    assert_eq!(
        contract.get_cars_owned_by_single_owner(alice()),
        Ok(vec![String::from("VIN-1")])
    );
    assert_eq!(contract.get_cars_owned_by_single_owner(bob()), Err(Error::OwnerNotFound));
    assert_eq!(contract.get_single_car(String::from("VIN-1")).unwrap().owner, alice());
}

#[test]
fn registering_with_an_empty_log_fails_and_stores_nothing() {
    let mut contract = insured(&[alice()]);
    let r = contract.add_car(alice(), String::from("Toyota"), String::from("VIN-1"), Vec::new());
    assert_eq!(r, Err(Error::TransactionFailed));
    assert_eq!(contract.get_all_cars().len(), 0);
    assert_eq!(contract.get_single_car(String::from("VIN-1")), Err(Error::CarNotFound));
    assert_eq!(contract.get_cars_owned_by_single_owner(alice()), Err(Error::OwnerNotFound));
    // The VIN is still free.
    assert!(contract
        .add_car(alice(), String::from("Toyota"), String::from("VIN-1"), engine_load())
        .is_ok());
}

#[test]
fn insurance_is_asked_before_vin_and_vin_before_log() {
    let mut contract = insured(&[alice()]);
    contract
        .add_car(alice(), String::from("Toyota"), String::from("VIN-1"), engine_load())
        .unwrap();
    // Uninsured caller, known VIN, empty log: the insurance is asked first.
    assert_eq!(
        contract.add_car(bob(), String::from("T"), String::from("VIN-1"), Vec::new()),
        Err(Error::NoInsurance)
    );
    // Insured caller, known VIN, empty log: the VIN is asked before the log.
    assert_eq!(
        contract.add_car(alice(), String::from("T"), String::from("VIN-1"), Vec::new()),
        Err(Error::CarAlreadyRegistered)
    );
}

#[test]
fn purchase_covers_and_second_purchase_fails() {
    let mut contract = Chronicle::new();
    assert!(!contract.has_insurance(alice()));
    let event = contract.purchase_insurance(alice(), 7).unwrap();
    assert_eq!(event, InsurancePurchased { user: alice(), premium: 7 });
    assert!(contract.has_insurance(alice()));
    assert_eq!(contract.is_premium(alice()), Ok(true));
    assert_eq!(contract.purchase_insurance(alice(), 7), Err(Error::AlreadyHasInsurance));
    assert_eq!(contract.purchase_insurance(alice(), 0), Err(Error::AlreadyHasInsurance));
    assert!(contract.has_insurance(alice()));
    // Another account is not touched.
    assert!(!contract.has_insurance(bob()));
    assert_eq!(contract.is_premium(bob()), Err(Error::NoInsurance));
}

#[test]
fn purchase_of_nothing_fails_and_changes_nothing() {
    let mut contract = Chronicle::new();
    assert_eq!(contract.purchase_insurance(alice(), 0), Err(Error::NoPremiumProvided));
    assert!(!contract.has_insurance(alice()));
    assert_eq!(contract.is_premium(alice()), Err(Error::NoInsurance));
    assert_eq!(contract.require_coverage(alice()), Err(Error::NoInsurance));
    assert_eq!(
        contract.add_car(alice(), String::from("T"), String::from("V"), engine_load()),
        Err(Error::NoInsurance)
    );
    // A later offer is still accepted.
    assert!(contract.purchase_insurance(alice(), 1).is_ok());
    assert_eq!(contract.require_coverage(alice()), Ok(()));
}

#[test]
fn purchase_accepts_the_largest_offer() {
    let mut contract = Chronicle::new();
    let event = contract.purchase_insurance(alice(), u128::MAX).unwrap();
    assert_eq!(event.premium, u128::MAX);
    assert_eq!(event.user, alice());
}

#[test]
fn owner_index_lists_exactly_the_owners_vins() {
    let mut contract = insured(&[alice(), bob(), charlie()]);
    let order = [
        (alice(), "A-1"),
        (bob(), "B-1"),
        (alice(), "A-2"),
        (bob(), "B-2"),
        (bob(), "B-3"),
        (alice(), "A-3"),
    ];
    for (who, vin) in order {
        contract.add_car(who, String::from("model"), String::from(vin), engine_load()).unwrap();
    }
    assert_eq!(
        contract.get_cars_owned_by_single_owner(alice()),
        Ok(vec![String::from("A-1"), String::from("A-2"), String::from("A-3")])
    );
    assert_eq!(
        contract.get_cars_owned_by_single_owner(bob()),
        Ok(vec![String::from("B-1"), String::from("B-2"), String::from("B-3")])
    );
    assert_eq!(contract.get_cars_owned_by_single_owner(charlie()), Err(Error::OwnerNotFound));
    // The index agrees with the records themselves.
    for who in [alice(), bob(), charlie()] {
        let from_records: Vec<String> = contract
            .get_all_cars()
            .into_iter()
            .filter(|c| c.owner == who)
            .map(|c| c.vin)
            .collect();
        let listed = contract.get_cars_owned_by_single_owner(who).unwrap_or(Vec::new());
        assert_eq!(listed, from_records);
    }
    let all: Vec<String> = contract.get_all_cars().into_iter().map(|c| c.vin).collect();
    assert_eq!(all, vec!["A-1", "B-1", "A-2", "B-2", "B-3", "A-3"]);
}

#[test]
fn appending_puts_new_entries_after_the_old_ones() {
    let mut contract = insured(&[alice()]);
    let first = vec![entry(CarCommand::EngineLoad, "10", 1), entry(CarCommand::EngineLoad, "11", 2)];
    let more = vec![
        entry(CarCommand::DistanceWithMil, "100", 3),
        entry(CarCommand::EngineLoad, "10", 1),
        entry(CarCommand::ThrottlePosition, "9", 4),
    ];
    contract.add_car(alice(), String::from("Toyota"), String::from("VIN-1"), first.clone()).unwrap();
    contract.add_car(alice(), String::from("Honda"), String::from("VIN-2"), first.clone()).unwrap();
    let updated = contract.update_car_logs(alice(), String::from("VIN-1"), more.clone()).unwrap();
    let mut expected = first.clone();
    expected.extend(more.clone());
    assert_eq!(updated.log.len(), 5);
    assert_eq!(updated.log, expected);
    assert_eq!(updated.model, String::from("Toyota"));
    assert_eq!(updated.vin, String::from("VIN-1"));
    assert_eq!(updated.car_identity, String::from("VIN-1"));
    assert_eq!(updated.owner, alice());
    // What is stored is what was returned, in the lookup and in the list.
    assert_eq!(contract.get_single_car(String::from("VIN-1")), Ok(updated.clone()));
    assert_eq!(contract.check_single_car_logs(String::from("VIN-1")), Ok(expected));
    let all = contract.get_all_cars();
    assert_eq!(all.len(), 2);
    assert_eq!(all[0], updated);
    assert_eq!(all[1].log, first);
    assert_eq!(
        contract.get_cars_owned_by_single_owner(alice()),
        Ok(vec![String::from("VIN-1"), String::from("VIN-2")])
    );
}

#[test]
fn appending_nothing_changes_nothing() {
    let mut contract = insured(&[alice()]);
    let car = contract
        .add_car(alice(), String::from("Toyota"), String::from("VIN-1"), engine_load())
        .unwrap();
    let updated = contract.update_car_logs(alice(), String::from("VIN-1"), Vec::new()).unwrap();
    assert_eq!(updated, car);
    assert_eq!(contract.get_single_car(String::from("VIN-1")), Ok(car));
}

#[test]
fn appending_twice_accumulates() {
    let mut contract = insured(&[alice()]);
    contract.add_car(alice(), String::from("Toyota"), String::from("VIN-1"), engine_load()).unwrap();
    contract
        .update_car_logs(alice(), String::from("VIN-1"), vec![entry(CarCommand::EngineLoad, "1", 1)])
        .unwrap();
    let last = contract
        .update_car_logs(alice(), String::from("VIN-1"), vec![entry(CarCommand::EngineLoad, "2", 2)])
        .unwrap();
    assert_eq!(last.log.len(), 3);
    assert_eq!(last.log[1].value, "1");
    assert_eq!(last.log[2].value, "2");
}

#[test]
fn appending_asks_for_insurance_then_for_the_vehicle() {
    let mut contract = insured(&[alice()]);
    contract.add_car(alice(), String::from("Toyota"), String::from("VIN-1"), engine_load()).unwrap();
    assert_eq!(
        contract.update_car_logs(bob(), String::from("VIN-1"), engine_load()),
        Err(Error::NoInsurance)
    );
    assert_eq!(
        contract.update_car_logs(bob(), String::from("nowhere"), engine_load()),
        Err(Error::NoInsurance)
    );
    assert_eq!(
        contract.update_car_logs(alice(), String::from("nowhere"), engine_load()),
        Err(Error::CarNotFound)
    );
    assert_eq!(contract.get_single_car(String::from("VIN-1")).unwrap().log.len(), 1);
}

#[test]
fn any_insured_account_may_append() {
    let mut contract = insured(&[alice(), bob()]);
    contract.add_car(alice(), String::from("Toyota"), String::from("VIN-1"), engine_load()).unwrap();
    let updated = contract.update_car_logs(bob(), String::from("VIN-1"), engine_load()).unwrap();
    assert_eq!(updated.log.len(), 2);
    assert_eq!(updated.owner, alice());
    assert_eq!(contract.get_cars_owned_by_single_owner(bob()), Err(Error::OwnerNotFound));
}

#[test]
fn lookups_of_an_unknown_vin_fail() {
    let contract = insured(&[alice()]);
    assert_eq!(contract.get_single_car(String::from("x")), Err(Error::CarNotFound));
    assert_eq!(contract.check_single_car_logs(String::from("x")), Err(Error::CarNotFound));
    assert_eq!(contract.get_single_car_health(String::from("x")), Err(Error::CarNotFound));
    assert_eq!(contract.predict_car_market_value(String::from("x")), Err(Error::CarNotFound));
}

#[test]
fn three_distance_readings_average_fifty_thousand() {
    let mut contract = insured(&[alice()]);
    let logs = vec![
        entry(CarCommand::DistanceWithMil, "30000", 1),
        entry(CarCommand::DistanceWithMil, "50000", 2),
        entry(CarCommand::DistanceWithMil, "70000", 3),
    ];
    assert_eq!(Chronicle::calculate_average_distance_with_milage(&logs), 50000);
    contract.add_car(alice(), String::from("Toyota"), String::from("VIN-1"), logs).unwrap();
    assert_eq!(contract.get_single_car_health(String::from("VIN-1")), Ok(CarHealth::Excellent));
    assert_eq!(contract.predict_car_market_value(String::from("VIN-1")), Ok(3000));
}

#[test]
fn health_follows_the_log_as_it_grows() {
    let mut contract = insured(&[alice()]);
    contract.add_car(alice(), String::from("Toyota"), String::from("VIN-1"), engine_load()).unwrap();
    // No distance reading yet: the mean is zero.
    assert_eq!(contract.get_single_car_health(String::from("VIN-1")), Ok(CarHealth::Bad));
    assert_eq!(contract.predict_car_market_value(String::from("VIN-1")), Ok(0));
    contract
        .update_car_logs(
            alice(),
            String::from("VIN-1"),
            vec![entry(CarCommand::DistanceWithMil, "3500000", 1)],
        )
        .unwrap();
    assert_eq!(contract.get_single_car_health(String::from("VIN-1")), Ok(CarHealth::Good));
    assert_eq!(contract.predict_car_market_value(String::from("VIN-1")), Ok(2000));
    contract
        .update_car_logs(
            alice(),
            String::from("VIN-1"),
            vec![entry(CarCommand::DistanceWithMil, "8500000", 2)],
        )
        .unwrap();
    // (3 500 000 + 8 500 000) / 2 = 6 000 000
    assert_eq!(contract.get_single_car_health(String::from("VIN-1")), Ok(CarHealth::Fair));
    assert_eq!(contract.predict_car_market_value(String::from("VIN-1")), Ok(1000));
}

#[test]
fn vins_are_compared_as_whole_texts() {
    let mut contract = insured(&[alice()]);
    contract.add_car(alice(), String::from("T"), String::from("VIN"), engine_load()).unwrap();
    assert!(contract.add_car(alice(), String::from("T"), String::from("VIN "), engine_load()).is_ok());
    assert!(contract.add_car(alice(), String::from("T"), String::from("vin"), engine_load()).is_ok());
    assert!(contract.add_car(alice(), String::from("T"), String::from(""), engine_load()).is_ok());
    assert_eq!(
        contract.add_car(alice(), String::from("T"), String::from(""), engine_load()),
        Err(Error::CarAlreadyRegistered)
    );
    assert_eq!(contract.get_all_cars().len(), 4);
}

#[test]
fn accounts_differ_by_any_byte() {
    let mut late = [1u8; 32];
    late[31] = 9;
    let near_alice = AccountId::new(late);
    assert!(near_alice != alice());
    assert!(AccountId::new([1u8; 32]) == alice());
    let mut contract = insured(&[alice()]);
    assert_eq!(contract.is_premium(near_alice), Err(Error::NoInsurance));
    assert_eq!(
        contract.add_car(near_alice, String::from("T"), String::from("V"), engine_load()),
        Err(Error::NoInsurance)
    );
}
