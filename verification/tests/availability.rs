use modelnet::{resources_available_for_request, ModelRes};

fn entry(power: usize, speed: usize) -> ModelRes {
    ModelRes { id: 1, hardware: "gpu".to_string(), power, speed }
}

#[test]
fn enough_is_available() {
    let wanted = Some(entry(110, 200));
    assert!(resources_available_for_request(&wanted, &Ok(vec![entry(110, 200)])));
    assert!(resources_available_for_request(&wanted, &Ok(vec![entry(500, 201)])));
}

#[test]
fn less_power_or_less_speed_is_not_available() {
    let wanted = Some(entry(110, 200));
    assert!(!resources_available_for_request(&wanted, &Ok(vec![entry(109, 200)])));
    assert!(!resources_available_for_request(&wanted, &Ok(vec![entry(110, 199)])));
    assert!(!resources_available_for_request(&wanted, &Ok(vec![entry(0, 0)])));
}

#[test]
fn every_entry_has_to_suffice() {
    let wanted = Some(entry(110, 200));
    let good = || entry(200, 300);
    let bad = || entry(200, 100);
    assert!(resources_available_for_request(&wanted, &Ok(vec![good(), good()])));
    assert!(!resources_available_for_request(&wanted, &Ok(vec![good(), bad()])));
    assert!(!resources_available_for_request(&wanted, &Ok(vec![bad(), good()])));
}

#[test]
fn nothing_listed_rules_nothing_out() {
    assert!(resources_available_for_request(&Some(entry(usize::MAX, usize::MAX)), &Ok(vec![])));
}

#[test]
fn what_cannot_be_read_rules_nothing_out() {
    assert!(resources_available_for_request(&None, &Ok(vec![entry(0, 0)])));
    assert!(resources_available_for_request(&None, &Err("no file".to_string())));
    assert!(resources_available_for_request(&Some(entry(9, 9)), &Err("no file".to_string())));
}

#[test]
fn a_smaller_request_stays_available() {
    let local = Ok(vec![entry(5, 7), entry(6, 8)]);
    assert!(resources_available_for_request(&Some(entry(5, 7)), &local));
    assert!(resources_available_for_request(&Some(entry(5, 6)), &local));
    assert!(resources_available_for_request(&Some(entry(0, 0)), &local));
}

#[test]
fn hardware_and_id_do_not_count() {
    let wanted = Some(ModelRes { id: 9, hardware: "cpu".to_string(), power: 1, speed: 1 });
    assert!(resources_available_for_request(&wanted, &Ok(vec![entry(1, 1)])));
}
