use cudart::result::device::{
    get, get_attribute, get_count, get_property, total_mem, CudartDevice,
};
use cudart::result::{cudaError_t, CudartError};

#[derive(Clone, Copy, Debug, PartialEq, Eq)]
struct Record {
    total_global_mem: usize,
    warp_size: i32,
    major: i32,
    minor: i32,
}

fn filled() -> Record {
    Record { total_global_mem: 25_769_803_776, warp_size: 32, major: 8, minor: 6 }
}

fn zeroed() -> Record {
    Record { total_global_mem: 0, warp_size: 0, major: 0, minor: 0 }
}

#[test]
fn get_hands_on_the_current_device() {
    let device: CudartDevice = 1;
    assert!(get(cudaError_t(0), device) == Ok(1));
    assert!(get(cudaError_t(0), 0) == Ok(0));
}

#[test]
fn get_fails_with_the_status_of_the_query() {
    assert!(get(cudaError_t(100), 0) == Err(CudartError(cudaError_t(100))));
    assert!(get(cudaError_t(3), 5) == Err(CudartError(cudaError_t(3))));
}

#[test]
fn get_count_hands_on_the_count() {
    assert!(get_count(cudaError_t(0), 0) == Ok(0));
    assert!(get_count(cudaError_t(0), 4) == Ok(4));
    assert!(get_count(cudaError_t(0), i32::MAX) == Ok(i32::MAX));
}

#[test]
fn get_count_fails_with_the_status_of_the_query() {
    assert!(get_count(cudaError_t(35), 4) == Err(CudartError(cudaError_t(35))));
    assert!(get_count(cudaError_t(100), 0) == Err(CudartError(cudaError_t(100))));
}

#[test]
fn get_property_hands_on_the_whole_record() {
    assert!(get_property(cudaError_t(0), filled()) == Ok(filled()));
    assert!(get_property(cudaError_t(0), zeroed()) == Ok(zeroed()));
}

#[test]
fn get_property_fails_with_the_status_of_the_query() {
    assert!(get_property(cudaError_t(101), filled()) == Err(CudartError(cudaError_t(101))));
}

#[test]
fn get_property_takes_any_record() {
    let name = String::from("a device");
    assert!(get_property(cudaError_t(0), name.clone()) == Ok(name.clone()));
    assert!(get_property(cudaError_t(1), name) == Err(CudartError(cudaError_t(1))));
}

#[test]
fn property_of_a_device_past_the_count_is_an_error() {
    let count = match get_count(cudaError_t(0), 2) {
        Ok(count) => count,
        Err(_) => panic!("the count was withheld"),
    };
    assert_eq!(count, 2);
    let invalid_device = cudaError_t(101);
    match get_property(invalid_device, zeroed()) {
        Ok(_) => panic!("a record that was never filled was handed on"),
        Err(error) => assert!(error == CudartError(invalid_device)),
    }
    match total_mem(invalid_device, zeroed().total_global_mem) {
        Ok(_) => panic!("a field that was never filled was handed on"),
        Err(error) => assert!(error == CudartError(invalid_device)),
    }
}

#[test]
fn every_device_below_the_count_is_served() {
    let count = match get_count(cudaError_t(0), 3) {
        Ok(count) => count,
        Err(_) => panic!("the count was withheld"),
    };
    assert_eq!(count, 3);
    for device in 0..count {
        let record = Record { total_global_mem: 1 << 30, warp_size: 32, major: 9, minor: device };
        assert!(get_property(cudaError_t(0), record) == Ok(record));
        assert!(get_attribute(cudaError_t(0), 1024 + device) == Ok(1024 + device));
        assert!(total_mem(cudaError_t(0), record.total_global_mem) == Ok(1 << 30));
    }
}

#[test]
fn total_mem_hands_on_the_field() {
    assert!(total_mem(cudaError_t(0), 25_769_803_776) == Ok(25_769_803_776));
    assert!(total_mem(cudaError_t(0), 0) == Ok(0));
    assert!(total_mem(cudaError_t(0), usize::MAX) == Ok(usize::MAX));
}

#[test]
fn total_mem_fails_with_the_status_of_the_query() {
    assert!(total_mem(cudaError_t(101), 25_769_803_776) == Err(CudartError(cudaError_t(101))));
}

#[test]
fn total_mem_is_the_field_of_the_property_record() {
    let statuses: Vec<u32> = vec![0, 1, 101, 999];
    for code in statuses {
        let status = cudaError_t(code);
        let record = filled();
        let from_record = get_property(status, record).map(|prop| prop.total_global_mem);
        assert!(total_mem(status, record.total_global_mem) == from_record);
    }
}

#[test]
fn get_attribute_hands_on_the_value() {
    assert!(get_attribute(cudaError_t(0), 1024) == Ok(1024));
    assert!(get_attribute(cudaError_t(0), -1) == Ok(-1));
}

#[test]
fn get_attribute_fails_with_the_status_of_the_query() {
    assert!(get_attribute(cudaError_t(1), 1024) == Err(CudartError(cudaError_t(1))));
    assert!(get_attribute(cudaError_t(101), 0) == Err(CudartError(cudaError_t(101))));
}

#[test]
fn the_same_answer_is_worth_the_same_to_every_caller() {
    let first = get_count(cudaError_t(0), 2);
    let second = get_count(cudaError_t(0), 2);
    assert!(first == second);
    assert!(first == Ok(2));
    let failed_first = get_count(cudaError_t(100), 0);
    let failed_second = get_count(cudaError_t(100), 0);
    assert!(failed_first == failed_second);
}
