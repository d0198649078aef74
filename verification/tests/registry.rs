use popol::events::{POLLIN, POLLOUT, POLLPRI, READ};
use popol::{Descriptor, Descriptors};

fn fds_of(d: &Descriptors<u32>) -> Vec<i32> {
    d.records().iter().map(|r| r.fd).collect()
}

fn four() -> Descriptors<u32> {
    let mut d: Descriptors<u32> = Descriptors::new();
    d.register(1, 11, POLLIN);
    d.register(2, 12, POLLOUT);
    d.register(3, 13, POLLIN | POLLOUT);
    d.register(4, 14, POLLPRI);
    d
}

#[test]
fn new_registry_is_empty() {
    let d: Descriptors<u32> = Descriptors::new();
    assert_eq!(d.len(), 0);
    assert!(d.keys().is_empty());
    assert!(d.records().is_empty());
    assert_eq!(d.reader(0), None);
}

#[test]
fn with_capacity_is_empty() {
    let d: Descriptors<u32> = Descriptors::with_capacity(16);
    assert_eq!(d.len(), 0);
    assert!(d.keys().is_empty());
    assert!(d.records().is_empty());
}

#[test]
fn register_appends_in_order() {
    let d = four();
    assert_eq!(d.len(), 4);
    assert_eq!(d.keys(), &vec![1, 2, 3, 4]);
    assert_eq!(fds_of(&d), vec![11, 12, 13, 14]);
    assert_eq!(d.records()[2].events, POLLIN | POLLOUT);
    assert_eq!(d.records()[2].revents, 0);
}

#[test]
fn insert_keeps_the_record_as_given() {
    let mut d: Descriptors<u32> = Descriptors::new();
    d.insert(8, Descriptor { fd: 21, events: POLLOUT, revents: POLLIN });
    assert_eq!(d.keys(), &vec![8]);
    assert_eq!(d.records()[0].fd, 21);
    assert_eq!(d.records()[0].events, POLLOUT);
    assert_eq!(d.records()[0].revents, POLLIN);
}

#[test]
fn duplicate_key_makes_a_second_entry() {
    let mut d = four();
    d.register(2, 22, POLLIN);
    assert_eq!(d.keys(), &vec![1, 2, 3, 4, 2]);
    assert_eq!(fds_of(&d), vec![11, 12, 13, 14, 22]);
}

#[test]
fn unregister_moves_the_last_into_place() {
    let mut d = four();
    d.unregister(2);
    assert_eq!(d.keys(), &vec![1, 4, 3]);
    assert_eq!(fds_of(&d), vec![11, 14, 13]);
}

#[test]
fn unregister_last_just_drops_it() {
    let mut d = four();
    d.unregister(4);
    assert_eq!(d.keys(), &vec![1, 2, 3]);
    assert_eq!(fds_of(&d), vec![11, 12, 13]);
}

#[test]
fn unregister_only_entry_empties() {
    let mut d: Descriptors<u32> = Descriptors::new();
    d.register(1, 11, POLLIN);
    d.unregister(1);
    assert_eq!(d.len(), 0);
    assert!(d.keys().is_empty());
}

#[test]
fn unregister_absent_changes_nothing() {
    let mut d = four();
    d.unregister(9);
    assert_eq!(d.keys(), &vec![1, 2, 3, 4]);
    assert_eq!(fds_of(&d), vec![11, 12, 13, 14]);
    let mut e: Descriptors<u32> = Descriptors::new();
    e.unregister(9);
    assert_eq!(e.len(), 0);
}

#[test]
fn unregister_takes_the_first_of_two() {
    let mut d = four();
    d.register(2, 22, POLLIN);
    d.unregister(2);
    assert_eq!(d.keys(), &vec![1, 2, 3, 4]);
    assert_eq!(fds_of(&d), vec![11, 22, 13, 14]);
}

#[test]
fn set_absent_is_false_and_changes_nothing() {
    let mut d = four();
    assert!(!d.set(9, POLLOUT));
    assert_eq!(d.keys(), &vec![1, 2, 3, 4]);
    let events: Vec<i16> = d.records().iter().map(|r| r.events).collect();
    assert_eq!(events, vec![POLLIN, POLLOUT, POLLIN | POLLOUT, POLLPRI]);
}

#[test]
fn set_present_changes_one_interest_mask() {
    let mut d = four();
    assert!(d.set(3, POLLPRI));
    assert_eq!(d.keys(), &vec![1, 2, 3, 4]);
    assert_eq!(fds_of(&d), vec![11, 12, 13, 14]);
    let events: Vec<i16> = d.records().iter().map(|r| r.events).collect();
    assert_eq!(events, vec![POLLIN, POLLOUT, POLLPRI, POLLPRI]);
}

#[test]
fn set_acts_on_the_first_of_two() {
    let mut d = four();
    d.register(2, 22, POLLIN);
    assert!(d.set(2, POLLPRI));
    assert_eq!(d.records()[1].events, POLLPRI);
    assert_eq!(d.records()[4].events, POLLIN);
}

#[test]
fn register_then_set_same_mask_is_found_and_idle() {
    let mut d = four();
    d.register(5, 15, POLLIN | POLLPRI);
    assert!(d.set(5, POLLIN | POLLPRI));
    assert_eq!(d.keys(), &vec![1, 2, 3, 4, 5]);
    assert_eq!(d.records()[4].fd, 15);
    assert_eq!(d.records()[4].events, POLLIN | POLLPRI);
    assert_eq!(d.records()[4].revents, 0);
    assert!(d.set(5, POLLIN | POLLPRI));
    assert_eq!(d.records()[4].events, POLLIN | POLLPRI);
}

#[test]
fn narrow_drops_flags_at_a_slot() {
    let mut d = four();
    assert!(d.narrow(2, POLLOUT));
    assert_eq!(d.records()[2].events, POLLIN);
    assert_eq!(d.records()[1].events, POLLOUT);
    assert!(!d.narrow(4, POLLIN));
    let events: Vec<i16> = d.records().iter().map(|r| r.events).collect();
    assert_eq!(events, vec![POLLIN, POLLOUT, POLLIN, POLLPRI]);
}

#[test]
fn keys_and_records_stay_aligned() {
    let mut d: Descriptors<u32> = Descriptors::new();
    for k in 0..20u32 {
        let k32: i32 = 100 + k as i32;
        d.register(k, k32, POLLIN);
        assert_eq!(d.keys().len(), d.records().len());
    }
    for k in [3u32, 19, 0, 7, 7, 40, 12] {
        d.unregister(k);
        d.set(k + 1, POLLOUT);
        assert_eq!(d.keys().len(), d.records().len());
        for (key, record) in d.keys().iter().zip(d.records().iter()) {
            assert_eq!(record.fd, 100 + *key as i32);
        }
    }
    assert_eq!(d.len(), 15);
}

#[test]
fn register_waker_notes_the_slot() {
    let mut d = four();
    d.register_waker(50, 33);
    assert_eq!(d.keys(), &vec![1, 2, 3, 4, 50]);
    assert_eq!(d.records()[4].fd, 33);
    assert_eq!(d.records()[4].events, READ);
    assert_eq!(d.records()[4].revents, 0);
    assert_eq!(d.reader(4), Some(33));
    assert_eq!(d.reader(3), None);
    assert_eq!(d.reader(5), None);
}

#[test]
fn unregister_leaves_waker_slots_alone() {
    let mut d: Descriptors<u32> = Descriptors::new();
    d.register_waker(50, 33);
    d.register(1, 11, POLLIN);
    d.unregister(50);
    assert_eq!(d.keys(), &vec![1]);
    assert_eq!(d.reader(0), Some(33));
}

#[test]
fn record_writes_result_masks_only() {
    let mut d = four();
    assert!(d.record(&vec![POLLIN, 0, POLLOUT, 0]));
    let revents: Vec<i16> = d.records().iter().map(|r| r.revents).collect();
    assert_eq!(revents, vec![POLLIN, 0, POLLOUT, 0]);
    let events: Vec<i16> = d.records().iter().map(|r| r.events).collect();
    assert_eq!(events, vec![POLLIN, POLLOUT, POLLIN | POLLOUT, POLLPRI]);
    assert_eq!(fds_of(&d), vec![11, 12, 13, 14]);
    assert!(!d.record(&vec![0, 0, 0]));
    let revents: Vec<i16> = d.records().iter().map(|r| r.revents).collect();
    assert_eq!(revents, vec![POLLIN, 0, POLLOUT, 0]);
}

#[test]
fn set_leaves_result_masks_of_the_last_round() {
    let mut d = four();
    assert!(d.record(&vec![POLLIN, POLLOUT, 0, 0]));
    assert!(d.set(2, POLLIN));
    assert_eq!(d.records()[1].events, POLLIN);
    assert_eq!(d.records()[1].revents, POLLOUT);
    assert_eq!(d.records()[0].revents, POLLIN);
}

#[test]
fn ready_lists_nonzero_results_in_order() {
    let mut d = four();
    assert!(d.record(&vec![0, POLLOUT, 0, POLLPRI]));
    let ready = d.ready();
    assert_eq!(ready.len(), 2);
    assert_eq!(ready[0].0, 2);
    assert_eq!(ready[0].1.slot, 1);
    assert!(ready[0].1.writable && !ready[0].1.readable);
    assert_eq!(ready[1].0, 4);
    assert_eq!(ready[1].1.slot, 3);
    assert!(ready[1].1.readable && !ready[1].1.writable);
}
