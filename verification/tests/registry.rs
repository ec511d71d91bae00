use tsn::error::TsnError;
use tsn::registry::{
    acquire, prune, read_shmem, release, release_with, remove_user, write_shmem, SHM_SIZE, SLOTS,
};

#[test]
fn a_segment_holds_thirty_two_users() {
    assert_eq!(SLOTS * 4, SHM_SIZE);
    assert_eq!(SLOTS, 32);
}

#[test]
fn users_are_the_slots_that_are_set() {
    let mut slots = vec![0u32; 32];
    assert_eq!(read_shmem(&slots), Vec::<u32>::new());
    slots[0] = 11;
    slots[1] = 22;
    assert_eq!(read_shmem(&slots), vec![11, 22]);
    slots[5] = 33;
    assert_eq!(read_shmem(&slots), vec![11, 22, 33]);
}

#[test]
fn slots_are_the_users_and_then_zeros() {
    let slots = write_shmem(&vec![7, 8, 9]).unwrap();
    assert_eq!(slots.len(), 32);
    assert_eq!(&slots[..4], &[7, 8, 9, 0]);
    assert!(slots[3..].iter().all(|s| *s == 0));
    assert_eq!(write_shmem(&vec![]).unwrap(), vec![0u32; 32]);
    let full: Vec<u32> = (1..=32).collect();
    assert_eq!(write_shmem(&full).unwrap(), full);
}

#[test]
fn too_many_users_are_refused() {
    let over: Vec<u32> = (1..=33).collect();
    assert_eq!(write_shmem(&over), Err(TsnError::TooManyUsers));
    let mut users: Vec<u32> = (1..=32).collect();
    assert_eq!(acquire(&mut users, 99), Err(TsnError::TooManyUsers));
    assert_eq!(users.len(), 32);
    let mut users: Vec<u32> = (1..=31).collect();
    assert_eq!(acquire(&mut users, 99), Ok(false));
    assert_eq!(users.len(), 32);
}

#[test]
fn reading_what_was_written_gives_the_users() {
    for users in [vec![], vec![1], vec![5, 5, 3], (100..132).collect::<Vec<u32>>()] {
        assert_eq!(read_shmem(&write_shmem(&users).unwrap()), users);
    }
}

#[test]
fn the_first_user_is_told_so() {
    let mut users = vec![];
    assert_eq!(acquire(&mut users, 41), Ok(true));
    assert_eq!(acquire(&mut users, 42), Ok(false));
    assert_eq!(acquire(&mut users, 41), Ok(false));
    assert_eq!(users, vec![41, 42, 41]);
    assert_eq!(acquire(&mut users, 0), Err(TsnError::InvalidArgument));
    assert_eq!(users, vec![41, 42, 41]);
}

#[test]
fn only_the_first_entry_of_a_user_leaves() {
    let mut users = vec![41, 42, 41, 43];
    remove_user(&mut users, 41);
    assert_eq!(users, vec![42, 41, 43]);
    remove_user(&mut users, 99);
    assert_eq!(users, vec![42, 41, 43]);
    remove_user(&mut users, 43);
    assert_eq!(users, vec![42, 41]);
}

#[test]
fn users_that_are_gone_are_dropped() {
    let mut users = vec![1, 2, 3, 4];
    prune(&mut users, &[true, false, false, true]);
    assert_eq!(users, vec![1, 4]);
    prune(&mut users, &[false, false]);
    assert!(users.is_empty());
}

#[test]
fn multi_process_registry() {
    let (p1, p2) = (1001u32, 1002u32);
    let mut record = read_shmem(&vec![0u32; 32]);
    // P1 opens: the segment is new, the VLAN is to be created
    assert_eq!(acquire(&mut record, p1), Ok(true));
    let slots = write_shmem(&record).unwrap();
    assert_eq!(read_shmem(&slots), vec![p1]);
    // P2 opens: no new commands
    let mut record = read_shmem(&slots);
    assert_eq!(acquire(&mut record, p2), Ok(false));
    let slots = write_shmem(&record).unwrap();
    assert_eq!(read_shmem(&slots), vec![p1, p2]);
    // P1 closes: P2 is left, nothing is torn down
    let mut record = read_shmem(&slots);
    assert!(!release_with(&mut record, p1, &[true]));
    let slots = write_shmem(&record).unwrap();
    assert_eq!(read_shmem(&slots), vec![p2]);
    // P2 closes: the record is empty, the VLAN is to be deleted
    let mut record = read_shmem(&slots);
    assert!(release_with(&mut record, p2, &[]));
    assert_eq!(write_shmem(&record).unwrap(), vec![0u32; 32]);
}

#[test]
fn open_then_close_leaves_the_record_empty() {
    let mut record = vec![];
    assert_eq!(acquire(&mut record, me()), Ok(true));
    assert!(release(&mut record, me()));
    assert!(record.is_empty());
}

#[test]
fn interleaved_users_leave_what_serial_users_leave() {
    let orders: [[(bool, u32); 6]; 3] = [
        [(true, 1), (false, 1), (true, 2), (false, 2), (true, 3), (false, 3)],
        [(true, 1), (true, 2), (true, 3), (false, 1), (false, 2), (false, 3)],
        [(true, 3), (true, 1), (false, 3), (true, 2), (false, 2), (false, 1)],
    ];
    for order in orders.iter() {
        let mut record = vec![];
        let mut created = 0;
        let mut deleted = 0;
        for (open, pid) in order.iter() {
            if *open {
                if acquire(&mut record, *pid).unwrap() {
                    created += 1;
                }
            } else {
                let alive = vec![true; record.len() - 1];
                if release_with(&mut record, *pid, &alive) {
                    deleted += 1;
                }
            }
        }
        assert!(record.is_empty());
        assert_eq!(created, deleted);
    }
}

#[test]
fn a_stale_user_is_pruned_on_release() {
    let me = me();
    // no process has the largest id that the system can give
    let stale = 0x7fff_fff0u32;
    let mut record = vec![stale, me, me];
    assert!(!release(&mut record, me));
    assert_eq!(record, vec![me]);
    let mut record = vec![stale, me];
    assert!(release(&mut record, me));
    assert!(record.is_empty());
    let mut record = vec![0x8000_0001, me];
    assert!(!release(&mut record, 5));
    assert_eq!(record, vec![me]);
}

fn me() -> u32 {
    nix::unistd::Pid::this().as_raw() as u32
}
