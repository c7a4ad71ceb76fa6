use sysinfo::FileBudget;
use sysinfo::FileCounter;

#[test]
fn acquire_up_to_ceiling_then_fail() {
    let mut b = FileBudget::new(2);
    let h1 = FileCounter::new(10u32, &mut b);
    assert!(h1.is_some());
    assert_eq!(b.remaining(), 1);
    let h2 = FileCounter::new(20u32, &mut b);
    assert!(h2.is_some());
    assert_eq!(b.remaining(), 0);
    let h3 = FileCounter::new(30u32, &mut b);
    assert!(h3.is_none());
    assert_eq!(b.remaining(), 0);
}

#[test]
fn zero_budget_acquire_fails_without_underflow() {
    let mut b = FileBudget::new(0);
    let h = FileCounter::new(1u8, &mut b);
    assert!(h.is_none());
    assert_eq!(b.remaining(), 0);
    assert_eq!(b.ceiling(), 0);
}

#[test]
fn release_restores_exactly_one_unit() {
    let mut b = FileBudget::new(3);
    let h = FileCounter::new(7i32, &mut b).unwrap();
    assert_eq!(b.remaining(), 2);
    let v = h.release(&mut b);
    assert_eq!(v, 7);
    assert_eq!(b.remaining(), 3);
}

#[test]
fn release_pays_back_on_every_path() {
    let mut b = FileBudget::new(1);
    for step in 0..3u32 {
        let h = FileCounter::new(step, &mut b).unwrap();
        assert_eq!(b.remaining(), 0);
        assert!(FileCounter::new(99u32, &mut b).is_none());
        let got = h.release(&mut b);
        assert_eq!(got, step);
        assert_eq!(b.remaining(), 1);
    }
}

#[test]
fn sequence_of_acquires_has_at_most_k_successes() {
    let k: u64 = 5;
    let mut b = FileBudget::new(k);
    let mut held = Vec::new();
    let mut successes: u64 = 0;
    for i in 0..(k + 3) {
        match FileCounter::new(i, &mut b) {
            Some(h) => {
                successes += 1;
                held.push(h);
            }
            None => {}
        }
    }
    assert_eq!(successes, k);
    assert_eq!(b.remaining(), 0);
    for h in held {
        let _ = h.release(&mut b);
    }
    assert_eq!(b.remaining(), k);
}

#[test]
fn get_and_get_mut_reach_the_handle() {
    let mut b = FileBudget::new(1);
    let mut h = FileCounter::new(String::from("fd"), &mut b).unwrap();
    assert_eq!(h.get(), "fd");
    h.get_mut().push('x');
    assert_eq!(h.get(), "fdx");
    let s = h.release(&mut b);
    assert_eq!(s, "fdx");
}
