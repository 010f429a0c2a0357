use counted::asc::Asc;
use std::cell::Cell;
use std::rc::Rc;
use std::sync::Arc;

struct Counted {
    value: u64,
    drops: Rc<Cell<usize>>,
}

impl Drop for Counted {
    fn drop(&mut self) {
        self.drops.set(self.drops.get() + 1);
    }
}

fn counted_value(value: u64) -> (Asc<Counted>, Rc<Cell<usize>>) {
    let drops = Rc::new(Cell::new(0));
    let h = Asc::new(Counted { value, drops: drops.clone() });
    (h, drops)
}

trait Area {
    fn area(&self) -> u64;
}

struct Rect {
    w: u64,
    h: u64,
    scale: Cell<u64>,
    drops: Rc<Cell<usize>>,
}

impl Area for Rect {
    fn area(&self) -> u64 {
        self.w * self.h * self.scale.get()
    }
}

impl Drop for Rect {
    fn drop(&mut self) {
        self.drops.set(self.drops.get() + 1);
    }
}

fn rect(drops: &Rc<Cell<usize>>) -> Asc<Rect> {
    Asc::new(Rect { w: 3, h: 4, scale: Cell::new(1), drops: drops.clone() })
}

fn widen(h: Asc<Rect>) -> Asc<dyn Area> {
    Asc::from_arc(h.into_arc() as Arc<dyn Area>)
}

#[test]
fn asc_create_then_release_frees_once() {
    let (h, drops) = counted_value(5);
    assert_eq!(h.value, 5);
    assert_eq!(drops.get(), 0);
    drop(h);
    assert_eq!(drops.get(), 1);
}

#[test]
fn asc_scenario_clone_release_deref() {
    let (a, drops) = counted_value(42);
    let b = a.clone();
    assert_eq!(b.strong_count(), 2);
    drop(a);
    assert_eq!(drops.get(), 0);
    assert_eq!(b.value, 42);
    assert_eq!(b.strong_count(), 1);
    drop(b);
    assert_eq!(drops.get(), 1);
}

#[test]
fn asc_release_all_in_any_order_frees_after_last() {
    let n: usize = 6;
    let orders: [[usize; 6]; 3] = [[0, 1, 2, 3, 4, 5], [5, 4, 3, 2, 1, 0], [3, 0, 5, 1, 4, 2]];
    for order in orders.iter() {
        let (first, drops) = counted_value(9);
        let mut handles: Vec<Option<Asc<Counted>>> = vec![Some(first)];
        for _ in 1..n {
            let c = handles[0].as_ref().unwrap().clone();
            handles.push(Some(c));
        }
        assert_eq!(handles[0].as_ref().unwrap().strong_count(), n);
        for (k, &i) in order.iter().enumerate() {
            let h = handles[i].take().unwrap();
            drop(h);
            if k + 1 < n {
                assert_eq!(drops.get(), 0);
                for s in handles.iter().flatten() {
                    assert_eq!(s.value, 9);
                    assert_eq!(s.strong_count(), n - k - 1);
                }
            } else {
                assert_eq!(drops.get(), 1);
            }
        }
    }
}

#[test]
fn asc_fewer_releases_keep_payload() {
    let (a, drops) = counted_value(11);
    let b = a.clone();
    let c = b.clone();
    drop(b);
    drop(a);
    assert_eq!(drops.get(), 0);
    assert_eq!(c.value, 11);
    assert!(Rc::ptr_eq(&c.drops, &drops));
}

#[test]
fn asc_widened_handle_reaches_same_payload() {
    let drops = Rc::new(Cell::new(0));
    let original = rect(&drops);
    let wide = widen(original.clone());
    assert_eq!(wide.area(), 12);
    original.scale.set(2);
    assert_eq!(wide.area(), 24);
    assert_eq!(original.strong_count(), 2);
    assert_eq!(wide.strong_count(), 2);
}

#[test]
fn asc_widened_clone_release_original_first() {
    let drops = Rc::new(Cell::new(0));
    let original = rect(&drops);
    let wide = widen(original.clone());
    let wide2 = wide.clone();
    assert_eq!(wide2.area(), 12);
    drop(original);
    assert_eq!(drops.get(), 0);
    drop(wide);
    assert_eq!(drops.get(), 0);
    assert_eq!(wide2.area(), 12);
    drop(wide2);
    assert_eq!(drops.get(), 1);
}

#[test]
fn asc_widened_clone_release_widened_first() {
    let drops = Rc::new(Cell::new(0));
    let original = rect(&drops);
    let wide = widen(original.clone());
    let wide2 = wide.clone();
    drop(wide2);
    drop(wide);
    assert_eq!(drops.get(), 0);
    assert_eq!(original.area(), 12);
    drop(original);
    assert_eq!(drops.get(), 1);
}

#[test]
fn asc_ptr_eq_tells_allocations_apart() {
    let a = Asc::new(1u32);
    let b = a.clone();
    let c = Asc::new(1u32);
    assert!(Asc::ptr_eq(&a, &b));
    assert!(!Asc::ptr_eq(&a, &c));
}

#[test]
fn asc_new_with_count_starts_at_one() {
    let a = Asc::new_with_count(String::from("x"));
    assert_eq!(a.strong_count(), 1);
    assert_eq!(a.as_str(), "x");
    let r = a.into_arc();
    assert_eq!(Arc::strong_count(&r), 1);
    let back = Asc::from_arc(r);
    assert_eq!(*back, "x");
}

#[test]
fn asc_thousand_clones_in_eight_shares_free_once() {
    let (root, drops) = counted_value(77);
    let mut shares: Vec<Vec<Asc<Counted>>> = (0..8).map(|_| Vec::new()).collect();
    for i in 0..1000 {
        shares[i % 8].push(root.clone());
    }
    drop(root);
    assert_eq!(shares[0][0].strong_count(), 1000);
    let mut released = 0;
    let mut round = 0;
    while released < 1000 {
        for s in 0..8 {
            let share = &mut shares[(s * 3 + round) % 8];
            if let Some(h) = share.pop() {
                assert_eq!(drops.get(), 0);
                assert_eq!(h.value, 77);
                drop(h);
                released += 1;
            }
        }
        round += 1;
    }
    assert_eq!(drops.get(), 1);
}
