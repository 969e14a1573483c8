use futures::future::lazy;
use futures::{Async, Future};
use guac_core::amount::U256;
use guac_core::crypto::Address;
use guac_core::storage::InMemoryStorage;
use qutex::{FutureGuard, Qutex};

fn poll_once(f: &mut FutureGuard<InMemoryStorage>) -> Option<qutex::Guard<InMemoryStorage>> {
    lazy(|| {
        Ok::<_, ()>(match f.poll() {
            Ok(Async::Ready(g)) => Some(g),
            Ok(Async::NotReady) => None,
            Err(_) => panic!("lock request cancelled"),
        })
    })
    .wait()
    .unwrap()
}

#[test]
fn registry_lock_admits_one_holder_at_a_time() {
    let registry = Qutex::new(InMemoryStorage::new());
    let mut requests: Vec<FutureGuard<InMemoryStorage>> =
        (0..5).map(|_| registry.clone().lock()).collect();
    let mut held: Vec<bool> = vec![false; 5];
    for round in 0..5 {
        let mut granted: Vec<(usize, qutex::Guard<InMemoryStorage>)> = Vec::new();
        for (i, r) in requests.iter_mut().enumerate() {
            if !held[i] {
                if let Some(g) = poll_once(r) {
                    granted.push((i, g));
                }
            }
        }
        assert_eq!(granted.len(), 1, "round {}", round);
        let (i, mut guard) = granted.pop().unwrap();
        held[i] = true;
        let mut id = [0u8; 32];
        id[31] = i as u8;
        guard.register_with_id(
            U256::from_bytes(id),
            format!("peer{}", i),
            Address::from_bytes([1u8; 20]),
            Address::from_bytes([2u8; 20]),
            U256::from_bytes([0u8; 32]),
            U256::from_bytes([0u8; 32]),
        );
        drop(guard);
    }
    let all = registry.lock().wait().unwrap();
    for i in 0..5u8 {
        let mut id = [0u8; 32];
        id[31] = i;
        assert_eq!(
            all.get_url_for_channel(&U256::from_bytes(id)).unwrap(),
            format!("peer{}", i)
        );
    }
}
