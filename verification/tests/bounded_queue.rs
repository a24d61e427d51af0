use mikan_os::error::Error;
use mikan_os::queue::ArrayQueue;

#[test]
fn push_until_full_then_overflow_is_refused() {
    let mut q: ArrayQueue<u32> = ArrayQueue::new(vec![0; 4]);
    assert_eq!(q.capacity(), 4);
    for i in 0..4u32 {
        assert_eq!(q.push(10 + i), Ok(()));
        assert_eq!(q.len(), (i + 1) as usize);
    }
    assert!(q.is_full());
    assert_eq!(q.push(99), Err(Error::Full));
    assert_eq!(q.len(), 4);
    for i in 0..4u32 {
        assert_eq!(q.pop(), Some(10 + i));
    }
    assert_eq!(q.len(), 0);
    assert_eq!(q.pop(), None);
    assert_eq!(q.pop(), None);
    assert!(q.is_empty());
}

#[test]
fn queue_wraps_around_the_buffer_end() {
    let mut q: ArrayQueue<u8> = ArrayQueue::new(vec![0; 3]);
    assert_eq!(q.push(1), Ok(()));
    assert_eq!(q.push(2), Ok(()));
    assert_eq!(q.pop(), Some(1));
    assert_eq!(q.push(3), Ok(()));
    assert_eq!(q.push(4), Ok(()));
    assert_eq!(q.push(5), Err(Error::Full));
    assert_eq!(q.front(), Some(2));
    assert_eq!(q.pop(), Some(2));
    assert_eq!(q.pop(), Some(3));
    assert_eq!(q.pop(), Some(4));
    assert_eq!(q.front(), None);
    assert_eq!(q.pop(), None);
}

#[test]
fn queue_of_capacity_zero_refuses_every_push() {
    let mut q: ArrayQueue<u8> = ArrayQueue::new(Vec::new());
    assert_eq!(q.capacity(), 0);
    assert_eq!(q.push(1), Err(Error::Full));
    assert_eq!(q.pop(), None);
    assert_eq!(q.len(), 0);
}

#[test]
fn queue_ignores_what_the_buffer_held() {
    let mut q: ArrayQueue<u16> = ArrayQueue::new(vec![7, 8, 9]);
    assert_eq!(q.len(), 0);
    assert_eq!(q.front(), None);
    assert_eq!(q.push(1), Ok(()));
    assert_eq!(q.pop(), Some(1));
    assert_eq!(q.pop(), None);
}

#[test]
fn queue_length_stays_within_capacity_over_a_long_history() {
    let capacity = 5usize;
    let mut q: ArrayQueue<u64> = ArrayQueue::new(vec![0; capacity]);
    let mut model: Vec<u64> = Vec::new();
    let mut seed: u64 = 0x1234_5678;
    for step in 0..2000u64 {
        seed = seed.wrapping_mul(6364136223846793005).wrapping_add(1442695040888963407);
        if (seed >> 33) % 3 != 0 {
            let pushed = q.push(step);
            if model.len() < capacity {
                assert_eq!(pushed, Ok(()));
                model.push(step);
            } else {
                assert_eq!(pushed, Err(Error::Full));
            }
        } else {
            let popped = q.pop();
            if model.is_empty() {
                assert_eq!(popped, None);
            } else {
                assert_eq!(popped, Some(model.remove(0)));
            }
        }
        assert!(q.len() <= capacity);
        assert_eq!(q.len(), model.len());
        assert_eq!(q.front(), model.first().copied());
    }
}
