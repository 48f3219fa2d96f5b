use sp_firmware::circq::CircQ;

#[test]
fn base_state() {
    let mut backing = [0; 16];
    let q = CircQ::new(&mut backing);

    assert!(q.is_empty());
    assert_eq!(q.available(), 0);
}

#[test]
fn enqueue_0() {
    let mut backing = [0; 16];
    let mut q = CircQ::new(&mut backing);

    for i in 0..16 {
        let (first, second) = q.enqueue_space(0).expect(&format!(
            "enqueueing zero bytes after {i} bytes should succeed"
        ));
        assert!(first.is_empty());
        assert!(second.is_empty());
        q.enqueue_space(1).unwrap();
    }
    // Note that this checks that enqueueing zero bytes succeeds _even when
    // the queue is full,_ which is a weird behavior but is internally
    // consistent.
    let (first, second) = q
        .enqueue_space(0)
        .expect("enqueueing zero bytes on a full q should succeed");
    assert!(first.is_empty());
    assert!(second.is_empty());
}

#[test]
fn enqueue_string() {
    let mut backing = [0; 16];
    let mut q = CircQ::new(&mut backing);

    let test_string = b"ABCDEFGHIJKLMNOP";
    assert_eq!(test_string.len(), 16); // Don't break this plz

    for (i, &byte) in test_string.iter().enumerate() {
        assert_eq!(q.available(), i);
        assert_eq!(q.free(), 16 - i);

        q.enqueue1(byte).expect(&format!(
            "enqueueing one byte after {i} bytes should succeed"
        ));
    }
    assert_eq!(q.available(), 16);
    assert_eq!(q.free(), 0);

    // This should fail once the queue is full.
    if q.enqueue1(0).is_ok() {
        panic!("should not be able to enqueue another byte after queue is full");
    }

    for (i, &expected_byte) in test_string.iter().enumerate() {
        let b = q.dequeue1().expect(&format!(
            "enqueueing one byte after {i} bytes should succeed"
        ));
        assert_eq!(b, expected_byte);
    }

    // This should fail once the queue is empty.
    if q.dequeue1().is_ok() {
        panic!("should not be able to dequeue1 from empty queue");
    }
}

#[test]
fn enqueue_discontiguous_full_extent() {
    let mut backing = [0; 16];

    for i in 0..16 {
        let mut q = CircQ::new(&mut backing);
        // Shift the q head/tail to i
        q.enqueue_space(i).unwrap();
        q.dequeue_space(i).unwrap();

        // Now attempt to fill the queue.
        if let Ok((first, second)) = q.enqueue_space(16) {
            assert_eq!(first.len(), 16 - i);
            assert_eq!(second.len(), i);
            for (i, byte) in first.iter_mut().chain(second).enumerate() {
                *byte = i as u8;
            }
        } else {
            panic!("can't fill queue from offset {i}");
        }

        // And see if we can read it back.
        if let Ok((first, second)) = q.dequeue_space(16) {
            assert_eq!(first.len() + second.len(), 16);
            for (i, byte) in first.iter().chain(&*second).enumerate() {
                assert_eq!(*byte, i as u8);
            }
        } else {
            panic!("can't read back entirety of queue at offset {i}");
        }
    }
}

#[test]
fn a_full_queue_is_not_empty() {
    let mut backing = [0; 4];
    let mut q = CircQ::new(&mut backing);

    q.enqueue(b"wxyz").unwrap();
    assert_eq!(q.available(), 4);
    assert_eq!(q.free(), 0);
    assert!(!q.is_empty());

    let mut out = [0; 4];
    q.dequeue_into(&mut out).unwrap();
    assert_eq!(&out, b"wxyz");
    assert!(q.is_empty());
}

#[test]
fn chunk_sizes_do_not_have_to_match() {
    let mut backing = [0; 5];
    let mut q = CircQ::new(&mut backing);

    q.enqueue(b"abc").unwrap();
    let mut two = [0; 2];
    q.dequeue_into(&mut two).unwrap();
    assert_eq!(&two, b"ab");

    // Goes round the end of the memory.
    q.enqueue(b"defg").unwrap();
    assert_eq!(q.free(), 0);
    let mut one = [0; 1];
    q.dequeue_into(&mut one).unwrap();
    assert_eq!(&one, b"c");
    let mut four = [0; 4];
    q.dequeue_into(&mut four).unwrap();
    assert_eq!(&four, b"defg");

    assert_eq!(backing, *b"fgcde");
}

#[test]
fn a_refused_request_changes_nothing() {
    let mut backing = [7; 3];
    let mut q = CircQ::new(&mut backing);

    q.enqueue(b"ab").unwrap();
    assert!(q.enqueue(b"cd").is_err());
    assert!(q.enqueue_space(2).is_err());
    assert_eq!(q.available(), 2);
    assert_eq!(q.free(), 1);

    let mut three = [1; 3];
    assert!(q.dequeue_into(&mut three).is_err());
    assert!(q.dequeue_space(3).is_err());
    assert_eq!(three, [1; 3]);
    assert_eq!(q.available(), 2);

    assert_eq!(q.dequeue1().unwrap(), b'a');
    assert_eq!(q.dequeue1().unwrap(), b'b');
    assert_eq!(backing, *b"ab\x07");
}

#[test]
fn space_left_unwritten_holds_earlier_bytes() {
    let mut backing = [0; 3];
    let mut q = CircQ::new(&mut backing);

    q.enqueue(b"xyz").unwrap();
    q.dequeue_space(3).unwrap();
    q.enqueue_space(2).unwrap();
    assert_eq!(q.dequeue1().unwrap(), b'x');
    assert_eq!(q.dequeue1().unwrap(), b'y');
}

#[test]
fn a_queue_without_memory_takes_no_byte() {
    let mut backing: [u8; 0] = [];
    let mut q = CircQ::new(&mut backing);

    assert!(q.is_empty());
    assert_eq!(q.free(), 0);
    assert!(q.enqueue1(1).is_err());
    assert!(q.dequeue1().is_err());
}

#[test]
fn a_queue_without_memory_takes_and_gives_zero_bytes() {
    let mut backing: [u8; 0] = [];
    let mut q = CircQ::new(&mut backing);

    let (first, second) = q.enqueue_space(0).unwrap();
    assert!(first.is_empty());
    assert!(second.is_empty());
    assert_eq!(q.available(), 0);

    let (first, second) = q.dequeue_space(0).unwrap();
    assert!(first.is_empty());
    assert!(second.is_empty());

    assert!(q.enqueue(&[]).is_ok());
    assert!(q.dequeue_into(&mut []).is_ok());
    assert!(q.enqueue(b"a").is_err());
    assert!(q.dequeue_into(&mut [0]).is_err());
    assert!(q.is_empty());
    assert_eq!(q.free(), 0);
}

#[test]
fn zero_bytes_can_be_dequeued_from_an_empty_queue() {
    let mut backing = [0; 2];
    let mut q = CircQ::new(&mut backing);

    let (first, second) = q.dequeue_space(0).unwrap();
    assert!(first.is_empty());
    assert!(second.is_empty());
    assert!(q.is_empty());
}

fn is_send(_: &impl Send) -> bool {
    true
}

#[test]
fn a_queue_can_be_sent() {
    let mut backing = [0; 2];
    assert!(is_send(&CircQ::new(&mut backing)));
}
