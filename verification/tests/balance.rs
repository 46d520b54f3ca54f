use rpc_transport::{Backend, Balancer, Change, Channel, Endpoint, Mailbox};

fn endpoint(text: &str) -> Endpoint {
    Endpoint::from_shared(text.to_string()).unwrap()
}

#[test]
fn insert_adds_a_fresh_unready_entry() {
    let mut b = Balancer::new();
    b.apply_change(Change::Insert(7, endpoint("https://a.example.com")));
    assert_eq!(b.entries.len(), 1);
    assert_eq!(b.entries[0].key, 7);
    assert!(!b.entries[0].ready);
    assert_eq!(b.entries[0].load, 0);
    assert_eq!(b.entries[0].endpoint.uri.text, "https://a.example.com");
}

#[test]
fn insert_existing_key_replaces_the_endpoint() {
    let mut b = Balancer::new();
    b.apply_change(Change::Insert(7, endpoint("https://a.example.com")));
    b.set_status(7, true, 3);
    b.apply_change(Change::Insert(7, endpoint("https://b.example.com")));
    assert_eq!(b.entries.len(), 1);
    assert_eq!(b.entries[0].endpoint.uri.text, "https://b.example.com");
    // the replacement's connection is yet to be made
    assert!(!b.entries[0].ready);
    assert_eq!(b.entries[0].load, 0);
}

#[test]
fn remove_deletes_only_that_key() {
    let mut b = Balancer::new();
    b.apply_change(Change::Insert(1, endpoint("https://a.example.com")));
    b.apply_change(Change::Insert(2, endpoint("https://b.example.com")));
    b.apply_change(Change::Remove(1));
    assert_eq!(b.entries.len(), 1);
    assert_eq!(b.entries[0].key, 2);
}

#[test]
fn remove_absent_key_is_a_no_op() {
    let mut b = Balancer::new();
    b.apply_change(Change::Insert(1, endpoint("https://a.example.com")));
    b.apply_change(Change::Remove(99));
    assert_eq!(b.entries.len(), 1);
    assert_eq!(b.entries[0].key, 1);
}

#[test]
fn status_reports_about_unknown_keys_are_ignored() {
    let mut b = Balancer::new();
    b.apply_change(Change::Insert(1, endpoint("https://a.example.com")));
    b.set_status(42, true, 9);
    assert!(!b.entries[0].ready);
}

#[test]
fn pick_with_nothing_ready_selects_nothing() {
    let b = Balancer::new();
    assert!(b.pick(0, 1).is_none());
    let mut b = Balancer::new();
    b.apply_change(Change::Insert(1, endpoint("https://a.example.com")));
    // discovered but not ready
    assert!(b.pick(0, 1).is_none());
}

#[test]
fn pick_completes_once_an_insert_makes_an_endpoint_ready() {
    let mut b = Balancer::new();
    assert!(b.pick(3, 5).is_none());
    b.apply_change(Change::Insert(1, endpoint("https://a.example.com")));
    b.set_status(1, true, 0);
    let idx = b.pick(3, 5).unwrap();
    assert_eq!(b.entries[idx].key, 1);
    assert!(b.entries[idx].ready);
}

#[test]
fn pick_prefers_the_less_loaded_of_two_samples() {
    let mut b = Balancer::new();
    b.apply_change(Change::Insert(10, endpoint("https://a.example.com")));
    b.apply_change(Change::Insert(20, endpoint("https://b.example.com")));
    b.set_status(10, true, 5);
    b.set_status(20, true, 1);
    // samples 0 and 1 address the two ready entries in order
    let idx = b.pick(0, 1).unwrap();
    assert_eq!(b.entries[idx].key, 20);
    let idx = b.pick(1, 0).unwrap();
    assert_eq!(b.entries[idx].key, 20);
    // sampling the same entry twice returns it
    let idx = b.pick(0, 0).unwrap();
    assert_eq!(b.entries[idx].key, 10);
}

#[test]
fn pick_never_selects_an_unready_entry() {
    let mut b = Balancer::new();
    b.apply_change(Change::Insert(1, endpoint("https://a.example.com")));
    b.apply_change(Change::Insert(2, endpoint("https://b.example.com")));
    b.apply_change(Change::Insert(3, endpoint("https://c.example.com")));
    b.set_status(2, true, 7);
    for a in 0..4usize {
        for bb in 0..4usize {
            let idx = b.pick(a, bb).unwrap();
            assert_eq!(b.entries[idx].key, 2);
        }
    }
}

#[test]
fn balance_list_inserts_every_endpoint_up_front() {
    let list = vec![
        endpoint("https://a.example.com"),
        endpoint("https://b.example.com"),
        endpoint("https://c.example.com"),
    ];
    let c = Channel::balance_list(list);
    assert_eq!(c.mailbox.capacity, 1024);
    match &c.backend {
        Backend::Balanced(b) => {
            assert_eq!(b.entries.len(), 3);
            assert_eq!(b.entries[0].key, 0);
            assert_eq!(b.entries[0].endpoint.uri.text, "https://a.example.com");
            assert_eq!(b.entries[1].key, 1);
            assert_eq!(b.entries[1].endpoint.uri.text, "https://b.example.com");
            assert_eq!(b.entries[2].key, 2);
            assert_eq!(b.entries[2].endpoint.uri.text, "https://c.example.com");
        }
        Backend::Single(_) => panic!("balance_list must balance"),
    }
}

#[test]
fn balance_channel_starts_empty_with_the_requested_feed_bound() {
    let (c, feed) = Channel::balance_channel(16);
    assert_eq!(feed.capacity, 16);
    assert_eq!(feed.queue.len(), 0);
    match &c.backend {
        Backend::Balanced(b) => assert_eq!(b.entries.len(), 0),
        Backend::Single(_) => panic!("balance_channel must balance"),
    }
}

#[test]
fn mailbox_is_first_in_first_out() {
    let mut m: Mailbox<u64> = Mailbox::new(4);
    assert!(m.submit(10));
    assert!(m.submit(20));
    assert!(m.submit(30));
    assert_eq!(m.take_next(), Some(10));
    assert_eq!(m.take_next(), Some(20));
    assert!(m.submit(40));
    assert_eq!(m.take_next(), Some(30));
    assert_eq!(m.take_next(), Some(40));
    assert_eq!(m.take_next(), None);
}

#[test]
fn mailbox_accepts_exactly_up_to_capacity() {
    let mut m: Mailbox<u64> = Mailbox::new(2);
    assert!(m.submit(1));
    assert!(m.submit(2));
    // full: the submitter would suspend and try again
    assert!(!m.submit(3));
    assert_eq!(m.queue.len(), 2);
    // room opens once the worker takes one
    assert_eq!(m.take_next(), Some(1));
    assert!(m.submit(3));
    assert_eq!(m.take_next(), Some(2));
    assert_eq!(m.take_next(), Some(3));
}

#[test]
fn channel_calls_flow_through_the_mailbox_in_order() {
    let e = endpoint("https://a.example.com");
    let mut c = e.connect_lazy().unwrap();
    assert!(c.submit_call(1));
    assert!(c.submit_call(2));
    assert_eq!(c.next_call(), Some(1));
    assert_eq!(c.next_call(), Some(2));
    assert_eq!(c.next_call(), None);
}

#[test]
fn channel_submissions_are_not_dropped_while_there_is_room() {
    // every accepted submission is served exactly once, in order
    let e = endpoint("https://a.example.com");
    let mut c = e.connect_lazy().unwrap();
    let mut accepted = Vec::new();
    for call in 0..2000u64 {
        if c.submit_call(call) {
            accepted.push(call);
        }
    }
    assert_eq!(accepted.len(), 1024);
    let mut served = Vec::new();
    while let Some(call) = c.next_call() {
        served.push(call);
    }
    assert_eq!(served, accepted);
}

#[test]
fn closing_the_mailbox_drains_queued_calls_in_order() {
    let mut m: Mailbox<u64> = Mailbox::new(8);
    assert!(m.submit(1));
    assert!(m.submit(2));
    assert!(m.submit(3));
    let drained = m.close();
    assert_eq!(drained, vec![1, 2, 3]);
    assert_eq!(m.queue.len(), 0);
}

#[test]
fn selection_spreads_over_equally_loaded_endpoints() {
    // with equal loads, which endpoint wins depends only on the samples, so
    // varied samples reach every ready endpoint rather than pinning one
    let mut b = Balancer::new();
    b.apply_change(Change::Insert(1, endpoint("https://a.example.com")));
    b.apply_change(Change::Insert(2, endpoint("https://b.example.com")));
    b.set_status(1, true, 3);
    b.set_status(2, true, 3);
    let mut hits = [0u32; 2];
    for a in 0..10usize {
        for bb in 0..10usize {
            let idx = b.pick(a, bb).unwrap();
            hits[idx] += 1;
        }
    }
    assert!(hits[0] > 0);
    assert!(hits[1] > 0);
    assert_eq!(hits[0] + hits[1], 100);
}
