use md5::{Digest, Md5};
use pow_worker::codec::{decode_request, encode_response, process_payload, solve, Request, Response, TaskError};
use pow_worker::coordinator::{Action, Coordinator, Phase};
use pow_worker::counter::InFlightCounter;
use pow_worker::digest::{digest_leading_zeros, digest_meets, handle_request, nonce_input, search_up_to};
use pow_worker::Broker;

fn digest_zero_bits(data: &[u8], nonce: u32) -> u8 {
    let mut input = data.to_vec();
    input.extend_from_slice(&nonce.to_le_bytes());
    let digest = Md5::digest(&input);
    digest_leading_zeros(digest.as_slice())
}

fn coordinator(cap: usize) -> Coordinator {
    Coordinator::new("hash/request".to_string(), "cmd/terminate".to_string(), cap)
}

fn varint(mut n: u32) -> Vec<u8> {
    let mut out = Vec::new();
    loop {
        let low = (n & 0x7f) as u8;
        n >>= 7;
        if n == 0 {
            out.push(low);
            return out;
        }
        out.push(low | 0x80);
    }
}

#[test]
fn leading_zeros_of_all_zero_digest() {
    assert_eq!(digest_leading_zeros(&[0u8; 16]), 128);
    assert_eq!(digest_leading_zeros(&[0u8; 1]), 8);
    assert_eq!(digest_leading_zeros(&[]), 0);
}

#[test]
fn leading_zeros_with_high_bit_set() {
    let mut d = [0u8; 16];
    d[0] = 0x80;
    assert_eq!(digest_leading_zeros(&d), 0);
}

#[test]
fn leading_zeros_stop_at_first_nonzero_byte() {
    assert_eq!(digest_leading_zeros(&[0x00, 0x01, 0x00, 0x00]), 15);
    assert_eq!(digest_leading_zeros(&[0x00, 0x00, 0x10, 0xff]), 19);
    assert_eq!(digest_leading_zeros(&[0x0f, 0x00]), 4);
}

#[test]
fn leading_zeros_saturate_at_255() {
    assert_eq!(digest_leading_zeros(&[0u8; 31]), 248);
    assert_eq!(digest_leading_zeros(&[0u8; 32]), 255);
    assert_eq!(digest_leading_zeros(&[0u8; 40]), 255);
    let mut d = [0u8; 33];
    d[31] = 0x01;
    assert_eq!(digest_leading_zeros(&d), 255);
}

#[test]
fn digest_meets_compares_with_difficulty() {
    assert!(digest_meets(&[0x00, 0x10], 11));
    assert!(!digest_meets(&[0x00, 0x10], 12));
    assert!(digest_meets(&[0xff], 0));
}

#[test]
fn nonce_input_appends_little_endian_nonce() {
    assert_eq!(nonce_input(b"ab", 0x0403_0201), vec![b'a', b'b', 1, 2, 3, 4]);
    assert_eq!(nonce_input(&[], 0), vec![0, 0, 0, 0]);
}

#[test]
fn search_with_zero_difficulty_returns_zero() {
    assert_eq!(handle_request(b"abc", 0), Some(0));
    assert_eq!(handle_request(b"", 0), Some(0));
    assert_eq!(handle_request(b"anything at all", 0), Some(0));
}

#[test]
fn search_finds_least_nonce() {
    for difficulty in [1u8, 4, 8, 12] {
        let nonce = handle_request(b"abc", difficulty).unwrap();
        assert!(digest_zero_bits(b"abc", nonce) >= difficulty);
        for m in 0..nonce {
            assert!(digest_zero_bits(b"abc", m) < difficulty);
        }
    }
}

#[test]
fn search_is_deterministic() {
    assert_eq!(handle_request(b"hello", 10), handle_request(b"hello", 10));
}

#[test]
fn decode_request_reads_postcard_pair() {
    let req = decode_request(&[3, b'a', b'b', b'c', 8]).unwrap();
    assert_eq!(req.data, b"abc".to_vec());
    assert_eq!(req.difficulty, 8);
}

#[test]
fn decode_request_rejects_malformed_payload() {
    assert!(matches!(decode_request(&[]), Err(TaskError::Malformed)));
    assert!(matches!(decode_request(&[5, b'a']), Err(TaskError::Malformed)));
    assert!(matches!(decode_request(&[3, b'a', b'b', b'c']), Err(TaskError::Malformed)));
}

#[test]
fn encode_response_writes_postcard_triple() {
    let resp = Response { data: b"abc".to_vec(), difficulty: 8, nonce: 300 };
    let bytes = encode_response(&resp).unwrap();
    assert_eq!(bytes, vec![3, b'a', b'b', b'c', 8, 0xac, 0x02]);
}

#[test]
fn solve_echoes_request() {
    let resp = solve(Request { data: b"xyz".to_vec(), difficulty: 6 }).unwrap();
    assert_eq!(resp.data, b"xyz".to_vec());
    assert_eq!(resp.difficulty, 6);
    assert_eq!(Some(resp.nonce), handle_request(b"xyz", 6));
}

#[test]
fn end_to_end_abc_difficulty_eight() {
    let payload = vec![3, b'a', b'b', b'c', 8];
    let out = process_payload(&payload).unwrap();
    let nonce = handle_request(b"abc", 8).unwrap();
    let mut expected = vec![3, b'a', b'b', b'c', 8];
    expected.extend(varint(nonce));
    assert_eq!(out, expected);
    assert!(digest_zero_bits(b"abc", nonce) >= 8);
    for m in 0..nonce {
        assert!(digest_zero_bits(b"abc", m) < 8);
    }
}

#[test]
fn process_payload_reports_malformed() {
    assert_eq!(process_payload(&[0x80]), Err(TaskError::Malformed));
}

#[test]
fn counter_balances() {
    let mut c = InFlightCounter::new();
    assert_eq!(c.read(), 0);
    c.increment();
    c.increment();
    c.decrement();
    c.increment();
    assert_eq!(c.read(), 2);
    c.decrement();
    c.decrement();
    assert_eq!(c.read(), 0);
}

#[test]
fn coordinator_ignores_other_topics() {
    let mut c = coordinator(10);
    assert_eq!(c.on_publish(&"hash/other".to_string()), Action::Ignore);
    assert_eq!(c.on_publish(&"hash/start".to_string()), Action::Ignore);
    assert_eq!(c.in_flight(), 0);
    assert_eq!(c.phase(), Phase::Running);
}

#[test]
fn coordinator_admission_cap() {
    let mut c = coordinator(3);
    let request = "hash/request".to_string();
    let mut spawned = 0;
    for _ in 0..10 {
        if c.on_publish(&request) == Action::Spawn {
            spawned += 1;
        }
    }
    assert_eq!(spawned, 3);
    assert_eq!(c.admitted(), 3);
    assert_eq!(c.phase(), Phase::Draining);
    for _ in 0..3 {
        c.on_task_completed();
    }
    assert!(c.is_terminated());
    assert_eq!(c.on_publish(&request), Action::Ignore);
}

#[test]
fn coordinator_zero_cap_is_terminated() {
    let mut c = coordinator(0);
    assert!(c.is_terminated());
    assert_eq!(c.on_publish(&"hash/request".to_string()), Action::Ignore);
}

#[test]
fn coordinator_drains_after_shutdown() {
    let mut c = coordinator(5);
    let request = "hash/request".to_string();
    for _ in 0..5 {
        assert_eq!(c.on_publish(&request), Action::Spawn);
    }
    assert_eq!(c.on_publish(&"cmd/terminate".to_string()), Action::Ignore);
    assert_eq!(c.phase(), Phase::Draining);
    assert_eq!(c.in_flight(), 5);
    for left in (0..5).rev() {
        assert!(!c.is_terminated());
        c.on_task_completed();
        assert_eq!(c.in_flight(), left);
    }
    assert!(c.is_terminated());
    assert_eq!(c.in_flight(), 0);
}

#[test]
fn coordinator_shutdown_with_nothing_in_flight() {
    let mut c = coordinator(5);
    c.on_publish(&"cmd/terminate".to_string());
    assert!(c.is_terminated());
}

#[test]
fn coordinator_metric_reads_in_flight() {
    let mut c = coordinator(usize::MAX);
    let request = "hash/request".to_string();
    for _ in 0..3 {
        c.on_publish(&request);
    }
    assert_eq!(c.in_flight(), 3);
    for _ in 0..3 {
        c.on_task_completed();
    }
    assert_eq!(c.in_flight(), 0);
    assert_eq!(c.phase(), Phase::Running);
    c.on_task_completed();
    assert_eq!(c.in_flight(), 0);
}

#[test]
fn broker_holds_connection_details() {
    let b = Broker { id: "worker".to_string(), host: "localhost".to_string(), port: 1883 };
    let c = b.clone();
    assert_eq!(c.id, "worker");
    assert_eq!(c.host, "localhost");
    assert_eq!(c.port, 1883);
}

#[test]
fn bounded_search_stops_at_limit() {
    let nonce = handle_request(b"abc", 10).unwrap();
    assert_eq!(search_up_to(b"abc", 10, nonce), Some(nonce));
    assert_eq!(search_up_to(b"abc", 10, u32::MAX), Some(nonce));
    if nonce > 0 {
        assert_eq!(search_up_to(b"abc", 10, nonce - 1), None);
    }
    assert_eq!(search_up_to(b"abc", 0, 0), Some(0));
    assert_eq!(search_up_to(b"abc", 128, 3), None);
}
