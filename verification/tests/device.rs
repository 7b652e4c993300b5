use regpoll::catalog::{catalog, word_count, EncodingKind};
use regpoll::codec::decode;
use regpoll::device::{handle_request, DeviceFault, DeviceRequest, DeviceState};

#[test]
fn catalog_shape() {
    let cat = catalog();
    assert_eq!(cat.len(), 17);
    for d in &cat {
        assert!(d.domain_lo <= d.domain_hi);
    }
    for d in &cat {
        match d.address {
            12 | 13 => assert_eq!(d.kind, EncodingKind::Wide32),
            11 | 18 => assert_eq!(d.kind, EncodingKind::SignedFlagged),
            _ => assert_eq!(d.kind, EncodingKind::Scalar),
        }
    }
    let names: Vec<&str> = cat.iter().map(|d| d.name).collect();
    assert!(names.contains(&"AI10"));
    assert!(names.contains(&"DI80"));
}

#[test]
fn read_of_known_address_stays_in_domain() {
    let cat = catalog();
    let mut state = DeviceState::new();
    for d in &cat {
        // Ask several times: every generated value must decode into the
        // register's own domain, in the word count its kind fixes.
        for _ in 0..50 {
            let words = handle_request(
                &cat,
                &mut state,
                DeviceRequest::ReadInputRegisters { address: d.address, count: word_count(d.kind) },
            )
            .expect("cataloged address must be served");
            assert_eq!(words.len() as u16, word_count(d.kind));
            let v = decode(d.kind, &words);
            assert!(d.domain_lo <= v && v <= d.domain_hi, "{}: {} out of domain", d.name, v);
            assert_eq!(state.last_values.get(&d.address), Some(&v));
        }
    }
}

#[test]
fn unknown_address_yields_fault_not_data() {
    let cat = catalog();
    let mut state = DeviceState::new();
    for addr in [2u16, 9, 14, 100, 230, 65535] {
        let r = handle_request(
            &cat,
            &mut state,
            DeviceRequest::ReadInputRegisters { address: addr, count: 1 },
        );
        assert_eq!(r, Err(DeviceFault::IllegalDataAddress));
        assert!(state.last_values.get(&addr).is_none());
    }
}

#[test]
fn unsupported_function_is_rejected() {
    let cat = catalog();
    let mut state = DeviceState::new();
    let r = handle_request(&cat, &mut state, DeviceRequest::Unsupported);
    assert_eq!(r, Err(DeviceFault::IllegalFunction));
}

#[test]
fn mismatched_count_is_honored_per_catalog() {
    // The simulator answers with the catalog's own word count for the
    // address, whatever count the caller asked for.
    let cat = catalog();
    let mut state = DeviceState::new();
    let words = handle_request(
        &cat,
        &mut state,
        DeviceRequest::ReadInputRegisters { address: 12, count: 1 },
    )
    .expect("cataloged address must be served");
    assert_eq!(words.len(), 2);
}
