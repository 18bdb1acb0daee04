use ehyve::{Capability, CapabilityCache, Error, HostCall, HostError};

#[test]
fn a_new_cache_knows_no_mask() {
    let cache = CapabilityCache::new();
    for family in [Capability::PinBased, Capability::ProcBased, Capability::ProcBased2, Capability::Entry, Capability::Exit] {
        assert_eq!(cache.get(family), None);
        assert_eq!(cache.request(family), Some(HostCall::ReadCapability { family }));
    }
}

#[test]
fn a_mask_that_was_read_is_kept() {
    let mut cache = CapabilityCache::new();
    assert_eq!(cache.store(Capability::ProcBased, Ok(0x1234_0000_5678)), Ok(0x1234_0000_5678));
    assert_eq!(cache.get(Capability::ProcBased), Some(0x1234_0000_5678));
    assert_eq!(cache.request(Capability::ProcBased), None);
    assert_eq!(cache.get(Capability::PinBased), None);
}

#[test]
fn a_mask_is_stored_once() {
    let mut cache = CapabilityCache::new();
    assert_eq!(cache.store(Capability::Entry, Ok(1)), Ok(1));
    assert_eq!(cache.store(Capability::Entry, Ok(2)), Ok(1));
    assert_eq!(cache.store(Capability::Entry, Err(HostError::Busy)), Ok(1));
    assert_eq!(cache.get(Capability::Entry), Some(1));
}

#[test]
fn a_refused_read_is_an_error_and_stores_nothing() {
    let mut cache = CapabilityCache::new();
    assert_eq!(
        cache.store(Capability::Exit, Err(HostError::Unsupported)),
        Err(Error::HostCallFailure {
            call: HostCall::ReadCapability { family: Capability::Exit },
            cause: HostError::Unsupported,
        })
    );
    assert_eq!(cache.get(Capability::Exit), None);
    assert_eq!(cache.request(Capability::Exit), Some(HostCall::ReadCapability { family: Capability::Exit }));
    assert_eq!(cache.store(Capability::Exit, Ok(9)), Ok(9));
}

#[test]
fn each_family_has_its_own_mask() {
    let mut cache = CapabilityCache::new();
    let families = [Capability::PinBased, Capability::ProcBased, Capability::ProcBased2, Capability::Entry, Capability::Exit];
    let mut value: u64 = 100;
    for family in families {
        assert_eq!(cache.store(family, Ok(value)), Ok(value));
        value += 1;
    }
    let mut value: u64 = 100;
    for family in families {
        assert_eq!(cache.get(family), Some(value));
        value += 1;
    }
}
