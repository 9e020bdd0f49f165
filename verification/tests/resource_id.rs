use message_io::resource_id::{ResourceId as BitId, ResourceIdGenerator as BitGenerator,
    ResourceType as BitType};
use message_io::network::resource_id::{ResourceId, ResourceIdGenerator, ResourceType};

#[test]
fn base_value() {
    let low_base_value = 0;

    let resource_id = ResourceId::new(1, ResourceType::Local, low_base_value);
    assert_eq!(low_base_value, resource_id.base_value());

    let high_base_value = ResourceId::MAX_BASE_VALUE;

    let resource_id = ResourceId::new(1, ResourceType::Local, high_base_value);
    assert_eq!(high_base_value, resource_id.base_value());
}

#[test]
fn resource_type() {
    let resource_id = ResourceId::new(0, ResourceType::Local, 0);
    assert_eq!(ResourceType::Local, resource_id.resource_type());
    assert_eq!(0, resource_id.adapter_id());

    let resource_id = ResourceId::new(0, ResourceType::Remote, 0);
    assert_eq!(ResourceType::Remote, resource_id.resource_type());
    assert_eq!(0, resource_id.adapter_id());
}

#[test]
fn adapter_id() {
    let adapter_id = ResourceId::MAX_ADAPTER_ID;

    let resource_id = ResourceId::new(adapter_id, ResourceType::Local, 0);
    assert_eq!(adapter_id, resource_id.adapter_id());
    assert_eq!(ResourceType::Local, resource_id.resource_type());

    let resource_id = ResourceId::new(adapter_id, ResourceType::Remote, 0);
    assert_eq!(adapter_id, resource_id.adapter_id());
    assert_eq!(ResourceType::Remote, resource_id.resource_type());
}

#[test]
fn packed_layout() {
    let resource_id = ResourceId::new(5, ResourceType::Local, 3);
    assert_eq!(3 * 256 + 128 + 5, resource_id.raw());
    assert!(resource_id.is_local());
    assert!(!resource_id.is_remote());
    let back = ResourceId::from(resource_id.raw());
    assert_eq!(resource_id, back);
    assert_eq!(resource_id, ResourceId::from_raw(resource_id.raw()));
}

#[test]
fn generator_counts_up() {
    let generator = ResourceIdGenerator::new(3, ResourceType::Remote);
    for expected in 0..5u64 {
        let id = generator.generate();
        assert_eq!(expected, id.base_value());
        assert_eq!(3, id.adapter_id());
        assert!(id.is_remote());
    }
}

#[test]
fn listener_bit_layout() {
    let generator = BitGenerator::new(5);
    let listener = generator.generate(BitType::Listener);
    assert_eq!(BitType::Listener, listener.resource_type());
    assert_eq!(5, listener.adapter_id());
    let remote = generator.generate(BitType::Remote);
    assert_eq!(BitType::Remote, remote.resource_type());
    assert_eq!(5, remote.adapter_id());
    assert_eq!((5 << 56) | 1, remote.raw());
    assert_eq!(BitType::Remote, BitId::from(7).resource_type());
}

#[test]
fn resource_id_text() {
    assert_eq!("[3.R.42]", ResourceId::new(3, ResourceType::Remote, 42).to_string());
    assert_eq!("[0.L.0]", ResourceId::new(0, ResourceType::Local, 0).to_string());
    assert_eq!(
        "[127.L.72057594037927935]",
        ResourceId::new(127, ResourceType::Local, ResourceId::MAX_BASE_VALUE).to_string()
    );
    assert_eq!("[10.R.1009]", ResourceId::new(10, ResourceType::Remote, 1009).to_string());
}
