use pipewire_core::types::ObjectType;

#[test]
fn set_object_type() {
    assert_eq!(
        ObjectType::from_str("PipeWire:Interface:Client"),
        ObjectType::Client
    );
    assert_eq!(ObjectType::Client.to_str(), "PipeWire:Interface:Client");
    assert_eq!(ObjectType::Client.client_version(), 3);

    let o = ObjectType::Other("PipeWire:Interface:Badger".to_string());
    assert_eq!(ObjectType::from_str("PipeWire:Interface:Badger"), o);
    assert_eq!(o.to_str(), "PipeWire:Interface:Badger");
}

#[test]
fn known_names_round_trip() {
    let all = [
        ObjectType::Client,
        ObjectType::ClientEndpoint,
        ObjectType::ClientNode,
        ObjectType::ClientSession,
        ObjectType::Core,
        ObjectType::Device,
        ObjectType::Endpoint,
        ObjectType::EndpointLink,
        ObjectType::EndpointStream,
        ObjectType::Factory,
        ObjectType::Link,
        ObjectType::Metadata,
        ObjectType::Module,
        ObjectType::Node,
        ObjectType::Port,
        ObjectType::Profiler,
        ObjectType::Registry,
        ObjectType::Session,
    ];
    for t in all.iter() {
        assert_eq!(&ObjectType::from_str(t.to_str()), t);
    }
    assert_eq!(ObjectType::Node.to_str(), "PipeWire:Interface:Node");
    assert_eq!(ObjectType::Node.client_version(), 3);
    assert_eq!(ObjectType::Session.client_version(), 0);
    assert_eq!(ObjectType::from_str("Node"), ObjectType::Other("Node".to_string()));
}
