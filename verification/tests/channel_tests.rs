use jvmram_bridge::channel::{
    create_grpc_client, endpoint_built, endpoint_for, endpoint_uri, GRPC_SERVER_PORT,
};
use jvmram_bridge::error::{Error, ErrorKind};

#[test]
fn default_port() {
    assert_eq!(GRPC_SERVER_PORT, 53535);
}

#[test]
fn endpoint_uri_is_loopback_with_the_port() {
    assert_eq!(endpoint_uri(53535), "http://127.0.0.1:53535");
    assert_eq!(endpoint_uri(53333), "http://127.0.0.1:53333");
    assert_eq!(endpoint_uri(0), "http://127.0.0.1:0");
    assert_eq!(endpoint_uri(80), "http://127.0.0.1:80");
    assert_eq!(endpoint_uri(u16::MAX), "http://127.0.0.1:65535");
}

#[test]
fn endpoint_is_built_for_the_default_port() {
    let endpoint = create_grpc_client(GRPC_SERVER_PORT).unwrap();
    assert_eq!(endpoint.uri().host(), Some("127.0.0.1"));
    assert_eq!(endpoint.uri().port_u16(), Some(53535));
    assert_eq!(endpoint.uri().scheme_str(), Some("http"));
}

#[test]
fn endpoint_is_built_for_other_ports() {
    for port in [0u16, 1, 80, 53333, u16::MAX] {
        let endpoint = create_grpc_client(port).unwrap();
        assert_eq!(endpoint.uri().port_u16(), Some(port));
    }
}

#[test]
fn malformed_uri_is_an_invalid_uri_error() {
    let refused = endpoint_for("http://[not a host".to_string());
    assert_eq!(refused.err(), Some(Error::InvalidUri("invalid URI".to_string())));
    let empty = endpoint_for(String::new());
    let error = empty.err().unwrap();
    assert_eq!(error.kind(), ErrorKind::InvalidUri);
    assert_eq!(error.message(), "invalid URI");
    assert_eq!(error.serialize().kind.tag(), "invalidUri");
}

#[test]
fn well_formed_uri_is_accepted() {
    let endpoint = endpoint_for("http://127.0.0.1:53535".to_string()).unwrap();
    assert_eq!(endpoint.uri().port_u16(), Some(53535));
}

#[test]
fn classification_of_a_build_attempt() {
    assert_eq!(endpoint_built(Ok::<u8, String>(3)), Ok(3));
    assert_eq!(
        endpoint_built::<u8>(Err("invalid URI".to_string())),
        Err(Error::InvalidUri("invalid URI".to_string()))
    );
}

#[test]
fn endpoint_connects_lazily_while_nothing_listens() {
    let runtime = tokio::runtime::Builder::new_current_thread().build().unwrap();
    let endpoint = create_grpc_client(GRPC_SERVER_PORT).unwrap();
    let _inside = runtime.enter();
    let _channel = endpoint.connect_lazy();
}
