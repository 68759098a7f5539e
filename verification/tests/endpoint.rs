use audio_downsample::endpoint::{
    client_endpoint, local_client_endpoint, server_endpoint, Endpoint, SOCKET_NAME, SOCKET_PATH,
};
use interprocess::local_socket::{GenericNamespaced, NameType};

#[test]
fn endpoint_names() {
    assert_eq!(SOCKET_NAME, "ffmpeg-swresample.socks");
    assert_eq!(SOCKET_PATH, "/tmp/ffmpeg-swresample.socks");
    assert_eq!(Endpoint::Namespaced.name(), "ffmpeg-swresample.socks");
    assert_eq!(Endpoint::FilePath.name(), "/tmp/ffmpeg-swresample.socks");
}

#[test]
fn server_binds_the_namespaced_endpoint() {
    assert_eq!(server_endpoint(), Endpoint::Namespaced);
}

#[test]
fn client_prefers_the_namespace() {
    assert_eq!(client_endpoint(true), Endpoint::Namespaced);
    assert_eq!(client_endpoint(false), Endpoint::FilePath);
}

#[test]
fn local_client_endpoint_is_the_one_that_the_server_binds() {
    assert_eq!(local_client_endpoint(), Endpoint::Namespaced);
    assert_eq!(local_client_endpoint(), server_endpoint());
}

#[test]
fn namespaced_names_are_supported_here() {
    assert!(GenericNamespaced::is_supported());
    assert_eq!(local_client_endpoint(), client_endpoint(GenericNamespaced::is_supported()));
}
