use cursock::CursedError;
use cursock::CursedErrorHandle;
use cursock::Ipv4;
use cursock::Mac;
use cursock::Socket;
use cursock::marshal::encode_ifr_name;
use cursock::marshal::ifindex_from_ifreq;
use cursock::marshal::encode_sockaddr_ll;
use cursock::marshal::ipv4_from_sockaddr_in;
use cursock::marshal::mac_from_sa_data;
use cursock::socket::RawHandle;
use cursock::socket::deliver_capture;

fn descriptor_socket() -> Socket {
    Socket::from_parts(
        RawHandle::Descriptor { socket: 3, ifindex: 2 },
        Ipv4::from_bytes([10, 0, 0, 1]),
        Mac::from_bytes([1, 2, 3, 4, 5, 6]),
    )
}

#[test]
fn getters_return_resolved_addresses() {
    let socket = descriptor_socket();
    assert_eq!(socket.get_src_ip().to_bytes(), [10, 0, 0, 1]);
    assert_eq!(socket.get_src_mac().to_bytes(), [1, 2, 3, 4, 5, 6]);
}

#[test]
fn send_link_addr_embeds_index_and_mac() {
    let socket = descriptor_socket();
    let addr = socket.send_link_addr().unwrap();
    let expected = vec![
        0, 0, 0, 0, // family and protocol
        2, 0, 0, 0, // interface index, little endian
        0, 0, 0, // hardware type and packet type
        6, // hardware address length
        1, 2, 3, 4, 5, 6, // the channel's own hardware address
        0, 0, // padding of the fixed address field
    ];
    assert_eq!(addr, expected);
}

#[test]
fn send_link_addr_absent_for_adapter_handle() {
    let socket = Socket::from_parts(
        RawHandle::Adapter { handle: 77 },
        Ipv4::from_bytes([0, 0, 0, 0]),
        Mac::from_bytes([0, 0, 0, 0, 0, 0]),
    );
    assert!(socket.send_link_addr().is_none());
}

#[test]
fn sockaddr_ll_negative_index() {
    let bytes = encode_sockaddr_ll(-1, &Mac::from_bytes([0, 0, 0, 0, 0, 0]));
    assert_eq!(&bytes[4..8], &[255, 255, 255, 255]);
    assert_eq!(bytes.len(), 20);
}

#[test]
fn send_outcome_maps_negative_to_error() {
    let socket = descriptor_socket();
    let err = socket.send_outcome(-1).unwrap_err();
    assert_eq!(err.get_kind(), CursedError::Sockets);
    assert_eq!(err.get_reason().as_str(), "Can't send buffer");
    assert!(socket.send_outcome(0).is_ok());
    assert!(socket.send_outcome(1500).is_ok());
}

#[test]
fn recv_outcome_maps_negative_to_error() {
    let socket = descriptor_socket();
    let err = socket.recv_outcome(-1).unwrap_err();
    assert_eq!(err.get_kind(), CursedError::Sockets);
    assert_eq!(err.get_reason().as_str(), "Can't receive packet");
    assert!(socket.recv_outcome(42).is_ok());
}

#[test]
fn capture_outcome_zero_is_timeout() {
    let socket = descriptor_socket();
    let err = socket.capture_outcome(0, "").unwrap_err();
    assert_eq!(err.get_kind(), CursedError::TimeOut);
    assert_eq!(err.get_reason().as_str(), "reading raw packet timed out");
    assert!(socket.capture_outcome(1, "").is_ok());
}

#[test]
fn capture_outcome_negative_is_socket_failure() {
    let socket = descriptor_socket();
    let err = socket.capture_outcome(-1, "the device went away").unwrap_err();
    assert_eq!(err.get_kind(), CursedError::Sockets);
    assert_eq!(
        err.get_reason().as_str(),
        "Can't receive packet due to \"the device went away\""
    );
}

#[test]
fn capture_is_truncated_to_buffer_capacity() {
    let mut buffer = vec![0u8; 2];
    let captured = vec![9u8, 8, 7];
    let n = deliver_capture(&mut buffer, &captured);
    assert_eq!(n, 2);
    assert_eq!(buffer, vec![9, 8]);
}

#[test]
fn capture_smaller_than_buffer_leaves_tail() {
    let mut buffer = vec![5u8; 4];
    let captured = vec![1u8, 2];
    let n = deliver_capture(&mut buffer, &captured);
    assert_eq!(n, 2);
    assert_eq!(buffer, vec![1, 2, 5, 5]);
}

#[test]
fn capture_into_empty_buffer_copies_nothing() {
    let mut buffer: Vec<u8> = Vec::new();
    let captured = vec![1u8, 2, 3];
    let n = deliver_capture(&mut buffer, &captured);
    assert_eq!(n, 0);
    assert!(buffer.is_empty());
}

#[test]
fn elapsed_deadline_is_a_timeout_error() {
    let socket = descriptor_socket();
    let err = socket.read_raw_packet_timeout(None).unwrap_err();
    assert_eq!(err.get_kind(), CursedError::TimeOut);
    assert_eq!(err.get_reason().as_str(), "socket read timed out!");
}

#[test]
fn finished_read_passes_its_result_through() {
    let socket = descriptor_socket();
    assert!(socket.read_raw_packet_timeout(Some(Ok(()))).is_ok());
    let inner = CursedErrorHandle::new(CursedError::Sockets, String::from("Can't receive packet"));
    let err = socket.read_raw_packet_timeout(Some(Err(inner))).unwrap_err();
    assert_eq!(err.get_kind(), CursedError::Sockets);
    assert_eq!(err.get_reason().as_str(), "Can't receive packet");
}

#[test]
fn destroy_releases_descriptor_once() {
    let mut socket = descriptor_socket();
    assert_eq!(socket.destroy(), Some(3));
    assert!(socket.get_handle().is_none());
    assert_eq!(socket.destroy(), None);
    // the addresses survive the release
    assert_eq!(socket.get_src_ip().to_bytes(), [10, 0, 0, 1]);
}

#[test]
fn destroy_of_adapter_handle_releases_nothing() {
    let mut socket = Socket::from_parts(
        RawHandle::Adapter { handle: 77 },
        Ipv4::from_bytes([0, 0, 0, 0]),
        Mac::from_bytes([0, 0, 0, 0, 0, 0]),
    );
    assert_eq!(socket.destroy(), None);
    assert_eq!(socket.destroy(), None);
}

#[test]
fn open_socket_outcome_rejects_negative_descriptor() {
    let err = Socket::open_socket_outcome(-1).unwrap_err();
    assert_eq!(err.get_kind(), CursedError::Initialize);
    assert_eq!(err.get_reason().as_str(), "Can't initialize socket (-1 < 0)");
    assert_eq!(Socket::open_socket_outcome(3).unwrap(), 3);
    assert_eq!(Socket::open_socket_outcome(0).unwrap(), 0);
}

#[test]
fn pcap_device_string_prefixes_adapter_name() {
    let s = Socket::pcap_device_string("{ABC-DEF}");
    assert_eq!(s.as_str(), "rpcap://\\Device\\NPF_{ABC-DEF}");
}

#[test]
fn pcap_open_outcome_null_handle_is_error() {
    let err = Socket::pcap_open_outcome(0, "the adapter is gone").unwrap_err();
    assert_eq!(err.get_kind(), CursedError::Sockets);
    assert_eq!(err.get_reason().as_str(), "Can't open adapted due to the adapter is gone");
    assert_eq!(Socket::pcap_open_outcome(7, "").unwrap(), 7);
}

#[test]
fn unsupported_platform_error_names_the_os() {
    let err = Socket::unsupported_platform("plan9");
    assert_eq!(err.get_kind(), CursedError::OS);
    assert_eq!(err.get_reason().as_str(), "plan9 is not supported yet!");
}

#[test]
fn error_value_keeps_kind_and_reason() {
    let err = CursedErrorHandle::new(CursedError::Parse, String::from("bad input"));
    assert_eq!(err.get_kind(), CursedError::Parse);
    assert_eq!(err.get_reason().as_str(), "bad input");
}

#[test]
fn ifr_name_field_is_padded_to_sixteen() {
    let c_name = vec![b'e', b't', b'h', b'0', 0];
    let field = encode_ifr_name(&c_name).unwrap();
    let mut expected = vec![b'e', b't', b'h', b'0', 0];
    expected.resize(16, 0);
    assert_eq!(field, expected);
}

#[test]
fn ifr_name_field_rejects_overlong_names() {
    let c_name = vec![b'x'; 17];
    assert!(encode_ifr_name(&c_name).is_none());
    let c_name = vec![b'x'; 16];
    assert!(encode_ifr_name(&c_name).is_some());
}

#[test]
fn ipv4_is_read_at_sockaddr_in_offset() {
    let mut sa = vec![0u8; 16];
    sa[4] = 192;
    sa[5] = 168;
    sa[6] = 1;
    sa[7] = 1;
    let ip = ipv4_from_sockaddr_in(&sa).unwrap();
    assert_eq!(ip.to_bytes(), [192, 168, 1, 1]);
    assert!(ipv4_from_sockaddr_in(&vec![0u8; 7]).is_none());
}

#[test]
fn interface_index_is_read_at_ifreq_offset() {
    let mut ifr = vec![0u8; 40];
    ifr[16] = 2;
    assert_eq!(ifindex_from_ifreq(&ifr), Some(2));
    ifr[16] = 0xff;
    ifr[17] = 0xff;
    ifr[18] = 0xff;
    ifr[19] = 0xff;
    assert_eq!(ifindex_from_ifreq(&ifr), Some(-1));
    ifr[16] = 0x00;
    ifr[17] = 0x01;
    ifr[18] = 0x00;
    ifr[19] = 0x00;
    assert_eq!(ifindex_from_ifreq(&ifr), Some(256));
    assert_eq!(ifindex_from_ifreq(&vec![0u8; 19]), None);
}

#[test]
fn mac_is_read_from_sa_data_prefix() {
    let sa_data = vec![1u8, 2, 3, 4, 5, 6, 9, 9, 9, 9, 9, 9, 9, 9];
    let mac = mac_from_sa_data(&sa_data).unwrap();
    assert_eq!(mac.to_bytes(), [1, 2, 3, 4, 5, 6]);
    assert!(mac_from_sa_data(&vec![0u8; 5]).is_none());
}
