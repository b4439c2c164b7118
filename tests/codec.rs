use socks5_proxy::address::{
    calculate_port_number, first_resolved, DomainName, IpAddress, SocketAddress, SocksAddress,
    SocksPort,
};
use socks5_proxy::errors::{ProtocolError, ResolutionError};
use socks5_proxy::methods::{MethodReply, MethodRequest};
use socks5_proxy::replies::SocksReply;
use socks5_proxy::requests::{SocksCommand, SocksRequest};
use socks5_proxy::traits::SocksPacket;
use socks5_proxy::udp::UdpMessage;

fn domain(name: &str) -> SocksAddress {
    SocksAddress::Domain(DomainName::new(name.as_bytes().to_vec()).unwrap())
}

fn request_error(bytes: &[u8]) -> ProtocolError {
    match SocksRequest::deserialize_from_bytes(bytes) {
        Ok(_) => panic!("decoded a malformed request"),
        Err(e) => e,
    }
}

#[test]
fn port_number_is_high_byte_first() {
    assert_eq!(calculate_port_number(0x04, 0x38), Some(1080));
    assert_eq!(calculate_port_number(0, 80), Some(80));
    assert_eq!(calculate_port_number(0xff, 0xff), Some(65535));
    assert_eq!(SocksPort::new(1080).serialize_to_bytes(), vec![0x04, 0x38]);
    assert_eq!(SocksPort::deserialize_from_bytes(&[0x1f, 0x90]).unwrap().value(), 8080);
    assert_eq!(SocksPort::deserialize_from_bytes(&[0x1f]).unwrap_err(), ProtocolError::Truncated);
}

#[test]
fn method_request_decodes_and_encodes() {
    let request = MethodRequest::deserialize_from_bytes(&[5, 2, 2, 0, 9]).unwrap();
    assert!(request.method_exists(0));
    assert!(request.method_exists(2));
    assert!(!request.method_exists(1));
    assert_eq!(request.serialize_to_bytes(), vec![5, 2, 2, 0]);
}

#[test]
fn method_request_errors() {
    assert_eq!(MethodRequest::deserialize_from_bytes(&[5]).unwrap_err(), ProtocolError::Truncated);
    assert_eq!(MethodRequest::deserialize_from_bytes(&[5, 3, 0, 1]).unwrap_err(), ProtocolError::Truncated);
    assert_eq!(MethodRequest::deserialize_from_bytes(&[4, 1, 0]).unwrap_err(), ProtocolError::UnsupportedVersion);
    let empty = MethodRequest::deserialize_from_bytes(&[5, 0]).unwrap();
    assert!(!empty.method_exists(0));
}

#[test]
fn method_reply_round_trip() {
    let reply = MethodReply::new(0xff);
    let bytes = reply.serialize_to_bytes();
    assert_eq!(bytes, vec![5, 0xff]);
    assert_eq!(MethodReply::deserialize_from_bytes(&bytes).unwrap().method(), 0xff);
    assert_eq!(MethodReply::deserialize_from_bytes(&[5]).unwrap_err(), ProtocolError::Truncated);
    assert_eq!(MethodReply::deserialize_from_bytes(&[4, 0]).unwrap_err(), ProtocolError::UnsupportedVersion);
}

#[test]
fn command_codes() {
    assert_eq!(SocksCommand::TCPConnect.as_u8(), 1);
    assert_eq!(SocksCommand::TCPBind.as_u8(), 2);
    assert_eq!(SocksCommand::UDPAssociate.as_u8(), 3);
    assert_eq!(SocksCommand::from_u8(3), Some(SocksCommand::UDPAssociate));
    assert_eq!(SocksCommand::from_u8(0), None);
    assert_eq!(SocksCommand::from_u8(4), None);
}

#[test]
fn request_round_trip_ipv4() {
    let request = SocksRequest::new(SocksCommand::TCPConnect, SocksAddress::IP(IpAddress::V4([93, 184, 216, 34])), 80);
    let bytes = request.serialize_to_bytes();
    assert_eq!(bytes, vec![5, 1, 0, 1, 93, 184, 216, 34, 0, 80]);
    let back = SocksRequest::deserialize_from_bytes(&bytes).unwrap();
    assert_eq!(back.get_ver(), 5);
    assert_eq!(back.get_cmd(), SocksCommand::TCPConnect);
    assert_eq!(back.get_dst_port(), 80);
    match back.get_dst_addr() {
        SocksAddress::IP(IpAddress::V4(b)) => assert_eq!(b, [93, 184, 216, 34]),
        other => panic!("wrong address {:?}", other),
    }
    assert_eq!(back.serialize_to_bytes(), bytes);
}

#[test]
fn request_round_trip_ipv6() {
    let ip = [0x20, 0x01, 0x0d, 0xb8, 0, 0, 0, 0, 0, 0, 0, 0, 0, 0, 0, 1];
    let request = SocksRequest::new(SocksCommand::UDPAssociate, SocksAddress::IP(IpAddress::V6(ip)), 53);
    let bytes = request.serialize_to_bytes();
    assert_eq!(bytes.len(), 4 + 16 + 2);
    assert_eq!(bytes[3], 4);
    let back = SocksRequest::deserialize_from_bytes(&bytes).unwrap();
    assert_eq!(back.get_cmd(), SocksCommand::UDPAssociate);
    assert_eq!(back.get_dst_port(), 53);
    match back.get_dst_addr() {
        SocksAddress::IP(IpAddress::V6(b)) => assert_eq!(b, ip),
        other => panic!("wrong address {:?}", other),
    }
}

#[test]
fn request_round_trip_domain() {
    let request = SocksRequest::new(SocksCommand::TCPBind, domain("example.com"), 443);
    let bytes = request.serialize_to_bytes();
    let mut expected = vec![5, 2, 0, 3, 11];
    expected.extend_from_slice(b"example.com");
    expected.extend_from_slice(&[1, 0xbb]);
    assert_eq!(bytes, expected);
    let back = SocksRequest::deserialize_from_bytes(&bytes).unwrap();
    assert_eq!(back.get_cmd(), SocksCommand::TCPBind);
    assert_eq!(back.get_dst_port(), 443);
    match back.get_dst_addr() {
        SocksAddress::Domain(d) => assert_eq!(d.as_bytes(), b"example.com"),
        other => panic!("wrong address {:?}", other),
    }
}

#[test]
fn request_round_trip_longest_domain() {
    let name = vec![b'a'; 255];
    let address = SocksAddress::Domain(DomainName::new(name.clone()).unwrap());
    let request = SocksRequest::new(SocksCommand::TCPConnect, address, 65535);
    let bytes = request.serialize_to_bytes();
    assert_eq!(bytes.len(), 4 + 1 + 255 + 2);
    assert_eq!(bytes[4], 255);
    let back = SocksRequest::deserialize_from_bytes(&bytes).unwrap();
    assert_eq!(back.get_dst_port(), 65535);
    match back.get_dst_addr() {
        SocksAddress::Domain(d) => assert_eq!(d.as_bytes(), &name[..]),
        other => panic!("wrong address {:?}", other),
    }
}

#[test]
fn domain_name_longer_than_255_is_refused() {
    assert!(DomainName::new(vec![b'a'; 256]).is_none());
    assert_eq!(DomainName::new(vec![b'a'; 255]).unwrap().len(), 255);
    assert_eq!(DomainName::new(Vec::new()).unwrap().len(), 0);
}

#[test]
fn request_port_1080_is_big_endian() {
    let request = SocksRequest::new(SocksCommand::TCPConnect, SocksAddress::IP(IpAddress::V4([127, 0, 0, 1])), 1080);
    let bytes = request.serialize_to_bytes();
    assert_eq!(&bytes[bytes.len() - 2..], &[0x04, 0x38]);
}

#[test]
fn request_with_unsupported_address_type() {
    assert_eq!(request_error(&[5, 1, 0, 2, 1, 2, 3, 4, 0, 80]), ProtocolError::UnsupportedAddressType);
    assert_eq!(request_error(&[5, 1, 0, 0]), ProtocolError::UnsupportedAddressType);
    assert_eq!(request_error(&[5, 3, 0, 0xff, 0, 0]), ProtocolError::UnsupportedAddressType);
}

#[test]
fn request_errors() {
    assert_eq!(request_error(&[]), ProtocolError::Truncated);
    assert_eq!(request_error(&[5, 1, 0]), ProtocolError::Truncated);
    assert_eq!(request_error(&[4, 1, 0, 1, 1, 2, 3, 4, 0, 80]), ProtocolError::UnsupportedVersion);
    assert_eq!(request_error(&[5, 0, 0, 1, 1, 2, 3, 4, 0, 80]), ProtocolError::UnsupportedCommand);
    assert_eq!(request_error(&[5, 4, 0, 1, 1, 2, 3, 4, 0, 80]), ProtocolError::UnsupportedCommand);
    assert_eq!(request_error(&[5, 1, 0, 1, 1, 2, 3]), ProtocolError::Truncated);
    assert_eq!(request_error(&[5, 1, 0, 1, 1, 2, 3, 4, 0]), ProtocolError::Truncated);
    assert_eq!(request_error(&[5, 1, 0, 3, 5, b'a', b'b']), ProtocolError::Truncated);
    assert_eq!(request_error(&[5, 1, 0, 3]), ProtocolError::Truncated);
    assert_eq!(request_error(&[5, 1, 0, 4, 0, 0, 0, 0]), ProtocolError::Truncated);
}

#[test]
fn request_ignores_trailing_bytes() {
    let back = SocksRequest::deserialize_from_bytes(&[5, 1, 0, 1, 10, 0, 0, 1, 0x1f, 0x90, 7, 7]).unwrap();
    assert_eq!(back.get_dst_port(), 8080);
}

#[test]
fn reply_encodes_bound_address() {
    let bound = SocketAddress { ip: IpAddress::V4([10, 0, 0, 2]), port: 40000 };
    let reply = SocksReply::new(0, bound);
    let bytes = reply.serialize_to_bytes();
    assert_eq!(bytes, vec![5, 0, 0, 1, 10, 0, 0, 2, 0x9c, 0x40]);
    let back = SocksReply::deserialize_from_bytes(&bytes).unwrap();
    assert_eq!(back.get_rep(), 0);
    assert_eq!(back.get_bnd_port(), 40000);
    match back.get_bnd_addr() {
        SocksAddress::IP(IpAddress::V4(b)) => assert_eq!(b, [10, 0, 0, 2]),
        other => panic!("wrong address {:?}", other),
    }
}

#[test]
fn reply_round_trip_ipv6() {
    let ip = [0xfe, 0x80, 0, 0, 0, 0, 0, 0, 0, 0, 0, 0, 0, 0, 0, 2];
    let reply = SocksReply::new(8, SocketAddress { ip: IpAddress::V6(ip), port: 1 });
    let bytes = reply.serialize_to_bytes();
    assert_eq!(bytes.len(), 22);
    let back = SocksReply::deserialize_from_bytes(&bytes).unwrap();
    assert_eq!(back.get_rep(), 8);
    assert_eq!(back.get_bnd_port(), 1);
    assert_eq!(SocksReply::deserialize_from_bytes(&[6, 0, 0, 1]).unwrap_err(), ProtocolError::UnsupportedVersion);
    assert_eq!(SocksReply::deserialize_from_bytes(&[5, 0, 0, 9]).unwrap_err(), ProtocolError::UnsupportedAddressType);
    assert_eq!(SocksReply::deserialize_from_bytes(&bytes[..21]).unwrap_err(), ProtocolError::Truncated);
}

#[test]
fn datagram_decodes_header_and_payload() {
    let bytes = [0, 0, 0, 1, 8, 8, 8, 8, 0, 53, 0xde, 0xad];
    let message = UdpMessage::deserialize_from_bytes(&bytes).unwrap();
    assert_eq!(message.get_frag(), 0);
    assert_eq!(message.get_dst_port(), 53);
    assert_eq!(message.get_udp_data(), vec![0xde, 0xad]);
    let target = message.get_dst_socket_addr().unwrap();
    assert_eq!(target.port, 53);
    match target.ip {
        IpAddress::V4(b) => assert_eq!(b, [8, 8, 8, 8]),
        IpAddress::V6(_) => panic!("wrong family"),
    }
    assert_eq!(message.serialize_to_bytes(), bytes.to_vec());
}

#[test]
fn datagram_to_domain_needs_resolution() {
    let message = UdpMessage::new(2, domain("dns.local"), 53, vec![1, 2, 3]);
    assert!(message.get_dst_socket_addr().is_none());
    let bytes = message.serialize_to_bytes();
    assert_eq!(&bytes[..5], &[0, 0, 2, 3, 9]);
    let back = UdpMessage::deserialize_from_bytes(&bytes).unwrap();
    assert_eq!(back.get_frag(), 2);
    assert_eq!(back.get_udp_data(), vec![1, 2, 3]);
}

#[test]
fn datagram_errors() {
    assert_eq!(UdpMessage::deserialize_from_bytes(&[0, 0, 0]).unwrap_err(), ProtocolError::Truncated);
    assert_eq!(UdpMessage::deserialize_from_bytes(&[0, 0, 0, 2, 1, 1, 1, 1, 0, 1]).unwrap_err(), ProtocolError::UnsupportedAddressType);
    assert_eq!(UdpMessage::deserialize_from_bytes(&[0, 0, 0, 1, 1, 1, 1, 1, 0]).unwrap_err(), ProtocolError::Truncated);
}

#[test]
fn reply_message_keeps_header() {
    let message = UdpMessage::deserialize_from_bytes(&[0, 0, 1, 1, 1, 2, 3, 4, 0x12, 0x34, 9, 9, 9]).unwrap();
    let reply = message.generate_reply_message(vec![7]);
    assert_eq!(reply.serialize_to_bytes(), vec![0, 0, 1, 1, 1, 2, 3, 4, 0x12, 0x34, 7]);
}

#[test]
fn resolution_takes_first_address() {
    let a = IpAddress::V4([1, 1, 1, 1]);
    let b = IpAddress::V4([2, 2, 2, 2]);
    match first_resolved(Ok(vec![a, b])) {
        Ok(IpAddress::V4(x)) => assert_eq!(x, [1, 1, 1, 1]),
        other => panic!("wrong result {:?}", other),
    }
    assert_eq!(first_resolved(Ok(Vec::new())).unwrap_err(), ResolutionError);
    assert_eq!(first_resolved(Err(ResolutionError)).unwrap_err(), ResolutionError);
}

#[test]
fn literal_ip_only_for_ip_addresses() {
    assert!(domain("example.org").literal_ip().is_none());
    match SocksAddress::IP(IpAddress::V4([9, 9, 9, 9])).literal_ip() {
        Some(IpAddress::V4(b)) => assert_eq!(b, [9, 9, 9, 9]),
        other => panic!("wrong result {:?}", other),
    }
}
