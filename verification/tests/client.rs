use fanservice::client::{Client, Error};
use fanservice::protocol::Message;

#[test]
fn connect_keeps_the_path() {
    let client = Client::connect("/run/fanservice/control").unwrap();
    assert_eq!(client.path(), "/run/fanservice/control");
}

#[test]
fn connect_refuses_a_path_with_a_zero_byte() {
    let refused = Client::connect("/run/fan\0service");
    assert!(matches!(refused, Err(Error::Io(_))));
    if let Err(Error::Io(e)) = refused {
        assert_eq!(e.kind(), std::io::ErrorKind::InvalidInput);
    }
}

#[test]
fn connect_refuses_a_path_that_does_not_fit() {
    let fits = "a".repeat(107);
    let too_long = "a".repeat(108);
    assert!(Client::connect(&fits).is_ok());
    assert!(matches!(Client::connect(&too_long), Err(Error::Io(_))));
}

#[test]
fn client_error_wraps_an_io_error() {
    let e = Error::from(std::io::Error::from(std::io::ErrorKind::NotFound));
    let Error::Io(inner) = e;
    assert_eq!(inner.kind(), std::io::ErrorKind::NotFound);
}

#[test]
fn set_gamma_gives_the_datagram_to_send() {
    let client = Client::connect("/tmp/control").unwrap();
    let datagram = client.set_gamma(2.2f64.to_bits());
    assert_eq!(datagram, Message::SetGamma(2.2f64.to_bits()).encode());
    assert_eq!(datagram, vec![0, 0, 0, 0, 0x9a, 0x99, 0x99, 0x99, 0x99, 0x99, 0x01, 0x40]);
}
