use mailbox::credentials::{
    Credentials, Error, Variables, DOMAIN, EMAIL, IMAP_ENCRYPTION_PROTOCOL, IMAP_PORT,
    IMAP_PORT_DEFAULT, PASSWORD,
};
use mailbox::errors;
use mailbox::fetch::connection;
use mailbox::fetch::parser;
use mailbox::tui::app;

fn variables() -> Variables {
    Variables {
        domain: Some("example.com".to_owned()),
        email: Some("bob@example.com".to_owned()),
        imap_port: Some("143".to_owned()),
        imap_encryption_protocol: Some("TLS".to_owned()),
        password: Some("P@ssw0rd".to_owned()),
    }
}

#[test]
fn keys_of_the_variables() {
    assert_eq!(DOMAIN, "DOMAIN");
    assert_eq!(EMAIL, "EMAIL");
    assert_eq!(IMAP_ENCRYPTION_PROTOCOL, "IMAP_ENCRYPTION_PROTOCOL");
    assert_eq!(IMAP_PORT, "IMAP_PORT");
    assert_eq!(PASSWORD, "PASSWORD");
    assert_eq!(IMAP_PORT_DEFAULT, 993);
}

#[test]
fn getters_return_the_parts() {
    let credentials = Credentials::new(
        "example.com".to_owned(),
        "bob@example.com".to_owned(),
        "SSL".to_owned(),
        1993,
        "secret".to_owned(),
    );
    assert_eq!(credentials.as_domain_name(), "example.com");
    assert_eq!(credentials.as_email(), "bob@example.com");
    assert_eq!(credentials.as_imap_socket_address(), ("example.com", 1993));
    assert_eq!(credentials.as_password(), "secret");
}

#[test]
fn load_reads_every_variable() {
    let credentials = Credentials::load(Ok(()), variables()).unwrap();
    assert_eq!(credentials.as_domain_name(), "example.com");
    assert_eq!(credentials.as_email(), "bob@example.com");
    assert_eq!(credentials.as_imap_socket_address(), ("example.com", 143));
    assert_eq!(credentials.as_password(), "P@ssw0rd");
}

#[test]
fn port_defaults_when_not_set() {
    let credentials = Credentials::load(Ok(()), Variables { imap_port: None, ..variables() });
    assert_eq!(credentials.unwrap().as_imap_socket_address().1, 993);
    assert_eq!(Credentials::load_imap_port(None), Ok(993));
}

#[test]
fn port_is_a_decimal_number_of_sixteen_bits() {
    assert_eq!(Credentials::load_imap_port(Some("0")), Ok(0));
    assert_eq!(Credentials::load_imap_port(Some("993")), Ok(993));
    assert_eq!(Credentials::load_imap_port(Some("+993")), Ok(993));
    assert_eq!(Credentials::load_imap_port(Some("00143")), Ok(143));
    assert_eq!(Credentials::load_imap_port(Some("65535")), Ok(65535));
    assert_eq!(Credentials::load_imap_port(Some("0000000000000000065535")), Ok(65535));
    for text in ["", "+", "-", "-1", "65536", "99999", "4294967296", "12a", "a12", " 12", "12 ", "1_2", "++1", "1+", "٣"] {
        assert_eq!(Credentials::load_imap_port(Some(text)), Err(Error::InvalidPort), "{text:?}");
        assert_eq!(text.parse::<u16>().ok(), None, "{text:?}");
    }
    for text in ["7", "+0", "010", "65535", "+65535"] {
        assert_eq!(Credentials::load_imap_port(Some(text)).ok(), text.parse::<u16>().ok());
    }
}

#[test]
fn load_reports_the_first_failure() {
    let failed = Credentials::load(
        Err("no file".to_owned()),
        Variables { domain: None, ..variables() },
    );
    assert_eq!(failed.err(), Some(Error::InvalidFile("no file".to_owned())));
    let failed = Credentials::load(Ok(()), Variables { domain: None, email: None, ..variables() });
    assert_eq!(failed.err(), Some(Error::MissingVariable("DOMAIN")));
    let failed = Credentials::load(
        Ok(()),
        Variables { email: None, imap_port: Some("x".to_owned()), ..variables() },
    );
    assert_eq!(failed.err(), Some(Error::MissingVariable("EMAIL")));
    let failed = Credentials::load(
        Ok(()),
        Variables { imap_port: Some("70000".to_owned()), password: None, ..variables() },
    );
    assert_eq!(failed.err(), Some(Error::InvalidPort));
    let failed = Credentials::load(
        Ok(()),
        Variables { imap_encryption_protocol: None, password: None, ..variables() },
    );
    assert_eq!(failed.err(), Some(Error::MissingVariable("IMAP_ENCRYPTION_PROTOCOL")));
    let failed = Credentials::load(Ok(()), Variables { password: None, ..variables() });
    assert_eq!(failed.err(), Some(Error::MissingVariable("PASSWORD")));
}

#[test]
fn errors_wrap_the_error_of_each_part() {
    assert_eq!(
        errors::Error::from(Error::InvalidPort),
        errors::Error::Credentials(Error::InvalidPort)
    );
    assert_eq!(
        errors::Error::from(connection::Error::NoEmail),
        errors::Error::ImapConnection(connection::Error::NoEmail)
    );
    assert_eq!(
        errors::Error::from(parser::Error::NoHeaders),
        errors::Error::Parsing(parser::Error::NoHeaders)
    );
    assert_eq!(
        errors::Error::from(app::Error::LayoutLengthFailure),
        errors::Error::Tui(app::Error::LayoutLengthFailure)
    );
}
