use aws_push_code::wiring::RuntimeError;

#[test]
fn messages_name_their_source() {
    assert_eq!(RuntimeError::io("disk full").message(), "IO: disk full");
    assert_eq!(RuntimeError::git("no such remote").message(), "GIT: no such remote");
    assert_eq!(RuntimeError::zip("bad entry").message(), "ZIP: bad entry");
    assert_eq!(RuntimeError::rusoto("denied").message(), "Rusoto: denied");
}
