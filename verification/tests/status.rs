use venus::cpu::status::Status;

#[test]
fn empty() {
    assert_eq!(Status::empty().bits(), 0);
}

#[test]
fn bits() {
    assert_eq!(Status::from_bits(Status::NEGATIVE).bits(), 0x80);
}
