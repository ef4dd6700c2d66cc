use weaver::precedence::Precedence;

#[test]
fn equality() {
    assert_eq!(Precedence::PRIMARY, Precedence::PRIMARY);
}

#[test]
fn comparison() {
    assert!(Precedence::PRIMARY > Precedence::ASSIGNMENT);
}

#[test]
fn next_climbs_one_level() {
    assert_eq!(Precedence::NONE.next(), Precedence::ASSIGNMENT);
    assert_eq!(Precedence::TERM.next(), Precedence::FACTOR);
    assert_eq!(Precedence::PRIMARY.next(), Precedence::PRIMARY);
}
