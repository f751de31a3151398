use ropk::proto::placeholder;

#[test]
fn it_builds() {
    assert_eq!(placeholder(), 1);
}
