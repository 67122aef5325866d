use graphite_chain::decimal::push_decimal;

#[test]
fn it_renders_numbers_like_the_standard_formatter() {
    let samples: [u128; 8] = [
        0,
        7,
        10,
        99,
        100,
        1234567890,
        1234567890123456789,
        u128::MAX,
    ];
    for n in samples {
        let mut rendered = String::new();
        push_decimal(&mut rendered, n);
        assert_eq!(format!("{}", n), rendered);
    }
}

#[test]
fn it_appends_after_existing_text() {
    let mut rendered = String::from("nonce:");
    push_decimal(&mut rendered, 305);
    assert_eq!("nonce:305", rendered);
}
