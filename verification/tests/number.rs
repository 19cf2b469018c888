use owon_spe::number::is_number;
use owon_spe::Number;

const ACCEPTED: [&str; 40] = [
    "0", "1", "1.000", "2.5", "4.987", "0.514", "2.560", "-1", "+1", "-0.0", "1.", ".5", "+.5",
    "-5.", "007", "1e5", "1E5", "1e+5", "1e-5", "1.5e3", ".5e1", "5.e1", "1e0005",
    "123456789012345678901234567890", "0.000000000000000000000000000000000000000000001",
    "1e999", "-1e999", "1e-999", "inf", "-inf", "+inf", "INF", "Infinity", "infinity",
    "-INFINITY", "nan", "NaN", "-nan", "+NAN", "3.4028235e38",
];

const REFUSED: [&str; 40] = [
    "", " ", "+", "-", ".", "+.", "-.", "e", "e5", ".e5", "1e", "1e+", "1e-", "1ee5", "1e5.0",
    "1.2.3", "1..2", "--1", "+-1", "1-", "1+", " 1", "1 ", "1 000", "1,000", "0x10", "1_000",
    "1f", "1.0f32", "in", "infi", "infinit", "infinityy", "na", "nann", "i", "١", "1\n",
    "1\r\n", "ON",
];

#[test]
fn accepted_tokens() {
    for token in ACCEPTED {
        assert!(is_number(token), "{:?}", token);
        let number = Number::parse(token).expect("a numeric token");
        assert_eq!(number.as_str(), token);
    }
}

#[test]
fn refused_tokens() {
    for token in REFUSED {
        assert!(!is_number(token), "{:?}", token);
        assert!(Number::parse(token).is_none(), "{:?}", token);
    }
}

#[test]
fn accepted_as_the_standard_parser_accepts() {
    for token in ACCEPTED.iter().chain(REFUSED.iter()) {
        assert_eq!(
            is_number(token),
            token.parse::<f32>().is_ok(),
            "{:?}",
            token
        );
    }
}

#[test]
fn every_short_token_as_the_standard_parser() {
    let alphabet = ['0', '7', '+', '-', '.', 'e', 'E', 'i', 'n', 'f', 'a', ' '];
    let mut tokens = vec![String::new()];
    let mut from = 0;
    for _ in 0..4 {
        let upto = tokens.len();
        for at in from..upto {
            for c in alphabet {
                let mut longer = tokens[at].clone();
                longer.push(c);
                tokens.push(longer);
            }
        }
        from = upto;
    }
    for token in &tokens {
        assert_eq!(
            is_number(token),
            token.parse::<f32>().is_ok(),
            "{:?}",
            token
        );
    }
}

#[test]
fn number_values() {
    let cases: [(&str, f32); 6] = [
        ("1.000", 1.0),
        ("2.5", 2.5),
        ("-0.25", -0.25),
        ("1e3", 1000.0),
        (".5", 0.5),
        ("12.", 12.0),
    ];
    for (token, value) in cases {
        let number = Number::parse(token).unwrap();
        assert_eq!(number.as_str().parse::<f32>().unwrap(), value);
    }
}

#[test]
fn numbers_are_the_same_by_text() {
    let a = Number::parse("1.0").unwrap();
    let b = Number::parse("1.0").unwrap();
    let c = Number::parse("1.00").unwrap();
    assert!(a.same(&b));
    assert!(!a.same(&c));
    assert_eq!(a, b);
    assert_ne!(a, c);
    let copy = a.clone();
    assert!(copy.same(&a));
    assert_eq!(copy.as_str(), "1.0");
}

#[test]
fn formatted_floats_are_tokens() {
    let values: [f32; 9] = [
        0.0,
        -0.0,
        1.5,
        -12.25,
        3.4028235e38,
        1e-40,
        f32::INFINITY,
        f32::NEG_INFINITY,
        f32::NAN,
    ];
    for value in values {
        let text = format!("{}", value);
        let number = Number::parse(&text).expect("a numeric token");
        let back: f32 = number.as_str().parse().unwrap();
        assert!(back == value || (back.is_nan() && value.is_nan()), "{}", text);
    }
}
