use bigdecimal::num_bigint::{BigInt, Sign};
use bigdecimal::BigDecimal;
use formula_stream::ast::{
    build_request, distinct_symbols, get_all_variables_from_ast, is_supported, lower,
    parse_stream_request, Expression, Operator,
};
use formula_stream::decimal::Decimal;
use formula_stream::error::Error;
use formula_stream::eval::eval_ast_with;
use formula_stream::grammar::{ParsedBlock, Syntax, MAX_FORMULA_LENGTH, MAX_NESTING};
use formula_stream::scan::scan;
use formula_stream::models::BinanceResponse;
use formula_stream::store::SampleStore;

fn big(n: f64) -> BigDecimal {
    BigDecimal::try_from(n).unwrap()
}

fn decimal_from(value: BigDecimal) -> Decimal {
    let (unscaled, scale) = value.into_bigint_and_exponent();
    let (sign, magnitude) = unscaled.to_u32_digits();
    Decimal { negative: sign == Sign::Minus, magnitude, scale }
}

fn big_from(value: &Decimal) -> BigDecimal {
    let sign = if value.negative { Sign::Minus } else { Sign::Plus };
    BigDecimal::new(BigInt::new(sign, value.magnitude.clone()), value.scale)
}

fn parse_error(text: &str) -> String {
    match parse_stream_request(text) {
        Err(Error::ParseError(reason)) => reason,
        other => panic!("expected a parse error, got {:?}", other),
    }
}

fn variable(name: &str) -> Expression {
    Expression::Variable(name.to_string())
}

fn binary(op: Operator, lhs: Expression, rhs: Expression) -> Expression {
    Expression::Binary { op, lhs: Box::new(lhs), rhs: Box::new(rhs) }
}

#[test]
fn get_vars() {
    let req = parse_stream_request("(btcusdt+ethusdt*ltcbtc)/bnbusdt@1m").unwrap();
    let result = get_all_variables_from_ast(&req.request);
    assert_eq!(result, vec!["btcusdt", "ethusdt", "ltcbtc", "bnbusdt"])
}

#[test]
fn eval_ast() {
    let mut btcusdt = BinanceResponse::default();
    btcusdt.data.k.open = decimal_from(big(5.9));
    btcusdt.data.k.high = decimal_from(big(10.3));
    btcusdt.data.k.low = decimal_from(big(5.9));
    btcusdt.data.k.close = decimal_from(big(7.1));

    let mut ethusdt = BinanceResponse::default();
    ethusdt.data.k.open = decimal_from(big(105.0));
    ethusdt.data.k.high = decimal_from(big(107.3));
    ethusdt.data.k.low = decimal_from(big(102.1));
    ethusdt.data.k.close = decimal_from(big(104.6));

    let mut bnbusdt = BinanceResponse::default();
    bnbusdt.data.k.open = decimal_from(big(50.1));
    bnbusdt.data.k.high = decimal_from(big(51.3));
    bnbusdt.data.k.low = decimal_from(big(50.0));
    bnbusdt.data.k.close = decimal_from(big(52.4));

    let mut vals = SampleStore::new();
    vals.insert("btcusdt".to_string(), btcusdt);
    vals.insert("ethusdt".to_string(), ethusdt);
    vals.insert("bnbusdt".to_string(), bnbusdt);

    let req = parse_stream_request("btcusdt+(ethusdt-bnbusdt)@1m").unwrap();
    let result = eval_ast_with(&req.request, &vals).unwrap().unwrap();

    assert_eq!(big_from(&result.data.k.open), big(60.8));
    assert_eq!(big_from(&result.data.k.high), big(66.3));
    assert_eq!(big_from(&result.data.k.low), big(58.0));
    assert_eq!(big_from(&result.data.k.close), big(59.3));
}

#[test]
fn request_keeps_formula_and_interval() {
    let req = parse_stream_request("btcusdt/ethusdt@15m").unwrap();
    assert_eq!(req.candle_interval, "15m");
    match req.request {
        Expression::Binary { op, lhs, rhs } => {
            assert_eq!(op, Operator::Div);
            assert!(matches!(*lhs, Expression::Variable(ref s) if s == "btcusdt"));
            assert!(matches!(*rhs, Expression::Variable(ref s) if s == "ethusdt"));
        }
        other => panic!("unexpected tree {:?}", other),
    }
}

#[test]
fn request_without_at_is_refused() {
    assert_eq!(parse_error("btcusdt+ethusdt"), "no @interval found");
    assert_eq!(parse_error(""), "no @interval found");
}

#[test]
fn request_without_formula_is_refused() {
    assert_eq!(parse_error("@1m"), "no expressions found");
    assert_eq!(parse_error("   @1m"), "no expressions found");
}

#[test]
fn assignment_is_no_formula() {
    assert_eq!(parse_error("x = btcusdt;@1m"), "no expressions found");
}

#[test]
fn statements_before_the_formula_are_refused() {
    assert_eq!(parse_error("x = btcusdt; x + ethusdt@1m"), "formula is not a single expression");
    assert_eq!(parse_error("btcusdt; ethusdt@1m"), "formula is not a single expression");
}

#[test]
fn malformed_formula_carries_the_parser_message() {
    let reason = parse_error("btcusdt + * ethusdt@1m");
    assert!(!reason.is_empty());
    assert_ne!(reason, "no expressions found");
    let reason = parse_error("btcusdt ? ethusdt@1m");
    assert!(reason.contains("1:"), "{}", reason);
}

#[test]
fn non_ascii_formula_is_refused() {
    let reason = parse_error("bt\u{e7}usdt@1m");
    assert!(reason.contains("Non-ASCII"), "{}", reason);
}

#[test]
fn interval_ends_at_the_second_at() {
    let req = parse_stream_request("btcusdt@1m@later").unwrap();
    assert_eq!(req.candle_interval, "1m");
    let req = parse_stream_request("btcusdt@").unwrap();
    assert_eq!(req.candle_interval, "");
}

#[test]
fn literal_becomes_a_decimal() {
    let req = parse_stream_request("btcusdt*2.50@1m").unwrap();
    match req.request {
        Expression::Binary { op, rhs, .. } => {
            assert_eq!(op, Operator::Mul);
            match *rhs {
                Expression::Literal(value) => {
                    assert_eq!(big_from(&value), "2.5".parse::<BigDecimal>().unwrap());
                    assert_eq!(value.scale, 2);
                }
                other => panic!("unexpected operand {:?}", other),
            }
        }
        other => panic!("unexpected tree {:?}", other),
    }
}

#[test]
fn literal_with_exponent_is_read() {
    let req = parse_stream_request("btcusdt*1e3@1m").unwrap();
    match req.request {
        Expression::Binary { rhs, .. } => match *rhs {
            Expression::Literal(value) => {
                assert_eq!(big_from(&value), "1000".parse::<BigDecimal>().unwrap());
            }
            other => panic!("unexpected operand {:?}", other),
        },
        other => panic!("unexpected tree {:?}", other),
    }
    assert_eq!(
        parse_error("btcusdt*1e1000000000000000000@1m"),
        "literal is not a decimal number"
    );
}

#[test]
fn literal_that_is_no_number_is_refused() {
    assert_eq!(parse_error("btcusdt*inf@1m"), "literal is not a decimal number");
}

#[test]
fn operators_keep_their_names() {
    let cases = [
        ("a+b@1m", Operator::Add),
        ("a-b@1m", Operator::Sub),
        ("a*b@1m", Operator::Mul),
        ("a/b@1m", Operator::Div),
        ("a^b@1m", Operator::Power),
        ("a==b@1m", Operator::Eq),
        ("a!=b@1m", Operator::NotEq),
        ("a&&b@1m", Operator::And),
        ("a||b@1m", Operator::Or),
        ("a>b@1m", Operator::Gt),
        ("a<b@1m", Operator::Lt),
        ("a>=b@1m", Operator::Ge),
        ("a<=b@1m", Operator::Le),
    ];
    for (text, expected) in cases {
        match parse_stream_request(text).unwrap().request {
            Expression::Binary { op, .. } => assert_eq!(op, expected, "{}", text),
            other => panic!("unexpected tree {:?}", other),
        }
    }
}

#[test]
fn precedence_shapes_the_tree() {
    let req = parse_stream_request("a+b*c@1m").unwrap();
    match req.request {
        Expression::Binary { op, lhs, rhs } => {
            assert_eq!(op, Operator::Add);
            assert!(matches!(*lhs, Expression::Variable(ref s) if s == "a"));
            assert!(matches!(*rhs, Expression::Binary { op: Operator::Mul, .. }));
        }
        other => panic!("unexpected tree {:?}", other),
    }
}

#[test]
fn other_constructs_are_kept_as_leaves() {
    let req = parse_stream_request("-a+max(b,c)@1m").unwrap();
    match req.request {
        Expression::Binary { lhs, rhs, .. } => {
            assert!(matches!(*lhs, Expression::Other));
            assert!(matches!(*rhs, Expression::Other));
        }
        other => panic!("unexpected tree {:?}", other),
    }
}

#[test]
fn single_variable_is_its_own_symbol() {
    let req = parse_stream_request("btcusdt@1m").unwrap();
    assert_eq!(get_all_variables_from_ast(&req.request), vec!["btcusdt"]);
}

#[test]
fn symbols_are_case_sensitive() {
    let req = parse_stream_request("BTCusdt+btcusdt@1m").unwrap();
    assert_eq!(get_all_variables_from_ast(&req.request), vec!["BTCusdt", "btcusdt"]);
}

#[test]
fn repeated_symbol_is_listed_once_for_each_occurrence() {
    let req = parse_stream_request("btcusdt+ethusdt*btcusdt@1m").unwrap();
    let symbols = get_all_variables_from_ast(&req.request);
    assert_eq!(symbols, vec!["btcusdt", "ethusdt", "btcusdt"]);
    assert_eq!(distinct_symbols(&symbols), vec!["btcusdt", "ethusdt"]);
}

#[test]
fn literals_and_other_constructs_name_no_symbol() {
    let req = parse_stream_request("2*btcusdt+sin(ethusdt)-(-ltcbtc)@1m").unwrap();
    assert_eq!(get_all_variables_from_ast(&req.request), vec!["btcusdt"]);
    assert!(get_all_variables_from_ast(&Expression::Other).is_empty());
    assert!(get_all_variables_from_ast(&Expression::Literal(Decimal::zero())).is_empty());
}

#[test]
fn distinct_symbols_keeps_first_occurrences() {
    let list: Vec<String> = ["b", "a", "b", "c", "a", "a"].iter().map(|s| s.to_string()).collect();
    assert_eq!(distinct_symbols(&list), vec!["b", "a", "c"]);
    assert!(distinct_symbols(&Vec::new()).is_empty());
}

#[test]
fn supported_formulas_use_the_four_operators() {
    assert!(is_supported(&parse_stream_request("a+b-c*d/e@1m").unwrap().request));
    assert!(is_supported(&variable("a")));
    assert!(is_supported(&Expression::Other));
    assert!(!is_supported(&parse_stream_request("a+b^c@1m").unwrap().request));
    assert!(!is_supported(&binary(Operator::Rem, variable("a"), variable("b"))));
    assert!(!is_supported(&binary(
        Operator::Add,
        variable("a"),
        binary(Operator::Gt, variable("b"), variable("c")),
    )));
}

#[test]
fn lower_reads_literals() {
    let tree = Syntax::Binary {
        op: Operator::Sub,
        lhs: Box::new(Syntax::Literal("-0.125".to_string())),
        rhs: Box::new(Syntax::Variable("a".to_string())),
    };
    match lower(tree) {
        Some(Expression::Binary { op: Operator::Sub, lhs, rhs }) => {
            match *lhs {
                Expression::Literal(value) => {
                    assert!(value.negative);
                    assert_eq!(value.magnitude, vec![125]);
                    assert_eq!(value.scale, 3);
                }
                other => panic!("unexpected operand {:?}", other),
            }
            assert!(matches!(*rhs, Expression::Variable(ref s) if s == "a"));
        }
        other => panic!("unexpected tree {:?}", other),
    }
    assert!(lower(Syntax::Literal("abc".to_string())).is_none());
    assert!(lower(Syntax::Literal("(2e1234567890123456789)".to_string())).is_none());
    assert!(lower(Syntax::Literal("()".to_string())).is_none());
    assert!(matches!(lower(Syntax::Other), Some(Expression::Other)));
}

#[test]
fn lower_takes_parentheses_off_a_leaf() {
    match lower(Syntax::Variable("( (btcusdt)\t)".to_string())) {
        Some(Expression::Variable(symbol)) => assert_eq!(symbol, "btcusdt"),
        other => panic!("unexpected tree {:?}", other),
    }
    match lower(Syntax::Literal("(-2.5)".to_string())) {
        Some(Expression::Literal(value)) => {
            assert!(value.negative);
            assert_eq!(value.magnitude, vec![25]);
            assert_eq!(value.scale, 1);
        }
        other => panic!("unexpected tree {:?}", other),
    }
}

#[test]
fn parentheses_and_blanks_do_not_reach_the_symbols() {
    let req = parse_stream_request(" ( btcusdt ) * ((ethusdt)) + (2) * ltcbtc @1m").unwrap();
    assert_eq!(get_all_variables_from_ast(&req.request), vec!["btcusdt", "ethusdt", "ltcbtc"]);
    assert_eq!(req.candle_interval, "1m");
    let mut vals = SampleStore::new();
    for symbol in ["btcusdt", "ethusdt", "ltcbtc"] {
        let mut sample = BinanceResponse::default();
        sample.data.k.close = decimal_from(big(3.0));
        vals.insert(symbol.to_string(), sample);
    }
    let result = eval_ast_with(&req.request, &vals).unwrap().unwrap();
    assert_eq!(big_from(&result.data.k.close), big(15.0));
}

#[test]
fn comments_do_not_reach_the_symbols() {
    let text = "(/* spot */ btcusdt) * ( 2 /* twice */ ) + ( // perpetual\n ethusdt )@1m";
    let req = parse_stream_request(text).unwrap();
    assert_eq!(get_all_variables_from_ast(&req.request), vec!["btcusdt", "ethusdt"]);
    match lower(Syntax::Variable("(/* x */ btcusdt)".to_string())) {
        Some(Expression::Variable(symbol)) => assert_eq!(symbol, "btcusdt"),
        other => panic!("unexpected tree {:?}", other),
    }
}

#[test]
fn build_request_decides_on_the_block() {
    let ok = build_request(
        Ok(ParsedBlock { statements: 0, value: Some(Syntax::Variable("a".to_string())) }),
        "1h".to_string(),
    )
    .unwrap();
    assert_eq!(ok.candle_interval, "1h");
    assert!(matches!(ok.request, Expression::Variable(ref s) if s == "a"));

    let empty = build_request(Ok(ParsedBlock { statements: 2, value: None }), "1h".to_string());
    assert_eq!(empty.unwrap_err(), Error::ParseError("no expressions found".to_string()));

    let many = build_request(
        Ok(ParsedBlock { statements: 1, value: Some(Syntax::Variable("a".to_string())) }),
        "1h".to_string(),
    );
    assert_eq!(
        many.unwrap_err(),
        Error::ParseError("formula is not a single expression".to_string())
    );

    let failed = build_request(Err("1:3: Unfinished expression".to_string()), "1h".to_string());
    assert_eq!(
        failed.unwrap_err(),
        Error::ParseError("1:3: Unfinished expression".to_string())
    );
}

#[test]
fn longest_formula_is_read_and_evaluated() {
    let terms = (MAX_FORMULA_LENGTH - 1) / 2;
    let text = format!("a{}@1m", "+a".repeat(terms));
    let req = parse_stream_request(&text).unwrap();
    assert_eq!(get_all_variables_from_ast(&req.request).len(), terms + 1);
    let mut vals = SampleStore::new();
    let mut sample = BinanceResponse::default();
    sample.data.k.close = decimal_from(big(0.5));
    vals.insert("a".to_string(), sample);
    let result = eval_ast_with(&req.request, &vals).unwrap().unwrap();
    assert_eq!(big_from(&result.data.k.close), big(256.0));
}

#[test]
fn formula_that_is_too_long_is_refused() {
    let text = format!("{}@1m", "a".repeat(MAX_FORMULA_LENGTH));
    assert!(parse_stream_request(&text).is_ok());
    let text = format!("{}@1m", "a".repeat(MAX_FORMULA_LENGTH + 1));
    assert_eq!(parse_error(&text), "formula is too long");
    let text = format!("a@{}", "m".repeat(MAX_FORMULA_LENGTH + 1));
    assert!(parse_stream_request(&text).is_ok());
}

#[test]
fn deepest_formula_is_read() {
    let text = format!("{}a{}@1m", "(".repeat(MAX_NESTING), ")".repeat(MAX_NESTING));
    let req = parse_stream_request(&text).unwrap();
    assert_eq!(get_all_variables_from_ast(&req.request), vec!["a"]);
    let text = format!("{}a@1m", "-".repeat(MAX_NESTING));
    assert!(matches!(parse_stream_request(&text).unwrap().request, Expression::Other));
    let text = format!("{}a{}@1m", "-(".repeat(MAX_NESTING / 2), ")".repeat(MAX_NESTING / 2));
    assert!(matches!(parse_stream_request(&text).unwrap().request, Expression::Other));
    for opening in ["!", "|x| ", "max(", "- (", "(a, "] {
        let text = format!("{}a@1m", opening.repeat(MAX_NESTING / 2));
        let _ = parse_stream_request(&text);
    }
}

#[test]
fn formula_that_is_too_deep_is_refused() {
    let text = format!("{}a{}@1m", "(".repeat(MAX_NESTING + 1), ")".repeat(MAX_NESTING + 1));
    assert_eq!(parse_error(&text), "formula is nested too deeply");
    let text = format!("{}a@1m", "-".repeat(MAX_NESTING + 1));
    assert_eq!(parse_error(&text), "formula is nested too deeply");
    let text = format!("{}a@1m", "- (".repeat(MAX_NESTING / 2 + 1));
    assert_eq!(parse_error(&text), "formula is nested too deeply");
    let text = format!("a@1m{}", "(".repeat(MAX_NESTING + 1));
    assert!(parse_stream_request(&text).is_ok());
}

#[test]
fn signs_between_operands_are_not_nesting() {
    let text = format!("a{}@1m", "-a".repeat(300));
    let req = parse_stream_request(&text).unwrap();
    assert_eq!(get_all_variables_from_ast(&req.request).len(), 301);
    let text = format!("a{}@1m", "||a".repeat(100));
    assert!(parse_stream_request(&text).is_ok());
    let text = format!("a{}@1m", "!=a".repeat(1));
    assert!(parse_stream_request(&text).is_ok());
    let text = format!("-a{}@1m", " * -a".repeat(150));
    assert!(parse_stream_request(&text).is_ok());
    let text = format!("(a+a){}@1m", "*(a-a)".repeat(150));
    let req = parse_stream_request(&text).unwrap();
    assert_eq!(get_all_variables_from_ast(&req.request).len(), 302);
}

#[test]
fn comments_are_not_nesting() {
    let text = format!("/* {} */ a // {}\n + b@1m", "(".repeat(100), "-(".repeat(100));
    let req = parse_stream_request(&text).unwrap();
    assert_eq!(get_all_variables_from_ast(&req.request), vec!["a", "b"]);
}

#[test]
fn blocks_are_refused() {
    for depth in [1, 2, 8, 16, 32, 64] {
        let text = format!("{}a{}@1m", "{".repeat(depth), "}".repeat(depth));
        assert_eq!(parse_error(&text), "formula holds a block", "{}", depth);
    }
    for text in ["{a}+b@1m", "a*{b; c}@1m", "|x| {x}@1m", "#{x: a}@1m", "a+{@1m", "(a, {b})@1m"] {
        assert_eq!(parse_error(text), "formula holds a block", "{}", text);
    }
    let inside = format!("a{}", "+a".repeat(500));
    let text = format!("{}{}{}@1m", "{".repeat(8), inside, "}".repeat(8));
    assert_eq!(parse_error(&text), "formula holds a block");
}

#[test]
fn braces_in_comments_and_intervals_are_no_blocks() {
    let text = format!("a /* {} */ + b // {}@1m", "{".repeat(40), "}");
    let req = parse_stream_request(&text).unwrap();
    assert_eq!(get_all_variables_from_ast(&req.request), vec!["a", "b"]);
    let text = format!("a /* {} */ + b@1m", "{{a}}".repeat(10));
    let req = parse_stream_request(&text).unwrap();
    assert_eq!(get_all_variables_from_ast(&req.request), vec!["a", "b"]);
    assert!(parse_stream_request("a@{1m}").is_ok());
}

#[test]
fn scan_measures_depth_and_blocks() {
    let measure = |text: &str| {
        let chars: Vec<char> = text.chars().collect();
        let s = scan(&chars);
        (s.deepest, s.blocks)
    };
    assert_eq!(measure(""), (0, 0));
    assert_eq!(measure("a+b*c/d-e"), (0, 0));
    assert_eq!(measure("(a+(b*c))-(d)"), (2, 0));
    assert_eq!(measure("-a - -b"), (1, 0));
    assert_eq!(measure("- - !a"), (3, 0));
    assert_eq!(measure("-(a) + -(b)"), (3, 0));
    assert_eq!(measure("-a.max(b)"), (2, 0));
    assert_eq!(measure("{a; {b}} + #{c}"), (2, 3));
    assert_eq!(measure("|x| x + 1"), (1, 0));
    assert_eq!(measure("a || b != c"), (0, 0));
    assert_eq!(measure("a /* (( { */ + (b) // ((\n + ((c))"), (2, 0));
    assert_eq!(measure("a / (b)"), (1, 0));
}
