use kaleido_parser::ast::{Ast, Function, Prototype};
use kaleido_parser::parser::{
    get_operator_precedence, parse_binop_rhs, parse_binop_rhs_with, parse_definition,
    parse_expression, parse_expression_with, parse_extern, parse_primary, parse_primary_with,
    parse_prototype, parse_top_level_expr, ParserError, PrecedenceTable, MAX_NESTING,
};
use kaleido_parser::token::{Op, Token, TokenStream};

fn ident(s: &str) -> Token {
    Token::Identifier(s.to_string())
}

fn num(v: f64) -> Token {
    Token::Number(v.to_bits())
}

fn number(v: f64) -> Ast {
    Ast::NumberExpr(v.to_bits())
}

fn var(s: &str) -> Ast {
    Ast::VariableExpr { name: s.to_string() }
}

fn bin(op: Op, left: Ast, right: Ast) -> Ast {
    Ast::BinaryExpr { op, left: Box::new(left), right: Box::new(right) }
}

fn stream(tokens: Vec<Token>) -> TokenStream {
    TokenStream::new(tokens)
}

#[test]
fn parsing_primary_expressions() {
    // 3.14;
    let mut input = stream(vec![num(3.14), Token::Semicolon]);
    let mut ast = parse_primary(&mut input);
    assert_eq!(ast, Ok(number(3.14)));

    // 2 + 3;
    input = stream(vec![num(2.0), Token::Operator(Op::Plus), num(3.0), Token::Semicolon]);
    ast = parse_expression(&mut input);
    assert_eq!(ast, Ok(bin(Op::Plus, number(2.0), number(3.0))));

    // var1 * var2;
    input = stream(vec![ident("var1"), Token::Operator(Op::Mult), ident("var2"), Token::Semicolon]);
    ast = parse_expression(&mut input);
    assert_eq!(ast, Ok(bin(Op::Mult, var("var1"), var("var2"))));
}

#[test]
fn parsing_binorphs() {}

#[test]
fn number_literal_is_consumed_alone() {
    let mut input = stream(vec![num(7.5), Token::Operator(Op::Plus), num(1.0)]);
    assert_eq!(parse_primary(&mut input), Ok(number(7.5)));
    assert_eq!(input.pos, 1);
    assert_eq!(input.peek(), Some(&Token::Operator(Op::Plus)));
}

#[test]
fn multiplication_binds_tighter_on_the_right() {
    // a + b * c;
    let mut input = stream(vec![
        ident("a"),
        Token::Operator(Op::Plus),
        ident("b"),
        Token::Operator(Op::Mult),
        ident("c"),
        Token::Semicolon,
    ]);
    let expected = bin(Op::Plus, var("a"), bin(Op::Mult, var("b"), var("c")));
    assert_eq!(parse_expression(&mut input), Ok(expected));
    assert_eq!(input.pos, 5);
}

#[test]
fn multiplication_binds_tighter_on_the_left() {
    // a * b + c;
    let mut input = stream(vec![
        ident("a"),
        Token::Operator(Op::Mult),
        ident("b"),
        Token::Operator(Op::Plus),
        ident("c"),
        Token::Semicolon,
    ]);
    let expected = bin(Op::Plus, bin(Op::Mult, var("a"), var("b")), var("c"));
    assert_eq!(parse_expression(&mut input), Ok(expected));
}

#[test]
fn equal_precedence_folds_left() {
    // a - b - c;
    let mut input = stream(vec![
        ident("a"),
        Token::Operator(Op::Minus),
        ident("b"),
        Token::Operator(Op::Minus),
        ident("c"),
        Token::Semicolon,
    ]);
    let expected = bin(Op::Minus, bin(Op::Minus, var("a"), var("b")), var("c"));
    assert_eq!(parse_expression(&mut input), Ok(expected));
}

#[test]
fn mixed_chain_nests_and_resumes() {
    // a + b * c / d - e;
    let mut input = stream(vec![
        ident("a"),
        Token::Operator(Op::Plus),
        ident("b"),
        Token::Operator(Op::Mult),
        ident("c"),
        Token::Operator(Op::Div),
        ident("d"),
        Token::Operator(Op::Minus),
        ident("e"),
        Token::Semicolon,
    ]);
    let product = bin(Op::Div, bin(Op::Mult, var("b"), var("c")), var("d"));
    let expected = bin(Op::Minus, bin(Op::Plus, var("a"), product), var("e"));
    assert_eq!(parse_expression(&mut input), Ok(expected));
}

#[test]
fn parentheses_override_precedence() {
    // (a + b) * c;
    let mut input = stream(vec![
        Token::OpenParen,
        ident("a"),
        Token::Operator(Op::Plus),
        ident("b"),
        Token::ClosedParen,
        Token::Operator(Op::Mult),
        ident("c"),
        Token::Semicolon,
    ]);
    let expected = bin(Op::Mult, bin(Op::Plus, var("a"), var("b")), var("c"));
    assert_eq!(parse_expression(&mut input), Ok(expected));
}

#[test]
fn call_with_two_arguments() {
    // foo(a, b);
    let mut input = stream(vec![
        ident("foo"),
        Token::OpenParen,
        ident("a"),
        Token::Comma,
        ident("b"),
        Token::ClosedParen,
        Token::Semicolon,
    ]);
    let expected = Ast::CallExpr { name: "foo".to_string(), args: vec![var("a"), var("b")] };
    assert_eq!(parse_expression(&mut input), Ok(expected));
    assert_eq!(input.pos, 6);
}

#[test]
fn call_without_arguments() {
    // f();
    let mut input = stream(vec![ident("f"), Token::OpenParen, Token::ClosedParen, Token::Semicolon]);
    let expected = Ast::CallExpr { name: "f".to_string(), args: vec![] };
    assert_eq!(parse_expression(&mut input), Ok(expected));
}

#[test]
fn call_arguments_are_full_expressions() {
    // g(1 + x, h(2));
    let mut input = stream(vec![
        ident("g"),
        Token::OpenParen,
        num(1.0),
        Token::Operator(Op::Plus),
        ident("x"),
        Token::Comma,
        ident("h"),
        Token::OpenParen,
        num(2.0),
        Token::ClosedParen,
        Token::ClosedParen,
        Token::Semicolon,
    ]);
    let inner = Ast::CallExpr { name: "h".to_string(), args: vec![number(2.0)] };
    let expected = Ast::CallExpr {
        name: "g".to_string(),
        args: vec![bin(Op::Plus, number(1.0), var("x")), inner],
    };
    assert_eq!(parse_expression(&mut input), Ok(expected));
}

#[test]
fn call_arguments_need_separators() {
    // f(a b);
    let mut input = stream(vec![
        ident("f"),
        Token::OpenParen,
        ident("a"),
        ident("b"),
        Token::ClosedParen,
        Token::Semicolon,
    ]);
    assert_eq!(parse_expression(&mut input), Err(ParserError::ExpectedToken(Token::ClosedParen)));
}

#[test]
fn missing_closing_paren_at_end_of_input() {
    // (a + b
    let mut input = stream(vec![Token::OpenParen, ident("a"), Token::Operator(Op::Plus), ident("b")]);
    assert_eq!(parse_expression(&mut input), Err(ParserError::UnexpectedEOI));
}

#[test]
fn missing_closing_paren_before_other_token() {
    // (a + b;
    let mut input = stream(vec![
        Token::OpenParen,
        ident("a"),
        Token::Operator(Op::Plus),
        ident("b"),
        Token::Semicolon,
    ]);
    assert_eq!(parse_expression(&mut input), Err(ParserError::ExpectedToken(Token::ClosedParen)));
}

#[test]
fn unexpected_token_in_primary_position() {
    let mut input = stream(vec![Token::Comma, ident("a")]);
    assert_eq!(parse_primary(&mut input), Err(ParserError::UnexpectedToken(Token::Comma)));
    let mut input = stream(vec![Token::Operator(Op::Plus), ident("a"), Token::Semicolon]);
    assert_eq!(
        parse_expression(&mut input),
        Err(ParserError::UnexpectedToken(Token::Operator(Op::Plus)))
    );
}

#[test]
fn empty_input_is_end_of_input() {
    let mut input = stream(vec![]);
    assert_eq!(parse_primary(&mut input), Err(ParserError::UnexpectedEOI));
    let mut input = stream(vec![]);
    assert_eq!(parse_expression(&mut input), Err(ParserError::UnexpectedEOI));
}

#[test]
fn expression_without_following_token_is_end_of_input() {
    // 2 + 3 with nothing after it
    let mut input = stream(vec![num(2.0), Token::Operator(Op::Plus), num(3.0)]);
    assert_eq!(parse_expression(&mut input), Err(ParserError::UnexpectedEOI));
    // 2 + with nothing after it
    let mut input = stream(vec![num(2.0), Token::Operator(Op::Plus)]);
    assert_eq!(parse_expression(&mut input), Err(ParserError::UnexpectedEOI));
}

#[test]
fn climbing_stops_below_threshold() {
    // lhs = x; then `+ y ;` with threshold 21 leaves the plus alone
    let mut input = stream(vec![Token::Operator(Op::Plus), ident("y"), Token::Semicolon]);
    assert_eq!(parse_binop_rhs(&mut input, var("x"), 21), Ok(var("x")));
    assert_eq!(input.pos, 0);
    let mut input = stream(vec![Token::Operator(Op::Plus), ident("y"), Token::Semicolon]);
    assert_eq!(parse_binop_rhs(&mut input, var("x"), 20), Ok(bin(Op::Plus, var("x"), var("y"))));
    assert_eq!(input.pos, 2);
}

#[test]
fn precedence_table() {
    let table = PrecedenceTable::standard();
    assert_eq!(get_operator_precedence(&table, &Token::Operator(Op::Plus)), 20);
    assert_eq!(get_operator_precedence(&table, &Token::Operator(Op::Minus)), 20);
    assert_eq!(get_operator_precedence(&table, &Token::Operator(Op::Mult)), 40);
    assert_eq!(get_operator_precedence(&table, &Token::Operator(Op::Div)), 40);
    assert_eq!(get_operator_precedence(&table, &Token::Operator(Op::Modulo)), 40);
    assert_eq!(get_operator_precedence(&table, &Token::Semicolon), -1);
    assert_eq!(get_operator_precedence(&table, &ident("x")), -1);
    let partial = PrecedenceTable { modulo: None, ..table };
    assert_eq!(get_operator_precedence(&partial, &Token::Operator(Op::Modulo)), -1);
}

#[test]
fn modulo_binds_like_multiplication() {
    // a - b % c;
    let mut input = stream(vec![
        ident("a"),
        Token::Operator(Op::Minus),
        ident("b"),
        Token::Operator(Op::Modulo),
        ident("c"),
        Token::Semicolon,
    ]);
    let expected = bin(Op::Minus, var("a"), bin(Op::Modulo, var("b"), var("c")));
    assert_eq!(parse_expression(&mut input), Ok(expected));
}

#[test]
fn definition_with_two_parameters() {
    // def foo(x y) x + y ;
    let mut input = stream(vec![
        Token::Def,
        ident("foo"),
        Token::OpenParen,
        ident("x"),
        ident("y"),
        Token::ClosedParen,
        ident("x"),
        Token::Operator(Op::Plus),
        ident("y"),
        Token::Semicolon,
    ]);
    let expected = Function {
        proto: Prototype { name: "foo".to_string(), args: vec!["x".to_string(), "y".to_string()] },
        body: bin(Op::Plus, var("x"), var("y")),
    };
    assert_eq!(parse_definition(&mut input), Ok(expected));
    assert_eq!(input.pos, 9);
}

#[test]
fn prototype_errors() {
    let mut input = stream(vec![num(1.0)]);
    assert_eq!(
        parse_prototype(&mut input),
        Err(ParserError::ExpectedToken(Token::Identifier(String::new())))
    );
    let mut input = stream(vec![ident("f"), ident("x")]);
    assert_eq!(parse_prototype(&mut input), Err(ParserError::ExpectedToken(Token::OpenParen)));
    let mut input = stream(vec![ident("f"), Token::OpenParen, ident("x"), Token::Comma]);
    assert_eq!(parse_prototype(&mut input), Err(ParserError::ExpectedToken(Token::ClosedParen)));
    let mut input = stream(vec![ident("f"), Token::OpenParen, ident("x")]);
    assert_eq!(parse_prototype(&mut input), Err(ParserError::ExpectedToken(Token::ClosedParen)));
}

#[test]
fn extern_yields_prototype_only() {
    // extern sin(a);
    let mut input = stream(vec![
        Token::Extern,
        ident("sin"),
        Token::OpenParen,
        ident("a"),
        Token::ClosedParen,
        Token::Semicolon,
    ]);
    let expected = Prototype { name: "sin".to_string(), args: vec!["a".to_string()] };
    assert_eq!(parse_extern(&mut input), Ok(expected));
    assert_eq!(input.pos, 5);
}

#[test]
fn prototype_without_parameters() {
    let mut input = stream(vec![ident("f"), Token::OpenParen, Token::ClosedParen]);
    let expected = Prototype { name: "f".to_string(), args: vec![] };
    assert_eq!(parse_prototype(&mut input), Ok(expected));
    assert!(input.is_at_end());
}

#[test]
fn definition_propagates_body_error() {
    // def f(x) ;
    let mut input = stream(vec![
        Token::Def,
        ident("f"),
        Token::OpenParen,
        ident("x"),
        Token::ClosedParen,
        Token::Semicolon,
    ]);
    assert_eq!(parse_definition(&mut input), Err(ParserError::UnexpectedToken(Token::Semicolon)));
}

#[test]
fn top_level_expression_is_anonymous_function() {
    // 4 * x ;
    let mut input = stream(vec![num(4.0), Token::Operator(Op::Mult), ident("x"), Token::Semicolon]);
    let expected = Function {
        proto: Prototype { name: "<anonymous>".to_string(), args: vec![] },
        body: bin(Op::Mult, number(4.0), var("x")),
    };
    assert_eq!(parse_top_level_expr(&mut input), Ok(expected));
}

#[test]
fn reparsing_consumed_tokens_gives_same_tree() {
    let source = vec![
        ident("z"),
        Token::Comma,
        ident("a"),
        Token::Operator(Op::Plus),
        ident("b"),
        Token::Operator(Op::Mult),
        ident("c"),
        Token::Semicolon,
        ident("tail"),
    ];
    let mut first = stream(source.clone());
    first.pos = 2;
    let tree = parse_expression(&mut first).unwrap();
    let end = first.pos;
    // the consumed tokens and their lookahead, at the same places, in other surroundings
    let mut again: Vec<Token> = vec![Token::Def, Token::Def];
    again.extend(source[2..=end].iter().cloned());
    let mut second = stream(again);
    second.pos = 2;
    assert_eq!(parse_expression(&mut second), Ok(tree));
    assert_eq!(second.pos, end);
}

#[test]
fn stream_next_advances_once() {
    let mut input = stream(vec![ident("a"), Token::Comma]);
    assert_eq!(input.peek(), Some(&ident("a")));
    assert_eq!(input.next(), Some(ident("a")));
    assert_eq!(input.pos, 1);
    assert_eq!(input.next(), Some(Token::Comma));
    assert_eq!(input.next(), None);
    assert_eq!(input.pos, 2);
    assert!(input.is_at_end());
}

fn nested_parens(levels: usize) -> Vec<Token> {
    let mut tokens = vec![Token::OpenParen; levels];
    tokens.push(ident("a"));
    tokens.extend(vec![Token::ClosedParen; levels]);
    tokens.push(Token::Semicolon);
    tokens
}

#[test]
fn nesting_within_budget() {
    let mut input = stream(nested_parens(2));
    assert_eq!(parse_expression_with(&mut input, &PrecedenceTable::standard(), 2), Ok(var("a")));
    assert_eq!(input.pos, 5);
}

#[test]
fn nesting_beyond_budget() {
    let mut input = stream(nested_parens(3));
    assert_eq!(parse_expression_with(&mut input, &PrecedenceTable::standard(), 2), Err(ParserError::NestingTooDeep));
    // f(g(x)) ;
    let tokens = vec![
        ident("f"),
        Token::OpenParen,
        ident("g"),
        Token::OpenParen,
        ident("x"),
        Token::ClosedParen,
        Token::ClosedParen,
        Token::Semicolon,
    ];
    let mut input = stream(tokens.clone());
    assert_eq!(parse_primary_with(&mut input, &PrecedenceTable::standard(), 1), Err(ParserError::NestingTooDeep));
    let mut input = stream(tokens);
    let inner = Ast::CallExpr { name: "g".to_string(), args: vec![var("x")] };
    let expected = Ast::CallExpr { name: "f".to_string(), args: vec![inner] };
    assert_eq!(parse_primary_with(&mut input, &PrecedenceTable::standard(), 2), Ok(expected));
}

#[test]
fn deepest_allowed_nesting() {
    let mut input = stream(nested_parens(MAX_NESTING));
    assert_eq!(parse_expression(&mut input), Ok(var("a")));
    let mut input = stream(nested_parens(MAX_NESTING + 1));
    assert_eq!(parse_expression(&mut input), Err(ParserError::NestingTooDeep));
}

#[test]
fn variable_with_zero_budget() {
    let mut input = stream(vec![ident("v"), Token::Semicolon]);
    assert_eq!(parse_expression_with(&mut input, &PrecedenceTable::standard(), 0), Ok(var("v")));
    let mut input = stream(vec![Token::OpenParen, ident("v"), Token::ClosedParen, Token::Semicolon]);
    assert_eq!(parse_expression_with(&mut input, &PrecedenceTable::standard(), 0), Err(ParserError::NestingTooDeep));
}

fn a_plus_b_times_c() -> Vec<Token> {
    vec![
        ident("a"),
        Token::Operator(Op::Plus),
        ident("b"),
        Token::Operator(Op::Mult),
        ident("c"),
        Token::Semicolon,
    ]
}

#[test]
fn alternate_table_changes_grouping() {
    let table = PrecedenceTable { plus: Some(50), ..PrecedenceTable::standard() };
    let mut input = stream(a_plus_b_times_c());
    let expected = bin(Op::Mult, bin(Op::Plus, var("a"), var("b")), var("c"));
    assert_eq!(parse_expression_with(&mut input, &table, MAX_NESTING), Ok(expected));
}

#[test]
fn operator_left_out_of_table_ends_expression() {
    let table = PrecedenceTable { mult: None, ..PrecedenceTable::standard() };
    let mut input = stream(a_plus_b_times_c());
    assert_eq!(parse_expression_with(&mut input, &table, MAX_NESTING), Ok(bin(Op::Plus, var("a"), var("b"))));
    assert_eq!(input.pos, 3);
    assert_eq!(input.peek(), Some(&Token::Operator(Op::Mult)));
    // even a threshold below every strength does not take it
    let mut input = stream(vec![Token::Operator(Op::Mult), ident("c"), Token::Semicolon]);
    assert_eq!(parse_binop_rhs_with(&mut input, var("b"), -5, &table, MAX_NESTING), Ok(var("b")));
    assert_eq!(input.pos, 0);
}
