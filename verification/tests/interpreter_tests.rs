use jlox::ast::{Expr, Literal, Stmt, FunctionDecl};
use jlox::interpreter::Interpreter;
use jlox::token::{Token, TokenType};
use jlox::value::Value;

fn num(x: f64) -> Expr {
    Expr::Literal(Literal::Number(x.to_bits()))
}

fn name(s: &str) -> Token {
    Token {
        token_type: TokenType::Identifier,
        lexeme: s.as_bytes().to_vec(),
        line: 1,
        col: 0,
    }
}

#[test]
fn prints_sum_of_numbers() {
    let mut it = Interpreter::new();
    let prog = vec![Stmt::Print(Expr::Binary {
        left: Box::new(num(1.0)),
        operator: TokenType::Plus,
        right: Box::new(num(2.0)),
    })];
    assert!(it.interpret(&prog, 1000).is_ok());
    assert_eq!(it.output().len(), 1);
    assert_eq!(it.output()[0], b"3".to_vec());
}

#[test]
fn prints_fractions_and_strings_and_bools() {
    let mut it = Interpreter::new();
    let prog = vec![
        Stmt::Print(Expr::Binary {
            left: Box::new(num(1.0)),
            operator: TokenType::Slash,
            right: Box::new(num(2.0)),
        }),
        Stmt::Print(Expr::Literal(Literal::Str(b"one".to_vec()))),
        Stmt::Print(Expr::Literal(Literal::True)),
        Stmt::Print(Expr::Literal(Literal::Nil)),
    ];
    assert!(it.interpret(&prog, 1000).is_ok());
    assert_eq!(it.output()[0], b"0.5".to_vec());
    assert_eq!(it.output()[1], b"one".to_vec());
    assert_eq!(it.output()[2], b"true".to_vec());
    assert_eq!(it.output()[3], b"nil".to_vec());
}

#[test]
fn block_scoping_shadows_without_mutating() {
    // var a = "global"; { var a = "local"; print a; } print a;
    // The inner use resolves to the block scope (distance 0), as the
    // resolver would record; the outer use stays global.
    let mut it = Interpreter::new();
    it.resolve(0, 0);
    let prog = vec![
        Stmt::VarDecl {
            name: name("a"),
            initializer: Some(Expr::Literal(Literal::Str(b"global".to_vec()))),
        },
        Stmt::Block(vec![
            Stmt::VarDecl {
                name: name("a"),
                initializer: Some(Expr::Literal(Literal::Str(b"local".to_vec()))),
            },
            Stmt::Print(Expr::Variable { name: name("a"), id: 0 }),
        ]),
        Stmt::Print(Expr::Variable { name: name("a"), id: 1 }),
    ];
    assert!(it.interpret(&prog, 1000).is_ok());
    assert_eq!(it.output()[0], b"local".to_vec());
    assert_eq!(it.output()[1], b"global".to_vec());
}

#[test]
fn nested_early_return() {
    // fun f(){ if (true) { return 42; } return 0; } print f();
    let mut it = Interpreter::new();
    let body = vec![
        Stmt::If {
            condition: Expr::Literal(Literal::True),
            then_branch: Box::new(Stmt::Block(vec![Stmt::Return {
                keyword: name("return"),
                value: Some(num(42.0)),
            }])),
            else_branch: None,
        },
        Stmt::Return { keyword: name("return"), value: Some(num(0.0)) },
    ];
    let prog = vec![
        Stmt::FunctionDecl(FunctionDecl { name: name("f"), params: vec![], body }),
        Stmt::Print(Expr::Call {
            callee: Box::new(Expr::Variable { name: name("f"), id: 0 }),
            arguments: vec![],
        }),
    ];
    assert!(it.interpret(&prog, 1000).is_ok());
    assert_eq!(it.output()[0], b"42".to_vec());
}

#[test]
fn short_circuit_or_returns_deciding_operand() {
    // print "lhs" or boom();  -- boom is undefined, so evaluating it would fail
    let mut it = Interpreter::new();
    let prog = vec![Stmt::Print(Expr::Logical {
        left: Box::new(Expr::Literal(Literal::Str(b"lhs".to_vec()))),
        operator: TokenType::Or,
        right: Box::new(Expr::Variable { name: name("boom"), id: 0 }),
    })];
    assert!(it.interpret(&prog, 1000).is_ok());
    assert_eq!(it.output()[0], b"lhs".to_vec());
}

#[test]
fn and_falsy_left_short_circuits() {
    let mut it = Interpreter::new();
    let prog = vec![Stmt::Print(Expr::Logical {
        left: Box::new(Expr::Literal(Literal::Nil)),
        operator: TokenType::And,
        right: Box::new(Expr::Variable { name: name("boom"), id: 0 }),
    })];
    assert!(it.interpret(&prog, 1000).is_ok());
    assert_eq!(it.output()[0], b"nil".to_vec());
}

#[test]
fn while_loop_counts() {
    // var i = 0; while (i < 3) { print i; i = i + 1; }
    let mut it = Interpreter::new();
    let prog = vec![
        Stmt::VarDecl { name: name("i"), initializer: Some(num(0.0)) },
        Stmt::While {
            condition: Expr::Binary {
                left: Box::new(Expr::Variable { name: name("i"), id: 0 }),
                operator: TokenType::Less,
                right: Box::new(num(3.0)),
            },
            body: Box::new(Stmt::Block(vec![
                Stmt::Print(Expr::Variable { name: name("i"), id: 1 }),
                Stmt::Expression(Expr::Assign {
                    name: name("i"),
                    id: 2,
                    value: Box::new(Expr::Binary {
                        left: Box::new(Expr::Variable { name: name("i"), id: 3 }),
                        operator: TokenType::Plus,
                        right: Box::new(num(1.0)),
                    }),
                }),
            ])),
        },
    ];
    assert!(it.interpret(&prog, 1000).is_ok());
    let out: Vec<Vec<u8>> = it.output().clone();
    assert_eq!(out, vec![b"0".to_vec(), b"1".to_vec(), b"2".to_vec()]);
}

#[test]
fn undefined_variable_is_an_error() {
    let mut it = Interpreter::new();
    let prog = vec![Stmt::Print(Expr::Variable { name: name("nope"), id: 0 })];
    let err = match it.interpret(&prog, 1000) {
        Err(e) => e,
        Ok(()) => panic!("expected an error"),
    };
    assert_eq!(err.message(), b"Undefined variable 'nope'".to_vec());
}

#[test]
fn adding_number_and_string_is_an_error() {
    let mut it = Interpreter::new();
    let prog = vec![Stmt::Print(Expr::Binary {
        left: Box::new(num(1.0)),
        operator: TokenType::Plus,
        right: Box::new(Expr::Literal(Literal::Str(b"x".to_vec()))),
    })];
    let err = match it.interpret(&prog, 1000) {
        Err(e) => e,
        Ok(()) => panic!("expected an error"),
    };
    assert_eq!(err.message(), b"Operands must be two numbers or two strings.".to_vec());
}

#[test]
fn clock_reports_the_supplied_reading() {
    let mut it = Interpreter::new();
    it.set_clock(123.0f64.to_bits());
    let prog = vec![Stmt::Print(Expr::Call {
        callee: Box::new(Expr::Variable { name: name("clock"), id: 0 }),
        arguments: vec![],
    })];
    assert!(it.interpret(&prog, 1000).is_ok());
    assert_eq!(it.output()[0], b"123".to_vec());
}

#[test]
fn equality_is_iee754_on_numbers() {
    let nan = f64::NAN.to_bits();
    let a = Value::Number(nan);
    assert!(!a.equals(&a));
    let z1 = Value::Number(0.0f64.to_bits());
    let z2 = Value::Number((-0.0f64).to_bits());
    assert!(z1.equals(&z2));
    assert!(!Value::Number(1.0f64.to_bits()).equals(&Value::Str(b"1".to_vec())));
    assert!(!Value::Nil.equals(&Value::Boolean(false)));
    assert!(Value::Nil.equals(&Value::Nil));
}
