use jlox::ast::{Expr, FunctionDecl, Literal, Stmt};
use jlox::interpreter::Interpreter;
use jlox::resolver::Resolver;
use jlox::token::{Token, TokenType};

fn num(x: f64) -> Expr {
    Expr::Literal(Literal::Number(x.to_bits()))
}

fn name(s: &str) -> Token {
    Token {
        token_type: TokenType::Identifier,
        lexeme: s.as_bytes().to_vec(),
        line: 1,
        col: 0,
    }
}

fn text(bytes: &[u8]) -> String {
    String::from_utf8_lossy(bytes).into_owned()
}

#[test]
fn resolves_block_scoping_end_to_end() {
    // var a = "global"; { var a = "local"; print a; } print a;
    let prog = vec![
        Stmt::VarDecl {
            name: name("a"),
            initializer: Some(Expr::Literal(Literal::Str(b"global".to_vec()))),
        },
        Stmt::Block(vec![
            Stmt::VarDecl {
                name: name("a"),
                initializer: Some(Expr::Literal(Literal::Str(b"local".to_vec()))),
            },
            Stmt::Print(Expr::Variable { name: name("a"), id: 0 }),
        ]),
        Stmt::Print(Expr::Variable { name: name("a"), id: 1 }),
    ];
    let mut resolver = Resolver::new();
    resolver.resolve_statements(&prog);
    assert_eq!(resolver.diagnostics().len(), 0);
    let mut it = Interpreter::new();
    it.install_resolutions(resolver.into_table());
    assert!(it.interpret(&prog, 1000).is_ok());
    assert_eq!(it.output()[0], b"local".to_vec());
    assert_eq!(it.output()[1], b"global".to_vec());
}

#[test]
fn closures_see_their_declaration_scope() {
    // fun make() { var i = 0; fun inc() { i = i + 1; print i; } return inc; }
    // var c = make(); c(); c();
    let inc_body = vec![
        Stmt::Expression(Expr::Assign {
            name: name("i"),
            id: 10,
            value: Box::new(Expr::Binary {
                left: Box::new(Expr::Variable { name: name("i"), id: 11 }),
                operator: TokenType::Plus,
                right: Box::new(num(1.0)),
            }),
        }),
        Stmt::Print(Expr::Variable { name: name("i"), id: 12 }),
    ];
    let make_body = vec![
        Stmt::VarDecl { name: name("i"), initializer: Some(num(0.0)) },
        Stmt::FunctionDecl(FunctionDecl { name: name("inc"), params: vec![], body: inc_body }),
        Stmt::Return {
            keyword: name("return"),
            value: Some(Expr::Variable { name: name("inc"), id: 13 }),
        },
    ];
    let prog = vec![
        Stmt::FunctionDecl(FunctionDecl { name: name("make"), params: vec![], body: make_body }),
        Stmt::VarDecl {
            name: name("c"),
            initializer: Some(Expr::Call {
                callee: Box::new(Expr::Variable { name: name("make"), id: 14 }),
                arguments: vec![],
            }),
        },
        Stmt::Expression(Expr::Call {
            callee: Box::new(Expr::Variable { name: name("c"), id: 15 }),
            arguments: vec![],
        }),
        Stmt::Expression(Expr::Call {
            callee: Box::new(Expr::Variable { name: name("c"), id: 16 }),
            arguments: vec![],
        }),
    ];
    let mut resolver = Resolver::new();
    resolver.resolve_statements(&prog);
    assert_eq!(resolver.diagnostics().len(), 0);
    let mut it = Interpreter::new();
    it.install_resolutions(resolver.into_table());
    assert!(it.interpret(&prog, 1000).is_ok());
    let out: Vec<Vec<u8>> = it.output().clone();
    assert_eq!(out, vec![b"1".to_vec(), b"2".to_vec()]);
}

#[test]
fn reading_a_variable_in_its_own_initializer_is_reported() {
    // { var a = a; }
    let prog = vec![Stmt::Block(vec![Stmt::VarDecl {
        name: name("a"),
        initializer: Some(Expr::Variable { name: name("a"), id: 0 }),
    }])];
    let mut resolver = Resolver::new();
    resolver.resolve_statements(&prog);
    assert_eq!(resolver.diagnostics().len(), 1);
    assert!(text(&resolver.diagnostics()[0])
        .contains("Can't read local variable in its own initializer"));
    // The program still runs; reading the half-declared slot is a plain
    // runtime error, not a crash.
    let mut it = Interpreter::new();
    it.install_resolutions(resolver.into_table());
    let err = match it.interpret(&prog, 1000) {
        Err(e) => e,
        Ok(()) => panic!("expected an error"),
    };
    assert_eq!(err.message(), b"Undefined variable 'a'".to_vec());
}

#[test]
fn redeclaring_in_the_same_scope_is_reported() {
    // { var a = 1; var a = 2; }
    let prog = vec![Stmt::Block(vec![
        Stmt::VarDecl { name: name("a"), initializer: Some(num(1.0)) },
        Stmt::VarDecl { name: name("a"), initializer: Some(num(2.0)) },
    ])];
    let mut resolver = Resolver::new();
    resolver.resolve_statements(&prog);
    assert_eq!(resolver.diagnostics().len(), 1);
    assert!(text(&resolver.diagnostics()[0])
        .contains("Already a variable with this name in this scope"));
}

#[test]
fn returning_from_top_level_is_reported() {
    let prog = vec![Stmt::Return { keyword: name("return"), value: None }];
    let mut resolver = Resolver::new();
    resolver.resolve_statements(&prog);
    assert_eq!(resolver.diagnostics().len(), 1);
    assert!(text(&resolver.diagnostics()[0]).contains("Can't return from top-level code"));
}

#[test]
fn shadowing_in_a_function_resolves_to_the_parameter() {
    // var a = "outer"; fun f(a) { print a; } f("inner"); print a;
    let prog = vec![
        Stmt::VarDecl {
            name: name("a"),
            initializer: Some(Expr::Literal(Literal::Str(b"outer".to_vec()))),
        },
        Stmt::FunctionDecl(FunctionDecl {
            name: name("f"),
            params: vec![name("a")],
            body: vec![Stmt::Print(Expr::Variable { name: name("a"), id: 0 })],
        }),
        Stmt::Expression(Expr::Call {
            callee: Box::new(Expr::Variable { name: name("f"), id: 1 }),
            arguments: vec![Expr::Literal(Literal::Str(b"inner".to_vec()))],
        }),
        Stmt::Print(Expr::Variable { name: name("a"), id: 2 }),
    ];
    let mut resolver = Resolver::new();
    resolver.resolve_statements(&prog);
    assert_eq!(resolver.diagnostics().len(), 0);
    let mut it = Interpreter::new();
    it.install_resolutions(resolver.into_table());
    assert!(it.interpret(&prog, 1000).is_ok());
    assert_eq!(it.output()[0], b"inner".to_vec());
    assert_eq!(it.output()[1], b"outer".to_vec());
}
