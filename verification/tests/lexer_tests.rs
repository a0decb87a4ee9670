use simple_lexer::simple_lexer::SimpleLexer;
use simple_lexer::token::SimpleToken;
use simple_lexer::token_type::TokenType;
use simple_lexer::dfa::DfaState;

fn collect_tokens(code: &str) -> Vec<(TokenType, String)> {
    let lexer = SimpleLexer::default();
    let mut reader = lexer.tokenizer(String::from(code));
    let mut out: Vec<(TokenType, String)> = Vec::new();
    while let Some(token) = reader.read() {
        out.push((*token.get_type(), String::from(token.get_text())));
    }
    out
}

#[test]
fn test_simple_lexer() {
    let lexer = SimpleLexer::default();
    let script = String::from("int age = 45;");

    println!("parse: {}", script);
    let mut token_reader = lexer.tokenizer(script);
    println!("text\t\ttype");
    while let Some(token) = token_reader.read() {
        println!("{}\t\t{:?}", token.get_text(), token.get_type());
    }
}

#[test]
fn test_chars() {
    let code = String::from("int age = 45;");
    for ch in code.chars() {
        if ch >= 'a' && ch <= 'z' || ch >= 'A' && ch <= 'Z' {
            println!("ch is alpha {}", ch);
        }
        if ch >= '0' && ch <= '9' {
            println!("ch is num {}", ch)
        }
    }
}

#[test]
fn declaration_yields_five_tokens() {
    assert_eq!(
        collect_tokens("int age = 45;"),
        vec![
            (TokenType::Int, String::from("int")),
            (TokenType::Identifier, String::from("age")),
            (TokenType::Assignment, String::from("=")),
            (TokenType::IntLiteral, String::from("45")),
            (TokenType::SemiColon, String::from(";")),
        ]
    );
}

#[test]
fn integer_at_end_of_input_is_one_identifier() {
    assert_eq!(
        collect_tokens("integer"),
        vec![(TokenType::Identifier, String::from("integer"))]
    );
}

#[test]
fn integer_before_blank_is_one_identifier() {
    assert_eq!(
        collect_tokens("integer "),
        vec![(TokenType::Identifier, String::from("integer"))]
    );
}

#[test]
fn relational_operators_ge_gt_ge() {
    assert_eq!(
        collect_tokens(">= > >="),
        vec![
            (TokenType::GE, String::from(">=")),
            (TokenType::GT, String::from(">")),
            (TokenType::GE, String::from(">=")),
        ]
    );
}

#[test]
fn digit_run_is_never_split() {
    assert_eq!(
        collect_tokens("12345"),
        vec![(TokenType::IntLiteral, String::from("12345"))]
    );
}

#[test]
fn pending_token_is_flushed_at_end_of_input() {
    // the flush policy: whatever is mid-construction when the input ends is
    // emitted, not dropped
    assert_eq!(
        collect_tokens("45"),
        vec![(TokenType::IntLiteral, String::from("45"))]
    );
    assert_eq!(
        collect_tokens(";"),
        vec![(TokenType::SemiColon, String::from(";"))]
    );
}

#[test]
fn int_keyword_needs_a_following_blank() {
    // at end of input no blank follows, so the buffered "int" flushes as a
    // plain identifier
    assert_eq!(
        collect_tokens("int"),
        vec![(TokenType::Identifier, String::from("int"))]
    );
    assert_eq!(
        collect_tokens("int x"),
        vec![
            (TokenType::Int, String::from("int")),
            (TokenType::Identifier, String::from("x")),
        ]
    );
    assert_eq!(
        collect_tokens("int("),
        vec![
            (TokenType::Identifier, String::from("int")),
            (TokenType::LeftParen, String::from("(")),
        ]
    );
}

#[test]
fn keyword_prefix_deviations_fall_back_to_identifier() {
    assert_eq!(
        collect_tokens("i j"),
        vec![
            (TokenType::Identifier, String::from("i")),
            (TokenType::Identifier, String::from("j")),
        ]
    );
    assert_eq!(
        collect_tokens("in>3"),
        vec![
            (TokenType::Identifier, String::from("in")),
            (TokenType::GT, String::from(">")),
            (TokenType::IntLiteral, String::from("3")),
        ]
    );
}

#[test]
fn expression_with_parens_and_operators() {
    assert_eq!(
        collect_tokens("(1+2)*3;"),
        vec![
            (TokenType::LeftParen, String::from("(")),
            (TokenType::IntLiteral, String::from("1")),
            (TokenType::Plus, String::from("+")),
            (TokenType::IntLiteral, String::from("2")),
            (TokenType::RightParen, String::from(")")),
            (TokenType::Star, String::from("*")),
            (TokenType::IntLiteral, String::from("3")),
            (TokenType::SemiColon, String::from(";")),
        ]
    );
}

#[test]
fn minus_and_slash() {
    assert_eq!(
        collect_tokens("8-4/2"),
        vec![
            (TokenType::IntLiteral, String::from("8")),
            (TokenType::Minus, String::from("-")),
            (TokenType::IntLiteral, String::from("4")),
            (TokenType::Slash, String::from("/")),
            (TokenType::IntLiteral, String::from("2")),
        ]
    );
}

#[test]
fn assignment_is_greedy_until_a_blank() {
    // the greedy anomaly kept from the automaton's design: `=` keeps
    // consuming non-blank characters
    assert_eq!(
        collect_tokens("x =y z"),
        vec![
            (TokenType::Identifier, String::from("x")),
            (TokenType::Assignment, String::from("=y")),
            (TokenType::Identifier, String::from("z")),
        ]
    );
}

#[test]
fn unrecognized_characters_are_silently_skipped() {
    assert_eq!(
        collect_tokens("a ? b"),
        vec![
            (TokenType::Identifier, String::from("a")),
            (TokenType::Identifier, String::from("b")),
        ]
    );
}

#[test]
fn empty_input_yields_no_tokens() {
    assert_eq!(collect_tokens(""), vec![]);
}

#[test]
fn tab_and_newline_separate_tokens() {
    assert_eq!(
        collect_tokens("a\tb\nc"),
        vec![
            (TokenType::Identifier, String::from("a")),
            (TokenType::Identifier, String::from("b")),
            (TokenType::Identifier, String::from("c")),
        ]
    );
}

#[test]
fn preloaded_lexer_emits_its_pending_buffer_first() {
    let pending = SimpleToken {
        token_type: TokenType::IntLiteral,
        text: String::new(),
    };
    let lexer = SimpleLexer::new(String::from("ab"), Vec::new(), pending, DfaState::Initial);
    let mut reader = lexer.tokenizer(String::from(" x"));
    let mut out: Vec<(TokenType, String)> = Vec::new();
    while let Some(token) = reader.read() {
        out.push((*token.get_type(), String::from(token.get_text())));
    }
    assert_eq!(
        out,
        vec![
            (TokenType::IntLiteral, String::from("ab")),
            (TokenType::Identifier, String::from("x")),
        ]
    );
}
