use simple_lexer::token::SimpleToken;
use simple_lexer::token_reader::SimpleTokenReader;
use simple_lexer::token_type::TokenType;

fn three_token_stream() -> SimpleTokenReader {
    SimpleTokenReader {
        tokens: vec![
            SimpleToken { token_type: TokenType::Identifier, text: String::from("a") },
            SimpleToken { token_type: TokenType::Assignment, text: String::from("=") },
            SimpleToken { token_type: TokenType::IntLiteral, text: String::from("7") },
        ],
        pos: 0,
    }
}

#[test]
fn read_walks_the_stream_in_order() {
    let mut stream = three_token_stream();
    assert_eq!(stream.read().unwrap().get_text(), "a");
    assert_eq!(stream.read().unwrap().get_text(), "=");
    assert_eq!(stream.read().unwrap().get_text(), "7");
    assert!(stream.read().is_none());
    assert_eq!(stream.get_position(), 3);
}

#[test]
fn peek_twice_returns_equal_results_and_moves_nothing() {
    let stream = three_token_stream();
    let before = stream.get_position();
    let first = {
        let t = stream.peek().unwrap();
        (*t.get_type(), String::from(t.get_text()))
    };
    assert_eq!(stream.get_position(), before);
    let second = {
        let t = stream.peek().unwrap();
        (*t.get_type(), String::from(t.get_text()))
    };
    assert_eq!(stream.get_position(), before);
    assert_eq!(first, second);
}

#[test]
fn peek_at_end_returns_none() {
    let mut stream = three_token_stream();
    stream.read();
    stream.read();
    stream.read();
    assert!(stream.peek().is_none());
}

#[test]
fn unread_after_read_restores_position_and_token() {
    let mut stream = three_token_stream();
    stream.read();
    let before = stream.get_position();
    let first = {
        let t = stream.read().unwrap();
        (*t.get_type(), String::from(t.get_text()))
    };
    stream.unread();
    assert_eq!(stream.get_position(), before);
    let again = {
        let t = stream.read().unwrap();
        (*t.get_type(), String::from(t.get_text()))
    };
    assert_eq!(first, again);
}

#[test]
fn unread_at_start_is_a_noop() {
    let mut stream = three_token_stream();
    stream.unread();
    assert_eq!(stream.get_position(), 0);
    assert_eq!(stream.read().unwrap().get_text(), "a");
}

#[test]
fn set_position_seeks_to_a_valid_index() {
    let mut stream = three_token_stream();
    stream.set_position(2);
    assert_eq!(stream.get_position(), 2);
    assert_eq!(stream.read().unwrap().get_text(), "7");
}

#[test]
fn set_position_at_or_past_the_length_is_a_noop() {
    let mut stream = three_token_stream();
    stream.set_position(1);
    // exactly the length: the at-end position cannot be reached this way
    stream.set_position(3);
    assert_eq!(stream.get_position(), 1);
    stream.set_position(100);
    assert_eq!(stream.get_position(), 1);
}
