use relay::requests::{RequestParser, RequestParserNode, RequestParserResult};
use relay::requests::RequestParserResult::Success;

fn validate_result<T>(result: &RequestParserResult<T>) {
    if !matches!(result, Success(_)) {
        panic!("Unexpected Result");
    }
}

#[test]
fn get_set_sibling() {
    let mut node: RequestParserNode<String> = RequestParserNode::new(b'a');
    node.create_sibling(b'b');
    let node = node;
    if let Some(sibling) = node.get_sibling() {
        assert_eq!(sibling.get_key_char(), b'b');
    } else {
        panic!("Unable to get sibling after setting sibling");
    }
}

#[test]
fn get_set_child() {
    let mut node: RequestParserNode<String> = RequestParserNode::new(b'a');
    node.create_child(b'c');
    let node = node;
    if let Some(child) = node.get_child() {
        assert_eq!(child.get_key_char(), b'c');
    } else {
        panic!("Unable to get child after setting child");
    }
}

#[test]
fn get_insert_one() {
    let mut parser: RequestParser<String> = RequestParser::new();
    validate_result(&parser.insert("HELLO", String::from("World")));
    let result = match parser.get("HELLO") {
        Success(result) => result,
        _ => panic!("No result"),
    };
    assert_eq!(*result, String::from("World"));
}

#[test]
fn insert_single_length_key() {
    let mut parser: RequestParser<String> = RequestParser::new();
    validate_result(&parser.insert("1", String::from("Successful insert")));
    let result = match parser.get("1") {
        Success(result) => result,
        _ => panic!("no result"),
    };
    assert_eq!(*result, String::from("Successful insert"));
}

#[test]
fn insert_multiple_keys() {
    let mut parser: RequestParser<String> = RequestParser::new();
    let keys = ["1", "12", "13", "14", "1231", "3211", "sdfasdf1", "gregerdfgdsger1"];
    for key in keys {
        validate_result(&parser.insert(key, String::from("Successful insert")));
    }
    for key in keys {
        let result = match parser.get(key) {
            Success(result) => result,
            _ => panic!("no result"),
        };
        assert_eq!(*result, String::from("Successful insert"));
    }
}

#[test]
fn overwrite_insert() {
    let mut parser: RequestParser<u32> = RequestParser::new();
    validate_result(&parser.insert("HELLO", 256));
    let result = match parser.get("HELLO") {
        Success(result) => result,
        _ => panic!("no result"),
    };
    assert_eq!(*result, 256);
    validate_result(&parser.insert("HELLO", 556));
    let result = match parser.get("HELLO") {
        Success(result) => result,
        _ => panic!("no result"),
    };
    assert_eq!(*result, 556);
}

#[test]
fn strip_line() {
    let mut parser: RequestParser<u32> = RequestParser::new();
    parser.insert("LINE1\r\n", 7);
    let parser = parser;
    let request = b"LINE1\r\nLINE2\r\n";
    let result = parser.strip_line_and_get_value(&request[..]);
    if let Success((&value, request1)) = result {
        assert_eq!(request1, &b"LINE2\r\n"[..]);
        assert_eq!(value, 7u32);
    } else {
        panic!("Missing Value");
    }
}

#[test]
fn empty_and_missing_keys() {
    let mut parser: RequestParser<u32> = RequestParser::new();
    assert!(matches!(parser.insert("", 1), RequestParserResult::EmptyKey));
    assert!(matches!(parser.get(""), RequestParserResult::EmptyKey));
    assert!(matches!(parser.get("X"), RequestParserResult::InvalidKey));
    parser.insert("ABC", 3);
    assert!(matches!(parser.get("AB"), RequestParserResult::InvalidKey));
    assert!(matches!(parser.get("ABCD"), RequestParserResult::InvalidKey));
    assert!(matches!(parser.get("ABD"), RequestParserResult::InvalidKey));
    parser.insert("AB", 2);
    parser.insert("ABD", 4);
    assert!(matches!(parser.get("AB"), Success(&2)));
    assert!(matches!(parser.get("ABC"), Success(&3)));
    assert!(matches!(parser.get("ABD"), Success(&4)));
}

#[test]
fn strip_line_rejects_unknown_or_unterminated_lines() {
    let mut parser: RequestParser<u32> = RequestParser::new();
    parser.insert("CONNECT\r\n", 1);
    assert!(matches!(
        parser.strip_line_and_get_value(b"CONNECT\r"),
        RequestParserResult::InvalidRequest
    ));
    assert!(matches!(
        parser.strip_line_and_get_value(b"CONNECTX\r\n"),
        RequestParserResult::InvalidRequest
    ));
    assert!(matches!(
        parser.strip_line_and_get_value(b""),
        RequestParserResult::InvalidRequest
    ));
    match parser.strip_line_and_get_value(b"CONNECT\r\n") {
        Success((&v, rest)) => {
            assert_eq!(v, 1);
            assert!(rest.is_empty());
        }
        _ => panic!("expected a match"),
    }
}
