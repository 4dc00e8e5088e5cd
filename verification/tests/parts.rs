use resp_cmd::backend::Backend;
use resp_cmd::cmd::{
    arity_message_text, extract_args, join_names, key_from, validate_command, CommandError,
};
use resp_cmd::frame::{
    bytes_eq, contains_frame, copy_frame, copy_frames, frame_eq, frames_eq, BulkString, RespArray,
    RespFrame,
};
use resp_cmd::text::{ascii_lower, decimal_text, spells_name};

fn bulk(bytes: &[u8]) -> RespFrame {
    RespFrame::BulkString(BulkString::new(bytes.to_vec()))
}

fn one_of_each() -> Vec<RespFrame> {
    vec![
        RespFrame::SimpleString("OK".to_string()),
        RespFrame::Error("OK".to_string()),
        RespFrame::Integer(-3),
        bulk(b"OK"),
        RespFrame::Array(RespArray::new(vec![bulk(b"OK")])),
        RespFrame::Array(RespArray::new(vec![])),
        RespFrame::Null,
        RespFrame::Boolean(false),
        RespFrame::Boolean(true),
    ]
}

#[test]
fn frames_are_equal_to_themselves_only() {
    let frames = one_of_each();
    for (i, a) in frames.iter().enumerate() {
        for (j, b) in frames.iter().enumerate() {
            assert_eq!(frame_eq(a, b), i == j);
            assert_eq!(a == b, i == j);
        }
    }
}

#[test]
fn arrays_are_compared_frame_by_frame() {
    let a = vec![bulk(b"x"), RespFrame::Integer(1)];
    let same = vec![bulk(b"x"), RespFrame::Integer(1)];
    let swapped = vec![RespFrame::Integer(1), bulk(b"x")];
    let longer = vec![bulk(b"x"), RespFrame::Integer(1), RespFrame::Null];
    assert!(frames_eq(&a, &same));
    assert!(!frames_eq(&a, &swapped));
    assert!(!frames_eq(&a, &longer));
    assert!(!frames_eq(&longer, &a));
    assert!(frames_eq(&Vec::new(), &Vec::new()));
    assert_eq!(RespArray::new(a), RespArray::new(same));
}

#[test]
fn bytes_are_compared_one_by_one() {
    assert!(bytes_eq(&vec![1, 2, 3], &vec![1, 2, 3]));
    assert!(!bytes_eq(&vec![1, 2, 3], &vec![1, 2, 4]));
    assert!(!bytes_eq(&vec![1, 2, 3], &vec![1, 2]));
    assert!(bytes_eq(&vec![], &vec![]));
    assert_eq!(BulkString::new(vec![7]), BulkString::new(vec![7]));
    assert_ne!(BulkString::new(vec![7]), BulkString::new(vec![8]));
}

#[test]
fn a_copy_is_equal_to_its_source() {
    let nested = RespFrame::Array(RespArray::new(vec![
        RespFrame::Array(RespArray::new(one_of_each())),
        bulk(b"tail"),
    ]));
    assert_eq!(copy_frame(&nested), nested);
    assert_eq!(nested.clone(), nested);
    let frames = one_of_each();
    assert_eq!(copy_frames(&frames), frames);
    assert_eq!(RespArray::new(one_of_each()).clone(), RespArray::new(frames));
    assert_eq!(BulkString::new(vec![1, 2]).clone(), BulkString::new(vec![1, 2]));
}

#[test]
fn a_frame_is_found_among_frames() {
    let frames = one_of_each();
    assert!(contains_frame(&frames, &bulk(b"OK")));
    assert!(contains_frame(&frames, &RespFrame::Boolean(true)));
    assert!(!contains_frame(&frames, &bulk(b"ok")));
    assert!(!contains_frame(&frames, &RespFrame::Integer(3)));
    assert!(!contains_frame(&Vec::new(), &RespFrame::Null));
}

#[test]
fn an_array_of_bytes_becomes_a_bulk_string() {
    let frame: RespFrame = b"hello".into();
    assert_eq!(frame, bulk(&[104, 101, 108, 108, 111]));
    let empty: RespFrame = b"".into();
    assert_eq!(empty, bulk(&[]));
    assert_eq!(RespArray::new(vec![frame, empty]).len(), 2);
}

#[test]
fn only_ascii_capitals_are_lowered() {
    assert_eq!(ascii_lower(b'A'), b'a');
    assert_eq!(ascii_lower(b'Z'), b'z');
    assert_eq!(ascii_lower(b'@'), b'@');
    assert_eq!(ascii_lower(b'['), b'[');
    assert_eq!(ascii_lower(b'a'), b'a');
    assert_eq!(ascii_lower(b'0'), b'0');
    assert_eq!(ascii_lower(0xc4), 0xc4);
    for b in 0..=255u8 {
        assert_eq!(ascii_lower(b), b.to_ascii_lowercase());
    }
}

#[test]
fn a_name_is_spelled_in_any_case() {
    assert!(spells_name(&b"sadd".to_vec(), "sadd"));
    assert!(spells_name(&b"SADD".to_vec(), "sadd"));
    assert!(spells_name(&b"sAdD".to_vec(), "sadd"));
    assert!(!spells_name(&b"sad".to_vec(), "sadd"));
    assert!(!spells_name(&b"sadds".to_vec(), "sadd"));
    assert!(!spells_name(&b"sabd".to_vec(), "sadd"));
    assert!(spells_name(&b"".to_vec(), ""));
    // The name itself is taken as it is written.
    assert!(!spells_name(&b"sadd".to_vec(), "SADD"));
}

#[test]
fn numbers_are_rendered_in_decimal() {
    assert_eq!(decimal_text(0), "0");
    assert_eq!(decimal_text(2), "2");
    assert_eq!(decimal_text(9), "9");
    assert_eq!(decimal_text(10), "10");
    assert_eq!(decimal_text(109), "109");
    assert_eq!(decimal_text(1234567890), "1234567890");
    assert_eq!(decimal_text(usize::MAX), usize::MAX.to_string());
}

#[test]
fn names_are_joined_with_spaces() {
    assert_eq!(join_names(&[]), "");
    assert_eq!(join_names(&["sadd"]), "sadd");
    assert_eq!(join_names(&["config", "get"]), "config get");
    assert_eq!(join_names(&["a", "b", "c"]), "a b c");
}

#[test]
fn an_arity_message_names_command_and_count() {
    assert_eq!(
        arity_message_text(&["sadd"], "at least", 2),
        "sadd command must have at least 2 argument"
    );
    assert_eq!(
        arity_message_text(&["config", "get"], "exactly", 12),
        "config get command must have exactly 12 argument"
    );
}

#[test]
fn validate_command_counts_then_reads_the_names() {
    let value = RespArray::new(vec![bulk(b"CONFIG"), bulk(b"get"), bulk(b"x")]);
    assert_eq!(validate_command(&value, &["config", "get"], 1), Ok(()));
    assert_eq!(
        validate_command(&value, &["config", "get"], 2),
        Err(CommandError::InvalidArgument(
            "config get command must have exactly 2 argument".to_string()
        ))
    );
    assert_eq!(
        validate_command(&value, &["config", "get"], 0),
        Err(CommandError::InvalidArgument(
            "config get command must have exactly 0 argument".to_string()
        ))
    );
    assert_eq!(
        validate_command(&value, &["config", "set"], 1),
        Err(CommandError::InvalidArgument("Invalid command: expected set".to_string()))
    );
    assert_eq!(
        validate_command(&value, &["conf", "set"], 1),
        Err(CommandError::InvalidArgument("Invalid command: expected conf".to_string()))
    );
    let value = RespArray::new(vec![bulk(b"config"), RespFrame::Null, bulk(b"x")]);
    assert_eq!(
        validate_command(&value, &["config", "get"], 1),
        Err(CommandError::InvalidArgument(
            "Command must have a BulkString as the first argument".to_string()
        ))
    );
    // More names than frames: the count is wrong, and nothing is read.
    assert_eq!(
        validate_command(&RespArray::new(vec![]), &["sadd"], usize::MAX),
        Err(CommandError::InvalidArgument(format!(
            "sadd command must have exactly {} argument",
            usize::MAX
        )))
    );
    assert_eq!(validate_command(&RespArray::new(vec![]), &[], 0), Ok(()));
}

#[test]
fn extract_args_skips_the_leading_frames() {
    let frames = || RespArray::new(vec![bulk(b"a"), bulk(b"b"), bulk(b"c")]);
    assert_eq!(extract_args(frames(), 0), Ok(vec![bulk(b"a"), bulk(b"b"), bulk(b"c")]));
    assert_eq!(extract_args(frames(), 1), Ok(vec![bulk(b"b"), bulk(b"c")]));
    assert_eq!(extract_args(frames(), 3), Ok(vec![]));
    assert_eq!(extract_args(frames(), 4), Ok(vec![]));
    assert_eq!(extract_args(frames(), usize::MAX), Ok(vec![]));
}

#[test]
fn key_from_reads_text_out_of_a_bulk_string() {
    assert_eq!(key_from(bulk(b"map"), "no key"), Ok("map".to_string()));
    assert_eq!(key_from(bulk("é".as_bytes()), "no key"), Ok("é".to_string()));
    assert_eq!(
        key_from(bulk(&[0xc3]), "no key"),
        Err(CommandError::EncodingError(vec![0xc3]))
    );
    assert_eq!(
        key_from(RespFrame::SimpleString("map".to_string()), "no key"),
        Err(CommandError::InvalidArgument("no key".to_string()))
    );
}

#[test]
fn errors_are_equal_by_kind_and_content() {
    let a = CommandError::InvalidArgument("x".to_string());
    let b = CommandError::InvalidArgument("y".to_string());
    let c = CommandError::EncodingError(vec![120]);
    assert_eq!(a, CommandError::InvalidArgument("x".to_string()));
    assert_ne!(a, b);
    assert_ne!(a, c);
    assert_eq!(c, CommandError::EncodingError(vec![120]));
    assert_ne!(c, CommandError::EncodingError(vec![121]));
}

#[test]
fn the_store_keeps_one_set_per_key() {
    let mut backend = Backend::default();
    let k = "k".to_string();
    let j = "j".to_string();
    assert_eq!(backend.sget(&k), None);

    backend.sset(k.clone(), vec![]);
    assert_eq!(backend.sget(&k), Some(vec![]));
    assert_eq!(backend.sget(&j), None);

    backend.sset(k.clone(), vec![bulk(b"a"), bulk(b"a"), RespFrame::Integer(1)]);
    backend.sset(j.clone(), vec![bulk(b"z")]);
    backend.sset(k.clone(), vec![RespFrame::Integer(1), RespFrame::Null]);

    let members = backend.sget(&k).unwrap();
    assert_eq!(members.len(), 3);
    assert!(contains_frame(&members, &bulk(b"a")));
    assert!(contains_frame(&members, &RespFrame::Integer(1)));
    assert!(contains_frame(&members, &RespFrame::Null));
    assert_eq!(backend.sget(&j), Some(vec![bulk(b"z")]));
}
