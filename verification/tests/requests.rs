use lv2_state_path::encoding::c_string_bytes;
use lv2_state_path::{MakePath, MapPath, PathError};
use std::path::Path;

fn maker() -> MakePath<u32, &'static str> {
    MakePath { handle: 11, function: "make_path" }
}

fn mapper() -> MapPath<u32, &'static str> {
    MapPath { handle: 22, abstract_path: "abstract_path", absolute_path: "absolute_path" }
}

#[test]
fn buffer_is_the_text_and_one_zero_byte() {
    assert_eq!(c_string_bytes("abc"), vec![b'a', b'b', b'c', 0]);
}

#[test]
fn buffer_of_the_empty_text_is_one_zero_byte() {
    assert_eq!(c_string_bytes(""), vec![0]);
}

#[test]
fn buffer_holds_utf8_of_text_beyond_ascii() {
    // U+00E4, U+20AC and U+1F3B5 take two, three and four bytes.
    assert_eq!(
        c_string_bytes("\u{e4}\u{20ac}\u{1f3b5}"),
        vec![0xc3, 0xa4, 0xe2, 0x82, 0xac, 0xf0, 0x9f, 0x8e, 0xb5, 0]
    );
}

#[test]
fn buffer_keeps_a_zero_character_inside_the_text() {
    assert_eq!(c_string_bytes("a\0b"), vec![b'a', 0, b'b', 0]);
}

#[test]
fn maker_forwards_a_relative_path() {
    let call = maker().relative_to_absolute_path(Path::new("cache/scratch.bin")).unwrap();
    assert_eq!(call.handle, 11);
    assert_eq!(call.function, "make_path");
    assert_eq!(call.path, b"cache/scratch.bin\0".to_vec());
}

#[test]
fn maker_forwards_the_empty_path() {
    let call = maker().relative_to_absolute_path(Path::new("")).unwrap();
    assert_eq!(call.path, vec![0]);
}

#[test]
fn maker_forwards_a_path_beyond_ascii() {
    let call = maker().relative_to_absolute_path(Path::new("pr\u{e4}set/\u{1f3b5}.wav")).unwrap();
    let mut expected = "pr\u{e4}set/\u{1f3b5}.wav".as_bytes().to_vec();
    expected.push(0);
    assert_eq!(call.path, expected);
}

#[test]
fn maker_refuses_an_absolute_path() {
    let outcome = maker().relative_to_absolute_path(Path::new("/tmp/x.wav"));
    assert_eq!(outcome.unwrap_err(), PathError::PathNotRelative);
}

#[test]
fn maker_refuses_a_path_without_text() {
    let outcome = maker().relative_to_absolute_call(false, None);
    assert_eq!(outcome.unwrap_err(), PathError::PathNotUTF8);
}

#[test]
fn maker_checks_the_shape_before_the_text() {
    let outcome = maker().relative_to_absolute_call(true, None);
    assert_eq!(outcome.unwrap_err(), PathError::PathNotRelative);
}

#[test]
fn maker_call_from_parts_matches_the_call_from_a_path() {
    let from_parts = maker().relative_to_absolute_call(false, Some("a/b")).unwrap();
    let from_path = maker().relative_to_absolute_path(Path::new("a/b")).unwrap();
    assert_eq!(from_parts.handle, from_path.handle);
    assert_eq!(from_parts.function, from_path.function);
    assert_eq!(from_parts.path, from_path.path);
    assert_eq!(from_parts.path, b"a/b\0".to_vec());
}

#[test]
fn mapper_forwards_an_absolute_path() {
    let call = mapper().absolute_to_abstract_path(Path::new("/tmp/x.wav")).unwrap();
    assert_eq!(call.handle, 22);
    assert_eq!(call.function, "abstract_path");
    assert_eq!(call.path, b"/tmp/x.wav\0".to_vec());
}

#[test]
fn mapper_refuses_a_relative_path() {
    let outcome = mapper().absolute_to_abstract_path(Path::new("cache/scratch.bin"));
    assert_eq!(outcome.unwrap_err(), PathError::PathNotAbsolute);
}

#[test]
fn mapper_refuses_the_empty_path() {
    let outcome = mapper().absolute_to_abstract_path(Path::new(""));
    assert_eq!(outcome.unwrap_err(), PathError::PathNotAbsolute);
}

#[test]
fn mapper_refuses_a_path_without_text() {
    let outcome = mapper().absolute_to_abstract_call(true, None);
    assert_eq!(outcome.unwrap_err(), PathError::PathNotUTF8);
}

#[test]
fn mapper_checks_the_shape_before_the_text() {
    let outcome = mapper().absolute_to_abstract_call(false, None);
    assert_eq!(outcome.unwrap_err(), PathError::PathNotAbsolute);
}

#[test]
fn mapper_forwards_any_abstract_path() {
    let call = mapper().abstract_to_absolute_path("state:7/\u{e4}");
    assert_eq!(call.handle, 22);
    assert_eq!(call.function, "absolute_path");
    assert_eq!(call.path, vec![b's', b't', b'a', b't', b'e', b':', b'7', b'/', 0xc3, 0xa4, 0]);

    let empty = mapper().abstract_to_absolute_path("");
    assert_eq!(empty.path, vec![0]);

    let rooted = mapper().abstract_to_absolute_path("/looks/absolute");
    assert_eq!(rooted.path, b"/looks/absolute\0".to_vec());
}

#[test]
fn no_path_is_taken_by_both_maker_and_mapper() {
    for text in ["cache/scratch.bin", "/tmp/x.wav", "", "x", "/"] {
        let path = Path::new(text);
        let made = maker().relative_to_absolute_path(path);
        let mapped = mapper().absolute_to_abstract_path(path);
        assert!(made.is_ok() != mapped.is_ok());
        if let Err(error) = made {
            assert_eq!(error, PathError::PathNotRelative);
        }
        if let Err(error) = mapped {
            assert_eq!(error, PathError::PathNotAbsolute);
        }
    }
}

#[test]
fn different_texts_have_different_buffers() {
    let texts = ["", "a", "a/", "a/b", "\u{e4}", "\u{c3}\u{a4}", "a\0", "a\0b"];
    for (i, first) in texts.iter().enumerate() {
        for (j, second) in texts.iter().enumerate() {
            assert_eq!(c_string_bytes(first) == c_string_bytes(second), i == j);
        }
    }
}

#[test]
fn host_reads_a_text_without_zero_character_to_its_end() {
    for text in ["", "cache/scratch.bin", "pr\u{e4}set/\u{20ac}/\u{1f3b5}.wav"] {
        let buffer = c_string_bytes(text);
        let read = buffer.iter().position(|&byte| byte == 0).unwrap();
        assert_eq!(read, text.len());
        assert_eq!(&buffer[..read], text.as_bytes());
    }
}

#[test]
fn host_reads_a_text_with_zero_character_up_to_it() {
    let buffer = c_string_bytes("ab\0cd");
    let read = buffer.iter().position(|&byte| byte == 0).unwrap();
    assert_eq!(read, 2);
    assert!(read < "ab\0cd".len());
}
