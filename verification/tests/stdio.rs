use mcp_client::error::ClientError;
use mcp_client::message::Message;
use mcp_client::protocol::{Notification, Request, RequestId};
use mcp_client::stdio::{frame, is_white_space, line_step, reader_step, trim_end, LineRead, ReaderStep};

#[test]
fn frame_is_the_json_and_a_line_feed() {
    let message = Message::Request(Request::new("ping", None, RequestId::Number(1)));
    let line = frame(&message).unwrap();
    assert_eq!(line, "{\"id\":1,\"jsonrpc\":\"2.0\",\"method\":\"ping\",\"type\":\"request\"}\n");
}

#[test]
fn frame_is_one_line_whatever_the_payload() {
    let params = mcp_client::json::JsonValue::text("two\nlines\r\nand more\n");
    let message = Message::Notification(Notification::new("log", Some(params)));
    let line = frame(&message).unwrap();
    assert!(line.ends_with('\n'));
    assert_eq!(line.matches('\n').count(), 1);
    let back = match reader_step(LineRead::Line(line)) {
        ReaderStep::Publish(Ok(m)) => m,
        other => panic!("unexpected: {:?}", other),
    };
    assert_eq!(back, message);
}

#[test]
fn empty_lines_are_skipped() {
    for line in ["", "\n", "\r\n", "   \n", "\t \r\n", "\u{a0}\u{2028}\n"] {
        assert_eq!(reader_step(LineRead::Line(line.to_string())), ReaderStep::Skip);
    }
}

#[test]
fn a_line_is_published_as_its_message() {
    let step = reader_step(LineRead::Line("{\"method\":\"notifications/x\"}  \r\n".to_string()));
    assert_eq!(
        step,
        ReaderStep::Publish(Ok(Message::Notification(Notification::new("notifications/x", None))))
    );
}

#[test]
fn leading_white_space_is_left_to_the_json_reader() {
    let step = reader_step(LineRead::Line("  {\"method\":\"m\"}\n".to_string()));
    assert_eq!(step, ReaderStep::Publish(Ok(Message::Notification(Notification::new("m", None)))));
}

#[test]
fn a_malformed_line_is_published_as_an_error() {
    match reader_step(LineRead::Line("{not json}\n".to_string())) {
        ReaderStep::Publish(Err(ClientError::Serialization(_))) => {}
        other => panic!("unexpected: {:?}", other),
    }
    assert_eq!(
        reader_step(LineRead::Line("{\"id\":1}\n".to_string())),
        ReaderStep::Publish(Err(ClientError::Serialization(
            "invalid message: 'id' present without 'method' or 'result/error'".to_string()
        )))
    );
}

#[test]
fn end_of_stream_stops_the_reader() {
    assert_eq!(reader_step(LineRead::End), ReaderStep::Stop(ClientError::Other("connection closed".to_string())));
}

#[test]
fn read_failure_stops_the_reader() {
    assert_eq!(
        reader_step(LineRead::Failed("broken pipe".to_string())),
        ReaderStep::Stop(ClientError::Io("broken pipe".to_string()))
    );
}

fn white_space(c: char) -> bool {
    matches!(
        c as u32,
        0x09..=0x0d | 0x20 | 0x85 | 0xa0 | 0x1680 | 0x2000..=0x200a | 0x2028 | 0x2029 | 0x202f | 0x205f | 0x3000
    )
}

#[test]
fn white_space_is_what_std_calls_white_space() {
    for code in 0..=0x10ffffu32 {
        if let Some(c) = char::from_u32(code) {
            assert_eq!(white_space(c), c.is_whitespace(), "U+{:04X}", code);
            assert_eq!(is_white_space(c), c.is_whitespace(), "U+{:04X}", code);
        }
    }
}

#[test]
fn trim_end_takes_off_what_std_takes_off() {
    for text in [
        "",
        " ",
        "\n",
        "a",
        "a \t\r\n",
        "  a  b  ",
        "\u{3000}x\u{3000}\u{2028}\u{85}\u{a0}",
        "no space at the end\u{200b}",
        "ends in a wide char \u{1F600}",
        "\u{1F600}\u{2003}\u{205f}",
        "é \u{1680}",
    ] {
        assert_eq!(trim_end(text), text.trim_end(), "{:?}", text);
    }
}

#[test]
fn a_line_of_one_character_is_skipped_exactly_if_it_is_white_space() {
    for code in 0..=0x10ffffu32 {
        if let Some(c) = char::from_u32(code) {
            let skipped = reader_step(LineRead::Line(c.to_string())) == ReaderStep::Skip;
            assert_eq!(skipped, white_space(c), "U+{:04X}", code);
        }
    }
}

#[test]
fn only_white_space_at_the_end_is_taken_off() {
    let step = reader_step(LineRead::Line("\u{a0}{\"method\":\"m\"}\u{3000}\t\r\n".to_string()));
    match step {
        ReaderStep::Publish(Err(ClientError::Serialization(_))) => {}
        other => panic!("unexpected: {:?}", other),
    }
    let step = reader_step(LineRead::Line("{\"method\":\"m\"}\u{3000}\u{2028}\u{85}\n".to_string()));
    assert_eq!(step, ReaderStep::Publish(Ok(Message::Notification(Notification::new("m", None)))));
}

#[test]
fn a_trimmed_line_is_skipped_exactly_if_it_is_empty() {
    assert_eq!(line_step(""), ReaderStep::Skip);
    assert_eq!(
        line_step("{\"method\":\"m\"}"),
        ReaderStep::Publish(Ok(Message::Notification(Notification::new("m", None))))
    );
    assert_eq!(
        line_step("{\"id\":1}"),
        ReaderStep::Publish(Err(ClientError::Serialization(
            "invalid message: 'id' present without 'method' or 'result/error'".to_string()
        )))
    );
    match line_step(" ") {
        ReaderStep::Publish(Err(ClientError::Serialization(_))) => {}
        other => panic!("unexpected: {:?}", other),
    }
}

#[test]
fn frame_writes_no_carriage_return() {
    let params = mcp_client::json::JsonValue::text("a\rb\r\nc");
    let message = Message::Request(Request::new("m\r", Some(params), RequestId::String("\r".to_string())));
    let line = frame(&message).unwrap();
    assert!(!line.contains('\r'));
    assert_eq!(line.matches('\n').count(), 1);
    assert_eq!(Message::decode(line.trim_end()).unwrap(), message);
}
