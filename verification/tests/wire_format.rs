use bulk_indexer::command::BulkRequestCommand;
use bulk_indexer::command::BulkRequestError;
use bulk_indexer::command::row_id;
use bulk_indexer::command::Document;
use bulk_indexer::wire::push_decimal;
use bulk_indexer::wire::push_text;
use bulk_indexer::wire::serialize_command;

fn text_of(bytes: &[u8]) -> String {
    String::from_utf8(bytes.to_vec()).unwrap()
}

#[test]
fn decimal_of_zero_is_one_digit() {
    let mut buf = Vec::new();
    push_decimal(&mut buf, 0);
    assert_eq!(text_of(&buf), "0");
}

#[test]
fn decimal_of_largest_number() {
    let mut buf = vec![b'x'];
    push_decimal(&mut buf, u64::MAX);
    assert_eq!(text_of(&buf), "x18446744073709551615");
}

#[test]
fn decimal_keeps_inner_zeros() {
    let mut buf = Vec::new();
    push_decimal(&mut buf, 10);
    push_text(&mut buf, "|");
    push_decimal(&mut buf, 1005);
    push_text(&mut buf, "|");
    push_decimal(&mut buf, 9);
    assert_eq!(text_of(&buf), "10|1005|9");
}

#[test]
fn insert_becomes_action_and_payload() {
    let mut document = Document::new();
    document.add_string("title", "a\"b").unwrap();
    document.add_u64("n", 7).unwrap();
    let command =
        BulkRequestCommand::Insert { ctid: 42, cmin: 1, cmax: 2, xmin: 100, xmax: 0, document };
    let mut buffer = Vec::new();
    assert_eq!(serialize_command(&mut buffer, &command), Ok(()));
    assert_eq!(
        text_of(&buffer),
        "{\"index\":{\"_id\":42}}\n{\"title\":\"a\\\"b\",\"n\":7,\"zdb_ctid\":42,\"zdb_cmin\":1,\"zdb_cmax\":2,\"zdb_xmin\":100,\"zdb_xmax\":0}\n"
    );
}

#[test]
fn insert_of_empty_document_holds_only_stamps() {
    let command = BulkRequestCommand::Insert {
        ctid: 1,
        cmin: 0,
        cmax: 0,
        xmin: 0,
        xmax: u64::MAX,
        document: Document::new(),
    };
    let mut buffer = Vec::new();
    assert_eq!(serialize_command(&mut buffer, &command), Ok(()));
    assert_eq!(
        text_of(&buffer),
        "{\"index\":{\"_id\":1}}\n{\"zdb_ctid\":1,\"zdb_cmin\":0,\"zdb_cmax\":0,\"zdb_xmin\":0,\"zdb_xmax\":18446744073709551615}\n"
    );
}

#[test]
fn insert_lines_are_json() {
    let mut document = Document::new();
    document.add_string("na\"me", "line\nbreak \u{e9}").unwrap();
    document.add_u32("count", 4_000_000_000).unwrap();
    document.add_json("tags", b"[1,2]".to_vec()).unwrap();
    let command =
        BulkRequestCommand::Insert { ctid: 9, cmin: 3, cmax: 4, xmin: 5, xmax: 6, document };
    let mut buffer = Vec::new();
    serialize_command(&mut buffer, &command).unwrap();
    let text = text_of(&buffer);
    let lines: Vec<&str> = text.split('\n').collect();
    assert_eq!(lines.len(), 3);
    assert_eq!(lines[2], "");
    let action: serde_json::Value = serde_json::from_str(lines[0]).unwrap();
    assert_eq!(action["index"]["_id"].as_u64(), Some(9));
    let source: serde_json::Value = serde_json::from_str(lines[1]).unwrap();
    assert_eq!(source["na\"me"].as_str(), Some("line\nbreak \u{e9}"));
    assert_eq!(source["count"].as_u64(), Some(4_000_000_000));
    assert_eq!(source["tags"][1].as_u64(), Some(2));
    assert_eq!(source["zdb_ctid"].as_u64(), Some(9));
    assert_eq!(source["zdb_cmin"].as_u64(), Some(3));
    assert_eq!(source["zdb_cmax"].as_u64(), Some(4));
    assert_eq!(source["zdb_xmin"].as_u64(), Some(5));
    assert_eq!(source["zdb_xmax"].as_u64(), Some(6));
}

#[test]
fn update_becomes_action_and_script() {
    let command = BulkRequestCommand::Update { ctid: 7, cmax: 3, xmax: 9 };
    let mut buffer = b"before\n".to_vec();
    assert_eq!(serialize_command(&mut buffer, &command), Ok(()));
    assert_eq!(
        text_of(&buffer),
        "before\n{\"update\":{\"_id\":7,\"retry_on_conflict\":1}}\n{\"script\":{\"lang\":\"painless\",\"params\":{\"CMAX\":3,\"XMAX\":9},\"source\":\"ctx._source.zdb_cmax=params.CMAX;ctx._source.zdb_xmax=params.XMAX;\"}}\n"
    );
}

#[test]
fn update_lines_are_json() {
    let command = BulkRequestCommand::Update { ctid: 70, cmax: 30, xmax: 90 };
    let mut buffer = Vec::new();
    serialize_command(&mut buffer, &command).unwrap();
    let text = text_of(&buffer);
    let lines: Vec<&str> = text.split('\n').collect();
    let action: serde_json::Value = serde_json::from_str(lines[0]).unwrap();
    assert_eq!(action["update"]["_id"].as_u64(), Some(70));
    assert_eq!(action["update"]["retry_on_conflict"].as_u64(), Some(1));
    let script: serde_json::Value = serde_json::from_str(lines[1]).unwrap();
    assert_eq!(script["script"]["lang"].as_str(), Some("painless"));
    assert_eq!(script["script"]["params"]["CMAX"].as_u64(), Some(30));
    assert_eq!(script["script"]["params"]["XMAX"].as_u64(), Some(90));
}

#[test]
fn deletes_and_control_commands_are_refused() {
    let refused = vec![
        BulkRequestCommand::DeleteByXmin { ctid: 1, xmin: 2 },
        BulkRequestCommand::DeleteByXmax { ctid: 1, xmax: 2 },
        BulkRequestCommand::Interrupt,
        BulkRequestCommand::Done,
    ];
    for command in refused.iter() {
        let mut buffer = b"kept".to_vec();
        assert_eq!(
            serialize_command(&mut buffer, command),
            Err(BulkRequestError::UnsupportedCommand)
        );
        assert_eq!(buffer, b"kept".to_vec());
    }
}

#[test]
fn document_text_is_escaped() {
    let mut document = Document::new();
    assert_eq!(document.add_string("k", "tab\there"), Ok(()));
    assert_eq!(document.fields.len(), 1);
    assert_eq!(document.fields[0].key, b"\"k\"".to_vec());
    assert_eq!(document.fields[0].value, b"\"tab\\there\"".to_vec());
}

#[test]
fn document_keeps_members_in_order() {
    let mut document = Document::new();
    document.add_u64("b", 2).unwrap();
    document.add_u32("a", 1).unwrap();
    document.add_encoded(b"\"raw\"".to_vec(), b"null".to_vec());
    let keys: Vec<Vec<u8>> = document.fields.iter().map(|f| f.key.clone()).collect();
    assert_eq!(keys, vec![b"\"b\"".to_vec(), b"\"a\"".to_vec(), b"\"raw\"".to_vec()]);
    assert_eq!(document.fields[0].value, b"2".to_vec());
    assert_eq!(document.fields[1].value, b"1".to_vec());
}

#[test]
fn row_id_holds_block_and_offset() {
    assert_eq!(row_id(0, 0), 0);
    assert_eq!(row_id(0, 1), 1);
    assert_eq!(row_id(1, 0), 4_294_967_296);
    assert_eq!(row_id(3, 7), 12_884_901_895);
    assert_eq!(row_id(u32::MAX, u16::MAX), 18_446_744_069_414_649_855);
    assert_ne!(row_id(1, 2), row_id(2, 1));
}
