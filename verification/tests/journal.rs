use phosphor_core::journal::log::{compaction, payload, restore};
use phosphor_core::journal::undo::{Caret, CharRange, Edit, History, Record};
use phosphor_core::journal::{
    frame, framed_log, header_bytes, key, recover, scan, should_compact, undo_path, workspace_dir,
    workspace_key, DecodeError, Decoder, Encoder, Error, FoldError, Folded, Recovery, Stream,
};

#[test]
fn small_integers_cost_one_byte_and_large_ones_round_trip() {
    let mut out = Encoder::new();
    out.u64(0);
    out.u64(127);
    out.u64(128);
    out.u64(300);
    out.u64(u64::MAX);
    out.bool(true);
    out.str("héllo");
    out.option_u64(None);
    out.option_u64(Some(5));
    let bytes = out.finish();
    assert_eq!(&bytes[..5], &[0x00, 0x7f, 0x80, 0x01, 0xac]);
    let mut input = Decoder::new(&bytes);
    assert_eq!(input.u64(), Ok(0));
    assert_eq!(input.u64(), Ok(127));
    assert_eq!(input.u64(), Ok(128));
    assert_eq!(input.u64(), Ok(300));
    assert_eq!(input.u64(), Ok(u64::MAX));
    assert_eq!(input.bool(), Ok(true));
    assert_eq!(input.str(), Ok("héllo".to_string()));
    assert_eq!(input.option_u64(), Ok(None));
    assert_eq!(input.option_u64(), Ok(Some(5)));
    assert_eq!(input.finish(), Ok(()));
}

#[test]
fn each_decode_error_has_an_input_that_gives_it() {
    assert_eq!(Decoder::new(&[]).u64(), Err(DecodeError::UnexpectedEnd));
    assert_eq!(Decoder::new(&[0x80]).u64(), Err(DecodeError::UnexpectedEnd));
    assert_eq!(Decoder::new(&[0xff; 11]).u64(), Err(DecodeError::Overflow));
    assert_eq!(
        Decoder::new(&[0xff, 0xff, 0xff, 0xff, 0xff, 0xff, 0xff, 0xff, 0xff, 0x02]).u64(),
        Err(DecodeError::Overflow)
    );
    assert_eq!(Decoder::new(&[7]).bool(), Err(DecodeError::BadBool { byte: 7 }));
    assert_eq!(Decoder::new(&[2, 0xff, 0xfe]).str(), Err(DecodeError::Utf8));
    assert_eq!(Decoder::new(&[5, b'a']).str(), Err(DecodeError::UnexpectedEnd));
    assert_eq!(Decoder::new(&[9, 1]).seq_len(), Err(DecodeError::TooLong { want: 9, remaining: 1 }));
    assert_eq!(Decoder::new(&[1, 2]).finish(), Err(DecodeError::Trailing { extra: 2 }));
    assert_eq!(History::decode(&[9]), Err(DecodeError::UnknownRecord { tag: 9 }));
}

#[test]
fn a_framed_log_opens_to_its_payloads_and_a_torn_tail_is_reported() {
    let payloads = vec![b"one".to_vec(), Vec::new(), b"three".to_vec()];
    let mut bytes = framed_log(Stream::undo(), &payloads).unwrap();
    assert_eq!(&bytes[..8], b"PHOSJRNL");
    assert_eq!(bytes.len(), 16 + 3 * 8 + 3 + 5);
    let (records, end) = scan(&bytes);
    assert_eq!(records, payloads);
    assert_eq!(end, bytes.len());

    let clean = bytes.len();
    bytes.extend_from_slice(&frame(b"four").unwrap()[..6]);
    let (records, recovery, good_end) = recover("j", &bytes, Stream::undo()).unwrap();
    assert_eq!(records, payloads);
    assert_eq!(good_end, clean);
    assert_eq!(recovery, Recovery { discarded_bytes: 6, records: 3 });
    assert!(!recovery.is_clean());

    let mut flipped = framed_log(Stream::undo(), &payloads).unwrap();
    let last = flipped.len() - 1;
    flipped[last] ^= 1;
    let (records, _) = scan(&flipped);
    assert_eq!(records.len(), 2, "a payload that fails its checksum ends the log");
}

#[test]
fn the_frame_checksum_is_crc32() {
    let f = frame(b"").unwrap();
    assert_eq!(f, vec![0, 0, 0, 0, 0x1c, 0xdf, 0x44, 0x21]);
}

#[test]
fn a_header_must_be_a_journal_of_this_format_and_stream() {
    assert_eq!(
        recover("p", b"not a journal", Stream::undo()),
        Err(Error::NotAJournal { path: "p".to_string() })
    );
    let seen = header_bytes(Stream::seen());
    assert_eq!(
        recover("p", &seen, Stream::undo()),
        Err(Error::WrongStream { path: "p".to_string(), found: Stream::seen(), expected: Stream::undo() })
    );
    let mut other = header_bytes(Stream::undo());
    other[8] = 2;
    assert_eq!(
        recover("p", &other, Stream::undo()),
        Err(Error::WrongFormat { path: "p".to_string(), found: 2, expected: 1 })
    );
    let (records, recovery, _) = recover("p", &header_bytes(Stream::undo()), Stream::undo()).unwrap();
    assert!(records.is_empty());
    assert!(recovery.is_clean());
    assert_eq!(Stream::undo().describe(), "undo/1");
    assert_eq!(Stream { kind: 9, version: 3 }.describe(), "unknown/3");
    assert_eq!(frame(&vec![0u8; 4]).map(|f| f.len()), Ok(12));
}

#[test]
fn keys_are_fnv1a_in_hex() {
    assert_eq!(key(b""), "cbf29ce484222325");
    assert_eq!(key(b"a"), "af63dc4c8601ec8c");
    assert_eq!(workspace_key("/work/phosphor"), key(b"/work/phosphor"));
    assert_eq!(
        undo_path("/state/phosphor/abc", "/work/a.rs"),
        format!("/state/phosphor/abc/undo/{}.journal", key(b"/work/a.rs"))
    );
    assert_eq!(
        workspace_dir("/state", "/work"),
        format!("/state/phosphor/{}", key(b"/work"))
    );
}

#[test]
fn compaction_waits_for_the_floor_and_then_for_doubling() {
    assert!(!should_compact(255, 0));
    assert!(should_compact(256, 0));
    assert!(!should_compact(300, 200));
    assert!(should_compact(400, 200));
    assert!(should_compact(u64::MAX, u64::MAX / 2));
}

fn node(id: u64, parent: u64, text: &str) -> Record {
    Record::Node {
        id,
        parent,
        edits: vec![Edit { at: 0, removed: String::new(), inserted: text.to_string() }],
        before: Caret { offset: 0, selection: None },
        after: Caret { offset: text.chars().count(), selection: Some(CharRange { start: 0, end: 1 }) },
    }
}

#[test]
fn every_record_round_trips_through_the_codec() {
    for record in [
        Record::Origin { path: "/work/a.rs".to_string() },
        Record::Base { text: "fn main() {}\n".to_string() },
        node(1, 0, "hello"),
        Record::Cursor { to: 0 },
        Record::Redo { node: 0, child: 1 },
        Record::Saved { node: None },
        Record::Saved { node: Some(3) },
    ] {
        let mut out = Encoder::new();
        History::encode(&record, &mut out);
        let bytes = out.finish();
        assert_eq!(History::decode(&bytes), Ok(record));
    }
}

#[test]
fn the_fold_builds_the_tree_and_refuses_what_does_not_fit() {
    let mut history = History::fresh();
    assert_eq!(history.current(), 0);
    assert_eq!(history.saved(), Some(0));
    assert_eq!(history.apply(Record::Origin { path: "a".to_string() }), Ok(()));
    assert_eq!(history.apply(Record::Origin { path: "b".to_string() }), Err(FoldError::WrongOrigin));
    assert_eq!(history.apply(node(2, 0, "x")), Err(FoldError::OutOfOrder { found: 2, expected: 1 }));
    assert_eq!(history.apply(node(1, 1, "x")), Err(FoldError::BadParent { id: 1, parent: 1 }));
    assert_eq!(history.apply(node(1, 0, "x")), Ok(()));
    assert_eq!(history.apply(node(2, 0, "y")), Ok(()));
    assert_eq!(history.current(), 2);
    assert_eq!(history.apply(Record::Cursor { to: 5 }), Err(FoldError::UnknownNode { id: 5 }));
    assert_eq!(history.apply(Record::Redo { node: 0, child: 0 }), Err(FoldError::BadRedoChild { id: 0, child: 0 }));
    assert_eq!(history.apply(Record::Cursor { to: 1 }), Ok(()));
    assert_eq!(history.nodes()[0].redo_child, Some(1));
    assert_eq!(history.apply(Record::Saved { node: Some(9) }), Err(FoldError::UnknownNode { id: 9 }));
    assert_eq!(history.apply(Record::Saved { node: Some(2) }), Ok(()));
    assert_eq!(history.origin(), Some("a"));
    assert_eq!(history.base(), None);
    assert_eq!(history.nodes()[0].children, vec![1, 2]);

    let snapshot = history.snapshot();
    let mut rebuilt = History::fresh();
    for record in snapshot {
        rebuilt.apply(record).unwrap();
    }
    assert_eq!(rebuilt, history, "folding a snapshot gives back the state");
    let (nodes, current, saved) = rebuilt.into_parts();
    assert_eq!((nodes.len(), current, saved), (3, 1, Some(2)));
}

#[test]
fn a_compacted_log_reopens_to_the_same_history() {
    let mut history = History::fresh();
    let records = vec![
        Record::Origin { path: "/work/a.rs".to_string() },
        Record::Base { text: "fn main() {}\n".to_string() },
        node(1, 0, "x"),
        node(2, 0, "y"),
        node(3, 2, "z"),
        Record::Cursor { to: 2 },
        Record::Saved { node: Some(3) },
    ];
    let mut payloads = Vec::new();
    for record in records {
        payloads.push(payload(&record));
        history.apply(record).unwrap();
    }
    let reopened = restore("/state/a.journal", &payloads).expect("every payload folds");
    assert_eq!(reopened, history);
    let compacted = compaction(&history);
    assert!(compacted.len() <= payloads.len());
    assert_eq!(restore("/state/a.journal", &compacted).expect("a snapshot folds"), history);
}

#[test]
fn a_log_that_will_not_fold_names_its_file() {
    let bad = vec![vec![0xff, 0xff]];
    assert!(matches!(
        restore("/state/b.journal", &bad),
        Err(Error::Decode { path, .. }) if path == "/state/b.journal"
    ));
    let refused = vec![payload(&Record::Cursor { to: 9 })];
    assert_eq!(
        restore("/state/b.journal", &refused),
        Err(Error::Fold { path: "/state/b.journal".to_string(), source: FoldError::UnknownNode { id: 9 } })
    );
}

#[test]
fn a_snapshot_keeps_redo_pointers_that_leave_the_path_to_the_current_node() {
    // The root redoes to node 1 while the buffer is at node 2.
    let mut history = History::fresh();
    for record in [node(1, 0, "x"), node(2, 0, "y"), Record::Redo { node: 0, child: 1 }] {
        history.apply(record).unwrap();
    }
    assert_eq!((history.current(), history.nodes()[0].redo_child), (2, Some(1)));
    let mut rebuilt = History::fresh();
    for record in history.snapshot() {
        rebuilt.apply(record).unwrap();
    }
    assert_eq!(rebuilt, history);

    // The buffer is at node 1 while the root redoes to node 2, its newest child.
    let mut history = History::fresh();
    for record in [node(1, 0, "x"), node(2, 0, "y"), Record::Cursor { to: 1 }, Record::Redo { node: 0, child: 2 }] {
        history.apply(record).unwrap();
    }
    assert_eq!((history.current(), history.nodes()[0].redo_child), (1, Some(2)));
    let mut rebuilt = History::fresh();
    for record in history.snapshot() {
        rebuilt.apply(record).unwrap();
    }
    assert_eq!(rebuilt, history);
}

#[test]
fn a_record_with_a_byte_after_it_is_refused_as_trailing() {
    for record in [Record::Cursor { to: 3 }, node(1, 0, "x"), Record::Saved { node: None }] {
        let mut out = Encoder::new();
        History::encode(&record, &mut out);
        let bytes = out.finish();
        let mut longer = bytes.clone();
        longer.push(0);
        assert_eq!(History::decode(&longer), Err(DecodeError::Trailing { extra: 1 }));
        longer.extend_from_slice(&[1, 2]);
        assert_eq!(History::decode(&longer), Err(DecodeError::Trailing { extra: 3 }));
        assert_eq!(History::decode(&bytes), Ok(record));
    }
    assert_eq!(History::decode(&[7]), Err(DecodeError::UnknownRecord { tag: 7 }));
}

#[test]
fn an_integer_takes_the_fewest_bytes_that_hold_it() {
    for (value, len) in [(0u64, 1usize), (127, 1), (128, 2), (16_383, 2), (16_384, 3), (u64::MAX, 10)] {
        let mut out = Encoder::new();
        out.u64(value);
        let bytes = out.finish();
        assert_eq!(bytes.len(), len, "{value}");
        let mut input = Decoder::new(&bytes);
        assert_eq!(input.u64(), Ok(value));
        assert_eq!(input.finish(), Ok(()));
    }
    assert_eq!(Decoder::new(&[0x80]).u64(), Err(DecodeError::UnexpectedEnd));
    assert_eq!(
        Decoder::new(&[0xff, 0xff, 0xff, 0xff, 0xff, 0xff, 0xff, 0xff, 0xff, 0x02]).u64(),
        Err(DecodeError::Overflow)
    );
    assert_eq!(Decoder::new(&[0xff, 0xff, 0xff, 0xff, 0xff, 0xff, 0xff, 0xff, 0xff, 0x01]).u64(), Ok(u64::MAX));
}
