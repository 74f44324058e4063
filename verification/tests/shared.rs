use aether::data_provider::{
    bytes_to_tokens, DataError, DataProvider, DummyDataProvider, LengthKnownDataProvider,
    TokenSize, TokenizedData, TokenizedDataProvider,
};
use aether::keys::{Key, KeyPress};
use aether::parse::{is_all_blank, parse_number, split_fields, split_lines, trim};
use aether::sets::{BlobIndex, IdSet, NameSet};
use aether::text::{
    concat_all, decimal2_text, decimal_text, fill, join, pad_right, repeat_char, same_text,
};
use aether::tui::{is_shutdown_key, tab_areas, EventTarget, TabbedWidget};
use aether::volunteer::canvas::Rect;

#[test]
fn tokens_are_read_from_bytes() {
    let bytes = vec![0x01, 0x00, 0xff, 0xff];
    assert_eq!(bytes_to_tokens(&bytes, TokenSize::TwoBytes), Ok(vec![1, 65535]));
    assert_eq!(bytes_to_tokens(&bytes, TokenSize::FourBytes), Ok(vec![-65535]));
    assert_eq!(bytes_to_tokens(&vec![], TokenSize::FourBytes), Ok(vec![]));
    let err = bytes_to_tokens(&vec![1, 2, 3], TokenSize::TwoBytes).unwrap_err();
    assert_eq!(err, DataError::Misaligned { len: 3, token_len: 2 });
    assert_eq!(err.message(), "token data length 3 is not divisible by token size 2");
    let err = bytes_to_tokens(&vec![1, 2], TokenSize::FourBytes).unwrap_err();
    assert_eq!(err, DataError::Misaligned { len: 2, token_len: 4 });
}

#[test]
fn sequences_hold_what_they_are_given() {
    let plain = TokenizedData::from_input_ids(vec![1, 2]);
    assert_eq!(plain.input_ids, vec![1, 2]);
    assert!(plain.labels.is_none() && plain.position_ids.is_none());
    let full = TokenizedData::new(vec![1], Some(vec![2]), Some(vec![3]), Some(vec![4]));
    assert_eq!(full.labels, Some(vec![2]));
    assert_eq!(full.position_ids, Some(vec![3]));
    assert_eq!(full.sequence_lengths, Some(vec![4]));
    assert!(TokenizedData::empty().input_ids.is_empty());
    assert_eq!(full.clone(), full);
    assert_ne!(full, plain);
}

#[test]
fn dummies_give_zeros() {
    let mut dummy = DummyDataProvider::new(TokenSize::TwoBytes, 3, 10);
    let samples = dummy.get_samples((8, 10)).unwrap();
    assert_eq!(samples.len(), 3);
    assert!(samples.iter().all(|s| s.input_ids == vec![0, 0, 0]));
    assert_eq!(dummy.num_sequences(), 10);
    assert!(!dummy.is_empty());
    assert!(DummyDataProvider::new(TokenSize::TwoBytes, 3, 0).is_empty());
    assert_eq!(dummy.internal_get_samples(2).len(), 2);
    let err = dummy.get_samples((9, 12)).unwrap_err();
    assert_eq!(err, DataError::NoSuchSequence { id: 11, num_sequences: 10 });
    assert_eq!(err.message(), "id 11 > self.num_sequences 10");
    let err = dummy.get_samples((20, 22)).unwrap_err();
    assert_eq!(err, DataError::NoSuchSequence { id: 20, num_sequences: 10 });
}

#[test]
fn providers_pass_batches_on() {
    type Any = DataProvider<
        DummyDataProvider,
        DummyDataProvider,
        DummyDataProvider,
        DummyDataProvider,
        DummyDataProvider,
    >;
    let dummy = |len: usize| DummyDataProvider::new(TokenSize::FourBytes, len, 5);
    let mut kinds: Vec<Any> = vec![
        DataProvider::Http(dummy(1)),
        DataProvider::Server(dummy(2)),
        DataProvider::Dummy(dummy(3)),
        DataProvider::WeightedHttp(dummy(4)),
        DataProvider::Local(dummy(5)),
        DataProvider::Preprocessed(dummy(6)),
    ];
    for (i, provider) in kinds.iter_mut().enumerate() {
        let samples = provider.get_samples((0, 1)).unwrap();
        assert_eq!(samples.len(), 2);
        assert_eq!(samples[1].input_ids.len(), i + 1);
        assert!(provider.get_samples((0, 6)).is_err());
    }
}

#[test]
fn some_keys_end_the_terminal() {
    assert!(is_shutdown_key(KeyPress { key: Key::Char('q'), control: false }));
    assert!(is_shutdown_key(KeyPress { key: Key::Char('q'), control: true }));
    assert!(is_shutdown_key(KeyPress { key: Key::Char('c'), control: true }));
    assert!(!is_shutdown_key(KeyPress { key: Key::Char('c'), control: false }));
    assert!(!is_shutdown_key(KeyPress { key: Key::Esc, control: false }));
}

#[test]
fn digits_change_the_tab() {
    let mut tabs = TabbedWidget::new(vec!["Dash".to_string(), "Logs".to_string()]);
    assert_eq!(tabs.labels(), vec!["[1] Dash", "[2] Logs"]);
    assert_eq!(tabs.on_ui_event(Some(Key::Char('2')), 2), EventTarget::Tabs);
    assert_eq!(tabs.current_tab, 1);
    assert_eq!(tabs.on_ui_event(Some(Key::Char('3')), 2), EventTarget::Tab(1));
    assert_eq!(tabs.on_ui_event(Some(Key::Char('0')), 2), EventTarget::Tab(1));
    assert_eq!(tabs.on_ui_event(None, 2), EventTarget::Tab(1));
    assert_eq!(tabs.on_ui_event(Some(Key::Char('1')), 2), EventTarget::Tabs);
    assert_eq!(tabs.current_tab, 0);
    assert_eq!(tabs.get_tab_from_key(Key::Char('9')), Some(8));
    assert_eq!(tabs.get_tab_from_key(Key::Char('x')), None);
    assert_eq!(tabs.get_tab_from_key(Key::Enter), None);
}

#[test]
fn tabs_stand_below_their_bar() {
    let area = Rect { x: 1, y: 2, width: 30, height: 10 };
    assert_eq!(
        tab_areas(area),
        (
            Rect { x: 1, y: 2, width: 30, height: 2 },
            Rect { x: 1, y: 4, width: 30, height: 8 },
        )
    );
}

#[test]
fn numbers_are_read_as_they_are_written() {
    for n in [0u64, 9, 10, 65535, u64::MAX] {
        assert_eq!(parse_number(&decimal_text(n), u64::MAX), Some(n));
        assert_eq!(decimal_text(n), n.to_string());
    }
    assert_eq!(parse_number("65536", 65535), None);
    assert_eq!(parse_number("+7", 65535), Some(7));
    assert_eq!(parse_number("007", 65535), Some(7));
    for bad in ["", "+", "-1", " 1", "1a", "99999999999999999999999"] {
        assert_eq!(parse_number(bad, u64::MAX), None);
    }
    assert_eq!(decimal2_text(4), "04");
    assert_eq!(decimal2_text(123), "123");
}

#[test]
fn texts_are_taken_apart() {
    assert_eq!(trim(" \t a b \n"), "a b");
    assert!(is_all_blank(" \u{3000}\n"));
    assert!(!is_all_blank(" x "));
    assert_eq!(split_fields("a,,b", ','), vec!["a", "", "b"]);
    assert_eq!(split_fields("", ','), vec![""]);
    assert_eq!(split_lines("a\r\n\nb"), vec!["a", "", "b"]);
    assert!(split_lines("").is_empty());
}

#[test]
fn texts_are_put_together() {
    let v = |parts: &[&str]| -> Vec<String> { parts.iter().map(|p| p.to_string()).collect() };
    assert_eq!(join(&v(&["a", "b", "c"]), ", "), "a, b, c");
    assert_eq!(join(&v(&[]), ", "), "");
    assert_eq!(concat_all(&v(&["a", "b"])), "ab");
    assert_eq!(fill("{}-{}{}", &v(&["1", "2"])), "1-2{}");
    assert_eq!(fill("no fields", &v(&["1"])), "no fields");
    assert_eq!(pad_right("é", 3), "é  ");
    assert_eq!(pad_right("long", 3), "long");
    assert_eq!(repeat_char('─', 3), "───");
    assert!(same_text("ü", "ü") && !same_text("ü", "u"));
}

#[test]
fn sets_hold_each_thing_once() {
    let mut ids = IdSet::new();
    assert!(ids.insert((1, 2)));
    assert!(!ids.insert((1, 2)));
    assert!(ids.insert((2, 1)));
    assert_eq!(ids.to_vec(), vec![(1, 2), (2, 1)]);
    assert!(ids.remove(&(1, 2)));
    assert!(!ids.remove(&(1, 2)));
    assert!(!ids.contains(&(1, 2)) && ids.contains(&(2, 1)));
    let mut names = NameSet::new();
    names.insert("a".to_string());
    names.insert("a".to_string());
    assert!(names.contains("a") && !names.contains("b"));
    let mut blobs = BlobIndex::new();
    blobs.insert((1, 1), (0, 4));
    blobs.insert((1, 1), (5, 9));
    assert_eq!(blobs.get(&(1, 1)), Some((5, 9)));
    assert_eq!(blobs.get(&(1, 2)), None);
    blobs.clear();
    assert_eq!(blobs.get(&(1, 1)), None);
}
