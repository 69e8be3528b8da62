use psa_re_tui::{CanMessage, DecodeError, Diagnostic, DiagnosticKind, Node, Number, Signal, Translation};

fn decode(text: &str) -> (CanMessage, Vec<Diagnostic>) {
    let mut diags = Vec::new();
    let m = CanMessage::from_yaml_str(text, &mut diags).expect("document should decode");
    (m, diags)
}

fn number_value(n: &Number) -> f64 {
    match n {
        Number::Integer(i) => *i as f64,
        Number::Real(s) => s.parse().unwrap(),
    }
}

fn count(diags: &[Diagnostic], kind: DiagnosticKind) -> usize {
    diags.iter().filter(|d| d.kind == kind).count()
}

#[test]
fn factor_integer_and_real_agree() {
    let (a, _) = decode("signals:\n  S:\n    factor: 2\n");
    let (b, _) = decode("signals:\n  S:\n    factor: 2.0\n");
    let fa = a.signals[0].1.factor.as_ref().unwrap();
    let fb = b.signals[0].1.factor.as_ref().unwrap();
    assert!(matches!(fa, Number::Integer(2)));
    assert!(matches!(fb, Number::Real(s) if s == "2.0"));
    assert_eq!(number_value(fa), 2.0);
    assert_eq!(number_value(fa), number_value(fb));
}

#[test]
fn id_integer_becomes_hex() {
    let (m, diags) = decode("id: 520\n");
    assert_eq!(m.id.as_deref(), Some("0x208"));
    assert!(diags.is_empty());
}

#[test]
fn id_hex_integer_literal_becomes_hex() {
    let (m, _) = decode("id: 0x2b6\n");
    assert_eq!(m.id.as_deref(), Some("0x2B6"));
}

#[test]
fn id_text_kept_verbatim() {
    let (m, _) = decode("id: \"0x208\"\n");
    assert_eq!(m.id.as_deref(), Some("0x208"));
    let (m, _) = decode("id: \"0xzz\"\n");
    assert_eq!(m.id.as_deref(), Some("0xzz"));
}

#[test]
fn id_negative_is_twos_complement() {
    let (m, _) = decode("id: -1\n");
    assert_eq!(m.id.as_deref(), Some("0xFFFFFFFFFFFFFFFF"));
}

#[test]
fn id_wrong_type_is_absent() {
    let (m, diags) = decode("id: [1, 2]\nname: X\n");
    assert_eq!(m.id, None);
    assert_eq!(m.name.as_deref(), Some("X"));
    assert_eq!(diags.len(), 1);
    assert_eq!(diags[0].kind, DiagnosticKind::WrongType);
    assert_eq!(diags[0].subject, "id");
}

#[test]
fn periodicity_forms() {
    for text in ["periodicity: \"10 ms\"\n", "periodicity: \"10ms\"\n", "periodicity: 10\n", "periodicity: 10 ms\n"] {
        let (m, diags) = decode(text);
        assert_eq!(m.periodicity, Some(10), "{}", text);
        assert!(diags.is_empty());
    }
    let (m, diags) = decode("periodicity: trigger\n");
    assert_eq!(m.periodicity, Some(-1));
    assert!(diags.is_empty());
}

#[test]
fn periodicity_unreadable() {
    let (m, diags) = decode("periodicity: \"10 Hz\"\n");
    assert_eq!(m.periodicity, None);
    assert_eq!(diags.len(), 1);
    assert_eq!(diags[0].kind, DiagnosticKind::UnparsablePeriodicity);
    assert_eq!(diags[0].subject, "10 Hz");
}

#[test]
fn periodicity_bad_number_before_ms() {
    let (m, diags) = decode("periodicity: \"ten ms\"\n");
    assert_eq!(m.periodicity, None);
    assert_eq!(count(&diags, DiagnosticKind::UnparsablePeriodicity), 1);
}

#[test]
fn periodicity_repeated_suffix_trimmed() {
    let (m, _) = decode("periodicity: \"20msms\"\n");
    assert_eq!(m.periodicity, Some(20));
    let (m, _) = decode("periodicity: \"-5 ms\"\n");
    assert_eq!(m.periodicity, Some(-5));
}

#[test]
fn periodicity_wrong_type() {
    let (m, diags) = decode("periodicity: true\n");
    assert_eq!(m.periodicity, None);
    assert_eq!(diags[0].kind, DiagnosticKind::WrongType);
    assert_eq!(diags[0].subject, "periodicity");
}

#[test]
fn unknown_top_level_key_is_isolated() {
    let base = "id: 0x10\nname: ABC\nlength: 8\nperiodicity: 100\n";
    let with = "id: 0x10\nfoo: bar\nname: ABC\nlength: 8\nperiodicity: 100\n";
    let (a, da) = decode(base);
    let (b, db) = decode(with);
    assert!(da.is_empty());
    assert_eq!(db.len(), 1);
    assert_eq!(db[0].kind, DiagnosticKind::UnknownMessageParameter);
    assert_eq!(db[0].subject, "foo");
    assert_eq!(a.id, b.id);
    assert_eq!(a.name, b.name);
    assert_eq!(a.length, b.length);
    assert_eq!(a.periodicity, b.periodicity);
    assert_eq!(b.id.as_deref(), Some("0x10"));
    assert_eq!(b.length, Some(8));
}

#[test]
fn values_keep_source_order() {
    let (m, diags) = decode("signals:\n  STATE:\n    values: {10: {en: \"Idle\"}, 20: {en: \"Running\"}}\n");
    assert!(diags.is_empty());
    let v = &m.signals[0].1.values;
    assert_eq!(v.len(), 2);
    assert_eq!(v[0].0, 10);
    assert_eq!(v[0].1.as_ref().unwrap().en.as_deref(), Some("Idle"));
    assert_eq!(v[1].0, 20);
    assert_eq!(v[1].1.as_ref().unwrap().en.as_deref(), Some("Running"));
    assert_eq!(v[1].1.as_ref().unwrap().fr, None);
}

#[test]
fn values_non_integer_key_skipped() {
    let (m, diags) = decode("signals:\n  S:\n    values: {a: {en: x}, 3: y}\n");
    let v = &m.signals[0].1.values;
    assert_eq!(v.len(), 1);
    assert_eq!(v[0].0, 3);
    assert!(v[0].1.is_none());
    assert_eq!(diags.len(), 1);
    assert_eq!(diags[0].kind, DiagnosticKind::WrongKeyType);
    assert_eq!(diags[0].subject, "values");
}

#[test]
fn full_message_decodes() {
    let text = "id: 0x0F6\nname: BSI_STATE\nalt_names: [A, 3, B]\nlength: 8\ncomment: {en: Body, fr: Corps, de: Koerper}\ntype: can\nperiodicity: 50 ms\nsenders: [BSI, 7]\nreceivers: [CMM, BSM]\nsignals:\n  S1:\n    bits: \"1.7-1.0\"\n    type: uint\n    signed: false\n    factor: 0.5\n    offset: -40\n    min: 0\n    max: 100.5\n    units: \"km/h\"\n    comment: {en: Speed}\n    unused: true\n    alt_names: [X]\n  S2:\n    type: bool\n";
    let (m, diags) = decode(text);
    assert!(diags.is_empty());
    assert_eq!(m.id.as_deref(), Some("0xF6"));
    assert_eq!(m.name.as_deref(), Some("BSI_STATE"));
    assert_eq!(m.alt_names, Some(vec!["A".to_string(), "B".to_string()]));
    assert_eq!(m.length, Some(8));
    let c = m.comment.unwrap();
    assert_eq!(c.en.as_deref(), Some("Body"));
    assert_eq!(c.fr.as_deref(), Some("Corps"));
    assert_eq!(c.de.as_deref(), Some("Koerper"));
    assert_eq!(m.bus_type.as_deref(), Some("can"));
    assert_eq!(m.periodicity, Some(50));
    assert_eq!(m.senders, vec!["BSI".to_string()]);
    assert_eq!(m.receivers, vec!["CMM".to_string(), "BSM".to_string()]);
    assert_eq!(m.signals.len(), 2);
    assert_eq!(m.signals[0].0, "S1");
    let s = &m.signals[0].1;
    assert_eq!(s.bits.as_deref(), Some("1.7-1.0"));
    assert_eq!(s.data_type.as_deref(), Some("uint"));
    assert_eq!(s.signed, Some(false));
    assert_eq!(number_value(s.factor.as_ref().unwrap()), 0.5);
    assert_eq!(number_value(s.offset.as_ref().unwrap()), -40.0);
    assert_eq!(number_value(s.min.as_ref().unwrap()), 0.0);
    assert_eq!(number_value(s.max.as_ref().unwrap()), 100.5);
    assert_eq!(s.units.as_deref(), Some("km/h"));
    assert_eq!(s.comment.as_ref().unwrap().en.as_deref(), Some("Speed"));
    assert_eq!(s.unused, Some(true));
    assert_eq!(s.alt_names, Some(vec!["X".to_string()]));
    assert_eq!(m.signals[1].0, "S2");
    assert_eq!(m.signals[1].1.data_type.as_deref(), Some("bool"));
    assert_eq!(m.signals[1].1.bits, None);
}

#[test]
fn alt_names_without_text_are_absent() {
    let (m, diags) = decode("alt_names: [1, 2]\n");
    assert_eq!(m.alt_names, None);
    assert!(diags.is_empty());
    let (m, _) = decode("alt_names: []\n");
    assert_eq!(m.alt_names, None);
}

#[test]
fn wrong_types_reported_per_field() {
    let (m, diags) = decode("name: 5\nlength: eight\ntype: [x]\nsenders: x\nreceivers: 3\nsignals: [a]\nalt_names: x\n");
    assert_eq!(m.name, None);
    assert_eq!(m.length, None);
    assert_eq!(m.bus_type, None);
    assert!(m.senders.is_empty());
    assert!(m.receivers.is_empty());
    assert!(m.signals.is_empty());
    assert_eq!(diags.len(), 7);
    assert_eq!(count(&diags, DiagnosticKind::WrongType), 7);
    let subjects: Vec<&str> = diags.iter().map(|d| d.subject.as_str()).collect();
    assert_eq!(subjects, vec!["name", "length", "type", "senders", "receivers", "signals", "alt_names"]);
}

#[test]
fn signal_wrong_types_and_unknown_keys() {
    let text = "signals:\n  S:\n    bits: 3\n    signed: maybe\n    factor: abc\n    values: 3\n    unused: 1\n    units: [a]\n    colour: red\n";
    let (m, diags) = decode(text);
    let s = &m.signals[0].1;
    assert_eq!(s.bits, None);
    assert_eq!(s.signed, None);
    assert!(s.factor.is_none());
    assert!(s.values.is_empty());
    assert_eq!(s.unused, None);
    assert_eq!(s.units, None);
    assert_eq!(count(&diags, DiagnosticKind::WrongType), 6);
    assert_eq!(count(&diags, DiagnosticKind::UnknownSignalParameter), 1);
    assert_eq!(diags.last().unwrap().subject, "colour");
}

#[test]
fn duplicate_signal_names_preserved() {
    let (m, _) = decode("signals:\n  A:\n    bits: \"1\"\n  B:\n    bits: \"2\"\n");
    assert_eq!(m.signals.len(), 2);
    assert_eq!(m.signals[0].0, "A");
    assert_eq!(m.signals[1].0, "B");
}

#[test]
fn translation_languages() {
    let (m, diags) = decode("comment: {en: Hello, it: Ciao, fr: 5}\n");
    let c = m.comment.unwrap();
    assert_eq!(c.en.as_deref(), Some("Hello"));
    assert_eq!(c.fr, None);
    assert_eq!(diags.len(), 2);
    assert_eq!(diags[0].kind, DiagnosticKind::UnsupportedLanguage);
    assert_eq!(diags[0].subject, "it");
    assert_eq!(diags[1].kind, DiagnosticKind::WrongType);
    assert_eq!(diags[1].subject, "fr");
}

#[test]
fn translation_present_even_if_empty() {
    let (m, _) = decode("comment: {xx: y}\n");
    let c = m.comment.unwrap();
    assert!(c.en.is_none() && c.fr.is_none() && c.de.is_none());
    let (m, diags) = decode("comment: plain\n");
    assert!(m.comment.is_none());
    assert!(diags.is_empty());
}

#[test]
fn translation_from_node() {
    let node = Node::Hash(vec![
        (Node::Text("de".to_string()), Node::Text("Hallo".to_string())),
        (Node::Integer(1), Node::Text("x".to_string())),
    ]);
    let mut diags = Vec::new();
    let t: Translation = Translation::from_yaml(&node, &mut diags).unwrap();
    assert_eq!(t.de.as_deref(), Some("Hallo"));
    assert_eq!(diags.len(), 1);
    assert_eq!(diags[0].kind, DiagnosticKind::WrongKeyType);
    assert!(Translation::from_yaml(&Node::Null, &mut diags).is_none());
    assert_eq!(diags.len(), 1);
}

#[test]
fn signal_from_non_mapping_is_empty() {
    let mut diags = Vec::new();
    let s = Signal::from_yaml(&Node::Integer(3), &mut diags);
    assert!(s.bits.is_none() && s.values.is_empty() && s.factor.is_none());
    assert!(diags.is_empty());
}

#[test]
fn malformed_text_is_syntax_error() {
    let mut diags = Vec::new();
    let r = CanMessage::from_yaml_str("id: [1, 2\nname: x: y: z\n", &mut diags);
    assert!(matches!(r, Err(DecodeError::Syntax(_))));
    assert!(diags.is_empty());
}

#[test]
fn empty_text_is_syntax_error() {
    let mut diags = Vec::new();
    assert!(matches!(CanMessage::from_yaml_str("", &mut diags), Err(DecodeError::Syntax(_))));
}

#[test]
fn non_mapping_document_is_syntax_error() {
    let mut diags = Vec::new();
    assert!(matches!(CanMessage::from_yaml_str("- a\n- b\n", &mut diags), Err(DecodeError::Syntax(_))));
    assert!(matches!(CanMessage::from_yaml_str("just text\n", &mut diags), Err(DecodeError::Syntax(_))));
}
