use vstd::prelude::*;

use crate::diag::{diag_views, report, Diagnostic, DiagnosticKind};
use crate::node::{load_documents, scan_error_text, yaml_load, Node};
use crate::signal::{
    collect_texts, signal_diags, signal_of, text_of, text_views, texts_of, Signal, SignalView,
};
use crate::text::{decimal_i64, ends_with, has_suffix, hex_id, hex_id_text, parse_i64, same_text, trim_end, trim_suffix};
use crate::translation::{opt_text, opt_translation, translation_diags, translation_of, Translation, TranslationView};

verus! {

/// Why a document yields no message at all.
#[derive(Clone, Debug)]
pub enum DecodeError {
    /// The text is not a YAML document whose top level is a mapping.
    Syntax(String),
    /// The document could not be read from storage.
    Storage(String),
}

/// One CAN message definition.
#[derive(Clone, Debug)]
pub struct CanMessage {
    pub id: Option<String>,
    pub name: Option<String>,
    pub alt_names: Option<Vec<String>>,
    pub length: Option<i64>,
    pub comment: Option<Translation>,
    pub bus_type: Option<String>,
    pub periodicity: Option<i64>,
    pub senders: Vec<String>,
    pub receivers: Vec<String>,
    pub signals: Vec<(String, Signal)>,
}

pub struct CanMessageView {
    pub id: Option<Seq<char>>,
    pub name: Option<Seq<char>>,
    pub alt_names: Option<Seq<Seq<char>>>,
    pub length: Option<i64>,
    pub comment: Option<TranslationView>,
    pub bus_type: Option<Seq<char>>,
    pub periodicity: Option<i64>,
    pub senders: Seq<Seq<char>>,
    pub receivers: Seq<Seq<char>>,
    pub signals: Seq<(Seq<char>, SignalView)>,
}

pub open spec fn signal_views(v: Seq<(String, Signal)>) -> Seq<(Seq<char>, SignalView)> {
    v.map_values(|p: (String, Signal)| (p.0@, p.1@))
}

impl View for CanMessage {
    type V = CanMessageView;

    open spec fn view(&self) -> CanMessageView {
        CanMessageView {
            id: opt_text(self.id),
            name: opt_text(self.name),
            alt_names: crate::signal::opt_texts(self.alt_names),
            length: self.length,
            comment: opt_translation(self.comment),
            bus_type: opt_text(self.bus_type),
            periodicity: self.periodicity,
            senders: text_views(self.senders@),
            receivers: text_views(self.receivers@),
            signals: signal_views(self.signals@),
        }
    }
}

/// A message with every field absent and every list empty.
pub open spec fn empty_message() -> CanMessageView {
    CanMessageView {
        id: None,
        name: None,
        alt_names: None,
        length: None,
        comment: None,
        bus_type: None,
        periodicity: None,
        senders: seq![],
        receivers: seq![],
        signals: seq![],
    }
}

/// The canonical identifier that a node gives: text as it stands, an integer
/// as `0x` and upper-case hex.
pub open spec fn id_of(n: Node) -> Option<Seq<char>> {
    match n {
        Node::Text(s) => Some(s@),
        Node::Integer(i) => Some(hex_id_text(i)),
        _ => None,
    }
}

/// The period in milliseconds that a node gives: an integer; `trigger`, for
/// -1; or a decimal integer followed by one or more ` ms` or `ms`.
pub open spec fn period_of(n: Node) -> Option<i64> {
    match n {
        Node::Integer(i) => Some(i),
        Node::Text(t) => if t@ == "trigger"@ {
            Some(-1i64)
        } else if has_suffix(t@, " ms"@) {
            decimal_i64(trim_suffix(t@, " ms"@))
        } else if has_suffix(t@, "ms"@) {
            decimal_i64(trim_suffix(t@, "ms"@))
        } else {
            None
        },
        _ => None,
    }
}

/// The named signals of a `signals` mapping, in source order.
pub open spec fn named_signals(entries: Seq<(Node, Node)>) -> Seq<(Seq<char>, SignalView)> {
    entries.fold_left(
        seq![],
        |acc: Seq<(Seq<char>, SignalView)>, e: (Node, Node)|
            match e.0 {
                Node::Text(name) => acc.push((name@, signal_of(e.1))),
                _ => acc,
            },
    )
}

pub open spec fn named_signal_diags(e: (Node, Node)) -> Seq<(DiagnosticKind, Seq<char>)> {
    match e.0 {
        Node::Text(_) => signal_diags(e.1),
        _ => seq![(DiagnosticKind::WrongKeyType, "signals"@)],
    }
}

pub open spec fn named_signals_diags(entries: Seq<(Node, Node)>) -> Seq<(DiagnosticKind, Seq<char>)> {
    entries.fold_left(seq![], |d: Seq<(DiagnosticKind, Seq<char>)>, e: (Node, Node)| d + named_signal_diags(e))
}

/// The effect of one top-level entry on a message. A value of the wrong type
/// leaves the field as it was, but for `id` and `comment`, which it clears;
/// lists grow by what each entry holds.
pub open spec fn message_step(m: CanMessageView, e: (Node, Node)) -> CanMessageView {
    let v = e.1;
    match e.0 {
        Node::Text(k) => if k@ == "id"@ {
            CanMessageView { id: id_of(v), ..m }
        } else if k@ == "name"@ {
            if v is Text { CanMessageView { name: text_of(v), ..m } } else { m }
        } else if k@ == "alt_names"@ {
            match v {
                Node::Array(a) => if texts_of(a@).len() > 0 {
                    CanMessageView { alt_names: Some(texts_of(a@)), ..m }
                } else {
                    m
                },
                _ => m,
            }
        } else if k@ == "length"@ {
            match v {
                Node::Integer(i) => CanMessageView { length: Some(i), ..m },
                _ => m,
            }
        } else if k@ == "comment"@ {
            CanMessageView { comment: translation_of(v), ..m }
        } else if k@ == "type"@ {
            if v is Text { CanMessageView { bus_type: text_of(v), ..m } } else { m }
        } else if k@ == "periodicity"@ {
            if period_of(v) is Some { CanMessageView { periodicity: period_of(v), ..m } } else { m }
        } else if k@ == "senders"@ {
            match v {
                Node::Array(a) => CanMessageView { senders: m.senders + texts_of(a@), ..m },
                _ => m,
            }
        } else if k@ == "receivers"@ {
            match v {
                Node::Array(a) => CanMessageView { receivers: m.receivers + texts_of(a@), ..m },
                _ => m,
            }
        } else if k@ == "signals"@ {
            match v {
                Node::Hash(h) => CanMessageView { signals: m.signals + named_signals(h@), ..m },
                _ => m,
            }
        } else {
            m
        },
        _ => m,
    }
}

/// The diagnostics that one top-level entry raises.
pub open spec fn message_entry_diags(e: (Node, Node)) -> Seq<(DiagnosticKind, Seq<char>)> {
    let v = e.1;
    match e.0 {
        Node::Text(k) => {
            let wrong = seq![(DiagnosticKind::WrongType, k@)];
            if k@ == "id"@ {
                if id_of(v) is Some { seq![] } else { wrong }
            } else if k@ == "name"@ {
                if v is Text { seq![] } else { wrong }
            } else if k@ == "alt_names"@ {
                if v is Array { seq![] } else { wrong }
            } else if k@ == "length"@ {
                if v is Integer { seq![] } else { wrong }
            } else if k@ == "comment"@ {
                translation_diags(v)
            } else if k@ == "type"@ {
                if v is Text { seq![] } else { wrong }
            } else if k@ == "periodicity"@ {
                match v {
                    Node::Integer(_) => seq![],
                    Node::Text(t) => if period_of(v) is Some {
                        seq![]
                    } else {
                        seq![(DiagnosticKind::UnparsablePeriodicity, t@)]
                    },
                    _ => wrong,
                }
            } else if k@ == "senders"@ || k@ == "receivers"@ {
                if v is Array { seq![] } else { wrong }
            } else if k@ == "signals"@ {
                match v {
                    Node::Hash(h) => named_signals_diags(h@),
                    _ => wrong,
                }
            } else {
                seq![(DiagnosticKind::UnknownMessageParameter, k@)]
            }
        },
        _ => seq![(DiagnosticKind::WrongKeyType, "message"@)],
    }
}

/// The message that the entries of a top-level mapping describe.
pub open spec fn message_of(entries: Seq<(Node, Node)>) -> CanMessageView {
    entries.fold_left(empty_message(), |m: CanMessageView, e: (Node, Node)| message_step(m, e))
}

/// The diagnostics that decoding the entries of a top-level mapping raises.
pub open spec fn message_diags(entries: Seq<(Node, Node)>) -> Seq<(DiagnosticKind, Seq<char>)> {
    entries.fold_left(seq![], |d: Seq<(DiagnosticKind, Seq<char>)>, e: (Node, Node)| d + message_entry_diags(e))
}

/// The entries of the top-level mapping of the first document in a text, if
/// the text is well-formed YAML and that document is a mapping.
pub open spec fn document_entries(text: Seq<char>) -> Option<Seq<(Node, Node)>> {
    match yaml_load(text) {
        Some(docs) => if docs.len() > 0 {
            match docs[0] {
                Node::Hash(h) => Some(h@),
                _ => None,
            }
        } else {
            None
        },
        None => None,
    }
}

/// Reads a periodicity from a node.
pub fn periodicity(v: &Node) -> (r: Option<i64>)
    ensures
        r == period_of(*v),
{
    match v {
        Node::Integer(i) => Some(*i),
        Node::Text(t) => {
            proof {
                reveal_strlit(" ms");
                reveal_strlit("ms");
            }
            if same_text(t.as_str(), "trigger") {
                Some(-1i64)
            } else if ends_with(t.as_str(), " ms") {
                let digits = trim_end(t.as_str(), " ms");
                parse_i64(digits.as_str())
            } else if ends_with(t.as_str(), "ms") {
                let digits = trim_end(t.as_str(), "ms");
                parse_i64(digits.as_str())
            } else {
                None
            }
        },
        _ => None,
    }
}

/// Appends the named signals of a `signals` mapping.
fn decode_signals(
    entries: &Vec<(Node, Node)>,
    signals: &mut Vec<(String, Signal)>,
    diags: &mut Vec<Diagnostic>,
)
    ensures
        signal_views(final(signals)@) == signal_views(old(signals)@) + named_signals(entries@),
        diag_views(final(diags)@) == diag_views(old(diags)@) + named_signals_diags(entries@),
{
    let mut i: usize = 0;
    while i < entries.len()
        invariant
            i <= entries@.len(),
            signal_views(signals@) == signal_views(old(signals)@) + named_signals(entries@.take(i as int)),
            diag_views(diags@) == diag_views(old(diags)@) + named_signals_diags(entries@.take(i as int)),
        decreases entries@.len() - i,
    {
        let ghost sbefore = signal_views(signals@);
        let ghost dbefore = diag_views(diags@);
        let (k, v) = &entries[i];
        match k {
            Node::Text(name) => {
                let s = Signal::from_yaml(v, diags);
                signals.push((name.clone(), s));
            },
            _ => report(diags, DiagnosticKind::WrongKeyType, "signals"),
        }
        assert(entries@.take(i + 1).drop_last() =~= entries@.take(i as int));
        assert(signal_views(signals@) =~= (match entries@[i as int].0 {
            Node::Text(name) => sbefore.push((name@, signal_of(entries@[i as int].1))),
            _ => sbefore,
        }));
        assert(diag_views(diags@) =~= dbefore + named_signal_diags(entries@[i as int]));
        i = i + 1;
    }
    assert(entries@.take(entries@.len() as int) =~= entries@);
}

} // verus!

verus! {

impl CanMessage {
    /// A message with every field absent and every list empty.
    pub fn new() -> (r: CanMessage)
        ensures
            r@ == empty_message(),
    {
        let r = CanMessage {
            id: None,
            name: None,
            alt_names: None,
            length: None,
            comment: None,
            bus_type: None,
            periodicity: None,
            senders: Vec::new(),
            receivers: Vec::new(),
            signals: Vec::new(),
        };
        assert(r@.senders =~= seq![]);
        assert(r@.receivers =~= seq![]);
        assert(r@.signals =~= seq![]);
        r
    }

    /// Applies one top-level entry to the message.
    fn apply(&mut self, k: &Node, v: &Node, diags: &mut Vec<Diagnostic>)
        ensures
            final(self)@ == message_step(old(self)@, (*k, *v)),
            diag_views(final(diags)@) == diag_views(old(diags)@) + message_entry_diags((*k, *v)),
    {
        let ghost d0 = diag_views(diags@);
        let key = match k {
            Node::Text(key) => key.as_str(),
            _ => {
                report(diags, DiagnosticKind::WrongKeyType, "message");
                return;
            },
        };
        if same_text(key, "id") {
            self.id = match v {
                Node::Text(t) => Some(t.clone()),
                Node::Integer(i) => Some(hex_id(*i)),
                _ => {
                    report(diags, DiagnosticKind::WrongType, key);
                    None
                },
            };
        } else if same_text(key, "name") {
            match v {
                Node::Text(t) => self.name = Some(t.clone()),
                _ => report(diags, DiagnosticKind::WrongType, key),
            }
        } else if same_text(key, "alt_names") {
            match v {
                Node::Array(a) => {
                    let mut names: Vec<String> = Vec::new();
                    collect_texts(a, &mut names);
                    assert(text_views(names@) =~= texts_of(a@));
                    if names.len() > 0 {
                        self.alt_names = Some(names);
                    }
                },
                _ => report(diags, DiagnosticKind::WrongType, key),
            }
        } else if same_text(key, "length") {
            match v {
                Node::Integer(i) => self.length = Some(*i),
                _ => report(diags, DiagnosticKind::WrongType, key),
            }
        } else if same_text(key, "comment") {
            self.comment = Translation::from_yaml(v, diags);
        } else if same_text(key, "type") {
            match v {
                Node::Text(t) => self.bus_type = Some(t.clone()),
                _ => report(diags, DiagnosticKind::WrongType, key),
            }
        } else if same_text(key, "periodicity") {
            let p = periodicity(v);
            if p.is_some() {
                self.periodicity = p;
            } else {
                match v {
                    Node::Text(t) => report(diags, DiagnosticKind::UnparsablePeriodicity, t.as_str()),
                    _ => report(diags, DiagnosticKind::WrongType, key),
                }
            }
        } else if same_text(key, "senders") {
            match v {
                Node::Array(a) => collect_texts(a, &mut self.senders),
                _ => report(diags, DiagnosticKind::WrongType, key),
            }
        } else if same_text(key, "receivers") {
            match v {
                Node::Array(a) => collect_texts(a, &mut self.receivers),
                _ => report(diags, DiagnosticKind::WrongType, key),
            }
        } else if same_text(key, "signals") {
            match v {
                Node::Hash(h) => decode_signals(h, &mut self.signals, diags),
                _ => report(diags, DiagnosticKind::WrongType, key),
            }
        } else {
            report(diags, DiagnosticKind::UnknownMessageParameter, key);
        }
        assert(diag_views(diags@) =~= d0 + message_entry_diags((*k, *v)));
    }

    /// Decodes a message from the entries of a top-level mapping, reporting
    /// every field it cannot use; it never fails.
    pub fn from_entries(entries: &Vec<(Node, Node)>, diags: &mut Vec<Diagnostic>) -> (r: CanMessage)
        ensures
            r@ == message_of(entries@),
            diag_views(final(diags)@) == diag_views(old(diags)@) + message_diags(entries@),
    {
        let mut m = CanMessage::new();
        let mut i: usize = 0;
        while i < entries.len()
            invariant
                i <= entries@.len(),
                m@ == message_of(entries@.take(i as int)),
                diag_views(diags@) == diag_views(old(diags)@) + message_diags(entries@.take(i as int)),
            decreases entries@.len() - i,
        {
            let ghost d0 = diag_views(diags@);
            let (k, v) = &entries[i];
            m.apply(k, v, diags);
            assert(entries@.take(i + 1).drop_last() =~= entries@.take(i as int));
            assert(diag_views(diags@) =~= d0 + message_entry_diags(entries@[i as int]));
            i = i + 1;
        }
        assert(entries@.take(entries@.len() as int) =~= entries@);
        m
    }

    /// Decodes one message from the text of a YAML document. It fails, with a
    /// syntax error, exactly where the text is not well-formed YAML or its
    /// first document is not a mapping; otherwise the message and the
    /// diagnostics are those of that mapping's entries.
    pub fn from_yaml_str(text: &str, diags: &mut Vec<Diagnostic>) -> (r: Result<CanMessage, DecodeError>)
        ensures
            match document_entries(text@) {
                Some(entries) => {
                    &&& r matches Ok(m) && m@ == message_of(entries)
                    &&& diag_views(final(diags)@) == diag_views(old(diags)@) + message_diags(entries)
                },
                None => {
                    &&& r matches Err(DecodeError::Syntax(_))
                    &&& final(diags)@ == old(diags)@
                },
            },
    {
        match load_documents(text) {
            Err(e) => Err(DecodeError::Syntax(scan_error_text(&e))),
            Ok(docs) => {
                if docs.len() == 0 {
                    Err(DecodeError::Syntax(String::from_str("the text holds no document")))
                } else {
                    match &docs[0] {
                        Node::Hash(h) => Ok(CanMessage::from_entries(h, diags)),
                        _ => Err(DecodeError::Syntax(String::from_str("the document is not a mapping"))),
                    }
                }
            },
        }
    }
}

} // verus!

verus! {

/// The keys that a message document may hold at its top level.
pub open spec fn is_message_key(k: Seq<char>) -> bool {
    k == "id"@ || k == "name"@ || k == "alt_names"@ || k == "length"@ || k == "comment"@ || k
        == "type"@ || k == "periodicity"@ || k == "senders"@ || k == "receivers"@ || k
        == "signals"@
}

proof fn lemma_message_diags_concat(a: Seq<(Node, Node)>, b: Seq<(Node, Node)>)
    ensures
        message_diags(a + b) == message_diags(a) + message_diags(b),
    decreases b.len(),
{
    if b.len() == 0 {
        assert(a + b =~= a);
        assert(message_diags(a) + message_diags(b) =~= message_diags(a));
    } else {
        assert((a + b).drop_last() =~= a + b.drop_last());
        assert((a + b).last() == b.last());
        lemma_message_diags_concat(a, b.drop_last());
        assert(message_diags(a + b) =~= message_diags(a) + message_diags(b));
    }
}

proof fn lemma_skip_entry(pre: Seq<(Node, Node)>, e: (Node, Node), post: Seq<(Node, Node)>)
    requires
        forall|m: CanMessageView| message_step(m, e) == m,
    ensures
        message_of(pre.push(e) + post) == message_of(pre + post),
    decreases post.len(),
{
    if post.len() == 0 {
        assert(pre.push(e) + post =~= pre.push(e));
        assert(pre + post =~= pre);
        assert(pre.push(e).drop_last() =~= pre);
    } else {
        assert((pre.push(e) + post).drop_last() =~= pre.push(e) + post.drop_last());
        assert((pre + post).drop_last() =~= pre + post.drop_last());
        assert((pre.push(e) + post).last() == post.last());
        assert((pre + post).last() == post.last());
        lemma_skip_entry(pre, e, post.drop_last());
    }
}

/// A top-level key outside the message schema, wherever it stands among
/// otherwise valid entries, raises exactly one diagnostic, which names it,
/// and leaves every decoded field as it would be without it.
pub proof fn lemma_unknown_key_is_isolated(
    pre: Seq<(Node, Node)>,
    key: String,
    value: Node,
    post: Seq<(Node, Node)>,
)
    requires
        !is_message_key(key@),
    ensures
        message_of(pre + seq![(Node::Text(key), value)] + post) == message_of(pre + post),
        message_diags(pre + seq![(Node::Text(key), value)] + post) == message_diags(pre) + seq![
            (DiagnosticKind::UnknownMessageParameter, key@),
        ] + message_diags(post),
{
    let e = (Node::Text(key), value);
    assert(pre + seq![e] =~= pre.push(e));
    lemma_skip_entry(pre, e, post);
    lemma_message_diags_concat(pre.push(e), post);
    lemma_message_diags_concat(pre, seq![e]);
    assert(seq![e].drop_last() =~= Seq::<(Node, Node)>::empty());
    assert(message_entry_diags(e) == seq![(DiagnosticKind::UnknownMessageParameter, key@)]);
    assert(message_diags(seq![e]) == message_diags(seq![e].drop_last()) + message_entry_diags(e));
    assert(message_diags(seq![e]) =~= seq![(DiagnosticKind::UnknownMessageParameter, key@)]);
}

} // verus!
