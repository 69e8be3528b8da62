use vstd::prelude::*;

use crate::diag::{diag_views, report, Diagnostic, DiagnosticKind};
use crate::node::Node;
use crate::text::same_text;
use crate::translation::{opt_translation, translation_diags, translation_of, Translation, TranslationView};

verus! {

/// A number as the document wrote it: an integer, or the text of a real.
#[derive(Clone, Debug)]
pub enum Number {
    Integer(i64),
    Real(String),
}

pub enum NumberView {
    Integer(i64),
    Real(Seq<char>),
}

impl View for Number {
    type V = NumberView;

    open spec fn view(&self) -> NumberView {
        match self {
            Number::Integer(i) => NumberView::Integer(*i),
            Number::Real(s) => NumberView::Real(s@),
        }
    }
}

pub open spec fn opt_number(o: Option<Number>) -> Option<NumberView> {
    match o {
        Some(n) => Some(n@),
        None => None,
    }
}

/// The number that a node holds, if it is an integer or a real.
pub open spec fn number_of(n: Node) -> Option<NumberView> {
    match n {
        Node::Integer(i) => Some(NumberView::Integer(i)),
        Node::Real(s) => Some(NumberView::Real(s@)),
        _ => None,
    }
}

pub open spec fn text_views(v: Seq<String>) -> Seq<Seq<char>> {
    v.map_values(|s: String| s@)
}

/// The texts among a list of nodes, in order; other nodes are skipped.
pub open spec fn texts_of(items: Seq<Node>) -> Seq<Seq<char>> {
    items.fold_left(
        seq![],
        |acc: Seq<Seq<char>>, n: Node|
            match n {
                Node::Text(s) => acc.push(s@),
                _ => acc,
            },
    )
}

/// Collects the texts among a list of nodes, in order.
pub fn collect_texts(items: &Vec<Node>, out: &mut Vec<String>)
    ensures
        text_views(final(out)@) == text_views(old(out)@) + texts_of(items@),
{
    let mut i: usize = 0;
    while i < items.len()
        invariant
            i <= items@.len(),
            text_views(out@) == text_views(old(out)@) + texts_of(items@.take(i as int)),
        decreases items@.len() - i,
    {
        let ghost before = text_views(out@);
        if let Node::Text(s) = &items[i] {
            out.push(s.clone());
        }
        assert(items@.take(i + 1).drop_last() =~= items@.take(i as int));
        assert(text_views(out@) =~= (match items@[i as int] {
            Node::Text(s) => before.push(s@),
            _ => before,
        }));
        i = i + 1;
    }
    assert(items@.take(items@.len() as int) =~= items@);
}

fn number(node: &Node) -> (r: Option<Number>)
    ensures
        opt_number(r) == number_of(*node),
{
    match node {
        Node::Integer(i) => Some(Number::Integer(*i)),
        Node::Real(s) => Some(Number::Real(s.clone())),
        _ => None,
    }
}

pub open spec fn value_views(v: Seq<(i64, Option<Translation>)>) -> Seq<(i64, Option<TranslationView>)> {
    v.map_values(|p: (i64, Option<Translation>)| (p.0, opt_translation(p.1)))
}

/// The enumeration entries of a `values` mapping, in source order: one for
/// each integer key.
pub open spec fn codes_of(entries: Seq<(Node, Node)>) -> Seq<(i64, Option<TranslationView>)> {
    entries.fold_left(
        seq![],
        |acc: Seq<(i64, Option<TranslationView>)>, e: (Node, Node)|
            match e.0 {
                Node::Integer(c) => acc.push((c, translation_of(e.1))),
                _ => acc,
            },
    )
}

pub open spec fn code_entry_diags(e: (Node, Node)) -> Seq<(DiagnosticKind, Seq<char>)> {
    match e.0 {
        Node::Integer(_) => translation_diags(e.1),
        _ => seq![(DiagnosticKind::WrongKeyType, "values"@)],
    }
}

pub open spec fn codes_diags(entries: Seq<(Node, Node)>) -> Seq<(DiagnosticKind, Seq<char>)> {
    entries.fold_left(seq![], |d: Seq<(DiagnosticKind, Seq<char>)>, e: (Node, Node)| d + code_entry_diags(e))
}

/// Appends the enumeration entries of a `values` mapping.
fn decode_values(
    entries: &Vec<(Node, Node)>,
    values: &mut Vec<(i64, Option<Translation>)>,
    diags: &mut Vec<Diagnostic>,
)
    ensures
        value_views(final(values)@) == value_views(old(values)@) + codes_of(entries@),
        diag_views(final(diags)@) == diag_views(old(diags)@) + codes_diags(entries@),
{
    let mut i: usize = 0;
    while i < entries.len()
        invariant
            i <= entries@.len(),
            value_views(values@) == value_views(old(values)@) + codes_of(entries@.take(i as int)),
            diag_views(diags@) == diag_views(old(diags)@) + codes_diags(entries@.take(i as int)),
        decreases entries@.len() - i,
    {
        let ghost vbefore = value_views(values@);
        let ghost dbefore = diag_views(diags@);
        let (k, v) = &entries[i];
        match k {
            Node::Integer(c) => {
                let t = Translation::from_yaml(v, diags);
                values.push((*c, t));
            },
            _ => report(diags, DiagnosticKind::WrongKeyType, "values"),
        }
        assert(entries@.take(i + 1).drop_last() =~= entries@.take(i as int));
        assert(value_views(values@) =~= (match entries@[i as int].0 {
            Node::Integer(c) => vbefore.push((c, translation_of(entries@[i as int].1))),
            _ => vbefore,
        }));
        assert(diag_views(diags@) =~= dbefore + code_entry_diags(entries@[i as int]));
        i = i + 1;
    }
    assert(entries@.take(entries@.len() as int) =~= entries@);
}

} // verus!

verus! {

/// One named bit-field of a message.
#[derive(Clone, Debug)]
pub struct Signal {
    pub alt_names: Option<Vec<String>>,
    pub bits: Option<String>,
    pub data_type: Option<String>,
    pub signed: Option<bool>,
    pub factor: Option<Number>,
    pub offset: Option<Number>,
    pub min: Option<Number>,
    pub max: Option<Number>,
    pub units: Option<String>,
    pub comment: Option<Translation>,
    pub values: Vec<(i64, Option<Translation>)>,
    pub unused: Option<bool>,
}

pub struct SignalView {
    pub alt_names: Option<Seq<Seq<char>>>,
    pub bits: Option<Seq<char>>,
    pub data_type: Option<Seq<char>>,
    pub signed: Option<bool>,
    pub factor: Option<NumberView>,
    pub offset: Option<NumberView>,
    pub min: Option<NumberView>,
    pub max: Option<NumberView>,
    pub units: Option<Seq<char>>,
    pub comment: Option<TranslationView>,
    pub values: Seq<(i64, Option<TranslationView>)>,
    pub unused: Option<bool>,
}

pub open spec fn opt_texts(o: Option<Vec<String>>) -> Option<Seq<Seq<char>>> {
    match o {
        Some(v) => Some(text_views(v@)),
        None => None,
    }
}

impl View for Signal {
    type V = SignalView;

    open spec fn view(&self) -> SignalView {
        SignalView {
            alt_names: opt_texts(self.alt_names),
            bits: crate::translation::opt_text(self.bits),
            data_type: crate::translation::opt_text(self.data_type),
            signed: self.signed,
            factor: opt_number(self.factor),
            offset: opt_number(self.offset),
            min: opt_number(self.min),
            max: opt_number(self.max),
            units: crate::translation::opt_text(self.units),
            comment: opt_translation(self.comment),
            values: value_views(self.values@),
            unused: self.unused,
        }
    }
}

/// A signal with every field absent.
pub open spec fn empty_signal() -> SignalView {
    SignalView {
        alt_names: None,
        bits: None,
        data_type: None,
        signed: None,
        factor: None,
        offset: None,
        min: None,
        max: None,
        units: None,
        comment: None,
        values: seq![],
        unused: None,
    }
}

/// The text a node holds, if it is text.
pub open spec fn text_of(n: Node) -> Option<Seq<char>> {
    match n {
        Node::Text(s) => Some(s@),
        _ => None,
    }
}

/// The flag a node holds, if it is a boolean.
pub open spec fn flag_of(n: Node) -> Option<bool> {
    match n {
        Node::Boolean(b) => Some(b),
        _ => None,
    }
}

/// The effect of one mapping entry on a signal. A value of the wrong type
/// leaves the field as it was, but for the numbers and the comment, which it
/// clears.
pub open spec fn signal_step(s: SignalView, e: (Node, Node)) -> SignalView {
    let v = e.1;
    match e.0 {
        Node::Text(k) => if k@ == "alt_names"@ {
            match v {
                Node::Array(a) => if texts_of(a@).len() > 0 {
                    SignalView { alt_names: Some(texts_of(a@)), ..s }
                } else {
                    s
                },
                _ => s,
            }
        } else if k@ == "bits"@ {
            if v is Text { SignalView { bits: text_of(v), ..s } } else { s }
        } else if k@ == "type"@ {
            if v is Text { SignalView { data_type: text_of(v), ..s } } else { s }
        } else if k@ == "signed"@ {
            if v is Boolean { SignalView { signed: flag_of(v), ..s } } else { s }
        } else if k@ == "factor"@ {
            SignalView { factor: number_of(v), ..s }
        } else if k@ == "offset"@ {
            SignalView { offset: number_of(v), ..s }
        } else if k@ == "min"@ {
            SignalView { min: number_of(v), ..s }
        } else if k@ == "max"@ {
            SignalView { max: number_of(v), ..s }
        } else if k@ == "units"@ {
            if v is Text { SignalView { units: text_of(v), ..s } } else { s }
        } else if k@ == "comment"@ {
            SignalView { comment: translation_of(v), ..s }
        } else if k@ == "values"@ {
            match v {
                Node::Hash(h) => SignalView { values: s.values + codes_of(h@), ..s },
                _ => s,
            }
        } else if k@ == "unused"@ {
            if v is Boolean { SignalView { unused: flag_of(v), ..s } } else { s }
        } else {
            s
        },
        _ => s,
    }
}

/// The diagnostics that one mapping entry of a signal raises.
pub open spec fn signal_entry_diags(e: (Node, Node)) -> Seq<(DiagnosticKind, Seq<char>)> {
    let v = e.1;
    match e.0 {
        Node::Text(k) => {
            let wrong = seq![(DiagnosticKind::WrongType, k@)];
            if k@ == "alt_names"@ {
                if v is Array { seq![] } else { wrong }
            } else if k@ == "bits"@ || k@ == "type"@ {
                if v is Text { seq![] } else { wrong }
            } else if k@ == "signed"@ {
                if v is Boolean { seq![] } else { wrong }
            } else if k@ == "factor"@ || k@ == "offset"@ || k@ == "min"@ || k@ == "max"@ {
                if number_of(v) is Some { seq![] } else { wrong }
            } else if k@ == "units"@ {
                if v is Text { seq![] } else { wrong }
            } else if k@ == "comment"@ {
                translation_diags(v)
            } else if k@ == "values"@ {
                match v {
                    Node::Hash(h) => codes_diags(h@),
                    _ => wrong,
                }
            } else if k@ == "unused"@ {
                if v is Boolean { seq![] } else { wrong }
            } else {
                seq![(DiagnosticKind::UnknownSignalParameter, k@)]
            }
        },
        _ => seq![(DiagnosticKind::WrongKeyType, "signal"@)],
    }
}

pub open spec fn signal_fold(entries: Seq<(Node, Node)>) -> SignalView {
    entries.fold_left(empty_signal(), |s: SignalView, e: (Node, Node)| signal_step(s, e))
}

pub open spec fn signal_fold_diags(entries: Seq<(Node, Node)>) -> Seq<(DiagnosticKind, Seq<char>)> {
    entries.fold_left(seq![], |d: Seq<(DiagnosticKind, Seq<char>)>, e: (Node, Node)| d + signal_entry_diags(e))
}

/// The signal that a node describes; a node that is no mapping gives a signal
/// with every field absent.
pub open spec fn signal_of(n: Node) -> SignalView {
    match n {
        Node::Hash(h) => signal_fold(h@),
        _ => empty_signal(),
    }
}

/// The diagnostics that decoding a node as a signal raises.
pub open spec fn signal_diags(n: Node) -> Seq<(DiagnosticKind, Seq<char>)> {
    match n {
        Node::Hash(h) => signal_fold_diags(h@),
        _ => seq![],
    }
}

impl Signal {
    /// A signal with every field absent.
    pub fn new() -> (r: Signal)
        ensures
            r@ == empty_signal(),
    {
        let r = Signal {
            alt_names: None,
            bits: None,
            data_type: None,
            signed: None,
            factor: None,
            offset: None,
            min: None,
            max: None,
            units: None,
            comment: None,
            values: Vec::new(),
            unused: None,
        };
        assert(r@.values =~= seq![]);
        r
    }

    /// Applies one mapping entry to the signal.
    fn apply(&mut self, k: &Node, v: &Node, diags: &mut Vec<Diagnostic>)
        ensures
            final(self)@ == signal_step(old(self)@, (*k, *v)),
            diag_views(final(diags)@) == diag_views(old(diags)@) + signal_entry_diags((*k, *v)),
    {
        let ghost d0 = diag_views(diags@);
        let key = match k {
            Node::Text(key) => key.as_str(),
            _ => {
                report(diags, DiagnosticKind::WrongKeyType, "signal");
                return;
            },
        };
        if same_text(key, "alt_names") {
            match v {
                Node::Array(a) => {
                    let mut names: Vec<String> = Vec::new();
                    collect_texts(a, &mut names);
                    assert(text_views(names@) =~= texts_of(a@));
                    if names.len() > 0 {
                        self.alt_names = Some(names);
                    }
                },
                _ => report(diags, DiagnosticKind::WrongType, key),
            }
        } else if same_text(key, "bits") {
            match v {
                Node::Text(t) => self.bits = Some(t.clone()),
                _ => report(diags, DiagnosticKind::WrongType, key),
            }
        } else if same_text(key, "type") {
            match v {
                Node::Text(t) => self.data_type = Some(t.clone()),
                _ => report(diags, DiagnosticKind::WrongType, key),
            }
        } else if same_text(key, "signed") {
            match v {
                Node::Boolean(b) => self.signed = Some(*b),
                _ => report(diags, DiagnosticKind::WrongType, key),
            }
        } else if same_text(key, "factor") || same_text(key, "offset") || same_text(key, "min")
            || same_text(key, "max") {
            let n = number(v);
            if n.is_none() {
                report(diags, DiagnosticKind::WrongType, key);
            }
            if same_text(key, "factor") {
                self.factor = n;
            } else if same_text(key, "offset") {
                self.offset = n;
            } else if same_text(key, "min") {
                self.min = n;
            } else {
                self.max = n;
            }
        } else if same_text(key, "units") {
            match v {
                Node::Text(t) => self.units = Some(t.clone()),
                _ => report(diags, DiagnosticKind::WrongType, key),
            }
        } else if same_text(key, "comment") {
            self.comment = Translation::from_yaml(v, diags);
        } else if same_text(key, "values") {
            match v {
                Node::Hash(h) => decode_values(h, &mut self.values, diags),
                _ => report(diags, DiagnosticKind::WrongType, key),
            }
        } else if same_text(key, "unused") {
            match v {
                Node::Boolean(b) => self.unused = Some(*b),
                _ => report(diags, DiagnosticKind::WrongType, key),
            }
        } else {
            report(diags, DiagnosticKind::UnknownSignalParameter, key);
        }
        assert(diag_views(diags@) =~= d0 + signal_entry_diags((*k, *v)));
    }

    /// Decodes one signal entry, reporting every field it cannot use; it never
    /// fails.
    pub fn from_yaml(node: &Node, diags: &mut Vec<Diagnostic>) -> (r: Signal)
        ensures
            r@ == signal_of(*node),
            diag_views(final(diags)@) == diag_views(old(diags)@) + signal_diags(*node),
    {
        let mut s = Signal::new();
        if let Node::Hash(h) = node {
            let mut i: usize = 0;
            while i < h.len()
                invariant
                    i <= h@.len(),
                    s@ == signal_fold(h@.take(i as int)),
                    diag_views(diags@) == diag_views(old(diags)@) + signal_fold_diags(h@.take(i as int)),
                decreases h@.len() - i,
            {
                let ghost d0 = diag_views(diags@);
                let (k, v) = &h[i];
                s.apply(k, v, diags);
                assert(h@.take(i + 1).drop_last() =~= h@.take(i as int));
                assert(diag_views(diags@) =~= d0 + signal_entry_diags(h@[i as int]));
                i = i + 1;
            }
            assert(h@.take(h@.len() as int) =~= h@);
        } else {
            assert(diag_views(diags@) =~= diag_views(old(diags)@) + signal_diags(*node));
        }
        s
    }
}

} // verus!
