use vstd::prelude::*;

use crate::diag::{diag_views, Diagnostic, DiagnosticKind};
use crate::message::{document_entries, message_diags, message_of, CanMessage, CanMessageView, DecodeError};
use crate::text::same_text;
use crate::translation::opt_text;

verus! {

/// `a` comes strictly before `b` in lexicographic order of characters, which
/// is the order of their UTF-8 bytes.
pub open spec fn text_lt(a: Seq<char>, b: Seq<char>) -> bool
    decreases a.len(),
{
    if a.len() == 0 {
        b.len() > 0
    } else if b.len() == 0 {
        false
    } else if a[0] != b[0] {
        a[0] < b[0]
    } else {
        text_lt(a.drop_first(), b.drop_first())
    }
}

/// The order of identifiers: an absent one first, then by text.
pub open spec fn id_lt(a: Option<Seq<char>>, b: Option<Seq<char>>) -> bool {
    match (a, b) {
        (None, Some(_)) => true,
        (Some(x), Some(y)) => text_lt(x, y),
        _ => false,
    }
}

/// Inserts `x` into `s` after every message whose identifier is not above its own.
pub open spec fn insert_by_id(x: CanMessageView, s: Seq<CanMessageView>) -> Seq<CanMessageView>
    decreases s.len(),
{
    if s.len() == 0 {
        seq![x]
    } else if id_lt(x.id, s[0].id) {
        seq![x] + s
    } else {
        seq![s[0]] + insert_by_id(x, s.drop_first())
    }
}

/// The messages in ascending order of identifier text; messages with equal
/// identifiers keep their relative order.
pub open spec fn sort_by_id(s: Seq<CanMessageView>) -> Seq<CanMessageView>
    decreases s.len(),
{
    if s.len() == 0 {
        seq![]
    } else {
        insert_by_id(s.last(), sort_by_id(s.drop_last()))
    }
}

pub open spec fn message_views(v: Seq<CanMessage>) -> Seq<CanMessageView> {
    v.map_values(|m: CanMessage| m@)
}

/// Whether a file with this extension holds a message definition.
pub fn is_message_file(extension: &str) -> (r: bool)
    ensures
        r == (extension@ == "yml"@ || extension@ == "yaml"@),
{
    same_text(extension, "yml") || same_text(extension, "yaml")
}

/// Whether `a` comes strictly before `b` in lexicographic order.
pub fn text_before(a: &str, b: &str) -> (r: bool)
    ensures
        r == text_lt(a@, b@),
{
    let n = a.unicode_len();
    let m = b.unicode_len();
    let mut i: usize = 0;
    assert(a@.skip(0) =~= a@);
    assert(b@.skip(0) =~= b@);
    while i < n && i < m
        invariant
            n == a@.len(),
            m == b@.len(),
            i <= n,
            i <= m,
            text_lt(a@, b@) == text_lt(a@.skip(i as int), b@.skip(i as int)),
        decreases n - i,
    {
        let x = a.get_char(i);
        let y = b.get_char(i);
        assert(a@.skip(i as int)[0] == x);
        assert(b@.skip(i as int)[0] == y);
        if x != y {
            return x < y;
        }
        assert(a@.skip(i as int).drop_first() =~= a@.skip(i + 1));
        assert(b@.skip(i as int).drop_first() =~= b@.skip(i + 1));
        i = i + 1;
    }
    n - i == 0 && m - i > 0
}

/// Whether identifier `a` comes strictly before identifier `b`.
pub fn id_before(a: &Option<String>, b: &Option<String>) -> (r: bool)
    ensures
        r == id_lt(opt_text(*a), opt_text(*b)),
{
    match (a, b) {
        (None, Some(_)) => true,
        (Some(x), Some(y)) => text_before(x.as_str(), y.as_str()),
        _ => false,
    }
}

proof fn lemma_insert_at(x: CanMessageView, s: Seq<CanMessageView>, p: int)
    requires
        0 <= p <= s.len(),
        forall|j: int| 0 <= j < p ==> !id_lt(x.id, #[trigger] s[j].id),
        p < s.len() ==> id_lt(x.id, s[p].id),
    ensures
        insert_by_id(x, s) == s.insert(p, x),
    decreases p,
{
    if p == 0 {
        if s.len() == 0 {
            assert(s.insert(0, x) =~= seq![x]);
        } else {
            assert(s.insert(0, x) =~= seq![x] + s);
        }
    } else {
        assert(!id_lt(x.id, s[0].id));
        let t = s.drop_first();
        assert forall|j: int| 0 <= j < p - 1 implies !id_lt(x.id, #[trigger] t[j].id) by {
            assert(t[j] == s[j + 1]);
        }
        lemma_insert_at(x, t, p - 1);
        assert(seq![s[0]] + t.insert(p - 1, x) =~= s.insert(p, x));
    }
}

/// Sorts messages by identifier text, ascending, keeping the relative order
/// of messages with equal identifiers.
pub fn sort_messages(messages: Vec<CanMessage>) -> (r: Vec<CanMessage>)
    ensures
        message_views(r@) == sort_by_id(message_views(messages@)),
{
    let ghost input = message_views(messages@);
    let mut rest = messages;
    let mut sorted: Vec<CanMessage> = Vec::new();
    let ghost k: int = 0;
    while rest.len() > 0
        invariant
            0 <= k <= input.len(),
            message_views(rest@) == input.skip(k),
            rest@.len() == input.len() - k,
            message_views(sorted@) == sort_by_id(input.take(k)),
        decreases rest@.len(),
    {
        let ghost s = message_views(sorted@);
        let ghost before = rest@;
        assert(message_views(before)[0] == input.skip(k)[0]);
        let m = rest.remove(0);
        assert(m@ == input[k]);
        let mut p: usize = 0;
        while p < sorted.len() && !id_before(&m.id, &sorted[p].id)
            invariant
                p <= sorted@.len(),
                s == message_views(sorted@),
                forall|j: int| 0 <= j < p ==> !id_lt(m@.id, #[trigger] s[j].id),
            decreases sorted@.len() - p,
        {
            p = p + 1;
        }
        proof {
            lemma_insert_at(m@, s, p as int);
            assert(input.take(k + 1).drop_last() =~= input.take(k));
            assert(input.take(k + 1).last() == m@);
        }
        sorted.insert(p, m);
        assert(message_views(sorted@) =~= s.insert(p as int, m@));
        assert forall|j: int| 0 <= j < rest@.len() implies message_views(rest@)[j] == input.skip(k + 1)[j] by {
            assert(rest@[j] == before[j + 1]);
            assert(message_views(before)[j + 1] == input.skip(k)[j + 1]);
        }
        assert(message_views(rest@) =~= input.skip(k + 1));
        proof {
            k = k + 1;
        }
    }
    assert(input.take(k) =~= input);
    sorted
}

} // verus!

verus! {

/// Every text is a YAML document whose top level is a mapping.
pub open spec fn all_documents(texts: Seq<String>) -> bool {
    forall|i: int| 0 <= i < texts.len() ==> (#[trigger] document_entries(texts[i]@)) is Some
}

/// The messages that the texts describe, in the order of the texts.
pub open spec fn decoded_views(texts: Seq<String>) -> Seq<CanMessageView> {
    texts.map_values(|t: String| message_of(document_entries(t@)->0))
}

/// The diagnostics that decoding the texts raises, in the order of the texts.
pub open spec fn decoded_diags(texts: Seq<String>) -> Seq<(DiagnosticKind, Seq<char>)> {
    texts.fold_left(
        seq![],
        |d: Seq<(DiagnosticKind, Seq<char>)>, t: String| d + message_diags(document_entries(t@)->0),
    )
}

/// Decodes one message from each text, in order. The first text that is not
/// a YAML mapping fails the whole call: no message is returned.
pub fn decode_messages(texts: &Vec<String>, diags: &mut Vec<Diagnostic>) -> (r: Result<Vec<CanMessage>, DecodeError>)
    ensures
        r is Ok <==> all_documents(texts@),
        r matches Ok(v) ==> message_views(v@) == decoded_views(texts@),
        r is Ok ==> diag_views(final(diags)@) == diag_views(old(diags)@) + decoded_diags(texts@),
        r matches Err(e) ==> e is Syntax,
{
    let mut out: Vec<CanMessage> = Vec::new();
    let mut i: usize = 0;
    while i < texts.len()
        invariant
            i <= texts@.len(),
            all_documents(texts@.take(i as int)),
            message_views(out@) == decoded_views(texts@.take(i as int)),
            diag_views(diags@) == diag_views(old(diags)@) + decoded_diags(texts@.take(i as int)),
        decreases texts@.len() - i,
    {
        let ghost d0 = diag_views(diags@);
        let ghost o0 = message_views(out@);
        let ghost t = texts@[i as int];
        match CanMessage::from_yaml_str(texts[i].as_str(), diags) {
            Ok(m) => {
                out.push(m);
            },
            Err(e) => {
                assert(document_entries(t@) is None);
                assert(!all_documents(texts@));
                return Err(e);
            },
        }
        assert(texts@.take(i + 1).drop_last() =~= texts@.take(i as int));
        assert(message_views(out@) =~= o0.push(message_of(document_entries(t@)->0)));
        assert(decoded_views(texts@.take(i + 1)) =~= decoded_views(texts@.take(i as int)).push(
            message_of(document_entries(t@)->0),
        ));
        assert(all_documents(texts@.take(i + 1))) by {
            assert forall|j: int| 0 <= j < i + 1 implies (#[trigger] document_entries(
                texts@.take(i + 1)[j]@,
            )) is Some by {
                if j < i {
                    assert(texts@.take(i + 1)[j] == texts@.take(i as int)[j]);
                }
            }
        }
        i = i + 1;
    }
    assert(texts@.take(texts@.len() as int) =~= texts@);
    Ok(out)
}

} // verus!

verus! {

/// Each message's identifier is not below that of the message before it.
pub open spec fn sorted_by_id(s: Seq<CanMessageView>) -> bool {
    forall|i: int| 0 <= i < s.len() - 1 ==> !id_lt(#[trigger] s[i + 1].id, s[i].id)
}

proof fn lemma_text_lt_asymmetric(a: Seq<char>, b: Seq<char>)
    ensures
        text_lt(a, b) ==> !text_lt(b, a),
    decreases a.len(),
{
    if a.len() > 0 && b.len() > 0 && a[0] == b[0] {
        lemma_text_lt_asymmetric(a.drop_first(), b.drop_first());
    }
}

proof fn lemma_id_lt_asymmetric(a: Option<Seq<char>>, b: Option<Seq<char>>)
    ensures
        id_lt(a, b) ==> !id_lt(b, a),
{
    if let (Some(x), Some(y)) = (a, b) {
        lemma_text_lt_asymmetric(x, y);
    }
}

proof fn lemma_insert_by_id(x: CanMessageView, s: Seq<CanMessageView>)
    requires
        sorted_by_id(s),
    ensures
        sorted_by_id(insert_by_id(x, s)),
        insert_by_id(x, s).to_multiset() == s.to_multiset().insert(x),
        insert_by_id(x, s).len() == s.len() + 1,
        insert_by_id(x, s)[0] == x || (s.len() > 0 && insert_by_id(x, s)[0] == s[0]),
    decreases s.len(),
{
    broadcast use vstd::multiset::group_multiset_axioms;
    broadcast use vstd::seq_lib::lemma_multiset_commutative;
    broadcast use vstd::seq_lib::to_multiset_build;

    let r = insert_by_id(x, s);
    let single = seq![x];
    if s.len() == 0 {
        assert(r == single);
        assert(single =~= s.push(x));
    } else if id_lt(x.id, s[0].id) {
        lemma_id_lt_asymmetric(x.id, s[0].id);
        assert(r == single + s);
        assert forall|i: int| 0 <= i < r.len() - 1 implies !id_lt(#[trigger] r[i + 1].id, r[i].id) by {
            if i > 0 {
                assert(r[i] == s[i - 1] && r[i + 1] == s[i]);
                assert(!id_lt(s[(i - 1) + 1].id, s[i - 1].id));
            } else {
                assert(r[0] == x && r[1] == s[0]);
            }
        }
        assert(r.to_multiset() == (s + single).to_multiset()) by {
            vstd::seq_lib::lemma_seq_union_to_multiset_commutative(single, s);
        }
        assert(s + single =~= s.push(x));
    } else {
        let t = s.drop_first();
        assert(sorted_by_id(t)) by {
            assert forall|i: int| 0 <= i < t.len() - 1 implies !id_lt(#[trigger] t[i + 1].id, t[i].id) by {
                assert(t[i] == s[i + 1] && t[i + 1] == s[i + 2]);
                assert(!id_lt(s[(i + 1) + 1].id, s[i + 1].id));
            }
        }
        lemma_insert_by_id(x, t);
        let u = insert_by_id(x, t);
        let head = seq![s[0]];
        assert(r == head + u);
        assert forall|i: int| 0 <= i < r.len() - 1 implies !id_lt(#[trigger] r[i + 1].id, r[i].id) by {
            if i > 0 {
                assert(r[i] == u[i - 1] && r[i + 1] == u[i]);
                assert(!id_lt(u[(i - 1) + 1].id, u[i - 1].id));
            } else {
                assert(r[0] == s[0] && r[1] == u[0]);
                if u[0] != x {
                    assert(u[0] == s[1]);
                    assert(!id_lt(s[0int + 1].id, s[0int].id));
                }
            }
        }
        assert(s =~= head + t);
        assert(r.to_multiset() =~= s.to_multiset().insert(x));
    }
}

/// The sort by identifier puts the messages in order, and neither loses nor
/// adds a message.
pub proof fn lemma_sort_by_id(s: Seq<CanMessageView>)
    ensures
        sorted_by_id(sort_by_id(s)),
        sort_by_id(s).to_multiset() == s.to_multiset(),
    decreases s.len(),
{
    broadcast use vstd::multiset::group_multiset_axioms;
    broadcast use vstd::seq_lib::to_multiset_build;

    if s.len() == 0 {
        assert(sort_by_id(s) =~= s);
    } else {
        lemma_sort_by_id(s.drop_last());
        lemma_insert_by_id(s.last(), sort_by_id(s.drop_last()));
        assert(s.drop_last().push(s.last()) =~= s);
    }
}

} // verus!
