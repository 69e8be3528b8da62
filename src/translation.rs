use vstd::prelude::*;

use crate::diag::{diag_views, report, Diagnostic, DiagnosticKind};
use crate::node::Node;
use crate::text::same_text;

verus! {

/// A comment in the three supported languages, each optional.
#[derive(Clone, Debug)]
pub struct Translation {
    pub en: Option<String>,
    pub fr: Option<String>,
    pub de: Option<String>,
}

pub struct TranslationView {
    pub en: Option<Seq<char>>,
    pub fr: Option<Seq<char>>,
    pub de: Option<Seq<char>>,
}

pub open spec fn opt_text(o: Option<String>) -> Option<Seq<char>> {
    match o {
        Some(s) => Some(s@),
        None => None,
    }
}

impl View for Translation {
    type V = TranslationView;

    open spec fn view(&self) -> TranslationView {
        TranslationView { en: opt_text(self.en), fr: opt_text(self.fr), de: opt_text(self.de) }
    }
}

pub open spec fn opt_translation(o: Option<Translation>) -> Option<TranslationView> {
    match o {
        Some(t) => Some(t@),
        None => None,
    }
}

pub open spec fn no_translation() -> TranslationView {
    TranslationView { en: None, fr: None, de: None }
}

/// The effect of one mapping entry on a multi-language comment.
pub open spec fn translation_step(t: TranslationView, e: (Node, Node)) -> TranslationView {
    match (e.0, e.1) {
        (Node::Text(k), Node::Text(v)) => if k@ == "en"@ {
            TranslationView { en: Some(v@), ..t }
        } else if k@ == "fr"@ {
            TranslationView { fr: Some(v@), ..t }
        } else if k@ == "de"@ {
            TranslationView { de: Some(v@), ..t }
        } else {
            t
        },
        _ => t,
    }
}

/// The diagnostics that one mapping entry of a multi-language comment raises.
pub open spec fn translation_entry_diags(e: (Node, Node)) -> Seq<(DiagnosticKind, Seq<char>)> {
    match e.0 {
        Node::Text(k) => if k@ == "en"@ || k@ == "fr"@ || k@ == "de"@ {
            if e.1 is Text {
                seq![]
            } else {
                seq![(DiagnosticKind::WrongType, k@)]
            }
        } else {
            seq![(DiagnosticKind::UnsupportedLanguage, k@)]
        },
        _ => seq![(DiagnosticKind::WrongKeyType, "translation"@)],
    }
}

/// The multi-language comment that a node describes: present exactly when it
/// is a mapping.
pub open spec fn translation_of(n: Node) -> Option<TranslationView> {
    match n {
        Node::Hash(h) => Some(h@.fold_left(no_translation(), |t, e| translation_step(t, e))),
        _ => None,
    }
}

/// The diagnostics that decoding a node as a multi-language comment raises.
pub open spec fn translation_diags(n: Node) -> Seq<(DiagnosticKind, Seq<char>)> {
    match n {
        Node::Hash(h) => h@.fold_left(seq![], |d: Seq<(DiagnosticKind, Seq<char>)>, e| d + translation_entry_diags(e)),
        _ => seq![],
    }
}

impl Translation {
    /// Decodes a multi-language comment from a node, reporting what it cannot
    /// use.
    pub fn from_yaml(node: &Node, diags: &mut Vec<Diagnostic>) -> (r: Option<Translation>)
        ensures
            opt_translation(r) == translation_of(*node),
            diag_views(final(diags)@) == diag_views(old(diags)@) + translation_diags(*node),
    {
        match node {
            Node::Hash(h) => {
                let mut t = Translation { en: None, fr: None, de: None };
                let mut i: usize = 0;
                while i < h.len()
                    invariant
                        i <= h@.len(),
                        t@ == h@.take(i as int).fold_left(no_translation(), |t, e| translation_step(t, e)),
                        diag_views(diags@) == diag_views(old(diags)@) + h@.take(i as int).fold_left(
                            seq![],
                            |d: Seq<(DiagnosticKind, Seq<char>)>, e| d + translation_entry_diags(e),
                        ),
                    decreases h@.len() - i,
                {
                    let ghost before = diag_views(diags@);
                    let (k, v) = &h[i];
                    match k {
                        Node::Text(key) => {
                            let is_en = same_text(key.as_str(), "en");
                            let is_fr = same_text(key.as_str(), "fr");
                            let is_de = same_text(key.as_str(), "de");
                            if is_en || is_fr || is_de {
                                match v {
                                    Node::Text(value) => {
                                        if is_en {
                                            t.en = Some(value.clone());
                                        } else if is_fr {
                                            t.fr = Some(value.clone());
                                        } else {
                                            t.de = Some(value.clone());
                                        }
                                    },
                                    _ => report(diags, DiagnosticKind::WrongType, key.as_str()),
                                }
                            } else {
                                report(diags, DiagnosticKind::UnsupportedLanguage, key.as_str());
                            }
                        },
                        _ => report(diags, DiagnosticKind::WrongKeyType, "translation"),
                    }
                    assert(h@.take(i + 1).drop_last() =~= h@.take(i as int));
                    assert(diag_views(diags@) =~= before + translation_entry_diags(h@[i as int]));
                    i = i + 1;
                }
                assert(h@.take(h@.len() as int) =~= h@);
                Some(t)
            },
            _ => None,
        }
    }
}

} // verus!
