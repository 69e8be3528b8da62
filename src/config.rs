use vstd::prelude::*;

use crate::message::DecodeError;
use crate::node::{load_documents, scan_error_text, yaml_load, Node};
use crate::text::same_text;

verus! {

/// Where the message database lies, and the language shown by default.
#[derive(Clone, Debug)]
pub struct Config {
    pub database_dir: String,
    pub default_lang: String,
}

pub struct ConfigView {
    pub database_dir: Seq<char>,
    pub default_lang: Seq<char>,
}

impl View for Config {
    type V = ConfigView;

    open spec fn view(&self) -> ConfigView {
        ConfigView { database_dir: self.database_dir@, default_lang: self.default_lang@ }
    }
}

pub open spec fn default_config() -> ConfigView {
    ConfigView { database_dir: "../PSA-RE/buses/AEE2004.full/HS.IS/"@, default_lang: "en"@ }
}

/// The effect of one top-level entry of a configuration document: a text
/// value for a known key replaces the setting; anything else is ignored.
pub open spec fn config_step(c: ConfigView, e: (Node, Node)) -> ConfigView {
    match (e.0, e.1) {
        (Node::Text(k), Node::Text(v)) => if k@ == "database_dir"@ {
            ConfigView { database_dir: v@, ..c }
        } else if k@ == "default_lang"@ {
            ConfigView { default_lang: v@, ..c }
        } else {
            c
        },
        _ => c,
    }
}

/// The configuration that a document gives: the defaults, overridden by the
/// entries of a top-level mapping.
pub open spec fn config_of(doc: Node) -> ConfigView {
    match doc {
        Node::Hash(h) => h@.fold_left(default_config(), |c: ConfigView, e: (Node, Node)| config_step(c, e)),
        _ => default_config(),
    }
}

impl Config {
    /// The configuration used where none is stored.
    pub fn get_default_config() -> (r: Config)
        ensures
            r@ == default_config(),
    {
        Config {
            database_dir: String::from_str("../PSA-RE/buses/AEE2004.full/HS.IS/"),
            default_lang: String::from_str("en"),
        }
    }

    /// Reads a configuration from the text of a YAML document. It fails, with a
    /// syntax error, exactly where the text is not well-formed YAML or holds no
    /// document.
    pub fn load_config_str(text: &str) -> (r: Result<Config, DecodeError>)
        ensures
            match yaml_load(text@) {
                Some(docs) => if docs.len() > 0 {
                    r matches Ok(c) && c@ == config_of(docs[0])
                } else {
                    r matches Err(DecodeError::Syntax(_))
                },
                None => r matches Err(DecodeError::Syntax(_)),
            },
    {
        let docs = match load_documents(text) {
            Ok(docs) => docs,
            Err(e) => {
                return Err(DecodeError::Syntax(scan_error_text(&e)));
            },
        };
        if docs.len() == 0 {
            return Err(DecodeError::Syntax(String::from_str("the text holds no document")));
        }
        let mut config = Config::get_default_config();
        if let Node::Hash(h) = &docs[0] {
            let mut i: usize = 0;
            while i < h.len()
                invariant
                    i <= h@.len(),
                    config@ == h@.take(i as int).fold_left(
                        default_config(),
                        |c: ConfigView, e: (Node, Node)| config_step(c, e),
                    ),
                decreases h@.len() - i,
            {
                let (k, v) = &h[i];
                if let (Node::Text(key), Node::Text(value)) = (k, v) {
                    if same_text(key.as_str(), "database_dir") {
                        config.database_dir = value.clone();
                    } else if same_text(key.as_str(), "default_lang") {
                        config.default_lang = value.clone();
                    }
                }
                assert(h@.take(i + 1).drop_last() =~= h@.take(i as int));
                i = i + 1;
            }
            assert(h@.take(h@.len() as int) =~= h@);
        }
        Ok(config)
    }
}

} // verus!
