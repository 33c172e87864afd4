//! Configuration: where the two archives live.
//!
//! A configuration names the path of the tile archive and, optionally, the
//! path of the traffic archive. It arrives as a JSON document with the two
//! paths nested under the builder section, or is synthesized from a tile
//! archive path alone. Nothing else of the document is interpreted.
use vstd::prelude::*;
use vstd::string::StringSliceAdditionalSpecFns;

use crate::json::{get_member, json_model, lemma_get_model, parse_json, spec_json_parse,
    spec_model_get, JsonModel, JsonValue};
use crate::text::ascii_to_string;
use crate::Error;

verus! {

/// The two archive paths a tileset needs.
#[derive(Clone, PartialEq, Eq, Debug)]
pub struct Config {
    /// Path of the tile archive.
    pub tile_extract: String,
    /// Path of the traffic archive, when one is configured.
    pub traffic_extract: Option<String>,
}

/// The key sequence of the builder section.
pub open spec fn spec_builder_key() -> Seq<u8> {
    Seq::new("mjolnir"@.len(), |i: int| "mjolnir"@[i] as u8)
}

/// The key sequence of the tile archive path.
pub open spec fn spec_tile_key() -> Seq<u8> {
    Seq::new("tile_extract"@.len(), |i: int| "tile_extract"@[i] as u8)
}

/// The key sequence of the traffic archive path.
pub open spec fn spec_traffic_key() -> Seq<u8> {
    Seq::new("traffic_extract"@.len(), |i: int| "traffic_extract"@[i] as u8)
}

/// Whether every byte of the string is ASCII.
pub open spec fn spec_all_ascii(s: Seq<u8>) -> bool {
    forall|i: int| 0 <= i < s.len() ==> s[i] < 128
}

/// Whether a configuration document is accepted: the tile archive path
/// stands under the builder section as an ASCII string.
pub open spec fn spec_config_ok(m: JsonModel) -> bool {
    match spec_model_get(m, spec_builder_key()) {
        Some(sec) => match spec_model_get(sec, spec_tile_key()) {
            Some(t) => t is Str && spec_all_ascii(t->Str_0),
            None => false,
        },
        None => false,
    }
}

/// How an accepted configuration document determines the configuration:
/// the tile path's characters are its bytes, and the traffic path is
/// present exactly when it stands beside it as an ASCII string.
pub open spec fn spec_config_fields(m: JsonModel, c: Config) -> bool {
    match spec_model_get(m, spec_builder_key()) {
        Some(sec) => match spec_model_get(sec, spec_tile_key()) {
            Some(t) => {
                &&& t is Str
                &&& c.tile_extract@.len() == t->Str_0.len()
                &&& forall|i: int|
                    0 <= i < t->Str_0.len() ==> (#[trigger] c.tile_extract@[i] as u8) == t->Str_0[i]
                &&& match spec_model_get(sec, spec_traffic_key()) {
                    Some(w) => (w is Str && spec_all_ascii(w->Str_0)) <==> c.traffic_extract
                        is Some,
                    None => c.traffic_extract is None,
                }
            },
            None => false,
        },
        None => false,
    }
}

impl Config {
    /// Lowers a parsed configuration document: the tile archive path must
    /// stand under the builder section as an ASCII string; the traffic
    /// archive path is taken when it stands beside it as an ASCII string,
    /// and is absent otherwise.
    pub fn from_document(doc: &JsonValue) -> (r: Result<Config, Error>)
        ensures
            r is Ok <==> spec_config_ok(json_model(*doc)),
            r is Ok ==> spec_config_fields(json_model(*doc), r->Ok_0),
            match doc.spec_get(spec_builder_key()) {
                Some(m) => match m.spec_get(spec_tile_key()) {
                    Some(t) => {
                        &&& (t is Str && spec_all_ascii(t->Str_0@)) <==> r is Ok
                        &&& r is Ok ==> {
                            &&& r->Ok_0.tile_extract@.len() == t->Str_0@.len()
                            &&& forall|i: int|
                                0 <= i < t->Str_0@.len() ==> (r->Ok_0.tile_extract@[i] as u8)
                                    == t->Str_0@[i]
                            &&& match m.spec_get(spec_traffic_key()) {
                                Some(w) => (w is Str && spec_all_ascii(w->Str_0@)) <==> r->Ok_0.traffic_extract
                                    is Some,
                                None => r->Ok_0.traffic_extract is None,
                            }
                        }
                    },
                    None => r == Result::<Config, Error>::Err(Error::ConfigError),
                },
                None => r == Result::<Config, Error>::Err(Error::ConfigError),
            },
    {
        proof {
            reveal_strlit("mjolnir");
            reveal_strlit("tile_extract");
            reveal_strlit("traffic_extract");
            lemma_get_model(*doc, spec_builder_key());
        }
        let section = match get_member(doc, "mjolnir") {
            Some(m) => m,
            None => {
                return Err(Error::ConfigError);
            },
        };
        proof {
            lemma_get_model(*section, spec_tile_key());
            lemma_get_model(*section, spec_traffic_key());
        }
        let tile = match get_member(section, "tile_extract") {
            Some(t) => t,
            None => {
                return Err(Error::ConfigError);
            },
        };
        let tile_extract = match tile {
            JsonValue::Str(bytes) => {
                if !crate::tile::check_ascii_range(bytes, 0, bytes.len()) {
                    return Err(Error::ConfigError);
                }
                ascii_to_string(bytes)
            },
            _ => {
                return Err(Error::ConfigError);
            },
        };
        let traffic_extract = match get_member(section, "traffic_extract") {
            Some(w) => match w {
                JsonValue::Str(bytes) => {
                    if check_ascii_range_all(bytes) {
                        Some(ascii_to_string(bytes))
                    } else {
                        None
                    }
                },
                _ => None,
            },
            None => None,
        };
        Ok(Config { tile_extract, traffic_extract })
    }

    /// Reads a configuration from its JSON text. Empty or malformed text
    /// and a missing tile archive path are rejected.
    pub fn from_json(config: &str) -> (r: Result<Config, Error>)
        ensures
            r is Ok <==> (spec_json_parse(config.spec_bytes()) is Some && spec_config_ok(
                spec_json_parse(config.spec_bytes())->0,
            )),
            r is Ok ==> spec_config_fields(
                spec_json_parse(config.spec_bytes())->0,
                r->Ok_0,
            ),
            config@.len() == 0 ==> r is Err,
    {
        proof {
            if config@.len() == 0 {
                assert(config.spec_bytes() =~= Seq::<u8>::empty());
            }
        }
        let bytes = config.as_bytes_vec();
        let doc = match parse_json(&bytes) {
            Ok(v) => v,
            Err(_) => {
                return Err(Error::ConfigError);
            },
        };
        match Self::from_document(&doc) {
            Ok(c) => Ok(c),
            Err(e) => Err(e),
        }
    }

    /// A configuration with only a tile archive path.
    pub fn from_tile_extract(tile_extract: &str) -> (r: Result<Config, Error>)
        ensures
            r is Ok,
            r->Ok_0.tile_extract@ == tile_extract@,
            r->Ok_0.traffic_extract is None,
    {
        Ok(Config { tile_extract: String::from_str(tile_extract), traffic_extract: None })
    }
}

/// Whether every byte of the buffer is ASCII.
fn check_ascii_range_all(b: &Vec<u8>) -> (r: bool)
    ensures
        r == spec_all_ascii(b@),
{
    crate::tile::check_ascii_range(b, 0, b.len())
}

} // verus!
