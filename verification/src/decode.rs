//! The decoding layer: a stored text read as a mapping from strings to strings,
//! in the one format that a loader was made with.

use vstd::prelude::*;
use crate::error::{DecodeError, Format, TaekoError};
use crate::database::{bump, confirmed, MarkdownDatabaseStruct};
use crate::markdown::front_text;
use crate::matter::front_of;
use crate::store::{InputStore, TaekoCoreDatabase};
use crate::table::Table;

verus! {

/// What the JSON decoder makes of a text that is read as a mapping from strings
/// to strings: the entries in the order of their keys, or the line and column
/// at which it gave up.
pub uninterp spec fn json_fields(text: Seq<char>) -> Result<
    Seq<(Seq<char>, Seq<char>)>,
    (usize, usize),
>;

/// What the YAML decoder makes of a text that is read as a mapping from strings
/// to strings: the entries in the order of their keys, or the line and column
/// at which it gave up, where it names one.
pub uninterp spec fn yaml_fields(text: Seq<char>) -> Result<
    Seq<(Seq<char>, Seq<char>)>,
    Option<(usize, usize)>,
>;

/// The view of a list of entries.
pub open spec fn pairs_view(v: Vec<(String, String)>) -> Seq<(Seq<char>, Seq<char>)> {
    Seq::new(v@.len(), |i: int| (v@[i].0@, v@[i].1@))
}

/// The view of what a decoder hands back.
pub open spec fn parsed_view<E>(r: Result<Vec<(String, String)>, E>) -> Result<
    Seq<(Seq<char>, Seq<char>)>,
    E,
> {
    match r {
        Ok(v) => Ok(pairs_view(v)),
        Err(e) => Err(e),
    }
}

/// The error for a JSON text that failed at a line and column.
pub open spec fn json_error(at: (usize, usize)) -> TaekoError {
    TaekoError::Decode(DecodeError { format: Format::Json, line: at.0, column: at.1 })
}

/// The error for a YAML text that failed, with the place where one is known.
pub open spec fn yaml_error(at: Option<(usize, usize)>) -> TaekoError {
    match at {
        Some(p) => TaekoError::Decode(DecodeError { format: Format::Yaml, line: p.0, column: p.1 }),
        None => TaekoError::Decode(DecodeError { format: Format::Yaml, line: 0, column: 0 }),
    }
}

/// What decoding a text in a format owes.
pub open spec fn decode_result(format: Format, text: Seq<char>) -> Result<
    Seq<(Seq<char>, Seq<char>)>,
    TaekoError,
> {
    match format {
        Format::Json => match json_fields(text) {
            Ok(f) => Ok(f),
            Err(at) => Err(json_error(at)),
        },
        Format::Yaml => match yaml_fields(text) {
            Ok(f) => Ok(f),
            Err(at) => Err(yaml_error(at)),
        },
    }
}

/// What decoding the text of a name owes, given the texts that are set.
pub open spec fn from_text_result(
    texts: Map<Seq<char>, Seq<char>>,
    format: Format,
    name: Seq<char>,
) -> Result<Seq<(Seq<char>, Seq<char>)>, TaekoError> {
    if texts.contains_key(name) {
        decode_result(format, texts[name])
    } else {
        Err(TaekoError::NotFound)
    }
}

/// Reads a text with `serde_json::from_str` as a `BTreeMap<String, String>` and
/// hands its entries out in the map's order. On failure it hands out what
/// `Error::line` and `Error::column` give. The contract gives the outcome its
/// name and claims nothing else of it.
#[verifier::external_body]
fn parse_json(text: &str) -> (r: Result<Vec<(String, String)>, (usize, usize)>)
    ensures
        parsed_view(r) == json_fields(text@),
{
    match serde_json::from_str::<std::collections::BTreeMap<String, String>>(text) {
        Ok(m) => Ok(m.into_iter().collect()),
        Err(e) => Err((e.line(), e.column())),
    }
}

/// Reads a text with `serde_yaml::from_str` as a `BTreeMap<String, String>` and
/// hands its entries out in the map's order. On failure it hands out the line
/// and column of `Error::location`, where there is one. The contract gives the
/// outcome its name and claims nothing else of it.
#[verifier::external_body]
fn parse_yaml(text: &str) -> (r: Result<Vec<(String, String)>, Option<(usize, usize)>>)
    ensures
        parsed_view(r) == yaml_fields(text@),
{
    match serde_yaml::from_str::<std::collections::BTreeMap<String, String>>(text) {
        Ok(m) => Ok(m.into_iter().collect()),
        Err(e) => Err(e.location().map(|l| (l.line(), l.column()))),
    }
}

/// Turns what the JSON decoder handed back into the layer's own result.
pub fn json_outcome<T>(r: Result<T, (usize, usize)>) -> (out: Result<T, TaekoError>)
    ensures
        match r {
            Ok(v) => out == Ok::<T, TaekoError>(v),
            Err(at) => out == Err::<T, TaekoError>(json_error(at)),
        },
{
    match r {
        Ok(v) => Ok(v),
        Err(at) => Err(
            TaekoError::Decode(DecodeError { format: Format::Json, line: at.0, column: at.1 }),
        ),
    }
}

/// Turns what the YAML decoder handed back into the layer's own result. A
/// failure without a place is reported at line and column zero.
pub fn yaml_outcome<T>(r: Result<T, Option<(usize, usize)>>) -> (out: Result<T, TaekoError>)
    ensures
        match r {
            Ok(v) => out == Ok::<T, TaekoError>(v),
            Err(at) => out == Err::<T, TaekoError>(yaml_error(at)),
        },
{
    match r {
        Ok(v) => Ok(v),
        Err(Some(p)) => Err(
            TaekoError::Decode(DecodeError { format: Format::Yaml, line: p.0, column: p.1 }),
        ),
        Err(None) => Err(
            TaekoError::Decode(DecodeError { format: Format::Yaml, line: 0, column: 0 }),
        ),
    }
}

/// Decodes a text in the given format.
pub fn decode_text(format: Format, text: &str) -> (out: Result<Vec<(String, String)>, TaekoError>)
    ensures
        parsed_view(out) == decode_result(format, text@),
{
    match format {
        Format::Json => json_outcome(parse_json(text)),
        Format::Yaml => yaml_outcome(parse_yaml(text)),
    }
}

/// A copy of a list of entries.
pub fn copy_pairs(v: &Vec<(String, String)>) -> (r: Vec<(String, String)>)
    ensures
        r@ == v@,
{
    let mut r: Vec<(String, String)> = Vec::new();
    let mut i: usize = 0;
    while i < v.len()
        invariant
            i <= v@.len(),
            r@ == v@.take(i as int),
        decreases v@.len() - i,
    {
        let pair = (v[i].0.clone(), v[i].1.clone());
        r.push(pair);
        assert(r@ =~= v@.take(i + 1));
        i += 1;
    }
    assert(v@.take(v@.len() as int) =~= v@);
    r
}

/// A database whose stored texts can be read as structured values.
pub trait TaekoSerialTransformer: TaekoCoreDatabase {
    /// The one format that this database decodes.
    spec fn format(&self) -> Format;

    /// Decodes the text of a name; `NotFound` where it was never set.
    fn from_text(&mut self, name: String) -> (r: Result<Vec<(String, String)>, TaekoError>)
        requires
            old(self).valid(),
        ensures
            final(self).valid(),
            final(self).texts() == old(self).texts(),
            final(self).blobs() == old(self).blobs(),
            final(self).revision() == old(self).revision(),
            final(self).format() == old(self).format(),
            parsed_view(r) == from_text_result(old(self).texts(), old(self).format(), name@),
    ;
}

/// An input store with the format in which its texts are decoded, the decoded
/// values that are cached, and the number of decodings that were run.
pub struct Loader {
    pub inputs: InputStore,
    pub format: Format,
    pub decoded: Table<Vec<(String, String)>>,
    pub decodes: u64,
}

impl Loader {
    /// The cached value of `n` stands.
    pub open spec fn fresh(&self, n: Seq<char>) -> bool {
        confirmed(self.inputs.texts, self.decoded, n)
    }

    /// Every cached value that stands is what decoding the text as it is gives.
    pub open spec fn inv(&self) -> bool {
        &&& self.inputs.inv()
        &&& self.decoded.wf()
        &&& forall|n: Seq<char>| #[trigger]
            self.decoded.has(n) ==> {
                &&& self.inputs.texts.has(n)
                &&& self.decoded.slot(n).verified_at <= self.inputs.revision
                &&& (self.fresh(n) ==> decode_result(
                    self.format,
                    self.inputs.texts.slot(n).value@,
                ) == Ok::<Seq<(Seq<char>, Seq<char>)>, TaekoError>(
                    pairs_view(self.decoded.slot(n).value),
                ))
            }
    }

    /// What a decoding query does to the loader. A failure is never cached.
    pub open spec fn decode_step(
        pre: Self,
        post: Self,
        name: Seq<char>,
        r: Result<Vec<(String, String)>, TaekoError>,
    ) -> bool {
        &&& post.inv()
        &&& post.inputs == pre.inputs
        &&& post.format == pre.format
        &&& parsed_view(r) == from_text_result(pre.inputs.texts(), pre.format, name)
        &&& (r is Ok ==> post.fresh(name))
        &&& (r is Err || pre.fresh(name) ==> post == pre)
        &&& (r is Ok && !pre.fresh(name) ==> post.decodes == bump(pre.decodes))
        &&& forall|m: Seq<char>|
            m != name ==> (#[trigger] post.decoded.has(m)) == pre.decoded.has(m)
        &&& forall|m: Seq<char>|
            m != name && pre.decoded.has(m) ==> (#[trigger] post.decoded.slot(m))
                == pre.decoded.slot(m)
    }

    /// What setting a text does to the loader: the cached value of that name
    /// stands no longer, and those of every other name stand as they stood.
    pub open spec fn text_step(pre: Self, post: Self, name: Seq<char>, value: Seq<char>) -> bool {
        &&& post.inv()
        &&& post.inputs.texts() == pre.inputs.texts().insert(name, value)
        &&& post.inputs.blobs == pre.inputs.blobs
        &&& post.inputs.revision == pre.inputs.revision + 1
        &&& post.format == pre.format
        &&& post.decoded == pre.decoded
        &&& post.decodes == pre.decodes
        &&& !post.fresh(name)
        &&& forall|m: Seq<char>| m != name ==> (#[trigger] post.fresh(m)) == pre.fresh(m)
    }

    /// An empty loader for one format.
    pub fn new(format: Format) -> (l: Self)
        ensures
            l.inv(),
            l.format == format,
            l.decodes == 0,
            l.inputs.revision == 0,
            l.inputs.texts() == Map::<Seq<char>, Seq<char>>::empty(),
            l.inputs.blobs() == Map::<Seq<char>, Seq<u8>>::empty(),
            forall|n: Seq<char>| !l.fresh(n),
    {
        Loader { inputs: InputStore::new(), format, decoded: Table::new(), decodes: 0 }
    }

    /// The number of decodings that were run so far.
    pub fn decodes(&self) -> (c: u64)
        ensures
            c == self.decodes,
    {
        self.decodes
    }
}

impl TaekoCoreDatabase for Loader {
    open spec fn valid(&self) -> bool {
        self.inv()
    }

    open spec fn texts(&self) -> Map<Seq<char>, Seq<char>> {
        self.inputs.texts()
    }

    open spec fn blobs(&self) -> Map<Seq<char>, Seq<u8>> {
        self.inputs.blobs()
    }

    open spec fn revision(&self) -> nat {
        self.inputs.revision as nat
    }

    fn text(&self, name: &String) -> (r: Result<&String, TaekoError>) {
        self.inputs.text(name)
    }

    fn blob(&self, name: &String) -> (r: Result<&Vec<u8>, TaekoError>) {
        self.inputs.blob(name)
    }

    fn set_text(&mut self, name: String, value: String)
        ensures
            Self::text_step(*old(self), *final(self), name@, value@),
    {
        self.inputs.set_text(name, value);
    }

    fn set_blob(&mut self, name: String, value: Vec<u8>)
        ensures
            final(self).format == old(self).format,
            final(self).inputs.texts == old(self).inputs.texts,
            final(self).decoded == old(self).decoded,
            final(self).decodes == old(self).decodes,
    {
        self.inputs.set_blob(name, value);
    }
}

impl TaekoSerialTransformer for Loader {
    open spec fn format(&self) -> Format {
        self.format
    }

    fn from_text(&mut self, name: String) -> (r: Result<Vec<(String, String)>, TaekoError>)
        ensures
            Self::decode_step(*old(self), *final(self), name@, r),
    {
        let text = match self.inputs.texts.get(&name) {
            Some(t) => t,
            None => {
                return Err(TaekoError::NotFound);
            },
        };
        match self.decoded.get(&name) {
            Some(m) => {
                if text.changed_at <= m.verified_at {
                    return Ok(copy_pairs(&m.value));
                }
            },
            None => {},
        }
        let fields = match decode_text(self.format, text.value.as_str()) {
            Ok(f) => f,
            Err(e) => {
                return Err(e);
            },
        };
        let rev: u64 = self.inputs.revision;
        self.decoded.put(&name, copy_pairs(&fields), rev, rev);
        if self.decodes < u64::MAX {
            self.decodes = self.decodes + 1;
        }
        Ok(fields)
    }
}

/// The entries of the metadata block of the text of a name, read as YAML:
/// `None` where the text was never set, has no block, or its block does not
/// decode.
pub open spec fn metadata_fields(texts: Map<Seq<char>, Seq<char>>, path: Seq<char>) -> Option<
    Seq<(Seq<char>, Seq<char>)>,
> {
    if !texts.contains_key(path) {
        None
    } else {
        match front_of(texts[path]) {
            None => None,
            Some(front) => match yaml_fields(front) {
                Ok(f) => Some(f),
                Err(_) => None,
            },
        }
    }
}

/// A database whose sources carry metadata that can be read as a structured
/// value.
pub trait Deserializeable: TaekoCoreDatabase {
    /// Decodes the metadata block of the source at `path` as YAML. Every
    /// failure is reported alike.
    fn deserialize(&self, path: String) -> (r: Result<Vec<(String, String)>, ()>)
        requires
            self.valid(),
        ensures
            match r {
                Ok(v) => metadata_fields(self.texts(), path@) == Some(pairs_view(v)),
                Err(_) => metadata_fields(self.texts(), path@) is None,
            },
    ;
}

impl Deserializeable for MarkdownDatabaseStruct {
    fn deserialize(&self, path: String) -> (r: Result<Vec<(String, String)>, ()>) {
        let text = match self.inputs.text(&path) {
            Ok(t) => t,
            Err(_) => {
                return Err(());
            },
        };
        match front_text(text.as_str()) {
            None => Err(()),
            Some(front) => match parse_yaml(front.as_str()) {
                Ok(v) => Ok(v),
                Err(_) => Err(()),
            },
        }
    }
}

} // verus!
