//! One compile request: resolve the configuration, parse, run the pass
//! chain, print, and package the result. The parser, the passes and the
//! printer are outside collaborators: the session decides, from each event
//! that their caller reports, what is to be done next.

use vstd::prelude::*;
use vstd::utf8::{decode_utf8, valid_utf8};
use crate::config::Syntax;
use crate::error::Error;
use crate::pipeline::BuiltConfig;
use crate::resolve::SourceId;

verus! {

/// The text of some bytes, when they are valid UTF-8.
pub open spec fn utf8_text(bytes: Seq<u8>) -> Option<Seq<char>> {
    if valid_utf8(bytes) {
        Some(decode_utf8(bytes))
    } else {
        None
    }
}

/// Relies on `String::from_utf8`: a string of the bytes exactly when they
/// are valid UTF-8, whose characters are the bytes decoded.
#[verifier::external_body]
fn text_of_bytes(bytes: Vec<u8>) -> (r: Option<String>)
    ensures
        r is Some <==> valid_utf8(bytes@),
        r matches Some(s) ==> s@ == decode_utf8(bytes@),
{
    String::from_utf8(bytes).ok()
}

/// The result of a compile: generated code and, when one was asked for,
/// the serialized source map.
#[derive(Debug)]
pub struct TransformOutput {
    pub code: String,
    pub map: Option<String>,
}

pub open spec fn bytes_view(b: Option<Vec<u8>>) -> Option<Seq<u8>> {
    match b {
        Some(v) => Some(v@),
        None => None,
    }
}

/// The map bytes to keep: none unless maps were asked for.
pub open spec fn kept_map(map: Option<Seq<u8>>, emit_map: bool) -> Option<Seq<u8>> {
    if emit_map {
        map
    } else {
        None
    }
}

/// Whether `r` packages printed `code` and `map`: the code's text and the
/// kept map's text, or the failure of the first that is not UTF-8.
pub open spec fn is_packaging(
    r: Result<TransformOutput, Error>,
    code: Seq<u8>,
    map: Option<Seq<u8>>,
    emit_map: bool,
) -> bool {
    match r {
        Ok(o) => {
            &&& utf8_text(code) == Some(o.code@)
            &&& match kept_map(map, emit_map) {
                None => o.map is None,
                Some(m) => (o.map matches Some(t) && utf8_text(m) == Some(t@)),
            }
        },
        Err(e) => {
            ||| (utf8_text(code) is None && e is CodeNotUtf8)
            ||| (utf8_text(code) is Some && (kept_map(map, emit_map) matches Some(m) && utf8_text(m) is None)
                && e is SourceMapNotUtf8)
        },
    }
}

/// Packages printed bytes: the code must be UTF-8 text, and so must the map,
/// which is kept only when maps were asked for.
pub fn package_output(code: Vec<u8>, map: Option<Vec<u8>>, emit_map: bool) -> (r: Result<
    TransformOutput,
    Error,
>)
    ensures
        is_packaging(r, code@, bytes_view(map), emit_map),
{
    let code = match text_of_bytes(code) {
        Some(c) => c,
        None => {
            return Err(Error::CodeNotUtf8);
        },
    };
    let map = if emit_map {
        match map {
            Some(m) => match text_of_bytes(m) {
                Some(t) => Some(t),
                None => {
                    return Err(Error::SourceMapNotUtf8);
                },
            },
            None => None,
        }
    } else {
        None
    };
    Ok(TransformOutput { code, map })
}

/// Where a compile request stands.
#[derive(Clone, Copy, Debug, PartialEq, Eq, Structural)]
pub enum Stage {
    Resolving,
    Parsing,
    Transforming,
    Printing,
    Done,
}

/// What the caller reports back after doing what the session asked.
#[derive(Debug)]
pub enum Event {
    /// The configuration for the source was resolved.
    Resolved(BuiltConfig),
    ResolveFailed(Error),
    /// The source parsed into a tree.
    Parsed,
    /// The source has a syntax error.
    ParseFailed,
    /// The pass chain ran over the tree.
    Transformed,
    /// The pass chain could not be set up (a global-inlining value that is
    /// not an expression).
    TransformFailed(Error),
    /// The printer produced code, and a map when one was asked for.
    Printed { code: Vec<u8>, map: Option<Vec<u8>> },
    PrintFailed(Error),
}

/// What the session asks the caller to do next.
#[derive(Debug)]
pub enum Action {
    /// Parse the source under `syntax`, capturing comments when `comments`.
    Parse { syntax: Syntax, comments: bool },
    /// Run the pass chain of the resolved configuration over the tree.
    RunPasses,
    /// Print the tree; build a source map when `source_map`, with the
    /// source registered under `source_name` and its text embedded.
    Print { minify: bool, source_map: bool, source_name: Option<String> },
    /// The request is over, with this result.
    Finish(Result<TransformOutput, Error>),
}

/// One compile request.
#[derive(Debug)]
pub struct Session {
    pub file: SourceId,
    pub stage: Stage,
    /// The resolved configuration, once there is one.
    pub built: Option<BuiltConfig>,
}

impl Session {
    /// A request for `file`, which first needs its configuration resolved.
    pub fn new(file: SourceId) -> (r: Session)
        ensures
            r.file == file,
            r.stage == Stage::Resolving,
            r.built is None,
    {
        Session { file, stage: Stage::Resolving, built: None }
    }

    /// Whether `ev` can come at this point of the request.
    pub open spec fn spec_accepts(&self, ev: &Event) -> bool {
        match self.stage {
            Stage::Resolving => ev is Resolved || ev is ResolveFailed,
            Stage::Parsing => self.built is Some && (ev is Parsed || ev is ParseFailed),
            Stage::Transforming => self.built is Some && (ev is Transformed || ev is TransformFailed),
            Stage::Printing => self.built is Some && (ev is Printed || ev is PrintFailed),
            Stage::Done => false,
        }
    }

    #[verifier::when_used_as_spec(spec_accepts)]
    pub fn accepts(&self, ev: &Event) -> (r: bool)
        ensures
            r == self.spec_accepts(ev),
    {
        match self.stage {
            Stage::Resolving => match ev {
                Event::Resolved(_) | Event::ResolveFailed(_) => true,
                _ => false,
            },
            Stage::Parsing => self.built.is_some() && match ev {
                Event::Parsed | Event::ParseFailed => true,
                _ => false,
            },
            Stage::Transforming => self.built.is_some() && match ev {
                Event::Transformed | Event::TransformFailed(_) => true,
                _ => false,
            },
            Stage::Printing => self.built.is_some() && match ev {
                Event::Printed { .. } | Event::PrintFailed(_) => true,
                _ => false,
            },
            Stage::Done => false,
        }
    }

    /// Takes in what the caller reports and says what to do next. Every
    /// failure ends the request with that failure and no code.
    pub fn step(&mut self, ev: Event) -> (r: Action)
        requires
            old(self).spec_accepts(&ev),
        ensures
            final(self).file == old(self).file,
            match ev {
                Event::Resolved(b) => {
                    &&& final(self).stage == Stage::Parsing
                    &&& final(self).built matches Some(fb) && fb@ == b@
                    &&& r matches Action::Parse { syntax, comments } && syntax == b.syntax
                        && comments == !b.minify
                },
                Event::ResolveFailed(e) => final(self).stage == Stage::Done && r == Action::Finish(
                    Err(e),
                ),
                Event::Parsed => {
                    &&& final(self).stage == Stage::Transforming
                    &&& final(self).built == old(self).built
                    &&& r is RunPasses
                },
                Event::ParseFailed => final(self).stage == Stage::Done && r matches Action::Finish(
                    Err(Error::FailedToParseModule),
                ),
                Event::Transformed => {
                    let b = old(self).built->Some_0;
                    &&& final(self).stage == Stage::Printing
                    &&& final(self).built == old(self).built
                    &&& r matches Action::Print { minify, source_map, source_name } && minify
                        == b.minify && source_map == b.source_maps && match old(self).file {
                        SourceId::Real(p) => if b.source_maps {
                            source_name == Some(p)
                        } else {
                            source_name is None
                        },
                        SourceId::Anon => source_name is None,
                    }
                },
                Event::Printed { code, map } => {
                    let b = old(self).built->Some_0;
                    &&& final(self).stage == Stage::Done
                    &&& r matches Action::Finish(res) && is_packaging(
                        res,
                        code@,
                        bytes_view(map),
                        b.source_maps,
                    )
                },
                Event::TransformFailed(e) => final(self).stage == Stage::Done && r == Action::Finish(
                    Err(e),
                ),
                Event::PrintFailed(e) => final(self).stage == Stage::Done && r == Action::Finish(
                    Err(e),
                ),
            },
    {
        match ev {
            Event::Resolved(b) => {
                let syntax = b.syntax;
                let comments = !b.minify;
                self.built = Some(b);
                self.stage = Stage::Parsing;
                Action::Parse { syntax, comments }
            },
            Event::ResolveFailed(e) => {
                self.stage = Stage::Done;
                Action::Finish(Err(e))
            },
            Event::Parsed => {
                self.stage = Stage::Transforming;
                Action::RunPasses
            },
            Event::ParseFailed => {
                self.stage = Stage::Done;
                Action::Finish(Err(Error::FailedToParseModule))
            },
            Event::Transformed => {
                let (minify, source_map) = match &self.built {
                    Some(b) => (b.minify, b.source_maps),
                    None => (false, false),
                };
                let source_name = match &self.file {
                    SourceId::Real(p) => if source_map {
                        Some(p.clone())
                    } else {
                        None
                    },
                    SourceId::Anon => None,
                };
                self.stage = Stage::Printing;
                Action::Print { minify, source_map, source_name }
            },
            Event::Printed { code, map } => {
                let emit_map = match &self.built {
                    Some(b) => b.source_maps,
                    None => false,
                };
                self.stage = Stage::Done;
                Action::Finish(package_output(code, map, emit_map))
            },
            Event::TransformFailed(e) => {
                self.stage = Stage::Done;
                Action::Finish(Err(e))
            },
            Event::PrintFailed(e) => {
                self.stage = Stage::Done;
                Action::Finish(Err(e))
            },
        }
    }
}

} // verus!
