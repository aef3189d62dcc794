//! The classifier adapter: from one file's bytes (or the error that reading
//! them produced) to the result delivered for that file.
//!
//! Content sniffing itself is the content classifier collaborator's job;
//! the adapter turns its verdict into a [`MediaWalkResult`].

use vstd::prelude::*;

verus! {

use crate::mime::{is_media_mime, mime_is_media};

/// The operating-system error that reading a file can produce. The library
/// never looks inside it; it is carried through to the consumer unchanged.
#[verifier::external_type_specification]
#[verifier::external_body]
pub struct ExIoError(std::io::Error);

/// The MIME type that content sniffing detects for a buffer, or `None` when
/// no known signature matches. The detection scans a fixed table of
/// magic-byte matchers, so it depends on the buffer's bytes alone.
pub uninterp spec fn detected_mime(bytes: Seq<u8>) -> Option<Seq<char>>;

/// Relies on infer::get: returns the first entry of a fixed matcher table
/// whose magic-byte test accepts the buffer, so the detected MIME type is a
/// function of the bytes alone.
#[verifier::external_body]
fn detect_mime(bytes: &[u8]) -> (r: Option<String>)
    ensures
        (match r {
            Some(m) => detected_mime(bytes@) == Some(m@),
            None => detected_mime(bytes@) is None,
        }),
{
    infer::get(bytes).map(|t| t.mime_type().to_string())
}

/// The result for a single found file.
pub struct MediaWalkResult {
    /// The path of the found file.
    pub path: String,
    /// The file's detected MIME type; empty unless a media type was found.
    pub mime: String,
    /// - `Ok(true)`: the file's content is of a media type.
    /// - `Ok(false)`: the file's content is of no recognised media type,
    ///   or no type could be detected at all.
    /// - `Err(..)`: reading the file to inspect its content failed.
    pub result: Result<bool, std::io::Error>,
}

/// The mathematical content of a [`MediaWalkResult`].
pub ghost struct WalkResultView {
    pub path: Seq<char>,
    pub mime: Seq<char>,
    pub result: Result<bool, std::io::Error>,
}

impl WalkResultView {
    /// Invariants of every delivered result: the path is non-empty, and the
    /// MIME field is populated (with a media type) exactly on a match.
    pub open spec fn wf(self) -> bool {
        &&& self.path.len() > 0
        &&& (self.result matches Ok(b) && b ==> is_media_mime(self.mime))
        &&& (!(self.result matches Ok(b) && b) ==> self.mime == Seq::<char>::empty())
    }
}

impl View for MediaWalkResult {
    type V = WalkResultView;

    open spec fn view(&self) -> WalkResultView {
        WalkResultView { path: self.path@, mime: self.mime@, result: self.result }
    }
}

/// The bytes read from a file, or the error that reading produced.
pub open spec fn content_view(c: Result<Vec<u8>, std::io::Error>) -> Result<
    Seq<u8>,
    std::io::Error,
> {
    match c {
        Ok(b) => Ok(b@),
        Err(e) => Err(e),
    }
}

/// What classification delivers for one file: a media match carries the full
/// detected MIME string; an unrecognised or undetectable type is a no-match
/// with an empty MIME field; a read failure carries its error unchanged.
pub open spec fn classify_model(path: Seq<char>, content: Result<Seq<u8>, std::io::Error>) -> WalkResultView {
    match content {
        Ok(bytes) => match detected_mime(bytes) {
            Some(m) => if is_media_mime(m) {
                WalkResultView { path: path, mime: m, result: Ok(true) }
            } else {
                WalkResultView { path: path, mime: Seq::empty(), result: Ok(false) }
            },
            None => WalkResultView { path: path, mime: Seq::empty(), result: Ok(false) },
        },
        Err(e) => WalkResultView { path: path, mime: Seq::empty(), result: Err(e) },
    }
}

/// Law: a readable file whose detected MIME type is of a media category
/// yields exactly the matched result, carrying its path and the full
/// detected MIME string.
pub proof fn lemma_media_file_matched(path: Seq<char>, bytes: Seq<u8>, m: Seq<char>)
    requires
        detected_mime(bytes) == Some(m),
        is_media_mime(m),
    ensures
        classify_model(path, Ok(bytes)) == (WalkResultView {
            path: path,
            mime: m,
            result: Ok(true),
        }),
{
}

/// Law: a readable file with a detectable but non-media MIME type, or with
/// no detectable type at all, yields exactly the no-match result, its MIME
/// field empty.
pub proof fn lemma_non_media_file_no_match(path: Seq<char>, bytes: Seq<u8>)
    requires
        (match detected_mime(bytes) {
            Some(m) => !is_media_mime(m),
            None => true,
        }),
    ensures
        classify_model(path, Ok(bytes)) == (WalkResultView {
            path: path,
            mime: Seq::empty(),
            result: Ok(false),
        }),
{
}

/// Law: a file that cannot be read yields exactly the failed result, its
/// MIME field empty and the read error carried through unchanged.
pub proof fn lemma_unreadable_file_failed(path: Seq<char>, e: std::io::Error)
    ensures
        classify_model(path, Err(e)) == (WalkResultView {
            path: path,
            mime: Seq::empty(),
            result: Err(e),
        }),
{
}

/// Classifier adapter: sniff one file's content and build its result.
pub fn classify(path: String, content: Result<Vec<u8>, std::io::Error>) -> (r: MediaWalkResult)
    requires
        path@.len() > 0,
    ensures
        r@ == classify_model(path@, content_view(content)),
        r@.wf(),
{
    match content {
        Ok(bytes) => {
            match detect_mime(bytes.as_slice()) {
                Some(m) => {
                    if mime_is_media(m.as_str()) {
                        MediaWalkResult { path: path, mime: m, result: Ok(true) }
                    } else {
                        MediaWalkResult { path: path, mime: String::new(), result: Ok(false) }
                    }
                },
                None => MediaWalkResult { path: path, mime: String::new(), result: Ok(false) },
            }
        },
        Err(e) => MediaWalkResult { path: path, mime: String::new(), result: Err(e) },
    }
}

} // verus!
