//! The message codec: from tree values to requests, from responses to tree
//! values.
//!
//! A request is the tuple `("file", operation, argument)`:
//!
//! * read: `("file", "read", path)`
//! * write: `("file", "write", (path, contents))`
//!
//! A response is one of
//!
//! * `("file", "read", 0, contents)` for a read that succeeded,
//! * `("file", "read", 0)` for a read that failed,
//! * `("file", "write", path, contents, flag)` for a write, where the flag is
//!   the atom zero if the write succeeded and the atom one if it failed.
//!
//! The words are atoms that carry the bytes of the word; a path is an atom
//! that carries the path in UTF-8; contents are an atom that carries any
//! bytes at all.
//!
//! A tree of any other shape is no request: it decodes to
//! [`FileRequest::Unrecognized`], which is no error. A request of the right
//! shape whose path is not UTF-8 is an error.

use crate::text::{bytes_of, text_of};
use crate::tree::{atom, pair, zero, Tree, TreeValue};
use crate::wire::FileWire;
use vstd::prelude::*;
use vstd::slice::slice_to_vec;
use vstd::utf8::*;

verus! {

/// The bytes of the word `file`, the head of every message of the driver.
pub open spec fn file_tag() -> Seq<u8> {
    seq!['f' as u8, 'i' as u8, 'l' as u8, 'e' as u8]
}

/// The bytes of the word `read`.
pub open spec fn read_tag() -> Seq<u8> {
    seq!['r' as u8, 'e' as u8, 'a' as u8, 'd' as u8]
}

/// The bytes of the word `write`.
pub open spec fn write_tag() -> Seq<u8> {
    seq!['w' as u8, 'r' as u8, 'i' as u8, 't' as u8, 'e' as u8]
}

/// A flag as an atom: zero for yes, one for no.
pub open spec fn flag(yes: bool) -> Tree {
    if yes {
        zero()
    } else {
        atom(seq![1u8])
    }
}

/// Why a request of the right shape could not be decoded.
#[derive(Clone, Copy, Debug, PartialEq, Eq, Structural)]
pub enum DecodeError {
    /// The bytes given as the path are not UTF-8.
    PathNotUtf8,
}

/// The mathematical value of a request.
#[verifier::ext_equal]
pub enum Request {
    Read { path: Seq<char> },
    Write { path: Seq<char>, contents: Seq<u8> },
    Unrecognized,
}

/// What an effect asks of the driver.
#[derive(Debug, PartialEq, Eq)]
pub enum FileRequest {
    /// Read the whole file at `path`.
    Read { path: String },
    /// Replace the file at `path` by `contents`.
    Write { path: String, contents: Vec<u8> },
    /// Nothing: the effect is not a request to this driver.
    Unrecognized,
}

impl View for FileRequest {
    type V = Request;

    open spec fn view(&self) -> Request {
        match self {
            FileRequest::Read { path } => Request::Read { path: path@ },
            FileRequest::Write { path, contents } => Request::Write {
                path: path@,
                contents: contents@,
            },
            FileRequest::Unrecognized => Request::Unrecognized,
        }
    }
}

/// The mathematical value of a response.
#[verifier::ext_equal]
pub enum Response {
    ReadOk { contents: Seq<u8> },
    ReadErr,
    WriteResult { path: Seq<char>, contents: Seq<u8>, success: bool },
}

impl Response {
    /// The operation that the response answers.
    pub open spec fn operation(self) -> FileWire {
        match self {
            Response::ReadOk { .. } => FileWire::Read,
            Response::ReadErr => FileWire::Read,
            Response::WriteResult { .. } => FileWire::Write,
        }
    }
}

/// What the driver answers to a request.
#[derive(Debug, PartialEq, Eq)]
pub enum FileResponse {
    /// The file was read; these are its bytes.
    ReadOk { contents: Vec<u8> },
    /// The file could not be read.
    ReadErr,
    /// The write was tried; path and contents are those of the request.
    WriteResult { path: String, contents: Vec<u8>, success: bool },
}

impl View for FileResponse {
    type V = Response;

    open spec fn view(&self) -> Response {
        match self {
            FileResponse::ReadOk { contents } => Response::ReadOk { contents: contents@ },
            FileResponse::ReadErr => Response::ReadErr,
            FileResponse::WriteResult { path, contents, success } => Response::WriteResult {
                path: path@,
                contents: contents@,
                success: *success,
            },
        }
    }
}

impl FileResponse {
    /// The operation that the response answers.
    pub fn operation(&self) -> (r: FileWire)
        ensures
            r == self@.operation(),
    {
        match self {
            FileResponse::ReadOk { .. } => FileWire::Read,
            FileResponse::ReadErr => FileWire::Read,
            FileResponse::WriteResult { .. } => FileWire::Write,
        }
    }
}

/// The read request for the path with these bytes.
pub open spec fn read_request(path: Seq<u8>) -> Tree {
    pair(atom(file_tag()), pair(atom(read_tag()), atom(path)))
}

/// The write request for the path with these bytes and for `contents`.
pub open spec fn write_request(path: Seq<u8>, contents: Seq<u8>) -> Tree {
    pair(atom(file_tag()), pair(atom(write_tag()), pair(atom(path), atom(contents))))
}

/// The effect is a cell whose head is the atom `file`.
pub open spec fn addressed_to_driver(effect: Tree) -> bool {
    effect is Cell && effect.head() == atom(file_tag())
}

/// The operation that an atom names, if it names one.
pub open spec fn operation_named(word: Tree) -> Option<FileWire> {
    if word == atom(read_tag()) {
        Some(FileWire::Read)
    } else if word == atom(write_tag()) {
        Some(FileWire::Write)
    } else {
        None
    }
}

/// The effect has the shape of a read request: `("file", "read", atom)`.
pub open spec fn is_read_request(effect: Tree) -> bool {
    &&& addressed_to_driver(effect)
    &&& effect.tail() is Cell
    &&& operation_named(effect.tail().head()) == Some(FileWire::Read)
    &&& effect.tail().tail() is Atom
}

/// The effect has the shape of a write request:
/// `("file", "write", (atom, atom))`.
pub open spec fn is_write_request(effect: Tree) -> bool {
    &&& addressed_to_driver(effect)
    &&& effect.tail() is Cell
    &&& operation_named(effect.tail().head()) == Some(FileWire::Write)
    &&& effect.tail().tail() is Cell
    &&& effect.tail().tail().head() is Atom
    &&& effect.tail().tail().tail() is Atom
}

/// The request that an effect holds.
pub open spec fn decode_spec(effect: Tree) -> Result<Request, DecodeError> {
    if is_read_request(effect) {
        let path = effect.tail().tail().bytes();
        if valid_utf8(path) {
            Ok(Request::Read { path: decode_utf8(path) })
        } else {
            Err(DecodeError::PathNotUtf8)
        }
    } else if is_write_request(effect) {
        let path = effect.tail().tail().head().bytes();
        let contents = effect.tail().tail().tail().bytes();
        if valid_utf8(path) {
            Ok(Request::Write { path: decode_utf8(path), contents })
        } else {
            Err(DecodeError::PathNotUtf8)
        }
    } else {
        Ok(Request::Unrecognized)
    }
}

/// The tree that answers a read: the four elements `file`, `read`, zero and
/// the bytes that were read, or, where none were read, the three elements
/// `file`, `read` and zero.
pub open spec fn read_poke(outcome: Option<Seq<u8>>) -> Tree {
    match outcome {
        Some(contents) => pair(
            atom(file_tag()),
            pair(atom(read_tag()), pair(zero(), atom(contents))),
        ),
        None => pair(atom(file_tag()), pair(atom(read_tag()), zero())),
    }
}

/// The tree that answers a write: the five elements `file`, `write`, the
/// path, the contents and the flag.
pub open spec fn write_poke(path: Seq<u8>, contents: Seq<u8>, success: bool) -> Tree {
    pair(
        atom(file_tag()),
        pair(atom(write_tag()), pair(atom(path), pair(atom(contents), flag(success)))),
    )
}

/// The tree that carries a response.
pub open spec fn encode_spec(response: Response) -> Tree {
    match response {
        Response::ReadOk { contents } => read_poke(Some(contents)),
        Response::ReadErr => read_poke(None),
        Response::WriteResult { path, contents, success } => write_poke(
            encode_utf8(path),
            contents,
            success,
        ),
    }
}

/// The outcome of decoding, with the request taken by its value.
pub open spec fn decoded(outcome: Result<FileRequest, DecodeError>) -> Result<
    Request,
    DecodeError,
> {
    match outcome {
        Ok(request) => Ok(request@),
        Err(error) => Err(error),
    }
}

fn is_file_tag(bytes: &Vec<u8>) -> (r: bool)
    ensures
        r == (bytes@ == file_tag()),
{
    let r = bytes.len() == 4 && bytes[0] == 'f' as u8 && bytes[1] == 'i' as u8 && bytes[2]
        == 'l' as u8 && bytes[3] == 'e' as u8;
    assert(r == (bytes@ =~= file_tag()));
    r
}

fn is_read_tag(bytes: &Vec<u8>) -> (r: bool)
    ensures
        r == (bytes@ == read_tag()),
{
    let r = bytes.len() == 4 && bytes[0] == 'r' as u8 && bytes[1] == 'e' as u8 && bytes[2]
        == 'a' as u8 && bytes[3] == 'd' as u8;
    assert(r == (bytes@ =~= read_tag()));
    r
}

fn is_write_tag(bytes: &Vec<u8>) -> (r: bool)
    ensures
        r == (bytes@ == write_tag()),
{
    let r = bytes.len() == 5 && bytes[0] == 'w' as u8 && bytes[1] == 'r' as u8 && bytes[2]
        == 'i' as u8 && bytes[3] == 't' as u8 && bytes[4] == 'e' as u8;
    assert(r == (bytes@ =~= write_tag()));
    r
}

fn file_word() -> (r: TreeValue)
    ensures
        r@ == atom(file_tag()),
{
    let bytes: Vec<u8> = vec!['f' as u8, 'i' as u8, 'l' as u8, 'e' as u8];
    assert(bytes@ =~= file_tag());
    TreeValue::atom(bytes)
}

fn read_word() -> (r: TreeValue)
    ensures
        r@ == atom(read_tag()),
{
    let bytes: Vec<u8> = vec!['r' as u8, 'e' as u8, 'a' as u8, 'd' as u8];
    assert(bytes@ =~= read_tag());
    TreeValue::atom(bytes)
}

fn write_word() -> (r: TreeValue)
    ensures
        r@ == atom(write_tag()),
{
    let bytes: Vec<u8> = vec!['w' as u8, 'r' as u8, 'i' as u8, 't' as u8, 'e' as u8];
    assert(bytes@ =~= write_tag());
    TreeValue::atom(bytes)
}

fn flag_word(yes: bool) -> (r: TreeValue)
    ensures
        r@ == flag(yes),
{
    if yes {
        TreeValue::zero()
    } else {
        let bytes: Vec<u8> = vec![1u8];
        assert(bytes@ =~= seq![1u8]);
        TreeValue::atom(bytes)
    }
}

/// Whether the effect is meant for this driver at all: a cell whose head is
/// the atom `file`.
pub fn is_addressed_to_driver(effect: &TreeValue) -> (r: bool)
    ensures
        r == addressed_to_driver(effect@),
{
    match effect.as_cell() {
        Some((tag, _)) => match tag.as_atom() {
            Some(bytes) => is_file_tag(bytes),
            None => false,
        },
        None => false,
    }
}

/// The operation that `word` names: `read`, `write`, or none.
pub fn operation_of(word: &TreeValue) -> (r: Option<FileWire>)
    ensures
        r == operation_named(word@),
{
    match word.as_atom() {
        Some(bytes) => {
            if is_read_tag(bytes) {
                Some(FileWire::Read)
            } else if is_write_tag(bytes) {
                Some(FileWire::Write)
            } else {
                None
            }
        },
        None => None,
    }
}

/// Reads the bytes of a path atom as text.
pub fn decode_path(bytes: &[u8]) -> (r: Result<String, DecodeError>)
    ensures
        r is Ok <==> valid_utf8(bytes@),
        r matches Ok(path) ==> path@ == decode_utf8(bytes@),
        r matches Err(error) ==> error == DecodeError::PathNotUtf8,
{
    match text_of(bytes) {
        Some(path) => Ok(path),
        None => Err(DecodeError::PathNotUtf8),
    }
}

/// Decodes an effect into the request that it holds.
///
/// The effect is only read. A tree that is not of the shape of a request is
/// `Unrecognized`; a request whose path is not UTF-8 is an error.
pub fn decode(effect: &TreeValue) -> (r: Result<FileRequest, DecodeError>)
    ensures
        decoded(r) == decode_spec(effect@),
{
    if !is_addressed_to_driver(effect) {
        return Ok(FileRequest::Unrecognized);
    }
    let body = match effect.as_cell() {
        Some((_, body)) => body,
        None => {
            return Ok(FileRequest::Unrecognized);
        },
    };
    let (word, argument) = match body.as_cell() {
        Some(parts) => parts,
        None => {
            return Ok(FileRequest::Unrecognized);
        },
    };
    match operation_of(word) {
        Some(FileWire::Read) => match argument.as_atom() {
            Some(path_bytes) => match decode_path(path_bytes.as_slice()) {
                Ok(path) => Ok(FileRequest::Read { path }),
                Err(error) => Err(error),
            },
            None => Ok(FileRequest::Unrecognized),
        },
        Some(FileWire::Write) => {
            let (path_atom, contents_atom) = match argument.as_cell() {
                Some(parts) => parts,
                None => {
                    return Ok(FileRequest::Unrecognized);
                },
            };
            match (path_atom.as_atom(), contents_atom.as_atom()) {
                (Some(path_bytes), Some(contents)) => match decode_path(path_bytes.as_slice()) {
                    Ok(path) => Ok(
                        FileRequest::Write { path, contents: slice_to_vec(contents.as_slice()) },
                    ),
                    Err(error) => Err(error),
                },
                _ => Ok(FileRequest::Unrecognized),
            }
        },
        None => Ok(FileRequest::Unrecognized),
    }
}

/// Encodes a response as the tree that carries it. The tree is built anew:
/// it shares nothing with the request.
pub fn encode(response: FileResponse) -> (r: TreeValue)
    ensures
        r@ == encode_spec(response@),
{
    match response {
        FileResponse::ReadOk { contents } => TreeValue::cell(
            file_word(),
            TreeValue::cell(
                read_word(),
                TreeValue::cell(TreeValue::zero(), TreeValue::atom(contents)),
            ),
        ),
        FileResponse::ReadErr => TreeValue::cell(
            file_word(),
            TreeValue::cell(read_word(), TreeValue::zero()),
        ),
        FileResponse::WriteResult { path, contents, success } => TreeValue::cell(
            file_word(),
            TreeValue::cell(
                write_word(),
                TreeValue::cell(
                    TreeValue::atom(bytes_of(path.as_str())),
                    TreeValue::cell(TreeValue::atom(contents), flag_word(success)),
                ),
            ),
        ),
    }
}

} // verus!
