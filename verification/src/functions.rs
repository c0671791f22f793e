//! The functions the extension offers to the engine, and the table by which
//! it registers them.
//!
//! Each function takes its arguments as the texts the engine holds for them,
//! in call order, and gives back the value the engine is to return: a text,
//! the GET whose body is the value, or a capability left in the result slot.

use vstd::prelude::*;
use vstd::string::*;
use crate::error::MissingArgument;
use crate::reader::{completed, GetRequest, RequestReader};
use crate::registry::{lookup, Slot, READER_POINTER_NAME};

verus! {

/// The version as the engine shows it: `v` and the version.
pub open spec fn version_text(version: Seq<char>) -> Seq<char> {
    "v"@ + version
}

/// The two lines of build information: the version text, then the source
/// revision, each line ended by a line feed.
pub open spec fn debug_text(version: Seq<char>, revision: Seq<char>) -> Seq<char> {
    "Version: "@ + version_text(version) + "\nSource: "@ + revision + "\n"@
}

/// One of the ten decimal digits.
pub open spec fn is_digit(c: char) -> bool {
    c == '0' || c == '1' || c == '2' || c == '3' || c == '4' || c == '5' || c == '6' || c == '7'
        || c == '8' || c == '9'
}

/// A number written in decimal digits, at least one.
pub open spec fn is_number(text: Seq<char>) -> bool {
    text.len() > 0 && forall|i: int| 0 <= i < text.len() ==> is_digit(#[trigger] text[i])
}

/// A version of the form `major.minor.patch`, each part a number.
pub open spec fn is_semantic_version(text: Seq<char>) -> bool {
    exists|major: Seq<char>, minor: Seq<char>, patch: Seq<char>|
        is_number(major) && is_number(minor) && is_number(patch) && text == #[trigger] dotted(
            major,
            minor,
            patch,
        )
}

/// The three parts of a version joined by dots.
pub open spec fn dotted(major: Seq<char>, minor: Seq<char>, patch: Seq<char>) -> Seq<char> {
    major + seq!['.'] + minor + seq!['.'] + patch
}

/// The URL argument of a call: the first value, if there is one.
pub open spec fn url_argument(values: Seq<String>) -> Result<Seq<char>, MissingArgument> {
    if values.len() > 0 {
        Ok(values[0]@)
    } else {
        Err(MissingArgument { position: 0 })
    }
}

/// `http_version()`: the version of the extension, `version` being the
/// semantic version it was built as.
pub fn http_version(version: &str) -> (text: String)
    ensures
        text@ == version_text(version@),
{
    let mut text = String::from_str("v");
    text.append(version);
    text
}

/// `http_debug()`: the version and the source revision the extension was
/// built from, one per line.
pub fn http_debug(version: &str, revision: &str) -> (text: String)
    ensures
        text@ == debug_text(version@, revision@),
{
    let mut text = String::from_str("Version: ");
    text.append(http_version(version).as_str());
    text.append("\nSource: ");
    text.append(revision);
    text.append("\n");
    text
}

/// `http_get_body(url)`: the GET whose whole body is the value of the call.
/// The request is for the first argument, taken as it is. A second argument
/// is accepted in the place of headers and has no effect, and no cookie is
/// sent. Without a first argument there is nothing to fetch.
pub fn http_get_body(values: &[String]) -> (request: Result<GetRequest, MissingArgument>)
    ensures
        match request {
            Ok(request) => url_argument(values@) == Ok::<Seq<char>, MissingArgument>(request@),
            Err(error) => url_argument(values@) == Err::<Seq<char>, MissingArgument>(error),
        },
{
    if values.len() == 0 {
        return Err(MissingArgument { position: 0 });
    }
    Ok(GetRequest::new(values[0].clone()))
}

/// `http_request(url)`: leaves in `slot`, under the tag of stream producers,
/// a descriptor of the GET for the first argument. Nothing is fetched and the
/// URL is not looked into. Without a first argument the slot stays as it was.
pub fn http_request(slot: &mut Slot<RequestReader>, values: &[String]) -> (done: Result<
    (),
    MissingArgument,
>)
    ensures
        match url_argument(values@) {
            Ok(url) => done is Ok && (final(slot)@ matches Some((tag, reader))
                && tag == READER_POINTER_NAME@ && reader@ == url),
            Err(error) => done == Err::<(), MissingArgument>(error) && final(slot)@ == old(slot)@,
        },
{
    if values.len() == 0 {
        return Err(MissingArgument { position: 0 });
    }
    slot.register(READER_POINTER_NAME, RequestReader::new(values[0].clone()));
    Ok(())
}

/// Which function of the library a registered name runs.
#[derive(Clone, Copy, Debug, PartialEq, Eq, Structural)]
pub enum EntryPoint {
    /// `http_version`
    Version,
    /// `http_debug`
    Debug,
    /// `http_get_body`
    GetBody,
    /// `http_request`
    Request,
}

/// One scalar function as the engine is told of it.
#[derive(Clone, Copy, Debug)]
pub struct ScalarFunction {
    /// The name by which queries call it.
    pub name: &'static str,
    /// The number of arguments the engine lets a call have.
    pub arity: i32,
    /// Texts pass to and from it as UTF-8.
    pub utf8: bool,
    /// The same arguments give the same value within one statement.
    pub deterministic: bool,
    /// The function it runs.
    pub entry: EntryPoint,
}

impl ScalarFunction {
    /// The registration is the one for `name`, with these properties.
    pub open spec fn defines(
        self,
        name: Seq<char>,
        arity: int,
        deterministic: bool,
        entry: EntryPoint,
    ) -> bool {
        &&& self.name@ == name
        &&& self.arity == arity
        &&& self.utf8
        &&& self.deterministic == deterministic
        &&& self.entry == entry
    }
}

/// The functions the extension defines when it is loaded, in the order in
/// which it defines them. The two that report on the build are deterministic;
/// the two that fetch are not. `http_get_body` is defined with no argument
/// although it reads its URL from the first.
pub fn sqlite3_http_init() -> (functions: Vec<ScalarFunction>)
    ensures
        functions@.len() == 4,
        functions@[0].defines("http_version"@, 0, true, EntryPoint::Version),
        functions@[1].defines("http_debug"@, 0, true, EntryPoint::Debug),
        functions@[2].defines("http_get_body"@, 0, false, EntryPoint::GetBody),
        functions@[3].defines("http_request"@, 1, false, EntryPoint::Request),
{
    let mut functions: Vec<ScalarFunction> = Vec::new();
    functions.push(
        ScalarFunction {
            name: "http_version",
            arity: 0,
            utf8: true,
            deterministic: true,
            entry: EntryPoint::Version,
        },
    );
    functions.push(
        ScalarFunction {
            name: "http_debug",
            arity: 0,
            utf8: true,
            deterministic: true,
            entry: EntryPoint::Debug,
        },
    );
    functions.push(
        ScalarFunction {
            name: "http_get_body",
            arity: 0,
            utf8: true,
            deterministic: false,
            entry: EntryPoint::GetBody,
        },
    );
    functions.push(
        ScalarFunction {
            name: "http_request",
            arity: 1,
            utf8: true,
            deterministic: false,
            entry: EntryPoint::Request,
        },
    );
    functions
}

/// The version text of a semantic version is the letter `v` followed by
/// that version: `v<major>.<minor>.<patch>`.
pub proof fn lemma_version_text_shape(version: Seq<char>)
    requires
        is_semantic_version(version),
    ensures
        version_text(version).len() == version.len() + 1,
        version_text(version)[0] == 'v',
        is_semantic_version(version_text(version).skip(1)),
{
    reveal_strlit("v");
    assert(version_text(version).skip(1) =~= version);
}

/// What stands in the place of headers has no effect: two calls with the same
/// first argument ask for the same URL, whatever follows it.
pub proof fn lemma_later_arguments_have_no_effect(values: Seq<String>, others: Seq<String>)
    requires
        values.len() > 0,
        others.len() > 0,
        values[0]@ == others[0]@,
    ensures
        url_argument(values) == url_argument(others),
        url_argument(values) == Ok::<Seq<char>, MissingArgument>(values[0]@),
{
}

/// For the same arguments the eager call and the deferred one perform the
/// same GET. `eager` is the request of `http_get_body`, `slot` what
/// `http_request` leaves behind, and `deferred` a request generated from what
/// a consumer finds there under the readers' tag: it does find the descriptor,
/// and the two requests are for one URL. A transport that answers equal
/// requests alike therefore gives both paths the same bytes, or fails both
/// with the same cause.
pub proof fn lemma_eager_and_deferred_agree(
    values: Seq<String>,
    eager: GetRequest,
    slot: Option<(Seq<char>, RequestReader)>,
    deferred: GetRequest,
    transport: spec_fn(Seq<char>) -> Result<Seq<u8>, reqwest::Error>,
)
    requires
        url_argument(values) == Ok::<Seq<char>, MissingArgument>(eager@),
        slot matches Some((tag, reader)) && tag == READER_POINTER_NAME@ && url_argument(values)
            == Ok::<Seq<char>, MissingArgument>(reader@),
        lookup(slot, READER_POINTER_NAME@) matches Ok(found) ==> deferred@ == found@,
    ensures
        lookup(slot, READER_POINTER_NAME@) is Ok,
        deferred@ == eager@,
        completed(transport(deferred@)) == completed(transport(eager@)),
{
}

} // verus!
