//! The engine's JSON command bridge.

use vstd::prelude::*;
use vstd::string::*;
use crate::text::{numeral, occurs};

verus! {

/// The greatest number of bytes that a request may have.
pub const MAX_REQUEST_BYTES: u64 = 1_048_576;

/// The engine may answer a request so.  A relation, since some commands read
/// files: one request can have several answers.
pub uninterp spec fn may_answer(request: Seq<char>, answer: Seq<char>) -> bool;

/// A text in the shape of a response: an object that says whether the request
/// succeeded, with the result or with the error.
pub open spec fn response(s: Seq<char>) -> bool {
    &&& s.len() >= 2
    &&& s[0] == '{'
    &&& s.last() == '}'
    &&& occurs(s, "\"api_version\":1"@)
    &&& occurs(s, "\"engine_version\":\""@)
    &&& occurs(s, "\"ok\":true"@) && occurs(s, "\"result\":"@) || reports_failure(s)
}

/// The response reports a failure, with an error code and a message.
pub open spec fn reports_failure(s: Seq<char>) -> bool {
    &&& occurs(s, "\"ok\":false"@)
    &&& occurs(s, "\"error\":{\"code\":\""@)
    &&& occurs(s, "\"message\":\""@)
}

/// The response reports that a command succeeded.
pub open spec fn reports_success(s: Seq<char>, command: Seq<char>) -> bool {
    &&& occurs(s, "\"ok\":true"@)
    &&& occurs(s, "\"command\":\""@ + command + "\""@)
    &&& occurs(s, "\"result\":{"@)
    &&& !occurs(s, "\"ok\":false"@)
}

/// A request envelope without a payload.
pub open spec fn envelope(version: nat, command: Seq<char>) -> Seq<char> {
    "{\"api_version\":"@ + numeral(version) + ",\"command\":\""@ + command + "\"}"@
}

/// A text that a JSON string holds as it is: no quote, no backslash, no control
/// character.
pub open spec fn plain(s: Seq<char>) -> bool {
    forall|i: int|
        0 <= i < s.len() ==> (#[trigger] s[i]) != '"' && s[i] != '\\' && s[i] as u32 >= 32
}

/// The commands that need no payload.
pub open spec fn needs_no_payload(command: Seq<char>) -> bool {
    command == "meta.version"@ || command == "meta.capabilities"@
}

/// An envelope without a payload succeeds if its version is 1 and its command
/// needs none, and else it fails.
pub open spec fn answers_envelope(request: Seq<char>, answer: Seq<char>) -> bool {
    forall|version: nat, command: Seq<char>|
        request == #[trigger] envelope(version, command) && plain(command) ==> if version == 1
            && needs_no_payload(command) {
            reports_success(answer, command)
        } else {
            reports_failure(answer)
        }
}

/// JSON's white space.
pub open spec fn white(c: char) -> bool {
    c == ' ' || c == '\n' || c == '\r' || c == '\t'
}

/// The first character that is not white space opens an object or an array, and
/// the last one closes one.
pub open spec fn bracketed(s: Seq<char>) -> bool {
    exists|i: int, j: int|
        {
            &&& 0 <= i < j < s.len()
            &&& #[trigger] s[i] == '{' || s[i] == '['
            &&& #[trigger] s[j] == '}' || s[j] == ']'
            &&& forall|k: int| 0 <= k < i || j < k < s.len() ==> white(#[trigger] s[k])
        }
}

/// A command's name stands in the text, in quotes.
pub open spec fn names_command(s: Seq<char>) -> bool {
    ||| occurs(s, "\"meta.capabilities\""@)
    ||| occurs(s, "\"meta.version\""@)
    ||| occurs(s, "\"solve\""@)
    ||| occurs(s, "\"card.come_ups\""@)
    ||| occurs(s, "\"card.range_table\""@)
    ||| occurs(s, "\"card.wind\""@)
    ||| occurs(s, "\"card.pdf\""@)
    ||| occurs(s, "\"profile.validate\""@)
    ||| occurs(s, "\"profile.normalize\""@)
    ||| occurs(s, "\"profile.import_a7p\""@)
    ||| occurs(s, "\"true.fit\""@)
    ||| occurs(s, "\"true.wind\""@)
    ||| occurs(s, "\"true.tall_target\""@)
    ||| occurs(s, "\"true.dsf\""@)
    ||| occurs(s, "\"true.plan\""@)
    ||| occurs(s, "\"true.dial_plan\""@)
    ||| occurs(s, "\"bc5d.info\""@)
}

/// A request that no command can be made of: it is no JSON object or array, it
/// holds no `1` for the version, or, with nothing escaped in it, it names no
/// command.
pub open spec fn malformed(s: Seq<char>) -> bool {
    ||| !bracketed(s)
    ||| !s.contains('1')
    ||| !s.contains('\\') && !names_command(s)
}

/// Calls `ballistics_engine::bridge::bridge_call`, which gives one response to
/// every request and reports every failure within it, with an error code and a
/// message.  A request of more than the greatest number of bytes fails, and so does
/// a malformed one.  Of the
/// envelopes without a payload those for the version and the capabilities
/// succeed and all others fail.  What a command with a payload answers is not
/// stated, beyond that it is an answer to this request: some commands read
/// files.
#[verifier::external_body]
fn call_engine(request_json: &str) -> (r: String)
    ensures
        may_answer(request_json@, r@),
        response(r@),
        request_json.spec_bytes().len() > MAX_REQUEST_BYTES ==> reports_failure(r@),
        malformed(request_json@) ==> reports_failure(r@),
        answers_envelope(request_json@, r@),
{
    ballistics_engine::bridge::bridge_call(request_json)
}

/// Hands a request envelope to the engine and gives back its response envelope,
/// both JSON, as they are.  A failure is reported in the response.
pub fn bridge_call(request_json: &str) -> (r: String)
    ensures
        may_answer(request_json@, r@),
        response(r@),
        request_json.spec_bytes().len() > MAX_REQUEST_BYTES ==> reports_failure(r@),
        malformed(request_json@) ==> reports_failure(r@),
        answers_envelope(request_json@, r@),
{
    call_engine(request_json)
}

} // verus!
