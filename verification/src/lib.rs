//! Resolves a context-server identifier to the command line that launches it.
//!
//! The library recognizes a fixed, compiled-in set of server names (currently
//! exactly one, the ebook-management server) and maps each to a launch
//! specification: the runner executable, its ordered arguments, and
//! environment-variable overrides. An unrecognized identifier yields a lookup
//! error carrying that identifier. Resolution is a pure function of the
//! identifier alone; it describes how the server process should be started and
//! never starts it.

use vstd::prelude::*;

verus! {

/// The single recognized server name.
pub open spec fn recognized_name() -> Seq<char> {
    "calibre-mcp"@
}

/// The runner executable that launches a recognized server.
pub open spec fn runner_name() -> Seq<char> {
    "uv"@
}

/// The runner subcommand that executes a named installed program.
pub open spec fn runner_subcommand() -> Seq<char> {
    "run"@
}

/// The fixed prefix of every lookup-failure message.
pub open spec fn message_prefix() -> Seq<char> {
    "Unknown server: "@
}

/// The diagnostic message for an unrecognized identifier: the fixed prefix
/// followed by that identifier verbatim.
pub open spec fn unknown_server_message(identifier: Seq<char>) -> Seq<char> {
    message_prefix() + identifier
}

/// Mathematical description of a launch specification.
#[verifier::ext_equal]
pub struct LaunchSpecModel {
    pub command: Seq<char>,
    pub args: Seq<Seq<char>>,
    pub env: Seq<(Seq<char>, Seq<char>)>,
}

/// The launch specification of the recognized server: the runner executes the
/// server program by name, with no extra flags and no environment overrides.
pub open spec fn recognized_launch() -> LaunchSpecModel {
    LaunchSpecModel {
        command: runner_name(),
        args: seq![runner_subcommand(), recognized_name()],
        env: Seq::empty(),
    }
}

/// What resolution returns, as a function of the identifier alone: the
/// recognized name maps to its launch specification, every other identifier
/// to a failure carrying that identifier.
pub open spec fn spec_resolve(identifier: Seq<char>) -> Result<LaunchSpecModel, Seq<char>> {
    if identifier == recognized_name() {
        Ok(recognized_launch())
    } else {
        Err(identifier)
    }
}

/// A server identifier as supplied by the host: an arbitrary string.
pub struct ServerIdentifier(pub String);

impl View for ServerIdentifier {
    type V = Seq<char>;

    open spec fn view(&self) -> Seq<char> {
        self.0@
    }
}

/// An opaque handle to host-side workspace state. Accepted and passed
/// through; resolution never inspects it.
pub struct ProjectContext {
    pub handle: u64,
}

/// How to start a server process: the executable, its ordered arguments, and
/// environment-variable overrides (possibly none).
pub struct LaunchSpec {
    pub command: String,
    pub args: Vec<String>,
    pub env: Vec<(String, String)>,
}

impl View for LaunchSpec {
    type V = LaunchSpecModel;

    open spec fn view(&self) -> LaunchSpecModel {
        LaunchSpecModel {
            command: self.command@,
            args: Seq::new(self.args@.len(), |i: int| self.args@[i]@),
            env: Seq::new(self.env@.len(), |i: int| (self.env@[i].0@, self.env@[i].1@)),
        }
    }
}

/// The one kind of failure: the requested identifier is not recognized.
/// It carries that identifier for diagnostic display.
pub struct LookupError {
    pub identifier: String,
}

impl View for LookupError {
    type V = Seq<char>;

    open spec fn view(&self) -> Seq<char> {
        self.identifier@
    }
}

impl LookupError {
    /// The human-readable message naming the offending identifier.
    pub fn message(&self) -> (m: String)
        ensures
            m@ == unknown_server_message(self@),
    {
        let prefix = String::from_str("Unknown server: ");
        prefix.concat(self.identifier.as_str())
    }
}

/// A resolution result, reduced to its mathematical description.
pub open spec fn resolution_view(r: Result<LaunchSpec, LookupError>) -> Result<
    LaunchSpecModel,
    Seq<char>,
> {
    match r {
        Ok(launch) => Ok(launch@),
        Err(error) => Err(error@),
    }
}

/// Whether the identifier names a recognized server. The comparison is exact
/// string equality: no normalization, no case folding.
pub fn is_recognized(identifier: &ServerIdentifier) -> (r: bool)
    ensures
        r == (identifier@ == recognized_name()),
{
    let expected = String::from_str("calibre-mcp");
    identifier.0 == expected
}

/// Maps a server identifier to the command line that starts that server, or
/// reports a lookup failure naming the identifier. The result is a function
/// of the identifier alone; the project context is accepted but not read.
pub fn resolve(identifier: &ServerIdentifier, project: &ProjectContext) -> (r: Result<
    LaunchSpec,
    LookupError,
>)
    ensures
        resolution_view(r) == spec_resolve(identifier@),
        r is Ok <==> identifier@ == recognized_name(),
{
    if is_recognized(identifier) {
        let mut args: Vec<String> = Vec::new();
        args.push(String::from_str("run"));
        args.push(String::from_str("calibre-mcp"));
        let launch = LaunchSpec { command: String::from_str("uv"), args, env: Vec::new() };
        proof {
            assert(launch@ =~~= recognized_launch());
        }
        Ok(launch)
    } else {
        Err(LookupError { identifier: identifier.0.clone() })
    }
}

/// Resolution is deterministic and ignores the project context: two results
/// that each meet `resolve`'s contract for the same identifier describe the
/// same resolution, whichever contexts the two calls were given.
pub proof fn lemma_resolution_deterministic(
    identifier: Seq<char>,
    first_context: ProjectContext,
    second_context: ProjectContext,
    first: Result<LaunchSpec, LookupError>,
    second: Result<LaunchSpec, LookupError>,
)
    requires
        resolution_view(first) == spec_resolve(identifier),
        resolution_view(second) == spec_resolve(identifier),
    ensures
        resolution_view(first) == resolution_view(second),
{
}

/// An identifier of a different length than the recognized name never
/// resolves; in particular no strict substring or extension of it does.
pub proof fn lemma_length_mismatch_rejected(identifier: Seq<char>)
    requires
        identifier.len() != recognized_name().len(),
    ensures
        spec_resolve(identifier) is Err,
{
}

/// The comparison is exact: an identifier that differs from the recognized
/// name at any position — a case-altered variant, for instance — never
/// resolves.
pub proof fn lemma_altered_name_rejected(identifier: Seq<char>, i: int)
    requires
        0 <= i < identifier.len(),
        i < recognized_name().len(),
        identifier[i] != recognized_name()[i],
    ensures
        spec_resolve(identifier) is Err,
{
    if identifier == recognized_name() {
        assert(identifier[i] == recognized_name()[i]);
    }
}

/// The failure message embeds the offending identifier verbatim: it is
/// exactly the fixed prefix followed by the identifier.
pub proof fn lemma_message_embeds_identifier(identifier: Seq<char>)
    ensures
        unknown_server_message(identifier).len() == message_prefix().len() + identifier.len(),
        unknown_server_message(identifier).skip(message_prefix().len() as int) == identifier,
        unknown_server_message(identifier).take(message_prefix().len() as int) == message_prefix(),
{
    assert(unknown_server_message(identifier).skip(message_prefix().len() as int) =~= identifier);
    assert(unknown_server_message(identifier).take(message_prefix().len() as int)
        =~= message_prefix());
}

} // verus!
