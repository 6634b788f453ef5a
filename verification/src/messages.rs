//! The messages that cross the boundary between client and server.

use crate::text::{append_decimal, decimal, law_decimal_injective, law_decimal_reads_back, number};
use std::cmp::Ordering;
use vstd::prelude::*;
use vstd::std_specs::convert::FromSpec;
use vstd::string::*;

verus! {

/// What the client asks of the server.
#[derive(Debug, PartialEq, Eq)]
pub enum ServerMessage {
    Spawn(Spawn),
    Kill(Kill),
    Input(Input),
}

impl From<Spawn> for ServerMessage {
    fn from(v: Spawn) -> (message: Self) {
        ServerMessage::Spawn(v)
    }
}

impl vstd::std_specs::convert::FromSpecImpl<Spawn> for ServerMessage {
    open spec fn obeys_from_spec() -> bool {
        true
    }

    open spec fn from_spec(v: Spawn) -> Self {
        ServerMessage::Spawn(v)
    }
}

impl From<Kill> for ServerMessage {
    fn from(v: Kill) -> (message: Self) {
        ServerMessage::Kill(v)
    }
}

impl vstd::std_specs::convert::FromSpecImpl<Kill> for ServerMessage {
    open spec fn obeys_from_spec() -> bool {
        true
    }

    open spec fn from_spec(v: Kill) -> Self {
        ServerMessage::Kill(v)
    }
}

impl From<Input> for ServerMessage {
    fn from(v: Input) -> (message: Self) {
        ServerMessage::Input(v)
    }
}

impl vstd::std_specs::convert::FromSpecImpl<Input> for ServerMessage {
    open spec fn obeys_from_spec() -> bool {
        true
    }

    open spec fn from_spec(v: Input) -> Self {
        ServerMessage::Input(v)
    }
}

/// What the server tells the client.
#[derive(Debug, PartialEq, Eq)]
pub enum ClientMessage {
    ChildStarted(ChildStarted),
    ChildStopped(ChildStopped),
    Output(Output),
}

impl From<Output> for ClientMessage {
    fn from(v: Output) -> (message: Self) {
        ClientMessage::Output(v)
    }
}

impl vstd::std_specs::convert::FromSpecImpl<Output> for ClientMessage {
    open spec fn obeys_from_spec() -> bool {
        true
    }

    open spec fn from_spec(v: Output) -> Self {
        ClientMessage::Output(v)
    }
}

impl From<ChildStarted> for ClientMessage {
    fn from(v: ChildStarted) -> (message: Self) {
        ClientMessage::ChildStarted(v)
    }
}

impl vstd::std_specs::convert::FromSpecImpl<ChildStarted> for ClientMessage {
    open spec fn obeys_from_spec() -> bool {
        true
    }

    open spec fn from_spec(v: ChildStarted) -> Self {
        ClientMessage::ChildStarted(v)
    }
}

impl From<ChildStopped> for ClientMessage {
    fn from(v: ChildStopped) -> (message: Self) {
        ClientMessage::ChildStopped(v)
    }
}

impl vstd::std_specs::convert::FromSpecImpl<ChildStopped> for ClientMessage {
    open spec fn obeys_from_spec() -> bool {
        true
    }

    open spec fn from_spec(v: ChildStopped) -> Self {
        ClientMessage::ChildStopped(v)
    }
}

/// Start a process under the given id. The command is the raw bytes of the program's name.
#[derive(Debug, PartialEq, Eq)]
pub struct Spawn {
    pub psid: ProcessSequenceId,
    pub command: Vec<u8>,
}

/// Kill the process with the given id.
#[derive(Debug, PartialEq, Eq)]
pub struct Kill {
    pub psid: ProcessSequenceId,
}

/// Bytes for the standard input of a process.
#[derive(Debug, PartialEq, Eq)]
pub struct Input {
    pub psid: ProcessSequenceId,
    pub content: Vec<u8>,
}

/// The process with the given id has started.
#[derive(Debug, PartialEq, Eq)]
pub struct ChildStarted {
    pub psid: ProcessSequenceId,
}

/// The process with the given id has stopped.
#[derive(Debug, PartialEq, Eq)]
pub struct ChildStopped {
    pub psid: ProcessSequenceId,
}

/// Bytes from the standard output or the standard error of a process.
#[derive(Debug, PartialEq, Eq)]
pub struct Output {
    pub psid: ProcessSequenceId,
    pub stdout: Vec<u8>,
    pub stderr: Vec<u8>,
}

impl Output {
    /// Bytes from standard output; nothing from standard error.
    pub fn stdout(psid: ProcessSequenceId, stdout: Vec<u8>) -> (output: Self)
        ensures
            output.psid == psid,
            output.stdout == stdout,
            output.stderr@ == Seq::<u8>::empty(),
    {
        Self { psid, stdout, stderr: Vec::new() }
    }

    /// Bytes from standard error; nothing from standard output.
    pub fn stderr(psid: ProcessSequenceId, stderr: Vec<u8>) -> (output: Self)
        ensures
            output.psid == psid,
            output.stdout@ == Seq::<u8>::empty(),
            output.stderr == stderr,
    {
        Self { psid, stdout: Vec::new(), stderr }
    }
}

/// The id by which client and server name a process.
#[derive(Debug, Copy, Clone, PartialEq, Eq, Ord, Hash, Structural)]
pub struct ProcessSequenceId(pub u32);

impl PartialOrd for ProcessSequenceId {
    fn partial_cmp(&self, other: &Self) -> (order: Option<Ordering>) {
        self.0.partial_cmp(&other.0)
    }
}

impl vstd::std_specs::cmp::PartialOrdSpecImpl for ProcessSequenceId {
    open spec fn obeys_partial_cmp_spec() -> bool {
        true
    }

    open spec fn partial_cmp_spec(&self, other: &Self) -> Option<Ordering> {
        if self.0 < other.0 {
            Some(Ordering::Less)
        } else if self.0 == other.0 {
            Some(Ordering::Equal)
        } else {
            Some(Ordering::Greater)
        }
    }
}

/// How an id is written: the number between `PSID<` and `>`.
pub open spec fn psid_text(psid: ProcessSequenceId) -> Seq<char> {
    "PSID<"@ + decimal(psid.0 as nat) + ">"@
}

impl ProcessSequenceId {
    pub fn new(id: u32) -> (psid: Self)
        ensures
            psid.0 == id,
    {
        Self(id)
    }

    /// The id as text.
    pub fn to_string(&self) -> (text: String)
        ensures
            text@ == psid_text(*self),
    {
        let mut text = String::from_str("PSID<");
        append_decimal(&mut text, self.0);
        text.append(">");
        text
    }
}

/// Ids are equal where their numbers are, and ordered as their numbers are.
pub proof fn law_ids_are_ordered_by_number(a: u32, b: u32)
    ensures
        ProcessSequenceId(a) == ProcessSequenceId(b) <==> a == b,
        vstd::std_specs::cmp::PartialOrdSpec::partial_cmp_spec(
            &ProcessSequenceId(a),
            &ProcessSequenceId(b),
        ) == Some(Ordering::Less) <==> a < b,
        vstd::std_specs::cmp::PartialOrdSpec::partial_cmp_spec(
            &ProcessSequenceId(a),
            &ProcessSequenceId(b),
        ) == Some(Ordering::Equal) <==> a == b,
        vstd::std_specs::cmp::PartialOrdSpec::partial_cmp_spec(
            &ProcessSequenceId(a),
            &ProcessSequenceId(b),
        ) == Some(Ordering::Greater) <==> a > b,
{
}

/// Two ids that are written alike are the same id.
pub proof fn law_psid_text_injective(a: ProcessSequenceId, b: ProcessSequenceId)
    requires
        psid_text(a) == psid_text(b),
    ensures
        a == b,
{
    let (da, db) = (decimal(a.0 as nat), decimal(b.0 as nat));
    let (open, close) = ("PSID<"@, ">"@);
    assert(psid_text(a).len() == open.len() + da.len() + close.len());
    assert(psid_text(b).len() == open.len() + db.len() + close.len());
    assert(da =~= psid_text(a).subrange(open.len() as int, (open.len() + da.len()) as int));
    assert(db =~= psid_text(b).subrange(open.len() as int, (open.len() + db.len()) as int));
    law_decimal_injective(a.0 as nat, b.0 as nat);
}

/// Every request becomes the message of its kind, with nothing of it changed.
pub proof fn law_requests_become_messages(spawn: Spawn, kill: Kill, input: Input)
    ensures
        <ServerMessage as FromSpec<Spawn>>::obeys_from_spec(),
        <ServerMessage as FromSpec<Kill>>::obeys_from_spec(),
        <ServerMessage as FromSpec<Input>>::obeys_from_spec(),
        <ServerMessage as FromSpec<Spawn>>::from_spec(spawn) == ServerMessage::Spawn(spawn),
        <ServerMessage as FromSpec<Kill>>::from_spec(kill) == ServerMessage::Kill(kill),
        <ServerMessage as FromSpec<Input>>::from_spec(input) == ServerMessage::Input(input),
{
}

/// Every report becomes the message of its kind, with nothing of it changed.
pub proof fn law_reports_become_messages(
    started: ChildStarted,
    stopped: ChildStopped,
    output: Output,
)
    ensures
        <ClientMessage as FromSpec<ChildStarted>>::obeys_from_spec(),
        <ClientMessage as FromSpec<ChildStopped>>::obeys_from_spec(),
        <ClientMessage as FromSpec<Output>>::obeys_from_spec(),
        <ClientMessage as FromSpec<ChildStarted>>::from_spec(started)
            == ClientMessage::ChildStarted(started),
        <ClientMessage as FromSpec<ChildStopped>>::from_spec(stopped)
            == ClientMessage::ChildStopped(stopped),
        <ClientMessage as FromSpec<Output>>::from_spec(output) == ClientMessage::Output(output),
{
}

/// Output carries the id and all the bytes that it is made of, in its own stream alone: the same
/// bytes of the two streams make outputs that mirror each other.
pub proof fn law_output_keeps_its_bytes(
    psid: ProcessSequenceId,
    data: Vec<u8>,
    out: Output,
    err: Output,
)
    requires
        call_ensures(Output::stdout, (psid, data), out),
        call_ensures(Output::stderr, (psid, data), err),
    ensures
        out.psid == psid && err.psid == psid,
        out.stdout@ == data@ && err.stderr@ == data@,
        out.stderr@.len() == 0 && err.stdout@.len() == 0,
{
}

/// An id keeps the number that it is made of.
pub proof fn law_id_keeps_its_number(id: u32, psid: ProcessSequenceId)
    requires
        call_ensures(ProcessSequenceId::new, (id,), psid),
    ensures
        psid == ProcessSequenceId(id),
{
}

/// An id is written as its number in decimal, between `PSID<` and `>`.
pub proof fn law_psid_text(psid: ProcessSequenceId, text: String)
    requires
        call_ensures(ProcessSequenceId::to_string, (&psid,), text),
    ensures
        ({
            let (open, close) = ("PSID<"@, ">"@);
            let digits = text@.subrange(open.len() as int, text@.len() - close.len());
            &&& text@ == open + digits + close
            &&& number(digits) == psid.0
            &&& digits.len() >= 1
            &&& digits.len() > 1 ==> digits[0] != '0'
            &&& forall|i: int| 0 <= i < digits.len() ==> '0' <= #[trigger] digits[i] <= '9'
        }),
        text@ == psid_text(psid),
{
    let (open, close) = ("PSID<"@, ">"@);
    let digits = text@.subrange(open.len() as int, text@.len() - close.len());
    assert(digits =~= decimal(psid.0 as nat));
    law_decimal_reads_back(psid.0 as nat);
    assert(text@ =~= open + digits + close);
}

} // verus!
