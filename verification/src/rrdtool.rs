//! The time-series tool: the commands it is run with, and what a finished
//! run means.

use vstd::prelude::*;
use vstd::string::*;
use vstd::utf8::*;

use crate::text::{join, joined, push_text, texts};

verus! {

/// The four operations of the time-series tool.
#[derive(Clone, Copy, Debug)]
pub struct RRDTool;

/// A command line: the program and its arguments.
#[derive(Clone, Debug, PartialEq, Eq)]
pub struct Command {
    pub program: String,
    pub args: Vec<String>,
}

/// What a run of the tool left behind.
#[derive(Clone, Debug, PartialEq, Eq)]
pub struct Output {
    /// Whether the tool exited with status zero.
    pub success: bool,
    pub stdout: Vec<u8>,
    pub stderr: Vec<u8>,
}

/// How an attempt to run the tool ended.
#[derive(Clone, Debug, PartialEq, Eq)]
pub enum Completion {
    /// The tool ran and exited.
    Exited(Output),
    /// The tool could not be started; the system's words are kept.
    NotStarted(String),
}

/// Why an operation of the tool failed.
#[derive(Clone, Debug, PartialEq, Eq)]
pub enum GatewayError {
    /// `create` exited with a status other than zero.
    CreateFailed(String),
    /// `update` exited with a status other than zero.
    UpdateFailed(String),
    /// `graph` exited with a status other than zero.
    RenderFailed(String),
    /// `info` exited with a status other than zero.
    InfoFailed(String),
    /// The tool could not be started.
    NotStarted(String),
    /// Output of the tool that had to be read is not UTF-8.
    NotText,
}

/// The operation that a run of the tool belongs to.
#[derive(Clone, Copy, Debug, PartialEq, Eq, Structural)]
pub enum Operation {
    Create,
    Info,
    Update,
    Graph,
}

/// Arguments of `create`.
pub open spec fn create_args(file: Seq<char>, args: Seq<Seq<char>>) -> Seq<Seq<char>> {
    seq!["create"@, file] + args
}

/// Arguments of `info`.
pub open spec fn info_args(file: Seq<char>) -> Seq<Seq<char>> {
    seq!["info"@, file]
}

/// Arguments of `update`: the values are stamped with the time of the
/// update, `N`, and separated by colons.
pub open spec fn update_args(file: Seq<char>, values: Seq<Seq<char>>) -> Seq<Seq<char>> {
    seq!["update"@, file, "N:"@ + joined(values, ":"@)]
}

/// Arguments of `graph`.
pub open spec fn graph_args(outfile: Seq<char>, args: Seq<Seq<char>>) -> Seq<Seq<char>> {
    seq!["graph"@, outfile] + args
}

/// The layout of a new store: a step of 1800 seconds, two gauges with a
/// heartbeat of 2000 seconds, and four archives each of averages and of
/// maxima.
pub open spec fn schema_args() -> Seq<Seq<char>> {
    seq![
        "--step"@,
        "1800"@,
        "--start"@,
        "0"@,
        "DS:temperature:GAUGE:2000:U:U"@,
        "DS:humidity:GAUGE:2000:U:U"@,
        "RRA:AVERAGE:0.5:1:600"@,
        "RRA:AVERAGE:0.5:6:700"@,
        "RRA:AVERAGE:0.5:24:775"@,
        "RRA:AVERAGE:0.5:288:797"@,
        "RRA:MAX:0.5:1:600"@,
        "RRA:MAX:0.5:6:700"@,
        "RRA:MAX:0.5:24:775"@,
        "RRA:MAX:0.5:444:797"@,
    ]
}

impl Command {
    /// Whether the command runs the tool with exactly `args`.
    pub open spec fn runs(self, args: Seq<Seq<char>>) -> bool {
        self.program@ == "rrdtool"@ && texts(self.args@) == args
    }
}

impl Output {
    /// The captured output as it is quoted in an error, where both streams
    /// are UTF-8.
    pub open spec fn quoted(self) -> Option<Seq<char>> {
        if valid_utf8(self.stdout@) && valid_utf8(self.stderr@) {
            Some(
                "stdout: "@ + decode_utf8(self.stdout@) + "\nstderr: "@ + decode_utf8(
                    self.stderr@,
                ),
            )
        } else {
            None
        }
    }
}

impl Operation {
    /// Whether `e` is the failure of this operation with the words `why`.
    pub open spec fn failed_with(self, e: GatewayError, why: Seq<char>) -> bool {
        match self {
            Operation::Create => e matches GatewayError::CreateFailed(t) && t@ == why,
            Operation::Info => e matches GatewayError::InfoFailed(t) && t@ == why,
            Operation::Update => e matches GatewayError::UpdateFailed(t) && t@ == why,
            Operation::Graph => e matches GatewayError::RenderFailed(t) && t@ == why,
        }
    }
}

impl Completion {
    /// Whether the run counts as a success of an operation whose output is
    /// not read.
    pub open spec fn succeeded(self) -> bool {
        self matches Completion::Exited(out) && out.success
    }

    /// What `info` printed, where the run tells that the store exists: the
    /// tool exited with status zero and its standard output is UTF-8.
    pub open spec fn described(self) -> Option<Seq<char>> {
        match self {
            Completion::Exited(out) => if out.success && valid_utf8(out.stdout@) {
                Some(decode_utf8(out.stdout@))
            } else {
                None
            },
            Completion::NotStarted(_) => None,
        }
    }

    /// Whether `e` is the error that this run means for `info`: `NotText`
    /// where the tool exited with status zero, else as for every operation.
    pub open spec fn hides_store(self, e: GatewayError) -> bool {
        if self.succeeded() {
            e is NotText
        } else {
            self.fails_as(Operation::Info, e)
        }
    }

    /// Whether `e` is the error that this run means for the operation `op`.
    ///
    /// A tool that did not start gives `NotStarted`.  An exit status other
    /// than zero gives the failure of `op` with the captured output quoted,
    /// or `NotText` where that output is not UTF-8.
    pub open spec fn fails_as(self, op: Operation, e: GatewayError) -> bool {
        match self {
            Completion::NotStarted(why) => e matches GatewayError::NotStarted(t) && t@ == why@,
            Completion::Exited(out) => !out.success && match out.quoted() {
                Some(q) => op.failed_with(e, q),
                None => e is NotText,
            },
        }
    }
}

impl GatewayError {
    /// The error in words.
    pub open spec fn words(self) -> Seq<char> {
        match self {
            GatewayError::CreateFailed(why) => "Error creating file:\n"@ + why@,
            GatewayError::UpdateFailed(why) => "Error Updating file:\n"@ + why@,
            GatewayError::RenderFailed(why) => "Error creating graph:\n"@ + why@,
            GatewayError::InfoFailed(why) => "Error calling rrdtool info:\n"@ + why@,
            GatewayError::NotStarted(why) => why@,
            GatewayError::NotText => "Output of rrdtool is not UTF-8"@,
        }
    }

    /// Puts the error in words.
    pub fn message(&self) -> (m: String)
        ensures
            m@ == self.words(),
    {
        match self {
            GatewayError::CreateFailed(why) => String::from_str("Error creating file:\n").concat(
                why.as_str(),
            ),
            GatewayError::UpdateFailed(why) => String::from_str("Error Updating file:\n").concat(
                why.as_str(),
            ),
            GatewayError::RenderFailed(why) => String::from_str("Error creating graph:\n").concat(
                why.as_str(),
            ),
            GatewayError::InfoFailed(why) => String::from_str(
                "Error calling rrdtool info:\n",
            ).concat(why.as_str()),
            GatewayError::NotStarted(why) => why.clone(),
            GatewayError::NotText => String::from_str("Output of rrdtool is not UTF-8"),
        }
    }
}

/// `std::str::from_utf8`: the bytes as a string slice where they are valid
/// UTF-8, and `None` where they are not.
#[verifier::external_body]
pub(crate) fn utf8(bytes: &[u8]) -> (r: Option<&str>)
    ensures
        match r {
            Some(s) => valid_utf8(bytes@) && s.spec_bytes() == bytes@,
            None => !valid_utf8(bytes@),
        },
{
    std::str::from_utf8(bytes).ok()
}

/// The text that `bytes` encode.
pub fn decode(bytes: &[u8]) -> (r: Option<&str>)
    ensures
        match r {
            Some(s) => valid_utf8(bytes@) && s@ == decode_utf8(bytes@),
            None => !valid_utf8(bytes@),
        },
{
    let r = utf8(bytes);
    proof {
        if let Some(s) = r {
            encode_utf8_decode_utf8(s@);
        }
    }
    r
}

/// Quotes the captured output of a run.
fn quote(out: &Output) -> (r: Option<String>)
    ensures
        match r {
            Some(q) => out.quoted() == Some(q@),
            None => out.quoted() is None,
        },
{
    let stdout = match decode(out.stdout.as_slice()) {
        Some(s) => s,
        None => {
            return None;
        },
    };
    let stderr = match decode(out.stderr.as_slice()) {
        Some(s) => s,
        None => {
            return None;
        },
    };
    let mut q = String::from_str("stdout: ");
    q.append(stdout);
    q.append("\nstderr: ");
    q.append(stderr);
    Some(q)
}

/// The error that a run which did not succeed means for `op`.
fn failure(op: Operation, done: Completion) -> (e: GatewayError)
    requires
        !done.succeeded(),
    ensures
        done.fails_as(op, e),
{
    match done {
        Completion::NotStarted(why) => GatewayError::NotStarted(why),
        Completion::Exited(out) => match quote(&out) {
            None => GatewayError::NotText,
            Some(q) => match op {
                Operation::Create => GatewayError::CreateFailed(q),
                Operation::Info => GatewayError::InfoFailed(q),
                Operation::Update => GatewayError::UpdateFailed(q),
                Operation::Graph => GatewayError::RenderFailed(q),
            },
        },
    }
}

/// What a finished run means for an operation whose output is read only
/// when it fails.
pub fn outcome(op: Operation, done: Completion) -> (r: Result<(), GatewayError>)
    ensures
        r is Ok <==> done.succeeded(),
        r matches Err(e) ==> done.fails_as(op, e),
{
    let ok = match &done {
        Completion::Exited(out) => out.success,
        Completion::NotStarted(_) => false,
    };
    if ok {
        Ok(())
    } else {
        Err(failure(op, done))
    }
}

impl RRDTool {
    /// The layout that every store is created with.
    pub fn schema() -> (args: Vec<String>)
        ensures
            texts(args@) == schema_args(),
    {
        let mut args: Vec<String> = Vec::new();
        assert(texts(args@) =~= Seq::<Seq<char>>::empty());
        push_text(&mut args, "--step");
        push_text(&mut args, "1800");
        push_text(&mut args, "--start");
        push_text(&mut args, "0");
        push_text(&mut args, "DS:temperature:GAUGE:2000:U:U");
        push_text(&mut args, "DS:humidity:GAUGE:2000:U:U");
        push_text(&mut args, "RRA:AVERAGE:0.5:1:600");
        push_text(&mut args, "RRA:AVERAGE:0.5:6:700");
        push_text(&mut args, "RRA:AVERAGE:0.5:24:775");
        push_text(&mut args, "RRA:AVERAGE:0.5:288:797");
        push_text(&mut args, "RRA:MAX:0.5:1:600");
        push_text(&mut args, "RRA:MAX:0.5:6:700");
        push_text(&mut args, "RRA:MAX:0.5:24:775");
        push_text(&mut args, "RRA:MAX:0.5:444:797");
        assert(texts(args@) =~= schema_args());
        args
    }

    /// A command of the tool: the operation's name, the file it works on,
    /// and further arguments.
    fn command(name: &str, file: &str, rest: &Vec<String>) -> (c: Command)
        ensures
            c.runs(seq![name@, file@] + texts(rest@)),
    {
        let mut args: Vec<String> = Vec::new();
        assert(texts(args@) =~= Seq::<Seq<char>>::empty());
        push_text(&mut args, name);
        push_text(&mut args, file);
        let mut i: usize = 0;
        while i < rest.len()
            invariant
                i <= rest.len(),
                texts(args@) == seq![name@, file@] + texts(rest@.take(i as int)),
            decreases rest.len() - i,
        {
            push_text(&mut args, rest[i].as_str());
            proof {
                assert(texts(rest@.take(i + 1)) =~= texts(rest@.take(i as int)).push(rest@[i as int]@));
                assert(texts(args@) =~= seq![name@, file@] + texts(rest@.take(i + 1)));
            }
            i += 1;
        }
        assert(rest@.take(rest.len() as int) =~= rest@);
        Command { program: String::from_str("rrdtool"), args }
    }

    /// The command that creates the store `rrd_file` with the layout `args`.
    pub fn create(rrd_file: &str, args: &Vec<String>) -> (c: Command)
        ensures
            c.runs(create_args(rrd_file@, texts(args@))),
    {
        Self::command("create", rrd_file, args)
    }

    /// The command that tells whether the store `rrd_file` exists.
    pub fn info(rrd_file: &str) -> (c: Command)
        ensures
            c.runs(info_args(rrd_file@)),
    {
        let none: Vec<String> = Vec::new();
        assert(texts(none@) =~= Seq::<Seq<char>>::empty());
        let c = Self::command("info", rrd_file, &none);
        assert(seq!["info"@, rrd_file@] + texts(none@) =~= info_args(rrd_file@));
        c
    }

    /// The command that appends one sample, stamped with the time of the
    /// update, to the store `rrd_file`.
    pub fn update(rrd_file: &str, values: &Vec<String>) -> (c: Command)
        ensures
            c.runs(update_args(rrd_file@, texts(values@))),
    {
        let mut stamped = String::from_str("N:");
        stamped.append(join(values, ":").as_str());
        let mut rest: Vec<String> = Vec::new();
        assert(texts(rest@) =~= Seq::<Seq<char>>::empty());
        push_text(&mut rest, stamped.as_str());
        let c = Self::command("update", rrd_file, &rest);
        assert(seq!["update"@, rrd_file@] + texts(rest@) =~= update_args(
            rrd_file@,
            texts(values@),
        ));
        c
    }

    /// The command that draws one image, `outfile`.
    pub fn graph(outfile: &str, args: &Vec<String>) -> (c: Command)
        ensures
            c.runs(graph_args(outfile@, texts(args@))),
    {
        Self::command("graph", outfile, args)
    }

    /// What a finished `create` means.
    pub fn created(done: Completion) -> (r: Result<(), GatewayError>)
        ensures
            r is Ok <==> done.succeeded(),
            r matches Err(e) ==> done.fails_as(Operation::Create, e),
    {
        outcome(Operation::Create, done)
    }

    /// What a finished `info` means: the description of the store where it
    /// exists, and an error where the run does not show that it does.
    pub fn informed(done: Completion) -> (r: Result<String, GatewayError>)
        ensures
            match r {
                Ok(text) => done.described() == Some(text@),
                Err(e) => done.described() is None && done.hides_store(e),
            },
    {
        let ok = match &done {
            Completion::Exited(out) => out.success,
            Completion::NotStarted(_) => false,
        };
        if !ok {
            return Err(failure(Operation::Info, done));
        }
        match &done {
            Completion::Exited(out) => match decode(out.stdout.as_slice()) {
                Some(text) => Ok(String::from_str(text)),
                None => Err(GatewayError::NotText),
            },
            Completion::NotStarted(_) => Err(GatewayError::NotText),
        }
    }

    /// What a finished `update` means.
    pub fn updated(done: Completion) -> (r: Result<(), GatewayError>)
        ensures
            r is Ok <==> done.succeeded(),
            r matches Err(e) ==> done.fails_as(Operation::Update, e),
    {
        outcome(Operation::Update, done)
    }

    /// What a finished `graph` means.
    pub fn graphed(done: Completion) -> (r: Result<(), GatewayError>)
        ensures
            r is Ok <==> done.succeeded(),
            r matches Err(e) ==> done.fails_as(Operation::Graph, e),
    {
        outcome(Operation::Graph, done)
    }
}

} // verus!
