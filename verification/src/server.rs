//! The ingestion of one sample, step by step.
//!
//! The server decides which command of the time-series tool comes next and
//! what its outcome means; the caller runs the command and reports how it
//! ended, together with the time.

use vstd::prelude::*;
use vstd::string::*;
use vstd::utf8::*;

use crate::frame::{is_syslog, looks_like_syslog, payload, payload_of};
use crate::rrdtool::{
    create_args, decode, graph_args, info_args, schema_args, update_args, Command, Completion,
    GatewayError, Operation, RRDTool,
};
use crate::sample::{ParseError, ParsedSample};
use crate::schedule::{drawn, due, observed, Graphmap};
use crate::text::{push_text, texts};

verus! {

/// The settings of the server.
#[derive(Clone, Debug, PartialEq, Eq)]
pub struct ConfigFile {
    /// Address on which datagrams are received.
    pub listen_addr: String,
    /// Directory of the stores; a label is appended to it as it stands.
    pub rrd_path: String,
    /// Directory of the images; a file name is appended to it as it stands.
    pub graph_path: String,
    /// Seconds that pass at least between two drawings of a sensor's graphs.
    pub graph_interval: u64,
    /// The windows to draw, each named by its unit of time: `d`, `w`, `m`.
    pub graph_schedule: Vec<String>,
}

/// The state that outlives a sample: the settings and the schedule.
pub struct Server {
    pub config: ConfigFile,
    pub graphs: Graphmap,
}

/// The command whose outcome an ingestion waits for.
#[derive(Clone, Copy, Debug, PartialEq, Eq, Structural)]
pub enum Stage {
    /// `info`, which tells whether the store exists.
    Probing,
    /// `create`.
    Creating,
    /// `update`.
    Updating,
    /// `graph` for the window `next` of the schedule, in a pass that was
    /// found due at `since`.
    Rendering { next: usize, since: u128 },
}

/// An ingestion that waits for the outcome of a command.
#[derive(Clone, Debug, PartialEq, Eq)]
pub struct Pending {
    pub sample: ParsedSample,
    pub stage: Stage,
}

/// What the server asks for next.
#[derive(Debug, PartialEq, Eq)]
pub enum Step {
    /// Run the command, and come back with its outcome.
    Call(Pending, Command),
    /// The ingestion is over.
    Done(Result<(), GatewayError>),
}

/// What becomes of a datagram.
#[derive(Clone, Debug, PartialEq, Eq)]
pub enum Intake {
    /// The payload is to be decoded.
    Decode(String),
    /// The line is refused.
    Reject(ParseError),
    /// The datagram does not look like a syslog line; its text is kept.
    Toss(String),
}

/// The text of a datagram: what its bytes encode, or a fixed complaint
/// where they are not UTF-8.
pub open spec fn datagram_text(bytes: Seq<u8>) -> Seq<char> {
    if valid_utf8(bytes) {
        decode_utf8(bytes)
    } else {
        "Error reading string from socket!"@
    }
}

/// Path of the image that shows the window `token` of a sensor.
pub open spec fn image_path(graph_dir: Seq<char>, token: Seq<char>, label: Seq<char>) -> Seq<
    char,
> {
    graph_dir + "metrics-"@ + token + "."@ + label + ".png"@
}

/// Start of the window `token`: one unit back, the unit being the token's
/// first character.
pub open spec fn window_start(token: Seq<char>) -> Seq<char>
    recommends
        token.len() > 0,
{
    "-1"@.push(token[0])
}

/// What one image shows: temperature and humidity, as averaged in the
/// store, over the window `token`.
pub open spec fn render_args(store_path: Seq<char>, label: Seq<char>, token: Seq<char>) -> Seq<
    Seq<char>,
>
    recommends
        token.len() > 0,
{
    seq![
        "--start"@,
        window_start(token),
        "--title"@,
        label,
        "--vertical-label=C"@,
        "--right-axis-label=%"@,
        "-w 800"@,
        "-h 200"@,
        "DEF:t="@ + store_path + ":temperature:AVERAGE"@,
        "DEF:h="@ + store_path + ":humidity:AVERAGE"@,
        "LINE1:t#00FF00:Temperature\\t\\t"@,
        "LINE2:h#0000FF:Humidity\\n"@,
        "GPRINT:t:AVERAGE:T avg %5.1lf C\\t\\t"@,
        "GPRINT:h:AVERAGE:H avg %5.0lf\\n"@,
        "GPRINT:t:MAX:T max %5.1lf C\\t\\t"@,
        "GPRINT:h:MAX:H max %5.0lf\\n"@,
    ]
}

impl Stage {
    /// The operation that the stage waits for.
    pub open spec fn operation(self) -> Operation {
        match self {
            Stage::Probing => Operation::Info,
            Stage::Creating => Operation::Create,
            Stage::Updating => Operation::Update,
            Stage::Rendering { .. } => Operation::Graph,
        }
    }

    /// Whether `done` is a success of the operation that the stage waits
    /// for.
    pub open spec fn met(self, done: Completion) -> bool {
        if self is Probing {
            done.described() is Some
        } else {
            done.succeeded()
        }
    }
}

impl ConfigFile {
    /// Whether every window of the schedule names a unit of time.
    pub open spec fn valid(self) -> bool {
        forall|i: int|
            0 <= i < self.graph_schedule@.len() ==> (#[trigger] self.graph_schedule@[i])@.len()
                > 0
    }

    /// Whether the schedule holds the window that `stage` draws.
    pub open spec fn holds(self, stage: Stage) -> bool {
        stage matches Stage::Rendering { next, .. } ==> next < self.graph_schedule@.len()
    }

    /// The arguments that the tool is run with at `stage`.
    pub open spec fn request(self, sample: ParsedSample, stage: Stage) -> Seq<Seq<char>> {
        match stage {
            Stage::Probing => info_args(sample.store_path@),
            Stage::Creating => create_args(sample.store_path@, schema_args()),
            Stage::Updating => update_args(
                sample.store_path@,
                seq![sample.temperature@, sample.humidity@],
            ),
            Stage::Rendering { next, .. } => graph_args(
                image_path(self.graph_path@, self.graph_schedule@[next as int]@, sample.label@),
                render_args(sample.store_path@, sample.label@, self.graph_schedule@[next as int]@),
            ),
        }
    }

    /// The stage that follows `stage` once its command ended, `ok` telling
    /// whether in success; `None` where the ingestion is over.
    ///
    /// A store that does not show is created, and every store is updated.
    /// After the update the graphs are drawn where they are due, window by
    /// window, until one fails.
    pub open spec fn next_stage(
        self,
        deadlines: Map<Seq<char>, u128>,
        label: Seq<char>,
        stage: Stage,
        ok: bool,
        now: u128,
    ) -> Option<Stage> {
        match stage {
            Stage::Probing => Some(
                if ok {
                    Stage::Updating
                } else {
                    Stage::Creating
                },
            ),
            Stage::Creating => if ok {
                Some(Stage::Updating)
            } else {
                None
            },
            Stage::Updating => if ok && due(deadlines, label, now) && self.graph_schedule@.len()
                > 0 {
                Some(Stage::Rendering { next: 0, since: now })
            } else {
                None
            },
            Stage::Rendering { next, since } => if ok && next + 1 < self.graph_schedule@.len() {
                Some(Stage::Rendering { next: (next + 1) as usize, since })
            } else {
                None
            },
        }
    }

    /// The schedule once the command of `stage` ended.
    ///
    /// It changes after a successful update, where a label is seen for the
    /// first time, and after the last window of a pass was drawn.
    pub open spec fn next_deadlines(
        self,
        deadlines: Map<Seq<char>, u128>,
        label: Seq<char>,
        stage: Stage,
        ok: bool,
        now: u128,
    ) -> Map<Seq<char>, u128> {
        match stage {
            Stage::Probing => deadlines,
            Stage::Creating => deadlines,
            Stage::Updating => if !ok {
                deadlines
            } else if !due(deadlines, label, now) {
                observed(deadlines, label, now, self.graph_interval)
            } else if self.graph_schedule@.len() == 0 {
                drawn(deadlines, label, now, self.graph_interval)
            } else {
                deadlines
            },
            Stage::Rendering { next, since } => if ok && next + 1 >= self.graph_schedule@.len() {
                drawn(deadlines, label, since, self.graph_interval)
            } else {
                deadlines
            },
        }
    }

    /// Tells whether every window of the schedule names a unit of time.
    pub fn is_valid(&self) -> (b: bool)
        ensures
            b == self.valid(),
    {
        let mut i: usize = 0;
        while i < self.graph_schedule.len()
            invariant
                i <= self.graph_schedule.len(),
                forall|j: int| 0 <= j < i ==> (#[trigger] self.graph_schedule@[j])@.len() > 0,
            decreases self.graph_schedule.len() - i,
        {
            if self.graph_schedule[i].as_str().is_empty() {
                return false;
            }
            i += 1;
        }
        true
    }
}

impl Server {
    /// A server that has seen no sensor yet.
    pub fn new(config: ConfigFile) -> (s: Server)
        ensures
            s.config == config,
            s.graphs@ == Map::<Seq<char>, u128>::empty(),
    {
        Server { config, graphs: Graphmap::new() }
    }

    /// Decides what becomes of a datagram.
    ///
    /// A datagram whose text does not start with `<` is tossed.  A line
    /// with fewer than eight fields is refused as malformed.  Of every
    /// other line the payload is to be decoded.
    pub fn run(datagram: &[u8]) -> (r: Intake)
        ensures
            ({
                let text = datagram_text(datagram@);
                if !is_syslog(text) {
                    r matches Intake::Toss(t) && t@ == text
                } else {
                    match payload_of(text) {
                        Some(p) => r matches Intake::Decode(s) && s@ == p,
                        None => r matches Intake::Reject(e) && e is MalformedFrame,
                    }
                }
            }),
    {
        let text = match decode(datagram) {
            Some(t) => t,
            None => "Error reading string from socket!",
        };
        if !looks_like_syslog(text) {
            return Intake::Toss(String::from_str(text));
        }
        match payload(text) {
            Ok(p) => Intake::Decode(String::from_str(p)),
            Err(e) => Intake::Reject(e),
        }
    }

    /// The command that draws the window `next` of the schedule.
    fn graph_command(&self, sample: &ParsedSample, next: usize) -> (c: Command)
        requires
            self.config.valid(),
            next < self.config.graph_schedule@.len(),
        ensures
            c.runs(self.config.request(*sample, Stage::Rendering { next, since: 0 })),
    {
        let token = self.config.graph_schedule[next].as_str();
        let label = sample.label.as_str();
        let file = sample.store_path.as_str();
        let mut outfile = String::from_str(self.config.graph_path.as_str());
        outfile.append("metrics-");
        outfile.append(token);
        outfile.append(".");
        outfile.append(label);
        outfile.append(".png");
        let mut start = String::from_str("-1");
        start.push(token.get_char(0));
        let mut tdef = String::from_str("DEF:t=");
        tdef.append(file);
        tdef.append(":temperature:AVERAGE");
        let mut hdef = String::from_str("DEF:h=");
        hdef.append(file);
        hdef.append(":humidity:AVERAGE");
        let mut args: Vec<String> = Vec::new();
        assert(texts(args@) =~= Seq::<Seq<char>>::empty());
        push_text(&mut args, "--start");
        push_text(&mut args, start.as_str());
        push_text(&mut args, "--title");
        push_text(&mut args, label);
        push_text(&mut args, "--vertical-label=C");
        push_text(&mut args, "--right-axis-label=%");
        push_text(&mut args, "-w 800");
        push_text(&mut args, "-h 200");
        push_text(&mut args, tdef.as_str());
        push_text(&mut args, hdef.as_str());
        push_text(&mut args, "LINE1:t#00FF00:Temperature\\t\\t");
        push_text(&mut args, "LINE2:h#0000FF:Humidity\\n");
        push_text(&mut args, "GPRINT:t:AVERAGE:T avg %5.1lf C\\t\\t");
        push_text(&mut args, "GPRINT:h:AVERAGE:H avg %5.0lf\\n");
        push_text(&mut args, "GPRINT:t:MAX:T max %5.1lf C\\t\\t");
        push_text(&mut args, "GPRINT:h:MAX:H max %5.0lf\\n");
        assert(texts(args@) =~= render_args(file@, label@, token@));
        RRDTool::graph(outfile.as_str(), &args)
    }

    /// Asks for the command of `stage`.
    fn call(&self, sample: ParsedSample, stage: Stage) -> (r: Step)
        requires
            self.config.valid(),
            self.config.holds(stage),
        ensures
            r matches Step::Call(p, c) && p.sample == sample && p.stage == stage && c.runs(
                self.config.request(sample, stage),
            ),
    {
        let command = match stage {
            Stage::Probing => RRDTool::info(sample.store_path.as_str()),
            Stage::Creating => {
                let schema = RRDTool::schema();
                RRDTool::create(sample.store_path.as_str(), &schema)
            },
            Stage::Updating => {
                let mut values: Vec<String> = Vec::new();
                assert(texts(values@) =~= Seq::<Seq<char>>::empty());
                push_text(&mut values, sample.temperature.as_str());
                push_text(&mut values, sample.humidity.as_str());
                assert(texts(values@) =~= seq![sample.temperature@, sample.humidity@]);
                RRDTool::update(sample.store_path.as_str(), &values)
            },
            Stage::Rendering { next, .. } => self.graph_command(&sample, next),
        };
        Step::Call(Pending { sample, stage }, command)
    }

    /// Starts the ingestion of a sample: the first command tells whether
    /// the sample's store exists.
    pub fn begin(&self, sample: ParsedSample) -> (r: (Pending, Command))
        ensures
            r.0.sample == sample,
            r.0.stage is Probing,
            r.1.runs(info_args(sample.store_path@)),
    {
        let command = RRDTool::info(sample.store_path.as_str());
        (Pending { sample, stage: Stage::Probing }, command)
    }

    /// Takes the outcome of the command that `pending` waits for, at the
    /// time `now`, and decides how the ingestion goes on.  The time counts
    /// when the update has ended: it is then that the graphs are found due
    /// or not.
    ///
    /// The next stage and the schedule are those of
    /// [`ConfigFile::next_stage`] and [`ConfigFile::next_deadlines`].  The
    /// ingestion ends in success after the update, or after the last window
    /// of a pass; it ends with the error of the command that failed, unless
    /// that command was `info`.
    pub fn advance(&mut self, pending: Pending, done: Completion, now: u128) -> (r: Step)
        requires
            old(self).config.valid(),
            old(self).config.holds(pending.stage),
        ensures
            final(self).config == old(self).config,
            ({
                let config = old(self).config;
                let label = pending.sample.label@;
                let stage = pending.stage;
                let ok = stage.met(done);
                &&& final(self).graphs@ == config.next_deadlines(
                    old(self).graphs@,
                    label,
                    stage,
                    ok,
                    now,
                )
                &&& match config.next_stage(old(self).graphs@, label, stage, ok, now) {
                    Some(next) => {
                        &&& r matches Step::Call(p, c)
                        &&& p.sample == pending.sample
                        &&& p.stage == next
                        &&& config.holds(next)
                        &&& c.runs(config.request(p.sample, next))
                    },
                    None => {
                        &&& r matches Step::Done(res)
                        &&& res is Ok <==> ok
                        &&& res matches Err(e) ==> done.fails_as(stage.operation(), e)
                    },
                }
            }),
    {
        let Pending { sample, stage } = pending;
        match stage {
            Stage::Probing => match RRDTool::informed(done) {
                Ok(_) => self.call(sample, Stage::Updating),
                Err(_) => self.call(sample, Stage::Creating),
            },
            Stage::Creating => match RRDTool::created(done) {
                Ok(_) => self.call(sample, Stage::Updating),
                Err(e) => Step::Done(Err(e)),
            },
            Stage::Updating => match RRDTool::updated(done) {
                Err(e) => Step::Done(Err(e)),
                Ok(_) => {
                    let interval = self.config.graph_interval;
                    if !self.graphs.observe(sample.label.as_str(), now, interval) {
                        Step::Done(Ok(()))
                    } else if self.config.graph_schedule.len() == 0 {
                        self.graphs.record(sample.label.as_str(), now, interval);
                        Step::Done(Ok(()))
                    } else {
                        self.call(sample, Stage::Rendering { next: 0, since: now })
                    }
                },
            },
            Stage::Rendering { next, since } => match RRDTool::graphed(done) {
                Err(e) => Step::Done(Err(e)),
                Ok(_) => {
                    let windows = self.config.graph_schedule.len();
                    if next + 1 < windows {
                        self.call(sample, Stage::Rendering { next: next + 1, since })
                    } else {
                        self.graphs.record(
                            sample.label.as_str(),
                            since,
                            self.config.graph_interval,
                        );
                        Step::Done(Ok(()))
                    }
                },
            },
        }
    }
}

} // verus!
