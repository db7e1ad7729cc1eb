//! The argument interpreter: a finite-state machine that turns a raw token
//! stream into a validated run configuration.
//!
//! The raw arguments first pass through the tokenizer (`tokenize`), then a
//! state machine consumes one token at a time: in `Ready` a recognized flag
//! either acts at once or moves to an awaiting-value state; in an
//! awaiting-value state the token is validated and written to its field.
//! After the last token the interpreter rejects a dangling flag and the
//! combination of both mutually exclusive execution flags.
//!
//! Floating-point fields are validated against the `f64` literal grammar
//! and carried as their literal text; the numeric values are consumed by
//! the solver outside this crate.

use vstd::prelude::*;

use crate::error::Error;
use crate::numparse::IntParseError;
use crate::numparse::check_f64_literal;
use crate::numparse::float_err_desc;
use crate::numparse::int_err_desc;
use crate::numparse::int_err_desc_str;
use crate::numparse::is_f64_literal;
use crate::numparse::parse_uint;
use crate::numparse::parse_uint_spec;
use crate::strutil::str_eq_str;
use crate::tokenize::preprocess_args;
use crate::tokenize::preprocess_spec;
use crate::tokenize::views;

verus! {

/// Which execution backends this build can offer; the help text and the
/// recognized flags depend on it.
#[derive(Debug, Clone, Copy, PartialEq, Eq, Structural)]
pub struct Capabilities {
    pub has_omp: bool,
    pub has_gpu: bool,
}

/// The validated run configuration; constructed once, read-only afterward.
#[derive(Debug)]
pub struct CommandLine {
    pub use_omp: bool,
    pub use_gpu: bool,
    pub resolution: u32,
    pub fold: usize,
    /// Simulated-time gap between checkpoints, as its validated literal.
    pub checkpoint_interval: String,
    pub outdir: String,
    /// Simulation stop time, as its validated literal.
    pub end_time: String,
    pub rk_order: u32,
    /// Courant number, as its validated literal.
    pub cfl_number: String,
}

/// The mathematical model of a configuration.
#[verifier::ext_equal]
pub struct ConfigModel {
    pub use_omp: bool,
    pub use_gpu: bool,
    pub resolution: u32,
    pub fold: usize,
    pub checkpoint_interval: Seq<char>,
    pub outdir: Seq<char>,
    pub end_time: Seq<char>,
    pub rk_order: u32,
    pub cfl_number: Seq<char>,
}

impl View for CommandLine {
    type V = ConfigModel;

    open spec fn view(&self) -> ConfigModel {
        ConfigModel {
            use_omp: self.use_omp,
            use_gpu: self.use_gpu,
            resolution: self.resolution,
            fold: self.fold,
            checkpoint_interval: self.checkpoint_interval@,
            outdir: self.outdir@,
            end_time: self.end_time@,
            rk_order: self.rk_order,
            cfl_number: self.cfl_number@,
        }
    }
}

impl PartialEq for CommandLine {
    fn eq(&self, other: &Self) -> (r: bool) {
        self.use_omp == other.use_omp && self.use_gpu == other.use_gpu && self.resolution
            == other.resolution && self.fold == other.fold && self.checkpoint_interval
            == other.checkpoint_interval && self.outdir == other.outdir && self.end_time
            == other.end_time && self.rk_order == other.rk_order && self.cfl_number
            == other.cfl_number
    }
}

impl vstd::std_specs::cmp::PartialEqSpecImpl for CommandLine {
    open spec fn obeys_eq_spec() -> bool {
        true
    }

    open spec fn eq_spec(&self, other: &Self) -> bool {
        self@ =~= other@
    }
}

/// Defaults used when a flag is absent.
pub open spec fn default_model() -> ConfigModel {
    ConfigModel {
        use_omp: false,
        use_gpu: false,
        resolution: 1024,
        fold: 10,
        checkpoint_interval: "1.0"@,
        outdir: "."@,
        end_time: "1.0"@,
        rk_order: 1,
        cfl_number: "0.2"@,
    }
}

/// The interpreter's states: `Ready`, or awaiting the value of one field.
#[derive(Debug, Clone, Copy, PartialEq, Eq, Structural)]
pub enum PState {
    Ready,
    GridResolution,
    Fold,
    Checkpoint,
    EndTime,
    RkOrder,
    Cfl,
    Outdir,
}

/// What consuming tokens yields while the stream may continue.
#[verifier::ext_equal]
pub enum StepResult {
    Next(PState, ConfigModel),
    Info(Seq<char>),
    Fail(Seq<char>),
}

/// The interpreter's terminal result.
#[verifier::ext_equal]
pub enum SpecResult {
    Config(ConfigModel),
    Info(Seq<char>),
    Fail(Seq<char>),
}

pub open spec fn msg_unrecognized(t: Seq<char>) -> Seq<char> {
    "unrecognized option "@ + t
}

pub open spec fn msg_bad_value(prefix: Seq<char>, t: Seq<char>, desc: Seq<char>) -> Seq<char> {
    prefix + t + ": "@ + desc
}

pub open spec fn msg_rk_range() -> Seq<char> {
    "rk-order must be 1, 2, or 3"@
}

pub open spec fn msg_exclusive() -> Seq<char> {
    "--use-omp (-p) and --use-gpu (-g) are mutually exclusive"@
}

pub open spec fn msg_missing() -> Seq<char> {
    "missing argument"@
}

pub open spec fn version_text_spec() -> Seq<char> {
    "sailfish 0.1.0\n"@
}

/// The help text enumerates every flag this build supports.
pub open spec fn help_text_spec(caps: Capabilities) -> Seq<char> {
    "usage: sailfish [--version] [--help] <[options]>\n"@
        + "       --version             print the code version number\n"@
        + "       -h|--help             display this help message\n"@ + (if caps.has_omp {
        "       -p|--use-omp          run with OpenMP (reads OMP_NUM_THREADS)\n"@
    } else {
        Seq::<char>::empty()
    }) + (if caps.has_gpu {
        "       -g|--use-gpu          run with GPU acceleration [-p is ignored]\n"@
    } else {
        Seq::<char>::empty()
    }) + "       -n|--resolution       grid resolution [1024]\n"@
        + "       -f|--fold             number of iterations between messages [10]\n"@
        + "       -c|--checkpoint       amount of time between writing checkpoints [1.0]\n"@
        + "       -o|--outdir           data output directory [current]\n"@
        + "       -e|--end-time         simulation end time [1.0]\n"@
        + "       -r|--rk-order         Runge-Kutta integration order ([1]|2|3)\n"@
        + "       --cfl                 CFL number [0.2]\n"@
}

/// One transition of the state machine from `Ready`.
pub open spec fn step_ready(caps: Capabilities, c: ConfigModel, tok: Seq<char>) -> StepResult {
    if tok == "--version"@ {
        StepResult::Info(version_text_spec())
    } else if tok == "-h"@ || tok == "--help"@ {
        StepResult::Info(help_text_spec(caps))
    } else if caps.has_omp && (tok == "-p"@ || tok == "--use-omp"@) {
        StepResult::Next(PState::Ready, ConfigModel { use_omp: true, ..c })
    } else if caps.has_gpu && (tok == "-g"@ || tok == "--use-gpu"@) {
        StepResult::Next(PState::Ready, ConfigModel { use_gpu: true, ..c })
    } else if tok == "-n"@ || tok == "--resolution"@ || tok == "--res"@ {
        StepResult::Next(PState::GridResolution, c)
    } else if tok == "-f"@ || tok == "--fold"@ {
        StepResult::Next(PState::Fold, c)
    } else if tok == "-c"@ || tok == "--checkpoint"@ {
        StepResult::Next(PState::Checkpoint, c)
    } else if tok == "-e"@ || tok == "--end-time"@ {
        StepResult::Next(PState::EndTime, c)
    } else if tok == "-r"@ || tok == "--rk-order"@ {
        StepResult::Next(PState::RkOrder, c)
    } else if tok == "--cfl"@ {
        StepResult::Next(PState::Cfl, c)
    } else if tok == "-o"@ || tok == "--outdir"@ {
        StepResult::Next(PState::Outdir, c)
    } else {
        StepResult::Fail(msg_unrecognized(tok))
    }
}

/// One transition of the state machine.
pub open spec fn step(caps: Capabilities, st: PState, c: ConfigModel, tok: Seq<char>) -> StepResult {
    match st {
        PState::Ready => step_ready(caps, c, tok),
        PState::GridResolution => match parse_uint_spec(tok, u32::MAX as int) {
            Ok(v) => StepResult::Next(
                PState::Ready,
                ConfigModel { resolution: v as u32, ..c },
            ),
            Err(e) => StepResult::Fail(msg_bad_value("resolution "@, tok, int_err_desc(e))),
        },
        PState::Fold => match parse_uint_spec(tok, usize::MAX as int) {
            Ok(v) => StepResult::Next(PState::Ready, ConfigModel { fold: v as usize, ..c }),
            Err(e) => StepResult::Fail(msg_bad_value("fold "@, tok, int_err_desc(e))),
        },
        PState::Checkpoint => if is_f64_literal(tok) {
            StepResult::Next(PState::Ready, ConfigModel { checkpoint_interval: tok, ..c })
        } else {
            StepResult::Fail(msg_bad_value("checkpoint "@, tok, float_err_desc()))
        },
        PState::EndTime => if is_f64_literal(tok) {
            StepResult::Next(PState::Ready, ConfigModel { end_time: tok, ..c })
        } else {
            StepResult::Fail(msg_bad_value("end-time "@, tok, float_err_desc()))
        },
        PState::RkOrder => match parse_uint_spec(tok, u32::MAX as int) {
            Ok(v) => if 1 <= v && v <= 3 {
                StepResult::Next(PState::Ready, ConfigModel { rk_order: v as u32, ..c })
            } else {
                StepResult::Fail(msg_rk_range())
            },
            Err(e) => StepResult::Fail(msg_bad_value("rk-order "@, tok, int_err_desc(e))),
        },
        PState::Cfl => if is_f64_literal(tok) {
            StepResult::Next(PState::Ready, ConfigModel { cfl_number: tok, ..c })
        } else {
            StepResult::Fail(msg_bad_value("cfl "@, tok, float_err_desc()))
        },
        PState::Outdir => StepResult::Next(PState::Ready, ConfigModel { outdir: tok, ..c }),
    }
}

/// Folds the state machine over a token stream.
pub open spec fn interp(caps: Capabilities, toks: Seq<Seq<char>>, st: PState, c: ConfigModel) -> StepResult
    decreases toks.len(),
{
    if toks.len() == 0 {
        StepResult::Next(st, c)
    } else {
        match step(caps, st, c, toks[0]) {
            StepResult::Next(st2, c2) => interp(caps, toks.drop_first(), st2, c2),
            r => r,
        }
    }
}

/// The interpreter's result on a raw argument list: the token stream is
/// produced by the tokenizer, folded through the state machine, and the
/// post-loop validations are applied.
pub open spec fn parse_spec(caps: Capabilities, args: Seq<Seq<char>>) -> SpecResult {
    match interp(caps, preprocess_spec(args), PState::Ready, default_model()) {
        StepResult::Next(st, c) => {
            if c.use_omp && c.use_gpu {
                SpecResult::Fail(msg_exclusive())
            } else if st != PState::Ready {
                SpecResult::Fail(msg_missing())
            } else {
                SpecResult::Config(c)
            }
        },
        StepResult::Info(m) => SpecResult::Info(m),
        StepResult::Fail(m) => SpecResult::Fail(m),
    }
}

/// The version banner.
pub fn version_text() -> (r: String)
    ensures
        r@ == version_text_spec(),
{
    String::from_str("sailfish 0.1.0\n")
}

/// Builds the help text for this build's capabilities.
pub fn help_text(caps: Capabilities) -> (r: String)
    ensures
        r@ == help_text_spec(caps),
{
    let mut m = String::from_str("usage: sailfish [--version] [--help] <[options]>\n");
    m.append("       --version             print the code version number\n");
    m.append("       -h|--help             display this help message\n");
    let ghost base = m@;
    if caps.has_omp {
        m.append("       -p|--use-omp          run with OpenMP (reads OMP_NUM_THREADS)\n");
    }
    proof {
        assert(m@ =~= base + (if caps.has_omp {
            "       -p|--use-omp          run with OpenMP (reads OMP_NUM_THREADS)\n"@
        } else {
            Seq::<char>::empty()
        }));
    }
    let ghost base2 = m@;
    if caps.has_gpu {
        m.append("       -g|--use-gpu          run with GPU acceleration [-p is ignored]\n");
    }
    proof {
        assert(m@ =~= base2 + (if caps.has_gpu {
            "       -g|--use-gpu          run with GPU acceleration [-p is ignored]\n"@
        } else {
            Seq::<char>::empty()
        }));
    }
    m.append("       -n|--resolution       grid resolution [1024]\n");
    m.append("       -f|--fold             number of iterations between messages [10]\n");
    m.append("       -c|--checkpoint       amount of time between writing checkpoints [1.0]\n");
    m.append("       -o|--outdir           data output directory [current]\n");
    m.append("       -e|--end-time         simulation end time [1.0]\n");
    m.append("       -r|--rk-order         Runge-Kutta integration order ([1]|2|3)\n");
    m.append("       --cfl                 CFL number [0.2]\n");
    proof {
        assert(m@ =~= help_text_spec(caps));
    }
    m
}

fn bad_value_message(prefix: &str, tok: &str, desc: &str) -> (r: String)
    ensures
        r@ == msg_bad_value(prefix@, tok@, desc@),
{
    let m = String::from_str(prefix).concat(tok).concat(": ").concat(desc);
    proof {
        assert(m@ =~= msg_bad_value(prefix@, tok@, desc@));
    }
    m
}

/// Interprets the raw argument list (the process arguments without the
/// program name) under the given capability set.
///
/// The result is exactly what `parse_spec` assigns to the argument list: a
/// configuration, informational text to print before a clean exit, or a
/// parse error.
pub fn parse_command_line(caps: Capabilities, args: &Vec<String>) -> (r: Result<CommandLine, Error>)
    ensures
        (match r {
            Ok(c) => parse_spec(caps, views(args@)) == SpecResult::Config(c@),
            Err(e) => (match e {
                Error::PrintUserInformation(m) => parse_spec(caps, views(args@))
                    == SpecResult::Info(m@),
                Error::CommandLineParse(m) => parse_spec(caps, views(args@)) == SpecResult::Fail(
                    m@,
                ),
            }),
        }),
{
    let toks = preprocess_args(args);
    let ghost all = views(toks@);
    let mut c = CommandLine {
        use_omp: false,
        use_gpu: false,
        resolution: 1024,
        fold: 10,
        checkpoint_interval: String::from_str("1.0"),
        outdir: String::from_str("."),
        end_time: String::from_str("1.0"),
        rk_order: 1,
        cfl_number: String::from_str("0.2"),
    };
    let mut st = PState::Ready;
    proof {
        assert(c@ =~= default_model());
        assert(all.skip(0) =~~= all);
    }
    let mut i: usize = 0;
    while i < toks.len()
        invariant
            0 <= i <= toks@.len(),
            all == views(toks@),
            all == preprocess_spec(views(args@)),
            interp(caps, all, PState::Ready, default_model()) == interp(
                caps,
                all.skip(i as int),
                st,
                c@,
            ),
        decreases toks@.len() - i,
    {
        let ghost prev_st = st;
        let ghost prev_c = c@;
        let tok = toks[i].as_str();
        proof {
            assert(all.skip(i as int)[0] == tok@);
            assert(all.skip(i as int).drop_first() =~~= all.skip(i + 1));
        }
        match st {
            PState::Ready => {
                if str_eq_str(tok, "--version") {
                    return Err(Error::PrintUserInformation(version_text()));
                } else if str_eq_str(tok, "-h") || str_eq_str(tok, "--help") {
                    return Err(Error::PrintUserInformation(help_text(caps)));
                } else if caps.has_omp && (str_eq_str(tok, "-p") || str_eq_str(tok, "--use-omp")) {
                    c.use_omp = true;
                    proof {
                        assert(c@ =~= ConfigModel { use_omp: true, ..prev_c });
                    }
                } else if caps.has_gpu && (str_eq_str(tok, "-g") || str_eq_str(tok, "--use-gpu")) {
                    c.use_gpu = true;
                    proof {
                        assert(c@ =~= ConfigModel { use_gpu: true, ..prev_c });
                    }
                } else if str_eq_str(tok, "-n") || str_eq_str(tok, "--resolution") || str_eq_str(
                    tok,
                    "--res",
                ) {
                    st = PState::GridResolution;
                } else if str_eq_str(tok, "-f") || str_eq_str(tok, "--fold") {
                    st = PState::Fold;
                } else if str_eq_str(tok, "-c") || str_eq_str(tok, "--checkpoint") {
                    st = PState::Checkpoint;
                } else if str_eq_str(tok, "-e") || str_eq_str(tok, "--end-time") {
                    st = PState::EndTime;
                } else if str_eq_str(tok, "-r") || str_eq_str(tok, "--rk-order") {
                    st = PState::RkOrder;
                } else if str_eq_str(tok, "--cfl") {
                    st = PState::Cfl;
                } else if str_eq_str(tok, "-o") || str_eq_str(tok, "--outdir") {
                    st = PState::Outdir;
                } else {
                    let m = String::from_str("unrecognized option ").concat(tok);
                    return Err(Error::CommandLineParse(m));
                }
            },
            PState::GridResolution => {
                match parse_uint(tok, 4294967295u64) {
                    Ok(v) => {
                        c.resolution = v as u32;
                        st = PState::Ready;
                        proof {
                            assert(c@ =~= ConfigModel { resolution: v as u32, ..prev_c });
                        }
                    },
                    Err(e) => {
                        return Err(
                            Error::CommandLineParse(
                                bad_value_message("resolution ", tok, int_err_desc_str(e)),
                            ),
                        );
                    },
                }
            },
            PState::Fold => {
                match parse_uint(tok, usize::MAX as u64) {
                    Ok(v) => {
                        c.fold = v as usize;
                        st = PState::Ready;
                        proof {
                            assert(c@ =~= ConfigModel { fold: v as usize, ..prev_c });
                        }
                    },
                    Err(e) => {
                        return Err(
                            Error::CommandLineParse(
                                bad_value_message("fold ", tok, int_err_desc_str(e)),
                            ),
                        );
                    },
                }
            },
            PState::Checkpoint => {
                if check_f64_literal(tok) {
                    c.checkpoint_interval = tok.to_owned();
                    st = PState::Ready;
                    proof {
                        assert(c@ =~= ConfigModel { checkpoint_interval: tok@, ..prev_c });
                    }
                } else {
                    return Err(
                        Error::CommandLineParse(
                            bad_value_message("checkpoint ", tok, "invalid float literal"),
                        ),
                    );
                }
            },
            PState::EndTime => {
                if check_f64_literal(tok) {
                    c.end_time = tok.to_owned();
                    st = PState::Ready;
                    proof {
                        assert(c@ =~= ConfigModel { end_time: tok@, ..prev_c });
                    }
                } else {
                    return Err(
                        Error::CommandLineParse(
                            bad_value_message("end-time ", tok, "invalid float literal"),
                        ),
                    );
                }
            },
            PState::RkOrder => {
                match parse_uint(tok, 4294967295u64) {
                    Ok(v) => {
                        if 1 <= v && v <= 3 {
                            c.rk_order = v as u32;
                            st = PState::Ready;
                            proof {
                                assert(c@ =~= ConfigModel { rk_order: v as u32, ..prev_c });
                            }
                        } else {
                            return Err(
                                Error::CommandLineParse(
                                    String::from_str("rk-order must be 1, 2, or 3"),
                                ),
                            );
                        }
                    },
                    Err(e) => {
                        return Err(
                            Error::CommandLineParse(
                                bad_value_message("rk-order ", tok, int_err_desc_str(e)),
                            ),
                        );
                    },
                }
            },
            PState::Cfl => {
                if check_f64_literal(tok) {
                    c.cfl_number = tok.to_owned();
                    st = PState::Ready;
                    proof {
                        assert(c@ =~= ConfigModel { cfl_number: tok@, ..prev_c });
                    }
                } else {
                    return Err(
                        Error::CommandLineParse(
                            bad_value_message("cfl ", tok, "invalid float literal"),
                        ),
                    );
                }
            },
            PState::Outdir => {
                c.outdir = tok.to_owned();
                st = PState::Ready;
                proof {
                    assert(c@ =~= ConfigModel { outdir: tok@, ..prev_c });
                }
            },
        }
        proof {
            assert(interp(caps, all.skip(i as int), prev_st, prev_c) == interp(
                caps,
                all.skip(i + 1),
                st,
                c@,
            ));
        }
        i = i + 1;
    }
    proof {
        assert(all.skip(toks@.len() as int) =~~= Seq::<Seq<char>>::empty());
    }
    if c.use_omp && c.use_gpu {
        return Err(
            Error::CommandLineParse(
                String::from_str("--use-omp (-p) and --use-gpu (-g) are mutually exclusive"),
            ),
        );
    }
    let at_ready = match st {
        PState::Ready => true,
        _ => false,
    };
    if !at_ready {
        return Err(Error::CommandLineParse(String::from_str("missing argument")));
    }
    Ok(c)
}

} // verus!
