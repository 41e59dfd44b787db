//! The command line of the watchdog, the supervisor that restarts the main
//! process when its heartbeat stops.

use vstd::prelude::*;
use crate::text::{str_eq, string_views, to_string};
use crate::numbers::{parse_unsigned_text, parse_u64, parse_u32};

verus! {

/// What the watchdog is asked to run.
#[derive(Debug, Clone)]
pub struct WatchdogArgs {
    /// The main executable.
    pub executable: String,
    /// Its arguments.
    pub args: Vec<String>,
    /// Heartbeat timeout, in milliseconds.
    pub timeout_ms: u64,
    /// Restarts before giving up.
    pub max_restarts: u32,
    /// Whether to log verbosely.
    pub verbose: bool,
}

/// What a command line asks for.
#[derive(Debug, Clone)]
pub enum ArgsRequest {
    /// Supervise a process.
    Run(WatchdogArgs),
    /// Print the help text and stop.
    Help,
}

/// The state of reading a command line: executable, arguments, timeout,
/// restarts, verbosity.
pub type ArgsState = (Option<Seq<char>>, Seq<Seq<char>>, u64, u32, bool);

/// Whether `a` is one of the two spellings `long` and `short`.
pub open spec fn is_flag(a: Seq<char>, long: Seq<char>, short: Seq<char>) -> bool {
    a == long || a == short
}

/// The outcome of reading the arguments `args[i..]` from state `st`: the
/// final state, or the help request (`None` inside `Ok`), or an error.
pub open spec fn read_args(args: Seq<Seq<char>>, i: int, st: ArgsState) -> Result<Option<ArgsState>, Seq<char>>
    decreases args.len() + 1 - i,
{
    if i < 0 || i >= args.len() {
        Ok(Some(st))
    } else {
        let a = args[i];
        let has_next = i + 1 < args.len();
        if is_flag(a, "--executable"@, "-e"@) {
            let exe = if has_next { Some(args[i + 1]) } else { None };
            read_args(args, i + 2, (exe, st.1, st.2, st.3, st.4))
        } else if is_flag(a, "--args"@, "-a"@) {
            Ok(Some((st.0, st.1 + args.subrange(i + 1, args.len() as int), st.2, st.3, st.4)))
        } else if is_flag(a, "--timeout"@, "-t"@) {
            if !has_next {
                read_args(args, i + 1, st)
            } else {
                match parse_unsigned_text(args[i + 1], u64::MAX as int) {
                    Some(v) => read_args(args, i + 2, (st.0, st.1, v as u64, st.3, st.4)),
                    None => Err("Invalid timeout value"@),
                }
            }
        } else if is_flag(a, "--max-restarts"@, "-m"@) {
            if !has_next {
                read_args(args, i + 1, st)
            } else {
                match parse_unsigned_text(args[i + 1], u32::MAX as int) {
                    Some(v) => read_args(args, i + 2, (st.0, st.1, st.2, v as u32, st.4)),
                    None => Err("Invalid max-restarts value"@),
                }
            }
        } else if is_flag(a, "--verbose"@, "-v"@) {
            read_args(args, i + 1, (st.0, st.1, st.2, st.3, true))
        } else if is_flag(a, "--help"@, "-h"@) {
            Ok(None)
        } else {
            Err("Unknown argument: "@ + a)
        }
    }
}

/// What a command line (without the program name) asks for: the help text,
/// a process to supervise (the executable is required; the timeout is 3000
/// ms and the restarts 3 unless given), or the error that stops it.
pub open spec fn watchdog_request(args: Seq<Seq<char>>) -> Result<Option<ArgsState>, Seq<char>> {
    match read_args(args, 0, (None, Seq::empty(), 3000, 3, false)) {
        Ok(Some(st)) => if st.0 is Some { Ok(Some(st)) } else { Err("--executable is required"@) },
        other => other,
    }
}

/// An optional text as a value.
pub open spec fn opt_str(o: Option<String>) -> Option<Seq<char>> {
    match o {
        Some(e) => Some(e@),
        None => None,
    }
}

/// A request as plain values.
pub open spec fn request_view(r: Result<ArgsRequest, String>) -> Result<Option<ArgsState>, Seq<char>> {
    match r {
        Ok(ArgsRequest::Help) => Ok(None),
        Ok(ArgsRequest::Run(a)) => Ok(Some((Some(a.executable@), string_views(a.args@), a.timeout_ms, a.max_restarts, a.verbose))),
        Err(m) => Err(m@),
    }
}

fn is_flag_arg(a: &str, long: &str, short: &str) -> (r: bool)
    ensures
        r == is_flag(a@, long@, short@),
{
    str_eq(a, long) || str_eq(a, short)
}

/// Reads the watchdog's command line (without the program name).
pub fn parse_watchdog_args(args: &[String]) -> (r: Result<ArgsRequest, String>)
    ensures
        request_view(r) == watchdog_request(string_views(args@)),
{
    proof {
        reveal_strlit("--executable");
        reveal_strlit("-e");
        reveal_strlit("--args");
        reveal_strlit("-a");
        reveal_strlit("--timeout");
        reveal_strlit("-t");
        reveal_strlit("--max-restarts");
        reveal_strlit("-m");
        reveal_strlit("--verbose");
        reveal_strlit("-v");
        reveal_strlit("--help");
        reveal_strlit("-h");
    }
    let ghost all = string_views(args@);
    let mut executable: Option<String> = None;
    let mut exec_args: Vec<String> = Vec::new();
    let mut timeout_ms: u64 = 3000;
    let mut max_restarts: u32 = 3;
    let mut verbose = false;
    let mut i: usize = 0;
    let ghost init: ArgsState = (None, Seq::empty(), 3000, 3, false);
    proof {
        assert(string_views(exec_args@) =~= Seq::<Seq<char>>::empty());
    }
    while i < args.len()
        invariant
            all == string_views(args@),
            init == (None::<Seq<char>>, Seq::<Seq<char>>::empty(), 3000u64, 3u32, false),
            i <= args@.len(),
            read_args(all, 0, init) == read_args(all, i as int, (
                opt_str(executable),
                string_views(exec_args@),
                timeout_ms,
                max_restarts,
                verbose,
            )),
        decreases args@.len() - i,
    {
        let ghost st: ArgsState = (
            opt_str(executable),
            string_views(exec_args@),
            timeout_ms,
            max_restarts,
            verbose,
        );
        let a = args[i].as_str();
        let has_next = i + 1 < args.len();
        proof {
            assert(all[i as int] == a@);
            if has_next {
                assert(all[i + 1] == args@[i + 1]@);
            }
        }
        if is_flag_arg(a, "--executable", "-e") {
            if has_next {
                executable = Some(args[i + 1].clone());
                i = i + 2;
            } else {
                executable = None;
                i = i + 1;
                proof {
                    let st2: ArgsState = (None, st.1, st.2, st.3, st.4);
                    assert(read_args(all, i as int, st2) == Ok::<Option<ArgsState>, Seq<char>>(Some(st2)));
                    assert(read_args(all, i + 1, st2) == Ok::<Option<ArgsState>, Seq<char>>(Some(st2)));
                }
            }
        } else if is_flag_arg(a, "--args", "-a") {
            let mut k: usize = i + 1;
            let ghost base = string_views(exec_args@);
            proof {
                assert(all.subrange(i + 1, i + 1) =~= Seq::<Seq<char>>::empty());
                assert(base + all.subrange(i + 1, i + 1) =~= base);
            }
            while k < args.len()
                invariant
                    all == string_views(args@),
                    i + 1 <= k <= args@.len(),
                    string_views(exec_args@) == base + all.subrange(i + 1, k as int),
                decreases args@.len() - k,
            {
                let ghost before = string_views(exec_args@);
                exec_args.push(args[k].clone());
                proof {
                    assert(string_views(exec_args@) =~= before.push(args@[k as int]@));
                    assert(all.subrange(i + 1, k + 1) =~= all.subrange(i + 1, k as int).push(all[k as int]));
                }
                k = k + 1;
            }
            let exe = match &executable {
                Some(e) => e.clone(),
                None => {
                    return Err(to_string("--executable is required"));
                },
            };
            return Ok(ArgsRequest::Run(WatchdogArgs { executable: exe, args: exec_args, timeout_ms, max_restarts, verbose }));
        } else if is_flag_arg(a, "--timeout", "-t") {
            if has_next {
                match parse_u64(args[i + 1].as_str()) {
                    Some(v) => {
                        timeout_ms = v;
                        i = i + 2;
                    },
                    None => {
                        return Err(to_string("Invalid timeout value"));
                    },
                }
            } else {
                i = i + 1;
            }
        } else if is_flag_arg(a, "--max-restarts", "-m") {
            if has_next {
                match parse_u32(args[i + 1].as_str()) {
                    Some(v) => {
                        max_restarts = v;
                        i = i + 2;
                    },
                    None => {
                        return Err(to_string("Invalid max-restarts value"));
                    },
                }
            } else {
                i = i + 1;
            }
        } else if is_flag_arg(a, "--verbose", "-v") {
            verbose = true;
            i = i + 1;
        } else if is_flag_arg(a, "--help", "-h") {
            return Ok(ArgsRequest::Help);
        } else {
            let mut v = crate::text::chars_of("Unknown argument: ");
            crate::diluted::append_text(&mut v, a);
            return Err(crate::text::string_from_chars(v.as_slice()));
        }
    }
    match executable {
        Some(e) => Ok(ArgsRequest::Run(WatchdogArgs { executable: e, args: exec_args, timeout_ms, max_restarts, verbose })),
        None => Err(to_string("--executable is required")),
    }
}

} // verus!
