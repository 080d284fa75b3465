//! The command line of the sandbox program: which role the process plays,
//! how its limits and its module are read, and which sandboxed call it makes.

use vstd::prelude::*;
use crate::sandbox::{names_sandbox, lemma_spawned_child_runs_in_place, lemma_empty_marker_runs_in_place};

verus! {

/// The role of the process, chosen by the number of its arguments
/// (the program's name included).
#[derive(PartialEq, Eq, Structural, Clone, Copy, Debug)]
pub enum Mode {
    /// `prog MODULE TIME MEMORY`: run the Move bytecode verifier in a sandbox.
    MoveVerifier,
    /// `prog MODULE _ TIME MEMORY`, with the function map on standard input:
    /// run the Sui verifier in a sandbox.
    SuiVerifier,
    /// `prog MODULE`: the sandboxed child started by one of the above.
    Child,
    /// Any other count: refused.
    Invalid,
}

/// The verifier that the sandboxed work runs.
#[derive(PartialEq, Eq, Structural, Clone, Copy, Debug)]
pub enum Verifier {
    /// `move_bytecode_verifier::verify_module`.
    Move,
    /// `sui_verifier::verifier::verify_module`, with the function map.
    Sui,
}

/// Why a command line was refused.
#[derive(PartialEq, Eq, Structural, Clone, Copy, Debug)]
pub enum InvocationError {
    /// The module argument is not a JSON array of bytes.
    ModuleJson,
    /// The time limit is not a decimal `u64`.
    TimeLimit,
    /// The memory limit is not a decimal `usize`.
    MemoryLimit,
}

/// The limits given on a parent's command line.
#[derive(PartialEq, Eq, Structural, Clone, Copy, Debug)]
pub struct Limits {
    /// In milliseconds.
    pub time_limit_ms: u64,
    /// In bytes.
    pub memory_limit: usize,
}

/// The arguments of one call of `fork`, and the verifier that its work runs.
pub struct ForkRequest {
    pub verifier: Verifier,
    pub sandboxed: String,
    pub ser_module: String,
    pub ser_fn_map: String,
    pub timeout: Option<u64>,
    pub mem_limit: Option<usize>,
}

/// The marker under which a parent runs its verifier in a sandbox.
pub open spec fn sandbox_marker() -> Seq<char> {
    "sandboxed"@
}

/// The marker of the child's own call of `fork`: the sandbox marker when a
/// function map came on standard input, else the empty marker.
pub open spec fn child_marker(stdin_line: Seq<char>) -> Seq<char> {
    if stdin_line.len() > 0 {
        sandbox_marker()
    } else {
        Seq::<char>::empty()
    }
}

/// The role for a given argument count.
pub open spec fn mode_spec(arg_count: nat) -> Mode {
    if arg_count == 4 {
        Mode::MoveVerifier
    } else if arg_count == 5 {
        Mode::SuiVerifier
    } else if arg_count == 2 {
        Mode::Child
    } else {
        Mode::Invalid
    }
}

/// Chooses the role of the process from its argument count.
pub fn mode_for(arg_count: usize) -> (m: Mode)
    ensures
        m == mode_spec(arg_count as nat),
{
    if arg_count == 4 {
        Mode::MoveVerifier
    } else if arg_count == 5 {
        Mode::SuiVerifier
    } else if arg_count == 2 {
        Mode::Child
    } else {
        Mode::Invalid
    }
}

/// The positions of the time and memory arguments of a parent's command line.
pub open spec fn limit_positions(mode: Mode) -> (int, int) {
    match mode {
        Mode::MoveVerifier => (2, 3),
        _ => (3, 4),
    }
}

/// Whether `c` is an ASCII decimal digit.
pub open spec fn is_digit(c: char) -> bool {
    '0' <= c && c <= '9'
}

/// The value of a run of decimal digits.
pub open spec fn digits_value(s: Seq<char>) -> int
    decreases s.len(),
{
    if s.len() == 0 {
        0
    } else {
        digits_value(s.drop_last()) * 10 + (s.last() as int - '0' as int)
    }
}

/// What `str::parse` makes of `s` for an unsigned integer type whose largest
/// value is `max`: an optional `+`, then one or more decimal digits, with
/// nothing before or after, and a value no larger than `max`.
pub open spec fn parse_unsigned(s: Seq<char>, max: int) -> Option<int> {
    let d = if s.len() > 0 && s[0] == '+' {
        s.drop_first()
    } else {
        s
    };
    if d.len() > 0 && (forall|i: int| 0 <= i < d.len() ==> is_digit(#[trigger] d[i]))
        && digits_value(d) <= max {
        Some(digits_value(d))
    } else {
        None
    }
}

/// `std::num::ParseIntError`, carried through without being looked into.
#[verifier::external_type_specification]
#[verifier::external_body]
pub struct ExParseIntError(std::num::ParseIntError);

/// Calls `str::parse::<u64>`, which accepts an optional `+` followed by
/// decimal digits whose value fits in a `u64`, and nothing else.
#[verifier::external_body]
fn parse_u64(text: &str) -> (r: Result<u64, std::num::ParseIntError>)
    ensures
        r is Ok <==> parse_unsigned(text@, u64::MAX as int) is Some,
        r matches Ok(v) ==> parse_unsigned(text@, u64::MAX as int) == Some(v as int),
{
    text.parse::<u64>()
}

/// Calls `str::parse::<usize>`, which accepts an optional `+` followed by
/// decimal digits whose value fits in a `usize`, and nothing else.
#[verifier::external_body]
fn parse_usize(text: &str) -> (r: Result<usize, std::num::ParseIntError>)
    ensures
        r is Ok <==> parse_unsigned(text@, usize::MAX as int) is Some,
        r matches Ok(v) ==> parse_unsigned(text@, usize::MAX as int) == Some(v as int),
{
    text.parse::<usize>()
}

/// Reads the time and memory limits from a parent's command line: the time
/// limit first, then the memory limit.
pub fn parse_limits(args: &Vec<String>, mode: Mode) -> (r: Result<Limits, InvocationError>)
    requires
        mode == Mode::MoveVerifier || mode == Mode::SuiVerifier,
        mode == mode_spec(args@.len()),
    ensures
        ({
            let t = parse_unsigned(args@[limit_positions(mode).0]@, u64::MAX as int);
            let m = parse_unsigned(args@[limit_positions(mode).1]@, usize::MAX as int);
            &&& t is None ==> r == Err::<Limits, InvocationError>(InvocationError::TimeLimit)
            &&& t is Some && m is None ==> r == Err::<Limits, InvocationError>(
                InvocationError::MemoryLimit,
            )
            &&& t is Some && m is Some ==> (r matches Ok(l) && l.time_limit_ms == t->0
                && l.memory_limit == m->0)
        }),
{
    let (ti, mi): (usize, usize) = match mode {
        Mode::MoveVerifier => (2, 3),
        _ => (3, 4),
    };
    let time_limit_ms = match parse_u64(args[ti].as_str()) {
        Ok(t) => t,
        Err(_) => return Err(InvocationError::TimeLimit),
    };
    let memory_limit = match parse_usize(args[mi].as_str()) {
        Ok(m) => m,
        Err(_) => return Err(InvocationError::MemoryLimit),
    };
    Ok(Limits { time_limit_ms, memory_limit })
}

/// `serde_json::Error`, carried through without being looked into.
#[verifier::external_type_specification]
#[verifier::external_body]
pub struct ExJsonError(serde_json::Error);

/// What `serde_json::from_str::<Vec<u8>>` makes of a text: the bytes of a
/// JSON array of integers in `0..=255`, or `None` where it fails.
pub uninterp spec fn json_byte_array(text: Seq<char>) -> Option<Seq<u8>>;

/// Calls `serde_json::from_str::<Vec<u8>>`. Its result is named
/// `json_byte_array`; nothing more of JSON's grammar is claimed here.
#[verifier::external_body]
fn bytes_from_json(text: &str) -> (r: Result<Vec<u8>, serde_json::Error>)
    ensures
        r is Ok <==> json_byte_array(text@) is Some,
        r matches Ok(v) ==> json_byte_array(text@) == Some(v@),
{
    serde_json::from_str::<Vec<u8>>(text)
}

/// Reads the serialized module from its argument: a JSON array of bytes.
pub fn decode_module_json(text: &str) -> (r: Result<Vec<u8>, InvocationError>)
    ensures
        match json_byte_array(text@) {
            Some(b) => r matches Ok(v) && v@ == b,
            None => r == Err::<Vec<u8>, InvocationError>(InvocationError::ModuleJson),
        },
{
    match bytes_from_json(text) {
        Ok(v) => Ok(v),
        Err(_) => Err(InvocationError::ModuleJson),
    }
}

/// The call of `fork` that each role makes. A parent marks its child with
/// `sandboxed` and passes the module on; the child runs the Sui verifier in
/// place when its standard input carried a function map, else the Move
/// verifier in place under the empty marker, with empty arguments.
pub fn fork_request(mode: Mode, module_json: &String, stdin_line: String, limits: Option<Limits>) -> (req: ForkRequest)
    requires
        mode != Mode::Invalid,
        mode == Mode::MoveVerifier || mode == Mode::SuiVerifier ==> limits is Some,
    ensures
        mode == Mode::MoveVerifier ==> {
            &&& req.verifier == Verifier::Move
            &&& req.sandboxed@ == sandbox_marker()
            &&& req.ser_module@ == module_json@
            &&& req.ser_fn_map@ == Seq::<char>::empty()
            &&& req.timeout == Some(limits->0.time_limit_ms)
            &&& req.mem_limit == Some(limits->0.memory_limit)
        },
        mode == Mode::SuiVerifier ==> {
            &&& req.verifier == Verifier::Sui
            &&& req.sandboxed@ == sandbox_marker()
            &&& req.ser_module@ == module_json@
            &&& req.ser_fn_map@ == stdin_line@
            &&& req.timeout == Some(limits->0.time_limit_ms)
            &&& req.mem_limit == Some(limits->0.memory_limit)
        },
        mode == Mode::Child ==> req.sandboxed@ == child_marker(stdin_line@),
        mode == Mode::Child && stdin_line@.len() > 0 ==> {
            &&& req.verifier == Verifier::Sui
            &&& req.ser_module@ == module_json@
            &&& req.ser_fn_map@ == stdin_line@
            &&& req.timeout is None
            &&& req.mem_limit is None
        },
        mode == Mode::Child && stdin_line@.len() == 0 ==> {
            &&& req.verifier == Verifier::Move
            &&& req.ser_module@ == Seq::<char>::empty()
            &&& req.ser_fn_map@ == Seq::<char>::empty()
            &&& req.timeout is None
            &&& req.mem_limit is None
        },
{
    match mode {
        Mode::MoveVerifier => {
            let l = limits.unwrap();
            ForkRequest {
                verifier: Verifier::Move,
                sandboxed: String::from_str("sandboxed"),
                ser_module: module_json.clone(),
                ser_fn_map: String::new(),
                timeout: Some(l.time_limit_ms),
                mem_limit: Some(l.memory_limit),
            }
        },
        Mode::SuiVerifier => {
            let l = limits.unwrap();
            ForkRequest {
                verifier: Verifier::Sui,
                sandboxed: String::from_str("sandboxed"),
                ser_module: module_json.clone(),
                ser_fn_map: stdin_line,
                timeout: Some(l.time_limit_ms),
                mem_limit: Some(l.memory_limit),
            }
        },
        _ => {
            if !stdin_line.as_str().is_empty() {
                ForkRequest {
                    verifier: Verifier::Sui,
                    sandboxed: String::from_str("sandboxed"),
                    ser_module: module_json.clone(),
                    ser_fn_map: stdin_line,
                    timeout: None,
                    mem_limit: None,
                }
            } else {
                ForkRequest {
                    verifier: Verifier::Move,
                    sandboxed: String::new(),
                    ser_module: String::new(),
                    ser_fn_map: String::new(),
                    timeout: None,
                    mem_limit: None,
                }
            }
        },
    }
}

/// The role depends on the argument count alone: four arguments make the
/// Move parent, five the Sui parent, two the child, and every other count is
/// refused.
pub proof fn lemma_roles_by_count(n: nat)
    ensures
        mode_spec(4) == Mode::MoveVerifier,
        mode_spec(5) == Mode::SuiVerifier,
        mode_spec(2) == Mode::Child,
        n != 2 && n != 4 && n != 5 ==> mode_spec(n) == Mode::Invalid,
{
}

/// The child's marker depends only on whether a function map came on
/// standard input: any non-empty line, whatever it ends with, gives the
/// sandbox marker `sandboxed`; the empty line gives the empty marker.
pub proof fn lemma_child_marker_by_line(line: Seq<char>)
    ensures
        line.len() > 0 ==> child_marker(line) == "sandboxed"@,
        line.len() == 0 ==> child_marker(line) == Seq::<char>::empty(),
{
}

/// A child started by a parent of either kind takes the child role (its
/// command line is the program and the module), and its own call of `fork`
/// finds its marker in the environment that the parent gave it, whatever the
/// parent's environment held and whatever came on standard input: the child
/// runs the verifier in place and never starts a further process.
pub proof fn lemma_child_runs_verifier_in_place(occurs: Seq<char>, stdin_line: Seq<char>)
    ensures
        mode_spec(2) == Mode::Child,
        names_sandbox(occurs + sandbox_marker(), child_marker(stdin_line)),
{
    if stdin_line.len() > 0 {
        lemma_spawned_child_runs_in_place(occurs, sandbox_marker());
    } else {
        lemma_empty_marker_runs_in_place(occurs + sandbox_marker());
    }
}

} // verus!
