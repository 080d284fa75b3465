//! The decisions of `fork`: whether this process is already the sandboxed
//! child, whether it may nest one more level, and with what environment,
//! argument, input and limits the child is started.

use vstd::prelude::*;
use vstd::utf8::*;

verus! {

/// The environment variable that holds the markers of the sandboxes that
/// enclose the current process.
pub const SUNDBOX: &'static str = "SUNDBOX";

/// The length of one marker: `:` and 16 hex digits.
pub const SUNDBOX_LENGTH: usize = 19;

/// The longest marker list, in bytes, under which one more level may be started.
pub const MAX_MARKER_BYTES: usize = 16 * SUNDBOX_LENGTH;

/// The time limit, in milliseconds, when the caller gives none.
pub const DEFAULT_TIME_LIMIT_MS: u64 = 1000;

/// The memory limit, in bytes, when the caller gives none.
pub const DEFAULT_MEMORY_LIMIT: usize = 1048576;

/// The exit code of a child whose work returned normally.
pub const EXIT_SUCCESS: i32 = 0;

/// The exit code of a child whose work panicked, and of a bad command line.
pub const EXIT_FAILURE: i32 = 70;

/// `hay` holds `needle` as a contiguous run of bytes.
pub open spec fn holds_bytes(hay: Seq<u8>, needle: Seq<u8>) -> bool {
    exists|i: int| 0 <= i <= hay.len() - needle.len() && #[trigger] hay.subrange(i, i + needle.len()) == needle
}

/// The marker list `occurs` names the sandbox `marker`, byte for byte as
/// `str::contains` compares them.
pub open spec fn names_sandbox(occurs: Seq<char>, marker: Seq<char>) -> bool {
    holds_bytes(encode_utf8(occurs), encode_utf8(marker))
}

/// The number of bytes of a string, as `str::len` counts them.
pub open spec fn byte_len(s: Seq<char>) -> nat {
    encode_utf8(s).len()
}

/// How a child that is to be spawned is started.
pub struct SpawnRequest {
    /// The one argument that the current program is started with again.
    pub module_arg: String,
    /// The new value of `SUNDBOX` in the child's environment.
    pub marker_env: String,
    /// What is written to the child's standard input.
    pub stdin_payload: String,
    /// The time limit of the child, in milliseconds.
    pub time_limit_ms: u64,
    /// The memory limit of the child, in bytes.
    pub memory_limit: usize,
}

/// What `fork` does in the current process.
pub enum ForkPlan {
    /// This process is the sandboxed child: run the work here, then exit.
    RunInChild,
    /// The markers already nest too deep: refuse to start another level.
    RefuseNesting,
    /// Start the child as described.
    Spawn(SpawnRequest),
}

/// Whether the marker list `occurs` names the sandbox `marker`.
pub fn contains_marker(occurs: &str, marker: &str) -> (b: bool)
    ensures
        b == names_sandbox(occurs@, marker@),
{
    let hay = occurs.as_bytes();
    let needle = marker.as_bytes();
    let n = needle.len();
    if n > hay.len() {
        assert(!holds_bytes(hay@, needle@));
        return false;
    }
    let last = hay.len() - n;
    let mut i: usize = 0;
    loop
        invariant
            hay@ == encode_utf8(occurs@),
            needle@ == encode_utf8(marker@),
            n == needle@.len(),
            last + n == hay@.len(),
            i <= last,
            forall|k: int| 0 <= k < i ==> #[trigger] hay@.subrange(k, k + n) != needle@,
        decreases last - i,
    {
        let mut j: usize = 0;
        let mut same = true;
        while j < n
            invariant
                hay@ == encode_utf8(occurs@),
                needle@ == encode_utf8(marker@),
                i + n <= hay@.len(),
                hay@.len() == hay.len(),
                n == needle@.len(),
                j <= n,
                same == (forall|t: int| 0 <= t < j ==> hay@[i + t] == needle@[t]),
            decreases n - j,
        {
            if hay[i + j] != needle[j] {
                same = false;
            }
            j = j + 1;
        }
        if same {
            assert(hay@.subrange(i as int, i + n) =~= needle@);
            return true;
        }
        assert(hay@.subrange(i as int, i + n) != needle@) by {
            let t = choose|t: int| 0 <= t < n && hay@[i + t] != needle@[t];
            assert(hay@.subrange(i as int, i + n)[t] == hay@[i + t]);
        }
        if i == last {
            return false;
        }
        i = i + 1;
    }
}

/// Decides what `fork` does, given the current value of `SUNDBOX` (empty
/// when it is unset or not Unicode), the marker of the sandbox, the module
/// argument and the input for the child, and the optional limits.
pub fn plan_fork(
    occurs: &str,
    sandboxed: &str,
    ser_module: String,
    ser_fn_map: String,
    timeout: Option<u64>,
    mem_limit: Option<usize>,
) -> (plan: ForkPlan)
    ensures
        names_sandbox(occurs@, sandboxed@) <==> plan is RunInChild,
        plan is RefuseNesting <==> (!names_sandbox(occurs@, sandboxed@) && byte_len(occurs@)
            > MAX_MARKER_BYTES),
        plan matches ForkPlan::Spawn(req) ==> {
            &&& req.module_arg == ser_module
            &&& req.marker_env@ == occurs@ + sandboxed@
            &&& req.stdin_payload == ser_fn_map
            &&& req.time_limit_ms == (match timeout {
                Some(t) => t,
                None => DEFAULT_TIME_LIMIT_MS,
            })
            &&& req.memory_limit == (match mem_limit {
                Some(m) => m,
                None => DEFAULT_MEMORY_LIMIT,
            })
        },
{
    if contains_marker(occurs, sandboxed) {
        return ForkPlan::RunInChild;
    }
    if occurs.as_bytes().len() > MAX_MARKER_BYTES {
        return ForkPlan::RefuseNesting;
    }
    let time_limit_ms = match timeout {
        Some(t) => t,
        None => DEFAULT_TIME_LIMIT_MS,
    };
    let memory_limit = match mem_limit {
        Some(m) => m,
        None => DEFAULT_MEMORY_LIMIT,
    };
    let marker_env = String::from_str(occurs).concat(sandboxed);
    ForkPlan::Spawn(
        SpawnRequest {
            module_arg: ser_module,
            marker_env,
            stdin_payload: ser_fn_map,
            time_limit_ms,
            memory_limit,
        },
    )
}

/// The exit code of a sandboxed child after its work: 70 when the work
/// panicked, 0 when it returned.
pub fn child_exit_code(panicked: bool) -> (code: i32)
    ensures
        code == (if panicked {
            EXIT_FAILURE
        } else {
            EXIT_SUCCESS
        }),
{
    if panicked {
        EXIT_FAILURE
    } else {
        EXIT_SUCCESS
    }
}

/// How a spawned child ended, as the parent reports it.
#[derive(PartialEq, Eq, Structural, Clone, Copy, Debug)]
pub enum Completion {
    /// The child exited with a success status.
    Succeeded,
    /// The child exited with a failure status.
    ThrewError,
    /// The child ran past its time limit and was terminated.
    TimedOut,
}

/// Judges the end of a child from what waiting on it gave: `None` when the
/// time limit ran out, else whether its exit status is a success.
pub fn judge_completion(finished: Option<bool>) -> (c: Completion)
    ensures
        c == (match finished {
            None => Completion::TimedOut,
            Some(true) => Completion::Succeeded,
            Some(false) => Completion::ThrewError,
        }),
{
    match finished {
        None => Completion::TimedOut,
        Some(success) => if success {
            Completion::Succeeded
        } else {
            Completion::ThrewError
        },
    }
}

impl Completion {
    /// The line that reports this end: the message of the time-out error,
    /// or the banner that follows the child's output.
    pub fn message(&self) -> (m: &'static str)
        ensures
            *self == Completion::Succeeded ==> m@ == "Verifier succeeded!"@,
            *self == Completion::ThrewError ==> m@ == "Verifier threw Error"@,
            *self == Completion::TimedOut ==> m@ == "Process timed out"@,
    {
        match self {
            Completion::Succeeded => "Verifier succeeded!",
            Completion::ThrewError => "Verifier threw Error",
            Completion::TimedOut => "Process timed out",
        }
    }

    /// Whether the report goes to standard output (with the child's standard
    /// output) rather than to standard error (with the child's standard error).
    pub fn reports_on_stdout(&self) -> (b: bool)
        ensures
            b <==> *self == Completion::Succeeded,
    {
        match self {
            Completion::Succeeded => true,
            _ => false,
        }
    }
}

/// The UTF-8 bytes of a concatenation are the bytes of its parts, in order.
pub proof fn lemma_encode_utf8_concat(a: Seq<char>, b: Seq<char>)
    ensures
        encode_utf8(a + b) == encode_utf8(a) + encode_utf8(b),
    decreases a.len(),
{
    if a.len() == 0 {
        assert(a + b =~= b);
        assert(encode_utf8(a) + encode_utf8(b) =~= encode_utf8(b));
    } else {
        assert((a + b).drop_first() =~= a.drop_first() + b);
        lemma_encode_utf8_concat(a.drop_first(), b);
        assert((a + b)[0] == a[0]);
        assert(encode_utf8(a + b) =~= encode_scalar(a[0] as u32) + (encode_utf8(a.drop_first())
            + encode_utf8(b)));
    }
}

/// A child started by `fork` finds its own marker at the end of the marker
/// list it was given, so it runs the work in place and does not fork again.
pub proof fn lemma_spawned_child_runs_in_place(occurs: Seq<char>, marker: Seq<char>)
    ensures
        names_sandbox(occurs + marker, marker),
{
    lemma_encode_utf8_concat(occurs, marker);
    let hay = encode_utf8(occurs + marker);
    let i = encode_utf8(occurs).len() as int;
    assert(hay.subrange(i, i + encode_utf8(marker).len()) =~= encode_utf8(marker));
}

/// A marker is found wherever it stands in the marker list: before it, after
/// it, or between other markers, whatever surrounds it.
pub proof fn lemma_marker_found_anywhere(before: Seq<char>, marker: Seq<char>, after: Seq<char>)
    ensures
        names_sandbox(before + marker + after, marker),
{
    lemma_encode_utf8_concat(before, marker);
    lemma_encode_utf8_concat(before + marker, after);
    let hay = encode_utf8(before + marker + after);
    let needle = encode_utf8(marker);
    let i = encode_utf8(before).len() as int;
    assert(hay.subrange(i, i + needle.len()) =~= needle);
}

/// The byte search finds a needle at every position where it occurs, and
/// only there.
pub proof fn lemma_holds_bytes_anywhere(a: Seq<u8>, m: Seq<u8>, b: Seq<u8>)
    ensures
        holds_bytes(a + m + b, m),
{
    let hay = a + m + b;
    let i = a.len() as int;
    assert(hay.subrange(i, i + m.len()) =~= m);
}

/// The empty marker names every sandbox: `fork` with it always runs the work
/// in the current process.
pub proof fn lemma_empty_marker_runs_in_place(occurs: Seq<char>)
    ensures
        names_sandbox(occurs, Seq::<char>::empty()),
{
    assert(encode_utf8(Seq::<char>::empty()) =~= Seq::<u8>::empty());
    let needle = encode_utf8(Seq::<char>::empty());
    assert(encode_utf8(occurs).subrange(0int, 0int + needle.len()) =~= needle);
}

/// The marker list of a spawned child is the parent's list extended by the
/// marker, so it never holds more than `MAX_MARKER_BYTES` bytes plus one marker.
pub proof fn lemma_spawned_marker_list_bounded(occurs: Seq<char>, marker: Seq<char>)
    requires
        byte_len(occurs) <= MAX_MARKER_BYTES,
    ensures
        byte_len(occurs + marker) == byte_len(occurs) + byte_len(marker),
        byte_len(occurs + marker) <= MAX_MARKER_BYTES + byte_len(marker),
{
    lemma_encode_utf8_concat(occurs, marker);
}

} // verus!
