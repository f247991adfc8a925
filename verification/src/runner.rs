use vstd::prelude::*;

verus! {

/// The structured outcome of one spawned command.
pub struct ExecutionResult {
    /// Exit status code; absent on platforms that report none, as for
    /// signal-terminated processes.
    pub status_code: Option<i32>,
    /// Full captured standard output.
    pub stdout: String,
    /// Full captured standard error.
    pub stderr: String,
}

/// The full capture of one output stream: the lines read from it, in
/// original order, each terminated by a newline whether or not the source
/// line had one. The capture of a stream depends on that stream's lines
/// alone, so the relative timing of the two streams cannot change it.
pub open spec fn captured_text(lines: Seq<Seq<char>>) -> Seq<char>
    decreases lines.len(),
{
    if lines.len() == 0 {
        Seq::empty()
    } else {
        captured_text(lines.drop_last()) + lines.last() + "\n"@
    }
}

/// Law: reading one more line extends a stream's capture by exactly that
/// line and a newline. So a capture is its own stream's lines in original
/// order, each newline-terminated — and nothing else: the other stream's
/// lines, however the two raced, never enter it, since the capture is a
/// function of this stream's lines alone.
pub proof fn lemma_capture_appends(lines: Seq<Seq<char>>, l: Seq<char>)
    ensures
        captured_text(lines.push(l)) == captured_text(lines) + l + "\n"@,
{
    assert(lines.push(l).drop_last() =~= lines);
    assert(lines.push(l).last() == l);
}

/// Appends one line, newline-terminated, to a stream's accumulated text.
pub fn append_captured_line(acc: &mut String, line: &str)
    ensures
        final(acc)@ == old(acc)@ + line@ + "\n"@,
{
    acc.append(line);
    acc.append("\n");
}

/// Builds the capture of a whole stream from its lines.
pub fn capture_lines(lines: &Vec<String>) -> (r: String)
    ensures
        r@ == captured_text(lines.deep_view()),
{
    let mut r = String::new();
    let mut i: usize = 0;
    while i < lines.len()
        invariant
            i <= lines.len(),
            r@ == captured_text(lines.deep_view().subrange(0, i as int)),
        decreases lines.len() - i,
    {
        append_captured_line(&mut r, lines[i].as_str());
        proof {
            let prefix = lines.deep_view().subrange(0, i + 1);
            assert(prefix.drop_last() =~= lines.deep_view().subrange(0, i as int));
            assert(prefix.last() == lines@[i as int]@);
        }
        i = i + 1;
    }
    proof {
        assert(lines.deep_view().subrange(0, lines@.len() as int) =~= lines.deep_view());
    }
    r
}

/// What `serde_json::to_string` returns on a string: the JSON string
/// literal that encodes it, quotes and escapes in place.
pub uninterp spec fn json_quoted(s: Seq<char>) -> Seq<char>;

/// Relies on `serde_json::to_string`: encodes a string as a JSON string
/// literal. Its documentation allows failure only for fallible `Serialize`
/// implementations and maps with non-string keys, so on a string slice it
/// always succeeds.
#[verifier::external_body]
fn json_quote(s: &str) -> (r: String)
    ensures
        r@ == json_quoted(s@),
{
    serde_json::to_string(s).unwrap()
}

/// The decimal digit characters.
pub open spec fn dec_digit(d: int) -> char {
    if d == 0 {
        '0'
    } else if d == 1 {
        '1'
    } else if d == 2 {
        '2'
    } else if d == 3 {
        '3'
    } else if d == 4 {
        '4'
    } else if d == 5 {
        '5'
    } else if d == 6 {
        '6'
    } else if d == 7 {
        '7'
    } else if d == 8 {
        '8'
    } else {
        '9'
    }
}

/// The decimal representation of a natural number, most significant digit
/// first, without leading zeros (a single zero for zero itself).
pub open spec fn dec_rep_nat(n: nat) -> Seq<char>
    decreases n,
{
    if n < 10 {
        seq![dec_digit(n as int)]
    } else {
        dec_rep_nat(n / 10) + seq![dec_digit((n % 10) as int)]
    }
}

/// The decimal representation of an integer: a minus sign before the digits
/// of the magnitude when negative.
pub open spec fn dec_rep(n: int) -> Seq<char> {
    if n < 0 {
        seq!['-'] + dec_rep_nat((-n) as nat)
    } else {
        dec_rep_nat(n as nat)
    }
}

/// One decimal digit as text.
fn digit_str(d: u64) -> (r: &'static str)
    requires
        d < 10,
    ensures
        r@ == seq![dec_digit(d as int)],
{
    proof {
        reveal_strlit("0");
        reveal_strlit("1");
        reveal_strlit("2");
        reveal_strlit("3");
        reveal_strlit("4");
        reveal_strlit("5");
        reveal_strlit("6");
        reveal_strlit("7");
        reveal_strlit("8");
        reveal_strlit("9");
    }
    let r: &'static str = if d == 0 {
        "0"
    } else if d == 1 {
        "1"
    } else if d == 2 {
        "2"
    } else if d == 3 {
        "3"
    } else if d == 4 {
        "4"
    } else if d == 5 {
        "5"
    } else if d == 6 {
        "6"
    } else if d == 7 {
        "7"
    } else if d == 8 {
        "8"
    } else {
        "9"
    };
    proof {
        assert(r@ =~= seq![dec_digit(d as int)]);
    }
    r
}

/// Renders a natural number in decimal.
pub fn u64_to_decimal(n: u64) -> (r: String)
    ensures
        r@ == dec_rep_nat(n as nat),
    decreases n,
{
    if n < 10 {
        String::from_str(digit_str(n))
    } else {
        let mut s = u64_to_decimal(n / 10);
        s.append(digit_str(n % 10));
        s
    }
}

/// Renders a signed status code in decimal.
pub fn i32_to_decimal(n: i32) -> (r: String)
    ensures
        r@ == dec_rep(n as int),
{
    if n < 0 {
        let m: i64 = -(n as i64);
        let mut s = String::from_str("-");
        proof {
            reveal_strlit("-");
            assert(s@ =~= seq!['-']);
        }
        s.append(u64_to_decimal(m as u64).as_str());
        s
    } else {
        u64_to_decimal(n as u64)
    }
}

/// The status codes an `ExecutionResult` reports, as mathematical integers.
pub open spec fn status_view(s: Option<i32>) -> Option<int> {
    match s {
        Some(n) => Some(n as int),
        None => None,
    }
}

/// The JSON payload that reports a run command's outcome: its status code
/// (`null` when absent) and the two captured streams.
pub open spec fn execution_payload(status: Option<int>, stdout: Seq<char>, stderr: Seq<char>) -> Seq<
    char,
> {
    "{\"status_code\":"@ + (match status {
        Some(n) => dec_rep(n),
        None => "null"@,
    }) + ",\"stdout\":"@ + json_quoted(stdout) + ",\"stderr\":"@ + json_quoted(stderr) + "}"@
}

/// Serializes an `ExecutionResult` as the tool-result payload.
pub fn execution_result_payload(r: &ExecutionResult) -> (p: String)
    ensures
        p@ == execution_payload(status_view(r.status_code), r.stdout@, r.stderr@),
{
    let mut p = String::from_str("{\"status_code\":");
    match &r.status_code {
        Some(n) => p.append(i32_to_decimal(*n).as_str()),
        None => p.append("null"),
    }
    p.append(",\"stdout\":");
    p.append(json_quote(r.stdout.as_str()).as_str());
    p.append(",\"stderr\":");
    p.append(json_quote(r.stderr.as_str()).as_str());
    p.append("}");
    p
}

/// The JSON payload that reports an error back to the model.
pub open spec fn error_payload(msg: Seq<char>) -> Seq<char> {
    "{\"error\":"@ + json_quoted(msg) + "}"@
}

/// Serializes an error message as the tool-result payload.
pub fn build_error_payload(msg: &str) -> (p: String)
    ensures
        p@ == error_payload(msg@),
{
    let mut p = String::from_str("{\"error\":");
    p.append(json_quote(msg).as_str());
    p.append("}");
    p
}

/// The payload that reports a built-in command's outcome: built-ins spawn
/// no child, so the streams are empty and the status is zero on success and
/// one on error, the error text standing as the captured standard error.
pub fn builtin_result_payload(r: &Result<(), String>) -> (p: String)
    ensures
        r is Ok ==> p@ == execution_payload(Some(0), Seq::empty(), Seq::empty()),
        r matches Err(e) ==> p@ == execution_payload(Some(1), Seq::empty(), e@),
{
    let outcome = match r {
        Ok(_) => ExecutionResult {
            status_code: Some(0),
            stdout: String::new(),
            stderr: String::new(),
        },
        Err(e) => ExecutionResult {
            status_code: Some(1),
            stdout: String::new(),
            stderr: e.clone(),
        },
    };
    execution_result_payload(&outcome)
}

} // verus!
