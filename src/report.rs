//! Turning the end of a run into the report sent to the monitor and the exit
//! code of the wrapper itself.
use vstd::prelude::*;
use vstd::string::*;
use bstr::ByteSlice;
use crate::monitor::Endpoint;

verus! {

/// Exit code for a child that ended without an exit code, for a child that
/// could not be started or waited for, and for a final report that was lost.
pub const ABNORMAL_EXIT: i32 = 963;

/// Exit code for a failure to read the child's output.
pub const CAPTURE_FAILED_EXIT: i32 = 693;

/// The decimal digits, in order.
pub open spec fn digit_char(d: int) -> char {
    "0123456789"@[d]
}

/// The decimal notation of a natural number, without leading zeros.
pub open spec fn dec_nat(n: nat) -> Seq<char>
    decreases n,
{
    if n < 10 {
        seq![digit_char(n as int)]
    } else {
        dec_nat(n / 10) + seq![digit_char((n % 10) as int)]
    }
}

/// The decimal notation of an integer, with a leading `-` when negative.
pub open spec fn dec_int(n: int) -> Seq<char> {
    if n < 0 {
        seq!['-'] + dec_nat((-n) as nat)
    } else {
        dec_nat(n as nat)
    }
}

/// Appends the decimal notation of `n` to `s`.
fn push_decimal(s: &mut String, n: u32)
    ensures
        final(s)@ == old(s)@ + dec_nat(n as nat),
    decreases n,
{
    if n >= 10 {
        push_decimal(s, n / 10);
    }
    let d = (n % 10) as usize;
    let digits = "0123456789";
    proof {
        reveal_strlit("0123456789");
    }
    s.append(digits.substring_char(d, d + 1));
    assert(digits@.subrange(d as int, d + 1) =~= seq![digit_char(d as int)]);
    if n >= 10 {
        assert(dec_nat(n as nat) == dec_nat((n / 10) as nat) + seq![digit_char((n % 10) as int)]);
    }
}

/// The decimal notation of `n`.
pub fn decimal(n: i32) -> (r: String)
    ensures
        r@ == dec_int(n as int),
{
    let mut s = String::new();
    if n < 0 {
        s.append("-");
        proof {
            reveal_strlit("-");
        }
        let m = (0i64 - n as i64) as u32;
        push_decimal(&mut s, m);
        assert(s@ =~= seq!['-'] + dec_nat((-n) as nat));
    } else {
        push_decimal(&mut s, n as u32);
        assert(s@ =~= dec_nat(n as nat));
    }
    s
}

/// Text rendering of arbitrary bytes: valid UTF-8 as is, each invalid
/// sequence replaced by U+FFFD.
pub uninterp spec fn lossy_text(b: Seq<u8>) -> Seq<char>;

/// Relies on bstr's `Display` for `BStr` (without width or alignment): it
/// writes the valid UTF-8 runs of the bytes and U+FFFD for each invalid run,
/// so nothing is written exactly when there are no bytes.
#[verifier::external_body]
fn render_lossy(b: &[u8]) -> (r: String)
    ensures
        r@ == lossy_text(b@),
        r@.len() == 0 <==> b@.len() == 0,
{
    format!("{}", b.as_bstr())
}

/// First line of a report on a child that ran to its end.
pub open spec fn status_line(code: Option<i32>) -> Seq<char> {
    match code {
        Some(c) => "Command exited with exit code "@ + dec_int(c as int) + "\n"@,
        None => "Command exited without an exit code\n"@,
    }
}

/// Report on a child that ran to its end, given its exit code and the text
/// of what it wrote to each stream: the status line, then a labelled section
/// for each non-empty stream, a blank line between the two.
pub open spec fn report_text(code: Option<i32>, out: Seq<char>, err: Seq<char>) -> Seq<char> {
    status_line(code) + (if out.len() > 0 {
        "stdout:\n"@ + out + "\n"@
    } else {
        Seq::empty()
    }) + (if err.len() > 0 {
        (if out.len() > 0 {
            "\n"@
        } else {
            Seq::empty()
        }) + "stderr:\n"@ + err + "\n"@
    } else {
        Seq::empty()
    })
}

/// Builds the report on a child that ran to its end from the text of its
/// two streams.
pub fn compose_report(code: Option<i32>, out: &str, err: &str) -> (r: String)
    ensures
        r@ == report_text(code, out@, err@),
{
    let mut msg = String::new();
    match code {
        Some(c) => {
            msg.append("Command exited with exit code ");
            let d = decimal(c);
            msg.append(d.as_str());
            msg.append("\n");
        },
        None => {
            msg.append("Command exited without an exit code\n");
        },
    }
    assert(msg@ =~= status_line(code));
    let ghost head = msg@;
    if !out.is_empty() {
        msg.append("stdout:\n");
        msg.append(out);
        msg.append("\n");
    }
    let ghost with_out = msg@;
    assert(with_out =~= head + (if out@.len() > 0 {
        "stdout:\n"@ + out@ + "\n"@
    } else {
        Seq::empty()
    }));
    if !err.is_empty() {
        if !out.is_empty() {
            msg.append("\n");
        }
        msg.append("stderr:\n");
        msg.append(err);
        msg.append("\n");
    }
    assert(msg@ =~= report_text(code, out@, err@));
    msg
}

/// What a run of the child produced: its exit code, if it had one, and
/// everything it wrote to each stream.
pub struct RunOutcome {
    pub code: Option<i32>,
    pub stdout: Vec<u8>,
    pub stderr: Vec<u8>,
}

/// A terminal notification and what the wrapper does around it.
pub struct Report {
    /// Which notification is sent.
    pub endpoint: Endpoint,
    /// The text sent with it.
    pub body: String,
    /// The wrapper's own exit code once the report was delivered.
    pub exit_code: i32,
    /// Whether the text is also written to local diagnostics.
    pub echo: bool,
}

/// A report as plain values.
pub struct ReportView {
    pub endpoint: Endpoint,
    pub body: Seq<char>,
    pub exit_code: i32,
    pub echo: bool,
}

impl View for Report {
    type V = ReportView;

    open spec fn view(&self) -> ReportView {
        ReportView {
            endpoint: self.endpoint,
            body: self.body@,
            exit_code: self.exit_code,
            echo: self.echo,
        }
    }
}

/// The exit code a child's status stands for: its own, or the abnormal one.
pub open spec fn status_code(code: Option<i32>) -> i32 {
    match code {
        Some(c) => c,
        None => ABNORMAL_EXIT,
    }
}

/// Nothing to run: success, exit code 0, text echoed locally.
pub open spec fn no_command_view() -> ReportView {
    ReportView { endpoint: Endpoint::Success, body: "No command given"@, exit_code: 0, echo: true }
}

/// The report for a run with no command: an immediate success.
pub fn no_command_report() -> (r: Report)
    ensures
        r@ == no_command_view(),
{
    Report { endpoint: Endpoint::Success, body: "No command given".to_owned(), exit_code: 0, echo: true }
}

/// The ways a run can fail before its outcome is known.
#[derive(Clone, Copy, Debug, PartialEq, Eq, Structural)]
pub enum Failure {
    /// The child could not be started.
    Spawn,
    /// The child's exit status could not be obtained.
    Wait,
    /// The child's standard output could not be read.
    ReadStdout,
    /// The child's standard error could not be read.
    ReadStderr,
}

/// The text that opens the report of each failure.
pub open spec fn failure_prefix(kind: Failure) -> Seq<char> {
    match kind {
        Failure::Spawn => "Failed to spawn process: "@,
        Failure::Wait => "Failed waiting for process: "@,
        Failure::ReadStdout => "Error reading stdout from child: "@,
        Failure::ReadStderr => "Error reading stderr from child: "@,
    }
}

/// The exit code of each failure.
pub open spec fn failure_code(kind: Failure) -> i32 {
    match kind {
        Failure::Spawn | Failure::Wait => ABNORMAL_EXIT,
        Failure::ReadStdout | Failure::ReadStderr => CAPTURE_FAILED_EXIT,
    }
}

/// A failure is reported as such, with its own exit code; failures to start
/// or wait for the child are also echoed locally.
pub open spec fn failure_view(kind: Failure, detail: Seq<char>) -> ReportView {
    ReportView {
        endpoint: Endpoint::Failure,
        body: failure_prefix(kind) + detail,
        exit_code: failure_code(kind),
        echo: kind == Failure::Spawn || kind == Failure::Wait,
    }
}

/// The report of a failure, `detail` being the description of its cause.
pub fn failure_report(kind: Failure, detail: &str) -> (r: Report)
    ensures
        r@ == failure_view(kind, detail@),
{
    let mut body = match kind {
        Failure::Spawn => "Failed to spawn process: ".to_owned(),
        Failure::Wait => "Failed waiting for process: ".to_owned(),
        Failure::ReadStdout => "Error reading stdout from child: ".to_owned(),
        Failure::ReadStderr => "Error reading stderr from child: ".to_owned(),
    };
    body.append(detail);
    let exit_code = match kind {
        Failure::Spawn | Failure::Wait => ABNORMAL_EXIT,
        Failure::ReadStdout | Failure::ReadStderr => CAPTURE_FAILED_EXIT,
    };
    let echo = match kind {
        Failure::Spawn | Failure::Wait => true,
        Failure::ReadStdout | Failure::ReadStderr => false,
    };
    Report { endpoint: Endpoint::Failure, body, exit_code, echo }
}

/// The report on a child that ran to its end: success exactly when its
/// status stands for code 0; the wrapper's exit code is that code unless
/// exit codes are ignored, in which case it is 0 whatever was reported.
pub open spec fn outcome_view(code: Option<i32>, out: Seq<u8>, err: Seq<u8>, ignore_code: bool) -> ReportView {
    ReportView {
        endpoint: if status_code(code) == 0 {
            Endpoint::Success
        } else {
            Endpoint::Failure
        },
        body: report_text(code, lossy_text(out), lossy_text(err)),
        exit_code: if ignore_code {
            0
        } else {
            status_code(code)
        },
        echo: false,
    }
}

/// Ignoring exit codes changes only the wrapper's own exit code, to 0: the
/// monitor is told the same thing, with the same text, either way.
pub proof fn lemma_ignore_code_only_changes_exit(code: Option<i32>, out: Seq<u8>, err: Seq<u8>)
    ensures
        outcome_view(code, out, err, true).endpoint == outcome_view(code, out, err, false).endpoint,
        outcome_view(code, out, err, true).body == outcome_view(code, out, err, false).body,
        outcome_view(code, out, err, true).exit_code == 0,
        outcome_view(code, out, err, false).exit_code == status_code(code),
{
}

/// The report on a child that ran to its end.
pub fn conclude(outcome: &RunOutcome, ignore_code: bool) -> (r: Report)
    ensures
        r@ == outcome_view(outcome.code, outcome.stdout@, outcome.stderr@, ignore_code),
{
    let out = render_lossy(outcome.stdout.as_slice());
    let err = render_lossy(outcome.stderr.as_slice());
    let body = compose_report(outcome.code, out.as_str(), err.as_str());
    let code = match outcome.code {
        Some(c) => c,
        None => ABNORMAL_EXIT,
    };
    let endpoint = if code == 0 {
        Endpoint::Success
    } else {
        Endpoint::Failure
    };
    Report { endpoint, body, exit_code: if ignore_code { 0 } else { code }, echo: false }
}

/// The report once the child has exited and both streams were drained:
/// a failure to read standard output comes first, then one to read standard
/// error, and only with both captured is the outcome itself reported.
pub fn settle(
    code: Option<i32>,
    stdout: Result<Vec<u8>, String>,
    stderr: Result<Vec<u8>, String>,
    ignore_code: bool,
) -> (r: Report)
    ensures
        stdout matches Err(e) ==> r@ == failure_view(Failure::ReadStdout, e@),
        stdout is Ok ==> (stderr matches Err(e) ==> r@ == failure_view(Failure::ReadStderr, e@)),
        stdout matches Ok(out) ==> (stderr matches Ok(err) ==> r@ == outcome_view(
            code,
            out@,
            err@,
            ignore_code,
        )),
{
    let out = match stdout {
        Ok(out) => out,
        Err(e) => {
            return failure_report(Failure::ReadStdout, e.as_str());
        },
    };
    let err = match stderr {
        Ok(err) => err,
        Err(e) => {
            return failure_report(Failure::ReadStderr, e.as_str());
        },
    };
    conclude(&RunOutcome { code, stdout: out, stderr: err }, ignore_code)
}

/// The wrapper's exit code once the report was sent: its own when it was
/// delivered, the abnormal code when it was lost.
pub fn exit_code_after_send(report: &Report, delivered: bool) -> (r: i32)
    ensures
        r == if delivered {
            report.exit_code
        } else {
            ABNORMAL_EXIT
        },
{
    if delivered {
        report.exit_code
    } else {
        ABNORMAL_EXIT
    }
}

} // verus!
