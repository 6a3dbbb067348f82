//! The command execution channel: how a command is handed to the shell in
//! the container, how its streamed output is collected, and how its final
//! status is judged.
use vstd::prelude::*;
use crate::text::views;

verus! {

/// A word in double quotes.
pub open spec fn quoted(w: Seq<char>) -> Seq<char> {
    seq!['"'] + w + seq!['"']
}

/// The words, each quoted, separated by single spaces.
pub open spec fn quoted_join(ws: Seq<Seq<char>>) -> Seq<char>
    decreases ws.len(),
{
    if ws.len() == 0 {
        Seq::<char>::empty()
    } else if ws.len() == 1 {
        quoted(ws[0])
    } else {
        quoted_join(ws.drop_last()) + seq![' '] + quoted(ws.last())
    }
}

/// The argument vector that runs the command `ws` through the shell.
pub open spec fn shell_argv(ws: Seq<Seq<char>>) -> Seq<Seq<char>> {
    seq!["bash"@, "-c"@, quoted_join(ws)]
}

/// The text that `String::from_utf8_lossy` decodes from `b`.
pub uninterp spec fn utf8_lossy(b: Seq<u8>) -> Seq<char>;

/// Every byte is below 0x80: the bytes are ASCII text.
pub open spec fn all_ascii(b: Seq<u8>) -> bool {
    forall|i: int| 0 <= i < b.len() ==> #[trigger] b[i] < 0x80
}

/// ASCII bytes read as characters, one per byte.
pub open spec fn ascii_text(b: Seq<u8>) -> Seq<char> {
    b.map_values(|x: u8| x as char)
}

/// Relies on `String::from_utf8_lossy`: the decoded text depends on the
/// bytes alone, and valid UTF-8, ASCII in particular, is kept as it is.
#[verifier::external_body]
fn decode_lossy(b: &[u8]) -> (r: String)
    ensures
        r@ == utf8_lossy(b@),
        all_ascii(b@) ==> r@ == ascii_text(b@),
{
    String::from_utf8_lossy(b).into_owned()
}

/// The single shell command line for the words of a command.
pub fn shell_command(words: &Vec<String>) -> (r: String)
    ensures
        r@ == quoted_join(views(words@)),
{
    let mut r = String::new();
    let mut i: usize = 0;
    while i < words.len()
        invariant
            i <= words@.len(),
            r@ == quoted_join(views(words@.subrange(0, i as int))),
        decreases words@.len() - i,
    {
        let ghost ws = views(words@.subrange(0, i + 1));
        assert(ws.drop_last() =~= views(words@.subrange(0, i as int)));
        assert(ws.last() == words@[i as int]@);
        if i > 0 {
            r.append(" ");
        }
        r.append("\"");
        r.append(words[i].as_str());
        r.append("\"");
        proof {
            reveal_strlit(" ");
            reveal_strlit("\"");
        }
        i = i + 1;
        assert(r@ =~= quoted_join(ws));
    }
    assert(words@.subrange(0, i as int) =~= words@);
    r
}

/// The argument vector that runs the command `words` through `bash -c`, so
/// that quoting and expansion behave as in a shell.
pub fn shell_invocation(words: &Vec<String>) -> (r: Vec<String>)
    ensures
        views(r@) == shell_argv(views(words@)),
{
    let r = vec![String::from_str("bash"), String::from_str("-c"), shell_command(words)];
    assert(views(r@) =~= shell_argv(views(words@)));
    r
}

/// The exit status and the combined output of one finished command.
#[derive(Clone, Debug)]
pub struct ExecutionResult {
    pub exit_code: u64,
    pub output: String,
}

/// What the daemon reported once a command's output stream had ended.
#[derive(Clone, Debug)]
pub struct ExecStatus {
    pub running: bool,
    pub exit_code: Option<u64>,
    pub output: String,
}

/// Why a reported status cannot be the status of a finished command.
#[derive(Clone, Copy, Debug, PartialEq, Eq)]
pub enum ExecFault {
    /// The process still ran after its output stream had ended.
    StillRunning,
    /// The process had ended but no exit code was reported.
    NoExitCode,
}

/// Judges the status reported after the output stream ended: a process
/// that still runs, or that has no exit code, breaks the channel's protocol.
pub fn finished(status: ExecStatus) -> (r: Result<ExecutionResult, ExecFault>)
    ensures
        status.running ==> r == Err::<ExecutionResult, ExecFault>(ExecFault::StillRunning),
        !status.running && status.exit_code is None ==> r == Err::<ExecutionResult, ExecFault>(
            ExecFault::NoExitCode,
        ),
        !status.running && status.exit_code is Some ==> (r matches Ok(e) && Some(e.exit_code)
            == status.exit_code && e.output@ == status.output@),
{
    if status.running {
        Err(ExecFault::StillRunning)
    } else {
        match status.exit_code {
            Some(code) => Ok(ExecutionResult { exit_code: code, output: status.output }),
            None => Err(ExecFault::NoExitCode),
        }
    }
}

/// Collects the chunks of a command's output stream, in arrival order.
pub struct ExecCapture {
    bytes: Vec<u8>,
}

impl View for ExecCapture {
    type V = Seq<u8>;

    closed spec fn view(&self) -> Seq<u8> {
        self.bytes@
    }
}

impl ExecCapture {
    /// A capture that holds nothing yet.
    pub fn new() -> (r: ExecCapture)
        ensures
            r@ == Seq::<u8>::empty(),
    {
        ExecCapture { bytes: Vec::new() }
    }

    /// Appends one chunk, keeping its bytes in order.
    pub fn push_chunk(&mut self, chunk: &[u8])
        ensures
            final(self)@ == old(self)@ + chunk@,
    {
        let mut i: usize = 0;
        while i < chunk.len()
            invariant
                i <= chunk@.len(),
                self@ == old(self)@ + chunk@.subrange(0, i as int),
            decreases chunk@.len() - i,
        {
            self.bytes.push(chunk[i]);
            i = i + 1;
            assert(self@ =~= old(self)@ + chunk@.subrange(0, i as int));
        }
        assert(chunk@.subrange(0, i as int) =~= chunk@);
    }

    /// The collected output as text, with invalid UTF-8 replaced.
    pub fn text(&self) -> (r: String)
        ensures
            r@ == utf8_lossy(self@),
            all_ascii(self@) ==> r@ == ascii_text(self@),
    {
        decode_lossy(self.bytes.as_slice())
    }

    /// The status of the finished command, with the collected output.
    pub fn finish(&self, running: bool, exit_code: Option<u64>) -> (r: Result<
        ExecutionResult,
        ExecFault,
    >)
        ensures
            running ==> r == Err::<ExecutionResult, ExecFault>(ExecFault::StillRunning),
            !running && exit_code is None ==> r == Err::<ExecutionResult, ExecFault>(
                ExecFault::NoExitCode,
            ),
            !running && exit_code is Some ==> (r matches Ok(e) && Some(e.exit_code) == exit_code
                && e.output@ == utf8_lossy(self@)),
    {
        finished(ExecStatus { running, exit_code, output: self.text() })
    }
}

} // verus!
