//! Command blocks: one command with what it printed and how it ended, and
//! the detector that gathers a block while its command runs.

pub mod context;

use vstd::prelude::*;

verus! {

/// One command that ran in the terminal.
#[derive(Debug, PartialEq, Eq)]
pub struct Block {
    pub id: String,
    /// When the command started, in milliseconds since the epoch.
    pub timestamp_ms: i64,
    pub cwd: String,
    pub shell: String,
    pub command: String,
    pub args: Vec<String>,
    pub exit_code: Option<i32>,
    pub duration_ms: Option<u64>,
    pub stdout: String,
    pub stderr: String,
    pub tags: Vec<String>,
}

impl Block {
    /// Whether this is the block of a command that has just started: it
    /// has the given identity and neither arguments nor output nor tags nor
    /// exit code nor duration.
    pub open spec fn is_started(
        self,
        id: String,
        timestamp_ms: i64,
        command: String,
        cwd: String,
        shell: String,
    ) -> bool {
        &&& self.id == id
        &&& self.timestamp_ms == timestamp_ms
        &&& self.cwd == cwd
        &&& self.shell == shell
        &&& self.command == command
        &&& self.args@.len() == 0
        &&& self.exit_code.is_none()
        &&& self.duration_ms.is_none()
        &&& self.stdout@.len() == 0
        &&& self.stderr@.len() == 0
        &&& self.tags@.len() == 0
    }

    /// Whether `other` is this block but for its output.
    pub open spec fn same_but_output(self, other: Block) -> bool {
        &&& other.id == self.id
        &&& other.timestamp_ms == self.timestamp_ms
        &&& other.cwd == self.cwd
        &&& other.shell == self.shell
        &&& other.command == self.command
        &&& other.args == self.args
        &&& other.exit_code == self.exit_code
        &&& other.duration_ms == self.duration_ms
        &&& other.tags == self.tags
    }

    /// Whether `other` is this block with `output` added at the end of its
    /// error output, if `is_stderr`, and of its standard output else.
    pub open spec fn with_more_output(self, other: Block, output: Seq<char>, is_stderr: bool) -> bool {
        &&& self.same_but_output(other)
        &&& other.stdout@ == if is_stderr {
            self.stdout@
        } else {
            self.stdout@ + output
        }
        &&& other.stderr@ == if is_stderr {
            self.stderr@ + output
        } else {
            self.stderr@
        }
    }

    /// A block for the command `command`, started in `cwd` under `shell`.
    /// The identifier and the start time are the caller's to pick.
    pub fn new(id: String, timestamp_ms: i64, command: String, cwd: String, shell: String) -> (block:
        Self)
        ensures
            block.is_started(id, timestamp_ms, command, cwd, shell),
    {
        Block {
            id,
            timestamp_ms,
            cwd,
            shell,
            command,
            args: Vec::new(),
            exit_code: None,
            duration_ms: None,
            stdout: String::new(),
            stderr: String::new(),
            tags: Vec::new(),
        }
    }

    /// The block with this output in place of its own.
    pub fn with_output(self, stdout: String, stderr: String) -> (block: Self)
        ensures
            block == (Block { stdout, stderr, ..self }),
    {
        let mut block = self;
        block.stdout = stdout;
        block.stderr = stderr;
        block
    }

    /// The block with this exit code.
    pub fn with_exit_code(self, exit_code: i32) -> (block: Self)
        ensures
            block == (Block { exit_code: Some(exit_code), ..self }),
    {
        let mut block = self;
        block.exit_code = Some(exit_code);
        block
    }

    /// The block with this duration.
    pub fn with_duration(self, duration_ms: u64) -> (block: Self)
        ensures
            block == (Block { duration_ms: Some(duration_ms), ..self }),
    {
        let mut block = self;
        block.duration_ms = Some(duration_ms);
        block
    }

    /// Whether the command ended with exit code 0.
    pub fn success(&self) -> (ok: bool)
        ensures
            ok == (self.exit_code == Some(0i32)),
    {
        match self.exit_code {
            Some(code) => code == 0,
            None => false,
        }
    }
}

/// `String::push_str`: appends `more` to `text`. The claim is that the
/// text afterwards is the text before followed by `more`.
#[verifier::external_body]
pub(crate) fn append(text: &mut String, more: &str)
    ensures
        final(text)@ == old(text)@ + more@,
{
    text.push_str(more);
}

/// Gathers the block of the command that is running.
pub struct BlockDetector {
    current_block: Option<Block>,
}

impl BlockDetector {
    /// The block that is being gathered, if a command runs.
    pub closed spec fn current(&self) -> Option<Block> {
        self.current_block
    }

    /// A detector with no command running.
    pub fn new() -> (detector: Self)
        ensures
            detector.current().is_none(),
    {
        BlockDetector { current_block: None }
    }

    /// Starts the block of a new command; a block that was being gathered
    /// is dropped.
    pub fn start_command(
        &mut self,
        id: String,
        timestamp_ms: i64,
        command: String,
        cwd: String,
        shell: String,
    )
        ensures
            final(self).current().is_some(),
            final(self).current().unwrap().is_started(id, timestamp_ms, command, cwd, shell),
    {
        self.current_block = Some(Block::new(id, timestamp_ms, command, cwd, shell));
    }

    /// Adds `output` to the running command's error output, if
    /// `is_stderr`, and to its standard output else. Without a running
    /// command nothing happens.
    pub fn add_output(&mut self, output: &str, is_stderr: bool)
        ensures
            old(self).current().is_none() ==> final(self).current().is_none(),
            old(self).current().is_some() ==> final(self).current().is_some() && old(
                self,
            ).current().unwrap().with_more_output(
                final(self).current().unwrap(),
                output@,
                is_stderr,
            ),
    {
        match &mut self.current_block {
            Some(block) => {
                if is_stderr {
                    append(&mut block.stderr, output);
                } else {
                    append(&mut block.stdout, output);
                }
            },
            None => {},
        }
    }

    /// Ends the running command with its exit code and duration and hands
    /// out its block, to be stored; the detector is then idle. Without a
    /// running command there is nothing to hand out.
    pub fn finish_command(&mut self, exit_code: i32, duration_ms: u64) -> (finished: Option<Block>)
        ensures
            final(self).current().is_none(),
            finished == (match old(self).current() {
                Some(block) => Some(
                    Block { exit_code: Some(exit_code), duration_ms: Some(duration_ms), ..block },
                ),
                None => None,
            }),
    {
        match self.current_block.take() {
            Some(block) => Some(block.with_exit_code(exit_code).with_duration(duration_ms)),
            None => None,
        }
    }

    /// The block of the running command.
    pub fn current_block(&self) -> (block: Option<&Block>)
        ensures
            block == (match self.current() {
                Some(b) => Some(&b),
                None => None,
            }),
    {
        self.current_block.as_ref()
    }
}

} // verus!
