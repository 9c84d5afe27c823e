use vstd::prelude::*;

use base64::Engine;

use vstd::utf8::{decode_utf8, valid_utf8};

use crate::model::computing_result::ComputingResult;

verus! {

/// The file a Java task's code is written to.
pub const MAIN_JAVA_FILE_NAME: &'static str = "Main.java";
/// The class file that compiling a Java task produces.
pub const MAIN_CLASS_FILE_NAME: &'static str = "Main.class";
/// The class a Java task runs.
pub const MAIN_CLASS_NAME: &'static str = "Main";
const JAVA_COMMAND: &'static str = "java";
const JAVAC_COMMAND: &'static str = "javac";
const CLASSPATH_ARGUMENT: &'static str = "-cp";
const DIRECTORY_ARGUMENT: &'static str = "-d";
const SHELL_COMMAND: &'static str = "sh";
const INLINE_SCRIPT_ARGUMENT: &'static str = "-c";

/// What a finished child process left behind: whether it exited successfully,
/// and the raw bytes of its standard output and standard error.
pub struct ProcessOutput {
    pub success: bool,
    pub stdout: Vec<u8>,
    pub stderr: Vec<u8>,
}

/// A program to start and the arguments to start it with.
pub struct CommandLine {
    pub program: String,
    pub args: Vec<String>,
}

/// Why the output of a process could not become a result.
#[derive(Clone, Copy, Debug, PartialEq, Eq, Structural)]
pub enum OutputError {
    /// The standard output is not valid UTF-8.
    StdoutNotUtf8,
    /// The standard error is not valid UTF-8.
    StderrNotUtf8,
}

/// How the compilation step of a Java task ends.
pub enum JavacVerdict {
    /// The task ends here, with this result (none when nothing usable came out).
    Done(Option<ComputingResult>),
    /// The class compiled: run it.
    RunProgram,
}

/// Decodes `bytes` as UTF-8 with `String::from_utf8`, which succeeds exactly
/// when the bytes are well-formed UTF-8 and then holds the characters they
/// encode (here in the terms of `vstd::utf8`).
#[verifier::external_body]
fn utf8_to_string(bytes: Vec<u8>) -> (text: Option<String>)
    ensures
        text is Some <==> valid_utf8(bytes@),
        text matches Some(s) ==> s@ == decode_utf8(bytes@),
{
    String::from_utf8(bytes).ok()
}

/// The character of the six-bit value `v` in the standard Base64 alphabet
/// (RFC 4648): `A`-`Z`, `a`-`z`, `0`-`9`, `+`, `/`.
pub open spec fn base64_char(v: int) -> char {
    if v < 26 {
        (65 + v) as char
    } else if v < 52 {
        (97 + (v - 26)) as char
    } else if v < 62 {
        (48 + (v - 52)) as char
    } else if v == 62 {
        '+'
    } else {
        '/'
    }
}

/// The standard Base64 encoding of `bytes` (RFC 4648, with `=` padding):
/// every group of three bytes becomes four characters of six bits each, most
/// significant bits first; a last group of one or two bytes is filled up with
/// zero bits and padded with `=` to four characters.
pub open spec fn base64_standard(bytes: Seq<u8>) -> Seq<char>
    decreases bytes.len(),
{
    if bytes.len() == 0 {
        seq![]
    } else if bytes.len() == 1 {
        let b0 = bytes[0] as int;
        seq![base64_char(b0 / 4), base64_char((b0 % 4) * 16), '=', '=']
    } else if bytes.len() == 2 {
        let b0 = bytes[0] as int;
        let b1 = bytes[1] as int;
        seq![base64_char(b0 / 4), base64_char((b0 % 4) * 16 + b1 / 16), base64_char((b1 % 16) * 4), '=']
    } else {
        let b0 = bytes[0] as int;
        let b1 = bytes[1] as int;
        let b2 = bytes[2] as int;
        seq![
            base64_char(b0 / 4),
            base64_char((b0 % 4) * 16 + b1 / 16),
            base64_char((b1 % 16) * 4 + b2 / 64),
            base64_char(b2 % 64),
        ] + base64_standard(bytes.subrange(3, bytes.len() as int))
    }
}

/// The length of the padded Base64 encoding of `n` bytes: four characters for
/// every started group of three bytes.
pub open spec fn base64_encoded_len(n: int) -> int {
    4 * ((n + 2) / 3)
}

/// The six-bit value that the Base64 character `c` stands for: its position
/// in `A`-`Z`, `a`-`z`, `0`-`9`, `+`, `/`; -1 for any other character.
pub open spec fn base64_digit_value(c: char) -> int {
    let x = c as int;
    if 65 <= x <= 90 {
        x - 65
    } else if 97 <= x <= 122 {
        x - 71
    } else if 48 <= x <= 57 {
        x + 4
    } else if x == 43 {
        62
    } else if x == 47 {
        63
    } else {
        -1
    }
}

/// Each six-bit value has its own Base64 character, which reads back as it.
pub proof fn lemma_base64_char_reads_back(v: int)
    requires
        0 <= v < 64,
    ensures
        base64_digit_value(base64_char(v)) == v,
{
}

/// The Base64 text of a whole number of three-byte groups followed by more
/// bytes is the text of the groups followed by the text of the rest.
pub proof fn law_base64_concatenates_groups(a: Seq<u8>, b: Seq<u8>)
    requires
        a.len() % 3 == 0,
    ensures
        base64_standard(a + b) == base64_standard(a) + base64_standard(b),
    decreases a.len(),
{
    if a.len() > 0 {
        assert((a + b).subrange(3, (a + b).len() as int) =~= a.subrange(3, a.len() as int) + b);
        law_base64_concatenates_groups(a.subrange(3, a.len() as int), b);
        assert((a + b)[0] == a[0] && (a + b)[1] == a[1] && (a + b)[2] == a[2]);
        assert(base64_standard(a + b) =~= base64_standard(a) + base64_standard(b));
    } else {
        assert(a + b =~= b);
        assert(base64_standard(a) =~= Seq::<char>::empty());
        assert(base64_standard(a) + base64_standard(b) =~= base64_standard(b));
    }
}

/// Four Base64 characters carry the 24 bits of three bytes, most significant
/// first: reading the characters of a group as six-bit digits gives back the
/// three bytes as one 24-bit number.
pub proof fn law_base64_group_reads_back(b0: u8, b1: u8, b2: u8)
    ensures
        ({
            let t = base64_standard(seq![b0, b1, b2]);
            &&& t.len() == 4
            &&& base64_digit_value(t[0]) * 262144 + base64_digit_value(t[1]) * 4096 + base64_digit_value(t[2])
                * 64 + base64_digit_value(t[3]) == (b0 as int) * 65536 + (b1 as int) * 256 + (b2 as int)
        }),
{
    let bytes = seq![b0, b1, b2];
    assert(bytes.subrange(3, 3) =~= Seq::<u8>::empty());
    let x0 = b0 as int;
    let x1 = b1 as int;
    let x2 = b2 as int;
    lemma_base64_char_reads_back(x0 / 4);
    lemma_base64_char_reads_back((x0 % 4) * 16 + x1 / 16);
    lemma_base64_char_reads_back((x1 % 16) * 4 + x2 / 64);
    lemma_base64_char_reads_back(x2 % 64);
    let t = base64_standard(bytes);
    let head = seq![
        base64_char(x0 / 4),
        base64_char((x0 % 4) * 16 + x1 / 16),
        base64_char((x1 % 16) * 4 + x2 / 64),
        base64_char(x2 % 64),
    ];
    assert(bytes.len() == 3 && bytes[0] == b0 && bytes[1] == b1 && bytes[2] == b2);
    assert(base64_standard(bytes.subrange(3, 3)) =~= Seq::<char>::empty());
    assert(t == head + base64_standard(bytes.subrange(3, 3)));
    assert(t =~= head);
    assert((x0 / 4) * 262144 + ((x0 % 4) * 16 + x1 / 16) * 4096 + ((x1 % 16) * 4 + x2 / 64) * 64 + x2
        % 64 == x0 * 65536 + x1 * 256 + x2) by (nonlinear_arith)
        requires
            0 <= x0 < 256,
            0 <= x1 < 256,
            0 <= x2 < 256,
    {
        assert(x0 == (x0 / 4) * 4 + x0 % 4);
        assert(x1 == (x1 / 16) * 16 + x1 % 16);
        assert(x2 == (x2 / 64) * 64 + x2 % 64);
    }
}

/// The Base64 text of `n` bytes has four characters per started group of
/// three; it is made of alphabet characters followed by the padding `=`,
/// which appears only at the end: once when `n % 3 == 2`, twice when
/// `n % 3 == 1`, never otherwise.
pub proof fn law_base64_shape(bytes: Seq<u8>)
    ensures
        base64_standard(bytes).len() == base64_encoded_len(bytes.len() as int),
        ({
            let t = base64_standard(bytes);
            let pad = if bytes.len() % 3 == 0 {
                0int
            } else {
                3 - bytes.len() % 3
            };
            &&& forall|i: int| 0 <= i < t.len() - pad ==> 0 <= base64_digit_value(#[trigger] t[i]) < 64
            &&& forall|i: int| t.len() - pad <= i < t.len() ==> #[trigger] t[i] == '='
        }),
    decreases bytes.len(),
{
    let n = bytes.len();
    if n == 0 {
    } else if n == 1 {
        lemma_base64_char_reads_back((bytes[0] as int) / 4);
        lemma_base64_char_reads_back(((bytes[0] as int) % 4) * 16);
    } else if n == 2 {
        lemma_base64_char_reads_back((bytes[0] as int) / 4);
        lemma_base64_char_reads_back(((bytes[0] as int) % 4) * 16 + (bytes[1] as int) / 16);
        lemma_base64_char_reads_back(((bytes[1] as int) % 16) * 4);
    } else {
        let rest = bytes.subrange(3, n as int);
        law_base64_shape(rest);
        let x0 = bytes[0] as int;
        let x1 = bytes[1] as int;
        let x2 = bytes[2] as int;
        lemma_base64_char_reads_back(x0 / 4);
        lemma_base64_char_reads_back((x0 % 4) * 16 + x1 / 16);
        lemma_base64_char_reads_back((x1 % 16) * 4 + x2 / 64);
        lemma_base64_char_reads_back(x2 % 64);
        let head = seq![
            base64_char(x0 / 4),
            base64_char((x0 % 4) * 16 + x1 / 16),
            base64_char((x1 % 16) * 4 + x2 / 64),
            base64_char(x2 % 64),
        ];
        let t = base64_standard(bytes);
        let tr = base64_standard(rest);
        assert(t == head + tr);
        assert(rest.len() % 3 == n % 3);
        assert forall|i: int| 0 <= i < t.len() implies (i < 4 ==> #[trigger] t[i] == head[i]) && (i >= 4
            ==> t[i] == tr[i - 4]) by {}
    }
}

/// Encodes `bytes` with `base64::engine::general_purpose::STANDARD.encode`,
/// the standard alphabet with padding, which gives `base64_standard(bytes)`.
/// `encode` panics when the encoded length (`encoded_len` with padding) does
/// not fit in a `usize`, so such inputs are left out.
#[verifier::external_body]
fn base64_encode(bytes: &[u8]) -> (text: String)
    requires
        base64_encoded_len(bytes@.len() as int) <= usize::MAX,
    ensures
        text@ == base64_standard(bytes@),
{
    base64::engine::general_purpose::STANDARD.encode(bytes)
}

/// Turns the output of a process into a result: the two streams are decoded
/// as UTF-8, standard output first, and stored with the elapsed time and the
/// optional bytecode.
pub fn generate_output(output: ProcessOutput, elapsed_time_in_millis: u128, bytecode: Option<String>) -> (result: Result<ComputingResult, OutputError>)
    ensures
        !valid_utf8(output.stdout@) ==> result == Err::<ComputingResult, OutputError>(OutputError::StdoutNotUtf8),
        valid_utf8(output.stdout@) && !valid_utf8(output.stderr@) ==> result == Err::<ComputingResult, OutputError>(
            OutputError::StderrNotUtf8,
        ),
        valid_utf8(output.stdout@) && valid_utf8(output.stderr@) ==> (result matches Ok(r) && r.stdout@
            == decode_utf8(output.stdout@) && r.stderr@ == decode_utf8(output.stderr@) && r.duration
            == elapsed_time_in_millis && r.bytecode == bytecode),
{
    let stdout = match utf8_to_string(output.stdout) {
        Some(text) => text,
        None => {
            return Err(OutputError::StdoutNotUtf8);
        },
    };
    let stderr = match utf8_to_string(output.stderr) {
        Some(text) => text,
        None => {
            return Err(OutputError::StderrNotUtf8);
        },
    };
    Ok(ComputingResult::new(stdout, stderr, elapsed_time_in_millis, bytecode))
}

/// The result of a shell task from its process: none when the shell could not
/// be started (`None`) or its output is not UTF-8.
pub fn shell_outcome(output: Option<ProcessOutput>, elapsed_time_in_millis: u128) -> (result: Option<ComputingResult>)
    ensures
        match output {
            None => result is None,
            Some(o) => {
                &&& result is Some <==> (valid_utf8(o.stdout@) && valid_utf8(o.stderr@))
                &&& result matches Some(r) ==> r.stdout@ == decode_utf8(o.stdout@) && r.stderr@
                    == decode_utf8(o.stderr@) && r.duration == elapsed_time_in_millis && r.bytecode is None
            },
        },
{
    match output {
        None => None,
        Some(o) => match generate_output(o, elapsed_time_in_millis, None) {
            Ok(r) => Some(r),
            Err(_) => None,
        },
    }
}

/// What follows the compiler run of a Java task (`None` when the compiler
/// could not be started): a compiler that could not start ends the task with
/// no result; a failed compilation ends it with the compiler's own output as
/// the result; a successful one goes on to run the class.
pub fn javac_outcome(javac: Option<ProcessOutput>, elapsed_time_in_millis: u128) -> (verdict: JavacVerdict)
    ensures
        match javac {
            None => verdict == JavacVerdict::Done(None),
            Some(o) => if o.success {
                verdict is RunProgram
            } else {
                &&& verdict matches JavacVerdict::Done(result)
                &&& (result is Some <==> (valid_utf8(o.stdout@) && valid_utf8(o.stderr@)))
                &&& result matches Some(r) ==> r.stdout@ == decode_utf8(o.stdout@) && r.stderr@
                    == decode_utf8(o.stderr@) && r.duration == elapsed_time_in_millis && r.bytecode is None
            },
        },
{
    match javac {
        None => JavacVerdict::Done(None),
        Some(o) => {
            if o.success {
                JavacVerdict::RunProgram
            } else {
                match generate_output(o, elapsed_time_in_millis, None) {
                    Ok(r) => JavacVerdict::Done(Some(r)),
                    Err(_) => JavacVerdict::Done(None),
                }
            }
        },
    }
}

/// The result of running a compiled Java class (`None` when the JVM could
/// not be started), with the bytes of the class file when it could be read:
/// those are attached in Base64.
pub fn java_run_outcome(run: Option<ProcessOutput>, class_file: Option<Vec<u8>>, elapsed_time_in_millis: u128) -> (result: Option<ComputingResult>)
    requires
        class_file matches Some(bytes) ==> base64_encoded_len(bytes@.len() as int) <= usize::MAX,
    ensures
        match run {
            None => result is None,
            Some(o) => {
                &&& result is Some <==> (valid_utf8(o.stdout@) && valid_utf8(o.stderr@))
                &&& result matches Some(r) ==> {
                    &&& r.stdout@ == decode_utf8(o.stdout@)
                    &&& r.stderr@ == decode_utf8(o.stderr@)
                    &&& r.duration == elapsed_time_in_millis
                    &&& match class_file {
                        None => r.bytecode is None,
                        Some(bytes) => (r.bytecode matches Some(b) && b@ == base64_standard(bytes@)),
                    }
                }
            },
        },
{
    match run {
        None => None,
        Some(o) => {
            let bytecode = match class_file {
                Some(bytes) => Some(base64_encode(bytes.as_slice())),
                None => None,
            };
            match generate_output(o, elapsed_time_in_millis, bytecode) {
                Ok(r) => Some(r),
                Err(_) => None,
            }
        },
    }
}

/// The command that runs a shell task: `sh -c <code>`.
pub fn shell_command(code: &str) -> (command: CommandLine)
    ensures
        command.program@ == "sh"@,
        command.args@.len() == 2,
        command.args@[0]@ == "-c"@,
        command.args@[1]@ == code@,
{
    let mut args: Vec<String> = Vec::new();
    args.push(INLINE_SCRIPT_ARGUMENT.to_owned());
    args.push(code.to_owned());
    CommandLine { program: SHELL_COMMAND.to_owned(), args }
}

/// The command that compiles the source file of a Java task into
/// `directory`: `javac -d <directory> <source_file>`.
pub fn javac_command(directory: &str, source_file: &str) -> (command: CommandLine)
    ensures
        command.program@ == "javac"@,
        command.args@.len() == 3,
        command.args@[0]@ == "-d"@,
        command.args@[1]@ == directory@,
        command.args@[2]@ == source_file@,
{
    let mut args: Vec<String> = Vec::new();
    args.push(DIRECTORY_ARGUMENT.to_owned());
    args.push(directory.to_owned());
    args.push(source_file.to_owned());
    CommandLine { program: JAVAC_COMMAND.to_owned(), args }
}

/// The command that runs the compiled class of a Java task from
/// `directory`: `java -cp <directory> Main`.
pub fn java_command(directory: &str) -> (command: CommandLine)
    ensures
        command.program@ == "java"@,
        command.args@.len() == 3,
        command.args@[0]@ == "-cp"@,
        command.args@[1]@ == directory@,
        command.args@[2]@ == "Main"@,
{
    let mut args: Vec<String> = Vec::new();
    args.push(CLASSPATH_ARGUMENT.to_owned());
    args.push(directory.to_owned());
    args.push(MAIN_CLASS_NAME.to_owned());
    CommandLine { program: JAVA_COMMAND.to_owned(), args }
}

} // verus!
