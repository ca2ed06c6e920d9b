//! The decisions the file and command executors take around the operating
//! system: validation before any touch, size limits, argument splitting, and
//! the result of a finished, failed or timed-out command.

use vstd::prelude::*;
use std::sync::Arc;
use crate::text::{
    split_words, words, view_strings, to_chars, from_chars, sub_chars, chars_eq,
};
use crate::path::{normalize, normalize_path};
use crate::validator::{Denial, SecurityValidator, expand_home, expansion_of, home_expandable};

verus! {

/// Why a file or command operation failed.
#[derive(Clone, Copy, Debug, PartialEq, Eq, Structural)]
pub enum ToolError {
    /// The policy denied the path or the command.
    Denied(Denial),
    /// The path does not exist.
    NotFound,
    /// The path exists but is not a directory.
    NotADirectory,
    /// The file's metadata could not be read.
    MetadataError,
    /// The file or the content is larger than the policy allows.
    SizeExceeded { size: u64, max: u64 },
    /// The command did not finish within its timeout and was killed.
    ExecutionTimeout,
    /// The command did not finish within its timeout and could not be
    /// confirmed killed.
    OrphanRisk,
    /// The command could not be started.
    SpawnFailed,
    /// The operating system refused a read or a write.
    Io,
}

/// A denial as an operation error.
pub open spec fn denied(d: Result<(), Denial>) -> Result<(), ToolError> {
    match d {
        Ok(()) => Ok(()),
        Err(e) => Err(ToolError::Denied(e)),
    }
}

fn lift(d: Result<(), Denial>) -> (r: Result<(), ToolError>)
    ensures
        r == denied(d),
{
    match d {
        Ok(()) => Ok(()),
        Err(e) => Err(ToolError::Denied(e)),
    }
}

/// The view of a checked path: the path itself, or the error.
pub open spec fn resolved(r: Result<String, ToolError>) -> Result<Seq<char>, ToolError> {
    match r {
        Ok(p) => Ok(p@),
        Err(e) => Err(e),
    }
}

/// What a stat of a path reports.
#[derive(Clone, Copy, Debug, PartialEq, Eq, Structural)]
pub struct FileInfo {
    pub size_bytes: u64,
    pub is_directory: bool,
    pub is_file: bool,
    pub readonly: bool,
}

/// File operations under the policy; the filesystem calls themselves are made
/// by the caller between these checks.
pub struct FileExecutor {
    validator: Arc<SecurityValidator>,
}

impl FileExecutor {
    /// The validator the executor consults.
    pub closed spec fn validator_view(&self) -> SecurityValidator {
        *self.validator
    }

    pub fn new(validator: Arc<SecurityValidator>) -> (r: Self)
        ensures
            r.validator_view() == *validator,
    {
        FileExecutor { validator }
    }

    pub fn validator(&self) -> (r: &SecurityValidator)
        ensures
            *r == self.validator_view(),
    {
        &self.validator
    }

    /// What the read check answers on the expanded path `e`: the canonical
    /// path to open where the policy allows reading it.
    pub open spec fn read_check(&self, e: Seq<char>) -> Result<Seq<char>, ToolError> {
        match self.validator_view().access_decision(e, self.validator_view().read_extensions()) {
            Ok(()) => Ok(normalize(e)),
            Err(d) => Err(ToolError::Denied(d)),
        }
    }

    /// The check before a read, a listing, an existence test or a stat: the
    /// path must be allowed for reading. Gives the expanded, canonical path
    /// that was validated, which is the one to open.
    pub fn check_read(&self, path: &str) -> (r: Result<String, ToolError>)
        ensures
            exists|e: Seq<char>| expansion_of(path@, e) && resolved(r) == self.read_check(e),
            !home_expandable(path@) ==> resolved(r) == self.read_check(path@),
    {
        let e = expand_home(path);
        let v: &SecurityValidator = &self.validator;
        let r = match v.validate_file_access(
            e.as_str(),
            &v.config().file_operations.allowed_extensions.read,
        ) {
            Ok(()) => Ok(normalize_path(e.as_str())),
            Err(d) => Err(ToolError::Denied(d)),
        };
        assert(resolved(r) == self.read_check(e@));
        r
    }

    /// The check after an allowed path's metadata was read and before its
    /// content is: it must exist and be no larger than the limit.
    pub fn check_read_target(&self, exists: bool, size: u64) -> (r: Result<(), ToolError>)
        ensures
            !exists ==> r == Err::<(), ToolError>(ToolError::NotFound),
            exists && size > self.validator_view().max_file_size_spec() ==> r == Err::<
                (),
                ToolError,
            >(ToolError::SizeExceeded { size, max: self.validator_view().max_file_size_spec() }),
            exists && size <= self.validator_view().max_file_size_spec() ==> r is Ok,
    {
        if !exists {
            return Err(ToolError::NotFound);
        }
        let max = self.validator.get_max_file_size();
        if size > max {
            Err(ToolError::SizeExceeded { size, max })
        } else {
            Ok(())
        }
    }

    /// What the write check answers on the expanded path `e`: the path
    /// decision first, then the size limit; the canonical path to write where
    /// both pass.
    pub open spec fn write_check(&self, e: Seq<char>, content_len: usize) -> Result<
        Seq<char>,
        ToolError,
    > {
        match self.validator_view().access_decision(e, self.validator_view().write_extensions()) {
            Err(d) => Err(ToolError::Denied(d)),
            Ok(()) => if content_len > self.validator_view().max_file_size_spec() {
                Err(
                    ToolError::SizeExceeded {
                        size: content_len as u64,
                        max: self.validator_view().max_file_size_spec(),
                    },
                )
            } else {
                Ok(normalize(e))
            },
        }
    }

    /// The check before a write of `content_len` bytes: the path must be
    /// allowed for writing, then the content no larger than the limit. Gives
    /// the expanded, canonical path that was validated, which is the one to
    /// write.
    pub fn check_write(&self, path: &str, content_len: usize) -> (r: Result<String, ToolError>)
        ensures
            exists|e: Seq<char>| expansion_of(path@, e) && resolved(r) == self.write_check(
                e,
                content_len,
            ),
            !home_expandable(path@) ==> resolved(r) == self.write_check(path@, content_len),
    {
        let e = expand_home(path);
        let v: &SecurityValidator = &self.validator;
        match v.validate_file_access(e.as_str(), &v.config().file_operations.allowed_extensions.write) {
            Err(d) => Err(ToolError::Denied(d)),
            Ok(()) => {
                let max = v.get_max_file_size();
                if content_len as u64 > max {
                    Err(ToolError::SizeExceeded { size: content_len as u64, max })
                } else {
                    Ok(normalize_path(e.as_str()))
                }
            },
        }
    }

    /// The check once the operating system has resolved the validated path
    /// `validated` (symbolic links included) to `os_path`: where it resolves to
    /// itself it stands, else `os_path` must be allowed for reading in turn.
    /// Gives the path to open.
    pub fn check_resolved_read(&self, validated: &str, os_path: &str) -> (r: Result<
        String,
        ToolError,
    >)
        ensures
            os_path@ == validated@ ==> resolved(r) == Ok::<Seq<char>, ToolError>(validated@),
            os_path@ != validated@ ==> exists|e: Seq<char>|
                expansion_of(os_path@, e) && resolved(r) == self.read_check(e),
            os_path@ != validated@ && !home_expandable(os_path@) ==> resolved(r) == self.read_check(
                os_path@,
            ),
    {
        if chars_eq(&to_chars(validated), &to_chars(os_path)) {
            Ok(from_chars(&to_chars(validated)))
        } else {
            self.check_read(os_path)
        }
    }

    /// The check once the operating system has resolved the validated path
    /// `validated` of a write to `os_path`: where it resolves to itself it stands,
    /// else `os_path` must pass the write check in turn. Gives the path to write.
    pub fn check_resolved_write(&self, validated: &str, os_path: &str, content_len: usize) -> (r:
        Result<String, ToolError>)
        ensures
            os_path@ == validated@ ==> resolved(r) == Ok::<Seq<char>, ToolError>(validated@),
            os_path@ != validated@ ==> exists|e: Seq<char>|
                expansion_of(os_path@, e) && resolved(r) == self.write_check(e, content_len),
            os_path@ != validated@ && !home_expandable(os_path@) ==> resolved(r) == self.write_check(
                os_path@,
                content_len,
            ),
    {
        if chars_eq(&to_chars(validated), &to_chars(os_path)) {
            Ok(from_chars(&to_chars(validated)))
        } else {
            self.check_write(os_path, content_len)
        }
    }

    /// The check after an allowed path's metadata was read for a listing: it
    /// must exist and be a directory.
    pub fn check_list_target(&self, exists: bool, is_directory: bool) -> (r: Result<
        (),
        ToolError,
    >)
        ensures
            !exists ==> r == Err::<(), ToolError>(ToolError::NotFound),
            exists && !is_directory ==> r == Err::<(), ToolError>(ToolError::NotADirectory),
            exists && is_directory ==> r is Ok,
    {
        if !exists {
            Err(ToolError::NotFound)
        } else if !is_directory {
            Err(ToolError::NotADirectory)
        } else {
            Ok(())
        }
    }
}

/// What `String::from_utf8_lossy` makes of a byte sequence.
pub uninterp spec fn utf8_lossy(b: Seq<u8>) -> Seq<char>;

/// Relies on `String::from_utf8_lossy`: the text of the bytes, with each
/// invalid sequence replaced; it depends on the bytes alone, and no bytes give
/// no text.
#[verifier::external_body]
fn decode_lossy(b: &[u8]) -> (r: String)
    ensures
        r@ == utf8_lossy(b@),
        b@.len() == 0 ==> r@.len() == 0,
{
    String::from_utf8_lossy(b).into_owned()
}

/// The captured output of a command, after the output limit: each stream
/// takes at most `max_output_bytes` bytes.
#[derive(Clone, Debug)]
pub struct CommandResult {
    pub stdout: String,
    pub stderr: String,
    pub exit_code: i32,
    pub success: bool,
    /// Standard output or standard error was cut at the limit.
    pub truncated: bool,
}

/// How a spawned command ended, as the process runner saw it.
#[derive(Clone, Debug)]
pub enum RunOutcome {
    /// The process exited; `code` is absent when a signal ended it.
    Exited { stdout: Vec<u8>, stderr: Vec<u8>, code: Option<i32>, success: bool },
    /// The timeout passed first; `killed` tells whether the process was
    /// confirmed terminated.
    TimedOut { killed: bool },
    /// The process could not be started.
    SpawnFailed,
}

/// The first `limit` bytes of `b`, or all of them.
pub open spec fn bounded(b: Seq<u8>, limit: usize) -> Seq<u8> {
    if b.len() > limit {
        b.take(limit as int)
    } else {
        b
    }
}

/// Keeps at most `limit` bytes, and tells whether any were cut.
pub fn truncate_output(b: &Vec<u8>, limit: usize) -> (r: (Vec<u8>, bool))
    ensures
        r.0@ == bounded(b@, limit),
        r.1 == (b@.len() > limit),
{
    let n = if b.len() > limit {
        limit
    } else {
        b.len()
    };
    let mut out: Vec<u8> = Vec::new();
    let mut i: usize = 0;
    while i < n
        invariant
            n <= b@.len(),
            n == (if b@.len() > limit { limit as int } else { b@.len() as int }),
            i <= n,
            out@ == b@.take(i as int),
        decreases n - i,
    {
        out.push(b[i]);
        i = i + 1;
        assert(out@ =~= b@.take(i as int));
    }
    assert(out@ =~= bounded(b@, limit));
    (out, b.len() > limit)
}

/// The number of bytes that `c` takes in UTF-8.
pub open spec fn utf8_len(c: char) -> nat {
    if '\u{80}' > c {
        1
    } else if '\u{800}' > c {
        2
    } else if '\u{10000}' > c {
        3
    } else {
        4
    }
}

/// The number of bytes that the characters take in UTF-8.
pub open spec fn utf8_size(s: Seq<char>) -> nat
    decreases s.len(),
{
    if s.len() == 0 {
        0
    } else {
        utf8_size(s.drop_last()) + utf8_len(s.last())
    }
}

/// The longest prefix of `s` that takes at most `limit` bytes in UTF-8.
pub open spec fn fit_text(s: Seq<char>, limit: usize) -> Seq<char>
    decreases s.len(),
{
    if utf8_size(s) <= limit || s.len() == 0 {
        s
    } else {
        fit_text(s.drop_last(), limit)
    }
}

/// A prefix takes no more bytes than the whole.
pub proof fn lemma_utf8_size_prefix(s: Seq<char>, j: int)
    requires
        0 <= j <= s.len(),
    ensures
        utf8_size(s.take(j)) <= utf8_size(s),
    decreases s.len(),
{
    if j < s.len() {
        assert(s.drop_last().take(j) =~= s.take(j));
        lemma_utf8_size_prefix(s.drop_last(), j);
    } else {
        assert(s.take(j) =~= s);
    }
}

/// Where the first `k` characters fit and the first `k + 1` do not, the
/// fitting prefix is the first `k`.
proof fn lemma_fit_text_at(s: Seq<char>, k: int, limit: usize)
    requires
        0 <= k <= s.len(),
        utf8_size(s.take(k)) <= limit,
        k < s.len() ==> utf8_size(s.take(k + 1)) > limit,
    ensures
        fit_text(s, limit) == s.take(k),
    decreases s.len(),
{
    if k == s.len() {
        assert(s.take(k) =~= s);
    } else {
        lemma_utf8_size_prefix(s, k + 1);
        let t = s.drop_last();
        assert(t.take(k) =~= s.take(k));
        if k + 1 <= t.len() {
            assert(t.take(k + 1) =~= s.take(k + 1));
        }
        lemma_fit_text_at(t, k, limit);
    }
}

fn char_utf8_len(c: char) -> (r: usize)
    ensures
        r == utf8_len(c),
{
    if '\u{80}' > c {
        1
    } else if '\u{800}' > c {
        2
    } else if '\u{10000}' > c {
        3
    } else {
        4
    }
}

/// Cuts text at a character boundary so that it takes at most `limit` bytes
/// in UTF-8, and tells whether anything was cut.
pub fn cut_text(s: &str, limit: usize) -> (r: (String, bool))
    ensures
        r.0@ == fit_text(s@, limit),
        utf8_size(r.0@) <= limit,
        r.1 == (fit_text(s@, limit) != s@),
{
    let chars = to_chars(s);
    let n = chars.len();
    let mut total: usize = 0;
    let mut k: usize = 0;
    let mut full = false;
    while k < n && !full
        invariant
            n == chars@.len(),
            chars@ == s@,
            k <= n,
            total == utf8_size(s@.take(k as int)),
            total <= limit,
            full ==> k < n && utf8_size(s@.take(k + 1)) > limit,
        decreases n - k + (if full { 0int } else { 1int }),
    {
        let len = char_utf8_len(chars[k]);
        assert(s@.take(k + 1).drop_last() =~= s@.take(k as int));
        if len > limit - total {
            full = true;
        } else {
            total = total + len;
            k = k + 1;
        }
    }
    proof {
        lemma_fit_text_at(s@, k as int, limit);
        if k == n {
            assert(s@.take(k as int) =~= s@);
        } else {
            assert(s@.take(k as int).len() != s@.len());
        }
    }
    let kept = sub_chars(&chars, 0, k);
    assert(kept@ =~= s@.take(k as int));
    (from_chars(&kept), k < n)
}

/// The text kept of a captured stream: the bytes cut at `limit`, decoded,
/// then cut at a character boundary so that it takes at most `limit` bytes.
pub open spec fn captured_text(b: Seq<u8>, limit: usize) -> Seq<char> {
    fit_text(utf8_lossy(bounded(b, limit)), limit)
}

/// Part of a captured stream was dropped.
pub open spec fn captured_cut(b: Seq<u8>, limit: usize) -> bool {
    b.len() > limit || captured_text(b, limit) != utf8_lossy(bounded(b, limit))
}

/// Keeps of a captured stream what the output limit allows, as text.
pub fn capture(b: &Vec<u8>, limit: usize) -> (r: (String, bool))
    ensures
        r.0@ == captured_text(b@, limit),
        utf8_size(r.0@) <= limit,
        r.1 == captured_cut(b@, limit),
{
    let (bytes, cut_bytes) = truncate_output(b, limit);
    let decoded = decode_lossy(bytes.as_slice());
    let (text, cut_chars) = cut_text(decoded.as_str(), limit);
    (text, cut_bytes || cut_chars)
}

/// Command execution under the policy; spawning and waiting are done by the
/// caller between these steps.
pub struct SystemExecutor {
    validator: Arc<SecurityValidator>,
}

impl SystemExecutor {
    /// The validator the executor consults.
    pub closed spec fn validator_view(&self) -> SecurityValidator {
        *self.validator
    }

    /// The output limit of the policy.
    pub open spec fn output_limit(&self) -> usize {
        self.validator_view().config_view().environment.max_output_bytes
    }

    pub fn new(validator: Arc<SecurityValidator>) -> (r: Self)
        ensures
            r.validator_view() == *validator,
    {
        SystemExecutor { validator }
    }

    pub fn validator(&self) -> (r: &SecurityValidator)
        ensures
            *r == self.validator_view(),
    {
        &self.validator
    }

    /// Validates a command line and splits it at whitespace into the program
    /// and its arguments, which go to the process directly, never to a shell.
    pub fn prepare(&self, command: &str) -> (r: Result<(String, Vec<String>), ToolError>)
        ensures
            self.validator_view().command_decision(command@) matches Err(d) ==> r == Err::<
                (String, Vec<String>),
                ToolError,
            >(ToolError::Denied(d)),
            self.validator_view().command_decision(command@) is Ok ==> (r matches Ok(
                (program, args),
            ) && program@ == words(command@)[0] && view_strings(args@) == words(
                command@,
            ).drop_first()),
    {
        match self.validator.validate_command(command) {
            Err(d) => Err(ToolError::Denied(d)),
            Ok(()) => {
                let mut parts = split_words(command);
                let ghost all = parts@;
                let args = parts.split_off(1);
                let program = parts.pop().unwrap();
                assert(view_strings(all)[0] == all[0]@);
                assert(view_strings(args@) =~= view_strings(all).drop_first());
                Ok((program, args))
            },
        }
    }

    /// Turns how the command ended into its result: output cut at the limit,
    /// a missing exit code read as -1, and a timeout reported as such, or as an
    /// orphan risk where the process was not confirmed killed.
    pub fn finish(&self, outcome: RunOutcome) -> (r: Result<CommandResult, ToolError>)
        ensures
            outcome matches RunOutcome::TimedOut { killed } ==> r == Err::<
                CommandResult,
                ToolError,
            >(if killed { ToolError::ExecutionTimeout } else { ToolError::OrphanRisk }),
            outcome is SpawnFailed ==> r == Err::<CommandResult, ToolError>(ToolError::SpawnFailed),
            outcome matches RunOutcome::Exited { stdout, stderr, code, success } ==> (r matches Ok(
                res,
            ) && res.stdout@ == captured_text(stdout@, self.output_limit())
                && res.stderr@ == captured_text(stderr@, self.output_limit())
                && utf8_size(res.stdout@) <= self.output_limit()
                && utf8_size(res.stderr@) <= self.output_limit()
                && res.exit_code == (if let Some(c) = code { c } else { -1i32 })
                && res.success == success && res.truncated == (captured_cut(
                stdout@,
                self.output_limit(),
            ) || captured_cut(stderr@, self.output_limit()))),
    {
        match outcome {
            RunOutcome::TimedOut { killed } => {
                if killed {
                    Err(ToolError::ExecutionTimeout)
                } else {
                    Err(ToolError::OrphanRisk)
                }
            },
            RunOutcome::SpawnFailed => Err(ToolError::SpawnFailed),
            RunOutcome::Exited { stdout, stderr, code, success } => {
                let limit = self.validator.config().environment.max_output_bytes;
                let (out, cut_out) = capture(&stdout, limit);
                let (err, cut_err) = capture(&stderr, limit);
                let exit_code = match code {
                    Some(c) => c,
                    None => -1,
                };
                Ok(
                    CommandResult {
                        stdout: out,
                        stderr: err,
                        exit_code,
                        success,
                        truncated: cut_out || cut_err,
                    },
                )
            },
        }
    }

    /// The timeout of a command in seconds.
    pub fn timeout_seconds(&self) -> (r: u64)
        ensures
            r == self.validator_view().config_view().system_commands.timeout_seconds,
    {
        self.validator.get_command_timeout()
    }
}

/// A write whose content is one byte over the size limit, to a path the
/// policy allows writing, is rejected for its size, so nothing is written.
pub proof fn lemma_oversize_write_rejected(x: FileExecutor, e: Seq<char>, content_len: usize)
    requires
        x.validator_view().access_decision(e, x.validator_view().write_extensions()) is Ok,
        content_len == x.validator_view().max_file_size_spec() + 1,
    ensures
        x.write_check(e, content_len) == Err::<Seq<char>, ToolError>(
            ToolError::SizeExceeded {
                size: content_len as u64,
                max: x.validator_view().max_file_size_spec(),
            },
        ),
{
}

} // verus!
