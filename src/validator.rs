//! The access validator: allow or deny a path or a command line, with a reason,
//! from the compiled policy alone.

use vstd::prelude::*;
use crate::pattern::{CompiledPattern, glob_regex, regex_accepts};
use crate::path::{normalize, normalize_path};
use crate::policy::{SecurityConfig, BYTES_PER_MB, MAX_FILE_SIZE_MB};
use crate::text::{
    to_chars, from_chars, sub_chars, split_words, words, view_strings, contains_sub, contains_string, has_substring,
};

verus! {

/// Why a path or a command was denied.
#[derive(Clone, Copy, Debug, PartialEq, Eq, Structural)]
pub enum Denial {
    /// The path matches a blocked pattern.
    Blocked,
    /// The path matches no allowed directory, or the executable is not on the
    /// allowlist.
    NotAllowlisted,
    /// The extension is not allowed for the operation.
    ExtensionNotAllowed,
    /// The path has no extension.
    NoExtension,
    /// Commands are switched off.
    CommandsDisabled,
    /// The command line holds no word.
    EmptyCommand,
    /// The command line contains a blocked substring.
    BlockedPattern,
}

/// Why a policy could not be loaded.
#[derive(Clone, Debug)]
pub enum PolicyError {
    /// The glob's translation is refused by the regex engine.
    InvalidPattern { pattern: String },
    /// The file size limit in bytes does not fit in a `u64`.
    FileSizeLimitTooLarge,
}

/// `s` starts with a `~` that home expansion may replace: alone, before `/`,
/// or before `\` (a separator on Windows).
pub open spec fn home_expandable(s: Seq<char>) -> bool {
    s.len() > 0 && s[0] == '~' && (s.len() == 1 || s[1] == '/' || s[1] == '\\')
}

/// What home expansion may turn `s` into: some directory in place of the
/// leading `~` where it may be expanded (`~` itself where it is left), else
/// `s` itself.
pub open spec fn expansion_of(s: Seq<char>, r: Seq<char>) -> bool {
    if home_expandable(s) {
        exists|home: Seq<char>| r == home + s.drop_first()
    } else {
        r == s
    }
}

/// Relies on `shellexpand::tilde`: it replaces a leading `~` that stands alone
/// or before `/` (on Windows also before `\`) by the home directory, or leaves
/// it when there is none, and returns any other input unchanged.
#[verifier::external_body]
pub(crate) fn expand_home(path: &str) -> (r: String)
    ensures
        expansion_of(path@, r@),
{
    shellexpand::tilde(path).into_owned()
}

/// The index of the last `c` in `s`, or -1.
pub open spec fn last_index_of(s: Seq<char>, c: char) -> int
    decreases s.len(),
{
    if s.len() == 0 {
        -1
    } else if s.last() == c {
        s.len() - 1
    } else {
        last_index_of(s.drop_last(), c)
    }
}

/// `last_index_of` is the position of the last `c`, or -1 where there is none.
pub proof fn lemma_last_index_of(s: Seq<char>, c: char)
    ensures
        -1 <= last_index_of(s, c) < s.len(),
        last_index_of(s, c) >= 0 ==> s[last_index_of(s, c)] == c,
        forall|j: int| last_index_of(s, c) < j < s.len() ==> s[j] != c,
    decreases s.len(),
{
    if s.len() > 0 && s.last() != c {
        lemma_last_index_of(s.drop_last(), c);
        assert forall|j: int| last_index_of(s, c) < j < s.len() implies s[j] != c by {
            if j < s.len() - 1 {
                assert(s.drop_last()[j] == s[j]);
            }
        }
    }
}

/// The position of the last `c` in `s`.
fn find_last(s: &Vec<char>, c: char) -> (r: Option<usize>)
    ensures
        r is None <==> last_index_of(s@, c) == -1,
        r matches Some(k) ==> k == last_index_of(s@, c) && k < s@.len(),
{
    proof {
        lemma_last_index_of(s@, c);
    }
    let mut i: usize = s.len();
    while i > 0
        invariant
            i <= s@.len(),
            forall|j: int| i <= j < s@.len() ==> s@[j] != c,
        decreases i,
    {
        if s[i - 1] == c {
            proof {
                lemma_last_index_of(s@, c);
            }
            return Some(i - 1);
        }
        i = i - 1;
    }
    None
}

/// The last component of a path: what follows its last `/`.
pub open spec fn file_name(p: Seq<char>) -> Seq<char> {
    p.subrange(last_index_of(p, '/') + 1, p.len() as int)
}

/// The extension of a path, without its dot: what follows the last `.` of the
/// file name, where that dot is not the name's first character and the name is
/// not `..`.
pub open spec fn extension(p: Seq<char>) -> Option<Seq<char>> {
    let name = file_name(p);
    let d = last_index_of(name, '.');
    if d <= 0 || name == seq!['.', '.'] {
        None
    } else {
        Some(name.subrange(d + 1, name.len() as int))
    }
}

/// The extension with its leading dot, as the policy lists extensions.
pub open spec fn dotted(e: Seq<char>) -> Seq<char> {
    seq!['.'] + e
}

/// The decision on a canonical path `p`, given whether a blocked pattern and
/// whether an allowed-directory pattern match it: blocked first, then allowed
/// directories, then the extension.
pub open spec fn decide(blocked: bool, allowed: bool, p: Seq<char>, exts: Seq<Seq<char>>) -> Result<
    (),
    Denial,
> {
    if blocked {
        Err(Denial::Blocked)
    } else if !allowed {
        Err(Denial::NotAllowlisted)
    } else {
        match extension(p) {
            None => Err(Denial::NoExtension),
            Some(e) => if exts.contains(dotted(e)) {
                Ok(())
            } else {
                Err(Denial::ExtensionNotAllowed)
            },
        }
    }
}

/// Some pattern of `pats` matches `p`.
pub open spec fn any_matches(pats: Seq<CompiledPattern>, p: Seq<char>) -> bool {
    exists|i: int| 0 <= i < pats.len() && #[trigger] pats[i].matches_spec(p)
}

/// Some string of `subs` occurs in `c`.
pub open spec fn any_occurs(subs: Seq<Seq<char>>, c: Seq<char>) -> bool {
    exists|i: int| 0 <= i < subs.len() && contains_sub(c, #[trigger] subs[i])
}

/// The validator: the policy with its patterns compiled. Nothing changes it
/// after construction.
pub struct SecurityValidator {
    config: SecurityConfig,
    blocked_paths: Vec<CompiledPattern>,
    allowed_dirs: Vec<CompiledPattern>,
    max_file_size: u64,
}

impl SecurityValidator {
    /// The policy the validator was built from.
    pub closed spec fn config_view(&self) -> SecurityConfig {
        self.config
    }

    /// The compiled blocked-path patterns, in the policy's order.
    pub closed spec fn blocked_patterns(&self) -> Seq<CompiledPattern> {
        self.blocked_paths@
    }

    /// The compiled allowed-directory patterns, in the policy's order.
    pub closed spec fn allowed_patterns(&self) -> Seq<CompiledPattern> {
        self.allowed_dirs@
    }

    /// The file size limit in bytes.
    pub closed spec fn max_file_size_spec(&self) -> u64 {
        self.max_file_size
    }

    /// The validator agrees with its policy: the size limit is the policy's in
    /// bytes, each compiled pattern runs the translation of its glob, and the
    /// blocked globs are the policy's, in its order.
    pub open spec fn wf(&self) -> bool {
        &&& self.config_view().file_operations.max_file_size_mb <= MAX_FILE_SIZE_MB
        &&& self.max_file_size_spec() == self.config_view().file_operations.max_file_size_mb
            * BYTES_PER_MB
        &&& Self::globs_of(self.blocked_patterns()) == view_strings(
            self.config_view().file_operations.blocked_paths@,
        )
        &&& Self::compiled_from_globs(self.blocked_patterns())
        &&& Self::compiled_from_globs(self.allowed_patterns())
    }

    pub open spec fn read_extensions(&self) -> Seq<Seq<char>> {
        view_strings(self.config_view().file_operations.allowed_extensions.read@)
    }

    pub open spec fn write_extensions(&self) -> Seq<Seq<char>> {
        view_strings(self.config_view().file_operations.allowed_extensions.write@)
    }

    pub open spec fn commands_enabled(&self) -> bool {
        self.config_view().system_commands.enabled
    }

    pub open spec fn command_allowlist(&self) -> Seq<Seq<char>> {
        view_strings(self.config_view().system_commands.allowlist@)
    }

    pub open spec fn command_blocked(&self) -> Seq<Seq<char>> {
        view_strings(self.config_view().system_commands.blocked_patterns@)
    }

    /// A blocked pattern matches the path.
    pub open spec fn is_blocked(&self, p: Seq<char>) -> bool {
        any_matches(self.blocked_patterns(), p)
    }

    /// An allowed-directory pattern matches the path.
    pub open spec fn is_in_allowed_dir(&self, p: Seq<char>) -> bool {
        any_matches(self.allowed_patterns(), p)
    }

    /// The decision on an expanded path for an operation whose allowed
    /// extensions are `exts`: blocked patterns first, then allowed
    /// directories, then the extension.
    pub open spec fn path_decision(&self, p: Seq<char>, exts: Seq<Seq<char>>) -> Result<(), Denial> {
        decide(self.is_blocked(p), self.is_in_allowed_dir(p), p, exts)
    }

    /// The decision on an expanded path, taken on its canonical form.
    pub open spec fn access_decision(&self, p: Seq<char>, exts: Seq<Seq<char>>) -> Result<
        (),
        Denial,
    > {
        self.path_decision(normalize(p), exts)
    }

    /// The decision on a command line: the switch, then emptiness, then the
    /// executable's name, then the blocked substrings.
    pub open spec fn command_decision(&self, c: Seq<char>) -> Result<(), Denial> {
        if !self.commands_enabled() {
            Err(Denial::CommandsDisabled)
        } else if words(c).len() == 0 {
            Err(Denial::EmptyCommand)
        } else if !self.command_allowlist().contains(words(c)[0]) {
            Err(Denial::NotAllowlisted)
        } else if any_occurs(self.command_blocked(), c) {
            Err(Denial::BlockedPattern)
        } else {
            Ok(())
        }
    }

    /// Every glob of `globs` is accepted by the regex engine once translated.
    pub open spec fn all_compile(globs: Seq<Seq<char>>) -> bool {
        forall|i: int| 0 <= i < globs.len() ==> regex_accepts(glob_regex(#[trigger] globs[i]))
    }

    /// The globs of `pats`.
    pub open spec fn globs_of(pats: Seq<CompiledPattern>) -> Seq<Seq<char>> {
        pats.map_values(|p: CompiledPattern| p.glob_view())
    }

    /// Each pattern of `pats` runs the translation of its glob.
    pub open spec fn compiled_from_globs(pats: Seq<CompiledPattern>) -> bool {
        forall|i: int|
            0 <= i < pats.len() ==> (#[trigger] pats[i]).regex_view() == glob_regex(
                pats[i].glob_view(),
            )
    }
}

/// Compiles each glob in order; fails on the first one the regex engine
/// refuses.
fn compile_all(globs: &Vec<String>) -> (r: Result<Vec<CompiledPattern>, PolicyError>)
    ensures
        r is Ok == SecurityValidator::all_compile(view_strings(globs@)),
        r matches Ok(pats) ==> SecurityValidator::globs_of(pats@) == view_strings(globs@)
            && SecurityValidator::compiled_from_globs(pats@),
        r matches Err(e) ==> e matches PolicyError::InvalidPattern { pattern } && view_strings(
            globs@,
        ).contains(pattern@),
{
    let mut pats: Vec<CompiledPattern> = Vec::new();
    let mut i: usize = 0;
    while i < globs.len()
        invariant
            i <= globs@.len(),
            pats@.len() == i,
            forall|j: int| 0 <= j < i ==> regex_accepts(glob_regex(#[trigger] globs@[j]@)),
            forall|j: int|
                0 <= j < i ==> (#[trigger] pats@[j]).glob_view() == globs@[j]@
                    && pats@[j].regex_view() == glob_regex(globs@[j]@),
        decreases globs@.len() - i,
    {
        match CompiledPattern::compile(globs[i].as_str()) {
            Ok(p) => {
                pats.push(p);
            },
            Err(_) => {
                assert(view_strings(globs@)[i as int] == globs@[i as int]@);
                return Err(PolicyError::InvalidPattern { pattern: globs[i].clone() });
            },
        }
        i = i + 1;
    }
    assert(SecurityValidator::globs_of(pats@) =~= view_strings(globs@));
    Ok(pats)
}

impl SecurityValidator {
    /// Decides on an already expanded path for an operation whose allowed
    /// extensions are `allowed_exts`, after bringing it to canonical form.
    pub fn validate_file_access(&self, path: &str, allowed_exts: &Vec<String>) -> (r: Result<
        (),
        Denial,
    >)
        ensures
            r == self.access_decision(path@, view_strings(allowed_exts@)),
    {
        let canonical = normalize_path(path);
        self.validate_canonical(canonical.as_str(), allowed_exts)
    }

    /// Decides on a path already in canonical form.
    fn validate_canonical(&self, path: &str, allowed_exts: &Vec<String>) -> (r: Result<
        (),
        Denial,
    >)
        ensures
            r == self.path_decision(path@, view_strings(allowed_exts@)),
    {
        let mut i: usize = 0;
        while i < self.blocked_paths.len()
            invariant
                i <= self.blocked_paths@.len(),
                forall|j: int| 0 <= j < i ==> !(#[trigger] self.blocked_paths@[j]).matches_spec(path@),
            decreases self.blocked_paths@.len() - i,
        {
            if self.blocked_paths[i].matches(path) {
                return Err(Denial::Blocked);
            }
            i = i + 1;
        }
        let mut allowed = false;
        let mut i: usize = 0;
        while i < self.allowed_dirs.len()
            invariant
                i <= self.allowed_dirs@.len(),
                !self.is_blocked(path@),
                allowed <==> exists|j: int|
                    0 <= j < i && (#[trigger] self.allowed_dirs@[j]).matches_spec(path@),
            decreases self.allowed_dirs@.len() - i,
        {
            if self.allowed_dirs[i].matches(path) {
                allowed = true;
            }
            i = i + 1;
        }
        decide_path(false, allowed, path, allowed_exts)
    }

    /// Decides on a read of `path`, after expanding a leading `~`.
    pub fn validate_file_read(&self, path: &str) -> (r: Result<(), Denial>)
        ensures
            exists|e: Seq<char>|
                expansion_of(path@, e) && r == self.access_decision(e, self.read_extensions()),
            !home_expandable(path@) ==> r == self.access_decision(path@, self.read_extensions()),
    {
        let expanded = expand_home(path);
        self.validate_file_access(expanded.as_str(), &self.config.file_operations.allowed_extensions.read)
    }

    /// Decides on a write of `path`, after expanding a leading `~`.
    pub fn validate_file_write(&self, path: &str) -> (r: Result<(), Denial>)
        ensures
            exists|e: Seq<char>|
                expansion_of(path@, e) && r == self.access_decision(e, self.write_extensions()),
            !home_expandable(path@) ==> r == self.access_decision(path@, self.write_extensions()),
    {
        let expanded = expand_home(path);
        self.validate_file_access(expanded.as_str(), &self.config.file_operations.allowed_extensions.write)
    }

    /// Decides on a command line.
    pub fn validate_command(&self, command: &str) -> (r: Result<(), Denial>)
        ensures
            r == self.command_decision(command@),
    {
        if !self.config.system_commands.enabled {
            return Err(Denial::CommandsDisabled);
        }
        let parts = split_words(command);
        if parts.len() == 0 {
            return Err(Denial::EmptyCommand);
        }
        assert(view_strings(parts@)[0] == parts@[0]@);
        if !contains_string(&self.config.system_commands.allowlist, parts[0].as_str()) {
            return Err(Denial::NotAllowlisted);
        }
        let line = to_chars(command);
        let blocked = &self.config.system_commands.blocked_patterns;
        let mut i: usize = 0;
        while i < blocked.len()
            invariant
                i <= blocked@.len(),
                line@ == command@,
                blocked@ == self.config.system_commands.blocked_patterns@,
                self.commands_enabled(),
                words(command@).len() > 0,
                self.command_allowlist().contains(words(command@)[0]),
                forall|j: int| 0 <= j < i ==> !contains_sub(command@, #[trigger] blocked@[j]@),
            decreases blocked@.len() - i,
        {
            let sub = to_chars(blocked[i].as_str());
            if has_substring(&line, &sub) {
                assert(self.command_blocked()[i as int] == blocked@[i as int]@);
                assert(contains_sub(command@, self.command_blocked()[i as int]));
                return Err(Denial::BlockedPattern);
            }
            i = i + 1;
        }
        assert(!any_occurs(self.command_blocked(), command@)) by {
            if any_occurs(self.command_blocked(), command@) {
                let j = choose|j: int|
                    0 <= j < self.command_blocked().len() && contains_sub(
                        command@,
                        #[trigger] self.command_blocked()[j],
                    );
                assert(self.command_blocked()[j] == blocked@[j]@);
            }
        }
        Ok(())
    }

    /// The file size limit in bytes.
    pub fn get_max_file_size(&self) -> (r: u64)
        ensures
            r == self.max_file_size_spec(),
            self.wf() ==> r == self.config_view().file_operations.max_file_size_mb * BYTES_PER_MB,
    {
        self.max_file_size
    }

    /// The command timeout in seconds.
    pub fn get_command_timeout(&self) -> (r: u64)
        ensures
            r == self.config_view().system_commands.timeout_seconds,
    {
        self.config.system_commands.timeout_seconds
    }

    /// The extensions allowed for reading.
    pub fn get_allowed_read_extensions(&self) -> (r: &[String])
        ensures
            r@ == self.config_view().file_operations.allowed_extensions.read@,
    {
        self.config.file_operations.allowed_extensions.read.as_slice()
    }

    /// Whether commands are switched on.
    pub fn is_commands_enabled(&self) -> (r: bool)
        ensures
            r == self.commands_enabled(),
    {
        self.config.system_commands.enabled
    }

    /// The policy the validator was built from.
    pub fn config(&self) -> (r: &SecurityConfig)
        ensures
            *r == self.config_view(),
    {
        &self.config
    }

    /// Builds a validator from a policy whose allowed-directory globs have
    /// already been home-expanded into `allowed_dirs`. Fails when the size
    /// limit overflows or a glob does not compile.
    pub fn from_config_expanded(config: SecurityConfig, allowed_dirs: Vec<String>) -> (r: Result<
        Self,
        PolicyError,
    >)
        ensures
            (config.file_operations.max_file_size_mb > MAX_FILE_SIZE_MB) <==> r matches Err(
                PolicyError::FileSizeLimitTooLarge,
            ),
            r is Ok <==> config.file_operations.max_file_size_mb <= MAX_FILE_SIZE_MB
                && Self::all_compile(view_strings(config.file_operations.blocked_paths@))
                && Self::all_compile(view_strings(allowed_dirs@)),
            r matches Err(PolicyError::InvalidPattern { pattern }) ==> view_strings(
                config.file_operations.blocked_paths@,
            ).contains(pattern@) || view_strings(allowed_dirs@).contains(pattern@),
            r matches Ok(v) ==> {
                &&& v.wf()
                &&& v.config_view() == config
                &&& Self::globs_of(v.blocked_patterns()) == view_strings(
                    config.file_operations.blocked_paths@,
                )
                &&& Self::compiled_from_globs(v.blocked_patterns())
                &&& Self::globs_of(v.allowed_patterns()) == view_strings(allowed_dirs@)
                &&& Self::compiled_from_globs(v.allowed_patterns())
                &&& v.max_file_size_spec() == config.file_operations.max_file_size_mb
                    * BYTES_PER_MB
            },
    {
        if config.file_operations.max_file_size_mb > MAX_FILE_SIZE_MB {
            return Err(PolicyError::FileSizeLimitTooLarge);
        }
        let max_file_size = config.file_operations.max_file_size_mb * BYTES_PER_MB;
        let blocked_paths = match compile_all(&config.file_operations.blocked_paths) {
            Ok(p) => p,
            Err(e) => {
                return Err(e);
            },
        };
        let allowed = match compile_all(&allowed_dirs) {
            Ok(p) => p,
            Err(e) => {
                return Err(e);
            },
        };
        Ok(SecurityValidator { config, blocked_paths, allowed_dirs: allowed, max_file_size })
    }

    /// Builds a validator from a policy: expands a leading `~` in each
    /// allowed-directory glob, then compiles every glob once.
    pub fn from_config(config: SecurityConfig) -> (r: Result<Self, PolicyError>)
        ensures
            (config.file_operations.max_file_size_mb > MAX_FILE_SIZE_MB) <==> r matches Err(
                PolicyError::FileSizeLimitTooLarge,
            ),
            !Self::all_compile(view_strings(config.file_operations.blocked_paths@)) ==> r is Err,
            config.file_operations.max_file_size_mb <= MAX_FILE_SIZE_MB && Self::all_compile(
                view_strings(config.file_operations.blocked_paths@),
            ) && (forall|j: int|
                0 <= j < config.file_operations.allowed_directories@.len() ==> !home_expandable(
                    #[trigger] config.file_operations.allowed_directories@[j]@,
                )) && Self::all_compile(view_strings(config.file_operations.allowed_directories@))
                ==> r is Ok,
            r is Err && config.file_operations.max_file_size_mb <= MAX_FILE_SIZE_MB
                && Self::all_compile(view_strings(config.file_operations.blocked_paths@))
                ==> exists|j: int, e: Seq<char>|
                0 <= j < config.file_operations.allowed_directories@.len() && #[trigger] expansion_of(
                    config.file_operations.allowed_directories@[j]@,
                    e,
                ) && !regex_accepts(glob_regex(e)),
            r matches Ok(v) ==> {
                &&& v.wf()
                &&& v.config_view() == config
                &&& Self::globs_of(v.blocked_patterns()) == view_strings(
                    config.file_operations.blocked_paths@,
                )
                &&& Self::compiled_from_globs(v.blocked_patterns())
                &&& v.allowed_patterns().len() == config.file_operations.allowed_directories@.len()
                &&& forall|j: int|
                    0 <= j < v.allowed_patterns().len() ==> expansion_of(
                        config.file_operations.allowed_directories@[j]@,
                        (#[trigger] v.allowed_patterns()[j]).glob_view(),
                    )
                &&& Self::compiled_from_globs(v.allowed_patterns())
                &&& v.max_file_size_spec() == config.file_operations.max_file_size_mb
                    * BYTES_PER_MB
            },
    {
        let mut expanded: Vec<String> = Vec::new();
        let mut i: usize = 0;
        while i < config.file_operations.allowed_directories.len()
            invariant
                i <= config.file_operations.allowed_directories@.len(),
                expanded@.len() == i,
                forall|j: int|
                    0 <= j < i ==> expansion_of(
                        config.file_operations.allowed_directories@[j]@,
                        #[trigger] expanded@[j]@,
                    ),
            decreases config.file_operations.allowed_directories@.len() - i,
        {
            let e = expand_home(config.file_operations.allowed_directories[i].as_str());
            expanded.push(e);
            i = i + 1;
        }
        let ghost ex = expanded@;
        let ghost cfg = config;
        let r = Self::from_config_expanded(config, expanded);
        proof {
            let dirs = cfg.file_operations.allowed_directories@;
            assert(view_strings(ex).len() == dirs.len());
            if forall|j: int| 0 <= j < dirs.len() ==> !home_expandable(#[trigger] dirs[j]@) {
                if Self::all_compile(view_strings(dirs)) {
                    assert forall|j: int| 0 <= j < view_strings(ex).len() implies regex_accepts(
                        glob_regex(#[trigger] view_strings(ex)[j]),
                    ) by {
                        assert(expansion_of(dirs[j]@, ex[j]@));
                        assert(!home_expandable(dirs[j]@));
                        assert(view_strings(ex)[j] == ex[j]@);
                        assert(view_strings(dirs)[j] == dirs[j]@);
                    }
                }
            }
            if r is Err && cfg.file_operations.max_file_size_mb <= MAX_FILE_SIZE_MB
                && Self::all_compile(view_strings(cfg.file_operations.blocked_paths@)) {
                assert(!Self::all_compile(view_strings(ex)));
                let j = choose|j: int|
                    0 <= j < view_strings(ex).len() && !regex_accepts(
                        glob_regex(#[trigger] view_strings(ex)[j]),
                    );
                assert(view_strings(ex)[j] == ex[j]@);
                assert(expansion_of(dirs[j]@, ex[j]@));
            }
            if let Ok(v) = &r {
                assert forall|j: int| 0 <= j < v.allowed_patterns().len() implies expansion_of(
                    config.file_operations.allowed_directories@[j]@,
                    (#[trigger] v.allowed_patterns()[j]).glob_view(),
                ) by {
                    assert(Self::globs_of(v.allowed_patterns()).len() == ex.len());
                    assert(Self::globs_of(v.allowed_patterns())[j] == view_strings(ex)[j]);
                    assert(Self::globs_of(v.allowed_patterns())[j]
                        == v.allowed_patterns()[j].glob_view());
                    assert(view_strings(ex)[j] == ex[j]@);
                }
            }
        }
        r
    }
}

/// The decision on a canonical path once the patterns have been matched, as
/// `decide` says.
pub fn decide_path(blocked: bool, allowed: bool, path: &str, allowed_exts: &Vec<String>) -> (r:
    Result<(), Denial>)
    ensures
        r == decide(blocked, allowed, path@, view_strings(allowed_exts@)),
{
    if blocked {
        return Err(Denial::Blocked);
    }
    if !allowed {
        return Err(Denial::NotAllowlisted);
    }
    let chars = to_chars(path);
    let start = match find_last(&chars, '/') {
        Some(k) => k + 1,
        None => 0,
    };
    let name = sub_chars(&chars, start, chars.len());
    assert(name@ == file_name(path@));
    let dot = match find_last(&name, '.') {
        Some(d) => d,
        None => {
            return Err(Denial::NoExtension);
        },
    };
    let mut dotdot: Vec<char> = Vec::new();
    dotdot.push('.');
    dotdot.push('.');
    assert(dotdot@ =~= seq!['.', '.']);
    if dot == 0 || crate::text::chars_eq(&name, &dotdot) {
        return Err(Denial::NoExtension);
    }
    let mut dotted_ext: Vec<char> = Vec::new();
    dotted_ext.push('.');
    let ext = sub_chars(&name, dot + 1, name.len());
    let mut k: usize = 0;
    while k < ext.len()
        invariant
            k <= ext@.len(),
            dotted_ext@ == seq!['.'] + ext@.subrange(0, k as int),
        decreases ext@.len() - k,
    {
        dotted_ext.push(ext[k]);
        k = k + 1;
        assert(dotted_ext@ =~= seq!['.'] + ext@.subrange(0, k as int));
    }
    assert(ext@.subrange(0, ext@.len() as int) =~= ext@);
    let candidate = from_chars(&dotted_ext);
    if contains_string(allowed_exts, candidate.as_str()) {
        Ok(())
    } else {
        Err(Denial::ExtensionNotAllowed)
    }
}

/// A path whose canonical form a blocked pattern matches is denied as blocked,
/// for reading and for writing, whatever the allowed directories say.
pub proof fn lemma_blocked_path_denied(v: SecurityValidator, p: Seq<char>)
    requires
        v.is_blocked(normalize(p)),
    ensures
        v.access_decision(p, v.read_extensions()) == Err::<(), Denial>(Denial::Blocked),
        v.access_decision(p, v.write_extensions()) == Err::<(), Denial>(Denial::Blocked),
{
}

/// A path whose canonical form no allowed-directory pattern matches, and no
/// blocked pattern either, is denied as not allowlisted.
pub proof fn lemma_outside_allowed_dirs_denied(v: SecurityValidator, p: Seq<char>)
    requires
        !v.is_blocked(normalize(p)),
        !v.is_in_allowed_dir(normalize(p)),
    ensures
        v.access_decision(p, v.read_extensions()) == Err::<(), Denial>(Denial::NotAllowlisted),
        v.access_decision(p, v.write_extensions()) == Err::<(), Denial>(Denial::NotAllowlisted),
{
}

/// A path whose canonical form has no extension, and passes the blocked and
/// allowed-directory checks, is denied for having no extension.
pub proof fn lemma_no_extension_denied(v: SecurityValidator, p: Seq<char>)
    requires
        !v.is_blocked(normalize(p)),
        v.is_in_allowed_dir(normalize(p)),
        extension(normalize(p)) is None,
    ensures
        v.access_decision(p, v.read_extensions()) == Err::<(), Denial>(Denial::NoExtension),
        v.access_decision(p, v.write_extensions()) == Err::<(), Denial>(Denial::NoExtension),
{
}

/// Two reads of the same path, without home shorthand, on the same validator
/// get the same decision.
pub proof fn lemma_read_decision_repeatable(
    v: SecurityValidator,
    p: Seq<char>,
    first: Result<(), Denial>,
    second: Result<(), Denial>,
)
    requires
        !home_expandable(p),
        first == v.access_decision(p, v.read_extensions()),
        second == v.access_decision(p, v.read_extensions()),
    ensures
        first == second,
{
}

/// A command whose first word is not on the allowlist is denied as not
/// allowlisted while commands are switched on.
pub proof fn lemma_unlisted_command_denied(v: SecurityValidator, c: Seq<char>)
    requires
        v.commands_enabled(),
        words(c).len() > 0,
        !v.command_allowlist().contains(words(c)[0]),
    ensures
        v.command_decision(c) == Err::<(), Denial>(Denial::NotAllowlisted),
{
}

/// While commands are switched off, every command line is denied as such,
/// whatever the allowlist holds.
pub proof fn lemma_disabled_commands_denied(v: SecurityValidator, c: Seq<char>)
    requires
        !v.commands_enabled(),
    ensures
        v.command_decision(c) == Err::<(), Denial>(Denial::CommandsDisabled),
{
}

} // verus!
