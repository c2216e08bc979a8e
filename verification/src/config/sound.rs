//! Completion and Focus-loop sound settings.
use vstd::prelude::*;

use super::error::ConfigValidationError;
use crate::text::owned;
use vstd::slice::slice_to_vec;
use vstd::utf8::encode_utf8;

verus! {

/// Whether a path text is absolute: it starts at the root directory.
pub open spec fn is_absolute(path: Seq<char>) -> bool {
    path.len() > 0 && path[0] == '/'
}

/// Whether `path` starts with `~/`, naming a file under the home directory.
pub open spec fn is_home_relative(path: Seq<char>) -> bool {
    path.len() >= 2 && path[0] == '~' && path[1] == '/'
}

/// `base`, a path in the operating system's bytes, joined with the path text `rest` the way
/// `Path::join` joins on Unix: an absolute `rest` replaces `base`, and a `/` separates the two
/// unless `base` is empty or already ends with one.
pub open spec fn join_os(base: Seq<u8>, rest: Seq<char>) -> Seq<u8> {
    if is_absolute(rest) {
        encode_utf8(rest)
    } else if base.len() == 0 || base.last() == 0x2f {
        base + encode_utf8(rest)
    } else {
        base + seq![0x2fu8] + encode_utf8(rest)
    }
}

/// Joins a path held in the operating system's bytes with a path text.
pub(crate) fn join_bytes(base: &[u8], rest: &str) -> (p: Vec<u8>)
    ensures
        p@ == join_os(base@, rest@),
{
    let mut tail = rest.as_bytes_vec();
    if rest.unicode_len() > 0 && rest.get_char(0) == '/' {
        return tail;
    }
    let mut p = slice_to_vec(base);
    let n = base.len();
    if !(n == 0 || base[n - 1] == 0x2f) {
        p.push(0x2f);
    }
    p.append(&mut tail);
    p
}

/// Whether `result` is a resolution of an optional sound file named `field`: absolute
/// paths are kept, `~/` paths are joined to some home directory or rejected when it is
/// unknown, and other paths are rejected. Resolved paths are in the operating system's bytes.
pub open spec fn resolves(file: Option<Seq<char>>, field: &'static str, result: Result<Option<Seq<u8>>, ConfigValidationError>) -> bool {
    match file {
        None => result == Ok::<Option<Seq<u8>>, ConfigValidationError>(None),
        Some(f) => if is_absolute(f) {
            result == Ok::<Option<Seq<u8>>, ConfigValidationError>(Some(encode_utf8(f)))
        } else if is_home_relative(f) {
            ||| result == Err::<Option<Seq<u8>>, ConfigValidationError>(ConfigValidationError::HomeDirectoryUnavailable { field })
            ||| exists|home: Seq<u8>| result == Ok::<Option<Seq<u8>>, ConfigValidationError>(Some(join_os(home, f.subrange(2, f.len() as int))))
        } else {
            result matches Err(ConfigValidationError::RelativeSoundPath { field: fl, path }) && fl == field && path@ == f
        },
    }
}

/// Calls `directories::UserDirs::new` and takes its home directory in the operating
/// system's bytes; `None` when the home directory is unknown. Nothing is stated of the
/// directory, which depends on the environment.
#[verifier::external_body]
fn home_directory() -> Option<Vec<u8>> {
    directories::UserDirs::new().map(|dirs| dirs.home_dir().as_os_str().as_encoded_bytes().to_vec())
}

/// Resolves a sound file against a known home directory (`None` when it is unknown).
pub fn resolve_with_home(file: Option<&str>, field: &'static str, home: Option<&[u8]>) -> (r: Result<Option<Vec<u8>>, ConfigValidationError>)
    ensures
        resolves(match file { Some(f) => Some(f@), None => None }, field,
            match r { Ok(Some(p)) => Ok(Some(p@)), Ok(None) => Ok(None), Err(e) => Err(e) }),
        match (file, home) {
            (Some(f), Some(h)) => is_home_relative(f@) ==> (r matches Ok(Some(p))
                && p@ == join_os(h@, f@.subrange(2, f@.len() as int))),
            _ => true,
        },
{
    let f = match file {
        None => return Ok(None),
        Some(f) => f,
    };
    let n = f.unicode_len();
    if n > 0 && f.get_char(0) == '/' {
        return Ok(Some(f.as_bytes_vec()));
    }
    if n >= 2 && f.get_char(0) == '~' && f.get_char(1) == '/' {
        let rest = f.substring_char(2, n);
        match home {
            None => return Err(ConfigValidationError::HomeDirectoryUnavailable { field }),
            Some(h) => {
                let p = join_bytes(h, rest);
                return Ok(Some(p));
            },
        }
    }
    Err(ConfigValidationError::RelativeSoundPath { field, path: owned(f) })
}

/// Resolves an optional sound file: absolute paths are kept, `~/` paths are expanded
/// under the user's home directory, and other relative paths are rejected.
pub fn resolve(file: Option<&str>, field: &'static str) -> (r: Result<Option<Vec<u8>>, ConfigValidationError>)
    ensures
        resolves(match file { Some(f) => Some(f@), None => None }, field,
            match r { Ok(Some(p)) => Ok(Some(p@)), Ok(None) => Ok(None), Err(e) => Err(e) }),
{
    let needs_home = match file {
        Some(f) => f.unicode_len() >= 2 && f.get_char(0) == '~' && f.get_char(1) == '/',
        None => false,
    };
    if needs_home {
        let home = home_directory();
        match home {
            Some(h) => resolve_with_home(file, field, Some(h.as_slice())),
            None => resolve_with_home(file, field, None),
        }
    } else {
        resolve_with_home(file, field, None)
    }
}

/// The text of an optional path.
pub open spec fn opt_text(p: Option<String>) -> Option<Seq<char>> {
    match p {
        Some(s) => Some(s@),
        None => None,
    }
}

/// The bytes of an optional path.
pub open spec fn opt_bytes(p: Option<Vec<u8>>) -> Option<Seq<u8>> {
    match p {
        Some(b) => Some(b@),
        None => None,
    }
}

/// The abstract settings of one sound.
pub struct SoundSettings {
    pub enabled: bool,
    pub file: Option<Seq<char>>,
    pub resolved: Option<Seq<u8>>,
}

/// A one-shot completion sound or a Focus loop: whether it plays and which file.
#[derive(Debug)]
pub struct SoundFile {
    enabled: bool,
    file: Option<String>,
    resolved_file: Option<Vec<u8>>,
}

/// The one-shot sound played when any session completes.
pub type CompletionSoundConfig = SoundFile;

/// The sound loop active only while a Focus session is running.
pub type FocusSoundConfig = SoundFile;

fn copy_opt(p: &Option<String>) -> (c: Option<String>)
    ensures
        opt_text(c) == opt_text(*p),
{
    match p {
        Some(s) => Some(s.clone()),
        None => None,
    }
}

fn copy_bytes_opt(p: &Option<Vec<u8>>) -> (c: Option<Vec<u8>>)
    ensures
        opt_bytes(c) == opt_bytes(*p),
{
    match p {
        Some(b) => Some(slice_to_vec(b.as_slice())),
        None => None,
    }
}

pub(crate) fn same_bytes(a: &[u8], b: &[u8]) -> (r: bool)
    ensures
        r == (a@ == b@),
{
    if a.len() != b.len() {
        return false;
    }
    let mut i: usize = 0;
    while i < a.len()
        invariant
            a@.len() == b@.len(),
            i <= a@.len(),
            a@.subrange(0, i as int) == b@.subrange(0, i as int),
        decreases a@.len() - i,
    {
        if a[i] != b[i] {
            assert(a@[i as int] != b@[i as int]);
            return false;
        }
        assert(a@.subrange(0, i + 1) == a@.subrange(0, i as int).push(a@[i as int]));
        assert(b@.subrange(0, i + 1) == b@.subrange(0, i as int).push(b@[i as int]));
        i = i + 1;
    }
    assert(a@ == a@.subrange(0, a@.len() as int));
    assert(b@ == b@.subrange(0, b@.len() as int));
    true
}

fn same_bytes_opt(a: &Option<Vec<u8>>, b: &Option<Vec<u8>>) -> (r: bool)
    ensures
        r == (opt_bytes(*a) == opt_bytes(*b)),
{
    match (a, b) {
        (Some(x), Some(y)) => same_bytes(x.as_slice(), y.as_slice()),
        (None, None) => true,
        _ => false,
    }
}

fn same_opt(a: &Option<String>, b: &Option<String>) -> (r: bool)
    ensures
        r == (opt_text(*a) == opt_text(*b)),
{
    match (a, b) {
        (Some(x), Some(y)) => crate::text::same_text(x.as_str(), y.as_str()),
        (None, None) => true,
        _ => false,
    }
}

impl View for SoundFile {
    type V = SoundSettings;

    closed spec fn view(&self) -> SoundSettings {
        SoundSettings { enabled: self.enabled, file: opt_text(self.file), resolved: opt_bytes(self.resolved_file) }
    }
}

impl SoundFile {
    /// A sound that is not yet resolved.
    pub fn new(enabled: bool, file: Option<String>) -> (s: SoundFile)
        ensures
            s@ == (SoundSettings { enabled, file: opt_text(file), resolved: None }),
    {
        SoundFile { enabled, file, resolved_file: None }
    }

    pub fn enabled(&self) -> (b: bool)
        ensures
            b == self@.enabled,
    {
        self.enabled
    }

    /// The configured file, as written.
    pub fn file(&self) -> (f: Option<&str>)
        ensures
            match f { Some(s) => self@.file == Some(s@), None => self@.file is None },
    {
        match &self.file {
            Some(s) => Some(s.as_str()),
            None => None,
        }
    }

    /// The resolved file to play, when the sound is enabled.
    pub fn playback_file(&self) -> (f: Option<&[u8]>)
        ensures
            match f { Some(s) => self@.enabled && self@.resolved == Some(s@), None => !self@.enabled || self@.resolved is None },
    {
        if !self.enabled {
            return None;
        }
        match &self.resolved_file {
            Some(b) => Some(b.as_slice()),
            None => None,
        }
    }

    pub fn duplicate(&self) -> (s: SoundFile)
        ensures
            s@ == self@,
    {
        SoundFile { enabled: self.enabled, file: copy_opt(&self.file), resolved_file: copy_bytes_opt(&self.resolved_file) }
    }

    pub fn same_as(&self, other: &SoundFile) -> (r: bool)
        ensures
            r == (self@ == other@),
    {
        self.enabled == other.enabled && same_opt(&self.file, &other.file)
            && same_bytes_opt(&self.resolved_file, &other.resolved_file)
    }

    /// Resolves the configured file for playback.
    fn resolve_file(&mut self, field: &'static str) -> (r: Result<(), ConfigValidationError>)
        ensures
            old(self)@.enabled == final(self)@.enabled,
            old(self)@.file == final(self)@.file,
            resolves(old(self)@.file, field, match r {
                Ok(()) => Ok(final(self)@.resolved),
                Err(e) => Err(e),
            }),
            r is Err ==> final(self)@ == old(self)@,
    {
        let resolved = match &self.file {
            Some(f) => resolve(Some(f.as_str()), field),
            None => resolve(None, field),
        };
        match resolved {
            Ok(p) => {
                self.resolved_file = p;
                Ok(())
            },
            Err(e) => Err(e),
        }
    }
}

impl Default for SoundFile {
    /// A disabled sound with no file.
    fn default() -> (s: SoundFile)
        ensures
            s@ == (SoundSettings { enabled: false, file: None, resolved: None }),
    {
        SoundFile::new(false, None)
    }
}

/// The abstract sound settings.
pub struct SoundConfigSettings {
    pub completion: SoundSettings,
    pub focus: SoundSettings,
}

/// Completion and Focus-loop sound settings.
#[derive(Debug)]
pub struct SoundConfig {
    completion: SoundFile,
    focus: SoundFile,
}

impl View for SoundConfig {
    type V = SoundConfigSettings;

    closed spec fn view(&self) -> SoundConfigSettings {
        SoundConfigSettings { completion: self.completion@, focus: self.focus@ }
    }
}

/// Whether `after` is `before` with both files resolved, or `r` is the first rejection.
pub open spec fn sound_resolved(before: SoundConfigSettings, after: SoundConfigSettings, r: Result<(), ConfigValidationError>) -> bool {
    &&& after.completion.enabled == before.completion.enabled
    &&& after.completion.file == before.completion.file
    &&& after.focus.enabled == before.focus.enabled
    &&& after.focus.file == before.focus.file
    &&& match r {
        Ok(()) => resolves(before.completion.file, "sound.completion.file", Ok(after.completion.resolved))
            && resolves(before.focus.file, "sound.focus.file", Ok(after.focus.resolved)),
        Err(e) => resolves(before.completion.file, "sound.completion.file", Err(e))
            || (resolves(before.completion.file, "sound.completion.file", Ok(after.completion.resolved))
                && resolves(before.focus.file, "sound.focus.file", Err(e))),
    }
}

impl SoundConfig {
    pub fn with_completion(self, completion: SoundFile) -> (s: SoundConfig)
        ensures
            s@ == (SoundConfigSettings { completion: completion@, focus: self@.focus }),
    {
        SoundConfig { completion, focus: self.focus }
    }

    pub fn with_focus(self, focus: SoundFile) -> (s: SoundConfig)
        ensures
            s@ == (SoundConfigSettings { completion: self@.completion, focus: focus@ }),
    {
        SoundConfig { completion: self.completion, focus }
    }

    pub fn completion(&self) -> (c: &SoundFile)
        ensures
            c@ == self@.completion,
    {
        &self.completion
    }

    pub fn focus(&self) -> (f: &SoundFile)
        ensures
            f@ == self@.focus,
    {
        &self.focus
    }

    pub fn duplicate(&self) -> (s: SoundConfig)
        ensures
            s@ == self@,
    {
        SoundConfig { completion: self.completion.duplicate(), focus: self.focus.duplicate() }
    }

    pub fn same_as(&self, other: &SoundConfig) -> (r: bool)
        ensures
            r == (self@ == other@),
    {
        self.completion.same_as(&other.completion) && self.focus.same_as(&other.focus)
    }

    /// Resolves both sound files for playback.
    pub fn validate(&mut self) -> (r: Result<(), ConfigValidationError>)
        ensures
            sound_resolved(old(self)@, final(self)@, r),
    {
        self.completion.resolve_file("sound.completion.file")?;
        self.focus.resolve_file("sound.focus.file")
    }
}

impl PartialEq for SoundConfig {
    fn eq(&self, other: &SoundConfig) -> (r: bool) {
        self.same_as(other)
    }
}

impl vstd::std_specs::cmp::PartialEqSpecImpl for SoundConfig {
    open spec fn obeys_eq_spec() -> bool {
        true
    }

    open spec fn eq_spec(&self, other: &SoundConfig) -> bool {
        self@ == other@
    }
}

impl PartialEq for SoundFile {
    fn eq(&self, other: &SoundFile) -> (r: bool) {
        self.same_as(other)
    }
}

impl vstd::std_specs::cmp::PartialEqSpecImpl for SoundFile {
    open spec fn obeys_eq_spec() -> bool {
        true
    }

    open spec fn eq_spec(&self, other: &SoundFile) -> bool {
        self@ == other@
    }
}

impl Default for SoundConfig {
    /// Both sounds disabled and without files.
    fn default() -> (s: SoundConfig)
        ensures
            s@ == (SoundConfigSettings {
                completion: SoundSettings { enabled: false, file: None, resolved: None },
                focus: SoundSettings { enabled: false, file: None, resolved: None },
            }),
    {
        SoundConfig { completion: SoundFile::default(), focus: SoundFile::default() }
    }
}

} // verus!
