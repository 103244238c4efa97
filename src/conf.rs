use vstd::prelude::*;

use crate::error::ShmemError;
use crate::ident::{
    hex_upper, hex_upper_string, join_path, join_spec, name_prefix, prefixed_name,
};

verus! {

/// Permission bits of a new region when none are configured: read and write
/// for the owning user.
pub const DEFAULT_MODE: u32 = 0o600;

/// How many times opening through a reference file is retried after an
/// "open failed" error before that error is returned.
pub const OPEN_RETRIES: u32 = 5;

/// How long to wait before each of those retries, in milliseconds.
pub const OPEN_RETRY_DELAY_MS: u64 = 50;

/// Platform-specific settings; the Unix backends need none.
#[derive(Clone, Copy, Debug, Default)]
pub struct ShmemConfExt;

/// The settings of a segment to be created or opened, built step by step.
#[derive(Clone, Debug)]
pub struct ShmemConf {
    owner: bool,
    os_id: Option<String>,
    overwrite_flink: bool,
    flink_path: Option<String>,
    size: usize,
    ext: ShmemConfExt,
    mode: Option<u32>,
    use_tmpfs: bool,
    tmpfs_base_dir: Option<String>,
}

/// The content of a `ShmemConf`, with strings as character sequences.
pub struct ConfModel {
    /// Whether the handle that holds this configuration owns the segment.
    pub owner: bool,
    /// The identifier given by the caller, if any.
    pub os_id: Option<Seq<char>>,
    /// Whether an existing reference file may be overwritten on creation.
    pub overwrite_flink: bool,
    /// Where the reference file lives, if there is one.
    pub flink_path: Option<Seq<char>>,
    /// The size in bytes.
    pub size: usize,
    /// Permission bits for a new region, if set.
    pub mode: Option<u32>,
    /// Whether the region is a file under `tmpfs_base_dir` instead of an
    /// entry of the kernel's shared-memory namespace.
    pub use_tmpfs: bool,
    /// The directory of file-backed regions.
    pub tmpfs_base_dir: Option<Seq<char>>,
}

/// An optional string as an optional character sequence.
pub open spec fn opt_view(o: Option<String>) -> Option<Seq<char>> {
    match o {
        Some(s) => Some(s@),
        None => None,
    }
}

/// A string result with its string as a character sequence.
pub open spec fn result_view(r: Result<String, ShmemError>) -> Result<Seq<char>, ShmemError> {
    match r {
        Ok(s) => Ok(s@),
        Err(e) => Err(e),
    }
}

impl View for ShmemConf {
    type V = ConfModel;

    closed spec fn view(&self) -> ConfModel {
        ConfModel {
            owner: self.owner,
            os_id: opt_view(self.os_id),
            overwrite_flink: self.overwrite_flink,
            flink_path: opt_view(self.flink_path),
            size: self.size,
            mode: self.mode,
            use_tmpfs: self.use_tmpfs,
            tmpfs_base_dir: opt_view(self.tmpfs_base_dir),
        }
    }
}

/// The configuration that `ShmemConf::new` starts from: namespace-backed,
/// random identifier, no reference file, exclusive creation, size zero.
pub open spec fn default_model() -> ConfModel {
    ConfModel {
        owner: false,
        os_id: None,
        overwrite_flink: false,
        flink_path: None,
        size: 0,
        mode: None,
        use_tmpfs: false,
        tmpfs_base_dir: None,
    }
}

/// The path of a file-backed region named after `id` (`shmem_` then `id`,
/// under the base directory), or why file-backed mode cannot give one.
pub open spec fn tmpfs_join(c: ConfModel, id: Seq<char>) -> Result<Seq<char>, ShmemError> {
    if !c.use_tmpfs {
        Err(ShmemError::NotInTmpfsMode)
    } else {
        match c.tmpfs_base_dir {
            None => Err(ShmemError::NoTmpfsBaseDir),
            Some(base) => Ok(join_spec(base, name_prefix() + id)),
        }
    }
}

/// The name part of a new region: the caller's identifier, else `random` in
/// upper-case hexadecimal.
pub open spec fn id_or_random(c: ConfModel, random: u64) -> Seq<char> {
    match c.os_id {
        Some(id) => id,
        None => hex_upper(random as nat),
    }
}

/// The path of a file-backed region for `c`, where `random` names it when
/// the caller gave no identifier.
pub open spec fn tmpfs_path_spec(c: ConfModel, random: u64) -> Result<Seq<char>, ShmemError> {
    tmpfs_join(c, id_or_random(c, random))
}

/// The namespace identifier of a region for `c`: the caller's identifier,
/// else `/shmem_` followed by `random` in upper-case hexadecimal.
pub open spec fn shm_id_spec(c: ConfModel, random: u64) -> Seq<char> {
    match c.os_id {
        Some(id) => id,
        None => seq!['/'] + name_prefix() + hex_upper(random as nat),
    }
}

/// Whether a random number decides the identifier of a region for `c`;
/// where it does not, `create_id_spec` is the same for every number.
pub open spec fn needs_random(c: ConfModel) -> bool {
    c.os_id is None && !(c.use_tmpfs && c.tmpfs_base_dir is None)
}

/// The identifier that one attempt at creating a region for `c` uses.
pub open spec fn create_id_spec(c: ConfModel, random: u64) -> Result<Seq<char>, ShmemError> {
    if c.use_tmpfs {
        tmpfs_path_spec(c, random)
    } else {
        Ok(shm_id_spec(c, random))
    }
}

/// What must hold before creation touches the system: a positive size,
/// and no reference file in the way unless overwriting was asked for.
pub open spec fn create_check_spec(c: ConfModel, link_exists: bool) -> Result<(), ShmemError> {
    if c.size == 0 {
        Err(ShmemError::MapSizeZero)
    } else if c.flink_path is Some && !c.overwrite_flink && link_exists {
        Err(ShmemError::LinkExists)
    } else {
        Ok(())
    }
}

/// Where opening finds its identifier: `(false, id)` for an identifier to
/// open directly, `(true, path)` for a reference file to read it from.
pub open spec fn open_target_spec(c: ConfModel) -> Result<(bool, Seq<char>), ShmemError> {
    match c.os_id {
        Some(id) => if c.use_tmpfs {
            match tmpfs_join(c, id) {
                Ok(p) => Ok((false, p)),
                Err(e) => Err(e),
            }
        } else {
            Ok((false, id))
        },
        None => match c.flink_path {
            Some(p) => Ok((true, p)),
            None => Err(ShmemError::NoLinkOrOsId),
        },
    }
}

/// Whether creation tries again after an attempt failed with `e`: only a
/// generated identifier that was already taken is replaced and retried.
pub open spec fn create_retry_spec(c: ConfModel, e: ShmemError) -> bool {
    c.os_id is None && e == ShmemError::MappingIdExists
}

/// How the reference file is opened for writing on creation.
#[derive(Clone, Copy, Debug, PartialEq, Eq, Structural)]
pub enum LinkWrite {
    /// Create it; fail if it exists.
    CreateNew,
    /// Create it or empty an existing one.
    Truncate,
}

/// Where opening finds its identifier.
#[derive(Clone, Debug)]
pub enum OpenSource {
    /// Open this identifier (or file path) directly.
    Explicit(String),
    /// Read the identifier from the reference file at this path.
    Link(String),
}

/// An open source as `open_target_spec` states it.
pub open spec fn open_source_view(r: Result<OpenSource, ShmemError>) -> Result<(bool, Seq<char>), ShmemError> {
    match r {
        Ok(OpenSource::Explicit(id)) => Ok((false, id@)),
        Ok(OpenSource::Link(p)) => Ok((true, p@)),
        Err(e) => Err(e),
    }
}

/// What to do after an attempt to open failed.
#[derive(Clone, Copy, Debug, PartialEq, Eq, Structural)]
pub enum OpenStep {
    /// Wait `OPEN_RETRY_DELAY_MS`, read the reference file again and retry;
    /// the field is the number of retries made so far.
    Retry(u32),
    /// Give up with this error.
    Fail(ShmemError),
}

/// The decision after an attempt to open failed with `e`, `retry` retries
/// having been made: only an identifier read from a reference file is
/// retried, only after "open failed", and at most `OPEN_RETRIES` times.
pub open spec fn open_step_spec(c: ConfModel, retry: u32, e: ShmemError) -> OpenStep {
    if c.os_id is None && e is MapOpenFailed && retry < OPEN_RETRIES {
        OpenStep::Retry((retry + 1) as u32)
    } else {
        OpenStep::Fail(e)
    }
}

impl Default for ShmemConf {
    /// The same as `ShmemConf::new`.
    fn default() -> (r: Self)
        ensures
            r@ == default_model(),
    {
        ShmemConf::new()
    }
}

impl ShmemConf {
    /// A configuration with every default (see `default_model`).
    pub fn new() -> (r: Self)
        ensures
            r@ == default_model(),
    {
        ShmemConf {
            owner: false,
            os_id: None,
            overwrite_flink: false,
            flink_path: None,
            size: 0,
            ext: ShmemConfExt,
            mode: None,
            use_tmpfs: false,
            tmpfs_base_dir: None,
        }
    }

    /// Names the region `os_id` instead of a random identifier.
    pub fn os_id(self, os_id: &str) -> (r: Self)
        ensures
            r@ == (ConfModel { os_id: Some(os_id@), ..self@ }),
    {
        ShmemConf { os_id: Some(os_id.to_owned()), ..self }
    }

    /// Lets creation overwrite an existing reference file.
    pub fn force_create_flink(self) -> (r: Self)
        ensures
            r@ == (ConfModel { overwrite_flink: true, ..self@ }),
    {
        ShmemConf { overwrite_flink: true, ..self }
    }

    /// Keeps the segment's identifier in a reference file at `path`, written
    /// on creation and read on opening.
    pub fn flink(self, path: &str) -> (r: Self)
        ensures
            r@ == (ConfModel { flink_path: Some(path@), ..self@ }),
    {
        ShmemConf { flink_path: Some(path.to_owned()), ..self }
    }

    /// Sets the size in bytes of the region to create.
    pub fn size(self, size: usize) -> (r: Self)
        ensures
            r@ == (ConfModel { size: size, ..self@ }),
    {
        ShmemConf { size, ..self }
    }

    /// Sets the permission bits of the region to create.
    pub fn mode(self, mode: u32) -> (r: Self)
        ensures
            r@ == (ConfModel { mode: Some(mode), ..self@ }),
    {
        ShmemConf { mode: Some(mode), ..self }
    }

    /// Backs the region with a file under `base_dir` instead of the kernel's
    /// shared-memory namespace.
    pub fn use_tmpfs_with_dir(self, base_dir: &str) -> (r: Self)
        ensures
            r@ == (ConfModel { use_tmpfs: true, tmpfs_base_dir: Some(base_dir@), ..self@ }),
    {
        ShmemConf { use_tmpfs: true, tmpfs_base_dir: Some(base_dir.to_owned()), ..self }
    }

    /// The size in bytes.
    pub fn get_size(&self) -> (r: usize)
        ensures
            r == self@.size,
    {
        self.size
    }

    /// Whether a handle holding this configuration owns the segment.
    pub fn is_owner(&self) -> (r: bool)
        ensures
            r == self@.owner,
    {
        self.owner
    }

    /// Whether the region is file-backed.
    pub fn is_tmpfs(&self) -> (r: bool)
        ensures
            r == self@.use_tmpfs,
    {
        self.use_tmpfs
    }

    /// The reference file's path, if there is one.
    pub fn link_path(&self) -> (r: Option<&String>)
        ensures
            r is Some == self@.flink_path is Some,
            r matches Some(p) ==> self@.flink_path == Some(p@),
    {
        self.flink_path.as_ref()
    }

    /// The platform-specific settings.
    pub fn ext(&self) -> (r: &ShmemConfExt) {
        &self.ext
    }

    pub(crate) fn set_owner_flag(&mut self, owner: bool)
        ensures
            final(self)@ == (ConfModel { owner: owner, ..old(self)@ }),
    {
        self.owner = owner;
    }

    pub(crate) fn set_size(&mut self, size: usize)
        ensures
            final(self)@ == (ConfModel { size: size, ..old(self)@ }),
    {
        self.size = size;
    }

    /// The permission bits for a new region: the configured ones, else
    /// `DEFAULT_MODE`.
    pub fn effective_mode(&self) -> (r: u32)
        ensures
            r == match self@.mode {
                Some(m) => m,
                None => DEFAULT_MODE,
            },
    {
        match self.mode {
            Some(m) => m,
            None => DEFAULT_MODE,
        }
    }

    /// The path of a file-backed region named after `id`.
    fn tmpfs_path_with_id(&self, id: &str) -> (r: Result<String, ShmemError>)
        ensures
            result_view(r) == tmpfs_join(self@, id@),
    {
        if !self.use_tmpfs {
            return Err(ShmemError::NotInTmpfsMode);
        }
        match &self.tmpfs_base_dir {
            None => Err(ShmemError::NoTmpfsBaseDir),
            Some(base) => {
                let name = prefixed_name(id);
                Ok(join_path(base.as_str(), name.as_str()))
            },
        }
    }

    /// The path of the file-backed region for this configuration, where
    /// `random` names it if no identifier was given.
    pub fn tmpfs_file_path_for(&self, random: u64) -> (r: Result<String, ShmemError>)
        ensures
            result_view(r) == tmpfs_path_spec(self@, random),
    {
        match &self.os_id {
            Some(id) => self.tmpfs_path_with_id(id.as_str()),
            None => {
                let hex = hex_upper_string(random);
                self.tmpfs_path_with_id(hex.as_str())
            },
        }
    }

    /// The identifier that an attempt at creation uses, where `random` names
    /// the region if no identifier was given.
    pub fn create_id_for(&self, random: u64) -> (r: Result<String, ShmemError>)
        ensures
            result_view(r) == create_id_spec(self@, random),
    {
        if self.use_tmpfs {
            return self.tmpfs_file_path_for(random);
        }
        match &self.os_id {
            Some(id) => Ok(id.clone()),
            None => {
                let slash = "/";
                proof {
                    reveal_strlit("/");
                }
                let mut id = slash.to_owned();
                let name = prefixed_name(hex_upper_string(random).as_str());
                id.append(name.as_str());
                proof {
                    assert(id@ =~= shm_id_spec(self@, random));
                }
                Ok(id)
            },
        }
    }

    /// The identifier for the next attempt at creation. A random number is
    /// drawn from the system's entropy source only where it names the
    /// region: no identifier was given, and file-backed mode, if on, has its
    /// base directory. If the system then gives no random bytes, the result
    /// is `UnknownOsError` with the system's code.
    pub fn next_create_id(&self) -> (r: Result<String, ShmemError>)
        ensures
            !needs_random(self@) ==> result_view(r) == create_id_spec(self@, 0),
            (exists|random: u64| result_view(r) == create_id_spec(self@, random))
                || r matches Err(ShmemError::UnknownOsError(_)),
    {
        let needs_random = self.os_id.is_none() && !(self.use_tmpfs && self.tmpfs_base_dir.is_none());
        if !needs_random {
            return self.create_id_for(0);
        }
        match draw_random() {
            Ok(random) => self.create_id_for(random),
            Err(code) => Err(ShmemError::UnknownOsError(code)),
        }
    }

    /// Checks what creation needs before it touches the system, given
    /// whether a file already stands at the reference file's path.
    pub fn check_create(&self, link_exists: bool) -> (r: Result<(), ShmemError>)
        ensures
            r == create_check_spec(self@, link_exists),
    {
        if self.size == 0 {
            return Err(ShmemError::MapSizeZero);
        }
        if self.flink_path.is_some() && !self.overwrite_flink && link_exists {
            return Err(ShmemError::LinkExists);
        }
        Ok(())
    }

    /// Whether creation tries again with a new random identifier after an
    /// attempt failed with `e`: only when the identifier was generated and
    /// was already taken. A caller's own identifier is tried once.
    pub fn retry_create(&self, e: ShmemError) -> (r: bool)
        ensures
            r == create_retry_spec(self@, e),
    {
        self.os_id.is_none() && e.is_id_taken()
    }

    /// How the reference file is opened for writing on creation.
    pub fn link_write(&self) -> (r: LinkWrite)
        ensures
            r == if self@.overwrite_flink {
                LinkWrite::Truncate
            } else {
                LinkWrite::CreateNew
            },
    {
        if self.overwrite_flink {
            LinkWrite::Truncate
        } else {
            LinkWrite::CreateNew
        }
    }

    /// Where opening finds the identifier: the caller's own (as a file path
    /// in file-backed mode), else the reference file; without either,
    /// `NoLinkOrOsId`.
    pub fn open_source(&self) -> (r: Result<OpenSource, ShmemError>)
        ensures
            open_source_view(r) == open_target_spec(self@),
    {
        match &self.os_id {
            Some(id) => {
                if self.use_tmpfs {
                    match self.tmpfs_path_with_id(id.as_str()) {
                        Ok(p) => Ok(OpenSource::Explicit(p)),
                        Err(e) => Err(e),
                    }
                } else {
                    Ok(OpenSource::Explicit(id.clone()))
                }
            },
            None => match &self.flink_path {
                Some(p) => Ok(OpenSource::Link(p.clone())),
                None => Err(ShmemError::NoLinkOrOsId),
            },
        }
    }

    /// The decision after an attempt to open failed with `e`, `retry`
    /// retries having been made (see `open_step_spec`).
    pub fn open_step(&self, retry: u32, e: ShmemError) -> (r: OpenStep)
        ensures
            r == open_step_spec(self@, retry, e),
    {
        if self.os_id.is_none() && e.is_open_failure() && retry < OPEN_RETRIES {
            OpenStep::Retry(retry + 1)
        } else {
            OpenStep::Fail(e)
        }
    }
}

/// Relies on `rand::rngs::OsRng`'s `RngCore::try_fill_bytes`, which fills
/// eight bytes from the system's entropy source or returns an error instead
/// of panicking; the bytes become a `u64`, the error its OS code (0 when it
/// carries none). Nothing is known of which number comes back.
#[verifier::external_body]
fn draw_random() -> (r: Result<u64, u32>) {
    let mut bytes = [0u8; 8];
    match rand::RngCore::try_fill_bytes(&mut rand::rngs::OsRng, &mut bytes) {
        Ok(()) => Ok(u64::from_le_bytes(bytes)),
        Err(e) => Err(e.raw_os_error().unwrap_or(0) as u32),
    }
}

} // verus!
