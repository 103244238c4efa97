use vstd::prelude::*;

use crate::conf::{ConfModel, ShmemConf};
use crate::error::ShmemError;

verus! {

/// One mapped region: its descriptor, identifier, size and address, whether
/// it is file-backed, and whether this process owns it.
///
/// A value is made once the region's descriptor is open. An address of 0
/// means that the region is not mapped yet; teardown then skips unmapping.
#[derive(Debug)]
pub struct MapData {
    owner: bool,
    map_fd: i32,
    unique_id: String,
    map_size: usize,
    map_addr: usize,
    is_tmpfs: bool,
}

/// The content of a `MapData`.
pub struct MapModel {
    /// Whether this process destroys the region on teardown.
    pub owner: bool,
    /// The open descriptor.
    pub fd: i32,
    /// The region's name, or its file path when file-backed.
    pub unique_id: Seq<char>,
    /// The mapped size in bytes.
    pub size: usize,
    /// The mapped address, 0 before the region is mapped.
    pub addr: usize,
    /// Whether the region is a file instead of a namespace entry.
    pub is_tmpfs: bool,
}

impl View for MapData {
    type V = MapModel;

    closed spec fn view(&self) -> MapModel {
        MapModel {
            owner: self.owner,
            fd: self.map_fd,
            unique_id: self.unique_id@,
            size: self.map_size,
            addr: self.map_addr,
            is_tmpfs: self.is_tmpfs,
        }
    }
}

/// How teardown disposes of the named region behind a mapping.
#[derive(Clone, Debug)]
pub enum Release {
    /// Leave it: this handle does not own it.
    Keep,
    /// Remove this name from the kernel's shared-memory namespace.
    Unlink(String),
    /// Delete this backing file.
    RemoveFile(String),
}

/// The steps that tear a segment down, in this order: delete the reference
/// file, unmap, release the region, close the descriptor. A failed step is
/// reported nowhere and does not stop the next one.
#[derive(Clone, Debug)]
pub struct Teardown {
    /// The reference file to delete.
    pub remove_link: Option<String>,
    /// The address and length to unmap.
    pub unmap: Option<(usize, usize)>,
    /// What becomes of the named region.
    pub release: Release,
    /// The descriptor to close.
    pub close_fd: i32,
}

/// Whether teardown of `m` destroys the named region.
pub open spec fn releases_region(m: MapModel) -> bool {
    m.owner
}

/// Whether teardown under the configuration `c` deletes the reference file.
pub open spec fn removes_link(c: ConfModel) -> bool {
    c.owner && c.flink_path is Some
}

/// The content of a `Shmem`: its configuration and its mapping.
pub struct ShmemModel {
    /// The configuration.
    pub conf: ConfModel,
    /// The mapping.
    pub map: MapModel,
}

/// A live segment: the configuration it was made from and its mapping.
#[derive(Debug)]
pub struct Shmem {
    config: ShmemConf,
    mapping: MapData,
}

impl View for Shmem {
    type V = ShmemModel;

    closed spec fn view(&self) -> ShmemModel {
        ShmemModel { conf: self.config@, map: self.mapping@ }
    }
}

/// The handle that creation gives: owner, with the size that the mapping has.
pub open spec fn created_spec(c: ConfModel, m: MapModel) -> ShmemModel {
    ShmemModel {
        conf: ConfModel { owner: true, size: m.size, ..c },
        map: MapModel { owner: true, ..m },
    }
}

/// The handle that opening gives: not owner, with the size that the mapping has.
pub open spec fn opened_spec(c: ConfModel, m: MapModel) -> ShmemModel {
    ShmemModel {
        conf: ConfModel { owner: false, size: m.size, ..c },
        map: MapModel { owner: false, ..m },
    }
}

/// The handle `s` after its ownership was set to `owner`.
pub open spec fn with_owner(s: ShmemModel, owner: bool) -> ShmemModel {
    ShmemModel {
        conf: ConfModel { owner: owner, ..s.conf },
        map: MapModel { owner: owner, ..s.map },
    }
}

impl MapData {
    /// A region that this process has just created, and so owns.
    pub fn created(map_fd: i32, unique_id: String, map_size: usize, map_addr: usize, is_tmpfs: bool) -> (r: Self)
        ensures
            r@ == (MapModel {
                owner: true,
                fd: map_fd,
                unique_id: unique_id@,
                size: map_size,
                addr: map_addr,
                is_tmpfs: is_tmpfs,
            }),
    {
        MapData { owner: true, map_fd, unique_id, map_size, map_addr, is_tmpfs }
    }

    /// A region that this process has opened, and does not own.
    pub fn opened(map_fd: i32, unique_id: String, map_size: usize, map_addr: usize, is_tmpfs: bool) -> (r: Self)
        ensures
            r@ == (MapModel {
                owner: false,
                fd: map_fd,
                unique_id: unique_id@,
                size: map_size,
                addr: map_addr,
                is_tmpfs: is_tmpfs,
            }),
    {
        MapData { owner: false, map_fd, unique_id, map_size, map_addr, is_tmpfs }
    }

    /// Records where the region was mapped.
    pub fn set_map_addr(&mut self, addr: usize)
        ensures
            final(self)@ == (MapModel { addr: addr, ..old(self)@ }),
    {
        self.map_addr = addr;
    }

    /// Records the region's size.
    pub fn set_map_size(&mut self, size: usize)
        ensures
            final(self)@ == (MapModel { size: size, ..old(self)@ }),
    {
        self.map_size = size;
    }

    /// Sets whether this process owns the region; returns the previous value.
    pub fn set_owner(&mut self, is_owner: bool) -> (r: bool)
        ensures
            r == old(self)@.owner,
            final(self)@ == (MapModel { owner: is_owner, ..old(self)@ }),
    {
        let prev_val = self.owner;
        self.owner = is_owner;
        prev_val
    }

    /// The region's identifier (a file path when it is file-backed).
    pub fn unique_id(&self) -> (r: &str)
        ensures
            r@ == self@.unique_id,
    {
        self.unique_id.as_str()
    }

    /// The mapped size in bytes.
    pub fn map_size(&self) -> (r: usize)
        ensures
            r == self@.size,
    {
        self.map_size
    }

    /// The address at which the region is mapped.
    pub fn map_addr(&self) -> (r: usize)
        ensures
            r == self@.addr,
    {
        self.map_addr
    }

    /// The open descriptor of the region.
    pub fn map_fd(&self) -> (r: i32)
        ensures
            r == self@.fd,
    {
        self.map_fd
    }

    /// How to tear this mapping down: unmap what was mapped, destroy the
    /// named region only if this process owns it, close what was opened.
    pub fn teardown(&self) -> (r: Teardown)
        ensures
            r.remove_link is None,
            r.unmap == if self@.addr != 0 {
                Some((self@.addr, self@.size))
            } else {
                None::<(usize, usize)>
            },
            r.close_fd == self@.fd,
            r.release is Keep <==> !releases_region(self@),
            r.release matches Release::Unlink(id) ==> !self@.is_tmpfs && id@ == self@.unique_id,
            r.release matches Release::RemoveFile(p) ==> self@.is_tmpfs && p@ == self@.unique_id,
    {
        let unmap = if self.map_addr != 0 {
            Some((self.map_addr, self.map_size))
        } else {
            None
        };
        let release = if !self.owner {
            Release::Keep
        } else if self.is_tmpfs {
            Release::RemoveFile(self.unique_id.clone())
        } else {
            Release::Unlink(self.unique_id.clone())
        };
        Teardown { remove_link: None, unmap, release, close_fd: self.map_fd }
    }
}

impl Shmem {
    /// The configuration and the mapping agree on ownership and on the
    /// kind of backing store, and the mapped size is positive.
    pub open spec fn wf(&self) -> bool {
        &&& self@.conf.owner == self@.map.owner
        &&& self@.conf.use_tmpfs == self@.map.is_tmpfs
        &&& self@.map.size > 0
    }

    /// The handle for a region just created from `config`: marked owner,
    /// and recording the mapping's true size.
    pub fn created(config: ShmemConf, mapping: MapData) -> (r: Self)
        requires
            mapping@.size > 0,
            mapping@.is_tmpfs == config@.use_tmpfs,
        ensures
            r@ == created_spec(config@, mapping@),
            r.wf(),
    {
        let mut config = config;
        let mut mapping = mapping;
        config.set_owner_flag(true);
        config.set_size(mapping.map_size);
        mapping.set_owner(true);
        Shmem { config, mapping }
    }

    /// The handle for a region opened from `config`: not owner, and
    /// recording the mapping's true size.
    pub fn opened(config: ShmemConf, mapping: MapData) -> (r: Self)
        requires
            mapping@.size > 0,
            mapping@.is_tmpfs == config@.use_tmpfs,
        ensures
            r@ == opened_spec(config@, mapping@),
            r.wf(),
    {
        let mut config = config;
        let mut mapping = mapping;
        config.set_owner_flag(false);
        config.set_size(mapping.map_size);
        mapping.set_owner(false);
        Shmem { config, mapping }
    }

    /// Whether this handle is responsible for destroying the segment.
    pub fn is_owner(&self) -> (r: bool)
        requires
            self.wf(),
        ensures
            r == self@.conf.owner,
            r == self@.map.owner,
    {
        self.mapping.owner
    }

    /// Makes this handle the owner, or not; returns the previous value.
    ///
    /// Nothing stops two processes from both owning a segment, or none:
    /// with none, the region outlives them all; with two, the first to tear
    /// down destroys it under the other. Callers keep exactly one owner.
    pub fn set_owner(&mut self, is_owner: bool) -> (r: bool)
        requires
            old(self).wf(),
        ensures
            r == old(self)@.map.owner,
            final(self)@ == with_owner(old(self)@, is_owner),
            final(self).wf(),
    {
        let prev_val = self.mapping.set_owner(is_owner);
        self.config.set_owner_flag(is_owner);
        prev_val
    }

    /// The identifier of the region (a file path when it is file-backed).
    pub fn get_os_id(&self) -> (r: &str)
        ensures
            r@ == self@.map.unique_id,
    {
        self.mapping.unique_id()
    }

    /// The backing file's path, where the region is file-backed.
    pub fn get_tmpfs_file_path(&self) -> (r: Option<String>)
        requires
            self.wf(),
        ensures
            r is Some == self@.map.is_tmpfs,
            r is Some == self@.conf.use_tmpfs,
            r matches Some(p) ==> p@ == self@.map.unique_id,
    {
        if self.mapping.is_tmpfs {
            Some(self.mapping.unique_id.clone())
        } else {
            None
        }
    }

    /// The reference file's path, if there is one.
    pub fn get_flink_path(&self) -> (r: Option<&String>)
        ensures
            r is Some == self@.conf.flink_path is Some,
            r matches Some(p) ==> self@.conf.flink_path == Some(p@),
    {
        self.config.link_path()
    }

    /// The mapped size in bytes.
    pub fn len(&self) -> (r: usize)
        requires
            self.wf(),
        ensures
            r == self@.map.size,
            r > 0,
    {
        self.mapping.map_size
    }

    /// The address at which the region is mapped in this process.
    pub fn map_addr(&self) -> (r: usize)
        ensures
            r == self@.map.addr,
    {
        self.mapping.map_addr
    }

    /// The mapping.
    pub fn mapping(&self) -> (r: &MapData)
        ensures
            r@ == self@.map,
    {
        &self.mapping
    }

    /// How to tear this segment down: the mapping's steps, and before them
    /// the deletion of the reference file when this handle owns the segment.
    pub fn teardown(&self) -> (r: Teardown)
        requires
            self.wf(),
        ensures
            r.remove_link is Some == removes_link(self@.conf),
            r.remove_link matches Some(p) ==> self@.conf.flink_path == Some(p@),
            r.unmap == if self@.map.addr != 0 {
                Some((self@.map.addr, self@.map.size))
            } else {
                None::<(usize, usize)>
            },
            r.close_fd == self@.map.fd,
            r.release is Keep <==> !releases_region(self@.map),
            r.release matches Release::Unlink(id) ==> !self@.map.is_tmpfs && id@ == self@.map.unique_id,
            r.release matches Release::RemoveFile(p) ==> self@.map.is_tmpfs && p@ == self@.map.unique_id,
    {
        let mut plan = self.mapping.teardown();
        if self.mapping.owner {
            plan.remove_link = match self.config.link_path() {
                Some(p) => Some(p.clone()),
                None => None,
            };
        }
        plan
    }
}

/// The failure of an attempt at creating a region: `MappingIdExists` when
/// the system reported the name taken, else `MapCreateFailed` with its code.
pub fn create_failure(already_exists: bool, code: u32) -> (r: ShmemError)
    ensures
        r == if already_exists {
            ShmemError::MappingIdExists
        } else {
            ShmemError::MapCreateFailed(code)
        },
{
    if already_exists {
        ShmemError::MappingIdExists
    } else {
        ShmemError::MapCreateFailed(code)
    }
}

/// The failure to create the reference file: `LinkExists` when the file
/// was already there, else `LinkCreateFailed` with the system's code.
pub fn link_create_failure(already_exists: bool, code: u32) -> (r: ShmemError)
    ensures
        r == if already_exists {
            ShmemError::LinkExists
        } else {
            ShmemError::LinkCreateFailed(code)
        },
{
    if already_exists {
        ShmemError::LinkExists
    } else {
        ShmemError::LinkCreateFailed(code)
    }
}

/// A size that can be mapped: any but zero.
pub fn mapping_size(size: usize) -> (r: Result<usize, ShmemError>)
    ensures
        r == if size == 0 {
            Err::<usize, ShmemError>(ShmemError::MapSizeZero)
        } else {
            Ok::<usize, ShmemError>(size)
        },
{
    if size == 0 {
        Err(ShmemError::MapSizeZero)
    } else {
        Ok(size)
    }
}

} // verus!
