//! Properties of creating, opening and tearing down segments that relate
//! several of the library's functions.
use vstd::prelude::*;

use crate::conf::{
    create_check_spec, create_id_spec, create_retry_spec, open_step_spec, open_target_spec,
    ConfModel, OpenStep, OPEN_RETRIES,
};
use crate::error::ShmemError;
use crate::segment::{
    created_spec, opened_spec, releases_region, removes_link, with_owner, MapModel, ShmemModel,
};

verus! {

/// Where a run of creation attempts ends, given each attempt's outcome in
/// turn: `Some(Ok(k))` when attempt `k` created the region, `Some(Err(e))`
/// when creation gave up with `e`, `None` when the outcomes ran out first.
pub open spec fn create_run(c: ConfModel, attempts: Seq<Result<(), ShmemError>>) -> Option<Result<nat, ShmemError>>
    decreases attempts.len(),
{
    if attempts.len() == 0 {
        None
    } else {
        match attempts[0] {
            Ok(_) => Some(Ok(0nat)),
            Err(e) => if create_retry_spec(c, e) {
                match create_run(c, attempts.drop_first()) {
                    Some(Ok(k)) => Some(Ok(k + 1)),
                    other => other,
                }
            } else {
                Some(Err(e))
            },
        }
    }
}

/// Where a run of open attempts ends, `retry` retries having been made
/// before the first of them (see `create_run` for the result).
pub open spec fn open_run(c: ConfModel, attempts: Seq<Result<(), ShmemError>>, retry: u32) -> Option<Result<nat, ShmemError>>
    decreases attempts.len(),
{
    if attempts.len() == 0 {
        None
    } else {
        match attempts[0] {
            Ok(_) => Some(Ok(0nat)),
            Err(e) => match open_step_spec(c, retry, e) {
                OpenStep::Fail(f) => Some(Err(f)),
                OpenStep::Retry(n) => match open_run(c, attempts.drop_first(), n) {
                    Some(Ok(k)) => Some(Ok(k + 1)),
                    other => other,
                },
            },
        }
    }
}

/// Creation with size zero fails with `MapSizeZero`, whatever else the
/// configuration holds, before anything touches the system.
pub proof fn lemma_zero_size_rejected(c: ConfModel, link_exists: bool)
    requires
        c.size == 0,
    ensures
        create_check_spec(c, link_exists) == Err::<(), ShmemError>(ShmemError::MapSizeZero),
{
}

/// With an identifier of the caller's own, a collision on the first attempt
/// ends creation with `MappingIdExists`: the name is not replaced.
pub proof fn lemma_explicit_id_collision_fails(c: ConfModel, attempts: Seq<Result<(), ShmemError>>)
    requires
        c.os_id is Some,
        attempts.len() > 0,
        attempts[0] == Err::<(), ShmemError>(ShmemError::MappingIdExists),
    ensures
        create_run(c, attempts) == Some(Err::<nat, ShmemError>(ShmemError::MappingIdExists)),
{
}

/// With a generated identifier, collisions are retried with new names: if
/// every attempt before the last found its name taken and the last
/// succeeded, creation succeeds on the last.
pub proof fn lemma_generated_id_collisions_retried(c: ConfModel, attempts: Seq<Result<(), ShmemError>>)
    requires
        c.os_id is None,
        attempts.len() > 0,
        attempts.last() is Ok,
        forall|i: int| 0 <= i < attempts.len() - 1 ==> attempts[i] == Err::<(), ShmemError>(ShmemError::MappingIdExists),
    ensures
        create_run(c, attempts) == Some(Ok::<nat, ShmemError>((attempts.len() - 1) as nat)),
    decreases attempts.len(),
{
    if attempts.len() > 1 {
        let rest = attempts.drop_first();
        assert forall|i: int| 0 <= i < rest.len() - 1 implies rest[i] == Err::<(), ShmemError>(ShmemError::MappingIdExists) by {
            assert(rest[i] == attempts[i + 1]);
        }
        lemma_generated_id_collisions_retried(c, rest);
    }
}

/// Opening with neither an identifier nor a reference file fails with
/// `NoLinkOrOsId`.
pub proof fn lemma_open_needs_identifier(c: ConfModel)
    requires
        c.os_id is None,
        c.flink_path is None,
    ensures
        open_target_spec(c) == Err::<(bool, Seq<char>), ShmemError>(ShmemError::NoLinkOrOsId),
{
}

/// A segment created under an identifier of the caller's own is found
/// again by opening with that identifier: both resolve it to the same name,
/// or in file-backed mode to the same file under the same directory,
/// whatever the rest of the two configurations holds.
pub proof fn lemma_create_then_open_same_target(c1: ConfModel, c2: ConfModel, random: u64)
    requires
        c1.os_id is Some,
        c2.os_id == c1.os_id,
        c2.use_tmpfs == c1.use_tmpfs,
        c2.tmpfs_base_dir == c1.tmpfs_base_dir,
    ensures
        create_id_spec(c1, random) matches Ok(id) ==> open_target_spec(c2) == Ok::<(bool, Seq<char>), ShmemError>((false, id)),
        create_id_spec(c1, random) matches Err(e) ==> open_target_spec(c2) == Err::<(bool, Seq<char>), ShmemError>(e),
{
}

/// Round trip: a region created under the caller's identifier and then
/// opened with the same identifier and backing settings is reached under
/// the same name, by a handle that does not own it and, where the system
/// maps at least the created size, reports at least that size.
pub proof fn lemma_round_trip_handles(c1: ConfModel, m1: MapModel, c2: ConfModel, m2: MapModel, random: u64)
    requires
        c1.os_id is Some,
        c2.os_id == c1.os_id,
        c2.use_tmpfs == c1.use_tmpfs,
        c2.tmpfs_base_dir == c1.tmpfs_base_dir,
        create_id_spec(c1, random) == Ok::<Seq<char>, ShmemError>(m1.unique_id),
        open_target_spec(c2) matches Ok((false, id)) && id == m2.unique_id,
        m2.size >= m1.size,
    ensures
        opened_spec(c2, m2).map.unique_id == created_spec(c1, m1).map.unique_id,
        created_spec(c1, m1).map.owner,
        !opened_spec(c2, m2).map.owner,
        opened_spec(c2, m2).map.size >= created_spec(c1, m1).map.size,
{
    lemma_create_then_open_same_target(c1, c2, random);
}

proof fn lemma_link_reader_from(c: ConfModel, attempts: Seq<Result<(), ShmemError>>, retry: u32)
    requires
        c.os_id is None,
        attempts.len() > 0,
        retry + attempts.len() <= OPEN_RETRIES + 1,
        attempts.last() is Ok,
        forall|i: int| 0 <= i < attempts.len() - 1 ==> (#[trigger] attempts[i] matches Err(e) && e is MapOpenFailed),
    ensures
        open_run(c, attempts, retry) == Some(Ok::<nat, ShmemError>((attempts.len() - 1) as nat)),
    decreases attempts.len(),
{
    if attempts.len() > 1 {
        let rest = attempts.drop_first();
        assert(attempts[0] matches Err(e) && e is MapOpenFailed);
        assert forall|i: int| 0 <= i < rest.len() - 1 implies (#[trigger] rest[i] matches Err(e) && e is MapOpenFailed) by {
            assert(rest[i] == attempts[i + 1]);
        }
        lemma_link_reader_from(c, rest, (retry + 1) as u32);
    }
}

/// A reader that finds the identifier through a reference file outlasts a
/// writer that has not finished: if up to `OPEN_RETRIES` attempts fail with
/// "open failed" and the next one succeeds, opening succeeds.
pub proof fn lemma_link_reader_retries(c: ConfModel, attempts: Seq<Result<(), ShmemError>>)
    requires
        c.os_id is None,
        attempts.len() > 0,
        attempts.len() <= OPEN_RETRIES + 1,
        attempts.last() is Ok,
        forall|i: int| 0 <= i < attempts.len() - 1 ==> (#[trigger] attempts[i] matches Err(e) && e is MapOpenFailed),
    ensures
        open_run(c, attempts, 0) == Some(Ok::<nat, ShmemError>((attempts.len() - 1) as nat)),
{
    lemma_link_reader_from(c, attempts, 0);
}

/// An identifier given by the caller is opened once: its first failure is
/// the result.
pub proof fn lemma_explicit_open_not_retried(c: ConfModel, attempts: Seq<Result<(), ShmemError>>, e: ShmemError)
    requires
        c.os_id is Some,
        attempts.len() > 0,
        attempts[0] == Err::<(), ShmemError>(e),
    ensures
        open_run(c, attempts, 0) == Some(Err::<nat, ShmemError>(e)),
{
}

/// Teardown of a handle destroys the region, and deletes the reference
/// file where there is one, exactly when the handle owns the segment;
/// ownership set last decides.
pub proof fn lemma_owner_decides_teardown(s: ShmemModel, owner: bool)
    requires
        s.conf.owner == s.map.owner,
    ensures
        releases_region(s.map) == s.map.owner,
        removes_link(s.conf) == (s.map.owner && s.conf.flink_path is Some),
        releases_region(with_owner(s, owner).map) == owner,
        removes_link(with_owner(s, owner).conf) == (owner && s.conf.flink_path is Some),
        !releases_region(with_owner(s, false).map),
        !removes_link(with_owner(s, false).conf),
{
}

/// Opened handles never destroy the region nor delete the reference file,
/// however many there are, and each records the identifier and size of its
/// mapping, so handles on one region, which the system maps at one size,
/// report one identifier and one size.
pub proof fn lemma_opened_handles_keep_region(c1: ConfModel, m1: MapModel, c2: ConfModel, m2: MapModel)
    requires
        m1.size == m2.size,
        m1.unique_id == m2.unique_id,
    ensures
        opened_spec(c1, m1).map.unique_id == opened_spec(c2, m2).map.unique_id,
        !opened_spec(c1, m1).map.owner,
        !opened_spec(c2, m2).map.owner,
        !releases_region(opened_spec(c1, m1).map),
        !removes_link(opened_spec(c1, m1).conf),
        !releases_region(opened_spec(c2, m2).map),
        !removes_link(opened_spec(c2, m2).conf),
        opened_spec(c1, m1).map.size == opened_spec(c2, m2).map.size,
        opened_spec(c1, m1).conf.size == m1.size,
{
}

} // verus!
