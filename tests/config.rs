use shared_memory::{
    hex_upper_string, join_path, link_create_failure, prefixed_name, LinkWrite, OpenSource,
    OpenStep, ShmemConf, ShmemError, DEFAULT_MODE, OPEN_RETRIES, OPEN_RETRY_DELAY_MS,
};

fn ok_string(r: Result<String, ShmemError>) -> String {
    match r {
        Ok(s) => s,
        Err(e) => panic!("unexpected error {:?}", e),
    }
}

#[test]
fn defaults_of_new() {
    let c = ShmemConf::new();
    assert_eq!(c.get_size(), 0);
    assert!(!c.is_tmpfs());
    assert!(!c.is_owner());
    assert!(c.link_path().is_none());
    assert_eq!(c.effective_mode(), DEFAULT_MODE);
    assert_eq!(DEFAULT_MODE, 0o600);
    assert_eq!(c.link_write(), LinkWrite::CreateNew);
}

#[test]
fn builders_record_settings() {
    let c = ShmemConf::new()
        .size(4090)
        .mode(0o644)
        .flink("link_file")
        .force_create_flink()
        .use_tmpfs_with_dir("/tmp");
    assert_eq!(c.get_size(), 4090);
    assert_eq!(c.effective_mode(), 0o644);
    assert_eq!(c.link_path().map(|p| p.as_str()), Some("link_file"));
    assert_eq!(c.link_write(), LinkWrite::Truncate);
    assert!(c.is_tmpfs());
}

#[test]
fn zero_size_fails_first() {
    for link_exists in [false, true] {
        let plain = ShmemConf::new();
        assert_eq!(plain.check_create(link_exists), Err(ShmemError::MapSizeZero));
        let linked = ShmemConf::new().flink("some_link").os_id("/zero").use_tmpfs_with_dir("/tmp");
        assert_eq!(linked.check_create(link_exists), Err(ShmemError::MapSizeZero));
    }
}

#[test]
fn existing_link_blocks_create_unless_forced() {
    let c = ShmemConf::new().size(16).flink("some_link");
    assert_eq!(c.check_create(true), Err(ShmemError::LinkExists));
    assert_eq!(c.check_create(false), Ok(()));
    let forced = c.force_create_flink();
    assert_eq!(forced.check_create(true), Ok(()));
    let no_link = ShmemConf::new().size(16);
    assert_eq!(no_link.check_create(true), Ok(()));
}

#[test]
fn hex_digits_upper_case() {
    assert_eq!(hex_upper_string(0), "0");
    assert_eq!(hex_upper_string(9), "9");
    assert_eq!(hex_upper_string(255), "FF");
    assert_eq!(hex_upper_string(4096), "1000");
    assert_eq!(hex_upper_string(0xBADC0FEE), "BADC0FEE");
    assert_eq!(hex_upper_string(u64::MAX), "FFFFFFFFFFFFFFFF");
}

#[test]
fn path_joining() {
    assert_eq!(join_path("/tmp", "shmem_a"), "/tmp/shmem_a");
    assert_eq!(join_path("/tmp/", "shmem_a"), "/tmp/shmem_a");
    assert_eq!(join_path("", "shmem_a"), "shmem_a");
    assert_eq!(join_path("dir", "shmem_a"), "dir/shmem_a");
    assert_eq!(join_path("/tmp", "/abs"), "/abs");
    assert_eq!(prefixed_name("xyz"), "shmem_xyz");
}

#[test]
fn generated_namespace_ids() {
    let c = ShmemConf::new().size(8);
    assert_eq!(ok_string(c.create_id_for(0xBADC0FEE)), "/shmem_BADC0FEE");
    assert_eq!(ok_string(c.create_id_for(0)), "/shmem_0");
    assert_eq!(ok_string(c.create_id_for(u64::MAX)), "/shmem_FFFFFFFFFFFFFFFF");
}

#[test]
fn explicit_namespace_id_used_as_is() {
    let c = ShmemConf::new().size(8).os_id("/my_segment");
    assert_eq!(ok_string(c.create_id_for(1)), "/my_segment");
    assert_eq!(ok_string(c.create_id_for(2)), "/my_segment");
}

#[test]
fn tmpfs_paths() {
    let named = ShmemConf::new().use_tmpfs_with_dir("/tmp").os_id("test_tmpfs_id");
    assert_eq!(ok_string(named.create_id_for(3)), "/tmp/shmem_test_tmpfs_id");
    assert_eq!(ok_string(named.tmpfs_file_path_for(4)), "/tmp/shmem_test_tmpfs_id");
    let random = ShmemConf::new().use_tmpfs_with_dir("/tmp/");
    assert_eq!(ok_string(random.create_id_for(0xAB)), "/tmp/shmem_AB");
    assert_eq!(ok_string(random.tmpfs_file_path_for(0x10)), "/tmp/shmem_10");
}

#[test]
fn tmpfs_path_needs_tmpfs_mode() {
    let c = ShmemConf::new().os_id("x");
    assert_eq!(c.tmpfs_file_path_for(1), Err(ShmemError::NotInTmpfsMode));
}

#[test]
fn drawn_ids_have_the_generated_shape() {
    let c = ShmemConf::new().size(8);
    let a = ok_string(c.next_create_id());
    let b = ok_string(c.next_create_id());
    for id in [&a, &b] {
        assert!(id.starts_with("/shmem_"));
        let digits = &id["/shmem_".len()..];
        assert!(!digits.is_empty() && digits.len() <= 16);
        assert!(digits.chars().all(|ch| ch.is_ascii_digit() || ('A'..='F').contains(&ch)));
        assert_eq!(id.matches('/').count(), 1);
    }
    assert_ne!(a, b);
    let t = ShmemConf::new().use_tmpfs_with_dir("/tmp");
    let p = ok_string(t.next_create_id());
    assert!(p.starts_with("/tmp/shmem_"));
}

#[test]
fn collision_retry_policy() {
    let random = ShmemConf::new().size(8);
    assert!(random.retry_create(ShmemError::MappingIdExists));
    assert!(!random.retry_create(ShmemError::MapCreateFailed(13)));
    let explicit = ShmemConf::new().size(8).os_id("/taken");
    assert!(!explicit.retry_create(ShmemError::MappingIdExists));
}

#[test]
fn open_without_identifier_fails() {
    assert!(matches!(ShmemConf::new().open_source(), Err(ShmemError::NoLinkOrOsId)));
    assert!(matches!(
        ShmemConf::new().use_tmpfs_with_dir("/tmp").open_source(),
        Err(ShmemError::NoLinkOrOsId)
    ));
}

#[test]
fn open_sources() {
    match ShmemConf::new().os_id("/seg").open_source() {
        Ok(OpenSource::Explicit(id)) => assert_eq!(id, "/seg"),
        other => panic!("unexpected {:?}", other),
    }
    match ShmemConf::new().use_tmpfs_with_dir("/tmp").os_id("test_tmpfs_open_id").open_source() {
        Ok(OpenSource::Explicit(p)) => assert_eq!(p, "/tmp/shmem_test_tmpfs_open_id"),
        other => panic!("unexpected {:?}", other),
    }
    match ShmemConf::new().flink("tmpfs_open_flink_test").open_source() {
        Ok(OpenSource::Link(p)) => assert_eq!(p, "tmpfs_open_flink_test"),
        other => panic!("unexpected {:?}", other),
    }
    match ShmemConf::new().flink("link").os_id("/seg").open_source() {
        Ok(OpenSource::Explicit(id)) => assert_eq!(id, "/seg"),
        other => panic!("unexpected {:?}", other),
    }
}

#[test]
fn link_reader_retries_up_to_bound() {
    let c = ShmemConf::new().flink("link");
    let e = ShmemError::MapOpenFailed(2);
    for k in 0..OPEN_RETRIES {
        assert_eq!(c.open_step(k, e), OpenStep::Retry(k + 1));
    }
    assert_eq!(c.open_step(OPEN_RETRIES, e), OpenStep::Fail(e));
    assert_eq!(OPEN_RETRIES, 5);
    assert_eq!(OPEN_RETRY_DELAY_MS, 50);
    assert_eq!(c.open_step(0, ShmemError::MapSizeZero), OpenStep::Fail(ShmemError::MapSizeZero));
}

#[test]
fn explicit_open_not_retried() {
    let c = ShmemConf::new().os_id("/seg").flink("link");
    let e = ShmemError::MapOpenFailed(2);
    assert_eq!(c.open_step(0, e), OpenStep::Fail(e));
}

#[test]
fn slow_writer_scenario() {
    // The reader fails five times before the writer is done, then succeeds.
    let c = ShmemConf::new().flink("link");
    let outcomes = [false, false, false, false, false, true];
    let mut retry = 0;
    let mut result = None;
    for (i, ok) in outcomes.iter().enumerate() {
        if *ok {
            result = Some(Ok(i));
            break;
        }
        match c.open_step(retry, ShmemError::MapOpenFailed(2)) {
            OpenStep::Retry(n) => retry = n,
            OpenStep::Fail(e) => {
                result = Some(Err(e));
                break;
            }
        }
    }
    assert_eq!(result, Some(Ok(5)));
}

#[test]
fn link_write_and_failures() {
    assert_eq!(ShmemConf::new().link_write(), LinkWrite::CreateNew);
    assert_eq!(ShmemConf::new().force_create_flink().link_write(), LinkWrite::Truncate);
    assert_eq!(link_create_failure(true, 17), ShmemError::LinkExists);
    assert_eq!(link_create_failure(false, 13), ShmemError::LinkCreateFailed(13));
}

#[test]
fn error_predicates() {
    assert!(ShmemError::MappingIdExists.is_id_taken());
    assert!(!ShmemError::MapCreateFailed(1).is_id_taken());
    assert!(ShmemError::MapOpenFailed(1).is_open_failure());
    assert!(!ShmemError::MapCreateFailed(1).is_open_failure());
}

#[test]
fn create_and_open_resolve_same_target() {
    let created = ShmemConf::new().size(4090).use_tmpfs_with_dir("/tmp").os_id("test_tmpfs_combined");
    let opened = ShmemConf::new().use_tmpfs_with_dir("/tmp").os_id("test_tmpfs_combined").flink("x");
    let path = ok_string(created.create_id_for(99));
    match opened.open_source() {
        Ok(OpenSource::Explicit(p)) => assert_eq!(p, path),
        other => panic!("unexpected {:?}", other),
    }
    let shm = ShmemConf::new().size(8).os_id("/seg");
    match ShmemConf::new().os_id("/seg").open_source() {
        Ok(OpenSource::Explicit(id)) => assert_eq!(id, ok_string(shm.create_id_for(5))),
        other => panic!("unexpected {:?}", other),
    }
}

#[test]
fn explicit_id_needs_no_random() {
    let c = ShmemConf::new().size(8).os_id("/named");
    assert_eq!(ok_string(c.next_create_id()), "/named");
    let t = ShmemConf::new().size(8).use_tmpfs_with_dir("/tmp").os_id("test_tmpfs_id");
    assert_eq!(ok_string(t.next_create_id()), "/tmp/shmem_test_tmpfs_id");
}

#[test]
fn default_matches_new() {
    let d = ShmemConf::default();
    assert_eq!(d.get_size(), 0);
    assert!(!d.is_tmpfs());
    assert!(!d.is_owner());
    assert!(d.link_path().is_none());
    assert_eq!(d.effective_mode(), DEFAULT_MODE);
    assert_eq!(d.check_create(false), Err(ShmemError::MapSizeZero));
}
