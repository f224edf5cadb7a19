use resource_monitor::allocator_stats::{mallctl_read, ACTIVE, MAPPED, STATS};
use resource_monitor::{allocator_stats_enabled, ErrorKind, Readings, Resource};

#[test]
fn counters_have_the_names_that_the_allocator_knows() {
    assert_eq!(ACTIVE, "stats.active");
    assert_eq!(MAPPED, "stats.mapped");
    assert_eq!(STATS, "config.stats");
}

#[test]
fn a_status_of_zero_yields_the_value() {
    assert_eq!(mallctl_read(0, 7usize), Ok(7));
    assert_eq!(mallctl_read(0, 0usize), Ok(0));
    assert_eq!(mallctl_read(0, usize::MAX), Ok(usize::MAX));
    assert_eq!(mallctl_read(0, 1u8), Ok(1));
    assert_eq!(mallctl_read(0, "text"), Ok("text"));
}

#[test]
fn any_other_status_is_a_failed_query() {
    for status in [1, 2, 22, -1, i32::MAX, i32::MIN] {
        assert_eq!(mallctl_read(status, 7usize), Err(ErrorKind::AllocatorQueryFailed));
        assert_eq!(mallctl_read(status, 0u8), Err(ErrorKind::AllocatorQueryFailed));
    }
}

#[test]
fn stats_are_enabled_where_the_flag_was_read_and_is_set() {
    assert!(allocator_stats_enabled(0, 1));
    assert!(allocator_stats_enabled(0, 255));
    assert!(!allocator_stats_enabled(0, 0));
    assert!(!allocator_stats_enabled(2, 1));
    assert!(!allocator_stats_enabled(-1, 255));
    assert!(!allocator_stats_enabled(2, 0));
}

#[test]
fn answers_of_the_allocator_become_readings() {
    let r = Readings::gather(
        Some("1000\n"),
        Some("400\n"),
        mallctl_read(0, 30),
        mallctl_read(0, 50),
    );
    assert_eq!(Resource::AllocatorMemory.used(&r), Ok(30));
    assert_eq!(Resource::AllocatorMemory.available(&r), Ok(20));
    assert_eq!(Resource::Memory.used(&r), Ok(380));
    assert_eq!(Resource::Memory.available(&r), Ok(620));

    let r = Readings::gather(
        Some("1000\n"),
        Some("400\n"),
        mallctl_read(2, 0),
        mallctl_read(2, 0),
    );
    assert_eq!(Resource::AllocatorMemory.used(&r), Err(ErrorKind::AllocatorQueryFailed));
    assert_eq!(Resource::AllocatorMemory.available(&r), Err(ErrorKind::AllocatorQueryFailed));
    assert_eq!(Resource::Memory.used(&r), Err(ErrorKind::AllocatorQueryFailed));
    assert_eq!(Resource::Memory.available(&r), Err(ErrorKind::AllocatorQueryFailed));
    assert_eq!(Resource::OsMemory.available(&r), Ok(600));
    assert_eq!(Resource::Memory.limit(&r), Ok(1000));
}
