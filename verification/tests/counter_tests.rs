use read_logger::{Level, Policy, ReadStatsLogger, VecSink};

#[test]
fn check_stats() {
    let mut stats = ReadStatsLogger::new(Level::Info, "READ", VecSink::new());
    stats.log(0, 4, 4);
    stats.log(4, 4, 4);
    assert_eq!(stats.read_count, 2);
    assert_eq!(stats.bytes_total, 8);
}

#[test]
fn initial_state() {
    let stats = ReadStatsLogger::new(Level::Info, "READ", VecSink::new());
    assert_eq!(stats.read_count, 0);
    assert_eq!(stats.bytes_total, 0);
    // Exactly one header line is emitted at construction.
    assert_eq!(stats.sink().entries.len(), 1);
    assert_eq!(
        stats.sink().entries[0].as_str(),
        "Initialize Read logger `READ`,tag,begin,end,length,request_length,count,bytes_total"
    );
}

#[test]
fn compact_header_shape() {
    let stats = ReadStatsLogger::with_policy(Policy::Request, Level::Info, "READ", VecSink::new());
    assert_eq!(stats.sink().entries.len(), 1);
    assert_eq!(stats.sink().entries[0].as_str(), ",tag,length,begin,end,count,bytes_total");
}

#[test]
fn compact_line_shape() {
    let mut stats =
        ReadStatsLogger::with_policy(Policy::Request, Level::Info, "READ", VecSink::new());
    stats.log(0, 8192, 8192);
    assert_eq!(stats.read_count, 1);
    assert_eq!(stats.bytes_total, 8192);
    assert_eq!(stats.sink().entries.len(), 2);
    assert_eq!(stats.sink().entries[1].as_str(), ",READ,8192,0,8192,1,8192");
}

#[test]
fn verbose_line_shape() {
    let mut stats = ReadStatsLogger::new(Level::Debug, "READ", VecSink::new());
    stats.log(0, 237, 8192);
    assert_eq!(stats.sink().entries.len(), 2);
    assert_eq!(
        stats.sink().entries[1].as_str(),
        "Read 0-236 (237 bytes). Total requests: 1 (237 bytes),READ,0,236,237,8192,1,237"
    );
}

#[test]
fn verbose_line_zero_length() {
    let mut stats = ReadStatsLogger::new(Level::Info, "READ", VecSink::new());
    // A zero-length read at offset zero: the end field is clamped to 0
    // rather than underflowing.
    stats.log(0, 0, 4);
    assert_eq!(
        stats.sink().entries[1].as_str(),
        "Read 0-0 (0 bytes). Total requests: 1 (0 bytes),READ,0,0,0,4,1,0"
    );
}

#[test]
fn bytes_total_wraps_silently() {
    let mut stats = ReadStatsLogger::new(Level::Info, "READ", VecSink::new());
    stats.log(0, usize::MAX, usize::MAX);
    assert_eq!(stats.bytes_total, usize::MAX);
    stats.log(0, 2, 2);
    // Wraparound is accepted behavior, not an error.
    assert_eq!(stats.bytes_total, 1);
    assert_eq!(stats.read_count, 2);
}

#[test]
fn one_line_per_record() {
    let mut stats = ReadStatsLogger::new(Level::Trace, "READ", VecSink::new());
    for i in 0..5usize {
        stats.log(i, 1, 1);
    }
    assert_eq!(stats.read_count, 5);
    assert_eq!(stats.bytes_total, 5);
    // One header line plus one data line per recorded read.
    assert_eq!(stats.sink().entries.len(), 6);
}
