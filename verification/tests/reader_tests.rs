use read_logger::{
    BufferedReader, Level, Policy, ReadError, ReadLogger, Readable, SeekFrom, SliceReader, VecSink,
};

#[test]
fn read_cursor() {
    let text = "0123456789";
    let mut reader = ReadLogger::new(
        SliceReader::new(text.as_bytes().to_vec()),
        Level::Info,
        "READ",
        VecSink::new(),
    );

    let mut bytes = vec![0u8; 4];
    assert_eq!(reader.read(&mut bytes).unwrap(), 4);
    assert_eq!(reader.read(&mut bytes).unwrap(), 4);
    assert_eq!(&bytes[..], b"4567");
    assert_eq!(reader.stats().read_count, 2);
    assert_eq!(reader.stats().bytes_total, 8);

    let n = reader.read(&mut bytes).unwrap();
    assert_eq!(n, 2);
    // We count effective bytes, not requested bytes
    assert_eq!(reader.stats().bytes_total, 10);
}

#[test]
fn seek() {
    let text = "0123456789";
    let mut reader = ReadLogger::new(
        SliceReader::new(text.as_bytes().to_vec()),
        Level::Info,
        "READ",
        VecSink::new(),
    );

    let mut bytes = vec![0u8; 4];
    reader.seek(SeekFrom::Start(4)).unwrap();
    assert_eq!(reader.read(&mut bytes).unwrap(), 4);
    assert_eq!(&bytes[..], b"4567");
    assert_eq!(reader.stats().read_count, 1);
    assert_eq!(reader.stats().bytes_total, 4);
}

#[test]
fn buf_reader() {
    let text = "0123456789";
    let cursor = ReadLogger::new(
        SliceReader::new(text.as_bytes().to_vec()),
        Level::Debug,
        "READ",
        VecSink::new(),
    );
    // The buffering layer owns the inner logger; it is recovered with
    // into_inner below so its stats stay accessible after reading.
    let mut buffer =
        ReadLogger::new(BufferedReader::new(cursor), Level::Info, "BUFFER", VecSink::new());

    let mut bytes = vec![0u8; 4];
    assert_eq!(buffer.read(&mut bytes).unwrap(), 4);
    assert_eq!(buffer.read(&mut bytes).unwrap(), 4);
    assert_eq!(&bytes[..], b"4567");
    assert_eq!(buffer.stats().read_count, 2);
    assert_eq!(buffer.stats().bytes_total, 8);
    let cursor = buffer.into_inner().into_inner();
    // The buffering layer issued a single larger read below: each layer
    // counts its own calls, independently.
    assert_eq!(cursor.stats().read_count, 1);
    assert_eq!(cursor.stats().bytes_total, 10);
}

#[test]
fn request_policy_counts_requested_bytes() {
    let text = "0123456789";
    let mut reader = ReadLogger::with_policy(
        SliceReader::new(text.as_bytes().to_vec()),
        Policy::Request,
        Level::Info,
        "READ",
        VecSink::new(),
    );
    let mut bytes = vec![0u8; 4];
    assert_eq!(reader.read(&mut bytes).unwrap(), 4);
    assert_eq!(reader.read(&mut bytes).unwrap(), 4);
    // The source is exhausted: only 2 bytes arrive, but 4 were asked for.
    assert_eq!(reader.read(&mut bytes).unwrap(), 2);
    assert_eq!(reader.stats().read_count, 3);
    assert_eq!(reader.stats().bytes_total, 12);
}

#[test]
fn delivery_policy_counts_delivered_bytes() {
    let text = "0123456789";
    let mut reader = ReadLogger::with_policy(
        SliceReader::new(text.as_bytes().to_vec()),
        Policy::Delivery,
        Level::Info,
        "READ",
        VecSink::new(),
    );
    let mut bytes = vec![0u8; 4];
    assert_eq!(reader.read(&mut bytes).unwrap(), 4);
    assert_eq!(reader.read(&mut bytes).unwrap(), 4);
    assert_eq!(reader.read(&mut bytes).unwrap(), 2);
    assert_eq!(reader.stats().read_count, 3);
    assert_eq!(reader.stats().bytes_total, 10);
}

struct FailingReader;

impl Readable for FailingReader {
    fn inv(&self) -> bool {
        true
    }

    fn read(&mut self, _buf: &mut Vec<u8>) -> Result<usize, ReadError> {
        Err(ReadError)
    }
}

#[test]
fn delivery_policy_skips_failed_reads() {
    let mut reader =
        ReadLogger::new(FailingReader, Level::Info, "READ", VecSink::new());
    let mut bytes = vec![0u8; 4];
    assert_eq!(reader.read(&mut bytes), Err(ReadError));
    // A failing read leaves the counter untouched under delivery counting.
    assert_eq!(reader.stats().read_count, 0);
    assert_eq!(reader.stats().bytes_total, 0);
    assert_eq!(reader.stats().sink().entries.len(), 1);
}

#[test]
fn request_policy_counts_failed_reads() {
    let mut reader = ReadLogger::with_policy(
        FailingReader,
        Policy::Request,
        Level::Info,
        "READ",
        VecSink::new(),
    );
    let mut bytes = vec![0u8; 4];
    assert_eq!(reader.read(&mut bytes), Err(ReadError));
    // The request was issued, so it counts, even though it failed.
    assert_eq!(reader.stats().read_count, 1);
    assert_eq!(reader.stats().bytes_total, 4);
    assert_eq!(reader.stats().sink().entries.len(), 2);
}

#[test]
fn seek_relative_and_from_end() {
    let mut reader = SliceReader::new(b"0123456789".to_vec());
    assert_eq!(reader.seek(SeekFrom::End(-3)).unwrap(), 7);
    let mut bytes = vec![0u8; 3];
    assert_eq!(reader.read(&mut bytes).unwrap(), 3);
    assert_eq!(&bytes[..], b"789");
    assert_eq!(reader.seek(SeekFrom::Current(-4)).unwrap(), 6);
    assert_eq!(reader.read(&mut bytes).unwrap(), 3);
    assert_eq!(&bytes[..], b"678");
}

#[test]
fn seek_to_negative_position_fails() {
    let mut reader = SliceReader::new(b"0123456789".to_vec());
    assert_eq!(reader.seek(SeekFrom::Current(-1)), Err(ReadError));
    // The cursor is unmoved by a failed seek.
    let mut bytes = vec![0u8; 2];
    assert_eq!(reader.read(&mut bytes).unwrap(), 2);
    assert_eq!(&bytes[..], b"01");
}

#[test]
fn seek_past_end_reads_nothing() {
    let mut reader = SliceReader::new(b"0123".to_vec());
    assert_eq!(reader.seek(SeekFrom::Start(10)).unwrap(), 10);
    let mut bytes = vec![0u8; 2];
    assert_eq!(reader.read(&mut bytes).unwrap(), 0);
}

#[test]
fn buffered_reader_refills_in_chunks() {
    let mut buffered =
        BufferedReader::with_capacity(4, SliceReader::new(b"0123456789".to_vec()));
    let mut two = vec![0u8; 2];
    assert_eq!(buffered.read(&mut two).unwrap(), 2);
    assert_eq!(&two[..], b"01");
    let mut four = vec![0u8; 4];
    // Only the buffered remainder is served; no refill mid-call.
    assert_eq!(buffered.read(&mut four).unwrap(), 2);
    assert_eq!(&four[..2], b"23");
    assert_eq!(buffered.read(&mut four).unwrap(), 4);
    assert_eq!(&four[..], b"4567");
}

#[test]
fn zero_length_read_is_recorded() {
    let mut reader = ReadLogger::new(
        SliceReader::new(b"01".to_vec()),
        Level::Info,
        "READ",
        VecSink::new(),
    );
    let mut empty: Vec<u8> = Vec::new();
    assert_eq!(reader.read(&mut empty).unwrap(), 0);
    assert_eq!(reader.stats().read_count, 1);
    assert_eq!(reader.stats().bytes_total, 0);
}
