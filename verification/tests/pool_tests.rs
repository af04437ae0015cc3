use httpfs::file_system::{HttpFs, MAX_READERS};
use httpfs::http_reader::{ProducerAction, HTTP_CHUNK_SIZE};

const MIB: usize = 1 << 20;
const KIB: usize = 1 << 10;
const RESOURCE_LEN: usize = 10 * MIB;

fn reference_bytes(len: usize) -> Vec<u8> {
    let mut v: Vec<u8> = Vec::with_capacity(len);
    let mut i: usize = 0;
    while i < len {
        v.push((i % 256) as u8);
        i += 1;
    }
    v
}

fn new_pool(resource: &[u8]) -> HttpFs {
    HttpFs::new("http://example/resource", resource.len(), "file", Vec::new())
}

/// One round of every live reader's producer: append the next chunk of its
/// stream if the backpressure check allows it.
fn pump_all(fs: &mut HttpFs, resource: &[u8]) {
    let n: usize = fs.readers_count();
    let mut k: usize = 0;
    while k < n {
        let reader = fs.reader_mut(k);
        if matches!(reader.producer_step(), ProducerAction::Append) {
            let start: usize = reader.get_offset() + reader.get_data_len();
            let end: usize = (start + HTTP_CHUNK_SIZE).min(resource.len());
            if start < end {
                reader.append_chunk(&resource[start..end]);
            }
        }
        k += 1;
    }
}

/// The consumer loop as the mount driver runs it, with the sleeps removed:
/// poll the pool, admit a fresh reader when no window holds the request, and
/// let the simulated producers make progress between polls.
fn serve(fs: &mut HttpFs, resource: &[u8], offset: usize, size: usize) -> Vec<u8> {
    let mut polls: usize = 0;
    loop {
        if let Some(d) = fs.drain_data_from_suitable_reader(offset, size) {
            return d;
        }
        if !fs.any_reader_translates(offset, size) {
            fs.admit_reader(offset);
        }
        pump_all(fs, resource);
        polls += 1;
        assert!(polls < 100_000, "request made no progress");
    }
}

#[test]
fn sequential_scan_uses_one_reader_and_reassembles_resource() {
    let resource = reference_bytes(RESOURCE_LEN);
    let mut fs = new_pool(&resource);
    let block: usize = 64 * KIB;
    let mut out: Vec<u8> = Vec::with_capacity(RESOURCE_LEN);
    let mut offset: usize = 0;
    while offset < RESOURCE_LEN {
        let d = serve(&mut fs, &resource, offset, block);
        assert_eq!(d.len(), block.min(RESOURCE_LEN - offset));
        out.extend_from_slice(&d);
        assert_eq!(fs.readers_count(), 1);
        offset += block;
    }
    assert_eq!(out, resource);
}

#[test]
fn small_backward_seek_returns_reference_bytes() {
    let resource = reference_bytes(RESOURCE_LEN);
    let mut fs = new_pool(&resource);
    let first = serve(&mut fs, &resource, MIB, 4 * KIB);
    assert_eq!(&first[..], &resource[MIB..MIB + 4 * KIB]);
    // This pool keeps no prepend reserve: a backward seek, however small,
    // is served by a fresh reader. The bytes must match either way.
    let second = serve(&mut fs, &resource, MIB - KIB, 2 * KIB);
    assert_eq!(&second[..], &resource[MIB - KIB..MIB + KIB]);
}

#[test]
fn large_backward_seek_spawns_second_reader() {
    let resource = reference_bytes(RESOURCE_LEN);
    let mut fs = new_pool(&resource);
    let first = serve(&mut fs, &resource, 8 * MIB, 4 * KIB);
    assert_eq!(&first[..], &resource[8 * MIB..8 * MIB + 4 * KIB]);
    assert_eq!(fs.readers_count(), 1);
    let second = serve(&mut fs, &resource, MIB, 4 * KIB);
    assert_eq!(&second[..], &resource[MIB..MIB + 4 * KIB]);
    assert_eq!(fs.readers_count(), 2);
}

#[test]
fn eviction_stops_oldest_reader_at_capacity() {
    let resource = reference_bytes(RESOURCE_LEN);
    let mut fs = new_pool(&resource);
    let offsets: [usize; 6] = [0, 2 * MIB, 4 * MIB, 6 * MIB, 8 * MIB, 9 * MIB];
    for (i, o) in offsets.iter().enumerate() {
        let d = serve(&mut fs, &resource, *o, 4 * KIB);
        assert_eq!(&d[..], &resource[*o..*o + 4 * KIB]);
        let expected: usize = (i + 1).min(MAX_READERS);
        assert_eq!(fs.readers_count(), expected);
    }
    // The sixth widely separated read pushed the pool past its capacity; the
    // reader that started at offset 0 was evicted and stopped.
    let mut fs2 = new_pool(&resource);
    for o in &offsets[..5] {
        serve(&mut fs2, &resource, *o, 4 * KIB);
    }
    let evicted = fs2.admit_reader(9 * MIB);
    assert_eq!(evicted.len(), 1);
    assert_eq!(evicted[0].get_offset(), 0);
    assert!(evicted[0].should_stop());
    assert_eq!(fs2.readers_count(), MAX_READERS);
}

#[test]
fn short_read_at_end_of_resource() {
    let resource = reference_bytes(RESOURCE_LEN);
    let mut fs = new_pool(&resource);
    let start: usize = RESOURCE_LEN - 100;
    let d = serve(&mut fs, &resource, start, 4096);
    assert_eq!(d.len(), 100);
    assert_eq!(&d[..], &resource[start..]);
}

#[test]
fn stalled_transport_yields_only_buffered_bytes() {
    let resource = reference_bytes(RESOURCE_LEN);
    let mut fs = new_pool(&resource);
    // A transport that never delivers: the reader is admitted but no chunk
    // ever arrives, so polling can never succeed and the consumer's wait
    // times out. The pool still answers, with what little is buffered.
    assert!(fs.drain_data_from_suitable_reader(0, 4096).is_none());
    fs.admit_reader(0);
    let mut polls: usize = 0;
    while polls < 100 {
        assert!(fs.drain_data_from_suitable_reader(0, 4096).is_none());
        polls += 1;
    }
    let short = fs.drain_available_data(0, 4096);
    assert!(short.is_empty());
}

#[test]
fn timed_out_wait_returns_partial_bytes() {
    let resource = reference_bytes(RESOURCE_LEN);
    let mut fs = new_pool(&resource);
    fs.admit_reader(0);
    // The transport delivered one chunk and then stalled.
    let reader = fs.reader_mut(0);
    reader.append_chunk(&resource[0..1000]);
    assert!(fs.drain_data_from_suitable_reader(0, 4096).is_none());
    let short = fs.drain_available_data(0, 4096);
    assert_eq!(&short[..], &resource[0..1000]);
}
