//! FIFO draining and resynchronisation for the inertial sensor.
//!
//! The sensor queues nine little-endian 16-bit words per sample: three
//! gyroscope words, three accelerometer words, three temperature words.
//! Reads happen in whole words but not in whole samples, so a partial
//! trailing sample is retained and prefixed to the next read. The
//! hardware reports a `pattern` index — the word position inside the
//! current sample of the next word it will hand out — and an overrun
//! flag; whenever either disagrees with the retained bytes, every sample
//! decoded from that poll is tagged [`SampleEvent::Lagged`] and the read
//! cursor is advanced to the next whole sample.

use vstd::prelude::*;

verus! {

/// Gyro/accel/temperature words per sample entry group.
pub const WORDS_PER_ENTRY: u16 = 3;

/// Entry groups per sample (gyroscope, accelerometer, temperature).
pub const ENTRIES_PER_SAMPLE: u16 = 3;

/// Words in one whole sample.
pub const WORDS_PER_SAMPLE: u16 = 9;

/// Bytes in one whole sample.
pub const BYTES_PER_SAMPLE: u16 = 18;

/// Gyroscope scale: millidegrees per second for one raw count at the
/// configured 1000 dps range.
pub const GYRO_MDPS_PER_LSB: i32 = 35;

/// Accelerometer scale: micro-g for one raw count at the configured 8 g
/// range.
pub const ACCEL_UG_PER_LSB: i32 = 244;

/// Transient FIFO state, read fresh from the status registers on every
/// poll.
#[derive(Debug, Clone, Copy)]
pub struct FifoStatus {
    /// Unread 16-bit words queued in the FIFO.
    pub unread_words: u16,
    /// Fill level reached the configured watermark.
    pub threshold: bool,
    /// The FIFO wrapped and data was lost.
    pub over_run: bool,
    /// The FIFO is completely full.
    pub full: bool,
    /// The FIFO holds no data.
    pub empty: bool,
    /// Word index inside the current sample of the next word to be read.
    pub pattern: u16,
}

/// The little-endian unsigned word formed by two bytes.
pub open spec fn word_u16(lo: u8, hi: u8) -> int {
    lo + 256 * hi
}

/// The little-endian signed word formed by two bytes.
pub open spec fn word_i16(lo: u8, hi: u8) -> int {
    if hi < 128 {
        lo + 256 * hi
    } else {
        lo + 256 * hi - 65536
    }
}

/// Whether `b` has the bit selected by `mask` set.
pub open spec fn flag(b: u8, mask: u8) -> bool {
    b & mask != 0
}

impl FifoStatus {
    /// Decode the four status register bytes.
    ///
    /// Byte 0 and the low nibble of byte 1 hold the unread word count,
    /// the high bits of byte 1 the flags, byte 2 and the low two bits of
    /// byte 3 the pattern index.
    pub fn from_bytes(buf: &[u8; 4]) -> (r: FifoStatus)
        ensures
            r.unread_words == word_u16(buf[0], (buf[1] & 0x0f) as u8),
            r.threshold == flag(buf[1], 0x80),
            r.over_run == flag(buf[1], 0x40),
            r.full == flag(buf[1], 0x20),
            r.empty == flag(buf[1], 0x10),
            r.pattern == word_u16(buf[2], (buf[3] & 0x03) as u8),
            r.unread_words < 4096,
            r.pattern < 1024,
    {
        let b1 = buf[1];
        let b3 = buf[3];
        let lo_mask = b1 & 0x0f;
        let pat_hi = b3 & 0x03;
        assert(lo_mask < 16 && pat_hi < 4) by (bit_vector)
            requires
                lo_mask == b1 & 0x0f,
                pat_hi == b3 & 0x03,
        ;
        FifoStatus {
            unread_words: (buf[0] as u16) + 256 * (lo_mask as u16),
            threshold: buf[1] & 0x80 != 0,
            over_run: buf[1] & 0x40 != 0,
            full: buf[1] & 0x20 != 0,
            empty: buf[1] & 0x10 != 0,
            pattern: (buf[2] as u16) + 256 * (pat_hi as u16),
        }
    }
}

/// One unit-converted inertial sample.
#[derive(Debug, Clone, Copy)]
pub struct Sample {
    /// Angular rate per axis, millidegrees per second.
    pub gyro_mdps: [i32; 3],
    /// Acceleration per axis, micro-g.
    pub accel_ug: [i32; 3],
    /// Raw temperature counts, left unconverted; no control path reads
    /// them.
    pub temp_raw: [i16; 3],
}

impl Sample {
    /// Field magnitudes reachable from 16-bit sensor words.
    pub open spec fn wf(self) -> bool {
        &&& forall|i: int| 0 <= i < 3 ==> -1146880 <= #[trigger] self.gyro_mdps[i] <= 1146880
        &&& forall|i: int| 0 <= i < 3 ==> -7995392 <= #[trigger] self.accel_ug[i] <= 7995392
    }
}

/// A decoded sample together with its timing trustworthiness.
#[derive(Debug, Clone, Copy)]
pub enum SampleEvent {
    /// Decoded from a FIFO that was in sync: ordering and timing hold.
    Clean(Sample),
    /// Decoded after a detected desynchronisation or overrun: the
    /// payload is intact but its timing relative to neighbours is not
    /// trustworthy.
    Lagged(Sample),
}

impl SampleEvent {
    /// The carried sample, whatever the tag.
    pub open spec fn sample(self) -> Sample {
        match self {
            SampleEvent::Clean(s) => s,
            SampleEvent::Lagged(s) => s,
        }
    }

    /// Whether the event carries the lag tag.
    pub open spec fn is_lagged(self) -> bool {
        self is Lagged
    }
}

/// The signed value of word `w` of `data`.
pub open spec fn sample_word(data: Seq<u8>, w: int) -> int {
    word_i16(data[2 * w], data[2 * w + 1])
}

/// The sample decoded from bytes `18*k .. 18*k+18` of `data`: gyro words
/// first, then accelerometer, then temperature, each scaled to its unit.
pub open spec fn sample_matches(s: Sample, data: Seq<u8>, k: int) -> bool {
    let base = 9 * k;
    &&& forall|i: int|
        0 <= i < 3 ==> #[trigger] s.gyro_mdps[i] == GYRO_MDPS_PER_LSB * sample_word(
            data,
            base + i,
        )
    &&& forall|i: int|
        0 <= i < 3 ==> #[trigger] s.accel_ug[i] == ACCEL_UG_PER_LSB * sample_word(
            data,
            base + 3 + i,
        )
    &&& forall|i: int| 0 <= i < 3 ==> #[trigger] s.temp_raw[i] == sample_word(data, base + 6 + i)
}

/// Whether a poll with the retained bytes `leftover` and status `st` is
/// out of sync: the hardware lost data, or the retained byte count does
/// not match the reported pattern index.
pub open spec fn poll_lagged(leftover_len: int, st: FifoStatus) -> bool {
    st.over_run || leftover_len != 2 * st.pattern
}

/// Bytes to discard from a desynchronised read so that it starts at the
/// next whole sample.
pub open spec fn resync_skip(st: FifoStatus) -> int {
    if st.pattern == 0 {
        0
    } else {
        18 - 2 * st.pattern
    }
}

/// The byte region a poll decodes from: retained bytes plus fresh bytes
/// when in sync, fresh bytes from the next sample boundary when lagged.
pub open spec fn poll_region(leftover: Seq<u8>, input: Seq<u8>, st: FifoStatus) -> Seq<u8> {
    if !poll_lagged(leftover.len() as int, st) {
        leftover + input
    } else if resync_skip(st) <= input.len() {
        input.skip(resync_skip(st))
    } else {
        Seq::empty()
    }
}

/// Decode the signed little-endian word at byte offset `2*w`.
fn read_word(data: &Vec<u8>, w: usize) -> (r: i16)
    requires
        2 * w + 1 < data@.len(),
    ensures
        r == sample_word(data@, w as int),
{
    let n = data.len();
    assert(2 * w + 1 < n);
    let lo = data[2 * w];
    let hi = data[2 * w + 1];
    let v: i32 = (lo as i32) + 256 * (hi as i32);
    let signed: i32 = if v >= 32768 {
        v - 65536
    } else {
        v
    };
    signed as i16
}

/// Decode and unit-convert the sample at index `k` of `data`.
fn decode_sample(data: &Vec<u8>, k: usize) -> (s: Sample)
    requires
        18 * k + 18 <= data@.len(),
    ensures
        sample_matches(s, data@, k as int),
        s.wf(),
{
    let n = data.len();
    assert(18 * k + 18 <= n);
    let base = 9 * k;
    let gx = read_word(data, base);
    let gy = read_word(data, base + 1);
    let gz = read_word(data, base + 2);
    let ax = read_word(data, base + 3);
    let ay = read_word(data, base + 4);
    let az = read_word(data, base + 5);
    let t0 = read_word(data, base + 6);
    let t1 = read_word(data, base + 7);
    let t2 = read_word(data, base + 8);
    Sample {
        gyro_mdps: [
            GYRO_MDPS_PER_LSB * (gx as i32),
            GYRO_MDPS_PER_LSB * (gy as i32),
            GYRO_MDPS_PER_LSB * (gz as i32),
        ],
        accel_ug: [
            ACCEL_UG_PER_LSB * (ax as i32),
            ACCEL_UG_PER_LSB * (ay as i32),
            ACCEL_UG_PER_LSB * (az as i32),
        ],
        temp_raw: [t0, t1, t2],
    }
}

/// Stateful FIFO reader: carries the partial trailing sample of the
/// previous poll.
pub struct FifoReader {
    leftover: Vec<u8>,
}

impl FifoReader {
    /// The retained bytes of a partial trailing sample.
    pub closed spec fn leftover(&self) -> Seq<u8> {
        self.leftover@
    }

    /// The retained bytes are always a whole number of words and less
    /// than one sample.
    pub closed spec fn inv(&self) -> bool {
        self.leftover@.len() < 18 && self.leftover@.len() % 2 == 0
    }

    /// A reader with nothing retained.
    pub fn new() -> (r: Self)
        ensures
            r.inv(),
            r.leftover() == Seq::<u8>::empty(),
    {
        FifoReader { leftover: Vec::new() }
    }

    /// Decode one poll's worth of FIFO bytes.
    ///
    /// Every whole sample in the poll region becomes one event; all of
    /// them are tagged `Lagged` exactly when the poll was out of sync,
    /// and `Clean` otherwise. The trailing partial sample is retained
    /// for the next poll.
    pub fn drain(&mut self, status: &FifoStatus, input: &[u8]) -> (events: Vec<SampleEvent>)
        requires
            old(self).inv(),
            status.pattern < 9,
            input@.len() % 2 == 0,
        ensures
            final(self).inv(),
            ({
                let region = poll_region(old(self).leftover(), input@, *status);
                let lagged = poll_lagged(old(self).leftover().len() as int, *status);
                &&& events@.len() == region.len() / 18
                &&& forall|k: int|
                    0 <= k < events@.len() ==> (#[trigger] events@[k]).is_lagged() == lagged
                &&& forall|k: int|
                    0 <= k < events@.len() ==> sample_matches(
                        (#[trigger] events@[k]).sample(),
                        region,
                        k,
                    )
                &&& forall|k: int| 0 <= k < events@.len() ==> (#[trigger] events@[k]).sample().wf()
                &&& final(self).leftover() == region.skip(18 * (region.len() / 18) as int)
            }),
    {
        let lagged = status.over_run || self.leftover.len() != 2 * (status.pattern as usize);

        let mut data: Vec<u8> = Vec::new();
        if !lagged {
            let mut i: usize = 0;
            while i < self.leftover.len()
                invariant
                    i <= self.leftover@.len(),
                    data@ == self.leftover@.take(i as int),
                decreases self.leftover@.len() - i,
            {
                data.push(self.leftover[i]);
                assert(data@ =~= self.leftover@.take(i + 1));
                i = i + 1;
            }
            assert(self.leftover@.take(self.leftover@.len() as int) =~= self.leftover@);
            let mut j: usize = 0;
            while j < input.len()
                invariant
                    j <= input@.len(),
                    data@ == self.leftover@ + input@.take(j as int),
                decreases input@.len() - j,
            {
                data.push(input[j]);
                assert(data@ =~= self.leftover@ + input@.take(j + 1));
                j = j + 1;
            }
            assert(input@.take(input@.len() as int) =~= input@);
        } else {
            let skip: usize = if status.pattern == 0 {
                0
            } else {
                18 - 2 * (status.pattern as usize)
            };
            if skip <= input.len() {
                let mut j: usize = skip;
                while j < input.len()
                    invariant
                        skip <= j <= input@.len(),
                        data@ == input@.subrange(skip as int, j as int),
                    decreases input@.len() - j,
                {
                    data.push(input[j]);
                    assert(data@ =~= input@.subrange(skip as int, j + 1));
                    j = j + 1;
                }
                assert(input@.subrange(skip as int, input@.len() as int) =~= input@.skip(
                    skip as int,
                ));
            }
        }
        let ghost region = poll_region(self.leftover@, input@, *status);
        assert(data@ == region);

        let n = data.len() / 18;
        let mut events: Vec<SampleEvent> = Vec::new();
        let mut k: usize = 0;
        while k < n
            invariant
                k <= n,
                n == data@.len() / 18,
                data@ == region,
                events@.len() == k,
                forall|m: int| 0 <= m < k ==> (#[trigger] events@[m]).is_lagged() == lagged,
                forall|m: int|
                    0 <= m < k ==> sample_matches((#[trigger] events@[m]).sample(), region, m),
                forall|m: int| 0 <= m < k ==> (#[trigger] events@[m]).sample().wf(),
            decreases n - k,
        {
            let s = decode_sample(&data, k);
            if lagged {
                events.push(SampleEvent::Lagged(s));
            } else {
                events.push(SampleEvent::Clean(s));
            }
            k = k + 1;
        }

        let keep_from = 18 * n;
        let mut tail: Vec<u8> = Vec::new();
        let mut j: usize = keep_from;
        while j < data.len()
            invariant
                keep_from <= j <= data@.len(),
                data@ == region,
                tail@ == data@.subrange(keep_from as int, j as int),
            decreases data@.len() - j,
        {
            tail.push(data[j]);
            assert(tail@ =~= data@.subrange(keep_from as int, j + 1));
            j = j + 1;
        }
        assert(tail@ =~= region.skip(18 * (region.len() / 18) as int));
        self.leftover = tail;
        events
    }
}

/// Split twelve raw register bytes into six little-endian signed words:
/// three gyroscope axes followed by three accelerometer axes.
pub fn process_imu_data(data: [u8; 12]) -> (res: [i16; 6])
    ensures
        forall|i: int|
            0 <= i < 6 ==> #[trigger] res[i] == word_i16(data[2 * i], data[2 * i + 1]),
{
    let mut res = [0i16; 6];
    let mut i: usize = 0;
    while i < 6
        invariant
            i <= 6,
            forall|m: int|
                0 <= m < i ==> #[trigger] res[m] == word_i16(data[2 * m], data[2 * m + 1]),
        decreases 6 - i,
    {
        let lo = data[2 * i];
        let hi = data[2 * i + 1];
        let v: i32 = (lo as i32) + 256 * (hi as i32);
        let signed: i32 = if v >= 32768 {
            v - 65536
        } else {
            v
        };
        res[i] = signed as i16;
        i = i + 1;
    }
    res
}

/// Sum of column `col` over the first `n` rows.
pub open spec fn column_sum(data: [[i16; 6]; 400], col: int, n: int) -> int
    decreases n,
{
    if n <= 0 {
        0
    } else {
        column_sum(data, col, n - 1) + data[n - 1][col]
    }
}

/// Average 400 resting readings per channel into compensation offsets,
/// truncating towards zero as integer division does.
pub fn get_comp_values(data: [[i16; 6]; 400]) -> (res: [i16; 6])
    ensures
        forall|i: int|
            0 <= i < 6 ==> #[trigger] res[i] == to_zero_div(column_sum(data, i, 400), 400),
{
    let mut sums = [0i64; 6];
    let mut r: usize = 0;
    while r < 400
        invariant
            r <= 400,
            forall|i: int| 0 <= i < 6 ==> #[trigger] sums[i] == column_sum(data, i, r as int),
            forall|i: int| 0 <= i < 6 ==> -32768 * r <= #[trigger] sums[i] <= 32767 * r,
        decreases 400 - r,
    {
        let row = data[r];
        let mut c: usize = 0;
        while c < 6
            invariant
                c <= 6,
                r < 400,
                row == data[r as int],
                forall|i: int|
                    c <= i < 6 ==> #[trigger] sums[i] == column_sum(data, i, r as int),
                forall|i: int|
                    0 <= i < c ==> #[trigger] sums[i] == column_sum(data, i, r + 1),
                forall|i: int| 0 <= i < c ==> -32768 * (r + 1) <= #[trigger] sums[i] <= 32767 * (r + 1),
                forall|i: int| c <= i < 6 ==> -32768 * r <= #[trigger] sums[i] <= 32767 * r,
            decreases 6 - c,
        {
            sums[c] = sums[c] + (row[c] as i64);
            c = c + 1;
        }
        r = r + 1;
    }
    let mut res = [0i16; 6];
    let mut i: usize = 0;
    while i < 6
        invariant
            i <= 6,
            forall|m: int| 0 <= m < 6 ==> #[trigger] sums[m] == column_sum(data, m, 400),
            forall|m: int| 0 <= m < 6 ==> -32768 * 400 <= #[trigger] sums[m] <= 32767 * 400,
            forall|m: int|
                0 <= m < i ==> #[trigger] res[m] == to_zero_div(column_sum(data, m, 400), 400),
        decreases 6 - i,
    {
        let s = sums[i];
        let q: i64 = if s >= 0 {
            (((s as u64) / 400u64) as i64)
        } else {
            -((((-s) as u64) / 400u64) as i64)
        };
        res[i] = q as i16;
        i = i + 1;
    }
    res
}

/// Integer division truncating towards zero, as the machine division
/// operator does.
pub open spec fn to_zero_div(a: int, b: int) -> int {
    if a >= 0 {
        a / b
    } else {
        -((-a) / b)
    }
}

} // verus!
