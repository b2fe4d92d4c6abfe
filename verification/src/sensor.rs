use vstd::prelude::*;

verus! {

/// The 16-bit word whose high byte is `hi` and low byte is `lo`, as a
/// two's-complement number.
pub open spec fn spec_word(hi: u8, lo: u8) -> int {
    let u = hi * 256 + lo;
    if u >= 32768 {
        u - 65536
    } else {
        u
    }
}

/// Joins the two halves of a sensor register, high half first: the high
/// half shifted up by eight bits (losing what does not fit), or-ed with the
/// low half. For two bytes this is their big-endian two's-complement word.
pub fn be_word(hi: i16, lo: i16) -> (w: i16)
    ensures
        w == ((hi << 8u32) | lo),
        0 <= hi < 256 && 0 <= lo < 256 ==> w == spec_word(hi as u8, lo as u8),
{
    let w = (hi << 8u32) | lo;
    proof {
        if 0 <= hi < 256 && 0 <= lo < 256 {
            let h = hi as u8;
            let l = lo as u8;
            assert(((hi << 8u32) | lo) == (if h >= 128 {
                h as int * 256 + l as int - 65536
            } else {
                h as int * 256 + l as int
            })) by (bit_vector)
                requires
                    0 <= hi < 256,
                    0 <= lo < 256,
                    h == hi as u8,
                    l == lo as u8,
            ;
        }
    }
    w
}

/// One burst read of the motion sensor, register by register.
#[derive(Clone, Copy, Debug)]
pub struct Burst {
    pub acc: [i16; 3],
    pub temp: i16,
    pub gyro: [i16; 3],
}

/// Splits the fourteen halves read from the motion sensor, in register
/// order, into accelerometer x y z, temperature and gyroscope x y z, each
/// joined by [`be_word`].
pub fn parse_burst(b: &[i16; 14]) -> (r: Burst)
    ensures
        r.acc@ == seq![
            (b@[0] << 8u32) | b@[1],
            (b@[2] << 8u32) | b@[3],
            (b@[4] << 8u32) | b@[5],
        ],
        r.temp == ((b@[6] << 8u32) | b@[7]),
        r.gyro@ == seq![
            (b@[8] << 8u32) | b@[9],
            (b@[10] << 8u32) | b@[11],
            (b@[12] << 8u32) | b@[13],
        ],
{
    let r = Burst {
        acc: [be_word(b[0], b[1]), be_word(b[2], b[3]), be_word(b[4], b[5])],
        temp: be_word(b[6], b[7]),
        gyro: [be_word(b[8], b[9]), be_word(b[10], b[11]), be_word(b[12], b[13])],
    };
    assert(r.acc@ =~= seq![
        (b@[0] << 8u32) | b@[1],
        (b@[2] << 8u32) | b@[3],
        (b@[4] << 8u32) | b@[5],
    ]);
    assert(r.gyro@ =~= seq![
        (b@[8] << 8u32) | b@[9],
        (b@[10] << 8u32) | b@[11],
        (b@[12] << 8u32) | b@[13],
    ]);
    r
}

} // verus!
