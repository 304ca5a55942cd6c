use vstd::prelude::*;

verus! {

/// One full sine period, sampled at 256 evenly spaced phase points and
/// scaled into the unsigned 16-bit range: 32767 is the zero crossing,
/// 65534 the peak and 0 the trough.
pub const SINE_TABLE: [u16; 256] = [
    32767, 33571, 34374, 35177, 35978, 36778, 37574, 38368,
    39159, 39946, 40728, 41506, 42278, 43045, 43805, 44559,
    45306, 46045, 46776, 47499, 48213, 48917, 49612, 50297,
    50971, 51634, 52286, 52926, 53554, 54169, 54771, 55361,
    55936, 56498, 57045, 57578, 58096, 58598, 59085, 59556,
    60011, 60450, 60872, 61277, 61664, 62035, 62388, 62722,
    63039, 63338, 63618, 63880, 64123, 64347, 64552, 64737,
    64904, 65051, 65179, 65287, 65376, 65445, 65494, 65524,
    65534, 65524, 65494, 65445, 65376, 65287, 65179, 65051,
    64904, 64737, 64552, 64347, 64123, 63880, 63618, 63338,
    63039, 62722, 62388, 62035, 61664, 61277, 60872, 60450,
    60011, 59556, 59085, 58598, 58096, 57578, 57045, 56498,
    55936, 55361, 54771, 54169, 53554, 52926, 52286, 51634,
    50971, 50297, 49612, 48917, 48213, 47499, 46776, 46045,
    45306, 44559, 43805, 43045, 42278, 41506, 40728, 39946,
    39159, 38368, 37574, 36778, 35978, 35177, 34374, 33571,
    32767, 31962, 31159, 30356, 29555, 28755, 27959, 27165,
    26374, 25587, 24805, 24027, 23255, 22488, 21728, 20974,
    20227, 19488, 18757, 18034, 17320, 16616, 15921, 15236,
    14562, 13899, 13247, 12607, 11979, 11364, 10762, 10172,
    9597, 9035, 8488, 7955, 7437, 6935, 6448, 5977,
    5522, 5083, 4661, 4256, 3869, 3498, 3145, 2811,
    2494, 2195, 1915, 1653, 1410, 1186, 981, 796,
    629, 482, 354, 246, 157, 88, 39, 9,
    0, 9, 39, 88, 157, 246, 354, 482,
    629, 796, 981, 1186, 1410, 1653, 1915, 2195,
    2494, 2811, 3145, 3498, 3869, 4256, 4661, 5083,
    5522, 5977, 6448, 6935, 7437, 7955, 8488, 9035,
    9597, 10172, 10762, 11364, 11979, 12607, 13247, 13899,
    14562, 15236, 15921, 16616, 17320, 18034, 18757, 19488,
    20227, 20974, 21728, 22488, 23255, 24027, 24805, 25587,
    26374, 27165, 27959, 28755, 29555, 30356, 31159, 31962,
];

/// Phase index derivation: the high-order bits beyond the 8-bit phase
/// fraction, reduced modulo the table length so that any angular
/// position lands inside the table.
pub open spec fn sine_index(x: int) -> int {
    (x / 256) % 256
}

/// The table entry an angular position selects.
pub open spec fn sine_at(x: int) -> u16 {
    SINE_TABLE[sine_index(x)]
}

/// Every table entry lies in the sample range [0, 65534].
pub proof fn lemma_table_bounded()
    ensures
        forall|i: int| 0 <= i < 256 ==> SINE_TABLE[i] <= 65534,
{
}

/// The table's shape: the zero crossings sit at the start and the
/// middle, the peak a quarter in and the trough three quarters in, and
/// each half is symmetric about its extreme (rising then falling).
pub proof fn lemma_table_shape()
    ensures
        SINE_TABLE[0] == 32767,
        SINE_TABLE[64] == 65534,
        SINE_TABLE[128] == 32767,
        SINE_TABLE[192] == 0,
        forall|i: int| 0 <= i <= 64 ==> SINE_TABLE[64 - i] == #[trigger] SINE_TABLE[64 + i],
        forall|i: int| 0 <= i <= 63 ==> SINE_TABLE[192 - i] == #[trigger] SINE_TABLE[192 + i],
{
}

/// The approximation is periodic: the table index wraps every 65536
/// angular units, so positions one full period apart select the same
/// entry.
pub proof fn lemma_approx_sin_periodic(x: int)
    ensures
        sine_at(x + 65536) == sine_at(x),
{
    assert((x + 65536) / 256 == x / 256 + 256) by (nonlinear_arith);
    assert((x / 256 + 256) % 256 == (x / 256) % 256) by (nonlinear_arith);
}

pub fn approx_sin(x: u64) -> (r: u16)
    ensures
        r == sine_at(x as int),
        r <= 65534,
{
    proof {
        assert(x >> 8 == x / 256) by (bit_vector);
        lemma_table_bounded();
    }
    let index: usize = ((x >> 8) % 256) as usize;
    SINE_TABLE[index]
}

} // verus!
